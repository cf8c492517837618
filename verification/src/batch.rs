//! The schedule of batched self-play: two batches of games take turns on
//! the network, so that one batch searches while the other's positions are
//! evaluated. Each batch sends its waiting positions, applies the answer,
//! advances its search step, commits its games' actions once the step
//! reaches the iteration count, and selects again until it has positions to
//! send, is empty, or all games are completed.
use vstd::prelude::*;

verus! {

/// Where the schedule stands.
#[derive(Debug, Clone, Copy, PartialEq, Eq, Structural)]
pub enum BatchPhase {
    /// Not started.
    Start,
    /// Waiting for the first selection of a batch.
    InitialSelect(usize),
    /// Waiting for an answer of the network.
    Receive,
    /// Waiting for a batch's actions to be committed.
    Commit(usize),
    /// Waiting for a further selection of a batch.
    Reselect(usize),
    /// No request is in flight and none will be sent.
    Done,
}

/// What the driver reports back.
#[derive(Debug, Clone, Copy, PartialEq, Eq, Structural)]
pub enum BatchEvent {
    Begin,
    /// The batch selected; `true` when it had positions and sent them.
    Selected(bool),
    /// The answer for this batch arrived and was applied to its searches.
    Received(usize),
    /// The batch's actions were committed: the games left in it, and the
    /// number of completed games so far.
    Committed { games: usize, completed: usize },
}

/// What the driver is asked to do next.
#[derive(Debug, Clone, Copy, PartialEq, Eq, Structural)]
pub enum BatchAction {
    /// Run a selection step on this batch and send its positions if any.
    Select(usize),
    /// Wait for the next answer of the network.
    Receive,
    /// Play the chosen action in every game of this batch and commit.
    Commit(usize),
    /// Stop: all answers are in.
    Finish,
}

/// The state of the schedule: search iterations per move, games to play,
/// games completed, requests in flight, and per batch its search step, its
/// number of games and whether it has a request in flight.
#[derive(Debug, Clone, Copy)]
pub struct BatchSchedule {
    pub iterations: usize,
    pub total: usize,
    pub completed: usize,
    pub in_flight: usize,
    pub steps: (usize, usize),
    pub sizes: (usize, usize),
    pub waiting: (bool, bool),
    pub phase: BatchPhase,
}

pub open spec fn step_of(s: BatchSchedule, i: usize) -> usize {
    if i == 0 {
        s.steps.0
    } else {
        s.steps.1
    }
}

pub open spec fn size_of(s: BatchSchedule, i: usize) -> usize {
    if i == 0 {
        s.sizes.0
    } else {
        s.sizes.1
    }
}

pub open spec fn waiting_of(s: BatchSchedule, i: usize) -> bool {
    if i == 0 {
        s.waiting.0
    } else {
        s.waiting.1
    }
}

pub open spec fn with_step(s: BatchSchedule, i: usize, v: usize) -> BatchSchedule {
    if i == 0 {
        BatchSchedule { steps: (v, s.steps.1), ..s }
    } else {
        BatchSchedule { steps: (s.steps.0, v), ..s }
    }
}

pub open spec fn with_size(s: BatchSchedule, i: usize, v: usize) -> BatchSchedule {
    if i == 0 {
        BatchSchedule { sizes: (v, s.sizes.1), ..s }
    } else {
        BatchSchedule { sizes: (s.sizes.0, v), ..s }
    }
}

pub open spec fn with_waiting(s: BatchSchedule, i: usize, v: bool) -> BatchSchedule {
    if i == 0 {
        BatchSchedule { waiting: (v, s.waiting.1), ..s }
    } else {
        BatchSchedule { waiting: (s.waiting.0, v), ..s }
    }
}

/// Wait for an answer while one is due; finish otherwise.
pub open spec fn next_receive(s: BatchSchedule) -> (BatchSchedule, BatchAction) {
    if s.in_flight > 0 {
        (BatchSchedule { phase: BatchPhase::Receive, ..s }, BatchAction::Receive)
    } else {
        (BatchSchedule { phase: BatchPhase::Done, ..s }, BatchAction::Finish)
    }
}

/// A batch that still has games while games remain to be completed selects
/// again; otherwise the schedule waits for answers.
pub open spec fn continue_batch(s: BatchSchedule, i: usize) -> (BatchSchedule, BatchAction) {
    if size_of(s, i) > 0 && s.completed < s.total {
        (BatchSchedule { phase: BatchPhase::Reselect(i), ..s }, BatchAction::Select(i))
    } else {
        next_receive(s)
    }
}

/// The batch's search step advances; at the iteration count its actions are
/// committed.
pub open spec fn advance_step(s: BatchSchedule, i: usize) -> (BatchSchedule, BatchAction) {
    let s2 = with_step(s, i, (step_of(s, i) + 1) as usize);
    if step_of(s2, i) >= s.iterations {
        (BatchSchedule { phase: BatchPhase::Commit(i), ..s2 }, BatchAction::Commit(i))
    } else {
        continue_batch(s2, i)
    }
}

/// The batch sent a request.
pub open spec fn sent(s: BatchSchedule, i: usize) -> BatchSchedule {
    BatchSchedule { in_flight: (s.in_flight + 1) as usize, ..with_waiting(s, i, true) }
}

/// One step of the schedule. The first batch and then the second select
/// once; then, for each answer: the batch's step advances (committing at the
/// iteration count, which resets the step), and the batch selects again,
/// advancing its step on each selection that finds nothing to send, until it
/// sends, is empty, or all games are completed. The schedule finishes when
/// no request is in flight.
pub open spec fn spec_batch_step(s: BatchSchedule, e: BatchEvent) -> (BatchSchedule, BatchAction) {
    match (s.phase, e) {
        (BatchPhase::Start, _) => (
            BatchSchedule { phase: BatchPhase::InitialSelect(0), ..s },
            BatchAction::Select(0),
        ),
        (BatchPhase::InitialSelect(i), BatchEvent::Selected(has)) => {
            let s2 = if has {
                sent(s, i)
            } else {
                s
            };
            if i == 0 {
                (BatchSchedule { phase: BatchPhase::InitialSelect(1), ..s2 }, BatchAction::Select(1))
            } else {
                next_receive(s2)
            }
        },
        (BatchPhase::Receive, BatchEvent::Received(i)) => advance_step(
            BatchSchedule { in_flight: (s.in_flight - 1) as usize, ..with_waiting(s, i, false) },
            i,
        ),
        (BatchPhase::Reselect(i), BatchEvent::Selected(has)) => if has {
            next_receive(sent(s, i))
        } else {
            advance_step(s, i)
        },
        (BatchPhase::Commit(i), BatchEvent::Committed { games, completed }) => continue_batch(
            BatchSchedule { completed, ..with_size(with_step(s, i, 0), i, games) },
            i,
        ),
        _ => (s, BatchAction::Finish),
    }
}

/// The answer a phase waits for.
pub open spec fn batch_expects(s: BatchSchedule, e: BatchEvent) -> bool {
    match s.phase {
        BatchPhase::Start => e == BatchEvent::Begin,
        BatchPhase::InitialSelect(_) => e is Selected,
        BatchPhase::Receive => e matches BatchEvent::Received(i) && i < 2 && waiting_of(s, i),
        BatchPhase::Commit(_) => e is Committed,
        BatchPhase::Reselect(_) => e is Selected,
        BatchPhase::Done => false,
    }
}

impl BatchSchedule {
    /// The schedule's invariant: the requests in flight are those of the
    /// batches marked waiting (at most one per batch); a step below the
    /// iteration count (or zero) outside a commit; a batch being selected or
    /// committed has no request in flight; answers are awaited only while
    /// some are due, and the schedule is done only when none is.
    pub open spec fn wf(self) -> bool {
        &&& self.in_flight == (if self.waiting.0 {
            1int
        } else {
            0
        }) + (if self.waiting.1 {
            1int
        } else {
            0
        })
        &&& forall|i: usize|
            i < 2 && self.phase != BatchPhase::Commit(i) ==> #[trigger] step_of(self, i) == 0
                || step_of(self, i) < self.iterations
        &&& forall|i: usize|
            i < 2 && self.phase == BatchPhase::Commit(i) ==> #[trigger] step_of(self, i) == 1
                || step_of(self, i) <= self.iterations
        &&& match self.phase {
            BatchPhase::Start => self.in_flight == 0,
            BatchPhase::InitialSelect(i) => i < 2 && !waiting_of(self, i) && (i == 0
                ==> self.in_flight == 0),
            BatchPhase::Receive => self.in_flight > 0,
            BatchPhase::Commit(i) => i < 2 && !waiting_of(self, i),
            BatchPhase::Reselect(i) => i < 2 && !waiting_of(self, i),
            BatchPhase::Done => self.in_flight == 0,
        }
    }

    /// A schedule for `total` games with `iterations` search steps per move,
    /// whose two batches start with `sizes` games.
    pub fn new(iterations: usize, total: usize, sizes: (usize, usize)) -> (s: BatchSchedule)
        ensures
            s == (BatchSchedule {
                iterations,
                total,
                completed: 0,
                in_flight: 0,
                steps: (0, 0),
                sizes,
                waiting: (false, false),
                phase: BatchPhase::Start,
            }),
            s.wf(),
    {
        BatchSchedule {
            iterations,
            total,
            completed: 0,
            in_flight: 0,
            steps: (0, 0),
            sizes,
            waiting: (false, false),
            phase: BatchPhase::Start,
        }
    }

    fn set_step(&mut self, i: usize, v: usize)
        ensures
            *final(self) == with_step(*old(self), i, v),
    {
        if i == 0 {
            self.steps.0 = v;
        } else {
            self.steps.1 = v;
        }
    }

    fn set_size(&mut self, i: usize, v: usize)
        ensures
            *final(self) == with_size(*old(self), i, v),
    {
        if i == 0 {
            self.sizes.0 = v;
        } else {
            self.sizes.1 = v;
        }
    }

    fn set_waiting(&mut self, i: usize, v: bool)
        ensures
            *final(self) == with_waiting(*old(self), i, v),
    {
        if i == 0 {
            self.waiting.0 = v;
        } else {
            self.waiting.1 = v;
        }
    }

    fn get_step(&self, i: usize) -> (v: usize)
        ensures
            v == step_of(*self, i),
    {
        if i == 0 {
            self.steps.0
        } else {
            self.steps.1
        }
    }

    fn get_size(&self, i: usize) -> (v: usize)
        ensures
            v == size_of(*self, i),
    {
        if i == 0 {
            self.sizes.0
        } else {
            self.sizes.1
        }
    }

    fn do_next_receive(&mut self) -> (a: BatchAction)
        ensures
            (*final(self), a) == next_receive(*old(self)),
    {
        if self.in_flight > 0 {
            self.phase = BatchPhase::Receive;
            BatchAction::Receive
        } else {
            self.phase = BatchPhase::Done;
            BatchAction::Finish
        }
    }

    fn do_continue(&mut self, i: usize) -> (a: BatchAction)
        ensures
            (*final(self), a) == continue_batch(*old(self), i),
    {
        if self.get_size(i) > 0 && self.completed < self.total {
            self.phase = BatchPhase::Reselect(i);
            BatchAction::Select(i)
        } else {
            self.do_next_receive()
        }
    }

    fn do_advance(&mut self, i: usize) -> (a: BatchAction)
        requires
            step_of(*old(self), i) < usize::MAX,
        ensures
            (*final(self), a) == advance_step(*old(self), i),
    {
        let v = self.get_step(i) + 1;
        self.set_step(i, v);
        if v >= self.iterations {
            self.phase = BatchPhase::Commit(i);
            BatchAction::Commit(i)
        } else {
            self.do_continue(i)
        }
    }

    fn do_sent(&mut self, i: usize)
        requires
            old(self).in_flight < usize::MAX,
        ensures
            *final(self) == sent(*old(self), i),
    {
        self.set_waiting(i, true);
        self.in_flight = self.in_flight + 1;
    }

    /// Advances the schedule with the answer to the last action and returns
    /// the next action.
    pub fn step(&mut self, event: BatchEvent) -> (a: BatchAction)
        requires
            old(self).wf(),
            batch_expects(*old(self), event),
        ensures
            (*final(self), a) == spec_batch_step(*old(self), event),
            final(self).wf(),
    {
        proof {
            lemma_batch_step_keeps_wf(*self, event);
        }
        match (self.phase, event) {
            (BatchPhase::Start, _) => {
                self.phase = BatchPhase::InitialSelect(0);
                BatchAction::Select(0)
            },
            (BatchPhase::InitialSelect(i), BatchEvent::Selected(has)) => {
                if has {
                    self.do_sent(i);
                }
                if i == 0 {
                    self.phase = BatchPhase::InitialSelect(1);
                    BatchAction::Select(1)
                } else {
                    self.do_next_receive()
                }
            },
            (BatchPhase::Receive, BatchEvent::Received(i)) => {
                assert(step_of(*self, i) == 0 || step_of(*self, i) < self.iterations);
                self.set_waiting(i, false);
                self.in_flight = self.in_flight - 1;
                self.do_advance(i)
            },
            (BatchPhase::Reselect(i), BatchEvent::Selected(has)) => {
                if has {
                    self.do_sent(i);
                    self.do_next_receive()
                } else {
                    assert(step_of(*self, i) == 0 || step_of(*self, i) < self.iterations);
                    self.do_advance(i)
                }
            },
            (BatchPhase::Commit(i), BatchEvent::Committed { games, completed }) => {
                self.set_step(i, 0);
                self.set_size(i, games);
                self.completed = completed;
                self.do_continue(i)
            },
            _ => BatchAction::Finish,
        }
    }
}

/// Every step keeps the schedule's invariant: at most one request per batch
/// is in flight, a search step never passes the iteration count, a batch is
/// never selected or committed while it waits for an answer, and the
/// schedule finishes only when no answer is due. A selection or commit names
/// one of the two batches.
pub proof fn lemma_batch_step_keeps_wf(s: BatchSchedule, e: BatchEvent)
    requires
        s.wf(),
        batch_expects(s, e),
    ensures
        spec_batch_step(s, e).0.wf(),
        spec_batch_step(s, e).0.in_flight <= 2,
        spec_batch_step(s, e).1 == BatchAction::Finish ==> spec_batch_step(s, e).0.in_flight == 0,
        spec_batch_step(s, e).1 matches BatchAction::Select(i) ==> i < 2 && !waiting_of(
            spec_batch_step(s, e).0,
            i,
        ),
        spec_batch_step(s, e).1 matches BatchAction::Commit(i) ==> i < 2 && !waiting_of(
            spec_batch_step(s, e).0,
            i,
        ),
{
    let r = spec_batch_step(s, e);
    assert(step_of(s, 0) == 0 || step_of(s, 0) < s.iterations || s.phase == BatchPhase::Commit(0));
    assert(step_of(s, 1) == 0 || step_of(s, 1) < s.iterations || s.phase == BatchPhase::Commit(1));
    assert(r.0.wf());
}

/// A batch is never left idle while it has games and games remain to be
/// completed: after an answer, or after a selection that found nothing to
/// send, it commits when its search step reaches the iteration count and
/// otherwise selects again at once, whatever the other batch is doing; after
/// a commit it selects again while it has games and games remain. A batch
/// that sent positions waits for their answer. The schedule moves on to
/// other work only when the batch is empty or all games are completed.
/// At the start each batch is selected once, the first and then the second,
/// and a batch that sent positions then has a request in flight.
pub proof fn lemma_live_batch_keeps_working(s: BatchSchedule, e: BatchEvent, i: usize)
    requires
        s.wf(),
        batch_expects(s, e),
        i < 2,
    ensures
        s.phase == BatchPhase::Start ==> spec_batch_step(s, e).1 == BatchAction::Select(0),
        s.phase == BatchPhase::InitialSelect(0) ==> spec_batch_step(s, e).1 == BatchAction::Select(
            1,
        ),
        s.phase == BatchPhase::InitialSelect(i) ==> {
            let r = spec_batch_step(s, e);
            &&& waiting_of(r.0, i) == (e == BatchEvent::Selected(true))
            &&& r.0.in_flight == s.in_flight + if e == BatchEvent::Selected(true) {
                1int
            } else {
                0
            }
        },
        s.phase == BatchPhase::Receive && e == BatchEvent::Received(i) ==> {
            let r = spec_batch_step(s, e);
            &&& step_of(s, i) + 1 >= s.iterations ==> r.1 == BatchAction::Commit(i)
            &&& step_of(s, i) + 1 < s.iterations && size_of(s, i) > 0 && s.completed < s.total
                ==> r.1 == BatchAction::Select(i) && r.0.phase == BatchPhase::Reselect(i)
            &&& r.1 != BatchAction::Select(i) && r.1 != BatchAction::Commit(i) ==> (size_of(s, i)
                == 0 || s.completed >= s.total)
            &&& !waiting_of(r.0, i)
            &&& r.0.in_flight == s.in_flight - 1
        },
        s.phase == BatchPhase::Reselect(i) && e == BatchEvent::Selected(false) ==> {
            let r = spec_batch_step(s, e);
            &&& step_of(s, i) + 1 >= s.iterations ==> r.1 == BatchAction::Commit(i)
            &&& step_of(s, i) + 1 < s.iterations && size_of(s, i) > 0 && s.completed < s.total
                ==> r.1 == BatchAction::Select(i)
            &&& r.0.in_flight == s.in_flight
        },
        s.phase == BatchPhase::Reselect(i) && e == BatchEvent::Selected(true) ==> {
            let r = spec_batch_step(s, e);
            &&& waiting_of(r.0, i)
            &&& r.0.in_flight == s.in_flight + 1
            &&& r.1 == BatchAction::Receive
        },
        s.phase == BatchPhase::Commit(i) && e is Committed ==> {
            let r = spec_batch_step(s, e);
            &&& r.0.completed == e->completed
            &&& size_of(r.0, i) == e->games
            &&& step_of(r.0, i) == 0
            &&& e->games > 0 && e->completed < s.total ==> r.1 == BatchAction::Select(i)
            &&& !(e->games > 0 && e->completed < s.total) ==> r.1 == if s.in_flight > 0 {
                BatchAction::Receive
            } else {
                BatchAction::Finish
            }
        },
{
}

} // verus!
