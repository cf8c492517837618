//! Self-play data: the value target of each recorded position, dense policy
//! vectors, and the bookkeeping of batches of self-play games.
use vstd::prelude::*;
use crate::evaluation::request_indices;
use crate::game::{ACTION_SIZE, Action, GameResult, Player};

verus! {

/// A game is cut off after this many actions.
pub const MAX_ACTIONS: usize = 1000;

/// Whether a game has reached the action limit and is to be ended by two passes.
pub fn action_limit_reached(actions: usize) -> (r: bool)
    ensures
        r == (actions >= MAX_ACTIONS),
{
    actions >= MAX_ACTIONS
}

/// Actions sampled with temperature 1 at the start of a game; later actions
/// take the most probable move.
pub const EXPLORATION_ACTIONS: usize = 30;

/// The actions a self-play game has taken: board moves, passes, and both.
#[derive(Debug, Clone, Copy, PartialEq, Eq, Structural)]
pub struct GameCounters {
    pub moves: usize,
    pub passes: usize,
    pub actions: usize,
}

impl GameCounters {
    /// Every action is a move or a pass, and the limit is never passed.
    pub open spec fn wf(self) -> bool {
        &&& self.moves + self.passes == self.actions
        &&& self.actions <= MAX_ACTIONS
    }

    /// The counts of a game that has not started.
    pub fn new() -> (c: GameCounters)
        ensures
            c.moves == 0,
            c.passes == 0,
            c.actions == 0,
            c.wf(),
    {
        GameCounters { moves: 0, passes: 0, actions: 0 }
    }

    /// Whether the next action is sampled with temperature 1 (else 0).
    pub fn explores(&self) -> (r: bool)
        ensures
            r == (self.actions < EXPLORATION_ACTIONS),
    {
        self.actions < EXPLORATION_ACTIONS
    }

    /// Counts a sampled action and tells whether the game has now reached
    /// the action limit, after which it is ended by two passes.
    pub fn record(&mut self, action: Action) -> (limit: bool)
        requires
            old(self).wf(),
            old(self).actions < MAX_ACTIONS,
        ensures
            final(self).wf(),
            final(self).actions == old(self).actions + 1,
            final(self).moves == old(self).moves + if action is Move {
                1int
            } else {
                0
            },
            final(self).passes == old(self).passes + if action is Pass {
                1int
            } else {
                0
            },
            limit == (final(self).actions >= MAX_ACTIONS),
    {
        match action {
            Action::Move(_) => {
                self.moves = self.moves + 1;
            },
            Action::Pass => {
                self.passes = self.passes + 1;
            },
        }
        self.actions = self.actions + 1;
        action_limit_reached(self.actions)
    }
}

/// The value target of a position for the player to move there: 1 if that
/// player won, -1 if they lost, 0 for a draw.
pub open spec fn spec_outcome_value(result: GameResult, player: Player) -> int {
    match result.spec_winner() {
        Some(w) => if w == player {
            1
        } else {
            -1
        },
        None => 0,
    }
}

/// The value target of a position for the player to move there.
pub fn outcome_value(result: GameResult, player: Player) -> (v: i8)
    ensures
        v == spec_outcome_value(result, player),
{
    match result {
        GameResult::WinByScore { winner } | GameResult::WinByResignation { winner } => {
            if winner == player {
                1
            } else {
                -1
            }
        },
        GameResult::Draw => 0,
    }
}

/// The two sides' value targets of a game always add up to zero.
pub proof fn lemma_outcome_values_opposite(result: GameResult, player: Player)
    ensures
        spec_outcome_value(result, player) + spec_outcome_value(result, player.spec_opponent())
            == 0,
{
}

/// The value target of each result, from each side: a win, on the score or
/// by resignation, is worth 1 to the winner and -1 to the loser; a draw is
/// worth 0 to both.
pub proof fn lemma_outcome_value_of_each_result(winner: Player, player: Player)
    ensures
        spec_outcome_value(GameResult::WinByScore { winner }, winner) == 1,
        spec_outcome_value(GameResult::WinByScore { winner }, winner.spec_opponent()) == -1,
        spec_outcome_value(GameResult::WinByResignation { winner }, winner) == 1,
        spec_outcome_value(GameResult::WinByResignation { winner }, winner.spec_opponent()) == -1,
        spec_outcome_value(GameResult::Draw, player) == 0,
        player != winner ==> player == winner.spec_opponent(),
{
}

/// A position recorded during self-play: the encoded state, the search
/// policy, and the player to move.
pub struct SelfPlayPosition<S> {
    pub state: S,
    pub policy: S,
    pub player: Player,
}

/// A training example: encoded state, policy target and value target.
pub struct TrainingSample<S> {
    pub state: S,
    pub policy: S,
    pub value: i8,
}

/// The training example of a position of a game that ended with `result`.
pub open spec fn sample_of<S>(sample: TrainingSample<S>, position: SelfPlayPosition<S>, result: GameResult) -> bool {
    &&& sample.state == position.state
    &&& sample.policy == position.policy
    &&& sample.value == spec_outcome_value(result, position.player)
}

/// Turns the positions of a finished game into training examples, in order:
/// each keeps its state and policy, and gets the game's outcome for the
/// player to move there as its value.
pub fn to_training_samples<S>(positions: Vec<SelfPlayPosition<S>>, result: GameResult) -> (samples:
    Vec<TrainingSample<S>>)
    ensures
        samples@.len() == positions@.len(),
        forall|i: int|
            0 <= i < positions@.len() ==> #[trigger] sample_of(samples@[i], positions@[i], result),
{
    let ghost orig = positions@;
    let n = positions.len();
    let mut remaining = positions;
    let mut reversed: Vec<SelfPlayPosition<S>> = Vec::new();
    while remaining.len() > 0
        invariant
            remaining@.len() + reversed@.len() == n,
            n == orig.len(),
            forall|j: int| 0 <= j < remaining@.len() ==> #[trigger] remaining@[j] == orig[j],
            forall|k: int| 0 <= k < reversed@.len() ==> #[trigger] reversed@[k] == orig[n - 1 - k],
        decreases remaining@.len(),
    {
        let p = remaining.pop().unwrap();
        reversed.push(p);
    }
    let mut samples: Vec<TrainingSample<S>> = Vec::new();
    while reversed.len() > 0
        invariant
            samples@.len() + reversed@.len() == n,
            n == orig.len(),
            forall|k: int| 0 <= k < reversed@.len() ==> #[trigger] reversed@[k] == orig[n - 1 - k],
            forall|i: int| 0 <= i < samples@.len() ==> #[trigger] sample_of(samples@[i], orig[i], result),
        decreases reversed@.len(),
    {
        let ghost k = samples@.len();
        let ghost before = samples@;
        let p = reversed.pop().unwrap();
        assert(p == orig[k as int]);
        let value = outcome_value(result, p.player);
        samples.push(TrainingSample { state: p.state, policy: p.policy, value });
        assert forall|i: int| 0 <= i < samples@.len() implies #[trigger] sample_of(
            samples@[i],
            orig[i],
            result,
        ) by {
            if i < k {
                assert(samples@[i] == before[i]);
                assert(sample_of(before[i], orig[i], result));
            }
        }
    }
    assert(orig == positions@);
    samples
}

/// The entry of index `j` of the dense form of a sparse policy: the value of
/// the last action of index `j`, or `zero` when none has it.
pub open spec fn dense_entry<T>(policy: Seq<(Action, T)>, j: int, zero: T) -> T
    decreases policy.len(),
{
    if policy.len() == 0 {
        zero
    } else if policy.last().0.spec_index() == j {
        policy.last().1
    } else {
        dense_entry(policy.drop_last(), j, zero)
    }
}

/// Writes a sparse policy into a vector with one entry per action.
pub fn policy_to_dense<T: Copy>(policy: &Vec<(Action, T)>, zero: T) -> (dense: Vec<T>)
    requires
        forall|i: int| 0 <= i < policy@.len() ==> #[trigger] policy@[i].0.spec_index() < ACTION_SIZE,
    ensures
        dense@.len() == ACTION_SIZE,
        forall|j: int| 0 <= j < ACTION_SIZE ==> #[trigger] dense@[j] == dense_entry(policy@, j, zero),
{
    let mut dense: Vec<T> = Vec::new();
    let mut k: usize = 0;
    while k < ACTION_SIZE
        invariant
            k <= ACTION_SIZE,
            dense@.len() == k,
            forall|j: int| 0 <= j < k ==> dense@[j] == zero,
        decreases ACTION_SIZE - k,
    {
        dense.push(zero);
        k = k + 1;
    }
    let mut i: usize = 0;
    assert(policy@.take(0) =~= Seq::<(Action, T)>::empty());
    while i < policy.len()
        invariant
            i <= policy@.len(),
            dense@.len() == ACTION_SIZE,
            forall|i: int|
                0 <= i < policy@.len() ==> #[trigger] policy@[i].0.spec_index() < ACTION_SIZE,
            forall|j: int|
                0 <= j < ACTION_SIZE ==> #[trigger] dense@[j] == dense_entry(
                    policy@.take(i as int),
                    j,
                    zero,
                ),
        decreases policy@.len() - i,
    {
        let (action, p) = policy[i];
        let idx = action.index();
        assert(policy@[i as int].0.spec_index() < ACTION_SIZE);
        dense.set(idx, p);
        assert(policy@.take(i + 1).drop_last() =~= policy@.take(i as int));
        assert forall|j: int| 0 <= j < ACTION_SIZE implies #[trigger] dense@[j] == dense_entry(
            policy@.take(i + 1),
            j,
            zero,
        ) by {
            assert(policy@.take(i + 1).last() == policy@[i as int]);
        }
        i = i + 1;
    }
    assert(policy@.take(policy@.len() as int) =~= policy@);
    dense
}

/// How many of the first games go to each of the two batches played in
/// turn: up to `batch_size` games are started, the first batch taking the
/// larger half.
pub fn initial_slot_sizes(batch_size: usize, total_games: usize) -> (r: (usize, usize))
    ensures
        r.0 + r.1 == if batch_size < total_games {
            batch_size
        } else {
            total_games
        },
        r.0 == (r.0 + r.1 + 1) / 2,
        r.1 <= r.0 <= r.1 + 1,
{
    let initial_games = if batch_size < total_games {
        batch_size
    } else {
        total_games
    };
    let count_0 = initial_games / 2 + initial_games % 2;
    let count_1 = initial_games - count_0;
    (count_0, count_1)
}

/// The state after committing a step of a batch of self-play games, taken
/// in order: a finished game counts as completed and, while games remain to
/// be started, gives its place to a new game numbered by the started count;
/// finished games with no successor leave the batch.
/// Returns (games still in the batch, finished games, games started).
pub open spec fn self_play_commit(games: Seq<usize>, finished: Seq<bool>, started: nat, total: nat) -> (
    Seq<usize>,
    Seq<usize>,
    nat,
)
    decreases games.len(),
{
    if games.len() == 0 {
        (Seq::empty(), Seq::empty(), started)
    } else {
        let (kept, done, st) = self_play_commit(
            games.drop_last(),
            finished.drop_last(),
            started,
            total,
        );
        let g = games.last();
        if !finished[games.len() - 1] {
            (kept.push(g), done, st)
        } else if st < total {
            (kept.push(st as usize), done.push(g), st + 1)
        } else {
            (kept, done.push(g), st)
        }
    }
}

/// The number of finished games in a list of flags.
pub open spec fn finished_flags(finished: Seq<bool>) -> nat
    decreases finished.len(),
{
    if finished.len() == 0 {
        0
    } else {
        finished_flags(finished.drop_last()) + if finished.last() {
            1nat
        } else {
            0
        }
    }
}

/// `x` is a game of the batch that has finished.
pub open spec fn is_finished_game(games: Seq<usize>, finished: Seq<bool>, x: usize) -> bool {
    exists|j: int| 0 <= j < games.len() && finished[j] && games[j] == x
}

/// Committing a self-play step accounts for every game: each finished game
/// is reported once, new games are started one per finished game while
/// fewer than `total` have been started, and the batch keeps its unfinished
/// games and the new ones, so it shrinks only by the finished games that
/// could not be replaced. The games reported are games of the batch that
/// finished, and every unfinished game stays in the batch.
pub proof fn lemma_self_play_commit_accounts(
    games: Seq<usize>,
    finished: Seq<bool>,
    started: nat,
    total: nat,
)
    requires
        finished.len() == games.len(),
        total <= usize::MAX + 1,
    ensures
        self_play_commit(games, finished, started, total).1.len() == finished_flags(finished),
        self_play_commit(games, finished, started, total).2 == if started >= total {
            started
        } else if started + finished_flags(finished) <= total {
            started + finished_flags(finished)
        } else {
            total
        },
        self_play_commit(games, finished, started, total).0.len() + self_play_commit(
            games,
            finished,
            started,
            total,
        ).1.len() == games.len() + (self_play_commit(games, finished, started, total).2
            - started),
        forall|k: int|
            0 <= k < self_play_commit(games, finished, started, total).1.len()
                ==> is_finished_game(
                games,
                finished,
                #[trigger] self_play_commit(games, finished, started, total).1[k],
            ),
        forall|j: int|
            0 <= j < games.len() && !finished[j] ==> self_play_commit(
                games,
                finished,
                started,
                total,
            ).0.contains(#[trigger] games[j]),
    decreases games.len(),
{
    if games.len() > 0 {
        let gs = games.drop_last();
        let fs = finished.drop_last();
        lemma_self_play_commit_accounts(gs, fs, started, total);
        assert(finished[games.len() - 1] == finished.last());
        let (kept, done, st) = self_play_commit(gs, fs, started, total);
        let (k2, d2, st2) = self_play_commit(games, finished, started, total);
        let n = games.len() - 1;
        assert forall|k: int| 0 <= k < d2.len() implies is_finished_game(
            games,
            finished,
            #[trigger] d2[k],
        ) by {
            if k < done.len() {
                assert(d2[k] == done[k]);
                assert(is_finished_game(gs, fs, done[k]));
                let j = choose|j: int| 0 <= j < gs.len() && fs[j] && gs[j] == done[k];
                assert(games[j] == gs[j] && finished[j] == fs[j]);
            } else {
                assert(d2[k] == games[n] && finished[n]);
            }
        }
        assert forall|j: int| 0 <= j < games.len() && !finished[j] implies k2.contains(
            #[trigger] games[j],
        ) by {
            if j < n {
                assert(games[j] == gs[j] && finished[j] == fs[j]);
                assert(kept.contains(gs[j]));
                let t = choose|t: int| 0 <= t < kept.len() && kept[t] == gs[j];
                if !finished[n] {
                    assert(k2 == kept.push(games.last()));
                    assert(k2[t] == kept[t]);
                } else if st < total {
                    assert(k2 == kept.push(st as usize));
                    assert(k2[t] == kept[t]);
                } else {
                    assert(k2 == kept);
                }
            } else {
                assert(k2 == kept.push(games.last()));
                assert(k2[kept.len() as int] == games[j]);
            }
        }
    }
}

/// A batch of self-play games played side by side, numbered in the order
/// they were started, and the search step they are at.
pub struct GameSlot {
    pub games: Vec<usize>,
    pub step: usize,
}

impl GameSlot {
    /// The positions of the games of the batch whose search waits for the
    /// network, in batch order: all of them go to the one model, and its
    /// i-th answer goes back to the i-th of them.
    pub fn waiting_games(waiting: &Vec<bool>) -> (r: Vec<usize>)
        ensures
            r@ == request_indices(
                waiting@,
                Seq::new(waiting@.len(), |i: int| true),
                true,
                waiting@.len() as int,
            ),
    {
        let ghost all = Seq::new(waiting@.len(), |i: int| true);
        let mut r: Vec<usize> = Vec::new();
        let mut i: usize = 0;
        while i < waiting.len()
            invariant
                i <= waiting@.len(),
                all == Seq::new(waiting@.len(), |i: int| true),
                r@ == request_indices(waiting@, all, true, i as int),
            decreases waiting@.len() - i,
        {
            assert(all[i as int]);
            if waiting[i] {
                r.push(i);
            }
            i = i + 1;
        }
        r
    }

    /// A batch of `count` new games, numbered from `first`.
    pub fn new(first: usize, count: usize) -> (s: GameSlot)
        requires
            first + count <= usize::MAX,
        ensures
            s.games@.len() == count,
            forall|i: int| 0 <= i < count ==> #[trigger] s.games@[i] == first + i,
            s.step == 0,
    {
        let mut games: Vec<usize> = Vec::new();
        let mut i: usize = 0;
        while i < count
            invariant
                i <= count,
                first + count <= usize::MAX,
                games@.len() == i,
                forall|j: int| 0 <= j < i ==> #[trigger] games@[j] == first + j,
            decreases count - i,
        {
            games.push(first + i);
            i = i + 1;
        }
        GameSlot { games, step: 0 }
    }

    /// Ends a search step: `finished[i]` tells whether the i-th game of the
    /// batch has ended. Returns the finished games, whose samples are then
    /// collected; each counts as completed and is replaced by a new game
    /// while fewer than `total` games have been started.
    pub fn commit_actions(
        &mut self,
        finished: &Vec<bool>,
        completed: &mut usize,
        started: &mut usize,
        total: usize,
    ) -> (done: Vec<usize>)
        requires
            finished@.len() == old(self).games@.len(),
            *old(completed) + old(self).games@.len() <= usize::MAX,
        ensures
            ({
                let (kept, d, st) = self_play_commit(
                    old(self).games@,
                    finished@,
                    *old(started) as nat,
                    total as nat,
                );
                &&& final(self).games@ == kept
                &&& done@ == d
                &&& *final(started) == st
                &&& *final(completed) == *old(completed) + d.len()
                &&& final(self).step == 0
            }),
    {
        self.step = 0;
        let ghost games0 = self.games@;
        let ghost completed0 = *completed;
        let ghost started0 = *started;
        let mut kept: Vec<usize> = Vec::new();
        let mut done: Vec<usize> = Vec::new();
        let mut i: usize = 0;
        assert(games0.take(0) =~= Seq::<usize>::empty());
        assert(finished@.take(0) =~= Seq::<bool>::empty());
        while i < self.games.len()
            invariant
                self.games@ == games0,
                finished@.len() == games0.len(),
                i <= games0.len(),
                completed0 + games0.len() <= usize::MAX,
                ({
                    let (k, d, st) = self_play_commit(
                        games0.take(i as int),
                        finished@.take(i as int),
                        started0 as nat,
                        total as nat,
                    );
                    &&& kept@ == k
                    &&& done@ == d
                    &&& *started == st
                    &&& *completed == completed0 + d.len()
                    &&& d.len() <= i
                }),
            decreases games0.len() - i,
        {
            let g = self.games[i];
            proof {
                assert(games0.take(i + 1).drop_last() =~= games0.take(i as int));
                assert(finished@.take(i + 1).drop_last() =~= finished@.take(i as int));
                assert(games0.take(i + 1).last() == g);
                assert(finished@.take(i + 1)[i as int] == finished@[i as int]);
            }
            if !finished[i] {
                kept.push(g);
            } else {
                done.push(g);
                *completed = *completed + 1;
                if *started < total {
                    kept.push(*started);
                    *started = *started + 1;
                }
            }
            i = i + 1;
        }
        assert(games0.take(games0.len() as int) =~= games0);
        assert(finished@.take(games0.len() as int) =~= finished@);
        self.games = kept;
        done
    }
}

} // verus!
