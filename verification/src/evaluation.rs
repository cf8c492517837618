//! Evaluation matches between a candidate model and a baseline: which side
//! the candidate plays, the tally of the games, and the bookkeeping of the
//! batches of games played side by side.
use vstd::prelude::*;
use crate::game::{GameResult, Player};

verus! {

/// The candidate plays Black in even-numbered games and White in odd ones.
pub open spec fn spec_candidate_is_black(index: int) -> bool {
    index % 2 == 0
}

/// Whether the candidate plays Black in the game with this index.
pub fn candidate_is_black(index: usize) -> (r: bool)
    ensures
        r == spec_candidate_is_black(index as int),
{
    index % 2 == 0
}

/// Whether the candidate won the game with this index.
pub open spec fn spec_candidate_won(index: int, result: GameResult) -> bool {
    match result.spec_winner() {
        Some(w) => (spec_candidate_is_black(index) && w == Player::Black) || (
        !spec_candidate_is_black(index) && w == Player::White),
        None => false,
    }
}

/// (wins, losses, draws) of the candidate over a list of (index, result).
pub open spec fn tally(results: Seq<(usize, GameResult)>) -> (nat, nat, nat)
    decreases results.len(),
{
    if results.len() == 0 {
        (0, 0, 0)
    } else {
        let (w, l, d) = tally(results.drop_last());
        let (index, result) = results.last();
        if result is Draw {
            (w, l, d + 1)
        } else if spec_candidate_won(index as int, result) {
            (w + 1, l, d)
        } else {
            (w, l + 1, d)
        }
    }
}

/// Every game is a win, a loss or a draw for the candidate.
pub proof fn lemma_tally_partitions(results: Seq<(usize, GameResult)>)
    ensures
        tally(results).0 + tally(results).1 + tally(results).2 == results.len(),
    decreases results.len(),
{
    if results.len() > 0 {
        lemma_tally_partitions(results.drop_last());
    }
}

/// Counts of an evaluation match from the candidate's point of view.
#[derive(Debug, Clone, Copy, PartialEq, Eq, Structural)]
pub struct EvaluationResult {
    pub games: u32,
    pub wins: u32,
    pub losses: u32,
    pub draws: u32,
}

/// Actions of an evaluation game sampled with temperature 1; later actions
/// take the most probable move.
pub const EVAL_EXPLORATION_ACTIONS: usize = 10;

/// Whether the next action of an evaluation game that has taken `actions`
/// actions is sampled with temperature 1 (else 0).
pub fn eval_explores(actions: usize) -> (r: bool)
    ensures
        r == (actions < EVAL_EXPLORATION_ACTIONS),
{
    actions < EVAL_EXPLORATION_ACTIONS
}

/// Whether the candidate's score rate, (wins + draws / 2) / games, is at
/// least 55%: the share of the match it must score to replace the baseline.
/// A match of no games has score rate 0.
pub open spec fn spec_score_rate_reached(r: EvaluationResult) -> bool {
    r.games > 0 && 20 * r.wins + 10 * r.draws >= 11 * r.games
}

/// Whether the candidate scored at least 55% of the match.
pub fn score_rate_reached(r: &EvaluationResult) -> (b: bool)
    ensures
        b == spec_score_rate_reached(*r),
{
    let games = r.games as u64;
    let wins = r.wins as u64;
    let draws = r.draws as u64;
    games > 0 && 20 * wins + 10 * draws >= 11 * games
}

/// Tallies the candidate's wins, losses and draws; the candidate played
/// Black in the games with an even index.
pub fn calculate_result(results: &Vec<(usize, GameResult)>) -> (r: EvaluationResult)
    requires
        results@.len() <= u32::MAX,
    ensures
        r.games == results@.len(),
        r.wins == tally(results@).0,
        r.losses == tally(results@).1,
        r.draws == tally(results@).2,
        r.wins + r.losses + r.draws == r.games,
{
    let mut games: u32 = 0;
    let mut wins: u32 = 0;
    let mut losses: u32 = 0;
    let mut draws: u32 = 0;
    let mut i: usize = 0;
    assert(results@.take(0) =~= Seq::<(usize, GameResult)>::empty());
    while i < results.len()
        invariant
            i <= results@.len() <= u32::MAX,
            games == i,
            (wins as nat, losses as nat, draws as nat) == tally(results@.take(i as int)),
            wins + losses + draws == i,
        decreases results@.len() - i,
    {
        let (index, result) = results[i];
        proof {
            assert(results@.take(i + 1).drop_last() =~= results@.take(i as int));
            lemma_tally_partitions(results@.take(i as int));
        }
        games = games + 1;
        let candidate_black = index % 2 == 0;
        match result {
            GameResult::WinByScore { winner } | GameResult::WinByResignation { winner } => {
                let candidate_won = (candidate_black && winner == Player::Black) || (
                !candidate_black && winner == Player::White);
                if candidate_won {
                    wins = wins + 1;
                } else {
                    losses = losses + 1;
                }
            },
            GameResult::Draw => {
                draws = draws + 1;
            },
        }
        i = i + 1;
    }
    assert(results@.take(results@.len() as int) =~= results@);
    EvaluationResult { games, wins, losses, draws }
}

/// The state after committing a step of a batch of evaluation games, the
/// games taken in order: a finished game records its result and, while
/// games remain to be started, gives its place to the next game index;
/// finished games with no successor leave the batch.
/// Returns (games still in the batch, results recorded, games started).
pub open spec fn eval_commit(
    games: Seq<usize>,
    outcomes: Seq<Option<GameResult>>,
    started: nat,
    total: nat,
) -> (Seq<usize>, Seq<(usize, GameResult)>, nat)
    decreases games.len(),
{
    if games.len() == 0 {
        (Seq::empty(), Seq::empty(), started)
    } else {
        let (kept, recorded, st) = eval_commit(
            games.drop_last(),
            outcomes.drop_last(),
            started,
            total,
        );
        let g = games.last();
        match outcomes[games.len() - 1] {
            None => (kept.push(g), recorded, st),
            Some(res) => if st < total {
                (kept.push(st as usize), recorded.push((g, res)), st + 1)
            } else {
                (kept, recorded.push((g, res)), st)
            },
        }
    }
}

/// The number of finished games in a list of outcomes.
pub open spec fn finished_count(outcomes: Seq<Option<GameResult>>) -> nat
    decreases outcomes.len(),
{
    if outcomes.len() == 0 {
        0
    } else {
        finished_count(outcomes.drop_last()) + if outcomes.last() is Some {
            1nat
        } else {
            0
        }
    }
}

pub open spec fn result_indices(recorded: Seq<(usize, GameResult)>) -> Seq<usize> {
    recorded.map_values(|r: (usize, GameResult)| r.0)
}

/// Committing a step neither loses nor duplicates a game: every game
/// index is afterwards either still in the batch or recorded with a result,
/// exactly when it was in the batch before or has just been started; one
/// result is recorded per finished game, and games are started while any
/// remain, one per finished game.
pub proof fn lemma_eval_commit_accounts(
    games: Seq<usize>,
    outcomes: Seq<Option<GameResult>>,
    started: nat,
    total: nat,
)
    requires
        outcomes.len() == games.len(),
        total <= usize::MAX + 1,
    ensures
        eval_commit(games, outcomes, started, total).1.len() == finished_count(outcomes),
        started <= eval_commit(games, outcomes, started, total).2,
        eval_commit(games, outcomes, started, total).2 == if started >= total {
            started
        } else if started + finished_count(outcomes) <= total {
            started + finished_count(outcomes)
        } else {
            total
        },
        eval_commit(games, outcomes, started, total).0.len() + eval_commit(
            games,
            outcomes,
            started,
            total,
        ).1.len() == games.len() + (eval_commit(games, outcomes, started, total).2 - started),
        forall|x: usize|
            (#[trigger] eval_commit(games, outcomes, started, total).0.contains(x)
                || result_indices(eval_commit(games, outcomes, started, total).1).contains(x))
                <==> (games.contains(x) || (started <= x < eval_commit(
                games,
                outcomes,
                started,
                total,
            ).2)),
    decreases games.len(),
{
    if games.len() > 0 {
        let gs = games.drop_last();
        let os = outcomes.drop_last();
        lemma_eval_commit_accounts(gs, os, started, total);
        let (kept, recorded, st) = eval_commit(gs, os, started, total);
        let g = games.last();
        assert(outcomes[games.len() - 1] == outcomes.last());
        assert forall|x: usize| games.contains(x) <==> (gs.contains(x) || x == g) by {
            if games.contains(x) {
                let i = choose|i: int| 0 <= i < games.len() && games[i] == x;
                if i < games.len() - 1 {
                    assert(gs[i] == x);
                }
            }
            if gs.contains(x) {
                let i = choose|i: int| 0 <= i < gs.len() && gs[i] == x;
                assert(games[i] == x);
            }
            if x == g {
                assert(games[games.len() - 1] == x);
            }
        }
        match outcomes.last() {
            None => {
                assert forall|x: usize| #[trigger] kept.push(g).contains(x) <==> (kept.contains(x)
                    || x == g) by {
                    if kept.push(g).contains(x) {
                        let i = choose|i: int| 0 <= i < kept.push(g).len() && kept.push(g)[i] == x;
                        if i < kept.len() {
                            assert(kept[i] == x);
                        }
                    }
                    if kept.contains(x) {
                        let i = choose|i: int| 0 <= i < kept.len() && kept[i] == x;
                        assert(kept.push(g)[i] == x);
                    }
                    if x == g {
                        assert(kept.push(g)[kept.len() as int] == x);
                    }
                }
            },
            Some(res) => {
                let rec2 = recorded.push((g, res));
                assert(result_indices(rec2) =~= result_indices(recorded).push(g));
                assert forall|x: usize| #[trigger] result_indices(recorded).push(g).contains(x) <==> (
                result_indices(recorded).contains(x) || x == g) by {
                    let ri = result_indices(recorded);
                    if ri.push(g).contains(x) {
                        let i = choose|i: int| 0 <= i < ri.push(g).len() && ri.push(g)[i] == x;
                        if i < ri.len() {
                            assert(ri[i] == x);
                        }
                    }
                    if ri.contains(x) {
                        let i = choose|i: int| 0 <= i < ri.len() && ri[i] == x;
                        assert(ri.push(g)[i] == x);
                    }
                    if x == g {
                        assert(ri.push(g)[ri.len() as int] == x);
                    }
                }
                if st < total {
                    let n = st as usize;
                    assert forall|x: usize| #[trigger] kept.push(n).contains(x) <==> (kept.contains(
                        x,
                    ) || x == n) by {
                        if kept.push(n).contains(x) {
                            let i = choose|i: int|
                                0 <= i < kept.push(n).len() && kept.push(n)[i] == x;
                            if i < kept.len() {
                                assert(kept[i] == x);
                            }
                        }
                        if kept.contains(x) {
                            let i = choose|i: int| 0 <= i < kept.len() && kept[i] == x;
                            assert(kept.push(n)[i] == x);
                        }
                        if x == n {
                            assert(kept.push(n)[kept.len() as int] == x);
                        }
                    }
                }
            },
        }
        let (k2, r2, st2) = eval_commit(games, outcomes, started, total);
        assert forall|x: usize|
            (#[trigger] k2.contains(x) || result_indices(r2).contains(x)) <==> (games.contains(x)
                || (started <= x < st2)) by {
            assert((kept.contains(x) || result_indices(recorded).contains(x)) <==> (gs.contains(x)
                || (started <= x < st)));
            assert(games.contains(x) <==> (gs.contains(x) || x == g));
            match outcomes.last() {
                None => {
                    assert(k2 == kept.push(g));
                    assert(k2.contains(x) <==> (kept.contains(x) || x == g));
                },
                Some(res) => {
                    assert(result_indices(r2) == result_indices(recorded).push(g));
                    assert(result_indices(r2).contains(x) <==> (result_indices(recorded).contains(x)
                        || x == g));
                    if st < total {
                        assert(k2 == kept.push(st as usize));
                        assert(k2.contains(x) <==> (kept.contains(x) || x == st as usize));
                    } else {
                        assert(k2 == kept);
                    }
                },
            }
        }
    }
}

/// The positions, among the first `n` games of a batch, of the games whose
/// search waits for a network evaluation and where the side to move is
/// evaluated by the candidate (`side`) or by the baseline (`!side`), in
/// batch order.
pub open spec fn request_indices(waiting: Seq<bool>, candidate_turn: Seq<bool>, side: bool, n: int) -> Seq<
    usize,
>
    decreases n,
{
    if n <= 0 {
        Seq::empty()
    } else {
        let rest = request_indices(waiting, candidate_turn, side, n - 1);
        if waiting[n - 1] && candidate_turn[n - 1] == side {
            rest.push((n - 1) as usize)
        } else {
            rest
        }
    }
}

/// The games of a batch that wait for the network, split by the model that
/// evaluates them: the candidate's requests, then the baseline's, each in
/// batch order. The i-th answer of a model goes back to the i-th game of its
/// list.
pub fn split_requests(waiting: &Vec<bool>, candidate_turn: &Vec<bool>) -> (r: (Vec<usize>, Vec<usize>))
    requires
        waiting@.len() == candidate_turn@.len(),
    ensures
        r.0@ == request_indices(waiting@, candidate_turn@, true, waiting@.len() as int),
        r.1@ == request_indices(waiting@, candidate_turn@, false, waiting@.len() as int),
{
    let mut cand: Vec<usize> = Vec::new();
    let mut base: Vec<usize> = Vec::new();
    let mut i: usize = 0;
    while i < waiting.len()
        invariant
            i <= waiting@.len() == candidate_turn@.len(),
            cand@ == request_indices(waiting@, candidate_turn@, true, i as int),
            base@ == request_indices(waiting@, candidate_turn@, false, i as int),
        decreases waiting@.len() - i,
    {
        if waiting[i] {
            if candidate_turn[i] {
                cand.push(i);
            } else {
                base.push(i);
            }
        }
        i = i + 1;
    }
    (cand, base)
}

/// The entries of `s` increase strictly.
pub open spec fn strictly_increasing(s: Seq<usize>) -> bool {
    forall|i: int, j: int| 0 <= i < j < s.len() ==> s[i] < s[j]
}

/// `s` holds exactly the positions below `n` of the games that wait and
/// whose side to move is `side`.
pub open spec fn holds_requests(
    s: Seq<usize>,
    waiting: Seq<bool>,
    candidate_turn: Seq<bool>,
    side: bool,
    n: int,
) -> bool {
    forall|x: usize|
        #[trigger] s.contains(x) <==> (x < n && waiting[x as int] && candidate_turn[x as int]
            == side)
}

/// Every waiting game is in exactly one of the two request lists, once, and
/// each list is in increasing batch order; no other game is in either.
pub proof fn lemma_requests_partition(waiting: Seq<bool>, candidate_turn: Seq<bool>, n: int)
    requires
        waiting.len() == candidate_turn.len() <= usize::MAX,
        0 <= n <= waiting.len(),
    ensures
        holds_requests(request_indices(waiting, candidate_turn, true, n), waiting, candidate_turn, true, n),
        holds_requests(request_indices(waiting, candidate_turn, false, n), waiting, candidate_turn, false, n),
        strictly_increasing(request_indices(waiting, candidate_turn, true, n)),
        strictly_increasing(request_indices(waiting, candidate_turn, false, n)),
    decreases n,
{
    if n > 0 {
        lemma_requests_partition(waiting, candidate_turn, n - 1);
        lemma_request_step(waiting, candidate_turn, true, n);
        lemma_request_step(waiting, candidate_turn, false, n);
    }
}

proof fn lemma_request_step(waiting: Seq<bool>, candidate_turn: Seq<bool>, side: bool, n: int)
    requires
        waiting.len() == candidate_turn.len() <= usize::MAX,
        0 < n <= waiting.len(),
        holds_requests(request_indices(waiting, candidate_turn, side, n - 1), waiting, candidate_turn, side, n - 1),
        strictly_increasing(request_indices(waiting, candidate_turn, side, n - 1)),
    ensures
        holds_requests(request_indices(waiting, candidate_turn, side, n), waiting, candidate_turn, side, n),
        strictly_increasing(request_indices(waiting, candidate_turn, side, n)),
{
    let rest = request_indices(waiting, candidate_turn, side, n - 1);
    let cur = request_indices(waiting, candidate_turn, side, n);
    let last = (n - 1) as usize;
    if waiting[n - 1] && candidate_turn[n - 1] == side {
        assert(cur == rest.push(last));
        assert forall|x: usize| #[trigger] cur.contains(x) <==> (x < n && waiting[x as int]
            && candidate_turn[x as int] == side) by {
            if cur.contains(x) {
                let k = choose|k: int| 0 <= k < cur.len() && cur[k] == x;
                if k < rest.len() {
                    assert(rest[k] == x);
                    assert(rest.contains(x));
                }
            }
            if x < n && waiting[x as int] && candidate_turn[x as int] == side {
                if x < n - 1 {
                    assert(rest.contains(x));
                    let k = choose|k: int| 0 <= k < rest.len() && rest[k] == x;
                    assert(cur[k] == x);
                } else {
                    assert(cur[rest.len() as int] == x);
                }
            }
        }
        assert forall|i: int, j: int| 0 <= i < j < cur.len() implies cur[i] < cur[j] by {
            if j == rest.len() {
                assert(rest.contains(rest[i]));
            }
        }
    } else {
        assert(cur == rest);
    }
}

/// A batch of evaluation games played side by side, named by their game
/// indices, and the search step they are at.
pub struct EvalSlot {
    pub games: Vec<usize>,
    pub step: usize,
}

impl EvalSlot {
    /// A batch playing the games with the given indices, at step zero.
    pub fn new(indices: Vec<usize>) -> (s: EvalSlot)
        ensures
            s.games@ == indices@,
            s.step == 0,
    {
        EvalSlot { games: indices, step: 0 }
    }

    /// Ends a search step: `outcomes[i]` is the result of the i-th game of
    /// the batch if it has finished. Finished games record (index, result)
    /// and count as completed; each is replaced by the next game index while
    /// fewer than `total` games have been started, and leaves otherwise.
    pub fn commit_actions(
        &mut self,
        outcomes: &Vec<Option<GameResult>>,
        results: &mut Vec<(usize, GameResult)>,
        completed: &mut usize,
        started: &mut usize,
        total: usize,
    )
        requires
            outcomes@.len() == old(self).games@.len(),
            *old(completed) + old(self).games@.len() <= usize::MAX,
        ensures
            ({
                let (kept, recorded, st) = eval_commit(
                    old(self).games@,
                    outcomes@,
                    *old(started) as nat,
                    total as nat,
                );
                &&& final(self).games@ == kept
                &&& final(results)@ == old(results)@ + recorded
                &&& *final(started) == st
                &&& *final(completed) == *old(completed) + recorded.len()
                &&& final(self).step == 0
            }),
    {
        self.step = 0;
        let ghost games0 = self.games@;
        let ghost results0 = results@;
        let ghost completed0 = *completed;
        let ghost started0 = *started;
        let mut kept: Vec<usize> = Vec::new();
        let mut i: usize = 0;
        assert(games0.take(0) =~= Seq::<usize>::empty());
        assert(outcomes@.take(0) =~= Seq::<Option<GameResult>>::empty());
        assert(results0 + Seq::<(usize, GameResult)>::empty() =~= results0);
        while i < self.games.len()
            invariant
                self.games@ == games0,
                outcomes@.len() == games0.len(),
                i <= games0.len(),
                completed0 + games0.len() <= usize::MAX,
                ({
                    let (k, r, st) = eval_commit(
                        games0.take(i as int),
                        outcomes@.take(i as int),
                        started0 as nat,
                        total as nat,
                    );
                    &&& kept@ == k
                    &&& results@ == results0 + r
                    &&& *started == st
                    &&& *completed == completed0 + r.len()
                    &&& r.len() <= i
                }),
            decreases games0.len() - i,
        {
            let g = self.games[i];
            proof {
                assert(games0.take(i + 1).drop_last() =~= games0.take(i as int));
                assert(outcomes@.take(i + 1).drop_last() =~= outcomes@.take(i as int));
                assert(games0.take(i + 1).last() == g);
                assert(outcomes@.take(i + 1)[i as int] == outcomes@[i as int]);
            }
            match outcomes[i] {
                None => {
                    kept.push(g);
                },
                Some(res) => {
                    let ghost r_before = results@;
                    results.push((g, res));
                    assert(results@ =~= r_before.push((g, res)));
                    *completed = *completed + 1;
                    if *started < total {
                        kept.push(*started);
                        *started = *started + 1;
                    }
                },
            }
            proof {
                let (k, r, st) = eval_commit(
                    games0.take(i as int),
                    outcomes@.take(i as int),
                    started0 as nat,
                    total as nat,
                );
                assert(results0 + r.push((g, outcomes@[i as int]->Some_0)) =~= (results0 + r).push(
                    (g, outcomes@[i as int]->Some_0),
                ));
            }
            i = i + 1;
        }
        assert(games0.take(games0.len() as int) =~= games0);
        assert(outcomes@.take(games0.len() as int) =~= outcomes@);
        self.games = kept;
    }
}

} // verus!
