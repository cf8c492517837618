//! A stand-in network that rates every legal move alike.
use vstd::prelude::*;
use crate::game::Action;

verus! {

/// A prior probability `numerator / denominator`.
#[derive(Debug, Clone, Copy, PartialEq, Eq, Structural)]
pub struct Prior {
    pub numerator: usize,
    pub denominator: usize,
}

/// The uniform policy over the legal moves, with passing weighted zero;
/// passing alone, with certainty, when no move is legal.
pub open spec fn spec_uniform_policy(legal_moves: Seq<usize>) -> Seq<(Action, Prior)> {
    if legal_moves.len() == 0 {
        seq![(Action::Pass, Prior { numerator: 1, denominator: 1 })]
    } else {
        Seq::new(
            legal_moves.len(),
            |i: int|
                (
                    Action::Move(legal_moves[i]),
                    Prior { numerator: 1, denominator: legal_moves.len() as usize },
                ),
        ).push((Action::Pass, Prior { numerator: 0, denominator: 1 }))
    }
}

/// The sum of the priors of `policy`, scaled by `scale`.
pub open spec fn scaled_mass(policy: Seq<(Action, Prior)>, scale: int) -> int
    decreases policy.len(),
{
    if policy.len() == 0 {
        0
    } else {
        scaled_mass(policy.drop_last(), scale) + policy.last().1.numerator * (scale
            / policy.last().1.denominator as int)
    }
}

/// A network that knows nothing: it rates every legal move alike and the
/// position as even.
pub struct DummyNetwork;

impl DummyNetwork {
    /// The uniform policy over `legal_moves` (value: even).
    pub fn evaluate(&self, legal_moves: &Vec<usize>) -> (policy: Vec<(Action, Prior)>)
        requires
            legal_moves@.len() < usize::MAX,
        ensures
            policy@ == spec_uniform_policy(legal_moves@),
    {
        let mut policy: Vec<(Action, Prior)> = Vec::new();
        let n = legal_moves.len();
        if n == 0 {
            policy.push((Action::Pass, Prior { numerator: 1, denominator: 1 }));
            assert(policy@ =~= spec_uniform_policy(legal_moves@));
        } else {
            let mut i: usize = 0;
            while i < n
                invariant
                    n == legal_moves@.len(),
                    i <= n,
                    policy@.len() == i,
                    forall|j: int|
                        0 <= j < i ==> #[trigger] policy@[j] == (
                            Action::Move(legal_moves@[j]),
                            (Prior { numerator: 1, denominator: n }),
                        ),
                decreases n - i,
            {
                policy.push((Action::Move(legal_moves[i]), Prior { numerator: 1, denominator: n }));
                i = i + 1;
            }
            policy.push((Action::Pass, Prior { numerator: 0, denominator: 1 }));
            assert(policy@ =~= spec_uniform_policy(legal_moves@));
        }
        policy
    }
}

/// The uniform policy is a probability distribution: every denominator
/// divides the number of legal moves (one, when there are none), and the
/// priors scaled by that number add up to it.
pub proof fn lemma_uniform_policy_sums_to_one(legal_moves: Seq<usize>)
    requires
        legal_moves.len() < usize::MAX,
    ensures
        ({
            let d: int = if legal_moves.len() == 0 {
                1
            } else {
                legal_moves.len() as int
            };
            let p = spec_uniform_policy(legal_moves);
            &&& forall|i: int| 0 <= i < p.len() ==> #[trigger] (d % p[i].1.denominator as int) == 0
            &&& scaled_mass(p, d) == d
        }),
{
    let n = legal_moves.len() as int;
    if n == 0 {
        let p = spec_uniform_policy(legal_moves);
        assert(p.drop_last() =~= Seq::<(Action, Prior)>::empty());
        let last = p.last().1;
        assert(last.numerator * (1int / last.denominator as int) == 1) by (nonlinear_arith)
            requires
                last.numerator == 1,
                last.denominator == 1,
        ;
        assert(scaled_mass(Seq::<(Action, Prior)>::empty(), 1) == 0);
        assert(scaled_mass(p, 1) == 1);
        assert forall|i: int| 0 <= i < p.len() implies #[trigger] (1int % p[i].1.denominator as int)
            == 0 by {}
    } else {
        let moves = Seq::new(
            legal_moves.len(),
            |i: int|
                (
                    Action::Move(legal_moves[i]),
                    Prior { numerator: 1, denominator: legal_moves.len() as usize },
                ),
        );
        lemma_moves_mass(moves, n);
        let p = moves.push((Action::Pass, Prior { numerator: 0, denominator: 1 }));
        assert(p.drop_last() =~= moves);
        assert(n % n == 0) by (nonlinear_arith)
            requires
                n > 0,
        ;
        assert(n % 1 == 0);
        assert(p.last() == (Action::Pass, Prior { numerator: 0, denominator: 1 }));
        let last = p.last().1;
        assert(last.numerator * (n / last.denominator as int) == 0) by (nonlinear_arith)
            requires
                last.numerator == 0,
                last.denominator == 1,
        ;
        assert(scaled_mass(p, n) == scaled_mass(moves, n));
        assert(scaled_mass(p, n) == n);
        assert forall|i: int| 0 <= i < p.len() implies #[trigger] (n % p[i].1.denominator as int)
            == 0 by {
            if i < n {
                assert(p[i] == moves[i]);
                assert(p[i].1.denominator as int == n);
            } else {
                assert(p[i].1.denominator == 1);
            }
        }
        assert(p == spec_uniform_policy(legal_moves));
    }
}

proof fn lemma_moves_mass(moves: Seq<(Action, Prior)>, n: int)
    requires
        n > 0,
        moves.len() <= n,
        forall|i: int| 0 <= i < moves.len() ==> #[trigger] moves[i].1 == (Prior {
            numerator: 1,
            denominator: n as usize,
        }),
        n <= usize::MAX,
    ensures
        scaled_mass(moves, n) == moves.len(),
    decreases moves.len(),
{
    if moves.len() > 0 {
        lemma_moves_mass(moves.drop_last(), n);
        assert(moves.last().1 == moves[moves.len() - 1].1);
        assert(n / n == 1) by (nonlinear_arith)
            requires
                n > 0,
        ;
    }
}

} // verus!
