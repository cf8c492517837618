//! The network input of a position for the multilayer perceptron: three
//! one-hot features per vertex, seen from the player to move.
use vstd::prelude::*;
use crate::game::{Player, VertexState};

verus! {

/// The features of a vertex from `player`'s point of view: `[1, 0, 0]` for
/// the player's stone, `[0, 1, 0]` for the opponent's, `[0, 0, 1]` when empty.
pub open spec fn vertex_features(state: VertexState, player: Player) -> Seq<u8> {
    match state {
        VertexState::Occupied(owner) => if owner == player {
            seq![1u8, 0u8, 0u8]
        } else {
            seq![0u8, 1u8, 0u8]
        },
        VertexState::Empty => seq![0u8, 0u8, 1u8],
    }
}

/// Encodes the vertex states, in vertex order, from `player`'s point of
/// view: the features of vertex `i` are entries `3i`, `3i + 1`, `3i + 2`.
pub fn encode_game_mlp(states: &Vec<VertexState>, player: Player) -> (input: Vec<u8>)
    requires
        3 * states@.len() <= usize::MAX,
    ensures
        input@.len() == 3 * states@.len(),
        forall|i: int, k: int|
            0 <= i < states@.len() && 0 <= k < 3 ==> #[trigger] input@[3 * i + k]
                == vertex_features(states@[i], player)[k],
{
    let mut input: Vec<u8> = Vec::new();
    let mut i: usize = 0;
    while i < states.len()
        invariant
            i <= states@.len(),
            3 * states@.len() <= usize::MAX,
            input@.len() == 3 * i,
            forall|a: int, k: int|
                0 <= a < i && 0 <= k < 3 ==> #[trigger] input@[3 * a + k] == vertex_features(
                    states@[a],
                    player,
                )[k],
        decreases states@.len() - i,
    {
        let (f0, f1, f2): (u8, u8, u8) = match states[i] {
            VertexState::Occupied(owner) => if owner == player {
                (1, 0, 0)
            } else {
                (0, 1, 0)
            },
            VertexState::Empty => (0, 0, 1),
        };
        let ghost before = input@;
        input.push(f0);
        input.push(f1);
        input.push(f2);
        assert forall|a: int, k: int| 0 <= a < i + 1 && 0 <= k < 3 implies #[trigger] input@[3
            * a + k] == vertex_features(states@[a], player)[k] by {
            if a < i {
                assert(input@[3 * a + k] == before[3 * a + k]);
            }
        }
        i = i + 1;
    }
    input
}

/// Exactly one feature of each vertex is set.
pub proof fn lemma_features_one_hot(state: VertexState, player: Player)
    ensures
        vertex_features(state, player).len() == 3,
        vertex_features(state, player)[0] + vertex_features(state, player)[1] + vertex_features(
            state,
            player,
        )[2] == 1,
{
}

/// Seen from the other side, a stone's first two features trade places and
/// an empty vertex stays empty.
pub proof fn lemma_features_swap_sides(state: VertexState, player: Player)
    ensures
        vertex_features(state, player.spec_opponent())[0] == vertex_features(state, player)[1],
        vertex_features(state, player.spec_opponent())[1] == vertex_features(state, player)[0],
        vertex_features(state, player.spec_opponent())[2] == vertex_features(state, player)[2],
{
}

} // verus!
