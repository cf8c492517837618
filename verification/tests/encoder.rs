use hex_go::encoder::encode_game_mlp;
use hex_go::game::{Player, VertexState};

#[test]
fn encode_game_has_expected_size() {
    let states = vec![VertexState::Empty; 4];
    let input = encode_game_mlp(&states, Player::Black);
    assert_eq!(input.len(), 4 * 3);
}

#[test]
fn encode_game_uses_player_perspective() {
    // Black has played on vertex 0 of a four-vertex board.
    let states = vec![
        VertexState::Occupied(Player::Black),
        VertexState::Empty,
        VertexState::Empty,
        VertexState::Empty,
    ];

    let input = encode_game_mlp(&states, Player::Black);
    assert_eq!(&input[0..3], &[1, 0, 0]);

    let input = encode_game_mlp(&states, Player::White);
    assert_eq!(&input[0..3], &[0, 1, 0]);
}

#[test]
fn encode_game_marks_every_vertex_once() {
    let states = vec![
        VertexState::Occupied(Player::Black),
        VertexState::Empty,
        VertexState::Occupied(Player::White),
    ];
    let black = encode_game_mlp(&states, Player::Black);
    assert_eq!(black, vec![1, 0, 0, 0, 0, 1, 0, 1, 0]);
    let white = encode_game_mlp(&states, Player::White);
    assert_eq!(white, vec![0, 1, 0, 0, 0, 1, 1, 0, 0]);
    assert!(black.chunks(3).all(|f| f.iter().map(|&x| x as u32).sum::<u32>() == 1));
}
