use hex_go::evaluation::{
    EvalSlot, EvaluationResult, calculate_result, candidate_is_black, score_rate_reached,
    eval_explores, split_requests,
};
use hex_go::game::{GameResult, Player};

#[test]
fn calculate_result_counts_candidate_wins() {
    let results = vec![
        (0, GameResult::WinByScore { winner: Player::Black }),
        (1, GameResult::WinByScore { winner: Player::White }),
    ];
    let result = calculate_result(&results);
    assert_eq!(result.games, 2);
    assert_eq!(result.wins, 2);
    assert_eq!(result.losses, 0);
    assert_eq!(result.draws, 0);
    assert_eq!(result.wins as f32 / result.games as f32, 1.0);
}

#[test]
fn calculate_result_counts_baseline_wins() {
    let results = vec![
        (0, GameResult::WinByScore { winner: Player::White }),
        (1, GameResult::WinByScore { winner: Player::Black }),
    ];
    let result = calculate_result(&results);
    assert_eq!(result.games, 2);
    assert_eq!(result.wins, 0);
    assert_eq!(result.losses, 2);
    assert_eq!(result.draws, 0);
    assert_eq!(result.wins as f32 / result.games as f32, 0.0);
}

#[test]
fn calculate_result_counts_mixed_results() {
    let results = vec![
        (0, GameResult::WinByScore { winner: Player::Black }),
        (1, GameResult::WinByScore { winner: Player::Black }),
        (2, GameResult::Draw),
        (3, GameResult::Draw),
    ];
    let result = calculate_result(&results);
    assert_eq!(result.games, 4);
    assert_eq!(result.wins, 1);
    assert_eq!(result.losses, 1);
    assert_eq!(result.draws, 2);
    assert_eq!(result.wins as f32 / result.games as f32, 0.25);
}

#[test]
fn candidate_side_alternates_by_index() {
    let results = vec![
        (0, GameResult::WinByScore { winner: Player::Black }),
        (1, GameResult::WinByScore { winner: Player::White }),
        (2, GameResult::WinByScore { winner: Player::Black }),
        (3, GameResult::WinByScore { winner: Player::White }),
    ];
    let result = calculate_result(&results);
    assert_eq!(result.wins, 4);
    assert_eq!(result.losses, 0);
    assert!(candidate_is_black(0));
    assert!(!candidate_is_black(1));
}

#[test]
fn resignations_count_like_score_wins() {
    let results = vec![
        (5, GameResult::WinByResignation { winner: Player::Black }),
        (6, GameResult::WinByResignation { winner: Player::Black }),
    ];
    let result = calculate_result(&results);
    assert_eq!((result.games, result.wins, result.losses, result.draws), (2, 1, 1, 0));
    assert_eq!(calculate_result(&Vec::new()).games, 0);
}

#[test]
fn eval_slot_replaces_finished_games_until_all_are_started() {
    let mut slot = EvalSlot::new(vec![0, 1, 2]);
    slot.step = 7;
    let mut results = Vec::new();
    let mut completed = 0;
    let mut started = 3;
    let outcomes = vec![Some(GameResult::Draw), None, Some(GameResult::WinByScore { winner: Player::White })];
    slot.commit_actions(&outcomes, &mut results, &mut completed, &mut started, 4);
    assert_eq!(slot.step, 0);
    assert_eq!(slot.games, vec![3, 1]);
    assert_eq!(results, vec![(0, GameResult::Draw), (2, GameResult::WinByScore { winner: Player::White })]);
    assert_eq!(completed, 2);
    assert_eq!(started, 4);

    let outcomes = vec![Some(GameResult::Draw), Some(GameResult::Draw)];
    slot.commit_actions(&outcomes, &mut results, &mut completed, &mut started, 4);
    assert!(slot.games.is_empty());
    assert_eq!(completed, 4);
    let mut indices: Vec<usize> = results.iter().map(|r| r.0).collect();
    indices.sort();
    assert_eq!(indices, vec![0, 1, 2, 3]);
}

fn result(wins: u32, losses: u32, draws: u32) -> EvaluationResult {
    EvaluationResult { games: wins + losses + draws, wins, losses, draws }
}

#[test]
fn score_rate_threshold_is_fifty_five_percent() {
    assert!(score_rate_reached(&result(11, 9, 0)));
    assert!(score_rate_reached(&result(10, 8, 2)));
    assert!(!score_rate_reached(&result(10, 9, 1)));
    assert!(score_rate_reached(&result(200, 0, 0)));
    assert!(!score_rate_reached(&result(0, 0, 200)));
    assert!(!score_rate_reached(&result(0, 0, 0)));
}

#[test]
fn waiting_games_are_split_by_the_model_to_move() {
    let waiting = vec![true, false, true, true, false, true];
    let candidate_turn = vec![true, true, false, true, false, false];
    let (cand, base) = split_requests(&waiting, &candidate_turn);
    assert_eq!(cand, vec![0, 3]);
    assert_eq!(base, vec![2, 5]);
}

#[test]
fn evaluation_games_explore_for_ten_actions() {
    assert!(eval_explores(0));
    assert!(eval_explores(9));
    assert!(!eval_explores(10));
}
