use hex_go::batch::{BatchAction, BatchEvent, BatchPhase, BatchSchedule};

#[test]
fn two_batches_take_turns_until_all_games_complete() {
    let mut s = BatchSchedule::new(1, 2, (1, 1));
    assert_eq!(s.step(BatchEvent::Begin), BatchAction::Select(0));
    assert_eq!(s.step(BatchEvent::Selected(true)), BatchAction::Select(1));
    assert_eq!(s.step(BatchEvent::Selected(true)), BatchAction::Receive);
    assert_eq!(s.in_flight, 2);
    assert_eq!(s.step(BatchEvent::Received(0)), BatchAction::Commit(0));
    assert_eq!(s.step(BatchEvent::Committed { games: 0, completed: 1 }), BatchAction::Receive);
    assert_eq!(s.step(BatchEvent::Received(1)), BatchAction::Commit(1));
    assert_eq!(s.step(BatchEvent::Committed { games: 0, completed: 2 }), BatchAction::Finish);
    assert_eq!(s.phase, BatchPhase::Done);
    assert_eq!(s.in_flight, 0);
}

#[test]
fn a_batch_selects_again_until_it_has_positions_to_send() {
    let mut s = BatchSchedule::new(3, 10, (2, 0));
    assert_eq!(s.step(BatchEvent::Begin), BatchAction::Select(0));
    assert_eq!(s.step(BatchEvent::Selected(true)), BatchAction::Select(1));
    assert_eq!(s.step(BatchEvent::Selected(false)), BatchAction::Receive);
    // The answer advances the step to 1; the batch selects again.
    assert_eq!(s.step(BatchEvent::Received(0)), BatchAction::Select(0));
    assert_eq!(s.steps.0, 1);
    // Nothing to send: the step advances to 2 and the batch selects again.
    assert_eq!(s.step(BatchEvent::Selected(false)), BatchAction::Select(0));
    assert_eq!(s.steps.0, 2);
    // Nothing again: the step reaches the iteration count and the actions are committed.
    assert_eq!(s.step(BatchEvent::Selected(false)), BatchAction::Commit(0));
    assert_eq!(s.step(BatchEvent::Committed { games: 2, completed: 0 }), BatchAction::Select(0));
    assert_eq!(s.steps.0, 0);
    assert_eq!(s.step(BatchEvent::Selected(true)), BatchAction::Receive);
}

#[test]
fn nothing_to_send_at_the_start_finishes_at_once() {
    let mut s = BatchSchedule::new(5, 0, (0, 0));
    assert_eq!(s.step(BatchEvent::Begin), BatchAction::Select(0));
    assert_eq!(s.step(BatchEvent::Selected(false)), BatchAction::Select(1));
    assert_eq!(s.step(BatchEvent::Selected(false)), BatchAction::Finish);
}

#[test]
fn completed_games_stop_further_selection() {
    let mut s = BatchSchedule::new(1, 1, (1, 0));
    assert_eq!(s.step(BatchEvent::Begin), BatchAction::Select(0));
    assert_eq!(s.step(BatchEvent::Selected(true)), BatchAction::Select(1));
    assert_eq!(s.step(BatchEvent::Selected(false)), BatchAction::Receive);
    assert_eq!(s.step(BatchEvent::Received(0)), BatchAction::Commit(0));
    // One game left in the batch, but all games are completed.
    assert_eq!(s.step(BatchEvent::Committed { games: 1, completed: 1 }), BatchAction::Finish);
}
