use rollback_core::codec::{encode, Intent};
use rollback_core::step::{step, Position, StepError, WorldState, MOVE_SPEED};

fn world(positions: Vec<Position>) -> WorldState {
    WorldState { positions }
}

fn token(up: bool, down: bool, left: bool, right: bool) -> u8 {
    encode(&Intent { up, down, left, right })
}

#[test]
fn zero_input_leaves_state_unchanged() {
    let s = world(vec![Position { x: 5, y: -7 }, Position { x: 0, y: 0 }]);
    let next = step(&s, &vec![0, 0]).unwrap();
    assert_eq!(next.positions, s.positions);
}

#[test]
fn opposing_inputs_move_handles_independently() {
    let s = world(vec![Position { x: 0, y: 0 }, Position { x: 0, y: 0 }]);
    let inputs = vec![token(false, false, false, true), token(false, false, true, false)];
    let next = step(&s, &inputs).unwrap();
    assert_eq!(next.positions[0], Position { x: MOVE_SPEED, y: 0 });
    assert_eq!(next.positions[1], Position { x: -MOVE_SPEED, y: 0 });
}

#[test]
fn step_is_deterministic_across_invocations() {
    let s = world(vec![Position { x: 3, y: 4 }, Position { x: -1, y: 9 }]);
    let inputs = vec![token(true, false, false, true), token(false, true, true, false)];
    let first = step(&s, &inputs).unwrap();
    let second = step(&s, &inputs).unwrap();
    assert_eq!(first.positions, second.positions);
}

#[test]
fn correction_overwrites_speculative_execution() {
    // Frame N was speculatively run with a predicted input; the engine
    // rolls back to the pre-frame snapshot and re-runs it with the
    // corrected input. The result must equal the clean run that used the
    // corrected input from the start.
    let snapshot = world(vec![Position { x: 0, y: 0 }, Position { x: 0, y: 0 }]);
    let predicted = vec![token(false, false, false, true), 0];
    let corrected = vec![token(true, false, false, false), 0];
    let next_frame = vec![0, token(false, true, false, false)];

    // Speculative path: run with the prediction, discard, re-run.
    let _speculative = step(&snapshot, &predicted).unwrap();
    let replayed = step(&step(&snapshot, &corrected).unwrap(), &next_frame).unwrap();

    // Clean path: corrected inputs from the start.
    let clean = step(&step(&snapshot, &corrected).unwrap(), &next_frame).unwrap();

    assert_eq!(replayed.positions, clean.positions);
    assert_eq!(replayed.positions[0], Position { x: 0, y: MOVE_SPEED });
    assert_eq!(replayed.positions[1], Position { x: 0, y: -MOVE_SPEED });
}

#[test]
fn diagonal_combines_axes_additively() {
    let s = world(vec![Position { x: 10, y: 20 }]);
    let next = step(&s, &vec![token(true, false, false, true)]).unwrap();
    assert_eq!(next.positions[0], Position { x: 10 + MOVE_SPEED, y: 20 + MOVE_SPEED });
}

#[test]
fn both_directions_on_one_axis_cancel() {
    let s = world(vec![Position { x: 1, y: 2 }]);
    let next = step(&s, &vec![token(false, false, true, true)]).unwrap();
    assert_eq!(next.positions[0], Position { x: 1, y: 2 });
}

#[test]
fn invalid_token_degrades_to_no_intent_for_that_handle_only() {
    let s = world(vec![Position { x: 0, y: 0 }, Position { x: 0, y: 0 }]);
    let inputs = vec![99, token(false, false, false, true)];
    let next = step(&s, &inputs).unwrap();
    assert_eq!(next.positions[0], Position { x: 0, y: 0 });
    assert_eq!(next.positions[1], Position { x: MOVE_SPEED, y: 0 });
}

#[test]
fn wrong_input_count_is_rejected_whole() {
    let s = world(vec![Position { x: 0, y: 0 }, Position { x: 0, y: 0 }]);
    assert!(matches!(step(&s, &vec![0]), Err(StepError::InputCountMismatch)));
    assert!(matches!(step(&s, &vec![0, 0, 0]), Err(StepError::InputCountMismatch)));
}

#[test]
fn movement_saturates_at_the_coordinate_range() {
    let s = world(vec![Position { x: i64::MAX - 1, y: i64::MIN + 1 }]);
    let next = step(&s, &vec![token(false, true, false, true)]).unwrap();
    assert_eq!(next.positions[0], Position { x: i64::MAX, y: i64::MIN });
}

#[test]
fn empty_world_steps_to_empty_world() {
    let s = world(vec![]);
    let next = step(&s, &vec![]).unwrap();
    assert!(next.positions.is_empty());
}
