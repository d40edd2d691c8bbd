use turtle::engine::update;
use turtle::motion::{MotionState, Position};
use turtle::parse::TurtleError;

#[test]
fn east_walk_from_center() {
    let mut s = MotionState::new();
    let mut frames: Vec<Position> = Vec::new();
    let text = String::from("rotation east\nwalk 5");
    assert_eq!(update(&mut s, &text, &mut frames), Ok(()));
    assert_eq!(s.pos, Position { x: 404, y: 300 });
    assert_eq!(frames.len(), 4);
    assert!(!s.pending);
}

#[test]
fn two_legs_add_their_displacements() {
    let mut s = MotionState::new();
    let mut frames: Vec<Position> = Vec::new();
    let text = String::from("rotation north\nwalk 3\nrotation west\nwalk 3");
    assert_eq!(update(&mut s, &text, &mut frames), Ok(()));
    assert_eq!(s.pos, Position { x: 400 - 2, y: 300 - 2 });
}

#[test]
fn trailing_blank_line_is_harmless() {
    let mut s = MotionState::new();
    let mut frames: Vec<Position> = Vec::new();
    let text = String::from("rotation south\nwalk 2\n\n");
    assert_eq!(update(&mut s, &text, &mut frames), Ok(()));
    assert_eq!(s.pos, Position { x: 400, y: 301 });
    assert_eq!(frames.len(), 1);
}

#[test]
fn crlf_text_runs_the_same() {
    let mut s = MotionState::new();
    let mut frames: Vec<Position> = Vec::new();
    let text = String::from("rotation east\r\nwalk 5\r\n");
    assert_eq!(update(&mut s, &text, &mut frames), Ok(()));
    assert_eq!(s.pos, Position { x: 404, y: 300 });
    assert_eq!(frames.len(), 4);
}

#[test]
fn blank_lines_alone_change_nothing() {
    let mut s = MotionState::new();
    let mut frames: Vec<Position> = Vec::new();
    let text = String::from("\n\n\n");
    assert_eq!(update(&mut s, &text, &mut frames), Ok(()));
    assert_eq!(s.pos, Position { x: 400, y: 300 });
    assert_eq!(frames.len(), 0);
    assert!(!s.pending);
}

#[test]
fn malformed_step_count_aborts_mid_run() {
    let mut s = MotionState::new();
    let mut frames: Vec<Position> = Vec::new();
    let text = String::from("rotation east\nwalk 2\nwalk abc\nrotation north\nwalk 9");
    assert_eq!(update(&mut s, &text, &mut frames), Err(TurtleError::InvalidStepCount));
    // The walk before the failing line was applied; nothing after it was.
    assert_eq!(s.pos, Position { x: 401, y: 300 });
    assert_eq!(s.heading.dx, 0);
    assert_eq!(s.heading.dy, 0);
    assert_eq!(frames.len(), 1);
    assert!(s.pending);
}

#[test]
fn unknown_command_aborts_before_any_motion() {
    let mut s = MotionState::new();
    let mut frames: Vec<Position> = Vec::new();
    let text = String::from("fly 3\nrotation east\nwalk 5");
    assert_eq!(update(&mut s, &text, &mut frames), Err(TurtleError::UnknownCommand));
    assert_eq!(s.pos, Position { x: 400, y: 300 });
    assert_eq!(frames.len(), 0);
}

#[test]
fn second_update_is_a_no_op() {
    let mut s = MotionState::new();
    let mut frames: Vec<Position> = Vec::new();
    let text = String::from("rotation east\nwalk 3");
    assert_eq!(update(&mut s, &text, &mut frames), Ok(()));
    assert_eq!(s.pos, Position { x: 402, y: 300 });
    assert_eq!(frames.len(), 2);
    assert!(!s.pending);

    assert_eq!(update(&mut s, &text, &mut frames), Ok(()));
    assert_eq!(s.pos, Position { x: 402, y: 300 });
    assert_eq!(frames.len(), 2);
    assert!(!s.pending);
}
