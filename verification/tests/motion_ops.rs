use turtle::motion::{Direction, MotionState, Position};

#[test]
fn starts_at_surface_center() {
    let s = MotionState::new();
    assert_eq!(s.pos, Position { x: 400, y: 300 });
    assert_eq!(s.heading.dx, 0);
    assert_eq!(s.heading.dy, 0);
    assert_eq!(s.speed, 1);
    assert!(s.pending);
}

#[test]
fn rotation_overwrites_heading() {
    let mut s = MotionState::new();
    s.rotate(Direction::North);
    s.rotate(Direction::East);
    assert_eq!(s.heading.dx, 1);
    assert_eq!(s.heading.dy, 0);
}

#[test]
fn walk_moves_one_unit_per_step_and_snapshots_each() {
    let mut s = MotionState::new();
    let mut frames: Vec<Position> = Vec::new();
    s.rotate(Direction::East);
    s.walk(5, &mut frames);
    assert_eq!(s.pos, Position { x: 404, y: 300 });
    assert_eq!(
        frames,
        vec![
            Position { x: 401, y: 300 },
            Position { x: 402, y: 300 },
            Position { x: 403, y: 300 },
            Position { x: 404, y: 300 },
        ]
    );
}

#[test]
fn walk_resets_heading() {
    let mut s = MotionState::new();
    let mut frames: Vec<Position> = Vec::new();
    s.rotate(Direction::South);
    s.walk(3, &mut frames);
    assert_eq!(s.heading.dx, 0);
    assert_eq!(s.heading.dy, 0);
}

#[test]
fn walk_one_moves_nothing_and_renders_nothing() {
    let mut s = MotionState::new();
    let mut frames: Vec<Position> = Vec::new();
    s.rotate(Direction::West);
    s.walk(1, &mut frames);
    assert_eq!(s.pos, Position { x: 400, y: 300 });
    assert_eq!(frames.len(), 0);
}

#[test]
fn walk_zero_moves_nothing() {
    let mut s = MotionState::new();
    let mut frames: Vec<Position> = Vec::new();
    s.rotate(Direction::North);
    s.walk(0, &mut frames);
    assert_eq!(s.pos, Position { x: 400, y: 300 });
    assert_eq!(frames.len(), 0);
}

#[test]
fn walk_with_zero_heading_stays_put() {
    let mut s = MotionState::new();
    let mut frames: Vec<Position> = Vec::new();
    s.walk(4, &mut frames);
    assert_eq!(s.pos, Position { x: 400, y: 300 });
    assert_eq!(frames.len(), 3);
    for f in &frames {
        assert_eq!(*f, Position { x: 400, y: 300 });
    }
}
