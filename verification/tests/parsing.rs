use turtle::motion::Direction;
use turtle::parse::{parse, parse_step_count, Instruction, TurtleError};

#[test]
fn parses_rotation() {
    let line = String::from("rotation north");
    assert_eq!(parse(&line), Ok(Some(Instruction::Rotate(Direction::North))));
    let line = String::from("rotation south");
    assert_eq!(parse(&line), Ok(Some(Instruction::Rotate(Direction::South))));
    let line = String::from("rotation east");
    assert_eq!(parse(&line), Ok(Some(Instruction::Rotate(Direction::East))));
    let line = String::from("rotation west");
    assert_eq!(parse(&line), Ok(Some(Instruction::Rotate(Direction::West))));
}

#[test]
fn parses_walk() {
    let line = String::from("walk 5");
    assert_eq!(parse(&line), Ok(Some(Instruction::Walk(5))));
    let line = String::from("walk 0");
    assert_eq!(parse(&line), Ok(Some(Instruction::Walk(0))));
}

#[test]
fn skips_empty_line() {
    let line = String::new();
    assert_eq!(parse(&line), Ok(None));
}

#[test]
fn skips_line_of_spaces() {
    let line = String::from("   ");
    assert_eq!(parse(&line), Ok(None));
}

#[test]
fn tolerates_extra_spaces() {
    let line = String::from("  rotation   east ");
    assert_eq!(parse(&line), Ok(Some(Instruction::Rotate(Direction::East))));
}

#[test]
fn rejects_unknown_command() {
    let line = String::from("fly 3");
    assert_eq!(parse(&line), Err(TurtleError::UnknownCommand));
}

#[test]
fn rejects_unknown_direction() {
    let line = String::from("rotation up");
    assert_eq!(parse(&line), Err(TurtleError::UnknownDirection));
}

#[test]
fn rejects_rotation_without_argument() {
    let line = String::from("rotation");
    assert_eq!(parse(&line), Err(TurtleError::UnknownDirection));
}

#[test]
fn rejects_non_numeric_step_count() {
    let line = String::from("walk abc");
    assert_eq!(parse(&line), Err(TurtleError::InvalidStepCount));
}

#[test]
fn rejects_walk_without_argument() {
    let line = String::from("walk");
    assert_eq!(parse(&line), Err(TurtleError::InvalidStepCount));
}

#[test]
fn rejects_negative_step_count() {
    let line = String::from("walk -3");
    assert_eq!(parse(&line), Err(TurtleError::InvalidStepCount));
}

#[test]
fn parses_step_counts_exactly() {
    assert_eq!(parse_step_count(&String::from("0")), Some(0));
    assert_eq!(parse_step_count(&String::from("007")), Some(7));
    assert_eq!(parse_step_count(&String::from("123456789")), Some(123456789));
    assert_eq!(parse_step_count(&String::from("18446744073709551615")), Some(u64::MAX));
}

#[test]
fn rejects_overflowing_step_count() {
    assert_eq!(parse_step_count(&String::from("18446744073709551616")), None);
    let line = String::from("walk 99999999999999999999999999");
    assert_eq!(parse(&line), Err(TurtleError::InvalidStepCount));
}
