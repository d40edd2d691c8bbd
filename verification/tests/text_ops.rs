use turtle::text::{get_nth_line, get_nth_word, num_of_lines};

#[test]
fn counts_lines_without_trailing_newline() {
    let s = String::from("rotation east\nwalk 5");
    assert_eq!(num_of_lines(&s), 2);
}

#[test]
fn counts_lines_with_trailing_newline() {
    let s = String::from("rotation east\nwalk 5\n");
    assert_eq!(num_of_lines(&s), 2);
}

#[test]
fn counts_no_lines_in_empty_text() {
    let s = String::new();
    assert_eq!(num_of_lines(&s), 0);
}

#[test]
fn counts_blank_lines() {
    let s = String::from("\n\n");
    assert_eq!(num_of_lines(&s), 2);
    let t = String::from("\n");
    assert_eq!(num_of_lines(&t), 1);
}

#[test]
fn gets_lines_one_indexed() {
    let s = String::from("rotation east\n\nwalk 5\n");
    assert_eq!(get_nth_line(&s, 1), "rotation east");
    assert_eq!(get_nth_line(&s, 2), "");
    assert_eq!(get_nth_line(&s, 3), "walk 5");
}

#[test]
fn strips_carriage_returns_from_lines() {
    let s = String::from("rotation east\r\nwalk 5\r\n");
    assert_eq!(num_of_lines(&s), 2);
    assert_eq!(get_nth_line(&s, 1), "rotation east");
    assert_eq!(get_nth_line(&s, 2), "walk 5");
}

#[test]
fn gets_words_one_indexed() {
    let s = String::from("rotation east");
    assert_eq!(get_nth_word(&s, 1), "rotation");
    assert_eq!(get_nth_word(&s, 2), "east");
}

#[test]
fn keeps_empty_words_between_spaces() {
    let s = String::from("walk  7");
    assert_eq!(get_nth_word(&s, 1), "walk");
    assert_eq!(get_nth_word(&s, 2), "");
    assert_eq!(get_nth_word(&s, 3), "7");
}
