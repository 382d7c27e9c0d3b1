use imsequencer::wrap::next_break;

#[test]
fn break_at_capacity_when_no_boundary_past_it() {
    // "hello world": boundary at 5; a 20-byte line takes the whole text
    assert_eq!(next_break(11, 0, 20, &vec![5]), 11);
    // a 7-byte line with no boundary past 7 breaks mid-word at 7
    assert_eq!(next_break(11, 0, 7, &vec![5]), 7);
}

#[test]
fn break_after_last_boundary_before_overshoot() {
    // boundaries after "hello", "again", "12345": a 7-byte line pulls
    // back to just after the boundary at 5
    assert_eq!(next_break(20, 0, 7, &vec![5, 11, 17]), 6);
    // starting mid-text: capacity reaches 13, first boundary past is 17,
    // so the line ends after the boundary at 11
    assert_eq!(next_break(20, 6, 7, &vec![5, 11, 17]), 12);
}

#[test]
fn first_boundary_already_past_keeps_capacity() {
    // the first word is longer than the line: break mid-word
    assert_eq!(next_break(20, 0, 3, &vec![5, 11]), 3);
}

#[test]
fn break_never_exceeds_text() {
    assert_eq!(next_break(10, 8, 100, &vec![2]), 10);
    assert_eq!(next_break(10, 0, 100, &vec![]), 10);
    assert_eq!(next_break(0, 0, 5, &vec![]), 0);
}
