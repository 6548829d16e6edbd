use substrate_mc::console::{ConsoleHistory, McHistory, MAX_LINES};

#[test]
fn history_keeps_all_lines_below_limit() {
    let mut h = ConsoleHistory::new();
    h.record("a".to_string());
    h.record("b".to_string());
    assert_eq!(h.snapshot(), vec!["a".to_string(), "b".to_string()]);
    assert_eq!(h.len(), 2);
}

#[test]
fn history_drops_oldest_beyond_limit() {
    let mut h = ConsoleHistory::new();
    for i in 0..(MAX_LINES + 3) {
        h.record(format!("line {}", i));
    }
    let s = h.snapshot();
    assert_eq!(s.len(), MAX_LINES);
    assert_eq!(s[0], "line 3");
    assert_eq!(s[MAX_LINES - 1], format!("line {}", MAX_LINES + 2));
}

#[test]
fn mc_history_is_newest_first_and_keeps_one_more() {
    let mut h = McHistory::new();
    for i in 0..(MAX_LINES + 5) {
        h.record(format!("{}", i));
    }
    let oldest = h.oldest_first();
    assert_eq!(oldest.len(), MAX_LINES + 1);
    assert_eq!(oldest[0], "4");
    assert_eq!(oldest[MAX_LINES], format!("{}", MAX_LINES + 4));
}

#[test]
fn mc_history_clear_empties() {
    let mut h = McHistory::new();
    h.record("x".to_string());
    h.record("y".to_string());
    assert_eq!(h.oldest_first(), vec!["x".to_string(), "y".to_string()]);
    h.clear();
    assert!(h.oldest_first().is_empty());
}
