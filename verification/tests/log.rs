use shader_viewer::log::{MessageLog, LOG_SIZE};
use shader_viewer::message::{Msg, MsgType};

fn texts(log: &MessageLog) -> Vec<String> {
    let mut oldest_first: Vec<String> =
        log.by_age().iter().map(|(_, msg)| msg.content().to_string()).collect();
    oldest_first.reverse();
    oldest_first
}

#[test]
fn default_bound_is_four() {
    assert_eq!(LOG_SIZE, 4);
    assert_eq!(MessageLog::new().bound(), 4);
}

#[test]
fn new_log_is_empty_and_hidden() {
    let log = MessageLog::new();
    assert_eq!(log.len(), 0);
    assert!(!log.is_visible());
    assert!(log.by_age().is_empty());
}

#[test]
fn six_records_leave_the_last_four() {
    let mut log = MessageLog::with_bound(4);
    for text in ["one", "two", "three", "four", "five", "six"] {
        log.record(Msg::success(text));
    }
    assert_eq!(log.len(), 4);
    assert_eq!(texts(&log), vec!["three", "four", "five", "six"]);
}

#[test]
fn below_the_bound_nothing_is_evicted() {
    let mut log = MessageLog::with_bound(4);
    log.record(Msg::success("one"));
    log.record(Msg::failure("two"));
    log.record(Msg::success("three"));
    assert_eq!(log.len(), 3);
    assert_eq!(texts(&log), vec!["one", "two", "three"]);
}

#[test]
fn exactly_bound_records_fill_the_log() {
    let mut log = MessageLog::with_bound(3);
    log.record(Msg::success("a"));
    log.record(Msg::success("b"));
    log.record(Msg::success("c"));
    assert_eq!(log.len(), 3);
    assert_eq!(texts(&log), vec!["a", "b", "c"]);
}

#[test]
fn a_full_log_holds_the_last_bound_records_in_order() {
    for bound in 0..6usize {
        for extra in 0..5usize {
            let mut log = MessageLog::with_bound(bound);
            let recorded: Vec<String> = (0..bound + extra).map(|i| format!("m{}", i)).collect();
            for text in &recorded {
                log.record(Msg::failure(text));
            }
            assert_eq!(log.len(), bound);
            assert_eq!(texts(&log), recorded[recorded.len() - bound..].to_vec());
        }
    }
}

#[test]
fn earlier_entries_count_towards_the_bound() {
    let mut log = MessageLog::with_bound(2);
    log.record(Msg::success("old"));
    log.record(Msg::success("new"));
    log.record(Msg::success("newer"));
    assert_eq!(texts(&log), vec!["new", "newer"]);
}

#[test]
fn a_log_of_bound_zero_keeps_nothing_but_still_surfaces() {
    let mut log = MessageLog::with_bound(0);
    log.record(Msg::failure("lost"));
    assert_eq!(log.len(), 0);
    assert!(log.is_visible());
}

#[test]
fn a_log_of_bound_one_keeps_the_latest() {
    let mut log = MessageLog::with_bound(1);
    log.record(Msg::success("first"));
    log.record(Msg::failure("second"));
    assert_eq!(texts(&log), vec!["second"]);
    assert_eq!(log.by_age()[0].1.ty(), MsgType::Failure);
}

#[test]
fn record_surfaces_a_hidden_log_for_a_failure() {
    let mut log = MessageLog::new();
    assert!(!log.is_visible());
    log.record(Msg::failure("bad"));
    assert!(log.is_visible());
}

#[test]
fn record_surfaces_a_hidden_log_for_a_success() {
    let mut log = MessageLog::new();
    log.record(Msg::success("first"));
    log.toggle_visibility();
    assert!(!log.is_visible());
    log.record(Msg::success("good"));
    assert!(log.is_visible());
}

#[test]
fn record_keeps_a_visible_log_visible() {
    let mut log = MessageLog::new();
    log.record(Msg::success("a"));
    log.record(Msg::success("b"));
    assert!(log.is_visible());
}

#[test]
fn toggle_flips_visibility_and_nothing_else() {
    let mut log = MessageLog::new();
    log.record(Msg::success("kept"));
    log.toggle_visibility();
    assert!(!log.is_visible());
    assert_eq!(texts(&log), vec!["kept"]);
    assert_eq!(log.bound(), 4);
    log.toggle_visibility();
    assert!(log.is_visible());
    assert_eq!(texts(&log), vec!["kept"]);
}

#[test]
fn clear_empties_a_visible_log() {
    let mut log = MessageLog::new();
    log.record(Msg::success("a"));
    log.record(Msg::failure("b"));
    assert!(log.clear());
    assert_eq!(log.len(), 0);
    assert!(log.is_visible());
    assert_eq!(log.bound(), 4);
}

#[test]
fn clear_leaves_a_hidden_log_alone() {
    let mut log = MessageLog::new();
    log.record(Msg::success("a"));
    log.toggle_visibility();
    assert!(!log.clear());
    assert_eq!(texts(&log), vec!["a"]);
    assert!(!log.is_visible());
}

#[test]
fn a_cleared_log_fills_again() {
    let mut log = MessageLog::with_bound(2);
    log.record(Msg::success("a"));
    log.record(Msg::success("b"));
    log.clear();
    log.record(Msg::success("c"));
    assert_eq!(texts(&log), vec!["c"]);
}

#[test]
fn by_age_ranks_the_most_recent_first() {
    let mut log = MessageLog::new();
    log.record(Msg::success("oldest"));
    log.record(Msg::failure("middle"));
    log.record(Msg::success("newest"));
    let ranked = log.by_age();
    assert_eq!(ranked.len(), 3);
    assert_eq!(ranked[0].0, 0);
    assert_eq!(ranked[0].1.content(), "newest");
    assert_eq!(ranked[0].1.ty(), MsgType::Success);
    assert_eq!(ranked[1].0, 1);
    assert_eq!(ranked[1].1.content(), "middle");
    assert_eq!(ranked[1].1.ty(), MsgType::Failure);
    assert_eq!(ranked[2].0, 2);
    assert_eq!(ranked[2].1.content(), "oldest");
}

#[test]
fn by_age_is_the_same_while_hidden() {
    let mut log = MessageLog::new();
    log.record(Msg::success("a"));
    log.toggle_visibility();
    let ranked = log.by_age();
    assert_eq!(ranked.len(), 1);
    assert_eq!(ranked[0].1.content(), "a");
}

#[test]
fn equal_messages_are_not_merged() {
    let mut log = MessageLog::new();
    log.record(Msg::success("same"));
    log.record(Msg::success("same"));
    assert_eq!(texts(&log), vec!["same", "same"]);
}
