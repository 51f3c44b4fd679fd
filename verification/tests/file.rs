use shader_viewer::file::{File, Timestamp};

fn at(nanos: i128) -> Option<Timestamp> {
    Some(Timestamp { nanos })
}

#[test]
fn new_keeps_path_and_first_observation() {
    let file = File::new("shaders/a.frag", at(5));
    assert_eq!(file.path(), "shaders/a.frag");
    assert_eq!(file.last_modified(), at(5));
}

#[test]
fn new_accepts_a_path_without_metadata() {
    let file = File::new("missing.frag", None);
    assert_eq!(file.last_modified(), None);
    assert_eq!(file.path(), "missing.frag");
}

#[test]
fn handle_is_the_quoted_last_component() {
    assert_eq!(File::new("a.frag", None).handle(), "\"a.frag\"");
    assert_eq!(File::new("shaders/water/b.frag", None).handle(), "\"b.frag\"");
    assert_eq!(File::new("/abs/c.frag", at(1)).handle(), "\"c.frag\"");
    assert_eq!(File::new("dir/", None).handle(), "\"dir\"");
}

#[test]
fn handle_of_a_path_without_a_last_component() {
    assert_eq!(File::new("..", None).handle(), "\"unknown file\"");
    assert_eq!(File::new("shaders/..", None).handle(), "\"unknown file\"");
    assert_eq!(File::new("/", None).handle(), "\"unknown file\"");
    assert_eq!(File::new("", None).handle(), "\"unknown file\"");
}

#[test]
fn handle_escapes_what_does_not_print() {
    assert_eq!(File::new("a\tb.frag", None).handle(), "\"a\\tb.frag\"");
    assert_eq!(File::new("say \"hi\".frag", None).handle(), "\"say \\\"hi\\\".frag\"");
}

#[test]
fn labelled_takes_the_label_as_the_handle() {
    let file = File::labelled("x/y.frag", Some("<y>".to_string()), at(9));
    assert_eq!(file.path(), "x/y.frag");
    assert_eq!(file.handle(), "<y>");
    assert_eq!(file.last_modified(), at(9));
}

#[test]
fn labelled_without_a_label_is_the_unknown_file() {
    let file = File::labelled("x/y.frag", None, None);
    assert_eq!(file.handle(), "\"unknown file\"");
    assert_eq!(file.path(), "x/y.frag");
    assert_eq!(file.last_modified(), None);
}

#[test]
fn absent_then_absent_is_unchanged() {
    let mut file = File::new("a.frag", None);
    assert!(!file.check_modified(None));
    assert_eq!(file.last_modified(), None);
}

#[test]
fn absent_then_present_is_changed() {
    let mut file = File::new("a.frag", None);
    assert!(file.check_modified(at(10)));
    assert_eq!(file.last_modified(), at(10));
}

#[test]
fn present_then_absent_is_changed() {
    let mut file = File::new("a.frag", at(10));
    assert!(file.check_modified(None));
    assert_eq!(file.last_modified(), None);
}

#[test]
fn equal_timestamps_are_unchanged() {
    let mut file = File::new("a.frag", at(10));
    assert!(!file.check_modified(at(10)));
    assert_eq!(file.last_modified(), at(10));
}

#[test]
fn different_timestamps_are_changed() {
    let mut file = File::new("a.frag", at(10));
    assert!(file.check_modified(at(11)));
    assert_eq!(file.last_modified(), at(11));
    assert!(file.check_modified(at(3)));
    assert_eq!(file.last_modified(), at(3));
}

#[test]
fn timestamps_before_the_epoch_are_told_apart() {
    let mut file = File::new("a.frag", at(-1));
    assert!(file.check_modified(at(1)));
    assert!(file.check_modified(at(-1)));
    assert!(!file.check_modified(at(-1)));
}

#[test]
fn repeated_observations_settle_after_the_first() {
    let mut file = File::new("a.frag", at(1));
    assert!(file.check_modified(at(2)));
    assert!(!file.check_modified(at(2)));
    assert!(!file.check_modified(at(2)));
    assert!(file.check_modified(None));
    assert!(!file.check_modified(None));
}

#[test]
fn disappearing_and_reappearing_is_two_changes() {
    let mut file = File::new("a.frag", at(7));
    assert!(file.check_modified(None));
    assert!(file.check_modified(at(7)));
    assert!(!file.check_modified(at(7)));
}

#[test]
fn a_failed_stat_becomes_the_baseline() {
    let mut file = File::new("a.frag", None);
    assert!(!file.check_modified(None));
    assert!(file.check_modified(at(4)));
    assert!(file.check_modified(None));
    assert!(!file.check_modified(None));
}

#[test]
fn check_modified_leaves_path_and_handle() {
    let mut file = File::new("dir/a.frag", at(1));
    file.check_modified(at(2));
    file.check_modified(None);
    assert_eq!(file.path(), "dir/a.frag");
    assert_eq!(file.handle(), "\"a.frag\"");
}

#[test]
fn clone_is_the_same_file() {
    let file = File::new("dir/a.frag", at(1));
    let copy = file.clone();
    assert_eq!(copy.path(), "dir/a.frag");
    assert_eq!(copy.handle(), "\"a.frag\"");
    assert_eq!(copy.last_modified(), at(1));
}

#[test]
fn handle_keeps_a_single_quote() {
    assert_eq!(File::new("it's.frag", None).handle(), "\"it's.frag\"");
}
