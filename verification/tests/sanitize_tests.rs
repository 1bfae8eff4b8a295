use ocr_typist::sanitize::sanitize;

#[test]
fn lone_marker_is_kept() {
    assert_eq!(sanitize("!"), "!");
}

#[test]
fn leading_marker_is_stripped() {
    assert_eq!(sanitize("!abc"), "abc");
}

#[test]
fn sanitizing_lone_marker_twice_changes_nothing() {
    let once = sanitize("!");
    let twice = sanitize(&once);
    assert_eq!(once, "!");
    assert_eq!(twice, "!");
}

#[test]
fn non_ascii_is_dropped_without_touching_inner_marker() {
    assert_eq!(sanitize("h\u{e9}llo!"), "hllo!");
}

#[test]
fn non_ascii_is_dropped() {
    assert_eq!(sanitize("caf\u{e9}"), "caf");
}

#[test]
fn empty_text_stays_empty() {
    assert_eq!(sanitize(""), "");
}

#[test]
fn marker_followed_by_one_char_is_stripped() {
    assert_eq!(sanitize("!a"), "a");
}

#[test]
fn double_marker_strips_only_one() {
    assert_eq!(sanitize("!!a"), "!a");
}

#[test]
fn all_non_ascii_becomes_empty() {
    assert_eq!(sanitize("\u{3042}\u{3044}"), "");
}

#[test]
fn plain_ascii_passes_through() {
    assert_eq!(sanitize("Hello, World"), "Hello, World");
}
