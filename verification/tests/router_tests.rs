use trip_planner::router::extract_tag;

#[test]
fn extract_tag_match() {
    assert_eq!(extract_tag("/plan-my-trip/abc"), Some("abc"));
}

#[test]
fn extract_tag_empty_tag() {
    assert_eq!(extract_tag("/plan-my-trip/"), Some(""));
}

#[test]
fn extract_tag_long_tag_passes_through() {
    assert_eq!(
        extract_tag("/plan-my-trip/abfksjdf/extra?q=1"),
        Some("abfksjdf/extra?q=1")
    );
}

#[test]
fn extract_tag_other_path() {
    assert_eq!(extract_tag("/generate"), None);
}

#[test]
fn extract_tag_partial_prefix() {
    assert_eq!(extract_tag("/plan-my-tri"), None);
}

#[test]
fn extract_tag_empty_path() {
    assert_eq!(extract_tag(""), None);
}

#[test]
fn extract_tag_unicode_path() {
    assert_eq!(extract_tag("/plan-my-trip/тур☀"), Some("тур☀"));
    assert_eq!(extract_tag("/план-my-trip/abc"), None);
}
