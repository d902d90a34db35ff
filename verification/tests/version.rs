use codex_rs::version::client_version_to_whole;

#[test]
fn joins_components_with_dots() {
    assert_eq!(client_version_to_whole("1", "2", "3"), "1.2.3");
}

#[test]
fn drops_nothing_but_joins_multi_digit_components() {
    assert_eq!(client_version_to_whole("0", "120", "45"), "0.120.45");
}
