use aphanite::service::frontend::{content_range, listed, parse_range, resolve_asset_path, static_status};

#[test]
fn range_with_both_ends() {
    assert_eq!(parse_range("bytes=0-99", 1000), Some((0, 100)));
    assert_eq!(parse_range("bytes=10-10", 20), Some((10, 11)));
}

#[test]
fn range_open_end_runs_to_the_last_byte() {
    assert_eq!(parse_range("bytes=100-", 1000), Some((100, 1000)));
}

#[test]
fn range_malformed_or_outside_is_refused() {
    assert_eq!(parse_range("items=0-1", 10), None);
    assert_eq!(parse_range("bytes=5", 10), None);
    assert_eq!(parse_range("bytes=-5", 10), None);
    assert_eq!(parse_range("bytes=5-3", 10), None);
    assert_eq!(parse_range("bytes=0-10", 10), None);
    assert_eq!(parse_range("bytes=10-", 10), None);
    assert_eq!(parse_range("bytes=0-1-2", 10), None);
    assert_eq!(parse_range("bytes=0-0", 0), None);
}

#[test]
fn content_range_text() {
    assert_eq!(content_range(0, 100, 1000), "bytes 0-99/1000");
    assert_eq!(content_range(100, 1000, 1000), "bytes 100-999/1000");
}

#[test]
fn asset_paths() {
    let assets = vec![
        "index.html".to_string(),
        "login.html".to_string(),
        "docs/index.html".to_string(),
        "app.js".to_string(),
    ];
    assert!(listed(&assets, "app.js"));
    assert!(!listed(&assets, "missing.js"));
    assert_eq!(resolve_asset_path("/", &assets), "index.html");
    assert_eq!(resolve_asset_path("", &assets), "index.html");
    assert_eq!(resolve_asset_path("/app.js", &assets), "app.js");
    assert_eq!(resolve_asset_path("/login", &assets), "login.html");
    assert_eq!(resolve_asset_path("/docs", &assets), "docs/index.html");
    assert_eq!(resolve_asset_path("/docs/", &assets), "docs/index.html");
    assert_eq!(static_status(true), 200);
    assert_eq!(static_status(false), 404);
}

#[test]
fn range_of_numbers() {
    assert_eq!(parse_range("bytes=3-7", 10), Some((3, 8)));
    assert_eq!(parse_range("bytes=3-", 10), Some((3, 10)));
    assert_eq!(parse_range("bytes=9-9", 10), Some((9, 10)));
}

#[test]
fn range_of_empty_body_refused() {
    assert_eq!(parse_range("bytes=0-0", 0), None);
    assert_eq!(parse_range("bytes=0-", 0), None);
    assert_eq!(parse_range("bytes=-0", 0), None);
}
