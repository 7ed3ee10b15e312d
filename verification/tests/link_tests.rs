//! Cursor extraction from pagination link headers.

use evg_api::link::next_link;

#[test]
fn test_next_link_should_return_link_if_it_exists() {
    let header = String::from("<https://evergreen.mongodb.com/rest/v2/tasks/task_id/tests?limit=100&start_at=abc123>; rel=\"next\"");

    let next_link = next_link(Some(header.as_str()));

    assert_eq!(
        next_link,
        Some(String::from(
            "https://evergreen.mongodb.com/rest/v2/tasks/task_id/tests?limit=100&start_at=abc123"
        ))
    );
}

#[test]
fn test_next_link_should_return_none_if_no_next() {
    let header = String::from("<https://evergreen.mongodb.com/rest/v2/tasks/task_id/tests?limit=100&start_at=abc123>; rel=\"other\"");

    let next_link = next_link(Some(header.as_str()));

    assert_eq!(next_link, None);
}

#[test]
fn test_next_link_should_return_none_if_no_link_header() {
    let next_link = next_link(None);

    assert_eq!(next_link, None);
}

#[test]
fn next_link_picks_next_among_several_relations() {
    let header = "<https://example.com/p?page=3>; rel=\"prev\", <https://example.com/p?page=5>; rel=\"next\"";

    assert_eq!(
        next_link(Some(header)),
        Some(String::from("https://example.com/p?page=5"))
    );
}

#[test]
fn next_link_returns_none_for_malformed_header() {
    // No angle brackets around the uri: the whole header is malformed and
    // extraction fails open.
    assert_eq!(next_link(Some("https://example.com/p; rel=\"next\"")), None);
    // Unterminated relation quote.
    assert_eq!(next_link(Some("<https://example.com/p>; rel=\"next")), None);
    // Missing semicolon between uri and relation.
    assert_eq!(next_link(Some("<https://example.com/p> rel=\"next\"")), None);
    // Empty header value.
    assert_eq!(next_link(Some("")), None);
}

#[test]
fn next_link_tolerates_spaces() {
    assert_eq!(
        next_link(Some("  <https://example.com/p>  ;  rel=\"next\"  ")),
        Some(String::from("https://example.com/p"))
    );
}
