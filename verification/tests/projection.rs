use mq_mcp::tools::{effective_query, ToolError};
use mq_mcp::values::{project, ResultValue};

fn value(text: &str, none: bool, empty: bool) -> ResultValue {
    ResultValue { text: text.to_string(), none, empty }
}

#[test]
fn projection_drops_none_and_empty_and_keeps_order() {
    let values = vec![
        value("first", false, false),
        value("", true, true),
        value("second", false, false),
        value("skipped", false, true),
        value("third", false, false),
        value("also skipped", true, false),
    ];
    let units = project(values);
    assert_eq!(units, vec!["first".to_string(), "second".to_string(), "third".to_string()]);
}

#[test]
fn projection_of_nothing_is_empty_success() {
    let units = project(Vec::new());
    assert!(units.is_empty());
}

#[test]
fn projection_is_idempotent_on_its_own_output() {
    let values = vec![
        value("keep", false, false),
        value("drop", true, false),
        value("keep too", false, false),
    ];
    let units = project(values);
    let reprojected = project(
        units.iter().map(|u| ResultValue { text: u.clone(), none: false, empty: false }).collect(),
    );
    assert_eq!(reprojected, units);
}

#[test]
fn effective_query_defaults_to_identity() {
    assert_eq!(effective_query(None), "identity()");
    assert_eq!(effective_query(Some(".h1")), ".h1");
}

#[test]
fn tool_error_message_keeps_summary_and_detail() {
    let err = ToolError::Query {
        summary: "Failed to query".to_string(),
        detail: "unexpected token".to_string(),
    };
    assert_eq!(err.message(), "Failed to query: unexpected token");
    let err = ToolError::Parse {
        summary: "Failed to parse html".to_string(),
        detail: "bad input".to_string(),
    };
    assert_eq!(err.message(), "Failed to parse html: bad input");
}
