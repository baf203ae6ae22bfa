use mq_mcp::{available_functions, available_selectors, extract_markdown, html_to_markdown, service_info};

fn joined(units: Vec<String>) -> String {
    units.join("\n\n")
}

#[test]
fn test_available_functions() {
    let result = available_functions();
    assert_eq!(result.len(), 1);
}

#[test]
fn test_available_selectors() {
    let result = available_selectors();
    assert_eq!(result.len(), 1);
}

#[test]
fn test_get_info() {
    let info = service_info();
    assert_eq!(info.protocol_version, "2024-11-05");
    assert!(
        info.instructions.contains("mq is a tool for processing markdown content"),
        "Instructions should mention mq"
    );
    assert!(info.logging && info.tools && info.tool_list_changed);
}

#[test]
fn test_html_to_markdown_h1_selector() {
    let result = html_to_markdown("<h1>Test Heading</h1><p>This is a test paragraph.</p>", Some(".h1"));
    assert_eq!(joined(result.expect("Expected Ok result")), "# Test Heading");
}

#[test]
fn test_html_to_markdown_text_selector() {
    let result = html_to_markdown("<h1>Test Heading</h1><p>This is a test paragraph.</p>", Some(".text"));
    assert_eq!(
        joined(result.expect("Expected Ok result")),
        "Test Heading\n\nThis is a test paragraph."
    );
}

#[test]
fn test_html_to_markdown_default_query() {
    let result = html_to_markdown("<h1>Test Heading</h1><p>This is a test paragraph.</p>", None);
    assert_eq!(
        joined(result.expect("Expected Ok result")),
        "# Test Heading\n\nThis is a test paragraph."
    );
}

#[test]
fn test_html_to_markdown_malformed_html_recovers() {
    let result = html_to_markdown("<h1>Test Heading", Some(".h1"));
    assert_eq!(joined(result.expect("Expected Ok result")), "# Test Heading");
}

#[test]
fn test_html_to_markdown_invalid_query() {
    let result = html_to_markdown("<h1>Test Heading</h1>", Some("not_a_function("));
    let err = result.expect_err("Expected error result");
    let msg = err.message();
    assert!(
        msg.contains("Failed to query"),
        "Error message '{msg}' does not contain expected 'Failed to query'"
    );
}

#[test]
fn test_html_to_markdown_default_equals_explicit_identity() {
    let html = "<h1>Test Heading</h1><p>This is a test paragraph.</p>";
    let implicit = html_to_markdown(html, None).expect("Expected Ok result");
    let explicit = html_to_markdown(html, Some("identity()")).expect("Expected Ok result");
    assert_eq!(implicit, explicit);
}

#[test]
fn test_extract_markdown_h1_selector() {
    let result = extract_markdown("<h1>Test Heading</h1>", ".h1");
    assert_eq!(joined(result.expect("Expected Ok result")), "# Test Heading");
}

#[test]
fn test_extract_markdown_text_selector() {
    let result = extract_markdown("<h1>Test Heading</h1><p>This is a test paragraph.</p>", ".text");
    assert_eq!(
        joined(result.expect("Expected Ok result")),
        "Test Heading\n\nThis is a test paragraph."
    );
}

#[test]
fn test_extract_markdown_identity() {
    let result = extract_markdown("<h1>Test Heading</h1><p>This is a test paragraph.</p>", "identity()");
    assert_eq!(
        joined(result.expect("Expected Ok result")),
        "# Test Heading\n\nThis is a test paragraph."
    );
}

#[test]
fn test_extract_markdown_invalid_query() {
    let result = extract_markdown("<h1>Test Heading</h1>", "not_a_function(");
    let err = result.expect_err("Expected error result");
    let msg = err.message();
    assert!(
        msg.contains("Failed to query"),
        "Error message '{msg}' does not contain expected 'Failed to query'"
    );
}

#[test]
fn test_extract_markdown_empty_document_is_empty_success() {
    let result = extract_markdown("", ".h1");
    let units = result.expect("Expected Ok result");
    assert!(units.is_empty());
}

#[test]
fn test_extract_markdown_empty_query_is_passed_through() {
    let result = extract_markdown("<h1>Test Heading</h1>", "");
    let units = result.expect("Expected Ok result");
    assert!(units.is_empty());
}
