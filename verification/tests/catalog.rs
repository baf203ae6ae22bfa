use mq_mcp::catalog::{catalog_functions, catalog_selectors, example_queries, functions_listing, selectors_listing};
use mq_mcp::{available_functions, available_selectors};

#[test]
fn functions_listing_has_functions_and_three_fixed_examples() {
    let result = available_functions();
    assert_eq!(result.len(), 1);
    let doc: serde_json::Value = serde_json::from_str(&result[0]).expect("listing must be valid JSON");
    assert!(doc.get("functions").is_some());
    let examples = doc.get("examples").expect("examples field").as_array().expect("array");
    assert_eq!(examples.len(), 3);
    assert_eq!(
        examples[0].as_str().unwrap(),
        r#"select(or(.[], .code, .h)) | upcase() | add(" Hello World")"#
    );
    assert_eq!(examples[1].as_str().unwrap(), r#"select(not(.code))"#);
    assert_eq!(examples[2].as_str().unwrap(), r#".code("js")"#);
    let functions = doc["functions"].as_array().expect("functions array");
    assert!(!functions.is_empty());
    for f in functions {
        assert!(f["name"].is_string());
        assert!(f["description"].is_string());
        assert!(f["params"].is_array());
        assert_eq!(f["is_builtin"].as_bool(), Some(true));
    }
}

#[test]
fn selectors_listing_has_selectors() {
    let result = available_selectors();
    assert_eq!(result.len(), 1);
    let doc: serde_json::Value = serde_json::from_str(&result[0]).expect("listing must be valid JSON");
    let selectors = doc.get("selectors").expect("selectors field").as_array().expect("array");
    assert!(!selectors.is_empty());
}

#[test]
fn listings_are_deterministic_across_calls() {
    assert_eq!(available_functions(), available_functions());
    assert_eq!(available_selectors(), available_selectors());
}

#[test]
fn example_queries_are_fixed() {
    let examples = example_queries();
    assert_eq!(
        examples,
        vec![
            r#"select(or(.[], .code, .h)) | upcase() | add(" Hello World")"#.to_string(),
            r#"select(not(.code))"#.to_string(),
            r#".code("js")"#.to_string(),
        ]
    );
}

#[test]
fn function_listing_escapes_json_text() {
    let rows = vec![("quote\"back\\slash".to_string(), "line\none\ttab".to_string(), vec![
        "p1".to_string(),
        "p2".to_string(),
    ])];
    let functions = catalog_functions(&rows);
    let doc = functions_listing(&functions);
    let parsed: serde_json::Value = serde_json::from_str(&doc).expect("listing must be valid JSON");
    let f = &parsed["functions"][0];
    assert_eq!(f["name"].as_str().unwrap(), "quote\"back\\slash");
    assert_eq!(f["description"].as_str().unwrap(), "line\none\ttab");
    assert_eq!(f["params"][0].as_str().unwrap(), "p1");
    assert_eq!(f["params"][1].as_str().unwrap(), "p2");
}

#[test]
fn function_listing_exact_text() {
    let rows = vec![("upcase".to_string(), "Uppercases a string".to_string(), vec!["s".to_string()])];
    let functions = catalog_functions(&rows);
    let doc = functions_listing(&functions);
    let mut expected = String::new();
    expected.push_str("{\"functions\":[{\"name\":\"upcase\",\"description\":\"Uppercases a string\",");
    expected.push_str("\"params\":[\"s\"],\"is_builtin\":true}],");
    expected.push_str("\"examples\":[\"select(or(.[], .code, .h)) | upcase() | add(\\\" Hello World\\\")\",");
    expected.push_str("\"select(not(.code))\",\".code(\\\"js\\\")\"]}");
    assert_eq!(doc, expected);
}

#[test]
fn selector_listing_exact_text() {
    let rows = vec![(".h1".to_string(), "Level-1 headings".to_string(), Vec::new())];
    let selectors = catalog_selectors(&rows);
    let doc = selectors_listing(&selectors);
    assert_eq!(
        doc,
        "{\"selectors\":[{\"name\":\".h1\",\"description\":\"Level-1 headings\",\"params\":[]}]}"
    );
}

#[test]
fn control_characters_use_unicode_escapes() {
    let rows = vec![("bell".to_string(), "ding\u{7}dong\u{1f}".to_string(), Vec::new())];
    let selectors = catalog_selectors(&rows);
    let doc = selectors_listing(&selectors);
    assert!(doc.contains("ding\\u0007dong\\u001f"));
    let parsed: serde_json::Value = serde_json::from_str(&doc).expect("listing must be valid JSON");
    assert_eq!(
        parsed["selectors"][0]["description"].as_str().unwrap(),
        "ding\u{7}dong\u{1f}"
    );
}
