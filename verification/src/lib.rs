//! Verified core of an mq-based document tool service: converting HTML
//! to Markdown with optional query filtering, extracting content from
//! Markdown via a query, and introspecting the available query
//! vocabulary. The parsing and evaluation engines are external; the
//! dispatch, projection, serialization, and error taxonomy around them
//! are specified and proved here.
pub mod adapters;
pub mod catalog;
pub mod json;
pub mod tools;
pub mod values;

pub use catalog::{available_functions, available_selectors};
pub use tools::{extract_markdown, html_to_markdown, service_info};
