//! The tool router: the caller-facing operations that parse a document,
//! evaluate a query over its nodes, and project the evaluated values into
//! content units, together with the error taxonomy that separates input
//! parse failures from query failures.
use vstd::prelude::*;

use crate::adapters::{eval_query, parse_err_of, parse_nodes, parse_ok, query_parses};
use crate::values::project;

verus! {

/// The query text used when a caller supplies none: it passes every
/// document node through unchanged.
pub open spec fn identity_query() -> Seq<char> {
    "identity()"@
}

/// The view of an optional caller-supplied query string.
pub open spec fn opt_view(query: Option<&str>) -> Option<Seq<char>> {
    match query {
        Option::Some(q) => Option::Some(q@),
        Option::None => Option::None,
    }
}

/// The query string an operation hands to the evaluator: the caller's
/// query when one was given, the identity query otherwise.
pub open spec fn effective_query_spec(query: Option<Seq<char>>) -> Seq<char> {
    match query {
        Option::Some(q) => q,
        Option::None => identity_query(),
    }
}

/// Resolves an optional caller query to the text actually evaluated.
pub fn effective_query(query: Option<&str>) -> (r: String)
    ensures
        r@ == effective_query_spec(opt_view(query)),
{
    match query {
        Option::Some(q) => q.to_owned(),
        Option::None => "identity()".to_owned(),
    }
}

/// A caller-omitted query and an explicit identity query resolve to the
/// same evaluated text, so the two calls hand the evaluator the same
/// query program.
pub proof fn lemma_identity_default(explicit: Seq<char>)
    requires
        explicit == identity_query(),
    ensures
        effective_query_spec(Option::None) == effective_query_spec(Option::Some(explicit)),
{
}

/// A failed operation: either the input document could not be parsed at
/// all, or the query could not be parsed or failed during evaluation.
/// The summary names what failed; the detail carries the underlying
/// engine's message.
#[derive(Debug)]
pub enum ToolError {
    Parse { summary: String, detail: String },
    Query { summary: String, detail: String },
}

impl ToolError {
    /// The caller-facing rendering of the error: the summary, a colon,
    /// and the underlying message.
    pub open spec fn message_spec(&self) -> Seq<char> {
        match self {
            ToolError::Parse { summary, detail } => summary@ + ": "@ + detail@,
            ToolError::Query { summary, detail } => summary@ + ": "@ + detail@,
        }
    }

    /// Renders the error as one line of text.
    pub fn message(&self) -> (r: String)
        ensures
            r@ == self.message_spec(),
    {
        let mut out = String::new();
        match self {
            ToolError::Parse { summary, detail } => {
                out.append(summary.as_str());
                out.append(": ");
                out.append(detail.as_str());
            },
            ToolError::Query { summary, detail } => {
                out.append(summary.as_str());
                out.append(": ");
                out.append(detail.as_str());
            },
        }
        out
    }
}

/// Executes a query on HTML content: parses the HTML into document
/// nodes, evaluates the query (the identity query when none is given)
/// over them, and projects the evaluated values into content units.
///
/// A parse error is returned exactly when the parser rejects the HTML,
/// and carries the parser's message as its detail; a query error is
/// returned only after a successful parse, always when the evaluator
/// rejects the query text, and also when a well-formed query fails at
/// runtime. On success the body hands the evaluator's values to
/// `project`, whose contract pins the units exactly; the values
/// themselves cannot be pinned here, because evaluation may draw on
/// time, randomness, or I/O through the engine's built-ins.
pub fn html_to_markdown(html: &str, query: Option<&str>) -> (r: Result<Vec<String>, ToolError>)
    ensures
        (match r {
            Result::Ok(_) => parse_ok(html@),
            Result::Err(e) => match e {
                ToolError::Parse { summary, detail } => !parse_ok(html@) && summary@
                    == "Failed to parse html"@ && detail@ == parse_err_of(html@),
                ToolError::Query { summary, .. } => parse_ok(html@) && summary@
                    == "Failed to query"@,
            },
        }),
        !parse_ok(html@) ==> r is Err,
        parse_ok(html@) && !query_parses(effective_query_spec(opt_view(query))) ==> r is Err,
{
    let q = effective_query(query);
    let nodes = match parse_nodes(html) {
        Result::Ok(nodes) => nodes,
        Result::Err(detail) => {
            return Result::Err(
                ToolError::Parse { summary: "Failed to parse html".to_owned(), detail },
            );
        },
    };
    let values = match eval_query(q.as_str(), nodes) {
        Result::Ok(values) => values,
        Result::Err(detail) => {
            return Result::Err(
                ToolError::Query { summary: "Failed to query".to_owned(), detail },
            );
        },
    };
    Result::Ok(project(values))
}

/// Extracts content from Markdown: parses the text into document nodes
/// through the same recovering parser, evaluates the required query over
/// them, and projects the evaluated values into content units.
///
/// The error split mirrors the HTML operation: a parse error exactly
/// when the parser rejects the input, with the parser's message as its
/// detail; a query error only after a successful parse, always when the
/// evaluator rejects the query text (which is passed through verbatim,
/// even empty), and also on a runtime evaluation failure. On success the
/// body hands the evaluator's values to `project`, whose contract pins
/// the units exactly.
pub fn extract_markdown(markdown: &str, query: &str) -> (r: Result<Vec<String>, ToolError>)
    ensures
        (match r {
            Result::Ok(_) => parse_ok(markdown@),
            Result::Err(e) => match e {
                ToolError::Parse { summary, detail } => !parse_ok(markdown@) && summary@
                    == "Failed to parse markdown"@ && detail@ == parse_err_of(markdown@),
                ToolError::Query { summary, .. } => parse_ok(markdown@) && summary@
                    == "Failed to query"@,
            },
        }),
        !parse_ok(markdown@) ==> r is Err,
        parse_ok(markdown@) && !query_parses(query@) ==> r is Err,
{
    let nodes = match parse_nodes(markdown) {
        Result::Ok(nodes) => nodes,
        Result::Err(detail) => {
            return Result::Err(
                ToolError::Parse { summary: "Failed to parse markdown".to_owned(), detail },
            );
        },
    };
    let values = match eval_query(query, nodes) {
        Result::Ok(values) => values,
        Result::Err(detail) => {
            return Result::Err(
                ToolError::Query { summary: "Failed to query".to_owned(), detail },
            );
        },
    };
    Result::Ok(project(values))
}

/// The service metadata shown to a caller at session start.
pub struct ServiceInfo {
    /// The protocol version identifier.
    pub protocol_version: String,
    /// The human-readable capability description.
    pub instructions: String,
    /// Whether the service supports logging.
    pub logging: bool,
    /// Whether the service supports tool invocation.
    pub tools: bool,
    /// Whether the service supports tool-list-change notification.
    pub tool_list_changed: bool,
}

/// The fixed metadata this service declares: its protocol version, its
/// capability description, and its capability flags.
pub fn service_info() -> (r: ServiceInfo)
    ensures
        r.protocol_version@ == "2024-11-05"@,
        r.instructions@ == "mq is a tool for processing markdown content with a jq-like syntax."@,
        r.logging,
        r.tools,
        r.tool_list_changed,
{
    ServiceInfo {
        protocol_version: "2024-11-05".to_owned(),
        instructions: "mq is a tool for processing markdown content with a jq-like syntax.".to_owned(),
        logging: true,
        tools: true,
        tool_list_changed: true,
    }
}

} // verus!
