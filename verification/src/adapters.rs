//! The document parser and query evaluator adapters: narrow trusted
//! boundaries around the external parsing and evaluation engines. Parsed
//! document nodes are carried through opaquely; an evaluated value comes
//! back reduced to the library's `ResultValue` model, on which the rest
//! of the pipeline is verified.
use vstd::prelude::*;

use crate::values::ResultValue;

verus! {

#[verifier::external_type_specification]
#[verifier::external_body]
pub struct ExNode(mq_markdown::Node);

/// Whether the document parser accepts a text. The conversion from raw
/// HTML (or Markdown routed through it) to document nodes runs with
/// fixed options and reads nothing but its input — no clock, no
/// randomness, and only unseeded, insertion-ordered maps — so acceptance
/// is a function of the text alone.
pub uninterp spec fn parse_ok(text: Seq<char>) -> bool;

/// The message the document parser reports for a text it cannot parse.
/// Deterministic for the same reason as `parse_ok`; meaningful only
/// where `parse_ok` does not hold.
pub uninterp spec fn parse_err_of(text: Seq<char>) -> Seq<char>;

/// Whether the evaluator accepts a text as a query program (the empty
/// text counts as accepted). The query parser runs to completion before
/// any evaluation starts and reads nothing but the query text, so
/// acceptance is a function of that text alone.
pub uninterp spec fn query_parses(query: Seq<char>) -> bool;

/// Relies on `mq_markdown::Markdown::from_html_str`: converts raw HTML
/// (or plain Markdown, which the converter passes through) into an
/// ordered sequence of document nodes, recovering from malformed markup
/// where it can, and reports inputs it cannot recover from as an error
/// carrying the parser's message. Succeeds exactly on the texts the
/// parser accepts, and the error text is the parser's own message — both
/// deterministic in the input, so both are named.
#[verifier::external_body]
pub(crate) fn parse_nodes(text: &str) -> (r: Result<Vec<mq_markdown::Node>, String>)
    ensures
        (r is Ok) == parse_ok(text@),
        (r matches Err(m) ==> m@ == parse_err_of(text@)),
{
    match mq_markdown::Markdown::from_html_str(text) {
        Ok(markdown) => Ok(markdown.nodes),
        Err(e) => Err(e.to_string()),
    }
}

/// Relies on `mq_lang::Engine`: `DefaultEngine::default` and
/// `load_builtin_module` build one independent evaluation context with
/// the built-in vocabulary loaded, and `eval` runs the query over the
/// node sequence, reporting syntax and runtime failures alike as an
/// error carrying the evaluator's message. Each returned value is read
/// through `RuntimeValue::is_none`, `RuntimeValue::is_empty`, and its
/// `Display` rendering — the three facets the result projector consumes.
/// `eval` parses the query before evaluating anything, so a query text
/// the parser rejects always comes back as an error; no more is stated,
/// because evaluation itself may draw on time, randomness, or I/O
/// through the engine's built-ins.
#[verifier::external_body]
pub(crate) fn eval_query(query: &str, nodes: Vec<mq_markdown::Node>) -> (r: Result<
    Vec<ResultValue>,
    String,
>)
    ensures
        !query_parses(query@) ==> r is Err,
{
    let mut engine = mq_lang::DefaultEngine::default();
    engine.load_builtin_module();
    match engine.eval(query, nodes.into_iter().map(mq_lang::RuntimeValue::from)) {
        Ok(values) => Ok(values
            .into_iter()
            .map(|v| ResultValue { text: v.to_string(), none: v.is_none(), empty: v.is_empty() })
            .collect()),
        Err(e) => Err(e.to_string()),
    }
}

} // verus!
