//! The catalog introspector: entries describing the query language's
//! functions and selectors, read from the engine's static registry and
//! serialized into one JSON listing per catalog, together with the fixed
//! example queries that accompany the function listing.
use vstd::prelude::*;

use crate::json::{bool_json, comma_joined, push_quoted, push_string_array, quoted, string_array_json, texts_of};

verus! {

/// One entry of the function catalog.
pub struct FunctionInfo {
    /// The function name.
    pub name: String,
    /// The function description.
    pub description: String,
    /// The function's parameter names, in declared order.
    pub params: Vec<String>,
    /// Whether this is a built-in function.
    pub is_builtin: bool,
}

/// The mathematical view of a `FunctionInfo`.
#[verifier::ext_equal]
pub struct FunctionInfoView {
    pub name: Seq<char>,
    pub description: Seq<char>,
    pub params: Seq<Seq<char>>,
    pub is_builtin: bool,
}

impl View for FunctionInfo {
    type V = FunctionInfoView;

    open spec fn view(&self) -> FunctionInfoView {
        FunctionInfoView {
            name: self.name@,
            description: self.description@,
            params: texts_of(self.params@),
            is_builtin: self.is_builtin,
        }
    }
}

/// One entry of the selector catalog.
pub struct SelectorInfo {
    /// The selector name.
    pub name: String,
    /// The selector description.
    pub description: String,
    /// The selector's parameter names, in declared order.
    pub params: Vec<String>,
}

/// The mathematical view of a `SelectorInfo`.
#[verifier::ext_equal]
pub struct SelectorInfoView {
    pub name: Seq<char>,
    pub description: Seq<char>,
    pub params: Seq<Seq<char>>,
}

impl View for SelectorInfo {
    type V = SelectorInfoView;

    open spec fn view(&self) -> SelectorInfoView {
        SelectorInfoView {
            name: self.name@,
            description: self.description@,
            params: texts_of(self.params@),
        }
    }
}

/// The JSON object serializing one function entry.
pub open spec fn function_json(f: FunctionInfoView) -> Seq<char> {
    "{\"name\":"@ + quoted(f.name) + ",\"description\":"@ + quoted(f.description) + ",\"params\":"@
        + string_array_json(f.params) + ",\"is_builtin\":"@ + bool_json(f.is_builtin) + "}"@
}

/// The JSON object serializing one selector entry.
pub open spec fn selector_json(s: SelectorInfoView) -> Seq<char> {
    "{\"name\":"@ + quoted(s.name) + ",\"description\":"@ + quoted(s.description) + ",\"params\":"@
        + string_array_json(s.params) + "}"@
}

/// The views of a sequence of function entries.
pub open spec fn function_views(fs: Seq<FunctionInfo>) -> Seq<FunctionInfoView> {
    fs.map_values(|f: FunctionInfo| f@)
}

/// The views of a sequence of selector entries.
pub open spec fn selector_views(ss: Seq<SelectorInfo>) -> Seq<SelectorInfoView> {
    ss.map_values(|s: SelectorInfo| s@)
}

/// The whole function listing: every entry in order under a "functions"
/// field, and the fixed example queries under an "examples" field.
pub open spec fn functions_doc(fs: Seq<FunctionInfoView>, examples: Seq<Seq<char>>) -> Seq<char> {
    "{\"functions\":["@ + comma_joined(fs.map_values(|f: FunctionInfoView| function_json(f)))
        + "],\"examples\":"@ + string_array_json(examples) + "}"@
}

/// The whole selector listing: every entry in order under a "selectors"
/// field.
pub open spec fn selectors_doc(ss: Seq<SelectorInfoView>) -> Seq<char> {
    "{\"selectors\":["@ + comma_joined(ss.map_values(|s: SelectorInfoView| selector_json(s))) + "]}"@
}

/// The fixed illustrative example queries shipped with the function
/// listing.
pub open spec fn example_queries_spec() -> Seq<Seq<char>> {
    seq![
        r#"select(or(.[], .code, .h)) | upcase() | add(" Hello World")"#@,
        r#"select(not(.code))"#@,
        r#".code("js")"#@,
    ]
}

/// The fixed example queries, identical on every call.
pub fn example_queries() -> (r: Vec<String>)
    ensures
        texts_of(r@) == example_queries_spec(),
{
    let mut r: Vec<String> = Vec::new();
    r.push(r#"select(or(.[], .code, .h)) | upcase() | add(" Hello World")"#.to_owned());
    r.push(r#"select(not(.code))"#.to_owned());
    r.push(r#".code("js")"#.to_owned());
    proof {
        assert(texts_of(r@) =~= example_queries_spec());
    }
    r
}

/// Appends the JSON object for one function entry.
fn push_function_json(out: &mut String, f: &FunctionInfo)
    ensures
        final(out)@ == old(out)@ + function_json(f@),
{
    out.append("{\"name\":");
    push_quoted(out, f.name.as_str());
    out.append(",\"description\":");
    push_quoted(out, f.description.as_str());
    out.append(",\"params\":");
    push_string_array(out, &f.params);
    out.append(",\"is_builtin\":");
    if f.is_builtin {
        out.append("true");
    } else {
        out.append("false");
    }
    out.append("}");
    proof {
        assert(out@ =~= old(out)@ + function_json(f@));
    }
}

/// Appends the JSON object for one selector entry.
fn push_selector_json(out: &mut String, s: &SelectorInfo)
    ensures
        final(out)@ == old(out)@ + selector_json(s@),
{
    out.append("{\"name\":");
    push_quoted(out, s.name.as_str());
    out.append(",\"description\":");
    push_quoted(out, s.description.as_str());
    out.append(",\"params\":");
    push_string_array(out, &s.params);
    out.append("}");
    proof {
        assert(out@ =~= old(out)@ + selector_json(s@));
    }
}

/// Serializes a function catalog, with the fixed examples, into the one
/// JSON document returned to the caller. Total: it never fails.
pub fn functions_listing(functions: &Vec<FunctionInfo>) -> (r: String)
    ensures
        r@ == functions_doc(function_views(functions@), example_queries_spec()),
{
    let mut out = String::new();
    out.append("{\"functions\":[");
    let ghost parts: Seq<Seq<char>> =
        function_views(functions@).map_values(|f: FunctionInfoView| function_json(f));
    let mut i: usize = 0;
    while i < functions.len()
        invariant
            i <= functions@.len(),
            parts == function_views(functions@).map_values(|f: FunctionInfoView| function_json(f)),
            out@ == "{\"functions\":["@ + comma_joined(parts.take(i as int)),
        decreases functions@.len() - i,
    {
        if i > 0 {
            out.append(",");
        }
        push_function_json(&mut out, &functions[i]);
        proof {
            let t = parts.take(i + 1 as int);
            assert(t.drop_last() =~= parts.take(i as int));
            assert(t.last() == parts[i as int]);
            assert(parts[i as int] == function_json(functions@[i as int]@));
        }
        i = i + 1;
    }
    proof {
        assert(parts.take(functions@.len() as int) =~= parts);
    }
    out.append("],\"examples\":");
    let examples = example_queries();
    push_string_array(&mut out, &examples);
    out.append("}");
    proof {
        assert(out@ =~= functions_doc(function_views(functions@), example_queries_spec()));
    }
    out
}

/// Serializes a selector catalog into the one JSON document returned to
/// the caller. Total: it never fails.
pub fn selectors_listing(selectors: &Vec<SelectorInfo>) -> (r: String)
    ensures
        r@ == selectors_doc(selector_views(selectors@)),
{
    let mut out = String::new();
    out.append("{\"selectors\":[");
    let ghost parts: Seq<Seq<char>> =
        selector_views(selectors@).map_values(|s: SelectorInfoView| selector_json(s));
    let mut i: usize = 0;
    while i < selectors.len()
        invariant
            i <= selectors@.len(),
            parts == selector_views(selectors@).map_values(|s: SelectorInfoView| selector_json(s)),
            out@ == "{\"selectors\":["@ + comma_joined(parts.take(i as int)),
        decreases selectors@.len() - i,
    {
        if i > 0 {
            out.append(",");
        }
        push_selector_json(&mut out, &selectors[i]);
        proof {
            let t = parts.take(i + 1 as int);
            assert(t.drop_last() =~= parts.take(i as int));
            assert(t.last() == parts[i as int]);
            assert(parts[i as int] == selector_json(selectors@[i as int]@));
        }
        i = i + 1;
    }
    proof {
        assert(parts.take(selectors@.len() as int) =~= parts);
    }
    out.append("]}");
    proof {
        assert(out@ =~= selectors_doc(selector_views(selectors@)));
    }
    out
}

/// Relies on `mq_hir::Hir::default`, whose `builtin.functions` table is
/// the static registry of built-in query functions: yields each one's
/// name, description, and parameter names in declared order. The table
/// is statically populated, so the result is never empty.
#[verifier::external_body]
fn fetch_builtin_functions() -> (r: Vec<(String, String, Vec<String>)>)
    ensures
        r@.len() > 0,
{
    let hir = mq_hir::Hir::default();
    hir.builtin
        .functions
        .iter()
        .map(|(name, doc)| (
            name.to_string(),
            doc.description.to_string(),
            doc.params.iter().map(|p| p.to_string()).collect(),
        ))
        .collect()
}

/// Relies on `mq_hir::Hir::default`, whose `builtin.internal_functions`
/// table is the static registry of internal query functions: yields each
/// one's name, description, and parameter names in declared order. The
/// table is statically populated, so the result is never empty.
#[verifier::external_body]
fn fetch_internal_functions() -> (r: Vec<(String, String, Vec<String>)>)
    ensures
        r@.len() > 0,
{
    let hir = mq_hir::Hir::default();
    hir.builtin
        .internal_functions
        .iter()
        .map(|(name, doc)| (
            name.to_string(),
            doc.description.to_string(),
            doc.params.iter().map(|p| p.to_string()).collect(),
        ))
        .collect()
}

/// Relies on `mq_hir::Hir::default`, whose `builtin.selectors` table is
/// the static registry of query selectors: yields each one's name,
/// description, and parameter names in declared order. The table is
/// statically populated, so the result is never empty.
#[verifier::external_body]
fn fetch_selectors() -> (r: Vec<(String, String, Vec<String>)>)
    ensures
        r@.len() > 0,
{
    let hir = mq_hir::Hir::default();
    hir.builtin
        .selectors
        .iter()
        .map(|(name, doc)| (
            name.to_string(),
            doc.description.to_string(),
            doc.params.iter().map(|p| p.to_string()).collect(),
        ))
        .collect()
}

/// Copies a list of strings, keeping each text unchanged.
fn clone_strings(v: &Vec<String>) -> (r: Vec<String>)
    ensures
        texts_of(r@) == texts_of(v@),
{
    let mut r: Vec<String> = Vec::new();
    let mut i: usize = 0;
    while i < v.len()
        invariant
            i <= v@.len(),
            r@.len() == i,
            forall|j: int| 0 <= j < i ==> #[trigger] r@[j]@ == v@[j]@,
        decreases v@.len() - i,
    {
        r.push(v[i].as_str().to_owned());
        i = i + 1;
    }
    proof {
        assert forall|j: int| 0 <= j < v@.len() implies #[trigger] texts_of(r@)[j] == texts_of(
            v@,
        )[j] by {
            assert(r@[j]@ == v@[j]@);
        };
        assert(texts_of(r@) =~= texts_of(v@));
    }
    r
}

/// The function entry made from one raw registry row; every registry
/// function, built-in or internal, is flagged as built-in in the listing.
pub open spec fn marked_function(e: (String, String, Vec<String>)) -> FunctionInfoView {
    FunctionInfoView { name: e.0@, description: e.1@, params: texts_of(e.2@), is_builtin: true }
}

/// The selector entry made from one raw registry row.
pub open spec fn selector_of_row(e: (String, String, Vec<String>)) -> SelectorInfoView {
    SelectorInfoView { name: e.0@, description: e.1@, params: texts_of(e.2@) }
}

/// Builds the function catalog from raw registry rows, in order, flagging
/// every entry as built-in.
pub fn catalog_functions(raw: &Vec<(String, String, Vec<String>)>) -> (r: Vec<FunctionInfo>)
    ensures
        function_views(r@) == raw@.map_values(|e: (String, String, Vec<String>)| marked_function(e)),
{
    let mut r: Vec<FunctionInfo> = Vec::new();
    let mut i: usize = 0;
    while i < raw.len()
        invariant
            i <= raw@.len(),
            r@.len() == i,
            forall|j: int| 0 <= j < i ==> #[trigger] r@[j]@ =~= marked_function(raw@[j]),
        decreases raw@.len() - i,
    {
        let e = &raw[i];
        let entry = FunctionInfo {
            name: e.0.as_str().to_owned(),
            description: e.1.as_str().to_owned(),
            params: clone_strings(&e.2),
            is_builtin: true,
        };
        proof {
            assert(entry@ =~= marked_function(raw@[i as int]));
        }
        r.push(entry);
        i = i + 1;
    }
    proof {
        let target = raw@.map_values(|e: (String, String, Vec<String>)| marked_function(e));
        assert forall|j: int| 0 <= j < raw@.len() implies #[trigger] function_views(r@)[j]
            == target[j] by {
            assert(r@[j]@ =~= marked_function(raw@[j]));
        };
        assert(function_views(r@) =~= target);
    }
    r
}

/// Builds the selector catalog from raw registry rows, in order.
pub fn catalog_selectors(raw: &Vec<(String, String, Vec<String>)>) -> (r: Vec<SelectorInfo>)
    ensures
        selector_views(r@) == raw@.map_values(|e: (String, String, Vec<String>)| selector_of_row(e)),
{
    let mut r: Vec<SelectorInfo> = Vec::new();
    let mut i: usize = 0;
    while i < raw.len()
        invariant
            i <= raw@.len(),
            r@.len() == i,
            forall|j: int| 0 <= j < i ==> #[trigger] r@[j]@ =~= selector_of_row(raw@[j]),
        decreases raw@.len() - i,
    {
        let e = &raw[i];
        let entry = SelectorInfo {
            name: e.0.as_str().to_owned(),
            description: e.1.as_str().to_owned(),
            params: clone_strings(&e.2),
        };
        proof {
            assert(entry@ =~= selector_of_row(raw@[i as int]));
        }
        r.push(entry);
        i = i + 1;
    }
    proof {
        let target = raw@.map_values(|e: (String, String, Vec<String>)| selector_of_row(e));
        assert forall|j: int| 0 <= j < raw@.len() implies #[trigger] selector_views(r@)[j]
            == target[j] by {
            assert(r@[j]@ =~= selector_of_row(raw@[j]));
        };
        assert(selector_views(r@) =~= target);
    }
    r
}

/// Lists every registry function, built-in first and then internal, as
/// one serialized JSON document: the single content unit of a successful
/// introspection call. The listing is never empty, every entry in it is
/// flagged as built-in, and it carries the fixed example queries. It
/// never fails.
pub fn available_functions() -> (r: Vec<String>)
    ensures
        r@.len() == 1,
        exists|fs: Seq<FunctionInfoView>|
            fs.len() > 0 && (forall|i: int| 0 <= i < fs.len() ==> (#[trigger] fs[i]).is_builtin)
                && r@[0]@ == #[trigger] functions_doc(fs, example_queries_spec()),
{
    let mut raw = fetch_builtin_functions();
    let mut internals = fetch_internal_functions();
    raw.append(&mut internals);
    let functions = catalog_functions(&raw);
    let doc = functions_listing(&functions);
    let mut r: Vec<String> = Vec::new();
    r.push(doc);
    proof {
        let fs = function_views(functions@);
        assert(fs.len() == raw@.len());
        assert forall|i: int| 0 <= i < fs.len() implies (#[trigger] fs[i]).is_builtin by {
            assert(fs[i] == marked_function(raw@[i]));
        };
        assert(fs.len() > 0 && (forall|i: int|
            0 <= i < fs.len() ==> (#[trigger] fs[i]).is_builtin) && r@[0]@ == functions_doc(
            fs,
            example_queries_spec(),
        ));
    }
    r
}

/// Lists every registry selector as one serialized JSON document: the
/// single content unit of a successful introspection call. The listing
/// is never empty. It never fails.
pub fn available_selectors() -> (r: Vec<String>)
    ensures
        r@.len() == 1,
        exists|ss: Seq<SelectorInfoView>|
            ss.len() > 0 && r@[0]@ == #[trigger] selectors_doc(ss),
{
    let raw = fetch_selectors();
    let selectors = catalog_selectors(&raw);
    let doc = selectors_listing(&selectors);
    let mut r: Vec<String> = Vec::new();
    r.push(doc);
    proof {
        let ss = selector_views(selectors@);
        assert(ss.len() == raw@.len());
        assert(ss.len() > 0 && r@[0]@ == selectors_doc(ss));
    }
    r
}

} // verus!
