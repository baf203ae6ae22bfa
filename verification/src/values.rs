//! The library's model of an evaluated query result and the projection
//! that turns a sequence of results into the content units handed back to
//! the caller: empty and none values are dropped, every other value is
//! emitted as its textual form, in evaluation order.
use vstd::prelude::*;

use crate::json::texts_of;

verus! {

/// One evaluated query result, reduced to what projection reads of it:
/// its canonical textual form and its two emptiness facets.
pub struct ResultValue {
    /// The value's canonical textual rendering.
    pub text: String,
    /// Whether the value is the evaluator's none value.
    pub none: bool,
    /// Whether the value is considered empty.
    pub empty: bool,
}

/// The mathematical view of a `ResultValue`.
#[verifier::ext_equal]
pub struct ResultValueView {
    pub text: Seq<char>,
    pub none: bool,
    pub empty: bool,
}

impl View for ResultValue {
    type V = ResultValueView;

    open spec fn view(&self) -> ResultValueView {
        ResultValueView { text: self.text@, none: self.none, empty: self.empty }
    }
}

/// The views of a sequence of result values.
pub open spec fn views_of(vs: Seq<ResultValue>) -> Seq<ResultValueView> {
    vs.map_values(|v: ResultValue| v@)
}

/// A result value survives projection exactly when it is neither none nor
/// empty.
pub open spec fn survives(v: ResultValueView) -> bool {
    !v.none && !v.empty
}

/// The projection of a sequence of result values: the texts of the
/// surviving values, in their original order.
pub open spec fn project_spec(vs: Seq<ResultValueView>) -> Seq<Seq<char>>
    decreases vs.len(),
{
    if vs.len() == 0 {
        Seq::empty()
    } else {
        let init = project_spec(vs.drop_last());
        if survives(vs.last()) {
            init.push(vs.last().text)
        } else {
            init
        }
    }
}

/// Drops none and empty values and renders the rest, one content unit per
/// surviving value, preserving evaluation order. Total: it never fails.
pub fn project(values: Vec<ResultValue>) -> (r: Vec<String>)
    ensures
        texts_of(r@) == project_spec(views_of(values@)),
{
    let ghost all: Seq<ResultValueView> = views_of(values@);
    let mut r: Vec<String> = Vec::new();
    let mut i: usize = 0;
    while i < values.len()
        invariant
            i <= values@.len(),
            all == views_of(values@),
            texts_of(r@) == project_spec(all.take(i as int)),
        decreases values@.len() - i,
    {
        let v = &values[i];
        if !v.none && !v.empty {
            let text: String = v.text.as_str().to_owned();
            r.push(text);
            proof {
                assert(texts_of(r@) =~= texts_of(r@.drop_last()).push(v.text@));
            }
        }
        proof {
            let t = all.take(i + 1 as int);
            assert(t.drop_last() =~= all.take(i as int));
            assert(t.last() == all[i as int]);
            assert(all[i as int] == values@[i as int]@);
        }
        i = i + 1;
    }
    proof {
        assert(all.take(values@.len() as int) =~= all);
    }
    r
}

/// Projection distributes over concatenation: the units produced for a
/// document's results are the units of any prefix of the results followed
/// by the units of the rest, so projection never reorders values across
/// any boundary.
pub proof fn lemma_project_append(vs: Seq<ResultValueView>, ws: Seq<ResultValueView>)
    ensures
        project_spec(vs + ws) == project_spec(vs) + project_spec(ws),
    decreases ws.len(),
{
    if ws.len() == 0 {
        assert(vs + ws =~= vs);
        assert(project_spec(vs) + project_spec(ws) =~= project_spec(vs));
    } else {
        lemma_project_append(vs, ws.drop_last());
        assert((vs + ws).drop_last() =~= vs + ws.drop_last());
        assert((vs + ws).last() == ws.last());
        if survives(ws.last()) {
            assert(project_spec(vs) + project_spec(ws)
                =~= (project_spec(vs) + project_spec(ws.drop_last())).push(ws.last().text));
        } else {
            assert(project_spec(vs) + project_spec(ws) =~= project_spec(vs) + project_spec(ws.drop_last()));
        }
    }
}

/// A content unit read back as a result value: trivially neither none nor
/// empty, with the unit as its text.
pub open spec fn trivial_view(t: Seq<char>) -> ResultValueView {
    ResultValueView { text: t, none: false, empty: false }
}

/// Projection is idempotent: re-projecting an already-projected sequence,
/// with each content unit taken as a trivially surviving result value,
/// gives the same sequence back unchanged.
pub proof fn lemma_projection_idempotent(units: Seq<Seq<char>>)
    ensures
        project_spec(units.map_values(|t: Seq<char>| trivial_view(t))) == units,
    decreases units.len(),
{
    let mapped = units.map_values(|t: Seq<char>| trivial_view(t));
    if units.len() == 0 {
        assert(project_spec(mapped) =~= units);
    } else {
        lemma_projection_idempotent(units.drop_last());
        assert(mapped.drop_last() =~= units.drop_last().map_values(|t: Seq<char>| trivial_view(t)));
        assert(mapped.last() == trivial_view(units.last()));
        assert(project_spec(mapped) =~= units);
    }
}

/// An evaluation that produced no values projects to no content units: an
/// empty success, not an error.
pub proof fn lemma_project_empty()
    ensures
        project_spec(Seq::<ResultValueView>::empty()) == Seq::<Seq<char>>::empty(),
{
}

} // verus!
