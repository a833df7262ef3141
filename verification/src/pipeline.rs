//! The whole numbering pipeline: flag resolution, classification,
//! rendering, and optional reversal of the rendered rows, in one pass.

use vstd::prelude::*;
use crate::policy::{LinePredicate, Policy, number_all_policy, skip_empty_policy};
use crate::classify::{
    line_views, spec_number_lines, number_lines, lemma_spec_number_lines_shape,
    lemma_number_all_ordinals,
};
use crate::render::{
    PadMode, RenderError, pretty_numbered_lines, spec_fits, spec_rendered, spec_width,
    spec_num_seq, spec_pad, spec_dec,
};

verus! {

/// The policy the `skip_empty` flag selects.
pub open spec fn spec_policy_for(skip_empty: bool) -> Policy {
    if skip_empty {
        skip_empty_policy()
    } else {
        number_all_policy()
    }
}

/// The padding mode the `left_align` flag selects.
pub open spec fn spec_mode_for(left_align: bool) -> PadMode {
    if left_align {
        PadMode::PadRight
    } else {
        PadMode::PadLeft
    }
}

/// What one run of the pipeline produces for a document and flags:
/// classify under the selected policy, render under the selected mode,
/// and reverse the rendered rows when asked.  The ordinals are assigned
/// in original forward order whether or not the output is reversed.
pub open spec fn spec_pipeline(
    lines: Seq<Seq<char>>,
    skip_empty: bool,
    left_align: bool,
    reverse_order: bool,
) -> Result<Seq<Seq<char>>, RenderError> {
    let doc = spec_number_lines(spec_policy_for(skip_empty), lines, 1);
    if spec_fits(doc) {
        let rendered = spec_rendered(spec_mode_for(left_align), doc);
        Ok(
            if reverse_order {
                rendered.reverse()
            } else {
                rendered
            },
        )
    } else {
        Err(RenderError::NumberTooWide)
    }
}

/// The mathematical view of a pipeline result.
pub open spec fn result_views(r: Result<Vec<String>, RenderError>) -> Result<
    Seq<Seq<char>>,
    RenderError,
> {
    match r {
        Ok(v) => Ok(line_views(v@)),
        Err(e) => Err(e),
    }
}

/// Reverses the order of the rendered rows.
pub fn reverse_rows(rows: Vec<String>) -> (r: Vec<String>)
    ensures
        r@ == rows@.reverse(),
{
    let n = rows.len();
    let mut out: Vec<String> = Vec::new();
    let mut k: usize = 0;
    while k < n
        invariant
            k <= n,
            n == rows@.len(),
            out@.len() == k,
            forall|t: int| 0 <= t < k ==> out@[t] == rows@[n - 1 - t],
        decreases n - k,
    {
        out.push(rows[n - 1 - k].clone());
        k = k + 1;
    }
    proof {
        assert(out@ =~= rows@.reverse());
    }
    out
}

/// Runs the pipeline once: classifies `lines` under the policy selected
/// by `skip_empty`, renders the result under the mode selected by
/// `left_align`, and reverses the rendered rows when `reverse_order`
/// holds.  The result is exactly `spec_pipeline` on the input's view; in
/// particular, the run succeeds if and only if every ordinal fits the
/// column, and two runs on the same input and flags return the same
/// output.
pub fn run_pipeline(
    lines: &Vec<String>,
    skip_empty: bool,
    left_align: bool,
    reverse_order: bool,
) -> (r: Result<Vec<String>, RenderError>)
    requires
        lines@.len() < u64::MAX,
    ensures
        result_views(r) == spec_pipeline(line_views(lines@), skip_empty, left_align, reverse_order),
{
    let policy = if skip_empty {
        Policy { should_incr: LinePredicate::NonEmpty, should_number: LinePredicate::NonEmpty }
    } else {
        Policy { should_incr: LinePredicate::AlwaysTrue, should_number: LinePredicate::AlwaysTrue }
    };
    let mode = if left_align {
        PadMode::PadRight
    } else {
        PadMode::PadLeft
    };
    proof {
        assert(policy == spec_policy_for(skip_empty));
        assert(mode == spec_mode_for(left_align));
    }
    let doc = number_lines(&policy, lines);
    match pretty_numbered_lines(&mode, doc) {
        Ok(rows) => {
            if reverse_order {
                let reversed = reverse_rows(rows);
                proof {
                    assert(line_views(reversed@) =~= line_views(rows@).reverse());
                }
                Ok(reversed)
            } else {
                Ok(rows)
            }
        },
        Err(e) => Err(e),
    }
}

/// Reversing the rendered rows is a pure permutation: it keeps the
/// number of rows and the multiset of rows unchanged.
pub proof fn lemma_reverse_is_permutation(rows: Seq<Seq<char>>)
    ensures
        rows.reverse().len() == rows.len(),
        rows.reverse().to_multiset() == rows.to_multiset(),
{
    rows.lemma_reverse_to_multiset();
    assert(rows.reverse().to_multiset() =~= rows.to_multiset());
}

/// The reverse flag only permutes the output: when a document renders
/// at all, the reversed run returns exactly the forward rendering
/// backwards, with the same number of rows and the same multiset of
/// rows; and the two runs fail on exactly the same documents.
pub proof fn lemma_reverse_flag_is_permutation(
    lines: Seq<Seq<char>>,
    skip_empty: bool,
    left_align: bool,
)
    ensures
        ({
            let fwd = spec_pipeline(lines, skip_empty, left_align, false);
            let rev = spec_pipeline(lines, skip_empty, left_align, true);
            match (fwd, rev) {
                (Ok(f), Ok(r)) => r == f.reverse() && r.len() == f.len() && r.to_multiset()
                    == f.to_multiset(),
                (Err(e1), Err(e2)) => e1 == e2,
                _ => false,
            }
        }),
{
    let doc = spec_number_lines(spec_policy_for(skip_empty), lines, 1);
    if spec_fits(doc) {
        lemma_reverse_is_permutation(spec_rendered(spec_mode_for(left_align), doc));
    }
}

/// The pipeline is deterministic: two runs on the same lines with the
/// same flags produce the same output.  Together with the contract of
/// `run_pipeline`, which pins its result to `spec_pipeline`, this says
/// that re-running the pipeline yields identical output.
pub proof fn lemma_pipeline_deterministic(
    r1: Result<Seq<Seq<char>>, RenderError>,
    r2: Result<Seq<Seq<char>>, RenderError>,
    lines: Seq<Seq<char>>,
    skip_empty: bool,
    left_align: bool,
    reverse_order: bool,
)
    requires
        r1 == spec_pipeline(lines, skip_empty, left_align, reverse_order),
        r2 == spec_pipeline(lines, skip_empty, left_align, reverse_order),
    ensures
        r1 == r2,
{
}

/// An empty document always renders to an empty output.
pub proof fn lemma_empty_pipeline(skip_empty: bool, left_align: bool, reverse_order: bool)
    ensures
        spec_pipeline(Seq::empty(), skip_empty, left_align, reverse_order) == Result::<
            Seq<Seq<char>>,
            RenderError,
        >::Ok(Seq::empty()),
{
    let doc = spec_number_lines(spec_policy_for(skip_empty), Seq::empty(), 1);
    assert(doc =~= Seq::<(Option<u64>, Seq<char>)>::empty());
    assert(spec_rendered(spec_mode_for(left_align), doc) =~= Seq::<Seq<char>>::empty());
    assert(Seq::<Seq<char>>::empty().reverse() =~= Seq::<Seq<char>>::empty());
}

/// A one-line document under the number-all policy renders to a single
/// row whose column is exactly as wide as the line itself and whose
/// ordinal is 1.  (The line must be non-empty: the digit `1` cannot fit
/// a zero-width column, so a document of one empty line is rejected.)
pub proof fn lemma_single_line_pipeline(line: Seq<char>, left_align: bool, reverse_order: bool)
    requires
        line.len() > 0,
    ensures
        ({
            let r = spec_pipeline(seq![line], false, left_align, reverse_order);
            &&& r matches Ok(rows)
            &&& r->Ok_0.len() == 1
            &&& r->Ok_0[0] == spec_pad(spec_mode_for(left_align), line.len(), seq!['1']) + seq![' ']
                + line
        }),
{
    let doc = spec_number_lines(number_all_policy(), seq![line], 1);
    lemma_spec_number_lines_shape(number_all_policy(), seq![line], 1);
    lemma_number_all_ordinals(seq![line]);
    assert(doc[0] == (Some(1u64), line));
    assert(doc =~= seq![(Some(1u64), line)]);
    assert(doc.drop_last() =~= Seq::<(Option<u64>, Seq<char>)>::empty());
    assert(spec_width(doc.drop_last()) == 0);
    assert(spec_width(doc) == line.len());
    assert(spec_dec(1nat) =~= seq!['1']);
    assert forall|i: int| 0 <= i < doc.len() implies (#[trigger] spec_num_seq(doc[i].0)).len()
        <= spec_width(doc) by {
        assert(doc[i].0 == Some(1u64));
    }
    assert(spec_fits(doc));
    let rendered = spec_rendered(spec_mode_for(left_align), doc);
    assert(rendered.len() == 1);
    assert(rendered[0] == spec_pad(spec_mode_for(left_align), line.len(), seq!['1']) + seq![' ']
        + line);
    assert(rendered.reverse() =~= rendered);
}

} // verus!
