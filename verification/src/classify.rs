//! The line classifier: walks the lines of a document in order,
//! assigning each line an optional ordinal according to a `Policy`.

use vstd::prelude::*;
use crate::policy::{LinePredicate, Policy, line_satisfies, number_all_policy, skip_empty_policy, eval_predicate};

verus! {

/// One classified line: an optional ordinal paired with the original text.
pub type NumberedLine = (Option<u64>, String);

/// A whole classified document, in original file order.
pub type NumberedLines = Vec<NumberedLine>;

/// The mathematical view of a sequence of lines.
pub open spec fn line_views(lines: Seq<String>) -> Seq<Seq<char>> {
    lines.map_values(|s: String| s@)
}

/// The mathematical view of a classified document.
pub open spec fn doc_view(doc: Seq<NumberedLine>) -> Seq<(Option<u64>, Seq<char>)> {
    doc.map_values(|nl: NumberedLine| (nl.0, nl.1@))
}

/// The classification of `lines` under `policy`, starting the counter at
/// `counter`.  A line satisfying `should_incr` takes the current counter
/// value and advances it; otherwise a line satisfying `should_number`
/// displays the current counter value without advancing it; any other
/// line gets no ordinal.
pub open spec fn spec_number_lines(
    policy: Policy,
    lines: Seq<Seq<char>>,
    counter: u64,
) -> Seq<(Option<u64>, Seq<char>)>
    decreases lines.len(),
{
    if lines.len() == 0 {
        Seq::empty()
    } else {
        let line = lines[0];
        let entry = if line_satisfies(policy.should_incr, line) {
            (Some(counter), line)
        } else if line_satisfies(policy.should_number, line) {
            (Some(counter), line)
        } else {
            (None, line)
        };
        let next = if line_satisfies(policy.should_incr, line) {
            (counter + 1) as u64
        } else {
            counter
        };
        seq![entry] + spec_number_lines(policy, lines.drop_first(), next)
    }
}

/// The classification has exactly one entry per input line, and each
/// entry carries its input line's text unchanged.
pub proof fn lemma_spec_number_lines_shape(policy: Policy, lines: Seq<Seq<char>>, counter: u64)
    ensures
        spec_number_lines(policy, lines, counter).len() == lines.len(),
        forall|i: int|
            0 <= i < lines.len() ==> #[trigger] spec_number_lines(policy, lines, counter)[i].1
                == lines[i],
    decreases lines.len(),
{
    if lines.len() > 0 {
        let line = lines[0];
        let next = if line_satisfies(policy.should_incr, line) {
            (counter + 1) as u64
        } else {
            counter
        };
        lemma_spec_number_lines_shape(policy, lines.drop_first(), next);
    }
}

proof fn lemma_number_all_at(lines: Seq<Seq<char>>, counter: u64, i: int)
    requires
        0 <= i < lines.len(),
        counter + lines.len() <= u64::MAX,
    ensures
        spec_number_lines(number_all_policy(), lines, counter)[i] == (
            Some((counter + i) as u64),
            lines[i],
        ),
    decreases i,
{
    if i > 0 {
        lemma_number_all_at(lines.drop_first(), (counter + 1) as u64, i - 1);
        lemma_spec_number_lines_shape(number_all_policy(), lines.drop_first(), (counter + 1) as u64);
    }
}

/// Under the number-all policy every line is numbered by its 1-based
/// rank: the ordinal at position `i` is `i + 1`.
pub proof fn lemma_number_all_ordinals(lines: Seq<Seq<char>>)
    requires
        lines.len() < u64::MAX,
    ensures
        forall|i: int|
            0 <= i < lines.len() ==> #[trigger] spec_number_lines(number_all_policy(), lines, 1)[i]
                == (Some((i + 1) as u64), lines[i]),
{
    assert forall|i: int| 0 <= i < lines.len() implies #[trigger] spec_number_lines(
        number_all_policy(),
        lines,
        1,
    )[i] == (Some((i + 1) as u64), lines[i]) by {
        lemma_number_all_at(lines, 1, i);
    }
}

/// How many of the given lines are non-empty.
pub open spec fn count_non_empty(lines: Seq<Seq<char>>) -> nat
    decreases lines.len(),
{
    if lines.len() == 0 {
        0
    } else {
        (if lines[0].len() > 0 {
            1nat
        } else {
            0nat
        }) + count_non_empty(lines.drop_first())
    }
}

proof fn lemma_skip_empty_at(lines: Seq<Seq<char>>, counter: u64, i: int)
    requires
        0 <= i < lines.len(),
        counter + lines.len() <= u64::MAX,
    ensures
        lines[i].len() == 0 ==> spec_number_lines(skip_empty_policy(), lines, counter)[i] == (
            None::<u64>,
            lines[i],
        ),
        lines[i].len() > 0 ==> spec_number_lines(skip_empty_policy(), lines, counter)[i] == (
            Some((counter + count_non_empty(lines.take(i))) as u64),
            lines[i],
        ),
    decreases i,
{
    if i == 0 {
        assert(lines.take(0) =~= Seq::<Seq<char>>::empty());
    } else {
        let tail = lines.drop_first();
        let next = if lines[0].len() > 0 {
            (counter + 1) as u64
        } else {
            counter
        };
        lemma_skip_empty_at(tail, next, i - 1);
        lemma_spec_number_lines_shape(skip_empty_policy(), tail, next);
        assert(lines.take(i)[0] == lines[0]);
        assert(lines.take(i).drop_first() =~= tail.take(i - 1));
        assert(count_non_empty(lines.take(i)) == (if lines[0].len() > 0 {
            1nat
        } else {
            0nat
        }) + count_non_empty(tail.take(i - 1)));
    }
}

/// Under the skip-empty policy a blank line carries no ordinal, and the
/// ordinal of each non-blank line is one more than the number of
/// non-blank lines before it: the ordinal sequence restricted to
/// non-blank lines is exactly 1, 2, 3, ... in order.
pub proof fn lemma_skip_empty_ordinals(lines: Seq<Seq<char>>)
    requires
        lines.len() < u64::MAX,
    ensures
        forall|i: int|
            0 <= i < lines.len() && lines[i].len() == 0
                ==> #[trigger] spec_number_lines(skip_empty_policy(), lines, 1)[i] == (
                None::<u64>,
                lines[i],
            ),
        forall|i: int|
            0 <= i < lines.len() && lines[i].len() > 0
                ==> #[trigger] spec_number_lines(skip_empty_policy(), lines, 1)[i] == (
                Some((1 + count_non_empty(lines.take(i))) as u64),
                lines[i],
            ),
{
    assert forall|i: int| 0 <= i < lines.len() && lines[i].len() == 0 implies #[trigger] spec_number_lines(
        skip_empty_policy(),
        lines,
        1,
    )[i] == (None::<u64>, lines[i]) by {
        lemma_skip_empty_at(lines, 1, i);
    }
    assert forall|i: int| 0 <= i < lines.len() && lines[i].len() > 0 implies #[trigger] spec_number_lines(
        skip_empty_policy(),
        lines,
        1,
    )[i] == (Some((1 + count_non_empty(lines.take(i))) as u64), lines[i]) by {
        lemma_skip_empty_at(lines, 1, i);
    }
}

/// Classifies `lines` under `policy`, with the counter starting at 1.
///
/// The result is pinned down entirely: its view equals the recursive
/// classification of the input's view.  In particular it has one entry
/// per input line.
pub fn number_lines(policy: &Policy, lines: &Vec<String>) -> (r: NumberedLines)
    requires
        lines@.len() < u64::MAX,
    ensures
        doc_view(r@) == spec_number_lines(*policy, line_views(lines@), 1),
        r@.len() == lines@.len(),
{
    let ghost all = line_views(lines@);
    let mut numbered_lines: NumberedLines = Vec::new();
    let mut counter: u64 = 1;
    let mut i: usize = 0;
    proof {
        assert(all.skip(0) =~= all);
        assert(doc_view(numbered_lines@) =~= Seq::<(Option<u64>, Seq<char>)>::empty());
        assert(doc_view(numbered_lines@) + spec_number_lines(*policy, all, 1)
            =~= spec_number_lines(*policy, all, 1));
    }
    while i < lines.len()
        invariant
            i <= lines@.len(),
            lines@.len() < u64::MAX,
            counter <= 1 + i,
            numbered_lines@.len() == i,
            all == line_views(lines@),
            spec_number_lines(*policy, all, 1) == doc_view(numbered_lines@) + spec_number_lines(
                *policy,
                all.skip(i as int),
                counter,
            ),
        decreases lines@.len() - i,
    {
        let ghost rest = all.skip(i as int);
        proof {
            assert(rest.len() > 0);
            assert(rest[0] == all[i as int]);
            assert(rest.drop_first() =~= all.skip(i as int + 1));
        }
        let line = &lines[i];
        let ghost old_doc = numbered_lines@;
        let ghost c0 = counter;
        if eval_predicate(policy.should_incr, line.as_str()) {
            numbered_lines.push((Some(counter), line.clone()));
            counter = counter + 1;
        } else if eval_predicate(policy.should_number, line.as_str()) {
            numbered_lines.push((Some(counter), line.clone()));
        } else {
            numbered_lines.push((None, line.clone()));
        }
        proof {
            let entry = if line_satisfies(policy.should_incr, rest[0]) {
                (Some(c0), rest[0])
            } else if line_satisfies(policy.should_number, rest[0]) {
                (Some(c0), rest[0])
            } else {
                (None, rest[0])
            };
            assert(doc_view(numbered_lines@) =~= doc_view(old_doc) + seq![entry]);
            assert(doc_view(old_doc) + (seq![entry] + spec_number_lines(
                *policy,
                rest.drop_first(),
                counter,
            )) =~= (doc_view(old_doc) + seq![entry]) + spec_number_lines(
                *policy,
                rest.drop_first(),
                counter,
            ));
        }
        i = i + 1;
    }
    proof {
        assert(all.skip(i as int) =~= Seq::<Seq<char>>::empty());
        assert(doc_view(numbered_lines@) + Seq::<(Option<u64>, Seq<char>)>::empty() =~= doc_view(
            numbered_lines@,
        ));
    }
    numbered_lines
}

/// Classifies `lines` under the policy that numbers every line.
pub fn number_all_lines(lines: &Vec<String>) -> (r: NumberedLines)
    requires
        lines@.len() < u64::MAX,
    ensures
        doc_view(r@) == spec_number_lines(number_all_policy(), line_views(lines@), 1),
        r@.len() == lines@.len(),
{
    let policy = Policy {
        should_incr: LinePredicate::AlwaysTrue,
        should_number: LinePredicate::AlwaysTrue,
    };
    number_lines(&policy, lines)
}

/// Classifies `lines` under the policy that numbers, and counts, only
/// non-empty lines.
pub fn number_and_increment_non_empty_lines(lines: &Vec<String>) -> (r: NumberedLines)
    requires
        lines@.len() < u64::MAX,
    ensures
        doc_view(r@) == spec_number_lines(skip_empty_policy(), line_views(lines@), 1),
        r@.len() == lines@.len(),
{
    let policy = Policy {
        should_incr: LinePredicate::NonEmpty,
        should_number: LinePredicate::NonEmpty,
    };
    number_lines(&policy, lines)
}

} // verus!
