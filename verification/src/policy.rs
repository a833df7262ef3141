//! Numbering policies: predicates over lines that decide which lines
//! receive an ordinal and which advance the line counter.

use vstd::prelude::*;

verus! {

/// A predicate over a single line of text.  The two built-in predicates
/// are the ones the built-in policies use; the classifier works for any
/// combination of them.
#[derive(Clone, Copy, PartialEq, Eq, Structural, Debug)]
pub enum LinePredicate {
    /// Holds of every line.
    AlwaysTrue,
    /// Holds of lines with at least one character.
    NonEmpty,
}

/// What a predicate means on the mathematical view of a line.
pub open spec fn line_satisfies(p: LinePredicate, line: Seq<char>) -> bool {
    match p {
        LinePredicate::AlwaysTrue => true,
        LinePredicate::NonEmpty => line.len() > 0,
    }
}

/// A numbering policy: `should_incr` decides which lines take the current
/// counter value and advance it; `should_number` decides which of the
/// remaining lines display the current counter value without advancing it.
#[derive(Clone, Copy, PartialEq, Eq, Structural, Debug)]
pub struct Policy {
    pub should_incr: LinePredicate,
    pub should_number: LinePredicate,
}

/// The policy under which every line is numbered by its 1-based rank.
pub open spec fn number_all_policy() -> Policy {
    Policy { should_incr: LinePredicate::AlwaysTrue, should_number: LinePredicate::AlwaysTrue }
}

/// The policy under which only non-empty lines are numbered, and only
/// non-empty lines advance the counter.
pub open spec fn skip_empty_policy() -> Policy {
    Policy { should_incr: LinePredicate::NonEmpty, should_number: LinePredicate::NonEmpty }
}

/// Evaluates a predicate on a line.
pub fn eval_predicate(p: LinePredicate, line: &str) -> (r: bool)
    ensures
        r == line_satisfies(p, line@),
{
    match p {
        LinePredicate::AlwaysTrue => true,
        LinePredicate::NonEmpty => !line.is_empty(),
    }
}

/// Holds of lines that contain at least one character.
pub fn is_not_empty(line: String) -> (r: bool)
    ensures
        r == line_satisfies(LinePredicate::NonEmpty, line@),
{
    if line.as_str().is_empty() {
        return false;
    }
    true
}

/// Holds of every line.
pub fn always_true(line: String) -> (r: bool)
    ensures
        r == line_satisfies(LinePredicate::AlwaysTrue, line@),
{
    true
}

} // verus!
