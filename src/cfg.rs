//! Build predicates (`#[cfg(..)]`) and their evaluation against a build
//! configuration.
use vstd::prelude::*;
use crate::text::str_eq;

verus! {

/// A build predicate. `all(..)` and `any(..)` over several predicates are nested
/// pairs; over none they are `Literal(true)` and `Literal(false)`.
pub enum CfgPredicate {
    /// A configuration option, such as `test` or `feature = "x"`.
    Option(String),
    Literal(bool),
    Not(Box<CfgPredicate>),
    All(Box<CfgPredicate>, Box<CfgPredicate>),
    Any(Box<CfgPredicate>, Box<CfgPredicate>),
}

/// Whether `enabled` lists the option `o`.
pub open spec fn option_enabled(enabled: Seq<String>, o: Seq<char>) -> bool {
    exists|i: int| 0 <= i < enabled.len() && (#[trigger] enabled[i])@ == o
}

/// Whether `p` holds when exactly the options in `enabled` are set.
pub open spec fn holds(p: CfgPredicate, enabled: Seq<String>) -> bool
    decreases p,
{
    match p {
        CfgPredicate::Option(o) => option_enabled(enabled, o@),
        CfgPredicate::Literal(b) => b,
        CfgPredicate::Not(q) => !holds(*q, enabled),
        CfgPredicate::All(a, b) => holds(*a, enabled) && holds(*b, enabled),
        CfgPredicate::Any(a, b) => holds(*a, enabled) || holds(*b, enabled),
    }
}

/// Whether the option `o` is among `enabled`.
pub fn is_enabled(enabled: &Vec<String>, o: &String) -> (r: bool)
    ensures
        r == option_enabled(enabled@, o@),
{
    let mut i: usize = 0;
    while i < enabled.len()
        invariant
            i <= enabled@.len(),
            forall|j: int| 0 <= j < i ==> (#[trigger] enabled@[j])@ != o@,
        decreases enabled.len() - i,
    {
        if str_eq(enabled[i].as_str(), o.as_str()) {
            return true;
        }
        i = i + 1;
    }
    false
}

/// Evaluates `p` when exactly the options in `enabled` are set.
pub fn evaluate(p: &CfgPredicate, enabled: &Vec<String>) -> (r: bool)
    ensures
        r == holds(*p, enabled@),
    decreases p,
{
    match p {
        CfgPredicate::Option(o) => is_enabled(enabled, o),
        CfgPredicate::Literal(b) => *b,
        CfgPredicate::Not(q) => !evaluate(q, enabled),
        CfgPredicate::All(a, b) => evaluate(a, enabled) && evaluate(b, enabled),
        CfgPredicate::Any(a, b) => evaluate(a, enabled) || evaluate(b, enabled),
    }
}

} // verus!
