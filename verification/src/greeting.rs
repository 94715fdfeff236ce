//! The greeting operation: a pure formatter that wraps a caller-supplied name
//! in a fixed template.

use vstd::prelude::*;

verus! {

/// The greeting for `name`: the fixed template with the name substituted
/// verbatim between the two literal parts.
pub open spec fn greeting(name: Seq<char>) -> Seq<char> {
    "Hello, "@ + name + "! You've been greeted from Rust!"@
}

/// Formats the greeting for `name`.
///
/// Every name is accepted, the empty string included; the name is inserted
/// verbatim, with no validation, escaping or substitution of its own content.
/// There is no error condition and no side effect.
pub fn greet(name: &str) -> (r: String)
    ensures
        r@ == greeting(name@),
{
    let mut r = String::from_str("Hello, ");
    r.append(name);
    r.append("! You've been greeted from Rust!");
    r
}

/// The greeting is a function of the name alone: any two results obtained for
/// the same name are identical, so repeated calls of [`greet`] on one input
/// cannot be told apart by their output.
pub proof fn lemma_greet_deterministic(name: Seq<char>, r1: Seq<char>, r2: Seq<char>)
    requires
        r1 == greeting(name),
        r2 == greeting(name),
    ensures
        r1 == r2,
{
}

} // verus!
