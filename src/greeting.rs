//! The greeting command that the desktop shell dispatches by name.

use vstd::prelude::*;

verus! {

/// The greeting for `name`: the name is put verbatim into a fixed
/// template, with no escaping or trimming.
pub open spec fn greeting(name: Seq<char>) -> Seq<char> {
    "Hello, "@ + name + "! You've been greeted from Rust!"@
}

/// Greets `name`.
pub fn greet(name: &str) -> (r: String)
    ensures
        r@ == greeting(name@),
{
    let mut r = String::from_str("Hello, ");
    r.append(name);
    r.append("! You've been greeted from Rust!");
    r
}

/// `greet` is idempotent: any two results of calls with the same name hold
/// the same text.
pub proof fn lemma_greet_idempotent(name: Seq<char>, first: String, second: String)
    requires
        first@ == greeting(name),
        second@ == greeting(name),
    ensures
        first@ == second@,
{
}

} // verus!
