//! The fixed greeting served at the root route.

use vstd::prelude::*;

verus! {

/// The text of the greeting.
pub open spec fn greeting_text() -> Seq<char> {
    seq!['H', 'e', 'l', 'l', 'o', ',', ' ', 'w', 'o', 'r', 'l', 'd', '!']
}

/// The body of the root route: always the same greeting.
pub fn index() -> (body: &'static str)
    ensures
        body@ == greeting_text(),
{
    let body = "Hello, world!";
    proof {
        reveal_strlit("Hello, world!");
        assert(body@ =~= greeting_text());
    }
    body
}

} // verus!
