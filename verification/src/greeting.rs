//! The greeting service.

use vstd::prelude::*;

verus! {

/// The answer of the greeting service.
#[derive(Debug)]
pub struct Message {
    pub greeting: String,
}

/// The greeting for a name: `Hello, `, the name as given, and `!`.
pub open spec fn greeting_for(name: Seq<char>) -> Seq<char> {
    "Hello, "@ + name + "!"@
}

/// Greets `name`.
pub fn hello(name: &str) -> (r: Message)
    ensures
        r.greeting@ == greeting_for(name@),
{
    let mut greeting = String::from_str("Hello, ");
    greeting.append(name);
    greeting.append("!");
    Message { greeting }
}

/// A greeting starts with `Hello, `, ends with `!`, and holds the name
/// unchanged between the two, so that two names are greeted alike only if
/// they are the same name.
pub proof fn greeting_keeps_name(a: Seq<char>, b: Seq<char>)
    requires
        greeting_for(a) == greeting_for(b),
    ensures
        a == b,
{
    reveal_strlit("Hello, ");
    reveal_strlit("!");
    let ga = greeting_for(a);
    let gb = greeting_for(b);
    assert(ga.len() == 7 + a.len() + 1);
    assert(gb.len() == 7 + b.len() + 1);
    assert(a.len() == b.len());
    assert forall|i: int| 0 <= i < a.len() implies a[i] == b[i] by {
        assert(ga[i + 7] == a[i]);
        assert(gb[i + 7] == b[i]);
    }
    assert(a =~= b);
}

} // verus!
