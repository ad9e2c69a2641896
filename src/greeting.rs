//! The text of the host greeting.
use vstd::prelude::*;

verus! {

/// `Hello, <name>!`.
pub fn greeting(name: &str) -> (r: String)
    ensures
        r@ == "Hello, "@ + name@ + "!"@,
{
    let mut text = String::from_str("Hello, ");
    text.append(name);
    text.append("!");
    text
}

} // verus!
