//! Answers of the front-end commands that need no session.
use vstd::prelude::*;

use crate::text::concat3;

verus! {

/// The greeting of the front end's first call.
pub fn greet(name: &str) -> (r: String)
    ensures
        r@ == "Hello, "@ + name@ + "! You've been greeted from Rust!"@,
{
    concat3("Hello, ", name, "! You've been greeted from Rust!")
}

} // verus!
