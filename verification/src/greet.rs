//! A greeting.

use vstd::prelude::*;
use crate::text::labelled;

verus! {

/// Whom to greet.
#[derive(Debug)]
pub struct GreetArgs {
    pub name: String,
}

/// The module that greets.
#[derive(Clone, Copy, Debug)]
pub struct Greet {}

impl Greet {
    /// The greeting for the one named.
    pub fn run_with_params(args: &GreetArgs) -> (r: String)
        ensures
            r@ == "Hello "@ + args.name@,
    {
        labelled("Hello ", args.name.as_str())
    }
}

} // verus!
