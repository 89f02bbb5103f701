//! A goodbye.

use vstd::prelude::*;
use crate::text::labelled;

verus! {

/// Whom to say goodbye to.
#[derive(Debug)]
pub struct LeaveArgs {
    pub name: String,
}

/// The module that says goodbye.
#[derive(Clone, Copy, Debug)]
pub struct Leave {}

impl Leave {
    /// The goodbye for the one named.
    pub fn run_with_params(args: &LeaveArgs) -> (r: String)
        ensures
            r@ == "Bye "@ + args.name@,
    {
        labelled("Bye ", args.name.as_str())
    }
}

} // verus!
