//! Command-line arguments, as plain values; the surrounding program parses
//! the command line into them.

use vstd::prelude::*;

verus! {

/// The project and task named on the command line.
pub struct TodoArgs {
    pub project: String,
    pub task: String,
}

} // verus!
