//! The output mode.

use vstd::prelude::*;

verus! {

/// How the output is to be written. Both modes give the same output: the
/// choice is kept for callers that still make it.
#[derive(Clone, Copy, Debug, PartialEq, Eq, Structural)]
pub enum OutputMode {
    /// Generic parts wherever a template is known.
    Idiomatic,
    /// The same as `Idiomatic`.
    Faithful,
}

impl Default for OutputMode {
    fn default() -> (mode: OutputMode)
        ensures
            mode == OutputMode::Idiomatic,
    {
        OutputMode::Idiomatic
    }
}

} // verus!
