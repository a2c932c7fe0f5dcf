//! The run mode: compare against what is stored, or regenerate it.

use vstd::prelude::*;

verus! {

/// How every check of one run treats the stored expectations.
#[derive(Clone, Copy, Debug, PartialEq, Eq, Structural)]
pub enum RunMode {
    /// Compare with what is stored and fail on a difference; change nothing.
    Check,
    /// Regenerate what is stored from the current output.
    Update,
}

impl RunMode {
    /// The mode that the process-wide toggle selects: `Update` where it is
    /// present, `Check` where it is absent.
    pub open spec fn resolved(toggle_present: bool) -> RunMode {
        if toggle_present {
            RunMode::Update
        } else {
            RunMode::Check
        }
    }

    /// Resolves the mode from the toggle. The caller reads the toggle once,
    /// at the start of the run, and passes the mode on to every check.
    pub fn from_toggle(toggle_present: bool) -> (mode: RunMode)
        ensures
            mode == Self::resolved(toggle_present),
    {
        if toggle_present {
            RunMode::Update
        } else {
            RunMode::Check
        }
    }
}

} // verus!
