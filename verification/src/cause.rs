use vstd::prelude::*;

verus! {

/// Why the loop suspended its normal cadence. An undersized terminal is the
/// only recoverable cause: the loop waits for a resize and then resumes.
#[derive(Copy, Clone, PartialEq, Eq, Structural, Debug)]
pub enum Cause {
    TerminalTooSmall,
}

} // verus!
