use vstd::prelude::*;

use crate::cause::Cause;

verus! {

/// The tri-state outcome of an input-affecting operation: proceed normally,
/// suspend the cadence for the carried cause, or terminate the loop. This
/// tagged value replaces exception-style control flow and keeps every state
/// transition explicit at its call site.
#[derive(Copy, Clone, PartialEq, Eq, Structural, Debug)]
pub enum Flow {
    Continue,
    Pause(Cause),
    Exit,
}

} // verus!
