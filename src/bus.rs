//! Events exchanged by the pipeline's workers.
use vstd::prelude::*;

verus! {

/// A pipeline event; it carries nothing beyond its kind.
#[derive(Debug, Clone, Copy, PartialEq, Eq, Structural)]
pub enum BusEvent {
    ChangeDetected,
    CheckPassed,
    CheckFailed,
    TestsPassed,
    TestsFailed,
    TestsSetChanged,
    TestsSetNotChanged,
}

} // verus!
