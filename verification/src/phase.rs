//! The position of the process in its lifecycle.

use vstd::prelude::*;
use crate::timing::startup_complete;
use crate::timing::startup_done;

verus! {

/// Where the process stands: still booting, serving, or reloading.
#[derive(Clone, Copy, Debug, PartialEq, Eq, Structural)]
pub enum Phase {
    Starting,
    Ready,
    Loading,
}

/// The phase an observer sees `elapsed` nanoseconds after process start while
/// the flag holds `ready`. Until startup is complete the flag is not
/// consulted.
pub open spec fn phase_at(elapsed: nat, ready: bool) -> Phase {
    if !startup_done(elapsed) {
        Phase::Starting
    } else if ready {
        Phase::Ready
    } else {
        Phase::Loading
    }
}

/// The phase seen from outside, given the time alive and the `ready` flag.
pub fn observed_phase(elapsed_nanos: u128, ready: bool) -> (phase: Phase)
    ensures
        phase == phase_at(elapsed_nanos as nat, ready),
{
    if !startup_complete(elapsed_nanos) {
        Phase::Starting
    } else if ready {
        Phase::Ready
    } else {
        Phase::Loading
    }
}

} // verus!
