//! The fixed durations of the lifecycle and the startup predicate.
//!
//! Time is measured in whole nanoseconds since the process started.

use vstd::prelude::*;

verus! {

/// How long the process takes to boot.
pub const STARTUP_SECONDS: u64 = 8;

/// How long each serving stretch lasts.
pub const READY_SECONDS: u64 = 20;

/// How long each reloading stretch lasts.
pub const LOADING_SECONDS: u64 = 10;

/// The pause between two heartbeats.
pub const HEARTBEAT_SECONDS: u64 = 1;

pub const NANOS_PER_SECOND: u64 = 1_000_000_000;

/// The boot time in nanoseconds.
pub const STARTUP_NANOS: u64 = STARTUP_SECONDS * NANOS_PER_SECOND;

/// One serving stretch in nanoseconds.
pub const READY_NANOS: u64 = READY_SECONDS * NANOS_PER_SECOND;

/// One reloading stretch in nanoseconds.
pub const LOADING_NANOS: u64 = LOADING_SECONDS * NANOS_PER_SECOND;

/// One serving stretch followed by one reloading stretch.
pub const CYCLE_NANOS: u64 = READY_NANOS + LOADING_NANOS;

/// The pause between two heartbeats in nanoseconds.
pub const HEARTBEAT_NANOS: u64 = HEARTBEAT_SECONDS * NANOS_PER_SECOND;

/// Startup is complete once the boot time has fully elapsed.
pub open spec fn startup_done(elapsed: nat) -> bool {
    elapsed >= STARTUP_NANOS
}

/// Whether a process that has been alive for `elapsed_nanos` has finished
/// booting.
pub fn startup_complete(elapsed_nanos: u128) -> (done: bool)
    ensures
        done == startup_done(elapsed_nanos as nat),
{
    elapsed_nanos >= STARTUP_NANOS as u128
}

/// Once startup is complete it stays complete: time only moves forward.
pub proof fn lemma_startup_is_permanent(elapsed: nat, later: nat)
    requires
        startup_done(elapsed),
        elapsed <= later,
    ensures
        startup_done(later),
{
}

} // verus!
