//! The shared health state: when the process started, and whether it is
//! currently able to serve.
//!
//! One value lives for the whole process and is shared by reference. The
//! start instant never changes; the `ready` flag is a single atomic boolean,
//! written by the lifecycle simulator alone and read by everyone else. No
//! lock is involved: every access is one atomic load or store.
//!
//! What the clock and the flag hand back is settled outside the program
//! text, by the passage of time and by other tasks. The methods here
//! therefore promise nothing about the values they return. Every rule about
//! those values lives in a function that takes them as plain arguments: see
//! `timing`, `probe`, `lifecycle` and `heartbeat`.

use std::sync::atomic::AtomicBool;
use std::sync::atomic::Ordering;
use std::time::Duration;
use std::time::Instant;
use vstd::prelude::*;
use crate::phase::observed_phase;
use crate::phase::Phase;
use crate::timing::startup_complete;

verus! {

/// A reading of the monotonic clock. Nothing inside it is visible to proofs.
#[verifier::external_type_specification]
#[verifier::external_body]
pub struct ExInstant(Instant);

/// `Instant::now` reads the monotonic clock. Nothing is promised of the
/// reading.
pub assume_specification[ Instant::now ]() -> Instant;

/// `Instant::elapsed` says how much time has passed since the instant was
/// taken. The answer depends on the clock, so nothing is promised of it.
pub assume_specification[ Instant::elapsed ](instant: &Instant) -> Duration;

/// `Duration::as_nanos` gives the whole duration as a count of nanoseconds.
/// A `Duration` is opaque to proofs, so nothing ties the count to it.
pub assume_specification[ Duration::as_nanos ](duration: &Duration) -> u128;

/// The health of the process: its start instant and its `ready` flag.
pub struct HealthState {
    start: Instant,
    ready: AtomicBool,
}

impl HealthState {
    /// Captures the current instant as the process start; not ready yet.
    pub fn new() -> HealthState {
        HealthState { start: Instant::now(), ready: AtomicBool::new(false) }
    }

    /// Nanoseconds since the state was created, by the monotonic clock.
    pub fn elapsed_nanos(&self) -> u128 {
        self.start.elapsed().as_nanos()
    }

    /// Whether the boot time has elapsed by now.
    pub fn is_startup_complete(&self) -> bool {
        startup_complete(self.elapsed_nanos())
    }

    /// Overwrites the `ready` flag. Only the lifecycle simulator calls this.
    pub fn set_ready(&self, ready: bool) {
        self.ready.store(ready, Ordering::SeqCst);
    }

    /// The current value of the `ready` flag.
    pub fn is_ready(&self) -> bool {
        self.ready.load(Ordering::SeqCst)
    }

    /// The phase an observer sees right now: `Starting` until the boot time
    /// has elapsed, then `Ready` or `Loading` by the flag.
    pub fn phase(&self) -> Phase {
        observed_phase(self.elapsed_nanos(), self.is_ready())
    }
}

} // verus!
