//! Health reporting for a long-running service.
//!
//! A process boots for a fixed time, then alternates between serving and
//! reloading. This crate decides what the liveness, readiness and startup
//! probes answer at any instant, what the background simulator does on
//! entering each phase, and what the once-a-second heartbeat prints.
//!
//! Every decision is a function of plain values (nanoseconds since process
//! start, the `ready` flag) with an exact contract; [`state::HealthState`]
//! supplies those values from the monotonic clock and an atomic flag.

pub mod heartbeat;
pub mod lifecycle;
pub mod phase;
pub mod probe;
pub mod state;
pub mod timing;

pub use heartbeat::Beat;
pub use heartbeat::Heartbeat;
pub use lifecycle::Transition;
pub use phase::Phase;
pub use probe::live;
pub use probe::ready;
pub use probe::startup;
pub use probe::ProbeReply;
pub use state::HealthState;
pub use timing::startup_complete;
