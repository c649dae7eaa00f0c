//! The three probes: liveness, readiness and startup.
//!
//! Each probe is a stateless query. Its answer depends only on how long the
//! process has been alive and, for readiness, on the `ready` flag.

use vstd::prelude::*;
use crate::phase::phase_at;
use crate::phase::Phase;
use crate::timing::startup_complete;
use crate::timing::startup_done;

verus! {

/// Where the liveness probe is served.
pub const LIVE_PATH: &'static str = "/healthz/live";

/// Where the readiness probe is served.
pub const READY_PATH: &'static str = "/healthz/ready";

/// Where the startup probe is served.
pub const STARTUP_PATH: &'static str = "/healthz/startup";

/// Status code of a successful probe.
pub const STATUS_OK: u16 = 200;

/// Status code of a probe that reports the service as unavailable.
pub const STATUS_UNAVAILABLE: u16 = 503;

/// What a probe answers.
#[derive(Clone, Copy, Debug, PartialEq, Eq, Structural)]
pub enum ProbeReply {
    /// Success, with body `ok`.
    Healthy,
    /// Unavailable because the process is still booting, with body `starting`.
    Starting,
    /// Unavailable because the process is reloading, with body `loading`.
    Loading,
}

impl ProbeReply {
    pub open spec fn spec_status(self) -> u16 {
        match self {
            ProbeReply::Healthy => STATUS_OK,
            ProbeReply::Starting => STATUS_UNAVAILABLE,
            ProbeReply::Loading => STATUS_UNAVAILABLE,
        }
    }

    pub open spec fn spec_body(self) -> Seq<char> {
        match self {
            ProbeReply::Healthy => "ok"@,
            ProbeReply::Starting => "starting"@,
            ProbeReply::Loading => "loading"@,
        }
    }

    pub open spec fn spec_is_success(self) -> bool {
        self == ProbeReply::Healthy
    }

    /// The status code to send.
    #[verifier::when_used_as_spec(spec_status)]
    pub fn status(self) -> (code: u16)
        ensures
            code == self.spec_status(),
    {
        match self {
            ProbeReply::Healthy => STATUS_OK,
            ProbeReply::Starting => STATUS_UNAVAILABLE,
            ProbeReply::Loading => STATUS_UNAVAILABLE,
        }
    }

    /// The body to send.
    pub fn body(self) -> (text: &'static str)
        ensures
            text@ == self.spec_body(),
    {
        match self {
            ProbeReply::Healthy => "ok",
            ProbeReply::Starting => "starting",
            ProbeReply::Loading => "loading",
        }
    }

    /// Whether the probe succeeded.
    #[verifier::when_used_as_spec(spec_is_success)]
    pub fn is_success(self) -> (success: bool)
        ensures
            success == self.spec_is_success(),
    {
        match self {
            ProbeReply::Healthy => true,
            ProbeReply::Starting => false,
            ProbeReply::Loading => false,
        }
    }
}

/// The liveness answer: the process is alive whenever it can answer at all.
pub open spec fn liveness() -> ProbeReply {
    ProbeReply::Healthy
}

/// The readiness answer `elapsed` nanoseconds after start while the flag
/// holds `ready`.
pub open spec fn readiness(elapsed: nat, ready: bool) -> ProbeReply {
    if !startup_done(elapsed) {
        ProbeReply::Starting
    } else if ready {
        ProbeReply::Healthy
    } else {
        ProbeReply::Loading
    }
}

/// The startup answer `elapsed` nanoseconds after start. The `ready` flag
/// plays no part in it.
pub open spec fn startup_answer(elapsed: nat) -> ProbeReply {
    if startup_done(elapsed) {
        ProbeReply::Healthy
    } else {
        ProbeReply::Starting
    }
}

/// Liveness probe. Always succeeds; it does not look at the health state.
pub fn live() -> (reply: ProbeReply)
    ensures
        reply == liveness(),
{
    ProbeReply::Healthy
}

/// Readiness probe: `Starting` until startup is complete, then `Healthy`
/// while the flag is set and `Loading` while it is not.
pub fn ready(elapsed_nanos: u128, flag: bool) -> (reply: ProbeReply)
    ensures
        reply == readiness(elapsed_nanos as nat, flag),
{
    if !startup_complete(elapsed_nanos) {
        return ProbeReply::Starting;
    }
    if flag {
        ProbeReply::Healthy
    } else {
        ProbeReply::Loading
    }
}

/// Startup probe: `Starting` until startup is complete, `Healthy` ever after,
/// whatever later reloads do to readiness.
pub fn startup(elapsed_nanos: u128) -> (reply: ProbeReply)
    ensures
        reply == startup_answer(elapsed_nanos as nat),
{
    if startup_complete(elapsed_nanos) {
        ProbeReply::Healthy
    } else {
        ProbeReply::Starting
    }
}

/// Before startup completes, the startup and readiness probes both report
/// the service as unavailable, whatever the flag holds, while liveness
/// succeeds.
pub proof fn lemma_unavailable_while_starting(elapsed: nat, ready: bool)
    requires
        !startup_done(elapsed),
    ensures
        startup_answer(elapsed) == ProbeReply::Starting,
        readiness(elapsed, ready) == ProbeReply::Starting,
        startup_answer(elapsed).status() == STATUS_UNAVAILABLE,
        readiness(elapsed, ready).status() == STATUS_UNAVAILABLE,
        liveness().status() == STATUS_OK,
{
}

/// Once startup is complete the startup probe succeeds, and keeps succeeding
/// at every later instant: it does not depend on the flag, so no reload can
/// make it regress.
pub proof fn lemma_startup_probe_never_regresses(elapsed: nat, later: nat)
    requires
        startup_done(elapsed),
        elapsed <= later,
    ensures
        startup_answer(elapsed) == ProbeReply::Healthy,
        startup_answer(later) == ProbeReply::Healthy,
        startup_answer(later).status() == STATUS_OK,
{
}

/// Once startup is complete, readiness follows the flag exactly: it succeeds
/// when the flag is set and reports `Loading` when it is not, so a flip of
/// the flag shows in the very next answer.
pub proof fn lemma_readiness_tracks_flag(elapsed: nat, ready: bool)
    requires
        startup_done(elapsed),
    ensures
        readiness(elapsed, ready).is_success() <==> ready,
        readiness(elapsed, true) == ProbeReply::Healthy,
        readiness(elapsed, false) == ProbeReply::Loading,
        readiness(elapsed, true).status() == STATUS_OK,
        readiness(elapsed, false).status() == STATUS_UNAVAILABLE,
{
}

/// Probes have no memory: two queries made at the same instant against the
/// same flag get the same answer, and liveness gets the same answer always.
pub proof fn lemma_probes_are_repeatable(
    first_elapsed: nat,
    first_ready: bool,
    second_elapsed: nat,
    second_ready: bool,
)
    requires
        first_elapsed == second_elapsed,
        first_ready == second_ready,
    ensures
        readiness(first_elapsed, first_ready) == readiness(second_elapsed, second_ready),
        startup_answer(first_elapsed) == startup_answer(second_elapsed),
        liveness() == ProbeReply::Healthy,
{
}

/// The probes seen through the phase: readiness succeeds exactly in `Ready`,
/// and `Starting` is the only phase in which the startup probe fails.
pub proof fn lemma_probes_by_phase(elapsed: nat, ready: bool)
    ensures
        readiness(elapsed, ready).is_success() <==> phase_at(elapsed, ready) == Phase::Ready,
        !startup_answer(elapsed).is_success() <==> phase_at(elapsed, ready) == Phase::Starting,
{
}

} // verus!
