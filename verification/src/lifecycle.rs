//! The lifecycle simulator: the sole writer of the `ready` flag.
//!
//! The simulator is a small machine driven by timers. On entering a phase it
//! may write the flag, then it waits, then it enters the next phase:
//!
//! ```text
//! Starting --(boot time elapsed)--> Ready --(20 s)--> Loading --(10 s)--> Ready --> ...
//! ```
//!
//! This module decides what happens on entering a phase; the caller does the
//! waiting and comes back with the next phase. There is no final phase.

use vstd::prelude::*;
use crate::phase::Phase;
use crate::probe::readiness;
use crate::probe::ProbeReply;
use crate::state::HealthState;
use crate::timing::CYCLE_NANOS;
use crate::timing::LOADING_NANOS;
use crate::timing::READY_NANOS;
use crate::timing::STARTUP_NANOS;

verus! {

/// What the simulator does on entering a phase.
#[derive(Clone, Copy, Debug, PartialEq, Eq)]
pub struct Transition {
    /// The value to store in the `ready` flag, if the flag is written at all.
    pub set_ready: Option<bool>,
    /// How long to wait before entering `next`. Zero means: go on at once.
    pub wait_nanos: u64,
    /// The phase to enter after the wait.
    pub next: Phase,
}

/// The transition for entering `phase` when the process has been alive for
/// `elapsed` nanoseconds.
///
/// Entering `Starting` leaves the flag alone and waits for exactly the rest
/// of the boot time, or not at all if that time has already passed. `Ready`
/// and `Loading` write the flag and wait for their fixed durations, whatever
/// the clock says.
pub open spec fn step(phase: Phase, elapsed: nat) -> Transition {
    match phase {
        Phase::Starting => Transition {
            set_ready: None,
            wait_nanos: if elapsed < STARTUP_NANOS {
                (STARTUP_NANOS - elapsed) as u64
            } else {
                0
            },
            next: Phase::Ready,
        },
        Phase::Ready => Transition {
            set_ready: Some(true),
            wait_nanos: READY_NANOS,
            next: Phase::Loading,
        },
        Phase::Loading => Transition {
            set_ready: Some(false),
            wait_nanos: LOADING_NANOS,
            next: Phase::Ready,
        },
    }
}

/// Decides what to do on entering `phase` at `elapsed_nanos` since process
/// start.
pub fn lifecycle_step(phase: Phase, elapsed_nanos: u128) -> (transition: Transition)
    ensures
        transition == step(phase, elapsed_nanos as nat),
{
    match phase {
        Phase::Starting => {
            let wait_nanos: u64 = if elapsed_nanos < STARTUP_NANOS as u128 {
                (STARTUP_NANOS as u128 - elapsed_nanos) as u64
            } else {
                0
            };
            Transition { set_ready: None, wait_nanos, next: Phase::Ready }
        },
        Phase::Ready => Transition {
            set_ready: Some(true),
            wait_nanos: READY_NANOS,
            next: Phase::Loading,
        },
        Phase::Loading => Transition {
            set_ready: Some(false),
            wait_nanos: LOADING_NANOS,
            next: Phase::Ready,
        },
    }
}

/// Enters `phase` on the live state: reads the clock where the phase needs
/// it, writes the flag where the phase says so, and tells the caller how long
/// to wait and which phase comes next.
///
/// The clock is read from outside, so the contract holds for whatever it
/// said: the result is the transition for `phase` at some elapsed time. For
/// `Ready` and `Loading`, which do not depend on the clock, that determines
/// it. The flag is shared with other tasks, so the contract is silent on the
/// write: the value written is `set_ready` of the result.
pub fn enter_phase(state: &HealthState, phase: Phase) -> (transition: Transition)
    ensures
        exists|elapsed: nat| transition == #[trigger] step(phase, elapsed),
        phase != Phase::Starting ==> transition == step(phase, 0),
{
    let elapsed_nanos: u128 = match phase {
        Phase::Starting => state.elapsed_nanos(),
        Phase::Ready => 0,
        Phase::Loading => 0,
    };
    let transition = lifecycle_step(phase, elapsed_nanos);
    match transition.set_ready {
        Some(flag) => state.set_ready(flag),
        None => {},
    }
    transition
}

/// Orders the phases so that a simulator that skips its first wait still
/// makes progress: `Starting` is entered once and never again.
pub open spec fn entries_left(phase: Phase) -> nat {
    match phase {
        Phase::Starting => 1,
        Phase::Ready => 0,
        Phase::Loading => 0,
    }
}

/// The value of the flag at time `at`, for a simulator that enters `phase` at
/// time `now` while the flag holds `flag`, when every wait lasts exactly as
/// long as asked. Times are nanoseconds since process start.
pub open spec fn flag_at(phase: Phase, flag: bool, now: nat, at: nat) -> bool
    decreases at - now, entries_left(phase),
{
    let transition = step(phase, now);
    let held = match transition.set_ready {
        Some(value) => value,
        None => flag,
    };
    let wake = (now + transition.wait_nanos) as nat;
    if at < wake {
        held
    } else {
        flag_at(transition.next, held, wake, at)
    }
}

/// The timetable in closed form: the flag is set from the end of startup for
/// one serving stretch, cleared for one reloading stretch, and so on.
pub open spec fn scheduled_ready(first_ready: nat, at: nat) -> bool {
    at >= first_ready && (at - first_ready) % (CYCLE_NANOS as int) < READY_NANOS
}

/// From the entry into `Ready` at `now`, the flag is set during the first
/// `READY_NANOS` of every cycle and cleared during the rest of it.
proof fn lemma_serving_cycles(flag: bool, now: nat, at: nat)
    requires
        now <= at,
    ensures
        flag_at(Phase::Ready, flag, now, at) == scheduled_ready(now, at),
    decreases at - now,
{
    reveal_with_fuel(flag_at, 3);
    assert(READY_NANOS == 20_000_000_000 && CYCLE_NANOS == 30_000_000_000);
    if at >= now + CYCLE_NANOS {
        lemma_serving_cycles(false, (now + CYCLE_NANOS) as nat, at);
    }
}

/// When a simulator started `begun` nanoseconds into the life of the process
/// first sets the flag: as soon as startup completes, or at once if it
/// already has.
pub open spec fn first_ready(begun: nat) -> nat {
    if begun < STARTUP_NANOS {
        STARTUP_NANOS as nat
    } else {
        begun
    }
}

/// A simulator started at any time keeps the flag clear until
/// `first_ready`, and from then on follows the timetable.
pub proof fn lemma_cycle_timing_from(begun: nat, at: nat)
    ensures
        flag_at(Phase::Starting, false, begun, at) == scheduled_ready(first_ready(begun), at),
{
    reveal_with_fuel(flag_at, 2);
    if at >= first_ready(begun) {
        lemma_serving_cycles(false, first_ready(begun), at);
    }
}

/// Cycle timing for a simulator started together with the process: the flag
/// is clear throughout startup, set for the next `READY_NANOS`, clear for the
/// `LOADING_NANOS` after that, and the pattern repeats with period
/// `CYCLE_NANOS`.
pub proof fn lemma_cycle_timing(at: nat)
    ensures
        flag_at(Phase::Starting, false, 0, at) == scheduled_ready(STARTUP_NANOS as nat, at),
        at < STARTUP_NANOS ==> !flag_at(Phase::Starting, false, 0, at),
        STARTUP_NANOS <= at < STARTUP_NANOS + READY_NANOS ==> flag_at(
            Phase::Starting,
            false,
            0,
            at,
        ),
        STARTUP_NANOS + READY_NANOS <= at < STARTUP_NANOS + READY_NANOS + LOADING_NANOS
            ==> !flag_at(Phase::Starting, false, 0, at),
        at >= STARTUP_NANOS ==> flag_at(Phase::Starting, false, 0, (at + CYCLE_NANOS) as nat)
            == flag_at(Phase::Starting, false, 0, at),
{
    lemma_cycle_timing_from(0, at);
    lemma_cycle_timing_from(0, (at + CYCLE_NANOS) as nat);
}

/// The flag never settles: after any instant it will be set again and it
/// will be cleared again.
pub proof fn lemma_flag_keeps_toggling(at: nat)
    ensures
        exists|later: nat| later >= at && #[trigger] flag_at(Phase::Starting, false, 0, later),
        exists|later: nat| later >= at && !#[trigger] flag_at(Phase::Starting, false, 0, later),
{
    assert(CYCLE_NANOS == 30_000_000_000);
    let cycles = at / (CYCLE_NANOS as nat) + 1;
    let set_at = STARTUP_NANOS as nat + cycles * CYCLE_NANOS as nat;
    let cleared_at = set_at + READY_NANOS as nat;
    lemma_cycle_timing(set_at);
    lemma_cycle_timing(cleared_at);
    assert(set_at >= at && flag_at(Phase::Starting, false, 0, set_at));
    assert(cleared_at >= at && !flag_at(Phase::Starting, false, 0, cleared_at));
}

/// What the readiness probe answers over time when the simulator runs from
/// process start: `Starting` during startup, then `Healthy` and `Loading` in
/// turn, by the timetable.
pub proof fn lemma_readiness_follows_timetable(at: nat)
    ensures
        readiness(at, flag_at(Phase::Starting, false, 0, at)) == (if at < STARTUP_NANOS {
            ProbeReply::Starting
        } else if (at - STARTUP_NANOS) % (CYCLE_NANOS as int) < READY_NANOS {
            ProbeReply::Healthy
        } else {
            ProbeReply::Loading
        }),
{
    lemma_cycle_timing(at);
}

} // verus!
