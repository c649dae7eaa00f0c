use healthz::heartbeat::Heartbeat;
use healthz::lifecycle::enter_phase;
use healthz::phase::Phase;
use healthz::probe::ready;
use healthz::probe::startup;
use healthz::probe::ProbeReply;
use healthz::state::HealthState;
use healthz::timing::startup_complete;
use std::sync::Arc;
use std::time::Duration;
use std::time::Instant;

fn spin_for(duration: Duration) {
    let begun = Instant::now();
    while begun.elapsed() < duration {
        std::hint::spin_loop();
    }
}

#[test]
fn a_fresh_state_is_starting_and_not_ready() {
    let state = HealthState::new();
    assert!(!state.is_ready());
    assert!(!state.is_startup_complete());
    assert_eq!(state.phase(), Phase::Starting);
    assert!(!startup_complete(state.elapsed_nanos()));
    assert_eq!(ready(state.elapsed_nanos(), state.is_ready()), ProbeReply::Starting);
    assert_eq!(startup(state.elapsed_nanos()), ProbeReply::Starting);
}

#[test]
fn the_flag_holds_what_was_last_stored() {
    let state = HealthState::new();
    assert!(!state.is_ready());
    state.set_ready(true);
    assert!(state.is_ready());
    assert!(state.is_ready());
    state.set_ready(false);
    assert!(!state.is_ready());
    state.set_ready(false);
    assert!(!state.is_ready());
    state.set_ready(true);
    assert!(state.is_ready());
}

#[test]
fn the_flag_does_not_end_startup() {
    let state = HealthState::new();
    state.set_ready(true);
    assert!(!state.is_startup_complete());
    assert_eq!(state.phase(), Phase::Starting);
    assert_eq!(ready(state.elapsed_nanos(), state.is_ready()), ProbeReply::Starting);
}

#[test]
fn elapsed_time_is_in_nanoseconds_and_moves_forward() {
    let wall = Instant::now();
    let state = HealthState::new();
    let first = state.elapsed_nanos();
    spin_for(Duration::from_millis(50));
    let second = state.elapsed_nanos();
    let bound = wall.elapsed().as_nanos();
    assert!(first <= second);
    assert!(second >= 50_000_000, "elapsed {}", second);
    assert!(second <= bound, "elapsed {} of at most {}", second, bound);
    assert!(!state.is_startup_complete());
}

#[test]
fn each_state_has_its_own_flag_and_start() {
    let older = HealthState::new();
    spin_for(Duration::from_millis(20));
    let newer = HealthState::new();
    older.set_ready(true);
    assert!(older.is_ready());
    assert!(!newer.is_ready());
    let newer_elapsed = newer.elapsed_nanos();
    let older_elapsed = older.elapsed_nanos();
    assert!(older_elapsed >= newer_elapsed + 20_000_000);
}

#[test]
fn a_shared_state_shows_the_write_to_every_holder() {
    let state = Arc::new(HealthState::new());
    let writer = Arc::clone(&state);
    let reader = Arc::clone(&state);
    assert!(!reader.is_ready());
    writer.set_ready(true);
    assert!(reader.is_ready());
    assert!(state.is_ready());
    writer.set_ready(false);
    assert!(!reader.is_ready());
}

#[test]
fn after_eight_seconds_the_live_state_has_started() {
    let state = HealthState::new();
    spin_for(Duration::from_millis(8_050));
    assert!(state.elapsed_nanos() >= 8_000_000_000);
    assert!(state.is_startup_complete());
    assert!(startup_complete(state.elapsed_nanos()));

    // Startup is over and the flag is still clear: the process is loading.
    assert_eq!(state.phase(), Phase::Loading);
    assert_eq!(ready(state.elapsed_nanos(), state.is_ready()), ProbeReply::Loading);
    assert_eq!(startup(state.elapsed_nanos()), ProbeReply::Healthy);
    let mut heartbeat = Heartbeat::new();
    let line = heartbeat.beat(&state);
    assert!(line.ends_with("\",\"phase\":\"loading\",\"counter\":\"0\"}"), "line {}", line);
    assert_eq!(heartbeat.counter(), 0);

    // A simulator that starts this late does not wait.
    let transition = enter_phase(&state, Phase::Starting);
    assert_eq!(transition.wait_nanos, 0);
    assert_eq!(transition.next, Phase::Ready);
    assert!(!state.is_ready());

    let transition = enter_phase(&state, transition.next);
    assert_eq!(transition.wait_nanos, 20_000_000_000);
    assert!(state.is_ready());
    assert_eq!(state.phase(), Phase::Ready);
    assert_eq!(ready(state.elapsed_nanos(), state.is_ready()), ProbeReply::Healthy);
    assert_eq!(startup(state.elapsed_nanos()), ProbeReply::Healthy);
    let line = heartbeat.beat(&state);
    assert!(line.ends_with("\",\"phase\":\"ready\",\"counter\":\"1\"}"), "line {}", line);
    let line = heartbeat.beat(&state);
    assert!(line.ends_with("\",\"phase\":\"ready\",\"counter\":\"2\"}"), "line {}", line);
    assert_eq!(heartbeat.counter(), 2);

    // Reloading does not undo startup.
    let transition = enter_phase(&state, transition.next);
    assert_eq!(transition.wait_nanos, 10_000_000_000);
    assert!(!state.is_ready());
    assert_eq!(ready(state.elapsed_nanos(), state.is_ready()), ProbeReply::Loading);
    assert_eq!(startup(state.elapsed_nanos()), ProbeReply::Healthy);
    let line = heartbeat.beat(&state);
    assert!(line.ends_with("\",\"phase\":\"loading\",\"counter\":\"2\"}"), "line {}", line);
}
