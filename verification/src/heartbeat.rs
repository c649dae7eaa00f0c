//! The heartbeat: one structured log line per second.
//!
//! On every tick the emitter looks at the health state and produces one JSON
//! object on one line. While the process is booting the line says so. After
//! that it names the phase and carries a counter, which goes up by one on
//! every tick that finds the process ready and stays put on every tick that
//! finds it loading.

use chrono::SecondsFormat;
use chrono::Utc;
use vstd::prelude::*;
use crate::phase::phase_at;
use crate::phase::Phase;
use crate::state::HealthState;
use crate::timing::startup_done;
use crate::timing::HEARTBEAT_NANOS;

verus! {

/// What one tick of the heartbeat reports.
#[derive(Clone, Copy, Debug, PartialEq, Eq)]
pub enum Beat {
    /// The process is still booting.
    StartingUp,
    /// The process is serving; `counter` counts the ready ticks so far, this
    /// one included.
    Ready { counter: u64 },
    /// The process is reloading; `counter` is where the last ready tick left
    /// it.
    Loading { counter: u64 },
}

/// The counter after a tick that finds the process in `phase`: one more if it
/// is ready, unchanged otherwise.
pub open spec fn count_after(count: u64, phase: Phase) -> int {
    if phase == Phase::Ready {
        count + 1
    } else {
        count as int
    }
}

/// The report of a tick that finds the process in `phase` with the counter at
/// `count`.
pub open spec fn beat_for(count: u64, phase: Phase) -> Beat {
    match phase {
        Phase::Starting => Beat::StartingUp,
        Phase::Ready => Beat::Ready { counter: (count + 1) as u64 },
        Phase::Loading => Beat::Loading { counter: count },
    }
}

/// The value of the `phase` field of a line.
pub open spec fn phase_label(beat: Beat) -> Seq<char> {
    match beat {
        Beat::StartingUp => "starting up"@,
        Beat::Ready { .. } => "ready"@,
        Beat::Loading { .. } => "loading"@,
    }
}

/// The decimal digit for a value below ten.
pub open spec fn digit(value: nat) -> char {
    if value == 0 {
        '0'
    } else if value == 1 {
        '1'
    } else if value == 2 {
        '2'
    } else if value == 3 {
        '3'
    } else if value == 4 {
        '4'
    } else if value == 5 {
        '5'
    } else if value == 6 {
        '6'
    } else if value == 7 {
        '7'
    } else if value == 8 {
        '8'
    } else {
        '9'
    }
}

/// A number in decimal, most significant digit first, without leading zeros.
pub open spec fn decimal(value: nat) -> Seq<char>
    decreases value,
{
    if value < 10 {
        seq![digit(value)]
    } else {
        decimal(value / 10).push(digit(value % 10))
    }
}

/// The text of a line: a JSON object with the fields `timestamp` and `phase`
/// and, once startup is over, `counter`, whose value is the count in decimal
/// inside a string. The timestamp is inserted as it is given.
pub open spec fn line_text(stamp: Seq<char>, beat: Beat) -> Seq<char> {
    let head = "{\"timestamp\":\""@ + stamp + "\",\"phase\":\""@ + phase_label(beat) + "\""@;
    match beat {
        Beat::StartingUp => head + "}"@,
        Beat::Ready { counter } => head + ",\"counter\":\""@ + decimal(counter as nat) + "\""@
            + "}"@,
        Beat::Loading { counter } => head + ",\"counter\":\""@ + decimal(counter as nat) + "\""@
            + "}"@,
    }
}

impl Beat {
    /// The value of the `phase` field.
    pub fn label(&self) -> (text: &'static str)
        ensures
            text@ == phase_label(*self),
    {
        match self {
            Beat::StartingUp => "starting up",
            Beat::Ready { .. } => "ready",
            Beat::Loading { .. } => "loading",
        }
    }

    /// The counter carried by the report, if it carries one.
    pub fn counter(&self) -> (counter: Option<u64>)
        ensures
            counter == match *self {
                Beat::StartingUp => None,
                Beat::Ready { counter } => Some(counter),
                Beat::Loading { counter } => Some(counter),
            },
    {
        match self {
            Beat::StartingUp => None,
            Beat::Ready { counter } => Some(*counter),
            Beat::Loading { counter } => Some(*counter),
        }
    }
}

/// The one-character text of a digit.
fn digit_text(value: u64) -> (text: &'static str)
    requires
        value < 10,
    ensures
        text@ == seq![digit(value as nat)],
{
    proof {
        reveal_strlit("0");
        reveal_strlit("1");
        reveal_strlit("2");
        reveal_strlit("3");
        reveal_strlit("4");
        reveal_strlit("5");
        reveal_strlit("6");
        reveal_strlit("7");
        reveal_strlit("8");
        reveal_strlit("9");
    }
    if value == 0 {
        "0"
    } else if value == 1 {
        "1"
    } else if value == 2 {
        "2"
    } else if value == 3 {
        "3"
    } else if value == 4 {
        "4"
    } else if value == 5 {
        "5"
    } else if value == 6 {
        "6"
    } else if value == 7 {
        "7"
    } else if value == 8 {
        "8"
    } else {
        "9"
    }
}

/// Writes a number in decimal.
pub fn decimal_string(value: u64) -> (text: String)
    ensures
        text@ == decimal(value as nat),
    decreases value,
{
    if value < 10 {
        String::from_str(digit_text(value))
    } else {
        let mut text = decimal_string(value / 10);
        text.append(digit_text(value % 10));
        text
    }
}

/// Writes the line for one report, stamped with `stamp`.
pub fn render_line(stamp: &str, beat: Beat) -> (line: String)
    ensures
        line@ == line_text(stamp@, beat),
{
    let mut line = String::from_str("{\"timestamp\":\"");
    line.append(stamp);
    line.append("\",\"phase\":\"");
    line.append(beat.label());
    line.append("\"");
    match beat.counter() {
        Some(counter) => {
            let digits = decimal_string(counter);
            line.append(",\"counter\":\"");
            line.append(digits.as_str());
            line.append("\"");
        },
        None => {},
    }
    line.append("}");
    line
}

/// `chrono::Utc::now` followed by `DateTime::to_rfc3339_opts` with
/// millisecond precision and `Z` for the zone: the current wall-clock time
/// as text, such as `2018-01-26T18:30:09.453Z`. The text depends on the
/// system clock, so nothing is promised of it. `Utc::now` gives up on a
/// system clock that reads earlier than 1970.
#[verifier::external_body]
fn utc_timestamp() -> String {
    Utc::now().to_rfc3339_opts(SecondsFormat::Millis, true)
}

/// The state of the heartbeat emitter: how many ticks have found the process
/// ready.
pub struct Heartbeat {
    counter: u64,
}

impl Heartbeat {
    /// The number of ready ticks so far.
    pub closed spec fn count(&self) -> u64 {
        self.counter
    }

    /// An emitter that has not ticked yet.
    pub fn new() -> (heartbeat: Heartbeat)
        ensures
            heartbeat.count() == 0,
    {
        Heartbeat { counter: 0 }
    }

    /// The number of ready ticks so far.
    pub fn counter(&self) -> (counter: u64)
        ensures
            counter == self.count(),
    {
        self.counter
    }

    /// One tick that finds the process in `phase`: counts it if the process
    /// is ready, and says what to report. The counter never goes down.
    pub fn record(&mut self, phase: Phase) -> (beat: Beat)
        requires
            phase == Phase::Ready ==> old(self).count() < u64::MAX,
        ensures
            final(self).count() == count_after(old(self).count(), phase),
            final(self).count() >= old(self).count(),
            beat == beat_for(old(self).count(), phase),
    {
        match phase {
            Phase::Starting => Beat::StartingUp,
            Phase::Ready => {
                self.counter = self.counter + 1;
                Beat::Ready { counter: self.counter }
            },
            Phase::Loading => Beat::Loading { counter: self.counter },
        }
    }

    /// One tick on the live state: takes the wall-clock time, looks at the
    /// health state, counts the tick if the process is ready, and returns
    /// the line to print.
    ///
    /// The time and the state are read from outside, so the contract holds
    /// for whatever they said: the line is the line for some timestamp and
    /// some phase, and the counter has moved as that phase demands.
    pub fn beat(&mut self, state: &HealthState) -> (line: String)
        requires
            old(self).count() < u64::MAX,
        ensures
            exists|stamp: Seq<char>, phase: Phase|
                final(self).count() == count_after(old(self).count(), phase) && line@
                    == #[trigger] line_text(stamp, beat_for(old(self).count(), phase)),
            final(self).count() >= old(self).count(),
    {
        let stamp = utc_timestamp();
        let phase = state.phase();
        let beat = self.record(phase);
        render_line(stamp.as_str(), beat)
    }
}

/// What a tick reports, by the time alive and the flag: `starting up` until
/// startup is complete, with the counter untouched; from then on `ready` with
/// the counter raised by one while the flag is set, and `loading` with the
/// counter as it was while the flag is clear.
pub proof fn lemma_beat_by_time(count: u64, elapsed: nat, ready: bool)
    ensures
        !startup_done(elapsed) ==> {
            &&& beat_for(count, phase_at(elapsed, ready)) == Beat::StartingUp
            &&& count_after(count, phase_at(elapsed, ready)) == count
        },
        startup_done(elapsed) && ready ==> {
            &&& beat_for(count, phase_at(elapsed, ready)) == (Beat::Ready {
                counter: (count + 1) as u64,
            })
            &&& count_after(count, phase_at(elapsed, ready)) == count + 1
        },
        startup_done(elapsed) && !ready ==> {
            &&& beat_for(count, phase_at(elapsed, ready)) == (Beat::Loading { counter: count })
            &&& count_after(count, phase_at(elapsed, ready)) == count
        },
{
}

/// The number of lines printed up to and including time `until` by an
/// emitter that begins its first pause at time `now`, when every pause lasts
/// exactly `HEARTBEAT_NANOS`. Each tick prints one line.
pub open spec fn lines_by(now: nat, until: nat) -> nat
    decreases until - now,
{
    if now + HEARTBEAT_NANOS > until {
        0
    } else {
        1 + lines_by((now + HEARTBEAT_NANOS) as nat, until)
    }
}

/// The last instant of a window of `seconds` heartbeat intervals that opens
/// at `from`.
pub open spec fn window_end(from: nat, seconds: nat) -> nat {
    from + seconds * HEARTBEAT_NANOS as nat
}

/// One line for every whole pause that fits between `now` and `until`.
proof fn lemma_lines_by(now: nat, until: nat)
    requires
        now <= until,
    ensures
        lines_by(now, until) == (until - now) / (HEARTBEAT_NANOS as int),
    decreases until - now,
{
    assert(HEARTBEAT_NANOS == 1_000_000_000);
    if now + HEARTBEAT_NANOS <= until {
        lemma_lines_by((now + HEARTBEAT_NANOS) as nat, until);
    }
}

/// Emission rate of an emitter that never drifts: a window of `seconds`
/// seconds that opens after `from` and closes with its last instant holds
/// exactly `seconds` lines, wherever it lies. Counting the opening instant
/// too adds at most the one line that may fall exactly on it.
pub proof fn lemma_heartbeat_rate(begun: nat, from: nat, seconds: nat)
    requires
        begun <= from,
    ensures
        lines_by(begun, window_end(from, seconds)) - lines_by(begun, from) == seconds,
        begun < from ==> seconds <= lines_by(begun, window_end(from, seconds)) - lines_by(
            begun,
            (from - 1) as nat,
        ) <= seconds + 1,
{
    assert(HEARTBEAT_NANOS == 1_000_000_000);
    lemma_lines_by(begun, from);
    lemma_lines_by(begun, window_end(from, seconds));
    if begun < from {
        lemma_lines_by(begun, (from - 1) as nat);
    }
}

} // verus!
