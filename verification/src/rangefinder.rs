//! One time-of-flight measurement on a trigger line and an echo line.
//!
//! The rangefinder is a state machine. The caller owns the two lines and the
//! clock: it tells the machine what it observes, carries out the action the
//! machine answers with, and observes again, until the machine reports a
//! sample. Every wait for an edge of the echo is bounded by a timeout.

use vstd::prelude::*;
use crate::distance::Distance;

verus! {

/// Length of the trigger pulse, in microseconds.
pub const TRIGGER_PULSE_MICROS: u64 = 10;

/// Longest wait for an edge of the echo, in microseconds.
pub const ECHO_TIMEOUT_MICROS: u64 = 100_000;

/// Pause between two looks at the echo line, in microseconds.
pub const POLL_INTERVAL_MICROS: u64 = 10;

/// Distance units per microsecond of echo: sound covers 0.034 cm in a
/// microsecond, and the echo travels the distance twice.
pub const UNITS_PER_MICRO: u64 = 17;

/// Shortest distance that is accepted as a reading.
pub const MIN_RANGE: u32 = 2_000;

/// Longest distance that is accepted as a reading.
pub const MAX_RANGE: u32 = 400_000;

/// Why a measurement gave no distance.
#[derive(Clone, Copy, Debug, PartialEq, Eq, Structural)]
pub enum MeasureError {
    /// The echo did not start within the timeout.
    EchoTimeoutStart,
    /// The echo did not end within the timeout.
    EchoTimeoutEnd,
    /// The computed distance is outside the accepted range.
    OutOfRange,
}

/// What the caller sees at one instant: the clock and the echo line.
#[derive(Clone, Copy, Debug, PartialEq, Eq, Structural)]
pub struct Observation {
    pub now_micros: u64,
    pub echo_high: bool,
}

/// What the caller has to do before it observes again.
#[derive(Clone, Copy, Debug, PartialEq, Eq)]
pub enum Action {
    /// Raise the trigger line, hold it for `micros` microseconds, lower it.
    Pulse { micros: u64 },
    /// Suspend for `micros` microseconds.
    Poll { micros: u64 },
    /// The measurement is over; this is its sample.
    Report(Result<Distance, MeasureError>),
}

/// The state of one rangefinder.
#[derive(Clone, Copy, Debug, PartialEq, Eq, Structural)]
pub enum Rangefinder {
    /// No measurement is under way.
    Idle,
    /// The trigger pulse has been asked for.
    Pulsed,
    /// Waiting for the echo to rise, since the instant `since`.
    AwaitingEcho { since: u64 },
    /// The echo rose at the instant `since`; waiting for it to fall.
    Timing { since: u64 },
}

/// The time from `since` to `now`, and zero if the clock went backwards.
pub open spec fn elapsed(since: u64, now: u64) -> u64 {
    if now >= since {
        (now - since) as u64
    } else {
        0
    }
}

/// The sample for an echo of `width` microseconds: seventeen distance units
/// per microsecond, accepted between 2 cm and 400 cm inclusive.
pub open spec fn sample_of_pulse(width: nat) -> Result<Distance, MeasureError> {
    if MIN_RANGE <= 17 * width <= MAX_RANGE {
        Ok(Distance { units: (17 * width) as u32 })
    } else {
        Err(MeasureError::OutOfRange)
    }
}

/// The step taken while the echo is awaited since `since`.
pub open spec fn await_step(since: u64, seen: Observation) -> (Rangefinder, Action) {
    if seen.echo_high {
        (Rangefinder::Timing { since: seen.now_micros }, Action::Poll { micros: 10 })
    } else if elapsed(since, seen.now_micros) > ECHO_TIMEOUT_MICROS {
        (Rangefinder::Idle, Action::Report(Err(MeasureError::EchoTimeoutStart)))
    } else {
        (Rangefinder::AwaitingEcho { since }, Action::Poll { micros: 10 })
    }
}

/// The step taken while the echo that rose at `since` is timed.
pub open spec fn timing_step(since: u64, seen: Observation) -> (Rangefinder, Action) {
    if !seen.echo_high {
        (
            Rangefinder::Idle,
            Action::Report(sample_of_pulse(elapsed(since, seen.now_micros) as nat)),
        )
    } else if elapsed(since, seen.now_micros) > ECHO_TIMEOUT_MICROS {
        (Rangefinder::Idle, Action::Report(Err(MeasureError::EchoTimeoutEnd)))
    } else {
        (Rangefinder::Timing { since }, Action::Poll { micros: 10 })
    }
}

impl Rangefinder {
    /// The transition function: the next state and the action to carry out.
    ///
    /// From `Idle` the trigger pulse is asked for. After the pulse the wait
    /// for the rising edge starts at the first observation. When the echo is
    /// seen high its timing starts at that observation, and it ends at the
    /// first observation that sees the echo low. Either wait fails once more
    /// than the timeout has elapsed.
    pub open spec fn next(self, seen: Observation) -> (Rangefinder, Action) {
        match self {
            Rangefinder::Idle => (
                Rangefinder::Pulsed,
                Action::Pulse { micros: TRIGGER_PULSE_MICROS },
            ),
            Rangefinder::Pulsed => await_step(seen.now_micros, seen),
            Rangefinder::AwaitingEcho { since } => await_step(since, seen),
            Rangefinder::Timing { since } => timing_step(since, seen),
        }
    }

    /// A rangefinder at rest.
    pub fn new() -> (r: Rangefinder)
        ensures
            r == Rangefinder::Idle,
    {
        Rangefinder::Idle
    }

    /// Takes one step on what the caller observes and answers with the action
    /// to carry out.
    pub fn step(&mut self, seen: Observation) -> (action: Action)
        ensures
            (*final(self), action) == old(self).next(seen),
    {
        let (state, action) = match *self {
            Rangefinder::Idle => (
                Rangefinder::Pulsed,
                Action::Pulse { micros: TRIGGER_PULSE_MICROS },
            ),
            Rangefinder::Pulsed => await_echo(seen.now_micros, seen),
            Rangefinder::AwaitingEcho { since } => await_echo(since, seen),
            Rangefinder::Timing { since } => time_echo(since, seen),
        };
        *self = state;
        action
    }
}

/// The microseconds from `since` to `now`, and zero if the clock went
/// backwards.
pub fn elapsed_micros(since: u64, now: u64) -> (micros: u64)
    ensures
        micros == elapsed(since, now),
{
    if now >= since {
        now - since
    } else {
        0
    }
}

/// Converts the width of an echo into a sample: `Ok` exactly when seventeen
/// times the width lies within the accepted range.
pub fn distance_from_pulse(width_micros: u64) -> (sample: Result<Distance, MeasureError>)
    ensures
        sample == sample_of_pulse(width_micros as nat),
        sample.is_ok() <==> MIN_RANGE <= 17 * width_micros <= MAX_RANGE,
        sample.is_ok() ==> sample.unwrap()@ == 17 * width_micros,
        sample.is_err() ==> sample == Err::<Distance, MeasureError>(MeasureError::OutOfRange),
{
    if width_micros > 23_529 {
        Err(MeasureError::OutOfRange)
    } else {
        let units: u64 = UNITS_PER_MICRO * width_micros;
        if units < MIN_RANGE as u64 {
            Err(MeasureError::OutOfRange)
        } else {
            Ok(Distance { units: units as u32 })
        }
    }
}

/// One look at the echo line while its rising edge is awaited.
pub fn await_echo(since: u64, seen: Observation) -> (step: (Rangefinder, Action))
    ensures
        step == await_step(since, seen),
{
    if seen.echo_high {
        (Rangefinder::Timing { since: seen.now_micros }, Action::Poll { micros: POLL_INTERVAL_MICROS })
    } else if elapsed_micros(since, seen.now_micros) > ECHO_TIMEOUT_MICROS {
        (Rangefinder::Idle, Action::Report(Err(MeasureError::EchoTimeoutStart)))
    } else {
        (Rangefinder::AwaitingEcho { since }, Action::Poll { micros: POLL_INTERVAL_MICROS })
    }
}

/// One look at the echo line while its falling edge is awaited.
pub fn time_echo(since: u64, seen: Observation) -> (step: (Rangefinder, Action))
    ensures
        step == timing_step(since, seen),
{
    if !seen.echo_high {
        (
            Rangefinder::Idle,
            Action::Report(distance_from_pulse(elapsed_micros(since, seen.now_micros))),
        )
    } else if elapsed_micros(since, seen.now_micros) > ECHO_TIMEOUT_MICROS {
        (Rangefinder::Idle, Action::Report(Err(MeasureError::EchoTimeoutEnd)))
    } else {
        (Rangefinder::Timing { since }, Action::Poll { micros: POLL_INTERVAL_MICROS })
    }
}

/// The report of the measurement that starts in `state` and sees the
/// observations of `trace` in order: the first report the machine gives, and
/// none if the trace ends before it.
pub open spec fn trace_report(state: Rangefinder, trace: Seq<Observation>) -> Option<
    Result<Distance, MeasureError>,
>
    decreases trace.len(),
{
    if trace.len() == 0 {
        None
    } else {
        match state.next(trace[0]).1 {
            Action::Report(sample) => Some(sample),
            _ => trace_report(state.next(trace[0]).0, trace.drop_first()),
        }
    }
}

/// Runs one measurement from rest over a recorded trace of observations and
/// returns its report, or nothing if the trace ends before the measurement
/// does.
pub fn measure(trace: &Vec<Observation>) -> (report: Option<Result<Distance, MeasureError>>)
    ensures
        report == trace_report(Rangefinder::Idle, trace@),
{
    let mut state = Rangefinder::new();
    let mut i: usize = 0;
    assert(trace@.skip(0) =~= trace@);
    while i < trace.len()
        invariant
            i <= trace@.len(),
            trace_report(Rangefinder::Idle, trace@) == trace_report(state, trace@.skip(i as int)),
        decreases trace@.len() - i,
    {
        proof {
            assert(trace@.skip(i as int).drop_first() =~= trace@.skip(i + 1));
        }
        let action = state.step(trace[i]);
        match action {
            Action::Report(sample) => {
                return Some(sample);
            },
            _ => {},
        }
        i = i + 1;
    }
    None
}

/// Every distance that a rangefinder reports lies between 2 cm and 400 cm.
pub proof fn lemma_reported_distance_in_range(state: Rangefinder, seen: Observation)
    ensures
        match state.next(seen).1 {
            Action::Report(Ok(d)) => MIN_RANGE <= d@ <= MAX_RANGE,
            _ => true,
        },
{
}

/// A rangefinder reports only when a wait ends: a timeout of the rising edge
/// while the echo is awaited, and the falling edge or its timeout while the
/// echo is timed. After a report it is at rest again, and it never rests
/// otherwise.
pub proof fn lemma_report_ends_measurement(state: Rangefinder, seen: Observation)
    ensures
        state.next(seen).1 is Report <==> state.next(seen).0 == Rangefinder::Idle,
        state.next(seen).1 is Report ==> state != Rangefinder::Idle,
        state.next(seen).1 == Action::Report(Err(MeasureError::EchoTimeoutStart)) ==> !(state is Timing)
            && !seen.echo_high,
        state.next(seen).1 == Action::Report(Err(MeasureError::EchoTimeoutEnd)) ==> state is Timing
            && seen.echo_high,
{
}

/// No wait outlasts the timeout: an observation made more than the timeout
/// after a wait began ends the measurement without a distance, unless it is
/// the one that sees the echo rise.
pub proof fn lemma_wait_is_bounded(state: Rangefinder, seen: Observation)
    requires
        match state {
            Rangefinder::AwaitingEcho { since } => !seen.echo_high && elapsed(
                since,
                seen.now_micros,
            ) > ECHO_TIMEOUT_MICROS,
            Rangefinder::Timing { since } => elapsed(since, seen.now_micros)
                > ECHO_TIMEOUT_MICROS,
            _ => false,
        },
    ensures
        state.next(seen).0 == Rangefinder::Idle,
        match state.next(seen).1 {
            Action::Report(Err(_)) => true,
            _ => false,
        },
{
}

/// An echo that rises at one observation and is seen low at the next is
/// reported by its width: seventeen distance units for each microsecond
/// between the two observations, if that lies in the accepted range.
pub proof fn lemma_clean_echo(state: Rangefinder, rise: Observation, fall: Observation)
    requires
        state is Pulsed || state is AwaitingEcho,
        rise.echo_high,
        !fall.echo_high,
        rise.now_micros <= fall.now_micros,
    ensures
        state.next(rise).0 == (Rangefinder::Timing { since: rise.now_micros }),
        state.next(rise).0.next(fall).1 == Action::Report(
            sample_of_pulse((fall.now_micros - rise.now_micros) as nat),
        ),
{
}

} // verus!
