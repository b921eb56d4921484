//! Ultrasonic ranging: the trigger cycle and the capture of the echo.
//!
//! The sensor is asked for a measurement by a short high pulse on its trigger
//! input, and answers with a high pulse on its echo output that lasts as long
//! as the sound travelled. `ping` and `pong` are the two halves of the trigger
//! cycle. `receive_echo` runs on every edge of the echo and times the pulse on
//! a free-running 32-bit tick counter.

use vstd::prelude::*;
use crate::schedule::Delay;

verus! {

/// The length of the trigger pulse, in microseconds.
pub const TRIGGER_PULSE_MICROS: u64 = 10;

/// The shortest time the sensor needs between two trigger pulses, in
/// milliseconds.
pub const MEASUREMENT_CYCLE_MILLIS: u64 = 60;

/// The two tasks that make up the trigger cycle.
#[derive(Clone, Copy, Debug, PartialEq, Eq, Structural)]
pub enum TriggerTask {
    /// Raises the trigger line.
    Ping,
    /// Lowers the trigger line.
    Pong,
}

/// What one half of the trigger cycle asks of the hardware and of the
/// scheduler.
#[derive(Clone, Copy, Debug, PartialEq, Eq, Structural)]
pub struct TriggerStep {
    /// The level to drive the trigger line to: high if true, low if false.
    pub drive_high: bool,
    /// The task to run next.
    pub next: TriggerTask,
    /// How long to wait before that task runs.
    pub after: Delay,
}

/// The first half of the trigger cycle: raises the trigger line and asks for
/// `pong` when the trigger pulse has lasted its length.
pub fn ping() -> (step: TriggerStep)
    ensures
        step.drive_high,
        step.next == TriggerTask::Pong,
        step.after == Delay::Micros(TRIGGER_PULSE_MICROS),
{
    TriggerStep {
        drive_high: true,
        next: TriggerTask::Pong,
        after: Delay::Micros(TRIGGER_PULSE_MICROS),
    }
}

/// The second half of the trigger cycle: lowers the trigger line and asks for
/// `ping` when the sensor has had the time it needs for a measurement.
pub fn pong() -> (step: TriggerStep)
    ensures
        !step.drive_high,
        step.next == TriggerTask::Ping,
        step.after == Delay::Millis(MEASUREMENT_CYCLE_MILLIS),
{
    TriggerStep {
        drive_high: false,
        next: TriggerTask::Ping,
        after: Delay::Millis(MEASUREMENT_CYCLE_MILLIS),
    }
}

/// What the echo input shows when its edge interrupt runs.
#[derive(Clone, Copy, Debug, PartialEq, Eq, Structural)]
pub struct EchoEdge {
    /// Whether the interrupt of the echo input is pending.
    pub pending: bool,
    /// The level of the echo input: high if true, low if false.
    pub pin_high: bool,
    /// The tick counter, read when the interrupt ran.
    pub now: u32,
}

/// The ticks that a 32-bit counter made between the readings `since` and
/// `now`: their difference modulo 2^32, so that a counter that wrapped in
/// between counts as having gone on.
pub open spec fn ticks_between(since: u32, now: u32) -> int {
    (now - since) % 0x1_0000_0000
}

/// A pending edge on which the echo input is high.
pub open spec fn rising_edge(now: u32) -> EchoEdge {
    EchoEdge { pending: true, pin_high: true, now }
}

/// A pending edge on which the echo input is low.
pub open spec fn falling_edge(now: u32) -> EchoEdge {
    EchoEdge { pending: true, pin_high: false, now }
}

/// The start time that is remembered after an edge.
///
/// A rising edge is remembered, and replaces an earlier one. A falling edge
/// clears what was remembered. Without a pending interrupt nothing changes.
pub open spec fn start_time_after(start_time: Option<u32>, edge: EchoEdge) -> Option<u32> {
    if !edge.pending {
        start_time
    } else if edge.pin_high {
        Some(edge.now)
    } else {
        None
    }
}

/// The width in ticks of the pulse that an edge completes, if it completes
/// one: the edge is a falling one, and a rising edge was remembered.
pub open spec fn pulse_completed(start_time: Option<u32>, edge: EchoEdge) -> Option<u32> {
    if edge.pending && !edge.pin_high {
        match start_time {
            Some(since) => Some(ticks_between(since, edge.now) as u32),
            None => None,
        }
    } else {
        None
    }
}

/// The ticks between the readings `since` and `now` of a free-running 32-bit
/// counter.
pub fn elapsed(since: u32, now: u32) -> (ticks: u32)
    ensures
        ticks == ticks_between(since, now),
{
    now.wrapping_sub(since)
}

/// Handles one edge of the echo input.
///
/// `start_time` is the reading of the tick counter at the last rising edge, if
/// a pulse is in flight. Returns the width in ticks of the pulse that this
/// edge completed, or `None` if there is no new measurement, in which case the
/// last distance stands.
pub fn receive_echo(start_time: &mut Option<u32>, edge: EchoEdge) -> (pulse: Option<u32>)
    ensures
        *final(start_time) == start_time_after(*old(start_time), edge),
        pulse == pulse_completed(*old(start_time), edge),
{
    let mut pulse: Option<u32> = None;
    if edge.pending {
        *start_time = if edge.pin_high {
            Some(edge.now)
        } else {
            if let Some(since) = *start_time {
                pulse = Some(elapsed(since, edge.now));
            }
            None
        };
    }
    pulse
}

/// The reading of a 32-bit counter `ticks` ticks after it read `since`: the
/// counter starts over at zero after its largest value.
pub open spec fn counter_after(since: u32, ticks: nat) -> u32 {
    ((since + ticks) % 0x1_0000_0000) as u32
}

/// A rising edge, and a falling edge `width` ticks later, measure `width`,
/// whatever was remembered before and wherever the counter stood, and leave
/// nothing remembered. The rising edge alone measures nothing.
pub proof fn lemma_pulse_is_measured(start_time: Option<u32>, rise: u32, width: nat)
    requires
        width <= u32::MAX,
    ensures
        pulse_completed(start_time, rising_edge(rise)) is None,
        pulse_completed(
            start_time_after(start_time, rising_edge(rise)),
            falling_edge(counter_after(rise, width)),
        ) == Some(width as u32),
        start_time_after(
            start_time_after(start_time, rising_edge(rise)),
            falling_edge(counter_after(rise, width)),
        ) is None,
{
    lemma_ticks_between_survives_wraparound(rise, width);
}

/// A falling edge without a rising edge before it measures nothing and
/// leaves nothing remembered.
pub proof fn lemma_falling_edge_alone_measures_nothing(fall: u32)
    ensures
        pulse_completed(None, falling_edge(fall)) is None,
        start_time_after(None, falling_edge(fall)) is None,
{
}

/// The ticks between two readings are never negative and fit in 32 bits, and
/// they are the ticks that the counter made, also when it passed its largest
/// value and started over in between.
pub proof fn lemma_ticks_between_survives_wraparound(since: u32, width: nat)
    requires
        width <= u32::MAX,
    ensures
        forall|now: u32| 0 <= #[trigger] ticks_between(since, now) <= u32::MAX,
        ticks_between(since, counter_after(since, width)) == width,
{
}

} // verus!
