//! The periodic idle monitor's per-tick decision.
//!
//! Every tick the host reads the OS idle probe and the threshold store and
//! asks this module whether to request sleep.  A tick keeps no state of its
//! own: the decision is a function of the current idle time and the current
//! threshold alone, so a threshold change between ticks needs no timer reset.
//! A failed probe counts as zero idle time, so a probe error never forces
//! sleep.

use vstd::prelude::*;

use crate::control::Action;
use crate::threshold::ThresholdStore;

verus! {

/// The OS query for the time since the last input failed.
#[derive(Clone, Copy, PartialEq, Eq, Structural, Debug)]
pub struct ProbeError;

/// Milliseconds elapsed between two readings of a 32-bit millisecond tick
/// counter, which wraps around at `2^32`.
pub open spec fn wrapped_elapsed_ms(now_ms: u32, last_input_ms: u32) -> int {
    if now_ms >= last_input_ms {
        now_ms - last_input_ms
    } else {
        now_ms - last_input_ms + 0x1_0000_0000
    }
}

/// Whole seconds of idle time from two readings of the OS millisecond tick
/// counter: the counter's value now and its value at the last input event.
/// The counter wraps around at `2^32` milliseconds, so the difference is
/// taken modulo `2^32`.
pub fn idle_seconds_from_ticks(now_ms: u32, last_input_ms: u32) -> (s: u32)
    ensures
        s == wrapped_elapsed_ms(now_ms, last_input_ms) / 1000,
{
    if now_ms >= last_input_ms {
        (now_ms - last_input_ms) / 1000
    } else {
        let elapsed: u64 = (now_ms as u64) + 0x1_0000_0000u64 - (last_input_ms as u64);
        (elapsed / 1000) as u32
    }
}

/// The idle seconds a tick works with: the probe's reading, or zero when the
/// probe failed (fail-safe: an error never looks idle).
pub open spec fn idle_of(probe: Result<u32, ProbeError>) -> u32 {
    match probe {
        Ok(seconds) => seconds,
        Err(_) => 0,
    }
}

/// The idle seconds a tick works with, from the probe's outcome.
pub fn idle_from_probe(probe: Result<u32, ProbeError>) -> (s: u32)
    ensures
        s == idle_of(probe),
{
    match probe {
        Ok(seconds) => seconds,
        Err(_) => 0,
    }
}

/// Whether the idle time has reached the threshold: at least
/// `threshold_minutes` times sixty seconds of idle time.
pub open spec fn sleep_due(idle_seconds: u32, threshold_minutes: u32) -> bool {
    idle_seconds >= threshold_minutes * 60
}

/// Whether a tick seeing `idle_seconds` under a threshold of
/// `threshold_minutes` must request sleep.
pub fn tick_decision(idle_seconds: u32, threshold_minutes: u32) -> (b: bool)
    ensures
        b == sleep_due(idle_seconds, threshold_minutes),
{
    (idle_seconds as u64) >= (threshold_minutes as u64) * 60
}

/// What a tick does: request sleep exactly when the idle time has reached
/// the threshold, and nothing otherwise.
pub open spec fn tick_action(probe: Result<u32, ProbeError>, threshold_minutes: u32) -> Action {
    if sleep_due(idle_of(probe), threshold_minutes) {
        Action::TriggerSleep
    } else {
        Action::Nothing
    }
}

/// One tick of the idle monitor: read the store's threshold, take the
/// probe's outcome, and decide.  The single sleep request is the only action
/// a tick ever asks for, and a failed probe never asks for one.
pub fn monitor_tick(store: &ThresholdStore, probe: Result<u32, ProbeError>) -> (a: Action)
    ensures
        a == tick_action(probe, store.minutes),
        (a is TriggerSleep) <==> idle_of(probe) >= store.minutes * 60,
        a is TriggerSleep || a is Nothing,
        store.wf() && probe is Err ==> a is Nothing,
{
    let idle_seconds = idle_from_probe(probe);
    if tick_decision(idle_seconds, store.get()) {
        Action::TriggerSleep
    } else {
        Action::Nothing
    }
}

/// Below the threshold a tick never requests sleep.
pub proof fn lemma_tick_below_threshold(probe: Result<u32, ProbeError>, threshold_minutes: u32)
    requires
        idle_of(probe) < threshold_minutes * 60,
    ensures
        tick_action(probe, threshold_minutes) is Nothing,
{
}

/// At or above the threshold a tick requests sleep, exactly once.
pub proof fn lemma_tick_at_or_above_threshold(
    probe: Result<u32, ProbeError>,
    threshold_minutes: u32,
)
    requires
        idle_of(probe) >= threshold_minutes * 60,
    ensures
        tick_action(probe, threshold_minutes) is TriggerSleep,
{
}

} // verus!
