//! The idle threshold: the single scalar shared between the menu handler and
//! the periodic monitor.
//!
//! The threshold is always one of a fixed set of minute values; the host
//! keeps it behind an atomic or a lock so that the monitor and the menu
//! handler never observe a torn value.  This module models the scalar itself
//! and its invariant.

use vstd::prelude::*;

verus! {

/// The minute values a threshold may take.  The store never holds anything
/// outside this set.
pub open spec fn is_allowed_threshold(minutes: u32) -> bool {
    minutes == 15 || minutes == 30 || minutes == 60
}

/// The threshold the store starts with.
pub open spec fn default_threshold_minutes() -> u32 {
    30
}

/// One of the selectable idle thresholds, as offered by the menu.
#[derive(Clone, Copy, PartialEq, Eq, Structural, Debug)]
pub enum ThresholdChoice {
    Min15,
    Min30,
    Min60,
}

impl ThresholdChoice {
    /// The minute value of this choice.
    pub open spec fn spec_minutes(self) -> u32 {
        match self {
            ThresholdChoice::Min15 => 15,
            ThresholdChoice::Min30 => 30,
            ThresholdChoice::Min60 => 60,
        }
    }

    /// The minute value of this choice.
    pub fn minutes(self) -> (m: u32)
        ensures
            m == self.spec_minutes(),
            is_allowed_threshold(m),
    {
        match self {
            ThresholdChoice::Min15 => 15,
            ThresholdChoice::Min30 => 30,
            ThresholdChoice::Min60 => 60,
        }
    }
}

/// The source of truth for the active idle threshold, in minutes.
///
/// Logically a single scalar.  Readers always see a whole value from the
/// allowed set: `new` and `set` only ever store allowed values, and the host
/// is expected to hold the store behind atomic access so that the monitor
/// thread and the menu thread never interleave inside a read or a write.
#[derive(Clone, Copy, PartialEq, Eq, Structural, Debug)]
pub struct ThresholdStore {
    pub minutes: u32,
}

impl ThresholdStore {
    /// The store holds an allowed threshold value.
    pub open spec fn wf(self) -> bool {
        is_allowed_threshold(self.minutes)
    }

    /// A store holding the default threshold.
    pub fn new() -> (s: Self)
        ensures
            s.wf(),
            s.minutes == default_threshold_minutes(),
    {
        ThresholdStore { minutes: 30 }
    }

    /// The current threshold, in minutes.  Of a well-formed store this is
    /// always one of the allowed values.
    pub fn get(&self) -> (m: u32)
        ensures
            m == self.minutes,
            self.wf() ==> is_allowed_threshold(m),
    {
        self.minutes
    }

    /// Replace the threshold.  Callers may only pass allowed values.
    pub fn set(&mut self, minutes: u32)
        requires
            is_allowed_threshold(minutes),
        ensures
            final(self).minutes == minutes,
            final(self).wf(),
    {
        self.minutes = minutes;
    }
}

impl Default for ThresholdStore {
    /// A store holding the default threshold.
    fn default() -> (s: Self)
        ensures
            s.wf(),
            s.minutes == default_threshold_minutes(),
    {
        ThresholdStore { minutes: 30 }
    }
}

} // verus!
