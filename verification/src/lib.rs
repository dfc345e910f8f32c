//! Core logic of an idle-sleep daemon with a tray-menu control surface.
//!
//! The daemon polls the operating system for the time since the last user
//! input and, once that idle time crosses a user-selected threshold, asks the
//! OS to enter a low-power sleep state.  This crate holds the decision logic:
//! the threshold store, the per-tick sleep decision, and the menu command
//! state machine that keeps the displayed checkmarks consistent with the
//! active threshold.  The host process supplies the OS probe, the sleep
//! request, the autostart capability and the tray host, and hands their
//! results to these functions as plain values.

pub mod control;
pub mod monitor;
pub mod threshold;
