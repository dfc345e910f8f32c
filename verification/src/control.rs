//! The menu-driven control surface: commands, the checkmark state they keep,
//! and the actions they ask the host to perform.
//!
//! The tray host delivers a command identifier for every menu click; this
//! module parses it, applies the state change, and answers with the single
//! action the host must carry out (request sleep, enable or disable
//! autostart, exit, or nothing).  Selecting a threshold updates the store and
//! all three threshold checkmarks in one step, so exactly one checkmark is
//! ever set and it always names the active threshold.

use vstd::prelude::*;

use crate::monitor::ProbeError;
use crate::threshold::{
    default_threshold_minutes, is_allowed_threshold, ThresholdChoice, ThresholdStore,
};

verus! {

/// Reading the autostart capability's current state failed.
#[derive(Clone, Copy, PartialEq, Eq, Structural, Debug)]
pub struct AutostartQueryError;

/// Enabling or disabling autostart failed.
#[derive(Clone, Copy, PartialEq, Eq, Structural, Debug)]
pub struct AutostartApplyError;

/// A command delivered by the tray host, one per menu item.
#[derive(Clone, Copy, PartialEq, Eq, Structural, Debug)]
pub enum Command {
    /// Select an idle threshold.
    Select(ThresholdChoice),
    /// Flip whether the program is launched at login.
    ToggleAutostart,
    /// Request sleep immediately, whatever the idle time.
    SleepNow,
    /// Terminate the process, with exit code zero.
    Quit,
}

/// What the host must do after a command or a tick has been handled.
#[derive(Clone, Copy, PartialEq, Eq, Structural, Debug)]
pub enum Action {
    /// Nothing to carry out.
    Nothing,
    /// Request the OS sleep transition.
    TriggerSleep,
    /// Ask the autostart capability to enable launch at login.
    EnableAutostart,
    /// Ask the autostart capability to disable launch at login.
    DisableAutostart,
    /// Terminate the process, with exit code zero.
    Exit,
}

/// The control surface's state: the threshold store and the four checkmarks
/// the menu shows.
#[derive(Clone, Copy, PartialEq, Eq, Structural, Debug)]
pub struct ControlState {
    /// The active idle threshold.
    pub threshold: ThresholdStore,
    /// Checkmark of the fifteen-minute option.
    pub t15_checked: bool,
    /// Checkmark of the thirty-minute option.
    pub t30_checked: bool,
    /// Checkmark of the sixty-minute option.
    pub t60_checked: bool,
    /// Checkmark of the launch-at-login option.
    pub autostart_checked: bool,
}

/// Exactly one of the three threshold checkmarks is set.
pub open spec fn exactly_one_checked(s: ControlState) -> bool {
    ||| (s.t15_checked && !s.t30_checked && !s.t60_checked)
    ||| (!s.t15_checked && s.t30_checked && !s.t60_checked)
    ||| (!s.t15_checked && !s.t30_checked && s.t60_checked)
}

impl ControlState {
    /// Each threshold checkmark is set exactly when the store holds that
    /// option's minute value.
    pub open spec fn checks_match(self) -> bool {
        &&& self.t15_checked == (self.threshold.minutes == 15)
        &&& self.t30_checked == (self.threshold.minutes == 30)
        &&& self.t60_checked == (self.threshold.minutes == 60)
    }

    /// The store holds an allowed threshold and the checkmarks agree with it.
    pub open spec fn wf(self) -> bool {
        self.threshold.wf() && self.checks_match()
    }

    /// Decide well-formedness at run time, for a host that wants to guard a
    /// state it carried around before handing it back to `handle_command`.
    pub fn is_well_formed(&self) -> (b: bool)
        ensures
            b == self.wf(),
    {
        let m = self.threshold.get();
        (m == 15 || m == 30 || m == 60) && self.t15_checked == (m == 15)
            && self.t30_checked == (m == 30) && self.t60_checked == (m == 60)
    }
}

/// A well-formed state shows exactly one threshold checkmark, the one naming
/// the active threshold.
pub proof fn lemma_wf_checkmarks(s: ControlState)
    requires
        s.wf(),
    ensures
        exactly_one_checked(s),
        s.t15_checked == (s.threshold.minutes == 15),
        s.t30_checked == (s.threshold.minutes == 30),
        s.t60_checked == (s.threshold.minutes == 60),
{
}

/// The autostart checkmark the menu starts with: the capability's answer, or
/// unchecked when the query failed.
pub open spec fn initial_autostart_checked(query: Result<bool, AutostartQueryError>) -> bool {
    match query {
        Ok(enabled) => enabled,
        Err(_) => false,
    }
}

/// The state the control surface starts in: the default threshold with its
/// checkmark, and the autostart checkmark seeded from the capability's
/// answer — unchecked when the query failed.
pub fn initial_state(autostart_query: Result<bool, AutostartQueryError>) -> (s: ControlState)
    ensures
        s.wf(),
        s.threshold.minutes == default_threshold_minutes(),
        !s.t15_checked,
        s.t30_checked,
        !s.t60_checked,
        s.autostart_checked == initial_autostart_checked(autostart_query),
        autostart_query is Err ==> !s.autostart_checked,
{
    let autostart_checked = match autostart_query {
        Ok(enabled) => enabled,
        Err(_) => false,
    };
    ControlState {
        threshold: ThresholdStore::new(),
        t15_checked: false,
        t30_checked: true,
        t60_checked: false,
        autostart_checked,
    }
}

/// The state after selecting a threshold: the store holds the choice's
/// minute value, its checkmark alone is set, and the autostart checkmark is
/// untouched.
pub open spec fn select_result(s: ControlState, c: ThresholdChoice) -> ControlState {
    ControlState {
        threshold: ThresholdStore { minutes: c.spec_minutes() },
        t15_checked: c is Min15,
        t30_checked: c is Min30,
        t60_checked: c is Min60,
        autostart_checked: s.autostart_checked,
    }
}

/// The state after a command has been handled.  Only a selection changes the
/// state; the autostart checkmark moves later, when the capability call's
/// outcome is known.
pub open spec fn next_state(s: ControlState, cmd: Command) -> ControlState {
    match cmd {
        Command::Select(c) => select_result(s, c),
        Command::ToggleAutostart => s,
        Command::SleepNow => s,
        Command::Quit => s,
    }
}

/// The action a command asks the host for.  A toggle asks to disable
/// autostart when its checkmark is set and to enable it otherwise.
pub open spec fn action_for(s: ControlState, cmd: Command) -> Action {
    match cmd {
        Command::Select(_) => Action::Nothing,
        Command::ToggleAutostart => if s.autostart_checked {
            Action::DisableAutostart
        } else {
            Action::EnableAutostart
        },
        Command::SleepNow => Action::TriggerSleep,
        Command::Quit => Action::Exit,
    }
}

/// Handle one menu command: apply its state change in a single step and
/// answer with the one action the host must carry out.
pub fn handle_command(state: &mut ControlState, cmd: Command) -> (a: Action)
    requires
        old(state).wf(),
    ensures
        final(state).wf(),
        *final(state) == next_state(*old(state), cmd),
        a == action_for(*old(state), cmd),
        cmd is SleepNow ==> a is TriggerSleep && *final(state) == *old(state),
        !(cmd is Select) ==> *final(state) == *old(state),
{
    match cmd {
        Command::Select(c) => {
            let minutes = c.minutes();
            state.threshold.set(minutes);
            state.t15_checked = matches!(c, ThresholdChoice::Min15);
            state.t30_checked = matches!(c, ThresholdChoice::Min30);
            state.t60_checked = matches!(c, ThresholdChoice::Min60);
            Action::Nothing
        },
        Command::ToggleAutostart => {
            if state.autostart_checked {
                Action::DisableAutostart
            } else {
                Action::EnableAutostart
            }
        },
        Command::SleepNow => Action::TriggerSleep,
        Command::Quit => Action::Exit,
    }
}

/// The state after the autostart capability call's outcome is known: on
/// success the checkmark flips to the newly applied state, on failure it is
/// left as it was.
pub open spec fn autostart_outcome_state(s: ControlState, applied: bool) -> ControlState {
    if applied {
        ControlState { autostart_checked: !s.autostart_checked, ..s }
    } else {
        s
    }
}

/// Record the outcome of the autostart capability call a toggle asked for:
/// set the checkmark to the newly applied state on success, leave it
/// untouched on failure.  The threshold state is never touched.
pub fn apply_autostart_outcome(state: &mut ControlState, outcome: Result<(), AutostartApplyError>)
    ensures
        *final(state) == autostart_outcome_state(*old(state), outcome is Ok),
        outcome is Ok ==> final(state).autostart_checked == !old(state).autostart_checked,
        outcome is Err ==> *final(state) == *old(state),
        final(state).threshold == old(state).threshold,
        final(state).t15_checked == old(state).t15_checked,
        final(state).t30_checked == old(state).t30_checked,
        final(state).t60_checked == old(state).t60_checked,
        old(state).wf() ==> final(state).wf(),
{
    match outcome {
        Ok(()) => {
            state.autostart_checked = !state.autostart_checked;
        },
        Err(_) => {},
    }
}

/// The command named by a menu event identifier, if any: the identifiers are
/// the ASCII strings `t15`, `t30`, `t60`, `toggle_autostart`, `sleep_now`
/// and `quit`, given here as their byte sequences.
pub open spec fn spec_parse_command(id: Seq<u8>) -> Option<Command> {
    if id.len() == 3 && id[0] == 116 && id[1] == 49 && id[2] == 53 {
        Some(Command::Select(ThresholdChoice::Min15))
    } else if id.len() == 3 && id[0] == 116 && id[1] == 51 && id[2] == 48 {
        Some(Command::Select(ThresholdChoice::Min30))
    } else if id.len() == 3 && id[0] == 116 && id[1] == 54 && id[2] == 48 {
        Some(Command::Select(ThresholdChoice::Min60))
    } else if id.len() == 16 && id[0] == 116 && id[1] == 111 && id[2] == 103 && id[3] == 103
        && id[4] == 108 && id[5] == 101 && id[6] == 95 && id[7] == 97 && id[8] == 117
        && id[9] == 116 && id[10] == 111 && id[11] == 115 && id[12] == 116 && id[13] == 97
        && id[14] == 114 && id[15] == 116 {
        Some(Command::ToggleAutostart)
    } else if id.len() == 9 && id[0] == 115 && id[1] == 108 && id[2] == 101 && id[3] == 101
        && id[4] == 112 && id[5] == 95 && id[6] == 110 && id[7] == 111 && id[8] == 119 {
        Some(Command::SleepNow)
    } else if id.len() == 4 && id[0] == 113 && id[1] == 117 && id[2] == 105 && id[3] == 116 {
        Some(Command::Quit)
    } else {
        None
    }
}

/// Parse a menu event identifier, given as its bytes, into a command.
/// Identifiers of other menu items parse to nothing and are ignored.
pub fn parse_command(id: &[u8]) -> (c: Option<Command>)
    ensures
        c == spec_parse_command(id@),
{
    if id.len() == 3 && id[0] == 116 && id[1] == 49 && id[2] == 53 {
        Some(Command::Select(ThresholdChoice::Min15))
    } else if id.len() == 3 && id[0] == 116 && id[1] == 51 && id[2] == 48 {
        Some(Command::Select(ThresholdChoice::Min30))
    } else if id.len() == 3 && id[0] == 116 && id[1] == 54 && id[2] == 48 {
        Some(Command::Select(ThresholdChoice::Min60))
    } else if id.len() == 16 && id[0] == 116 && id[1] == 111 && id[2] == 103 && id[3] == 103
        && id[4] == 108 && id[5] == 101 && id[6] == 95 && id[7] == 97 && id[8] == 117
        && id[9] == 116 && id[10] == 111 && id[11] == 115 && id[12] == 116 && id[13] == 97
        && id[14] == 114 && id[15] == 116 {
        Some(Command::ToggleAutostart)
    } else if id.len() == 9 && id[0] == 115 && id[1] == 108 && id[2] == 101 && id[3] == 101
        && id[4] == 112 && id[5] == 95 && id[6] == 110 && id[7] == 111 && id[8] == 119 {
        Some(Command::SleepNow)
    } else if id.len() == 4 && id[0] == 113 && id[1] == 117 && id[2] == 105 && id[3] == 116 {
        Some(Command::Quit)
    } else {
        None
    }
}

/// After any selection the store holds exactly the chosen value, the chosen
/// option's checkmark alone is set, and the autostart checkmark is
/// untouched.
pub proof fn lemma_select_establishes_selection(s: ControlState, c: ThresholdChoice)
    ensures
        select_result(s, c).wf(),
        exactly_one_checked(select_result(s, c)),
        select_result(s, c).threshold.minutes == c.spec_minutes(),
        select_result(s, c).t15_checked == (c is Min15),
        select_result(s, c).t30_checked == (c is Min30),
        select_result(s, c).t60_checked == (c is Min60),
        select_result(s, c).autostart_checked == s.autostart_checked,
{
}

/// Selecting the same threshold twice in a row leaves the same state as
/// selecting it once.
pub proof fn lemma_select_idempotent(s: ControlState, c: ThresholdChoice)
    ensures
        select_result(select_result(s, c), c) == select_result(s, c),
{
}

/// Anything that may happen to the control surface's state while the
/// process runs: a menu command, the outcome of an autostart capability
/// call, or a monitor tick (which only reads).
#[derive(Clone, Copy, PartialEq, Eq, Debug)]
pub enum Event {
    /// A menu command was handled.
    Menu(Command),
    /// An autostart capability call came back; the payload says whether it
    /// succeeded.
    AutostartOutcome(bool),
    /// The idle monitor ticked with this probe outcome; a tick never writes.
    MonitorTick(Result<u32, ProbeError>),
}

/// The state after one event.
pub open spec fn step(s: ControlState, e: Event) -> ControlState {
    match e {
        Event::Menu(cmd) => next_state(s, cmd),
        Event::AutostartOutcome(applied) => autostart_outcome_state(s, applied),
        Event::MonitorTick(_) => s,
    }
}

/// The state after a sequence of events, applied in order.
pub open spec fn run_events(s: ControlState, events: Seq<Event>) -> ControlState
    decreases events.len(),
{
    if events.len() == 0 {
        s
    } else {
        run_events(step(s, events[0]), events.skip(1))
    }
}

/// Every single event preserves well-formedness.
pub proof fn lemma_step_preserves_wf(s: ControlState, e: Event)
    requires
        s.wf(),
    ensures
        step(s, e).wf(),
{
}

/// However commands, autostart outcomes and ticks interleave, the state
/// stays well-formed.
pub proof fn lemma_events_preserve_wf(s: ControlState, events: Seq<Event>)
    requires
        s.wf(),
    ensures
        run_events(s, events).wf(),
    decreases events.len(),
{
    if events.len() > 0 {
        lemma_step_preserves_wf(s, events[0]);
        lemma_events_preserve_wf(step(s, events[0]), events.skip(1));
    }
}

/// However selections interleave with ticks, every tick reads a whole
/// threshold from the allowed set — never a torn or partial value.
pub proof fn lemma_ticks_see_allowed_thresholds(s: ControlState, events: Seq<Event>, i: int)
    requires
        s.wf(),
        0 <= i < events.len(),
        events[i] is MonitorTick,
    ensures
        is_allowed_threshold(run_events(s, events.take(i)).threshold.minutes),
{
    lemma_events_preserve_wf(s, events.take(i));
}

} // verus!
