use idle_sleep::control::{
    apply_autostart_outcome, handle_command, initial_state, parse_command, Action,
    AutostartApplyError, AutostartQueryError, Command, ControlState,
};
use idle_sleep::monitor::{
    idle_from_probe, idle_seconds_from_ticks, monitor_tick, tick_decision, ProbeError,
};
use idle_sleep::threshold::{ThresholdChoice, ThresholdStore};

fn fresh_state() -> ControlState {
    initial_state(Ok(false))
}

#[test]
fn store_starts_at_default() {
    let store = ThresholdStore::new();
    assert_eq!(store.get(), 30);
    let by_default = ThresholdStore::default();
    assert_eq!(by_default.get(), 30);
}

#[test]
fn store_set_replaces_value() {
    let mut store = ThresholdStore::new();
    store.set(15);
    assert_eq!(store.get(), 15);
    store.set(60);
    assert_eq!(store.get(), 60);
}

#[test]
fn select_sets_store_and_exactly_one_checkmark() {
    for (choice, minutes) in [
        (ThresholdChoice::Min15, 15),
        (ThresholdChoice::Min30, 30),
        (ThresholdChoice::Min60, 60),
    ] {
        let mut s = fresh_state();
        let action = handle_command(&mut s, Command::Select(choice));
        assert_eq!(action, Action::Nothing);
        assert_eq!(s.threshold.get(), minutes);
        let marks = [s.t15_checked, s.t30_checked, s.t60_checked];
        assert_eq!(marks.iter().filter(|&&m| m).count(), 1);
        assert_eq!(s.t15_checked, minutes == 15);
        assert_eq!(s.t30_checked, minutes == 30);
        assert_eq!(s.t60_checked, minutes == 60);
    }
}

#[test]
fn select_twice_is_idempotent() {
    for choice in [
        ThresholdChoice::Min15,
        ThresholdChoice::Min30,
        ThresholdChoice::Min60,
    ] {
        let mut once = fresh_state();
        handle_command(&mut once, Command::Select(choice));
        let mut twice = fresh_state();
        handle_command(&mut twice, Command::Select(choice));
        handle_command(&mut twice, Command::Select(choice));
        assert_eq!(once, twice);
    }
}

#[test]
fn select_15_then_60_leaves_only_60_checked() {
    let mut s = fresh_state();
    handle_command(&mut s, Command::Select(ThresholdChoice::Min15));
    handle_command(&mut s, Command::Select(ThresholdChoice::Min60));
    assert_eq!(s.threshold.get(), 60);
    assert!(!s.t15_checked);
    assert!(!s.t30_checked);
    assert!(s.t60_checked);
}

#[test]
fn tick_below_threshold_never_sleeps() {
    for (minutes, secs) in [(15u32, 900u32), (30, 1800), (60, 3600)] {
        let mut store = ThresholdStore::new();
        store.set(minutes);
        assert_eq!(monitor_tick(&store, Ok(0)), Action::Nothing);
        assert_eq!(monitor_tick(&store, Ok(secs - 1)), Action::Nothing);
        assert!(!tick_decision(secs - 1, minutes));
    }
}

#[test]
fn tick_at_or_above_threshold_sleeps_once() {
    for (minutes, secs) in [(15u32, 900u32), (30, 1800), (60, 3600)] {
        let mut store = ThresholdStore::new();
        store.set(minutes);
        assert_eq!(monitor_tick(&store, Ok(secs)), Action::TriggerSleep);
        assert_eq!(monitor_tick(&store, Ok(secs + 1)), Action::TriggerSleep);
        assert_eq!(monitor_tick(&store, Ok(u32::MAX)), Action::TriggerSleep);
        assert!(tick_decision(secs, minutes));
    }
}

#[test]
fn default_threshold_sleeps_at_1800_not_1799() {
    let store = ThresholdStore::new();
    assert_eq!(monitor_tick(&store, Ok(1799)), Action::Nothing);
    assert_eq!(monitor_tick(&store, Ok(1800)), Action::TriggerSleep);
}

#[test]
fn probe_error_counts_as_zero_idle() {
    assert_eq!(idle_from_probe(Err(ProbeError)), 0);
    assert_eq!(idle_from_probe(Ok(77)), 77);
    let store = ThresholdStore::new();
    assert_eq!(monitor_tick(&store, Err(ProbeError)), Action::Nothing);
}

#[test]
fn idle_seconds_from_plain_tick_difference() {
    assert_eq!(idle_seconds_from_ticks(5000, 2000), 3);
    assert_eq!(idle_seconds_from_ticks(2000, 2000), 0);
    assert_eq!(idle_seconds_from_ticks(2999, 2000), 0);
}

#[test]
fn idle_seconds_when_tick_counter_wrapped() {
    // The counter wrapped: 0x1000 ms before the wrap plus 1000 ms after.
    assert_eq!(idle_seconds_from_ticks(1000, 0xFFFF_F000), 5);
    // Largest possible modular difference.
    assert_eq!(idle_seconds_from_ticks(u32::MAX - 1, u32::MAX), 4294967);
}

#[test]
fn sleep_now_triggers_regardless_of_idle_time() {
    // Even a machine idle for zero seconds sleeps on request: the command
    // bypasses the threshold entirely.
    let mut s = fresh_state();
    let before = s;
    let action = handle_command(&mut s, Command::SleepNow);
    assert_eq!(action, Action::TriggerSleep);
    assert_eq!(s, before);
}

#[test]
fn quit_requests_exit() {
    let mut s = fresh_state();
    let before = s;
    assert_eq!(handle_command(&mut s, Command::Quit), Action::Exit);
    assert_eq!(s, before);
}

#[test]
fn autostart_query_failure_defaults_to_unchecked() {
    let s = initial_state(Err(AutostartQueryError));
    assert!(!s.autostart_checked);
    assert_eq!(s.threshold.get(), 30);
    assert!(s.t30_checked);
}

#[test]
fn autostart_query_answer_seeds_checkmark() {
    assert!(initial_state(Ok(true)).autostart_checked);
    assert!(!initial_state(Ok(false)).autostart_checked);
}

#[test]
fn toggle_asks_to_enable_when_unchecked() {
    let mut s = initial_state(Ok(false));
    assert_eq!(
        handle_command(&mut s, Command::ToggleAutostart),
        Action::EnableAutostart
    );
    // The checkmark only moves once the capability call has succeeded.
    assert!(!s.autostart_checked);
}

#[test]
fn toggle_asks_to_disable_when_checked() {
    let mut s = initial_state(Ok(true));
    assert_eq!(
        handle_command(&mut s, Command::ToggleAutostart),
        Action::DisableAutostart
    );
    assert!(s.autostart_checked);
}

#[test]
fn autostart_outcome_flips_checkmark_on_success_only() {
    let mut s = initial_state(Ok(false));
    handle_command(&mut s, Command::ToggleAutostart);
    apply_autostart_outcome(&mut s, Ok(()));
    assert!(s.autostart_checked);
    apply_autostart_outcome(&mut s, Err(AutostartApplyError));
    assert!(s.autostart_checked);
    apply_autostart_outcome(&mut s, Ok(()));
    assert!(!s.autostart_checked);
}

#[test]
fn parse_recognises_every_menu_identifier() {
    assert_eq!(
        parse_command(b"t15"),
        Some(Command::Select(ThresholdChoice::Min15))
    );
    assert_eq!(
        parse_command(b"t30"),
        Some(Command::Select(ThresholdChoice::Min30))
    );
    assert_eq!(
        parse_command(b"t60"),
        Some(Command::Select(ThresholdChoice::Min60))
    );
    assert_eq!(
        parse_command(b"toggle_autostart"),
        Some(Command::ToggleAutostart)
    );
    assert_eq!(parse_command(b"sleep_now"), Some(Command::SleepNow));
    assert_eq!(parse_command(b"quit"), Some(Command::Quit));
}

#[test]
fn parse_rejects_unknown_identifiers() {
    assert_eq!(parse_command(b""), None);
    assert_eq!(parse_command(b"t45"), None);
    assert_eq!(parse_command(b"t1"), None);
    assert_eq!(parse_command(b"t155"), None);
    assert_eq!(parse_command(b"sleep_noW"), None);
    assert_eq!(parse_command(b"toggle_autostar"), None);
    assert_eq!(parse_command(b"exit"), None);
}

#[test]
fn choice_minute_values() {
    assert_eq!(ThresholdChoice::Min15.minutes(), 15);
    assert_eq!(ThresholdChoice::Min30.minutes(), 30);
    assert_eq!(ThresholdChoice::Min60.minutes(), 60);
}

#[test]
fn interleaved_selects_and_ticks_only_observe_enumerated_values() {
    // Repeated writes interleaved with reads: every observed threshold is one
    // of the enumerated values, and every tick decision matches it.
    let choices = [
        ThresholdChoice::Min15,
        ThresholdChoice::Min60,
        ThresholdChoice::Min30,
        ThresholdChoice::Min15,
        ThresholdChoice::Min60,
    ];
    let mut s = fresh_state();
    for (round, choice) in choices.iter().enumerate() {
        handle_command(&mut s, Command::Select(*choice));
        let observed = s.threshold.get();
        assert!(observed == 15 || observed == 30 || observed == 60);
        let idle = (round as u32) * 1000;
        let tick = monitor_tick(&s.threshold, Ok(idle));
        assert_eq!(tick == Action::TriggerSleep, idle >= observed * 60);
    }
}
