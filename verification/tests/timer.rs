use break_timer::actions::{Action, ChimeEvent, InstantOutOfRange, StatsEvent, TrayTitle};
use break_timer::clock::{calculate_remaining_secs, remaining_secs_until};
use break_timer::commands::{
    add_time, break_timer_start, break_window_close_requested, break_windows_closed, break_timer_step, close_break_windows, create_break_windows,
    end_break, end_session, finish_break, get_config_path, get_session_state, get_setting,
    pause_session, reset_settings, resume_session, session_timer_step, set_setting, should_chime,
    skip_break, snooze_break, start_session, start_session_internal, take_break_now, BreakTick,
};
use break_timer::decimal::{format_i64, format_u64, parse_i64};
use break_timer::defaults::{
    BREAK_NOTIFICATION_AT, DEFAULT_BREAK_DURATION, DEFAULT_INTERVAL_DURATION,
    DEFAULT_LONG_BREAK_AFTER, DEFAULT_LONG_BREAK_DURATION,
};
use break_timer::session::Session;
use break_timer::settings::{get_default_settings, SettingValue};
use break_timer::shortcuts::{
    classify_shortcut, handle_shortcut, shortcut_accelerator, shortcut_command, shortcut_key,
    shortcuts_to_register, ShortcutCommand, ShortcutKey, SHORTCUT_COUNT,
};
use break_timer::state::AppState;
use break_timer::text::{
    break_url, break_window_label, is_break_window_label, navigation_view, reminder_body,
    reminder_title,
};

/// 2023-11-14T22:13:20Z, in nanoseconds since the Unix epoch.
const NOW: i64 = 1_700_000_000_000_000_000;

/// `ms` milliseconds after `NOW`.
fn at(ms: i64) -> i64 {
    NOW + ms * 1_000_000
}

fn active_state() -> AppState {
    let mut st = AppState::new();
    start_session(&mut st, NOW).unwrap();
    st
}

#[test]
fn decimal_text_round_trips() {
    for x in [0i64, 7, -7, 42, 1500000, -1500000, i64::MAX, i64::MIN] {
        assert_eq!(format_i64(x), x.to_string());
        assert_eq!(parse_i64(&format_i64(x)), Some(x));
    }
    assert_eq!(format_u64(u64::MAX), "18446744073709551615");
}

#[test]
fn decimal_parse_follows_i64_from_str() {
    assert_eq!(parse_i64("+25"), Some(25));
    assert_eq!(parse_i64("-0"), Some(0));
    assert_eq!(parse_i64("007"), Some(7));
    assert_eq!(parse_i64(""), None);
    assert_eq!(parse_i64("-"), None);
    assert_eq!(parse_i64("+"), None);
    assert_eq!(parse_i64("12a"), None);
    assert_eq!(parse_i64(" 1"), None);
    assert_eq!(parse_i64("9223372036854775807"), Some(i64::MAX));
    assert_eq!(parse_i64("9223372036854775808"), None);
    assert_eq!(parse_i64("-9223372036854775808"), Some(i64::MIN));
    assert_eq!(parse_i64("-9223372036854775809"), None);
    assert_eq!(parse_i64("99999999999999999999999999x"), None);
    for s in ["1", "-15", "+3", "x", "", "123456789012345678901"] {
        assert_eq!(parse_i64(s), s.parse::<i64>().ok());
    }
}

#[test]
fn default_settings_hold_the_documented_values() {
    let st = AppState::new();
    assert_eq!(st.get_setting_u64("session_duration"), DEFAULT_INTERVAL_DURATION);
    assert_eq!(DEFAULT_INTERVAL_DURATION, 1500);
    assert_eq!(st.get_setting_u64("break_duration"), DEFAULT_BREAK_DURATION);
    assert_eq!(DEFAULT_BREAK_DURATION, 30);
    assert_eq!(st.get_setting_u64("pre_break_reminder_at"), BREAK_NOTIFICATION_AT);
    assert_eq!(BREAK_NOTIFICATION_AT, 60);
    assert_eq!(st.get_setting_u64("long_break_duration"), DEFAULT_LONG_BREAK_DURATION);
    assert_eq!(DEFAULT_LONG_BREAK_DURATION, 120);
    assert_eq!(st.get_setting_u64("long_break_after"), DEFAULT_LONG_BREAK_AFTER);
    assert_eq!(DEFAULT_LONG_BREAK_AFTER, 2);
    assert!(st.get_setting_bool("launch_at_login"));
    assert!(!st.get_setting_bool("start_timer"));
    assert!(st.get_setting_bool("long_break_enabled"));
    assert!(!st.get_setting_bool("chime_enabled"));
    assert!(st.get_setting_bool("chime_on_break_end"));
    assert!(!st.get_setting_bool("chime_on_reminder"));
    assert!(st.get_setting_bool("shortcuts_enabled"));
    assert_eq!(st.get_setting_string("toolbar_timer_style"), "remaining");
    assert_eq!(get_default_settings().to_pairs().len(), 18);
    assert!(st.get_session() == Session::default());
    assert_eq!(st.get_short_break_count(), 0);
    assert!(!st.is_on_break());
    assert!(!st.is_session_active());
}

#[test]
fn settings_read_back_what_was_written() {
    let mut st = AppState::new();
    st.set_setting("session_duration", SettingValue::UInt(900));
    assert_eq!(st.get_setting_u64("session_duration"), 900);
    st.set_setting("custom", SettingValue::Str("hello".to_string()));
    assert_eq!(st.get_setting_string("custom"), "hello");
    assert_eq!(st.get_setting("custom"), Some(SettingValue::Str("hello".to_string())));
    assert_eq!(st.get_setting("missing"), None);
    assert_eq!(get_setting(&st, "missing"), SettingValue::Null);
    // typed reads fall back on a value of another kind
    st.set_setting("chime_enabled", SettingValue::UInt(1));
    assert!(!st.get_setting_bool("chime_enabled"));
    assert_eq!(st.get_setting_u64("launch_at_login"), 0);
    assert_eq!(st.get_setting_string("session_duration"), "");
    assert_eq!(st.get_setting_u64("nothing"), 0);
    st.set_setting("list", SettingValue::Json("[1,2]".to_string()));
    assert_eq!(get_setting(&st, "list"), SettingValue::Json("[1,2]".to_string()));
    // no key twice
    let pairs = st.settings.to_pairs();
    assert_eq!(pairs.len(), 20);
}

#[test]
fn loaded_settings_override_defaults() {
    let mut st = AppState::new();
    st.set_setting("break_duration", SettingValue::UInt(5));
    st.load_settings(vec![
        ("session_duration".to_string(), SettingValue::UInt(60)),
        ("extra".to_string(), SettingValue::Bool(true)),
        ("session_duration".to_string(), SettingValue::UInt(90)),
    ]);
    assert_eq!(st.get_setting_u64("session_duration"), 90);
    assert!(st.get_setting_bool("extra"));
    // names not loaded come from the defaults, not from what was set before
    assert_eq!(st.get_setting_u64("break_duration"), 30);
    let acts = reset_settings(&mut st);
    assert_eq!(acts, vec![Action::SaveSettings]);
    assert_eq!(st.get_setting_u64("session_duration"), 1500);
    assert_eq!(st.get_setting("extra"), None);
}

#[test]
fn start_session_sets_the_end_time() {
    let mut st = AppState::new();
    let acts = start_session(&mut st, NOW).unwrap();
    assert_eq!(
        acts,
        vec![
            Action::AbortSessionTimer,
            Action::UpdateTrayMenu { session_active: true, paused: false, on_break: false },
            Action::StartSessionTimer,
        ]
    );
    assert_eq!(st.session.end_time.as_deref(), Some("2023-11-14T22:38:20+00:00"));
    assert_eq!(st.session.start_time.as_deref(), Some("2023-11-14T22:13:20+00:00"));
    assert!(st.is_session_active());
    assert!(!st.timer_cancelled);
    assert_eq!(calculate_remaining_secs("2023-11-14T22:38:20+00:00", NOW), 1500);
    let resp = get_session_state(&st, at(500));
    assert!(resp.is_active);
    assert!(!resp.is_paused);
    assert_eq!(resp.remaining_secs, 1499);
    assert_eq!(resp.end_time.as_deref(), Some("2023-11-14T22:38:20+00:00"));
}

#[test]
fn chimes_follow_the_settings() {
    let mut st = AppState::new();
    assert!(!should_chime(&st.settings, ChimeEvent::SessionStart));
    st.set_setting("chime_enabled", SettingValue::Bool(true));
    assert!(should_chime(&st.settings, ChimeEvent::SessionStart));
    assert!(!should_chime(&st.settings, ChimeEvent::Reminder));
    let acts = start_session(&mut st, NOW).unwrap();
    assert_eq!(acts[0], Action::PlayChime(ChimeEvent::SessionStart));
}

#[test]
fn pause_then_resume_keeps_the_time_left() {
    let mut st = active_state();
    let acts = pause_session(&mut st, at(100_000)).unwrap();
    assert_eq!(
        acts,
        vec![
            Action::AbortSessionTimer,
            Action::UpdateTrayMenu { session_active: false, paused: true, on_break: false },
            Action::SetTrayTitle(TrayTitle::SessionPaused),
        ]
    );
    assert!(st.session.paused);
    assert_eq!(st.session.remaining_time.as_deref(), Some("1400000"));
    assert_eq!(st.session.paused_at.as_deref(), Some("2023-11-14T22:15:00+00:00"));
    assert!(!st.is_session_active());
    // time stands still while paused
    let resp = get_session_state(&st, at(999_000));
    assert_eq!(resp.remaining_secs, 1400);
    assert!(resp.is_paused && !resp.is_active);
    resume_session(&mut st, at(1_000_000)).unwrap();
    assert!(!st.session.paused);
    assert_eq!(st.session.remaining_time, None);
    assert_eq!(st.session.paused_at, None);
    assert_eq!(st.session.start_time.as_deref(), Some("2023-11-14T22:13:20+00:00"));
    assert_eq!(calculate_remaining_secs(st.session.end_time.as_deref().unwrap(), at(1_000_000)), 1400);
}

#[test]
fn resume_does_nothing_unless_paused() {
    let mut st = active_state();
    let before = st.get_session();
    assert_eq!(resume_session(&mut st, at(5)).unwrap(), vec![]);
    assert!(st.get_session() == before);
}

#[test]
fn resume_with_unreadable_remaining_time_uses_the_session_length() {
    let mut st = active_state();
    pause_session(&mut st, NOW).unwrap();
    st.session.remaining_time = Some("abc".to_string());
    start_session_internal(&mut st, None, true, NOW).unwrap();
    assert_eq!(calculate_remaining_secs(st.session.end_time.as_deref().unwrap(), NOW), 1500);
}

#[test]
fn add_time_extends_a_running_session_only() {
    let mut st = active_state();
    add_time(&mut st, 60, NOW).unwrap();
    assert_eq!(calculate_remaining_secs(st.session.end_time.as_deref().unwrap(), NOW), 1560);
    pause_session(&mut st, NOW).unwrap();
    let before = st.get_session();
    add_time(&mut st, 60, NOW).unwrap();
    assert!(st.get_session() == before);
    let mut idle = AppState::new();
    add_time(&mut idle, 60, NOW).unwrap();
    assert_eq!(idle.session.end_time, None);
}

#[test]
fn add_time_never_ends_before_now() {
    let mut st = active_state();
    // the session ended long ago
    add_time(&mut st, 10, at(10_000_000)).unwrap();
    assert_eq!(calculate_remaining_secs(st.session.end_time.as_deref().unwrap(), at(10_000_000)), 0);
}

#[test]
fn raising_the_session_length_extends_the_running_session() {
    let mut st = active_state();
    let acts = set_setting(&mut st, "session_duration", SettingValue::UInt(1800), NOW);
    assert_eq!(acts, vec![Action::SaveSettings]);
    assert_eq!(calculate_remaining_secs(st.session.end_time.as_deref().unwrap(), NOW), 1800);
    set_setting(&mut st, "session_duration", SettingValue::UInt(600), NOW);
    assert_eq!(calculate_remaining_secs(st.session.end_time.as_deref().unwrap(), NOW), 1800);
    assert_eq!(st.get_setting_u64("session_duration"), 600);
}

#[test]
fn special_settings_ask_for_their_side_effects() {
    let mut st = AppState::new();
    assert_eq!(
        set_setting(&mut st, "launch_at_login", SettingValue::Bool(false), NOW),
        vec![Action::SetAutostart(false), Action::SaveSettings]
    );
    assert_eq!(
        set_setting(&mut st, "launch_at_login", SettingValue::UInt(3), NOW),
        vec![Action::SaveSettings]
    );
    assert_eq!(
        set_setting(&mut st, "shortcut_skip_enabled", SettingValue::Bool(false), NOW),
        vec![Action::ReregisterShortcuts, Action::SaveSettings]
    );
    assert!(!st.get_setting_bool("shortcut_skip_enabled"));
}

#[test]
fn end_session_clears_everything() {
    let mut st = active_state();
    let acts = end_session(&mut st);
    assert_eq!(
        acts,
        vec![
            Action::Stats(StatsEvent::FlushFocus),
            Action::AbortSessionTimer,
            Action::UpdateTrayMenu { session_active: false, paused: false, on_break: false },
            Action::ClearTrayTitle,
        ]
    );
    assert!(st.get_session() == Session::default());
    assert!(st.timer_cancelled);
    let resp = get_session_state(&st, NOW);
    assert!(!resp.is_active && !resp.is_paused);
    assert_eq!(resp.remaining_secs, 0);
}

#[test]
fn long_break_after_the_configured_short_breaks() {
    let mut st = active_state();
    let acts = create_break_windows(&mut st);
    assert_eq!(acts[2], Action::OpenBreakWindows { long_break: false, duration: 30 });
    assert_eq!(acts[3], Action::StartBreakTimer(30));
    assert_eq!(st.get_short_break_count(), 1);
    assert!(st.is_on_break());
    assert!(st.get_session() == Session::default());
    end_break(&mut st, NOW).unwrap();
    let acts = create_break_windows(&mut st);
    assert_eq!(acts[2], Action::OpenBreakWindows { long_break: false, duration: 30 });
    assert_eq!(st.get_short_break_count(), 2);
    end_break(&mut st, NOW).unwrap();
    let acts = create_break_windows(&mut st);
    assert_eq!(acts[2], Action::OpenBreakWindows { long_break: true, duration: 120 });
    assert_eq!(acts[3], Action::StartBreakTimer(120));
    assert_eq!(st.get_short_break_count(), 0);
    st.set_setting("long_break_enabled", SettingValue::Bool(false));
    create_break_windows(&mut st);
    create_break_windows(&mut st);
    create_break_windows(&mut st);
    assert_eq!(st.get_short_break_count(), 3);
}

#[test]
fn ending_a_break_starts_a_new_session() {
    let mut st = active_state();
    take_break_now(&mut st);
    assert!(st.is_on_break());
    let acts = end_break(&mut st, NOW).unwrap();
    assert_eq!(
        acts,
        vec![
            Action::Stats(StatsEvent::BreakCompleted),
            Action::AbortBreakTimer,
            Action::CloseBreakWindows,
            Action::AbortSessionTimer,
            Action::UpdateTrayMenu { session_active: true, paused: false, on_break: false },
            Action::StartSessionTimer,
        ]
    );
    assert!(!st.is_on_break());
    assert!(st.break_cancelled);
    // the windows are being closed until the host says they are
    assert!(st.is_break_closing());
    break_windows_closed(&mut st);
    assert!(!st.is_break_closing());
    assert!(st.is_session_active());
}

#[test]
fn skip_and_snooze() {
    let mut st = active_state();
    take_break_now(&mut st);
    let acts = skip_break(&mut st, NOW).unwrap();
    assert_eq!(acts[0], Action::Stats(StatsEvent::BreakSkipped));
    assert_eq!(calculate_remaining_secs(st.session.end_time.as_deref().unwrap(), NOW), 1500);
    take_break_now(&mut st);
    snooze_break(&mut st, NOW).unwrap();
    assert_eq!(calculate_remaining_secs(st.session.end_time.as_deref().unwrap(), NOW), 300);
    assert!(!st.is_on_break());
}

#[test]
fn take_break_now_stops_the_session() {
    let mut st = active_state();
    let acts = take_break_now(&mut st);
    assert_eq!(acts[0], Action::AbortSessionTimer);
    assert_eq!(acts[1], Action::UpdateTrayMenu { session_active: false, paused: false, on_break: true });
    assert_eq!(acts[2], Action::SetTrayTitle(TrayTitle::OnBreak));
    assert!(st.timer_cancelled);
    assert!(st.is_on_break());
    assert!(!st.break_cancelled);
}

#[test]
fn starting_during_a_break_closes_it() {
    let mut st = active_state();
    take_break_now(&mut st);
    let acts = start_session_internal(&mut st, Some(10), false, NOW).unwrap();
    assert_eq!(acts[0], Action::AbortBreakTimer);
    assert_eq!(acts[1], Action::CloseBreakWindows);
    assert!(!st.is_on_break());
    assert_eq!(calculate_remaining_secs(st.session.end_time.as_deref().unwrap(), NOW), 10);
}

#[test]
fn close_break_windows_command() {
    let mut st = active_state();
    take_break_now(&mut st);
    let acts = close_break_windows(&mut st);
    assert_eq!(acts, vec![Action::AbortBreakTimer, Action::CloseBreakWindows]);
    assert!(!st.is_on_break());
    assert!(st.break_cancelled);
}

#[test]
fn session_countdown_reminds_then_breaks() {
    let mut st = active_state();
    let (acts, go_on) = session_timer_step(&mut st, at(1_000));
    assert!(go_on);
    assert_eq!(acts, vec![Action::Stats(StatsEvent::FocusTick), Action::ShowRemaining(1499)]);
    let (acts, go_on) = session_timer_step(&mut st, at(1_440_000));
    assert!(go_on);
    assert_eq!(
        acts,
        vec![
            Action::Stats(StatsEvent::FocusTick),
            Action::ShowRemaining(60),
            Action::PreBreakReminder(60),
        ]
    );
    let (acts, go_on) = session_timer_step(&mut st, at(1_500_000));
    assert!(!go_on);
    assert_eq!(acts[1], Action::ShowRemaining(0));
    assert_eq!(acts[3], Action::SetTrayTitle(TrayTitle::OnBreak));
    assert!(st.is_on_break());
    assert_eq!(st.get_short_break_count(), 1);
}

#[test]
fn cancelled_countdowns_stop() {
    let mut st = active_state();
    st.cancel_timer();
    let (acts, go_on) = session_timer_step(&mut st, NOW);
    assert!(acts.is_empty() && !go_on);
    st.reset_timer_cancelled();
    end_session(&mut st);
    st.reset_timer_cancelled();
    let (acts, go_on) = session_timer_step(&mut st, NOW);
    assert_eq!(acts, vec![Action::Stats(StatsEvent::FocusTick)]);
    assert!(!go_on);
}

#[test]
fn break_countdown_counts_to_zero() {
    let mut st = active_state();
    take_break_now(&mut st);
    let mut left = break_timer_start(2);
    assert_eq!(left, 2);
    assert_eq!(break_timer_step(&st, left), BreakTick::Tick(1));
    left = 1;
    assert_eq!(break_timer_step(&st, left), BreakTick::Over(0));
    let acts = finish_break(&mut st, NOW).unwrap();
    assert_eq!(acts[0], Action::Stats(StatsEvent::BreakCompleted));
    assert!(st.is_session_active());
    // a break already left does not end again
    assert_eq!(finish_break(&mut st, NOW).unwrap(), vec![]);
    st.cancel_break_timer();
    assert_eq!(break_timer_step(&st, 5), BreakTick::Cancelled);
    assert_eq!(break_timer_start(u64::MAX), -1);
}

#[test]
fn instants_out_of_range_change_nothing() {
    let mut st = AppState::new();
    assert_eq!(start_session(&mut st, i64::MAX), Err(InstantOutOfRange));
    assert!(st.get_session() == Session::default());
    let mut st = active_state();
    st.set_setting("session_duration", SettingValue::UInt(u64::MAX));
    assert_eq!(skip_break(&mut st, NOW), Err(InstantOutOfRange));
    assert!(st.is_session_active());
    assert_eq!(add_time(&mut st, u64::MAX, NOW), Err(InstantOutOfRange));
}

#[test]
fn remaining_seconds_truncate_toward_zero() {
    assert_eq!(remaining_secs_until(at(1999), NOW), 1);
    assert_eq!(remaining_secs_until(at(-1999), NOW), -1);
    assert_eq!(remaining_secs_until(NOW + 999_999_999, NOW), 0);
    assert_eq!(remaining_secs_until(i64::MAX, i64::MIN), 18446744073);
    assert_eq!(calculate_remaining_secs("not a time", NOW), 0);
    assert_eq!(calculate_remaining_secs("2023-11-14T23:13:20+01:00", NOW), 0);
}

#[test]
fn config_path() {
    let mut st = AppState::new();
    assert_eq!(get_config_path(&st), Err("Config path not initialized".to_string()));
    st.settings_path = Some("/tmp/settings.json".to_string());
    assert_eq!(get_config_path(&st), Ok("/tmp/settings.json".to_string()));
    assert_eq!(st.get_settings_path().as_deref(), Some("/tmp/settings.json"));
}

#[test]
fn shortcut_keys_are_recognised() {
    assert_eq!(shortcut_key("shift+super+KeyB"), Some(ShortcutKey::Break));
    assert_eq!(shortcut_key("shift+super+keyb"), Some(ShortcutKey::Break));
    assert_eq!(shortcut_key("Shift+Command+p"), Some(ShortcutKey::Pause));
    assert_eq!(shortcut_key("shift+super+KeyS"), Some(ShortcutKey::Skip));
    assert_eq!(shortcut_key("Shift+Command+N"), Some(ShortcutKey::Start));
    assert_eq!(shortcut_key("Shift+Command+X"), None);
    assert_eq!(classify_shortcut("shift+super+keyb"), None);
    assert_eq!(classify_shortcut("+B"), Some(ShortcutKey::Break));
}

#[test]
fn shortcuts_follow_their_settings() {
    let mut st = AppState::new();
    assert!(shortcuts_to_register(&st).is_empty());
    st.set_setting("shortcut_pause_enabled", SettingValue::Bool(true));
    st.set_setting("shortcut_skip_enabled", SettingValue::Bool(true));
    assert_eq!(shortcuts_to_register(&st), vec![1, 3]);
    assert_eq!(shortcut_accelerator(1), "CommandOrControl+Shift+P");
    st.set_setting("shortcuts_enabled", SettingValue::Bool(false));
    assert!(shortcuts_to_register(&st).is_empty());
    assert_eq!(SHORTCUT_COUNT, 4);
}

#[test]
fn shortcut_commands_follow_the_state() {
    let mut st = AppState::new();
    assert_eq!(shortcut_command(&st, ShortcutKey::Start), Some(ShortcutCommand::StartSession));
    assert_eq!(shortcut_command(&st, ShortcutKey::Break), None);
    assert_eq!(shortcut_command(&st, ShortcutKey::Pause), None);
    assert_eq!(shortcut_command(&st, ShortcutKey::Skip), None);
    handle_shortcut(&mut st, "shift+super+KeyN", NOW).unwrap();
    assert!(st.is_session_active());
    assert_eq!(shortcut_command(&st, ShortcutKey::Start), Some(ShortcutCommand::EndSession));
    assert_eq!(shortcut_command(&st, ShortcutKey::Pause), Some(ShortcutCommand::PauseSession));
    handle_shortcut(&mut st, "shift+super+KeyP", NOW).unwrap();
    assert!(st.session.paused);
    assert_eq!(shortcut_command(&st, ShortcutKey::Pause), Some(ShortcutCommand::ResumeSession));
    handle_shortcut(&mut st, "shift+super+KeyP", NOW).unwrap();
    assert!(st.is_session_active());
    handle_shortcut(&mut st, "shift+super+KeyB", NOW).unwrap();
    assert!(st.is_on_break());
    assert_eq!(shortcut_command(&st, ShortcutKey::Skip), Some(ShortcutCommand::SkipBreak));
    assert_eq!(shortcut_command(&st, ShortcutKey::Break), Some(ShortcutCommand::EndBreak));
    handle_shortcut(&mut st, "shift+super+KeyS", NOW).unwrap();
    assert!(!st.is_on_break() && st.is_session_active());
    handle_shortcut(&mut st, "shift+super+KeyN", NOW).unwrap();
    assert!(!st.is_session_active());
    st.set_setting("shortcuts_enabled", SettingValue::Bool(false));
    assert_eq!(handle_shortcut(&mut st, "shift+super+KeyN", NOW).unwrap(), vec![]);
    assert!(!st.is_session_active());
}

#[test]
fn texts() {
    assert_eq!(break_url(false, 30), "index.html?break&duration=30");
    assert_eq!(break_url(true, 120), "index.html?long-break&duration=120");
    assert_eq!(break_window_label(0), "break_0");
    assert!(is_break_window_label(&break_window_label(3)));
    assert!(!is_break_window_label("main"));
    assert_eq!(reminder_title(60), "\u{1F440} 1 min until break");
    assert_eq!(reminder_title(150), "\u{1F440} 2 min until break");
    assert_eq!(reminder_title(30), "\u{1F440} Break starting soon");
    assert_eq!(reminder_body(), "Your eyes need a rest");
}

#[test]
fn state_flags() {
    let mut st = AppState::default();
    st.set_on_break(true);
    assert!(st.is_on_break());
    st.set_break_closing(true);
    assert!(st.is_break_closing());
    st.cancel_break_timer();
    assert!(st.break_cancelled);
    st.reset_break_cancelled();
    assert!(!st.break_cancelled);
    st.increment_short_break_count();
    st.increment_short_break_count();
    assert_eq!(st.get_short_break_count(), 2);
    st.reset_short_break_count();
    assert_eq!(st.get_short_break_count(), 0);
    st.update_session(|mut s| {
        s.end_time = Some("2023-11-14T22:38:20+00:00".to_string());
        s
    });
    assert!(st.is_session_active());
    st.reset_session();
    assert!(!st.is_session_active());
    st.reset_to_defaults();
    assert_eq!(st.get_setting_u64("session_duration"), 1500);
}

#[test]
fn closing_a_break_window_from_outside_skips_the_break() {
    let mut st = active_state();
    assert_eq!(break_window_close_requested(&mut st, NOW).unwrap(), vec![]);
    take_break_now(&mut st);
    st.set_break_closing(true);
    assert_eq!(break_window_close_requested(&mut st, NOW).unwrap(), vec![]);
    assert!(st.is_on_break());
    st.set_break_closing(false);
    let acts = break_window_close_requested(&mut st, NOW).unwrap();
    assert_eq!(acts[0], Action::Stats(StatsEvent::BreakSkipped));
    assert!(!st.is_on_break());
    assert!(st.is_session_active());
}

#[test]
fn navigation_views() {
    assert_eq!(navigation_view(true), "dashboard");
    assert_eq!(navigation_view(false), "settings");
}

#[test]
fn pausing_twice_keeps_the_stored_time() {
    let mut st = active_state();
    pause_session(&mut st, at(100_000)).unwrap();
    let first = st.get_session();
    pause_session(&mut st, at(900_000)).unwrap();
    assert!(st.get_session() == first);
    assert_eq!(st.session.remaining_time.as_deref(), Some("1400000"));
    assert_eq!(get_session_state(&st, at(2_000_000)).remaining_secs, 1400);
}

#[test]
fn settings_file_text_loads_over_the_defaults() {
    let mut st = AppState::new();
    let text = "{\"session_duration\": 900, \"chime_enabled\": true, \"toolbar_timer_style\": \"elapsed\", \"offset\": -5, \"list\": [1, 2]}";
    assert!(st.load_settings_text(text));
    assert_eq!(st.get_setting_u64("session_duration"), 900);
    assert!(st.get_setting_bool("chime_enabled"));
    assert_eq!(st.get_setting_string("toolbar_timer_style"), "elapsed");
    assert_eq!(st.get_setting("offset"), Some(SettingValue::Json("-5".to_string())));
    assert_eq!(st.get_setting("list"), Some(SettingValue::Json("[1,2]".to_string())));
    assert_eq!(st.get_setting_u64("break_duration"), 30);
    let before = st.settings.to_pairs();
    assert!(!st.load_settings_text("not json"));
    assert!(!st.load_settings_text("[1, 2]"));
    assert_eq!(st.settings.to_pairs(), before);
}

#[test]
fn settings_file_text_written_and_read_back() {
    let mut st = AppState::new();
    st.set_setting("session_duration", SettingValue::UInt(600));
    st.set_setting("list", SettingValue::Json("[1,2]".to_string()));
    let text = st.settings_json();
    assert!(text.contains("\"session_duration\": 600"));
    let mut other = AppState::new();
    assert!(other.load_settings_text(&text));
    assert_eq!(other.get_setting_u64("session_duration"), 600);
    assert_eq!(other.get_setting("list"), Some(SettingValue::Json("[1,2]".to_string())));
    assert_eq!(other.settings.to_pairs().len(), st.settings.to_pairs().len());
}

#[test]
fn instants_keep_their_nanoseconds() {
    let mut st = AppState::new();
    start_session(&mut st, NOW + 123_456_789).unwrap();
    assert_eq!(st.session.start_time.as_deref(), Some("2023-11-14T22:13:20.123456789+00:00"));
    assert_eq!(st.session.end_time.as_deref(), Some("2023-11-14T22:38:20.123456789+00:00"));
    assert_eq!(calculate_remaining_secs(st.session.end_time.as_deref().unwrap(), NOW + 123_456_789), 1500);
    let mut st = AppState::new();
    start_session(&mut st, NOW + 5_000_000).unwrap();
    assert_eq!(st.session.start_time.as_deref(), Some("2023-11-14T22:13:20.005+00:00"));
}

#[test]
fn sessions_last_their_configured_length() {
    for now in [i64::MIN + 1_000_000_000_000, -1, 0, NOW + 7, i64::MAX - 1_600_000_000_000] {
        let mut st = AppState::new();
        start_session(&mut st, now).unwrap();
        assert_eq!(calculate_remaining_secs(st.session.end_time.as_deref().unwrap(), now), 1500);
    }
}

#[test]
fn saved_settings_load_back_as_they_were() {
    let mut st = AppState::new();
    st.set_setting("session_duration", SettingValue::UInt(u64::MAX));
    st.set_setting("toolbar_timer_style", SettingValue::Str("quote \" and \u{1F440}".to_string()));
    st.set_setting("extra", SettingValue::Null);
    let text = st.settings_json();
    let mut other = AppState::new();
    other.set_setting("stray", SettingValue::Bool(true));
    assert!(other.load_settings_text(&text));
    let mut a = st.settings.to_pairs();
    let mut b = other.settings.to_pairs();
    a.sort_by(|x, y| x.0.cmp(&y.0));
    b.sort_by(|x, y| x.0.cmp(&y.0));
    assert_eq!(a, b);
}
