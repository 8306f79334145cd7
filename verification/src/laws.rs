//! Properties of the timer that span several of its operations.

use vstd::prelude::*;
use crate::actions::{Action, ChimeEvent, StatsEvent};
use crate::clock::{remaining_secs, whole_secs};
use crate::commands::{
    break_actions, break_end_actions, break_started, can_pause, can_start, chime_actions, chime_wanted,
    closed_break, end_actions, ended, instant_text, start_actions, tick_actions,
    long_break_due, next_break_count, paused_remaining_ms, paused_state, reported_remaining,
    session_length_ms, setting_actions, setting_set, started, time_added,
};
use crate::decimal::{int_text, lemma_decimal_round_trip};
use crate::session::{empty_session, session_active};
use crate::settings::{
    SettingMap, SettingView, default_settings_map, lists_settings, lookup_bool, lookup_str, lookup_u64,
    settings_of_json, with_pairs,
};
use crate::shortcuts::{ShortcutCommand, ShortcutKey, command_effect, shortcut_decision, shortcut_kind};
use crate::text::has_suffix;
use crate::state::AppStateView;
use crate::text::{break_window_label_text, has_prefix};

verus! {

/// A setting reads back as it was written, through each typed read, and no
/// other setting changes.
pub proof fn law_setting_read_after_write(s: AppStateView, key: Seq<char>, value: SettingView, other: Seq<char>, now_ns: i64)
    requires
        other != key,
    ensures
        ({
            let m = setting_set(s, key, value, now_ns).settings;
            &&& m.contains_key(key) && m[key] == value
            &&& (value matches SettingView::Bool(b) ==> lookup_bool(m, key) == b)
            &&& (value matches SettingView::UInt(n) ==> lookup_u64(m, key) == n)
            &&& (value matches SettingView::Str(t) ==> lookup_str(m, key) == t)
            &&& m.contains_key(other) == s.settings.contains_key(other)
            &&& (s.settings.contains_key(other) ==> m[other] == s.settings[other])
        }),
{
}

/// Loading settings: a name that was loaded takes the value of its last
/// loaded pair.
pub proof fn law_loaded_value_wins(m: SettingMap, pairs: Seq<(Seq<char>, SettingView)>, i: int)
    requires
        0 <= i < pairs.len(),
        forall|j: int| i < j < pairs.len() ==> pairs[j].0 != pairs[i].0,
    ensures
        with_pairs(m, pairs).contains_key(pairs[i].0),
        with_pairs(m, pairs)[pairs[i].0] == pairs[i].1,
    decreases pairs.len(),
{
    if i < pairs.len() - 1 {
        let rest = pairs.drop_last();
        assert forall|j: int| i < j < rest.len() implies rest[j].0 != rest[i].0 by {
            assert(rest[j] == pairs[j]);
        }
        law_loaded_value_wins(m, rest, i);
    }
}

/// Loading settings: a name that was not loaded keeps the value it had.
pub proof fn law_unloaded_value_kept(m: SettingMap, pairs: Seq<(Seq<char>, SettingView)>, key: Seq<char>)
    requires
        forall|i: int| 0 <= i < pairs.len() ==> pairs[i].0 != key,
    ensures
        with_pairs(m, pairs).contains_key(key) == m.contains_key(key),
        m.contains_key(key) ==> with_pairs(m, pairs)[key] == m[key],
    decreases pairs.len(),
{
    if pairs.len() > 0 {
        let rest = pairs.drop_last();
        assert forall|i: int| 0 <= i < rest.len() implies rest[i].0 != key by {
            assert(rest[i] == pairs[i]);
        }
        law_unloaded_value_kept(m, rest, key);
        assert(pairs.last().0 != key);
    }
}

/// Saving then loading gives the settings back: settings that hold every
/// default name, written as the text `settings_json` gives (which reads back
/// as a list of them when no value is raw JSON), are exactly what
/// `load_settings_text` makes of that text.
pub proof fn law_saved_settings_load_back(m: SettingMap, text: Seq<char>)
    requires
        settings_of_json(text) matches Some(w) && lists_settings(m, w),
        forall|k: Seq<char>| default_settings_map().contains_key(k) ==> m.contains_key(k),
    ensures
        with_pairs(default_settings_map(), settings_of_json(text).unwrap()) == m,
{
    let w = settings_of_json(text).unwrap();
    let d = default_settings_map();
    let r = with_pairs(d, w);
    assert forall|k: Seq<char>| #[trigger] r.contains_key(k) <==> m.contains_key(k) by {
        if m.contains_key(k) {
            let i = choose|i: int| 0 <= i < w.len() && w[i].0 == k;
            law_loaded_value_wins(d, w, i);
        } else {
            assert forall|i: int| 0 <= i < w.len() implies w[i].0 != k by {
                assert(m[w[i].0] == w[i].1);
            }
            law_unloaded_value_kept(d, w, k);
        }
    }
    assert forall|k: Seq<char>| #[trigger] r.contains_key(k) implies r[k] == m[k] by {
        let i = choose|i: int| 0 <= i < w.len() && w[i].0 == k;
        law_loaded_value_wins(d, w, i);
    }
    assert(r =~= m);
}

/// Resuming a paused session runs it for exactly the time it had left when
/// it was paused, keeps its start time, and shows that time while paused;
/// pausing it again loses none of that time.
pub proof fn law_pause_then_resume(
    s: AppStateView,
    paused_at_ns: i64,
    paused_again_ns: i64,
    resumed_at_ns: i64,
    shown_at_ns: i64,
)
    requires
        session_active(s.session),
        can_pause(s, paused_at_ns),
    ensures
        ({
            let p = paused_state(s, paused_at_ns);
            let left_ms = paused_remaining_ms(s, paused_at_ns);
            &&& p.session.paused
            &&& can_pause(p, paused_again_ns)
            &&& paused_state(p, paused_again_ns).session == p.session
            &&& !session_active(p.session)
            &&& session_length_ms(p, None, true) == left_ms
            &&& reported_remaining(p.session, shown_at_ns) == remaining_secs(s.session.end_time.unwrap(), paused_at_ns)
            &&& (can_start(p, None, true, resumed_at_ns) ==> {
                let r = started(p, None, true, resumed_at_ns);
                &&& r.session.end_time == instant_text(resumed_at_ns + left_ms * 1_000_000)
                &&& r.session.start_time == s.session.start_time
                &&& session_active(r.session)
                &&& r.session.remaining_time is None
            })
        }),
{
    let left_ms = paused_remaining_ms(s, paused_at_ns);
    lemma_decimal_round_trip(left_ms as i64);
    let secs = remaining_secs(s.session.end_time.unwrap(), paused_at_ns);
    assert(whole_secs(secs * 1000) == secs);
}

/// With long breaks on after `n` short ones, a break is long exactly when at
/// least `n` short ones came since the last long one, after which the count
/// starts again from zero; otherwise the count rises by one. From a count of
/// at most `n` it never passes `n`.
pub proof fn law_long_break_cycle(m: SettingMap, count: u64)
    requires
        lookup_bool(m, "long_break_enabled"@),
        count < u64::MAX,
    ensures
        long_break_due(m, count) <==> count >= lookup_u64(m, "long_break_after"@),
        long_break_due(m, count) ==> next_break_count(m, count) == 0,
        !long_break_due(m, count) ==> next_break_count(m, count) == count + 1,
        count <= lookup_u64(m, "long_break_after"@) ==> next_break_count(m, count) <= lookup_u64(m, "long_break_after"@),
        count <= lookup_u64(m, "long_break_after"@) ==> (long_break_due(m, count) <==> count == lookup_u64(m, "long_break_after"@)),
{
}

/// With long breaks off, every break is short and counted.
pub proof fn law_no_long_break_when_off(m: SettingMap, count: u64)
    requires
        !lookup_bool(m, "long_break_enabled"@),
        count < u64::MAX,
    ensures
        !long_break_due(m, count),
        next_break_count(m, count) == count + 1,
{
}

/// Where each operation leaves the session: a started one runs, a paused one
/// does not, an ended one is gone, and a break clears it.
pub proof fn law_session_lifecycle(s: AppStateView, custom: Option<u64>, is_resume: bool, now_ns: i64)
    ensures
        can_start(s, custom, is_resume, now_ns) ==> {
            let t = started(s, custom, is_resume, now_ns);
            &&& session_active(t.session)
            &&& !t.on_break
            &&& !t.timer_cancelled
        },
        ({
            let t = ended(s);
            &&& t.session == empty_session()
            &&& !session_active(t.session)
            &&& !t.on_break
            &&& t.timer_cancelled
        }),
        ({
            let t = break_started(s);
            &&& t.on_break
            &&& t.session == empty_session()
            &&& !session_active(t.session)
            &&& !t.break_cancelled
        }),
        ({
            let t = closed_break(s);
            &&& !t.on_break
            &&& t.break_closing
            &&& t.break_cancelled
        }),
{
}

/// A break and a running session never overlap: every operation keeps
/// "on a break implies no running session".
pub proof fn law_break_excludes_running_session(
    s: AppStateView,
    custom: Option<u64>,
    is_resume: bool,
    seconds: u64,
    key: Seq<char>,
    value: SettingView,
    now_ns: i64,
)
    requires
        s.on_break ==> !session_active(s.session),
    ensures
        can_start(s, custom, is_resume, now_ns) ==> {
            let t = started(s, custom, is_resume, now_ns);
            t.on_break ==> !session_active(t.session)
        },
        ({
            let t = paused_state(s, now_ns);
            t.on_break ==> !session_active(t.session)
        }),
        ({
            let t = time_added(s, seconds, now_ns);
            t.on_break ==> !session_active(t.session)
        }),
        ({
            let t = setting_set(s, key, value, now_ns);
            t.on_break ==> !session_active(t.session)
        }),
        ({
            let t = ended(s);
            t.on_break ==> !session_active(t.session)
        }),
        ({
            let t = break_started(s);
            t.on_break ==> !session_active(t.session)
        }),
        ({
            let t = closed_break(s);
            t.on_break ==> !session_active(t.session)
        }),
{
}

/// The start shortcut toggles: it starts a session when none runs, and ends
/// the session it started.
pub proof fn law_start_shortcut_toggles(s: AppStateView, now_ns: i64)
    requires
        !s.on_break,
        !session_active(s.session),
        can_start(s, None, false, now_ns),
    ensures
        shortcut_decision(s, ShortcutKey::Start) == Some(ShortcutCommand::StartSession),
        shortcut_decision(started(s, None, false, now_ns), ShortcutKey::Start) == Some(ShortcutCommand::EndSession),
{
}

/// The pause shortcut toggles: it pauses a running session and resumes it.
pub proof fn law_pause_shortcut_toggles(s: AppStateView, now_ns: i64)
    requires
        session_active(s.session),
        can_pause(s, now_ns),
    ensures
        shortcut_decision(s, ShortcutKey::Pause) == Some(ShortcutCommand::PauseSession),
        shortcut_decision(paused_state(s, now_ns), ShortcutKey::Pause) == Some(ShortcutCommand::ResumeSession),
{
}

/// Every break window's label marks it as a break window.
pub proof fn law_break_labels_are_break_windows(index: u64)
    ensures
        has_prefix(break_window_label_text(index), "break"@),
{
    let t = break_window_label_text(index);
    reveal_strlit("break_");
    reveal_strlit("break");
    assert(t.subrange(0, 5) =~= "break"@);
}

/// Chimes are off by default: no operation chimes until they are turned on.
pub proof fn law_no_chime_by_default(event: ChimeEvent)
    ensures
        chime_actions(default_settings_map(), event) == Seq::<Action>::empty(),
{
    reveal_strlit("chime_enabled");
    reveal_strlit("shortcuts_enabled");
    reveal_strlit("chime_on_reminder");
    reveal_strlit("chime_on_break_end");
    reveal_strlit("chime_on_break_start");
    reveal_strlit("chime_on_session_start");
    let m = default_settings_map();
    let k = "chime_enabled"@;
    assert(k.len() == 13);
    assert("chime_on_session_start"@.len() == 22);
    assert("chime_on_break_start"@.len() == 20);
    assert("chime_on_break_end"@.len() == 18);
    assert("chime_on_reminder"@.len() == 17);
    assert("shortcuts_enabled"@.len() == 17);
    assert(m.contains_key(k) && m[k] == SettingView::Bool(false));
}

/// Each chime sounds only under its own setting, and only while chimes are on:
/// the session start under `chime_on_session_start`, a break's start under
/// `chime_on_break_start`, its end under `chime_on_break_end`, the reminder
/// under `chime_on_reminder`. A wanted chime is one `PlayChime` of that event;
/// an unwanted one is no action at all.
pub proof fn law_each_chime_has_its_setting(m: SettingMap, event: ChimeEvent)
    ensures
        chime_wanted(m, ChimeEvent::SessionStart)
            == (lookup_bool(m, "chime_enabled"@) && lookup_bool(m, "chime_on_session_start"@)),
        chime_wanted(m, ChimeEvent::BreakStart)
            == (lookup_bool(m, "chime_enabled"@) && lookup_bool(m, "chime_on_break_start"@)),
        chime_wanted(m, ChimeEvent::BreakEnd)
            == (lookup_bool(m, "chime_enabled"@) && lookup_bool(m, "chime_on_break_end"@)),
        chime_wanted(m, ChimeEvent::Reminder)
            == (lookup_bool(m, "chime_enabled"@) && lookup_bool(m, "chime_on_reminder"@)),
        chime_wanted(m, event) ==> chime_actions(m, event) == seq![Action::PlayChime(event)],
        !chime_wanted(m, event) ==> chime_actions(m, event).len() == 0,
{
}

/// Ending a break chimes exactly when chimes are on and so is the chime for a
/// break's end, and never with another event's chime.
pub proof fn law_break_end_chime(s: AppStateView)
    ensures
        break_end_actions(s).contains(Action::PlayChime(ChimeEvent::BreakEnd))
            <==> (lookup_bool(s.settings, "chime_enabled"@) && lookup_bool(s.settings, "chime_on_break_end"@)),
        !break_end_actions(s).contains(Action::PlayChime(ChimeEvent::BreakStart)),
        !break_end_actions(s).contains(Action::PlayChime(ChimeEvent::SessionStart)),
        break_end_actions(s)[0] == Action::Stats(StatsEvent::BreakCompleted),
{
    let m = s.settings;
    let c = chime_actions(m, ChimeEvent::BreakEnd);
    let tail = start_actions(closed_break(s));
    assert(tail =~= seq![
        Action::AbortSessionTimer,
        Action::UpdateTrayMenu { session_active: true, paused: false, on_break: false },
        Action::StartSessionTimer,
    ]);
    let head = seq![Action::Stats(StatsEvent::BreakCompleted), Action::AbortBreakTimer, Action::CloseBreakWindows];
    assert(break_end_actions(s) =~= head + c + tail);
    if lookup_bool(m, "chime_enabled"@) && lookup_bool(m, "chime_on_break_end"@) {
        assert(break_end_actions(s)[3] == Action::PlayChime(ChimeEvent::BreakEnd));
    } else {
        assert(break_end_actions(s) =~= head + tail);
    }
}

/// The pre-break reminder follows its setting: a second of the countdown shows
/// the time left and sends the reminder (for the configured number of
/// seconds) exactly when reminders are on and that many seconds are left.
pub proof fn law_reminder_follows_its_setting(m: SettingMap, remaining: int)
    ensures
        tick_actions(m, remaining).len() >= 2,
        tick_actions(m, remaining)[0] == Action::Stats(StatsEvent::FocusTick),
        tick_actions(m, remaining)[1] == Action::ShowRemaining(remaining as i64),
        (exists|i: int| 0 <= i < tick_actions(m, remaining).len() && #[trigger] tick_actions(m, remaining)[i] is PreBreakReminder)
            <==> (lookup_bool(m, "pre_break_reminder_enabled"@)
                && remaining == (lookup_u64(m, "pre_break_reminder_at"@) as i64) as int),
        forall|i: int| 0 <= i < tick_actions(m, remaining).len() && #[trigger] tick_actions(m, remaining)[i] is PreBreakReminder
            ==> tick_actions(m, remaining)[i] == Action::PreBreakReminder(lookup_u64(m, "pre_break_reminder_at"@)),
{
    let t = tick_actions(m, remaining);
    let base = seq![Action::Stats(StatsEvent::FocusTick), Action::ShowRemaining(remaining as i64)];
    let on = lookup_bool(m, "pre_break_reminder_enabled"@)
        && remaining == (lookup_u64(m, "pre_break_reminder_at"@) as i64) as int;
    let c = chime_actions(m, ChimeEvent::Reminder);
    let r = Action::PreBreakReminder(lookup_u64(m, "pre_break_reminder_at"@));
    if on {
        assert(t =~= base + c + seq![r]);
        assert(t[t.len() - 1] is PreBreakReminder);
        assert forall|i: int| 0 <= i < t.len() && #[trigger] t[i] is PreBreakReminder implies t[i] == r by {
            if i < 2 {
            } else if i < t.len() - 1 {
                assert(t[i] == c[i - 2]);
            }
        }
    } else {
        assert(t =~= base);
        assert forall|i: int| 0 <= i < t.len() implies !(#[trigger] t[i] is PreBreakReminder) by {
            assert(t[i] == base[i]);
        }
    }
}

/// The break that begins is long exactly when long breaks are on and at least
/// the configured number of short breaks came since the last long one; it
/// opens the windows and starts the countdown with the long or the short
/// length accordingly; with long breaks off every break is short.
pub proof fn law_break_kind_follows_settings(s: AppStateView)
    ensures
        ({
            let m = s.settings;
            let long_break = lookup_bool(m, "long_break_enabled"@)
                && s.short_break_count >= lookup_u64(m, "long_break_after"@);
            let d = if long_break {
                lookup_u64(m, "long_break_duration"@)
            } else {
                lookup_u64(m, "break_duration"@)
            };
            &&& break_actions(s).len() == 4
            &&& break_actions(s)[2] == (Action::OpenBreakWindows { long_break, duration: d })
            &&& break_actions(s)[3] == Action::StartBreakTimer(d)
            &&& (!lookup_bool(m, "long_break_enabled"@) ==> break_actions(s)[2] == (Action::OpenBreakWindows {
                long_break: false,
                duration: lookup_u64(m, "break_duration"@),
            }))
            &&& (s.short_break_count < u64::MAX ==> break_started(s).short_break_count == (if long_break {
                0
            } else {
                s.short_break_count + 1
            }))
            &&& break_started(s).on_break
        }),
{
}

/// Ending the session stops any break: a break under way has its countdown
/// stopped and its windows closed; without a break, no break action is asked
/// for. Afterwards there is no session and no break.
pub proof fn law_ending_session_stops_break(s: AppStateView)
    ensures
        !ended(s).on_break,
        ended(s).session == empty_session(),
        end_actions(s)[0] == Action::Stats(StatsEvent::FlushFocus),
        s.on_break ==> ended(s).break_cancelled,
        s.on_break ==> end_actions(s).contains(Action::AbortBreakTimer),
        s.on_break ==> end_actions(s).contains(Action::CloseBreakWindows),
        !s.on_break ==> ended(s).break_cancelled == s.break_cancelled,
        !s.on_break ==> !end_actions(s).contains(Action::AbortBreakTimer),
        !s.on_break ==> !end_actions(s).contains(Action::CloseBreakWindows),
{
    let tail = seq![
        Action::AbortSessionTimer,
        Action::UpdateTrayMenu { session_active: false, paused: false, on_break: false },
        Action::ClearTrayTitle,
    ];
    if s.on_break {
        assert(end_actions(s) =~= seq![Action::Stats(StatsEvent::FlushFocus), Action::AbortBreakTimer, Action::CloseBreakWindows] + tail);
        assert(end_actions(s)[1] == Action::AbortBreakTimer);
        assert(end_actions(s)[2] == Action::CloseBreakWindows);
    } else {
        assert(end_actions(s) =~= seq![Action::Stats(StatsEvent::FlushFocus)] + tail);
    }
}

/// What each shortcut does, by its effect: during a break the start and break
/// keys end the break and a new session runs, the skip key skips it and a new
/// session runs; with a session running the start key ends it and the break
/// key begins a break; the pause key pauses a running session and resumes a
/// paused one; with nothing going on the start key starts a session and the
/// other keys do nothing.
pub proof fn law_shortcut_outcomes(s: AppStateView, now_ns: i64)
    requires
        s.on_break ==> !session_active(s.session),
    ensures
        s.on_break ==> match shortcut_decision(s, ShortcutKey::Start) {
            Some(c) => match command_effect(s, c, now_ns) {
                Some((t, a)) => session_active(t.session) && !t.on_break && a[0] == Action::Stats(StatsEvent::BreakCompleted),
                None => !can_start(s, None, false, now_ns),
            },
            None => false,
        },
        s.on_break ==> match shortcut_decision(s, ShortcutKey::Break) {
            Some(c) => match command_effect(s, c, now_ns) {
                Some((t, a)) => session_active(t.session) && !t.on_break && a[0] == Action::Stats(StatsEvent::BreakCompleted),
                None => !can_start(s, None, false, now_ns),
            },
            None => false,
        },
        s.on_break ==> match shortcut_decision(s, ShortcutKey::Skip) {
            Some(c) => match command_effect(s, c, now_ns) {
                Some((t, a)) => session_active(t.session) && !t.on_break && a[0] == Action::Stats(StatsEvent::BreakSkipped),
                None => !can_start(s, Some(lookup_u64(s.settings, "session_duration"@)), false, now_ns),
            },
            None => false,
        },
        !s.on_break ==> shortcut_decision(s, ShortcutKey::Skip) is None,
        !s.on_break && session_active(s.session) ==> match shortcut_decision(s, ShortcutKey::Start) {
            Some(c) => match command_effect(s, c, now_ns) {
                Some((t, a)) => !session_active(t.session) && t.session == empty_session() && !t.on_break,
                None => false,
            },
            None => false,
        },
        !s.on_break && session_active(s.session) && s.short_break_count < u64::MAX ==> match shortcut_decision(s, ShortcutKey::Break) {
            Some(c) => match command_effect(s, c, now_ns) {
                Some((t, a)) => t.on_break && !session_active(t.session),
                None => false,
            },
            None => false,
        },
        !s.on_break && !session_active(s.session) ==> shortcut_decision(s, ShortcutKey::Break) is None,
        !s.on_break && !session_active(s.session) ==> match shortcut_decision(s, ShortcutKey::Start) {
            Some(c) => match command_effect(s, c, now_ns) {
                Some((t, a)) => session_active(t.session) && !t.on_break,
                None => !can_start(s, None, false, now_ns),
            },
            None => false,
        },
        session_active(s.session) ==> match shortcut_decision(s, ShortcutKey::Pause) {
            Some(c) => match command_effect(s, c, now_ns) {
                Some((t, a)) => t.session.paused && !session_active(t.session),
                None => !can_pause(s, now_ns),
            },
            None => false,
        },
        s.session.paused ==> match shortcut_decision(s, ShortcutKey::Pause) {
            Some(c) => match command_effect(s, c, now_ns) {
                Some((t, a)) => session_active(t.session),
                None => !can_start(s, None, true, now_ns),
            },
            None => false,
        },
        s.session.end_time is None && !s.session.paused ==> shortcut_decision(s, ShortcutKey::Pause) is None,
{
}

/// Setting a value always saves the settings, as the last action; setting
/// `launch_at_login` to a boolean turns launching at login to that value; and
/// setting one of the shortcut switches re-registers the shortcuts. Nothing
/// else is asked for.
pub proof fn law_setting_side_effects(key: Seq<char>, value: SettingView)
    ensures
        ({
            let a = setting_actions(key, value);
            let shortcut_key = key == "shortcuts_enabled"@ || key == "shortcut_start_enabled"@
                || key == "shortcut_pause_enabled"@ || key == "shortcut_break_enabled"@
                || key == "shortcut_skip_enabled"@;
            &&& a.len() >= 1
            &&& a.last() == Action::SaveSettings
            &&& (forall|b: bool| a.contains(Action::SetAutostart(b)) <==> (key == "launch_at_login"@ && value == SettingView::Bool(b)))
            &&& (a.contains(Action::ReregisterShortcuts) <==> shortcut_key)
            &&& (forall|i: int| 0 <= i < a.len() ==> (#[trigger] a[i] is SaveSettings || a[i] is SetAutostart || a[i] is ReregisterShortcuts))
        }),
{
    let a = setting_actions(key, value);
    let auto = if key == "launch_at_login"@ {
        match value {
            SettingView::Bool(b) => seq![Action::SetAutostart(b)],
            _ => Seq::<Action>::empty(),
        }
    } else {
        Seq::<Action>::empty()
    };
    let sc = key == "shortcuts_enabled"@ || key == "shortcut_start_enabled"@ || key == "shortcut_pause_enabled"@
        || key == "shortcut_break_enabled"@ || key == "shortcut_skip_enabled"@;
    let re = if sc { seq![Action::ReregisterShortcuts] } else { Seq::<Action>::empty() };
    assert(a =~= auto + re + seq![Action::SaveSettings]);
    assert forall|b: bool| a.contains(Action::SetAutostart(b)) <==> (key == "launch_at_login"@ && value == SettingView::Bool(b)) by {
        if key == "launch_at_login"@ && value == SettingView::Bool(b) {
            assert(a[0] == Action::SetAutostart(b));
        }
        if a.contains(Action::SetAutostart(b)) {
            let i = choose|i: int| 0 <= i < a.len() && a[i] == Action::SetAutostart(b);
            if i >= auto.len() {
                if i < auto.len() + re.len() {
                    assert(a[i] == re[i - auto.len()]);
                } else {
                    assert(a[i] == Action::SaveSettings);
                }
            }
        }
    }
    if sc {
        assert(a[auto.len() as int] == Action::ReregisterShortcuts);
    } else {
        if a.contains(Action::ReregisterShortcuts) {
            let i = choose|i: int| 0 <= i < a.len() && a[i] == Action::ReregisterShortcuts;
            if i < auto.len() {
                assert(a[i] == auto[i]);
            } else {
                assert(a[i] == Action::SaveSettings);
            }
        }
    }
    assert forall|i: int| 0 <= i < a.len() implies (#[trigger] a[i] is SaveSettings || a[i] is SetAutostart || a[i] is ReregisterShortcuts) by {
        if i < auto.len() {
            assert(a[i] == auto[i]);
        } else if i < auto.len() + re.len() {
            assert(a[i] == re[i - auto.len()]);
        }
    }
}

/// Which shortcut a description names, by the key letter at its end (`+B`
/// or `KEYB` for the break, and so on), the break key first.
pub proof fn law_shortcut_keys(u: Seq<char>)
    ensures
        has_suffix(u, "+B"@) || has_suffix(u, "KEYB"@) ==> shortcut_kind(u) == Some(ShortcutKey::Break),
        !(has_suffix(u, "+B"@) || has_suffix(u, "KEYB"@)) && (has_suffix(u, "+P"@) || has_suffix(u, "KEYP"@))
            ==> shortcut_kind(u) == Some(ShortcutKey::Pause),
        !(has_suffix(u, "+B"@) || has_suffix(u, "KEYB"@)) && !(has_suffix(u, "+P"@) || has_suffix(u, "KEYP"@))
            && (has_suffix(u, "+S"@) || has_suffix(u, "KEYS"@)) ==> shortcut_kind(u) == Some(ShortcutKey::Skip),
        !(has_suffix(u, "+B"@) || has_suffix(u, "KEYB"@)) && !(has_suffix(u, "+P"@) || has_suffix(u, "KEYP"@))
            && !(has_suffix(u, "+S"@) || has_suffix(u, "KEYS"@)) && (has_suffix(u, "+N"@) || has_suffix(u, "KEYN"@))
            ==> shortcut_kind(u) == Some(ShortcutKey::Start),
        !(has_suffix(u, "+B"@) || has_suffix(u, "KEYB"@) || has_suffix(u, "+P"@) || has_suffix(u, "KEYP"@)
            || has_suffix(u, "+S"@) || has_suffix(u, "KEYS"@) || has_suffix(u, "+N"@) || has_suffix(u, "KEYN"@))
            ==> shortcut_kind(u) is None,
{
}

/// The seconds shown for a session: those left until its end while it runs,
/// the whole seconds of the time kept at the pause while it is paused, and
/// none without a session.
pub proof fn law_reported_time(s: crate::session::SessionView, now_ns: i64, kept_ms: i64)
    ensures
        session_active(s) ==> reported_remaining(s, now_ns) == remaining_secs(s.end_time.unwrap(), now_ns),
        s.end_time is Some && s.paused && s.remaining_time == Some(int_text(kept_ms as int))
            ==> reported_remaining(s, now_ns) == whole_secs(kept_ms as int),
        s.end_time is None ==> reported_remaining(s, now_ns) == 0,
{
    lemma_decimal_round_trip(kept_ms);
}

} // verus!
