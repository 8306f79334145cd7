//! The timer's commands: each takes the state and the current instant, makes
//! its decision, updates the state and returns the side effects in order.

use vstd::prelude::*;
use vstd::string::*;
use crate::actions::{Action, ChimeEvent, InstantOutOfRange, StatsEvent, TrayTitle};
use crate::clock::{
    calculate_remaining_secs, format_rfc3339, lemma_whole_secs_of_millis, nanos_of_rfc3339, remaining_secs,
    rfc3339_of_nanos, whole_secs,
};
use crate::decimal::{decimal_i64, format_i64, int_text, parse_i64};
use crate::session::{
    SessionStateResponse, SessionView, clone_text, empty_session, opt_text, session_active,
};
use crate::settings::{SettingMap, SettingValue, SettingView, Settings, lookup_bool, lookup_u64};
use crate::state::{AppState, AppStateView};
use crate::text::str_eq;

verus! {

// ---------------------------------------------------------------------------
// Chimes

/// The setting that turns the chime for `event` on.
pub open spec fn chime_key(event: ChimeEvent) -> Seq<char> {
    match event {
        ChimeEvent::SessionStart => "chime_on_session_start"@,
        ChimeEvent::BreakStart => "chime_on_break_start"@,
        ChimeEvent::BreakEnd => "chime_on_break_end"@,
        ChimeEvent::Reminder => "chime_on_reminder"@,
    }
}

/// Chimes are on, and so is the one for `event`.
pub open spec fn chime_wanted(m: SettingMap, event: ChimeEvent) -> bool {
    lookup_bool(m, "chime_enabled"@) && lookup_bool(m, chime_key(event))
}

/// The chime for `event`, if the settings want it.
pub open spec fn chime_actions(m: SettingMap, event: ChimeEvent) -> Seq<Action> {
    if chime_wanted(m, event) {
        seq![Action::PlayChime(event)]
    } else {
        Seq::empty()
    }
}

fn chime_key_str(event: ChimeEvent) -> (r: &'static str)
    ensures
        r@ == chime_key(event),
{
    match event {
        ChimeEvent::SessionStart => "chime_on_session_start",
        ChimeEvent::BreakStart => "chime_on_break_start",
        ChimeEvent::BreakEnd => "chime_on_break_end",
        ChimeEvent::Reminder => "chime_on_reminder",
    }
}

/// Whether the chime for `event` should sound.
pub fn should_chime(settings: &Settings, event: ChimeEvent) -> (r: bool)
    ensures
        r == chime_wanted(settings@, event),
{
    settings.get_bool("chime_enabled") && settings.get_bool(chime_key_str(event))
}

fn push_chime(acts: &mut Vec<Action>, settings: &Settings, event: ChimeEvent)
    ensures
        final(acts)@ == old(acts)@ + chime_actions(settings@, event),
{
    if should_chime(settings, event) {
        acts.push(Action::PlayChime(event));
    }
    assert(final(acts)@ =~= old(acts)@ + chime_actions(settings@, event));
}

// ---------------------------------------------------------------------------
// Break windows

/// The state while the break windows are being closed: the break is over,
/// its countdown is told to stop, and the application marks the windows as
/// closing by itself until the host reports them closed.
pub open spec fn closed_break(s: AppStateView) -> AppStateView {
    AppStateView { break_cancelled: true, on_break: false, break_closing: true, ..s }
}

/// Closing the break windows: stop the break countdown, close the windows.
pub open spec fn close_break_actions() -> Seq<Action> {
    seq![Action::AbortBreakTimer, Action::CloseBreakWindows]
}

fn close_break_windows_internal(state: &mut AppState, acts: &mut Vec<Action>)
    ensures
        final(state)@ == closed_break(old(state)@),
        final(acts)@ == old(acts)@ + close_break_actions(),
{
    state.set_break_closing(true);
    state.cancel_break_timer();
    acts.push(Action::AbortBreakTimer);
    state.set_on_break(false);
    acts.push(Action::CloseBreakWindows);
    assert(final(acts)@ =~= old(acts)@ + close_break_actions());
}

/// The host has closed the break windows: they are no longer being closed.
pub fn break_windows_closed(state: &mut AppState)
    ensures
        final(state)@ == (AppStateView { break_closing: false, ..old(state)@ }),
{
    state.set_break_closing(false);
}

/// Closes every break window.
pub fn close_break_windows(state: &mut AppState) -> (r: Vec<Action>)
    ensures
        final(state)@ == closed_break(old(state)@),
        r@ == close_break_actions(),
{
    let mut acts: Vec<Action> = Vec::new();
    close_break_windows_internal(state, &mut acts);
    assert(acts@ =~= close_break_actions());
    acts
}

// ---------------------------------------------------------------------------
// Starting a session

/// The configured session length in milliseconds.
pub open spec fn session_setting_ms(m: SettingMap) -> int {
    lookup_u64(m, "session_duration"@) as int * 1000
}

/// How long a session started now runs, in milliseconds: what was left at the
/// pause when resuming (if that text reads as a number), `custom` seconds
/// where given, and the configured length otherwise.
pub open spec fn session_length_ms(s: AppStateView, custom: Option<u64>, is_resume: bool) -> int {
    if is_resume {
        match s.session.remaining_time {
            Some(t) => match decimal_i64(t) {
                Some(ms) => ms as int,
                None => session_setting_ms(s.settings),
            },
            None => session_setting_ms(s.settings),
        }
    } else {
        match custom {
            Some(c) => c as int * 1000,
            None => session_setting_ms(s.settings),
        }
    }
}

/// The RFC 3339 text of an instant given as any integer of nanoseconds,
/// where it fits in an `i64`.
pub open spec fn instant_text(ns: int) -> Option<Seq<char>> {
    if i64::MIN <= ns <= i64::MAX {
        Some(rfc3339_of_nanos(ns as i64))
    } else {
        None
    }
}

/// When a session started at `now_ns` ends, in nanoseconds.
pub open spec fn session_end_ns(s: AppStateView, custom: Option<u64>, is_resume: bool, now_ns: i64) -> int {
    now_ns + session_length_ms(s, custom, is_resume) * 1_000_000
}

/// The instants a session start writes can be written.
pub open spec fn can_start(s: AppStateView, custom: Option<u64>, is_resume: bool, now_ns: i64) -> bool {
    instant_text(session_end_ns(s, custom, is_resume, now_ns)) is Some
}

/// The state once a session that ends at `end_text` has begun; a new start
/// time replaces the old one where given.
pub open spec fn begun(s: AppStateView, end_text: Seq<char>, start_text: Option<Seq<char>>) -> AppStateView {
    let s1 = if s.on_break {
        closed_break(s)
    } else {
        s
    };
    AppStateView {
        timer_cancelled: false,
        session: SessionView {
            end_time: Some(end_text),
            start_time: match start_text {
                Some(t) => Some(t),
                None => s.session.start_time,
            },
            remaining_time: None,
            paused: false,
            paused_at: None,
        },
        ..s1
    }
}

/// The state once a session has started at `now_ns`.
pub open spec fn started(s: AppStateView, custom: Option<u64>, is_resume: bool, now_ns: i64) -> AppStateView {
    begun(
        s,
        instant_text(session_end_ns(s, custom, is_resume, now_ns)).unwrap(),
        if is_resume {
            None
        } else {
            Some(rfc3339_of_nanos(now_ns))
        },
    )
}

/// What starting a session asks for: close any break windows, restart the
/// countdown, show the running session in the tray.
pub open spec fn start_actions(s: AppStateView) -> Seq<Action> {
    (if s.on_break {
        close_break_actions()
    } else {
        Seq::empty()
    }) + seq![
        Action::AbortSessionTimer,
        Action::UpdateTrayMenu { session_active: true, paused: false, on_break: false },
        Action::StartSessionTimer,
    ]
}

fn instant_after(now_ns: i64, ms: i128) -> (r: Option<String>)
    requires
        -0x1_0000_0000_0000_0000_0000i128 <= ms <= 0x1_0000_0000_0000_0000_0000i128,
    ensures
        opt_text(r) == instant_text(now_ns + ms * 1_000_000),
        r matches Some(t) ==> nanos_of_rfc3339(t@) == Some((now_ns + ms * 1_000_000) as i64),
{
    let end: i128 = now_ns as i128 + ms * 1_000_000;
    if end < -0x8000_0000_0000_0000i128 || end > 0x7fff_ffff_ffff_ffffi128 {
        None
    } else {
        Some(format_rfc3339(end as i64))
    }
}

fn session_length(state: &AppState, custom: Option<u64>, is_resume: bool) -> (r: i128)
    ensures
        r == session_length_ms(state@, custom, is_resume),
        -0x1_0000_0000_0000_0000_0000i128 <= r <= 0x1_0000_0000_0000_0000_0000i128,
{
    let default_ms: i128 = state.settings.get_u64("session_duration") as i128 * 1000;
    if is_resume {
        match &state.session.remaining_time {
            Some(t) => match parse_i64(t.as_str()) {
                Some(ms) => ms as i128,
                None => default_ms,
            },
            None => default_ms,
        }
    } else {
        match custom {
            Some(c) => c as i128 * 1000,
            None => default_ms,
        }
    }
}

/// The texts a session start writes.
struct SessionPlan {
    end_time: String,
    start_time: Option<String>,
}

fn plan_session(state: &AppState, custom: Option<u64>, is_resume: bool, now_ns: i64) -> (r: Option<SessionPlan>)
    ensures
        match r {
            Some(p) => {
                &&& can_start(state@, custom, is_resume, now_ns)
                &&& Some(p.end_time@) == instant_text(session_end_ns(state@, custom, is_resume, now_ns))
                &&& nanos_of_rfc3339(p.end_time@) == Some(session_end_ns(state@, custom, is_resume, now_ns) as i64)
                &&& opt_text(p.start_time) == (if is_resume { None } else { Some(rfc3339_of_nanos(now_ns)) })
            },
            None => !can_start(state@, custom, is_resume, now_ns),
        },
{
    let len = session_length(state, custom, is_resume);
    let end = instant_after(now_ns, len);
    match end {
        None => None,
        Some(end_time) => {
            if is_resume {
                Some(SessionPlan { end_time, start_time: None })
            } else {
                let t = format_rfc3339(now_ns);
                Some(SessionPlan { end_time, start_time: Some(t) })
            }
        },
    }
}

fn apply_plan(state: &mut AppState, plan: SessionPlan, acts: &mut Vec<Action>)
    ensures
        final(state)@ == begun(old(state)@, plan.end_time@, opt_text(plan.start_time)),
        final(acts)@ == old(acts)@ + start_actions(old(state)@),
{
    let ghost a0 = acts@;
    if state.is_on_break() {
        close_break_windows_internal(state, acts);
    }
    state.cancel_timer();
    acts.push(Action::AbortSessionTimer);
    state.reset_timer_cancelled();
    let SessionPlan { end_time, start_time } = plan;
    state.session.end_time = Some(end_time);
    state.session.paused = false;
    state.session.remaining_time = None;
    state.session.paused_at = None;
    match start_time {
        Some(t) => {
            state.session.start_time = Some(t);
        },
        None => {},
    }
    acts.push(Action::UpdateTrayMenu { session_active: true, paused: false, on_break: false });
    acts.push(Action::StartSessionTimer);
    assert(acts@ =~= a0 + start_actions(old(state)@));
}

/// Starts a session at `now_ns`: resuming from what was left at the pause, or
/// running `custom_duration_secs`, or the configured length.
pub fn start_session_internal(
    state: &mut AppState,
    custom_duration_secs: Option<u64>,
    is_resume: bool,
    now_ns: i64,
) -> (r: Result<Vec<Action>, InstantOutOfRange>)
    ensures
        match r {
            Ok(acts) => {
                &&& can_start(old(state)@, custom_duration_secs, is_resume, now_ns)
                &&& final(state)@ == started(old(state)@, custom_duration_secs, is_resume, now_ns)
                &&& acts@ == start_actions(old(state)@)
                &&& remaining_secs(final(state)@.session.end_time.unwrap(), now_ns)
                    == whole_secs(session_length_ms(old(state)@, custom_duration_secs, is_resume))
            },
            Err(_) => {
                &&& !can_start(old(state)@, custom_duration_secs, is_resume, now_ns)
                &&& final(state)@ == old(state)@
            },
        },
{
    match plan_session(state, custom_duration_secs, is_resume, now_ns) {
        None => Err(InstantOutOfRange),
        Some(plan) => {
            let mut acts: Vec<Action> = Vec::new();
            apply_plan(state, plan, &mut acts);
            assert(acts@ =~= start_actions(old(state)@));
            proof {
                lemma_whole_secs_of_millis(session_length_ms(old(state)@, custom_duration_secs, is_resume));
            }
            Ok(acts)
        },
    }
}

/// Starts a new session of the configured length, with its chime.
pub fn start_session(state: &mut AppState, now_ns: i64) -> (r: Result<Vec<Action>, InstantOutOfRange>)
    ensures
        match r {
            Ok(acts) => {
                &&& can_start(old(state)@, None, false, now_ns)
                &&& final(state)@ == started(old(state)@, None, false, now_ns)
                &&& acts@ == chime_actions(old(state)@.settings, ChimeEvent::SessionStart)
                    + start_actions(old(state)@)
                &&& remaining_secs(final(state)@.session.end_time.unwrap(), now_ns)
                    == whole_secs(session_setting_ms(old(state)@.settings))
            },
            Err(_) => {
                &&& !can_start(old(state)@, None, false, now_ns)
                &&& final(state)@ == old(state)@
            },
        },
{
    match plan_session(state, None, false, now_ns) {
        None => Err(InstantOutOfRange),
        Some(plan) => {
            let mut acts: Vec<Action> = Vec::new();
            push_chime(&mut acts, &state.settings, ChimeEvent::SessionStart);
            apply_plan(state, plan, &mut acts);
            proof {
                lemma_whole_secs_of_millis(session_length_ms(old(state)@, None, false));
            }
            Ok(acts)
        },
    }
}

/// Resumes a paused session for the time it had left; does nothing unless
/// the session is paused.
pub fn resume_session(state: &mut AppState, now_ns: i64) -> (r: Result<Vec<Action>, InstantOutOfRange>)
    ensures
        !old(state)@.session.paused ==> r is Ok && r->Ok_0@ == Seq::<Action>::empty()
            && final(state)@ == old(state)@,
        old(state)@.session.paused ==> match r {
            Ok(acts) => {
                &&& can_start(old(state)@, None, true, now_ns)
                &&& final(state)@ == started(old(state)@, None, true, now_ns)
                &&& acts@ == start_actions(old(state)@)
            },
            Err(_) => {
                &&& !can_start(old(state)@, None, true, now_ns)
                &&& final(state)@ == old(state)@
            },
        },
{
    if !state.session.paused {
        return Ok(Vec::new());
    }
    start_session_internal(state, None, true, now_ns)
}


// ---------------------------------------------------------------------------
// Adding time, pausing, ending

/// Where a running session that is given `seconds` more ends, in nanoseconds:
/// its seconds left plus `seconds`, never before `now_ns`.
pub open spec fn extended_end_ns(s: SessionView, seconds: u64, now_ns: i64) -> int {
    let ms = (remaining_secs(s.end_time.unwrap(), now_ns) + seconds) * 1000;
    now_ns + (if ms > 0 {
        ms
    } else {
        0
    }) * 1_000_000
}

/// The new end of a running session can be written.
pub open spec fn can_add_time(s: AppStateView, seconds: u64, now_ns: i64) -> bool {
    instant_text(extended_end_ns(s.session, seconds, now_ns)) is Some
}

/// The state once `seconds` are added: only a running session changes.
pub open spec fn time_added(s: AppStateView, seconds: u64, now_ns: i64) -> AppStateView {
    if session_active(s.session) && can_add_time(s, seconds, now_ns) {
        AppStateView {
            session: SessionView {
                end_time: instant_text(extended_end_ns(s.session, seconds, now_ns)),
                ..s.session
            },
            ..s
        }
    } else {
        s
    }
}

/// Gives a running session `seconds` more; a paused or absent session is left
/// as it is.
pub fn add_time(state: &mut AppState, seconds: u64, now_ns: i64) -> (r: Result<(), InstantOutOfRange>)
    ensures
        final(state)@ == time_added(old(state)@, seconds, now_ns),
        r is Ok <==> (!session_active(old(state)@.session) || can_add_time(old(state)@, seconds, now_ns)),
        session_active(old(state)@.session) && r is Ok ==> ({
            let left = remaining_secs(old(state)@.session.end_time.unwrap(), now_ns) + seconds;
            remaining_secs(final(state)@.session.end_time.unwrap(), now_ns) == (if left > 0 { left } else { 0 })
        }),
{
    if state.session.end_time.is_none() || state.session.paused {
        return Ok(());
    }
    let remaining: i64 = match &state.session.end_time {
        Some(e) => calculate_remaining_secs(e.as_str(), now_ns),
        None => 0,
    };
    let ms: i128 = (remaining as i128 + seconds as i128) * 1000;
    let ms: i128 = if ms > 0 {
        ms
    } else {
        0
    };
    match instant_after(now_ns, ms) {
        None => Err(InstantOutOfRange),
        Some(t) => {
            state.session.end_time = Some(t);
            proof {
                lemma_whole_secs_of_millis(ms as int);
            }
            Ok(())
        },
    }
}

/// Milliseconds left in the session at `now_ns`, counted in whole seconds.
pub open spec fn paused_remaining_ms(s: AppStateView, now_ns: i64) -> int {
    remaining_secs(s.session.end_time.unwrap(), now_ns) * 1000
}

/// A pause records the time left: the session has an end and is not paused yet.
pub open spec fn pause_records(s: AppStateView) -> bool {
    s.session.end_time is Some && !s.session.paused
}

/// What a pause writes can be written.
pub open spec fn can_pause(s: AppStateView, now_ns: i64) -> bool {
    pause_records(s) ==> i64::MIN <= paused_remaining_ms(s, now_ns) <= i64::MAX
}

/// The state once paused at `now_ns`: the countdown is stopped, and a running
/// session keeps what was left of it; a session already paused keeps the time
/// it stored then.
pub open spec fn paused_state(s: AppStateView, now_ns: i64) -> AppStateView {
    let s1 = AppStateView { timer_cancelled: true, ..s };
    if pause_records(s) {
        AppStateView {
            session: SessionView {
                remaining_time: Some(int_text(paused_remaining_ms(s, now_ns))),
                paused: true,
                paused_at: Some(rfc3339_of_nanos(now_ns)),
                ..s.session
            },
            ..s1
        }
    } else {
        s1
    }
}

/// What pausing asks for.
pub open spec fn pause_actions() -> Seq<Action> {
    seq![
        Action::AbortSessionTimer,
        Action::UpdateTrayMenu { session_active: false, paused: true, on_break: false },
        Action::SetTrayTitle(TrayTitle::SessionPaused),
    ]
}

/// Pauses the session, keeping the time it had left.
pub fn pause_session(state: &mut AppState, now_ns: i64) -> (r: Result<Vec<Action>, InstantOutOfRange>)
    ensures
        match r {
            Ok(acts) => {
                &&& can_pause(old(state)@, now_ns)
                &&& final(state)@ == paused_state(old(state)@, now_ns)
                &&& acts@ == pause_actions()
            },
            Err(_) => {
                &&& !can_pause(old(state)@, now_ns)
                &&& final(state)@ == old(state)@
            },
        },
{
    let mut update: Option<(String, String)> = None;
    match &state.session.end_time {
        Some(e) if !state.session.paused => {
            let secs: i64 = calculate_remaining_secs(e.as_str(), now_ns);
            let ms: i128 = secs as i128 * 1000;
            if ms < -0x8000_0000_0000_0000i128 || ms > 0x7fff_ffff_ffff_ffffi128 {
                return Err(InstantOutOfRange);
            }
            update = Some((format_i64(ms as i64), format_rfc3339(now_ns)));
        },
        _ => {},
    }
    state.cancel_timer();
    match update {
        Some((remaining, at)) => {
            state.session.remaining_time = Some(remaining);
            state.session.paused = true;
            state.session.paused_at = Some(at);
        },
        None => {},
    }
    let mut acts: Vec<Action> = Vec::new();
    acts.push(Action::AbortSessionTimer);
    acts.push(Action::UpdateTrayMenu { session_active: false, paused: true, on_break: false });
    acts.push(Action::SetTrayTitle(TrayTitle::SessionPaused));
    assert(acts@ =~= pause_actions());
    Ok(acts)
}

/// The state once the session has ended.
pub open spec fn ended(s: AppStateView) -> AppStateView {
    let s1 = if s.on_break {
        closed_break(s)
    } else {
        s
    };
    AppStateView { timer_cancelled: true, session: empty_session(), on_break: false, ..s1 }
}

/// What ending the session asks for.
pub open spec fn end_actions(s: AppStateView) -> Seq<Action> {
    seq![Action::Stats(StatsEvent::FlushFocus)] + (if s.on_break {
        close_break_actions()
    } else {
        Seq::empty()
    }) + seq![
        Action::AbortSessionTimer,
        Action::UpdateTrayMenu { session_active: false, paused: false, on_break: false },
        Action::ClearTrayTitle,
    ]
}

/// Ends the session, and any break.
pub fn end_session(state: &mut AppState) -> (r: Vec<Action>)
    ensures
        final(state)@ == ended(old(state)@),
        r@ == end_actions(old(state)@),
        !final(state)@.on_break,
        !session_active(final(state)@.session),
        old(state)@.on_break ==> final(state)@.break_cancelled && r@.contains(Action::AbortBreakTimer)
            && r@.contains(Action::CloseBreakWindows),
{
    let mut acts: Vec<Action> = Vec::new();
    acts.push(Action::Stats(StatsEvent::FlushFocus));
    if state.is_on_break() {
        close_break_windows_internal(state, &mut acts);
    }
    state.cancel_timer();
    acts.push(Action::AbortSessionTimer);
    state.reset_session();
    state.set_on_break(false);
    acts.push(Action::UpdateTrayMenu { session_active: false, paused: false, on_break: false });
    acts.push(Action::ClearTrayTitle);
    assert(acts@ =~= end_actions(old(state)@));
    proof {
        if old(state)@.on_break {
            assert(acts@[1] == Action::AbortBreakTimer);
            assert(acts@[2] == Action::CloseBreakWindows);
        }
    }
    acts
}

// ---------------------------------------------------------------------------
// Breaks

/// The coming break is a long one: long breaks are on and the configured
/// number of short breaks has been taken since the last long one.
pub open spec fn long_break_due(m: SettingMap, count: u64) -> bool {
    lookup_bool(m, "long_break_enabled"@) && count >= lookup_u64(m, "long_break_after"@)
}

/// The length of a break, in seconds.
pub open spec fn break_length(m: SettingMap, long_break: bool) -> u64 {
    if long_break {
        lookup_u64(m, "long_break_duration"@)
    } else {
        lookup_u64(m, "break_duration"@)
    }
}

/// The short break count after a break: back to zero after a long one.
pub open spec fn next_break_count(m: SettingMap, count: u64) -> u64 {
    if long_break_due(m, count) {
        0
    } else {
        (count + 1) as u64
    }
}

/// The state once a break has begun.
pub open spec fn break_started(s: AppStateView) -> AppStateView {
    AppStateView {
        short_break_count: next_break_count(s.settings, s.short_break_count),
        session: empty_session(),
        on_break: true,
        break_cancelled: false,
        ..s
    }
}

/// What beginning a break asks for.
pub open spec fn break_actions(s: AppStateView) -> Seq<Action> {
    let long_break = long_break_due(s.settings, s.short_break_count);
    let d = break_length(s.settings, long_break);
    seq![
        Action::UpdateTrayMenu { session_active: false, paused: false, on_break: true },
        Action::SetTrayTitle(TrayTitle::OnBreak),
        Action::OpenBreakWindows { long_break, duration: d },
        Action::StartBreakTimer(d),
    ]
}

fn create_break_windows_into(state: &mut AppState, acts: &mut Vec<Action>)
    requires
        old(state).short_break_count < u64::MAX,
    ensures
        final(state)@ == break_started(old(state)@),
        final(acts)@ == old(acts)@ + break_actions(old(state)@),
{
    let ghost a0 = acts@;
    let long_break_enabled = state.get_setting_bool("long_break_enabled");
    let long_break_after = state.get_setting_u64("long_break_after");
    let short_break_count = state.get_short_break_count();
    let is_long_break = long_break_enabled && short_break_count >= long_break_after;
    if is_long_break {
        state.reset_short_break_count();
    } else {
        state.increment_short_break_count();
    }
    let break_duration = if is_long_break {
        state.get_setting_u64("long_break_duration")
    } else {
        state.get_setting_u64("break_duration")
    };
    state.reset_session();
    state.set_on_break(true);
    state.reset_break_cancelled();
    acts.push(Action::UpdateTrayMenu { session_active: false, paused: false, on_break: true });
    acts.push(Action::SetTrayTitle(TrayTitle::OnBreak));
    acts.push(Action::OpenBreakWindows { long_break: is_long_break, duration: break_duration });
    acts.push(Action::StartBreakTimer(break_duration));
    assert(acts@ =~= a0 + break_actions(old(state)@));
}

/// Begins a break: long or short, windows on every display, its countdown.
pub fn create_break_windows(state: &mut AppState) -> (r: Vec<Action>)
    requires
        old(state).short_break_count < u64::MAX,
    ensures
        final(state)@ == break_started(old(state)@),
        r@ == break_actions(old(state)@),
        ({
            let m = old(state)@.settings;
            let long_break = lookup_bool(m, "long_break_enabled"@)
                && old(state)@.short_break_count >= lookup_u64(m, "long_break_after"@);
            let d = if long_break {
                lookup_u64(m, "long_break_duration"@)
            } else {
                lookup_u64(m, "break_duration"@)
            };
            &&& r@.contains(Action::OpenBreakWindows { long_break, duration: d })
            &&& r@.contains(Action::StartBreakTimer(d))
            &&& final(state)@.short_break_count == (if long_break { 0 } else { old(state)@.short_break_count + 1 })
        }),
{
    let mut acts: Vec<Action> = Vec::new();
    create_break_windows_into(state, &mut acts);
    assert(acts@ =~= break_actions(old(state)@));
    assert(acts@[2] == break_actions(old(state)@)[2]);
    assert(acts@[3] == break_actions(old(state)@)[3]);
    acts
}

/// Takes a break now, stopping the session countdown.
pub fn take_break_now(state: &mut AppState) -> (r: Vec<Action>)
    requires
        old(state).short_break_count < u64::MAX,
    ensures
        final(state)@ == break_started(AppStateView { timer_cancelled: true, ..old(state)@ }),
        r@ == seq![Action::AbortSessionTimer] + chime_actions(old(state)@.settings, ChimeEvent::BreakStart)
            + break_actions(old(state)@),
{
    let mut acts: Vec<Action> = Vec::new();
    state.cancel_timer();
    acts.push(Action::AbortSessionTimer);
    push_chime(&mut acts, &state.settings, ChimeEvent::BreakStart);
    create_break_windows_into(state, &mut acts);
    assert(acts@ =~= seq![Action::AbortSessionTimer] + chime_actions(old(state)@.settings, ChimeEvent::BreakStart)
        + break_actions(old(state)@));
    acts
}

/// Leaving a break for a new session: the statistics are told `outcome`, the
/// break windows close, then the session starts.
fn leave_break(
    state: &mut AppState,
    outcome: StatsEvent,
    chime: bool,
    custom_duration_secs: Option<u64>,
    now_ns: i64,
) -> (r: Result<Vec<Action>, InstantOutOfRange>)
    ensures
        match r {
            Ok(acts) => {
                &&& can_start(old(state)@, custom_duration_secs, false, now_ns)
                &&& final(state)@ == started(closed_break(old(state)@), custom_duration_secs, false, now_ns)
                &&& acts@ == seq![Action::Stats(outcome)] + close_break_actions()
                    + (if chime { chime_actions(old(state)@.settings, ChimeEvent::BreakEnd) } else { Seq::empty() })
                    + start_actions(closed_break(old(state)@))
                &&& remaining_secs(final(state)@.session.end_time.unwrap(), now_ns)
                    == whole_secs(session_length_ms(old(state)@, custom_duration_secs, false))
            },
            Err(_) => {
                &&& !can_start(old(state)@, custom_duration_secs, false, now_ns)
                &&& final(state)@ == old(state)@
            },
        },
{
    match plan_session(state, custom_duration_secs, false, now_ns) {
        None => Err(InstantOutOfRange),
        Some(plan) => {
            let mut acts: Vec<Action> = Vec::new();
            acts.push(Action::Stats(outcome));
            close_break_windows_internal(state, &mut acts);
            let ghost a1 = acts@;
            if chime {
                push_chime(&mut acts, &state.settings, ChimeEvent::BreakEnd);
            }
            let ghost a2 = acts@;
            assert(a2 == a1 + (if chime { chime_actions(old(state)@.settings, ChimeEvent::BreakEnd) } else { Seq::empty() }));
            let ghost closed = state@;
            apply_plan(state, plan, &mut acts);
            proof {
                assert(session_length_ms(closed, custom_duration_secs, false)
                    == session_length_ms(old(state)@, custom_duration_secs, false));
                lemma_whole_secs_of_millis(session_length_ms(old(state)@, custom_duration_secs, false));
            }
            Ok(acts)
        },
    }
}

/// The state once a break has ended and a new session of the configured length
/// has started at `now_ns`.
pub open spec fn break_ended(s: AppStateView, now_ns: i64) -> AppStateView {
    started(closed_break(s), None, false, now_ns)
}

/// What ending a break asks for: the statistics hear it completed, the break
/// windows close, its chime sounds if wanted, and the new session starts.
pub open spec fn break_end_actions(s: AppStateView) -> Seq<Action> {
    seq![Action::Stats(StatsEvent::BreakCompleted)] + close_break_actions() + chime_actions(
        s.settings,
        ChimeEvent::BreakEnd,
    ) + start_actions(closed_break(s))
}

/// Ends the break when it is over and starts a new session, with the chime
/// for a break's end.
pub fn end_break(state: &mut AppState, now_ns: i64) -> (r: Result<Vec<Action>, InstantOutOfRange>)
    ensures
        match r {
            Ok(acts) => {
                &&& can_start(old(state)@, None, false, now_ns)
                &&& final(state)@ == break_ended(old(state)@, now_ns)
                &&& acts@ == break_end_actions(old(state)@)
                &&& (acts@.contains(Action::PlayChime(ChimeEvent::BreakEnd)) <==> (lookup_bool(
                    old(state)@.settings,
                    "chime_enabled"@,
                ) && lookup_bool(old(state)@.settings, "chime_on_break_end"@)))
                &&& session_active(final(state)@.session) && !final(state)@.on_break
            },
            Err(_) => {
                &&& !can_start(old(state)@, None, false, now_ns)
                &&& final(state)@ == old(state)@
            },
        },
{
    proof {
        crate::laws::law_break_end_chime(old(state)@);
    }
    leave_break(state, StatsEvent::BreakCompleted, true, None, now_ns)
}

/// Skips the break and starts a session of the configured length, silently.
pub fn skip_break(state: &mut AppState, now_ns: i64) -> (r: Result<Vec<Action>, InstantOutOfRange>)
    ensures
        ({
            let d = Some(lookup_u64(old(state)@.settings, "session_duration"@));
            match r {
                Ok(acts) => {
                    &&& can_start(old(state)@, d, false, now_ns)
                    &&& final(state)@ == started(closed_break(old(state)@), d, false, now_ns)
                    &&& acts@ == seq![Action::Stats(StatsEvent::BreakSkipped)] + close_break_actions()
                        + start_actions(closed_break(old(state)@))
                    &&& remaining_secs(final(state)@.session.end_time.unwrap(), now_ns)
                        == lookup_u64(old(state)@.settings, "session_duration"@)
                },
                Err(_) => {
                    &&& !can_start(old(state)@, d, false, now_ns)
                    &&& final(state)@ == old(state)@
                },
            }
        }),
{
    let session_duration = state.get_setting_u64("session_duration");
    let r = leave_break(state, StatsEvent::BreakSkipped, false, Some(session_duration), now_ns);
    proof {
        if r is Ok {
            assert(r->Ok_0@ =~= seq![Action::Stats(StatsEvent::BreakSkipped)] + close_break_actions()
                + start_actions(closed_break(old(state)@)));
        }
    }
    r
}

/// A break window was closed from outside (by the user or the system): while a
/// break is on and the application is not closing the windows itself, the
/// break is skipped; otherwise nothing happens.
pub fn break_window_close_requested(state: &mut AppState, now_ns: i64) -> (r: Result<Vec<Action>, InstantOutOfRange>)
    ensures
        !(old(state)@.on_break && !old(state)@.break_closing) ==> r is Ok && r->Ok_0@ == Seq::<Action>::empty()
            && final(state)@ == old(state)@,
        old(state)@.on_break && !old(state)@.break_closing ==> ({
            let d = Some(lookup_u64(old(state)@.settings, "session_duration"@));
            match r {
                Ok(acts) => {
                    &&& can_start(old(state)@, d, false, now_ns)
                    &&& final(state)@ == started(closed_break(old(state)@), d, false, now_ns)
                    &&& acts@ == seq![Action::Stats(StatsEvent::BreakSkipped)] + close_break_actions()
                        + start_actions(closed_break(old(state)@))
                    &&& remaining_secs(final(state)@.session.end_time.unwrap(), now_ns)
                        == lookup_u64(old(state)@.settings, "session_duration"@)
                },
                Err(_) => {
                    &&& !can_start(old(state)@, d, false, now_ns)
                    &&& final(state)@ == old(state)@
                },
            }
        }),
{
    if state.is_on_break() && !state.is_break_closing() {
        skip_break(state, now_ns)
    } else {
        Ok(Vec::new())
    }
}

/// How long a snoozed break waits, in seconds.
pub const SNOOZE_SECS: u64 = 300;

/// Puts the break off for five minutes, silently.
pub fn snooze_break(state: &mut AppState, now_ns: i64) -> (r: Result<Vec<Action>, InstantOutOfRange>)
    ensures
        match r {
            Ok(acts) => {
                &&& can_start(old(state)@, Some(SNOOZE_SECS), false, now_ns)
                &&& final(state)@ == started(closed_break(old(state)@), Some(SNOOZE_SECS), false, now_ns)
                &&& acts@ == seq![Action::Stats(StatsEvent::BreakSkipped)] + close_break_actions()
                    + start_actions(closed_break(old(state)@))
                &&& remaining_secs(final(state)@.session.end_time.unwrap(), now_ns) == SNOOZE_SECS
            },
            Err(_) => {
                &&& !can_start(old(state)@, Some(SNOOZE_SECS), false, now_ns)
                &&& final(state)@ == old(state)@
            },
        },
{
    let r = leave_break(state, StatsEvent::BreakSkipped, false, Some(SNOOZE_SECS), now_ns);
    proof {
        if r is Ok {
            assert(r->Ok_0@ =~= seq![Action::Stats(StatsEvent::BreakSkipped)] + close_break_actions()
                + start_actions(closed_break(old(state)@)));
        }
    }
    r
}


// ---------------------------------------------------------------------------
// Countdowns

/// The break reminder is due: reminders are on and exactly the configured
/// number of seconds is left (that number read as an `i64`).
pub open spec fn reminder_due(m: SettingMap, remaining: int) -> bool {
    lookup_bool(m, "pre_break_reminder_enabled"@)
        && remaining == (lookup_u64(m, "pre_break_reminder_at"@) as i64) as int
}

/// What one second of a running session asks for, before any break begins.
pub open spec fn tick_actions(m: SettingMap, remaining: int) -> Seq<Action> {
    seq![Action::Stats(StatsEvent::FocusTick), Action::ShowRemaining(remaining as i64)] + (if reminder_due(
        m,
        remaining,
    ) {
        chime_actions(m, ChimeEvent::Reminder) + seq![
            Action::PreBreakReminder(lookup_u64(m, "pre_break_reminder_at"@)),
        ]
    } else {
        Seq::empty()
    })
}

/// One second of the session countdown at `now_ns`. Returns the actions and
/// whether the countdown goes on. A cancelled countdown does nothing; a
/// session without an end stops it; when no time is left the break begins.
pub fn session_timer_step(state: &mut AppState, now_ns: i64) -> (r: (Vec<Action>, bool))
    requires
        old(state).short_break_count < u64::MAX,
    ensures
        ({
            let s = old(state)@;
            if s.timer_cancelled {
                &&& r.0@ == Seq::<Action>::empty()
                &&& !r.1
                &&& final(state)@ == s
            } else if s.session.end_time is None {
                &&& r.0@ == seq![Action::Stats(StatsEvent::FocusTick)]
                &&& !r.1
                &&& final(state)@ == s
            } else {
                let rem = remaining_secs(s.session.end_time.unwrap(), now_ns);
                if rem <= 0 {
                    &&& r.0@ == tick_actions(s.settings, rem) + chime_actions(s.settings, ChimeEvent::BreakStart)
                        + break_actions(s)
                    &&& !r.1
                    &&& final(state)@ == break_started(s)
                } else {
                    &&& r.0@ == tick_actions(s.settings, rem)
                    &&& r.1
                    &&& final(state)@ == s
                }
            }
        }),
        !lookup_bool(old(state)@.settings, "pre_break_reminder_enabled"@) ==> forall|i: int|
            0 <= i < r.0@.len() ==> !(#[trigger] r.0@[i] is PreBreakReminder),
{
    let mut acts: Vec<Action> = Vec::new();
    if state.timer_cancelled {
        return (acts, false);
    }
    acts.push(Action::Stats(StatsEvent::FocusTick));
    let remaining: i64 = match &state.session.end_time {
        Some(e) => calculate_remaining_secs(e.as_str(), now_ns),
        None => {
            assert(acts@ =~= seq![Action::Stats(StatsEvent::FocusTick)]);
            return (acts, false);
        },
    };
    acts.push(Action::ShowRemaining(remaining));
    let pre_break_enabled = state.get_setting_bool("pre_break_reminder_enabled");
    let pre_break_at = state.get_setting_u64("pre_break_reminder_at");
    let ghost a1 = acts@;
    if pre_break_enabled && remaining == pre_break_at as i64 {
        push_chime(&mut acts, &state.settings, ChimeEvent::Reminder);
        acts.push(Action::PreBreakReminder(pre_break_at));
    }
    assert(acts@ =~= tick_actions(old(state)@.settings, remaining as int));
    proof {
        if !pre_break_enabled {
            assert(acts@ =~= seq![Action::Stats(StatsEvent::FocusTick), Action::ShowRemaining(remaining)]);
        }
    }
    if remaining <= 0 {
        let ghost t = acts@;
        push_chime(&mut acts, &state.settings, ChimeEvent::BreakStart);
        let ghost s0 = state@;
        create_break_windows_into(state, &mut acts);
        proof {
            let c = chime_actions(s0.settings, ChimeEvent::BreakStart);
            let b = break_actions(s0);
            assert(acts@ =~= t + c + b);
            if !pre_break_enabled {
                assert forall|i: int| 0 <= i < acts@.len() implies !(#[trigger] acts@[i] is PreBreakReminder) by {
                    if i < t.len() {
                        assert(acts@[i] == t[i]);
                    } else if i < t.len() + c.len() {
                        assert(acts@[i] == c[i - t.len()]);
                    } else {
                        assert(acts@[i] == b[i - t.len() - c.len()]);
                    }
                }
            }
        }
        return (acts, false);
    }
    (acts, true)
}

/// Where the break countdown stands after one more second.
#[derive(Clone, Copy, Debug, PartialEq, Eq, Structural)]
pub enum BreakTick {
    /// The countdown was told to stop.
    Cancelled,
    /// This many seconds are left.
    Tick(i64),
    /// The break is over; the last count shown.
    Over(i64),
}

/// The first count of a break countdown: its length read as an `i64`.
pub fn break_timer_start(break_duration: u64) -> (r: i64)
    ensures
        r == break_duration as i64,
{
    break_duration as i64
}

/// One second of the break countdown from `remaining`.
pub fn break_timer_step(state: &AppState, remaining: i64) -> (r: BreakTick)
    requires
        remaining > i64::MIN,
    ensures
        state@.break_cancelled ==> r == BreakTick::Cancelled,
        !state@.break_cancelled && remaining - 1 > 0 ==> r == BreakTick::Tick((remaining - 1) as i64),
        !state@.break_cancelled && remaining - 1 <= 0 ==> r == BreakTick::Over((remaining - 1) as i64),
{
    if state.break_cancelled {
        return BreakTick::Cancelled;
    }
    let next: i64 = remaining - 1;
    if next <= 0 {
        BreakTick::Over(next)
    } else {
        BreakTick::Tick(next)
    }
}

/// Ends a break whose countdown ran out and starts a new session: the same
/// state and actions as [`end_break`].
pub fn end_break_internal(state: &mut AppState, now_ns: i64) -> (r: Result<Vec<Action>, InstantOutOfRange>)
    ensures
        match r {
            Ok(acts) => {
                &&& can_start(old(state)@, None, false, now_ns)
                &&& final(state)@ == break_ended(old(state)@, now_ns)
                &&& acts@ == break_end_actions(old(state)@)
            },
            Err(_) => {
                &&& !can_start(old(state)@, None, false, now_ns)
                &&& final(state)@ == old(state)@
            },
        },
{
    leave_break(state, StatsEvent::BreakCompleted, true, None, now_ns)
}

/// After the break countdown runs out: if the break is still on, it ends and a
/// new session starts; otherwise nothing happens.
pub fn finish_break(state: &mut AppState, now_ns: i64) -> (r: Result<Vec<Action>, InstantOutOfRange>)
    ensures
        !old(state)@.on_break ==> r is Ok && r->Ok_0@ == Seq::<Action>::empty()
            && final(state)@ == old(state)@,
        old(state)@.on_break ==> match r {
            Ok(acts) => {
                &&& can_start(old(state)@, None, false, now_ns)
                &&& final(state)@ == break_ended(old(state)@, now_ns)
                &&& acts@ == break_end_actions(old(state)@)
            },
            Err(_) => {
                &&& !can_start(old(state)@, None, false, now_ns)
                &&& final(state)@ == old(state)@
            },
        },
{
    if state.is_on_break() {
        end_break_internal(state, now_ns)
    } else {
        Ok(Vec::new())
    }
}

// ---------------------------------------------------------------------------
// Settings and queries

/// A setting whose change re-registers the keyboard shortcuts.
pub open spec fn is_shortcut_setting(key: Seq<char>) -> bool {
    key == "shortcuts_enabled"@ || key == "shortcut_start_enabled"@ || key == "shortcut_pause_enabled"@
        || key == "shortcut_break_enabled"@ || key == "shortcut_skip_enabled"@
}

/// The seconds a new session length adds to the running session: the rise
/// over the previous length, when there is one.
pub open spec fn duration_raise(s: AppStateView, key: Seq<char>, value: SettingView) -> Option<u64> {
    if key == "session_duration"@ && session_active(s.session) {
        match value {
            SettingView::UInt(n) => {
                let prev = lookup_u64(s.settings, "session_duration"@);
                if n > prev {
                    Some((n - prev) as u64)
                } else {
                    None
                }
            },
            _ => None,
        }
    } else {
        None
    }
}

/// The state once `key` is set to `value`.
pub open spec fn setting_set(s: AppStateView, key: Seq<char>, value: SettingView, now_ns: i64) -> AppStateView {
    let s1 = match duration_raise(s, key, value) {
        Some(d) => time_added(s, d, now_ns),
        None => s,
    };
    AppStateView { settings: s.settings.insert(key, value), ..s1 }
}

/// What setting `key` to `value` asks for.
pub open spec fn setting_actions(key: Seq<char>, value: SettingView) -> Seq<Action> {
    (if key == "launch_at_login"@ {
        match value {
            SettingView::Bool(b) => seq![Action::SetAutostart(b)],
            _ => Seq::empty(),
        }
    } else {
        Seq::empty()
    }) + (if is_shortcut_setting(key) {
        seq![Action::ReregisterShortcuts]
    } else {
        Seq::empty()
    }) + seq![Action::SaveSettings]
}

/// Sets `key` to `value`, with what that setting sets off: a longer session
/// length extends the running session, the login setting goes to the system,
/// a shortcut setting re-registers the shortcuts; then the settings are saved.
pub fn set_setting(state: &mut AppState, key: &str, value: SettingValue, now_ns: i64) -> (r: Vec<Action>)
    ensures
        final(state)@ == setting_set(old(state)@, key@, value@, now_ns),
        r@ == setting_actions(key@, value@),
{
    let mut acts: Vec<Action> = Vec::new();
    if str_eq(key, "session_duration") {
        if state.session.end_time.is_some() && !state.session.paused {
            match &value {
                SettingValue::UInt(new_duration) => {
                    let prev_duration = state.get_setting_u64("session_duration");
                    if *new_duration > prev_duration {
                        let _ = add_time(state, *new_duration - prev_duration, now_ns);
                    }
                },
                _ => {},
            }
        }
    } else if str_eq(key, "launch_at_login") {
        match &value {
            SettingValue::Bool(enabled) => {
                acts.push(Action::SetAutostart(*enabled));
            },
            _ => {},
        }
    } else if str_eq(key, "shortcuts_enabled") || str_eq(key, "shortcut_start_enabled") || str_eq(
        key,
        "shortcut_pause_enabled",
    ) || str_eq(key, "shortcut_break_enabled") || str_eq(key, "shortcut_skip_enabled") {
        acts.push(Action::ReregisterShortcuts);
    }
    proof {
        reveal_strlit("session_duration");
        reveal_strlit("launch_at_login");
        reveal_strlit("shortcuts_enabled");
        reveal_strlit("shortcut_start_enabled");
        reveal_strlit("shortcut_pause_enabled");
        reveal_strlit("shortcut_break_enabled");
        reveal_strlit("shortcut_skip_enabled");
    }
    assert("session_duration"@.len() == 16);
    assert("launch_at_login"@.len() == 15);
    assert("shortcuts_enabled"@ != "session_duration"@);
    assert("shortcut_skip_enabled"@ != "launch_at_login"@);
    state.set_setting(key, value);
    acts.push(Action::SaveSettings);
    assert(acts@ =~= setting_actions(key@, value@));
    acts
}

/// The value of `key`, `Null` when it is not set.
pub fn get_setting(state: &AppState, key: &str) -> (r: SettingValue)
    ensures
        r@ == (if state@.settings.contains_key(key@) {
            state@.settings[key@]
        } else {
            SettingView::Null
        }),
{
    match state.get_setting(key) {
        Some(v) => v,
        None => SettingValue::Null,
    }
}

/// Puts the default settings back and saves them.
pub fn reset_settings(state: &mut AppState) -> (r: Vec<Action>)
    ensures
        final(state)@ == (AppStateView { settings: crate::settings::default_settings_map(), ..old(state)@ }),
        r@ == seq![Action::SaveSettings],
{
    state.reset_to_defaults();
    let mut acts: Vec<Action> = Vec::new();
    acts.push(Action::SaveSettings);
    assert(acts@ =~= seq![Action::SaveSettings]);
    acts
}

/// The message when the settings file is not yet known.
pub open spec fn no_config_path_text() -> Seq<char> {
    "Config path not initialized"@
}

/// Where the settings are stored.
pub fn get_config_path(state: &AppState) -> (r: Result<String, String>)
    ensures
        match r {
            Ok(p) => state@.settings_path == Some(p@),
            Err(e) => state@.settings_path is None && e@ == no_config_path_text(),
        },
{
    match state.get_settings_path() {
        Some(p) => Ok(p),
        None => Err(String::from_str("Config path not initialized")),
    }
}

/// The seconds the front end is shown: what was kept at the pause (whole
/// seconds of it, 0 if it does not read as a number), the seconds left in a
/// running session, and 0 without a session.
pub open spec fn reported_remaining(s: SessionView, now_ns: i64) -> int {
    match s.end_time {
        Some(e) => if s.paused {
            match s.remaining_time {
                Some(t) => match decimal_i64(t) {
                    Some(ms) => whole_secs(ms as int),
                    None => 0,
                },
                None => 0,
            }
        } else {
            remaining_secs(e, now_ns)
        },
        None => 0,
    }
}

/// The session as the front end sees it at `now_ns`.
pub fn get_session_state(state: &AppState, now_ns: i64) -> (r: SessionStateResponse)
    ensures
        r.is_paused == state@.session.paused,
        r.is_active == session_active(state@.session),
        opt_text(r.end_time) == state@.session.end_time,
        r.remaining_secs == reported_remaining(state@.session, now_ns),
        r.short_break_count == state@.short_break_count,
{
    let session = state.get_session();
    let is_paused = session.paused;
    let is_active = session.end_time.is_some() && !is_paused;
    let remaining_secs: i64 = match &session.end_time {
        Some(end_time) => {
            if is_paused {
                match &session.remaining_time {
                    Some(t) => match parse_i64(t.as_str()) {
                        Some(ms) => {
                            if ms >= 0 {
                                ms / 1000
                            } else {
                                let q: i128 = (0i128 - (ms as i128)) / 1000;
                                (0i128 - q) as i64
                            }
                        },
                        None => 0,
                    },
                    None => 0,
                }
            } else {
                calculate_remaining_secs(end_time.as_str(), now_ns)
            }
        },
        None => 0,
    };
    SessionStateResponse {
        is_active,
        is_paused,
        end_time: session.end_time,
        remaining_secs,
        short_break_count: state.get_short_break_count(),
    }
}

} // verus!
