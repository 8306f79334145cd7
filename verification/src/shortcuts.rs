//! Global keyboard shortcuts: which to register, and what a pressed one does.

use vstd::prelude::*;
use crate::actions::{Action, ChimeEvent, InstantOutOfRange, StatsEvent};
use crate::commands::{
    break_actions, break_end_actions, break_ended, break_started, can_pause, can_start, chime_actions, close_break_actions,
    closed_break, end_actions, end_break, end_session, ended, pause_actions, pause_session,
    paused_state, resume_session, skip_break, start_actions, start_session, started, take_break_now,
};
use crate::session::session_active;
use crate::settings::{SettingMap, lookup_bool, lookup_u64};
use crate::state::{AppState, AppStateView};
use crate::text::{ends_with, has_suffix};

verus! {

/// How many shortcuts there are.
pub const SHORTCUT_COUNT: usize = 4;

/// The key combination of shortcut `i`.
pub open spec fn accelerator_text(i: int) -> Seq<char> {
    if i == 0 {
        "CommandOrControl+Shift+N"@
    } else if i == 1 {
        "CommandOrControl+Shift+P"@
    } else if i == 2 {
        "CommandOrControl+Shift+B"@
    } else {
        "CommandOrControl+Shift+S"@
    }
}

/// The setting that turns shortcut `i` on.
pub open spec fn shortcut_setting_text(i: int) -> Seq<char> {
    if i == 0 {
        "shortcut_start_enabled"@
    } else if i == 1 {
        "shortcut_pause_enabled"@
    } else if i == 2 {
        "shortcut_break_enabled"@
    } else {
        "shortcut_skip_enabled"@
    }
}

/// The key combination of shortcut `i`.
pub fn shortcut_accelerator(i: usize) -> (r: &'static str)
    requires
        i < SHORTCUT_COUNT,
    ensures
        r@ == accelerator_text(i as int),
{
    if i == 0 {
        "CommandOrControl+Shift+N"
    } else if i == 1 {
        "CommandOrControl+Shift+P"
    } else if i == 2 {
        "CommandOrControl+Shift+B"
    } else {
        "CommandOrControl+Shift+S"
    }
}

/// What shortcut `i` is for.
pub fn shortcut_name(i: usize) -> (r: &'static str)
    requires
        i < SHORTCUT_COUNT,
    ensures
        r@ == (if i == 0 {
            "Start session"@
        } else if i == 1 {
            "Pause/Resume"@
        } else if i == 2 {
            "Take/End break"@
        } else {
            "Skip break"@
        }),
{
    if i == 0 {
        "Start session"
    } else if i == 1 {
        "Pause/Resume"
    } else if i == 2 {
        "Take/End break"
    } else {
        "Skip break"
    }
}

/// The setting that turns shortcut `i` on.
pub fn shortcut_setting(i: usize) -> (r: &'static str)
    requires
        i < SHORTCUT_COUNT,
    ensures
        r@ == shortcut_setting_text(i as int),
{
    if i == 0 {
        "shortcut_start_enabled"
    } else if i == 1 {
        "shortcut_pause_enabled"
    } else if i == 2 {
        "shortcut_break_enabled"
    } else {
        "shortcut_skip_enabled"
    }
}

/// Shortcut `i` is to be registered: shortcuts are on, and so is this one.
pub open spec fn shortcut_wanted(m: SettingMap, i: int) -> bool {
    lookup_bool(m, "shortcuts_enabled"@) && lookup_bool(m, shortcut_setting_text(i))
}

/// The shortcuts to register, by position, in order.
pub fn shortcuts_to_register(state: &AppState) -> (r: Vec<usize>)
    ensures
        forall|j: int| 0 <= j < r@.len() ==> r@[j] < SHORTCUT_COUNT && shortcut_wanted(state@.settings, r@[j] as int),
        forall|i: int| 0 <= i < SHORTCUT_COUNT && shortcut_wanted(state@.settings, i) ==> r@.contains(i as usize),
        forall|j: int, k: int| 0 <= j < k < r@.len() ==> r@[j] < r@[k],
{
    let mut r: Vec<usize> = Vec::new();
    if !state.get_setting_bool("shortcuts_enabled") {
        return r;
    }
    let mut i: usize = 0;
    while i < SHORTCUT_COUNT
        invariant
            i <= SHORTCUT_COUNT,
            lookup_bool(state@.settings, "shortcuts_enabled"@),
            forall|j: int| 0 <= j < r@.len() ==> r@[j] < i && shortcut_wanted(state@.settings, r@[j] as int),
            forall|k: int| 0 <= k < i && shortcut_wanted(state@.settings, k) ==> r@.contains(k as usize),
            forall|j: int, k: int| 0 <= j < k < r@.len() ==> r@[j] < r@[k],
        decreases SHORTCUT_COUNT - i,
    {
        if state.get_setting_bool(shortcut_setting(i)) {
            let ghost before = r@;
            r.push(i);
            proof {
                assert forall|k: int| 0 <= k < i + 1 && shortcut_wanted(state@.settings, k) implies r@.contains(k as usize) by {
                    if k < i {
                        let w = choose|w: int| 0 <= w < before.len() && before[w] == k as usize;
                        assert(r@[w] == k as usize);
                    } else {
                        assert(r@[r@.len() - 1] == i);
                    }
                }
            }
        }
        i = i + 1;
    }
    r
}

/// The text in upper case, as Rust's `str::to_uppercase` writes it.
pub uninterp spec fn uppercase_text(s: Seq<char>) -> Seq<char>;

/// Calls `str::to_uppercase`. The contract only names the result; how each
/// character maps is left unsaid.
#[verifier::external_body]
fn to_uppercase(s: &str) -> (r: String)
    ensures
        r@ == uppercase_text(s@),
{
    s.to_uppercase()
}

/// The four things a shortcut can be for.
#[derive(Clone, Copy, Debug, PartialEq, Eq, Structural)]
pub enum ShortcutKey {
    Break,
    Pause,
    Skip,
    Start,
}

/// Which shortcut an upper-case description names, by the key at its end
/// (`KEYB` or `+B`, and so on).
pub open spec fn shortcut_kind(upper: Seq<char>) -> Option<ShortcutKey> {
    if has_suffix(upper, "KEYB"@) || has_suffix(upper, "+B"@) {
        Some(ShortcutKey::Break)
    } else if has_suffix(upper, "KEYP"@) || has_suffix(upper, "+P"@) {
        Some(ShortcutKey::Pause)
    } else if has_suffix(upper, "KEYS"@) || has_suffix(upper, "+S"@) {
        Some(ShortcutKey::Skip)
    } else if has_suffix(upper, "KEYN"@) || has_suffix(upper, "+N"@) {
        Some(ShortcutKey::Start)
    } else {
        None
    }
}

/// Which shortcut an upper-case description names.
pub fn classify_shortcut(upper: &str) -> (r: Option<ShortcutKey>)
    ensures
        r == shortcut_kind(upper@),
{
    if ends_with(upper, "KEYB") || ends_with(upper, "+B") {
        Some(ShortcutKey::Break)
    } else if ends_with(upper, "KEYP") || ends_with(upper, "+P") {
        Some(ShortcutKey::Pause)
    } else if ends_with(upper, "KEYS") || ends_with(upper, "+S") {
        Some(ShortcutKey::Skip)
    } else if ends_with(upper, "KEYN") || ends_with(upper, "+N") {
        Some(ShortcutKey::Start)
    } else {
        None
    }
}

/// Which shortcut a description such as `shift+super+KeyB` names.
pub fn shortcut_key(shortcut: &str) -> (r: Option<ShortcutKey>)
    ensures
        r == shortcut_kind(uppercase_text(shortcut@)),
{
    let upper = to_uppercase(shortcut);
    classify_shortcut(upper.as_str())
}

/// The commands a shortcut can run.
#[derive(Clone, Copy, Debug, PartialEq, Eq, Structural)]
pub enum ShortcutCommand {
    StartSession,
    EndSession,
    PauseSession,
    ResumeSession,
    TakeBreakNow,
    EndBreak,
    SkipBreak,
}

/// What a shortcut does in state `s`: the break key ends a break or takes one
/// during a session; the pause key resumes or pauses; the skip key skips a
/// break; the start key ends a break, ends a running session, or starts one.
pub open spec fn shortcut_decision(s: AppStateView, key: ShortcutKey) -> Option<ShortcutCommand> {
    match key {
        ShortcutKey::Break => if s.on_break {
            Some(ShortcutCommand::EndBreak)
        } else if session_active(s.session) {
            Some(ShortcutCommand::TakeBreakNow)
        } else {
            None
        },
        ShortcutKey::Pause => if s.session.paused {
            Some(ShortcutCommand::ResumeSession)
        } else if s.session.end_time is Some {
            Some(ShortcutCommand::PauseSession)
        } else {
            None
        },
        ShortcutKey::Skip => if s.on_break {
            Some(ShortcutCommand::SkipBreak)
        } else {
            None
        },
        ShortcutKey::Start => if s.on_break {
            Some(ShortcutCommand::EndBreak)
        } else if session_active(s.session) {
            Some(ShortcutCommand::EndSession)
        } else {
            Some(ShortcutCommand::StartSession)
        },
    }
}

/// What a shortcut does in the current state.
pub fn shortcut_command(state: &AppState, key: ShortcutKey) -> (r: Option<ShortcutCommand>)
    ensures
        r == shortcut_decision(state@, key),
{
    match key {
        ShortcutKey::Break => if state.is_on_break() {
            Some(ShortcutCommand::EndBreak)
        } else if state.is_session_active() {
            Some(ShortcutCommand::TakeBreakNow)
        } else {
            None
        },
        ShortcutKey::Pause => if state.session.paused {
            Some(ShortcutCommand::ResumeSession)
        } else if state.session.end_time.is_some() {
            Some(ShortcutCommand::PauseSession)
        } else {
            None
        },
        ShortcutKey::Skip => if state.is_on_break() {
            Some(ShortcutCommand::SkipBreak)
        } else {
            None
        },
        ShortcutKey::Start => if state.is_on_break() {
            Some(ShortcutCommand::EndBreak)
        } else if state.is_session_active() {
            Some(ShortcutCommand::EndSession)
        } else {
            Some(ShortcutCommand::StartSession)
        },
    }
}

/// What running `cmd` at `now_ns` makes of state `s` and asks for; `None`
/// where an instant it writes cannot be written, and the state stays.
pub open spec fn command_effect(s: AppStateView, cmd: ShortcutCommand, now_ns: i64) -> Option<(AppStateView, Seq<Action>)> {
    match cmd {
        ShortcutCommand::StartSession => if can_start(s, None, false, now_ns) {
            Some((started(s, None, false, now_ns), chime_actions(s.settings, ChimeEvent::SessionStart) + start_actions(s)))
        } else {
            None
        },
        ShortcutCommand::EndSession => Some((ended(s), end_actions(s))),
        ShortcutCommand::PauseSession => if can_pause(s, now_ns) {
            Some((paused_state(s, now_ns), pause_actions()))
        } else {
            None
        },
        ShortcutCommand::ResumeSession => if !s.session.paused {
            Some((s, Seq::empty()))
        } else if can_start(s, None, true, now_ns) {
            Some((started(s, None, true, now_ns), start_actions(s)))
        } else {
            None
        },
        ShortcutCommand::TakeBreakNow => Some((
            break_started(AppStateView { timer_cancelled: true, ..s }),
            seq![Action::AbortSessionTimer] + chime_actions(s.settings, ChimeEvent::BreakStart) + break_actions(s),
        )),
        ShortcutCommand::EndBreak => if can_start(s, None, false, now_ns) {
            Some((break_ended(s, now_ns), break_end_actions(s)))
        } else {
            None
        },
        ShortcutCommand::SkipBreak => {
            let d = Some(lookup_u64(s.settings, "session_duration"@));
            if can_start(s, d, false, now_ns) {
                Some((
                    started(closed_break(s), d, false, now_ns),
                    seq![Action::Stats(StatsEvent::BreakSkipped)] + close_break_actions() + start_actions(closed_break(s)),
                ))
            } else {
                None
            }
        },
    }
}

/// Runs `cmd` at `now_ns`.
pub fn run_command(state: &mut AppState, cmd: ShortcutCommand, now_ns: i64) -> (r: Result<Vec<Action>, InstantOutOfRange>)
    requires
        old(state).short_break_count < u64::MAX,
    ensures
        match command_effect(old(state)@, cmd, now_ns) {
            Some((t, a)) => r is Ok && final(state)@ == t && r->Ok_0@ == a,
            None => r is Err && final(state)@ == old(state)@,
        },
{
    match cmd {
        ShortcutCommand::StartSession => start_session(state, now_ns),
        ShortcutCommand::EndSession => Ok(end_session(state)),
        ShortcutCommand::PauseSession => pause_session(state, now_ns),
        ShortcutCommand::ResumeSession => resume_session(state, now_ns),
        ShortcutCommand::TakeBreakNow => Ok(take_break_now(state)),
        ShortcutCommand::EndBreak => end_break(state, now_ns),
        ShortcutCommand::SkipBreak => skip_break(state, now_ns),
    }
}

/// Handles a pressed shortcut described as `shortcut` (such as
/// `shift+super+KeyB`): nothing while shortcuts are off or when it names no
/// command in the current state, else that command.
pub fn handle_shortcut(state: &mut AppState, shortcut: &str, now_ns: i64) -> (r: Result<Vec<Action>, InstantOutOfRange>)
    requires
        old(state).short_break_count < u64::MAX,
    ensures
        ({
            let s = old(state)@;
            let cmd = match shortcut_kind(uppercase_text(shortcut@)) {
                Some(k) => shortcut_decision(s, k),
                None => None,
            };
            if !lookup_bool(s.settings, "shortcuts_enabled"@) || cmd is None {
                r is Ok && r->Ok_0@ == Seq::<Action>::empty() && final(state)@ == s
            } else {
                match command_effect(s, cmd.unwrap(), now_ns) {
                    Some((t, a)) => r is Ok && final(state)@ == t && r->Ok_0@ == a,
                    None => r is Err && final(state)@ == s,
                }
            }
        }),
        lookup_bool(old(state)@.settings, "shortcuts_enabled"@) && old(state)@.on_break
            && shortcut_kind(uppercase_text(shortcut@)) == Some(ShortcutKey::Start) && r is Ok
            ==> session_active(final(state)@.session) && !final(state)@.on_break,
{
    if !state.get_setting_bool("shortcuts_enabled") {
        return Ok(Vec::new());
    }
    let cmd = match shortcut_key(shortcut) {
        Some(k) => shortcut_command(state, k),
        None => None,
    };
    match cmd {
        Some(c) => run_command(state, c, now_ns),
        None => Ok(Vec::new()),
    }
}

} // verus!
