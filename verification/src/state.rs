//! The application's state and its accessors.

use vstd::prelude::*;
use crate::session::{Session, SessionView, clone_text, empty_session, opt_text, session_active};
use crate::settings::{
    SettingMap, SettingValue, SettingView, Settings, default_settings_map, get_default_settings,
    json_of_settings, lists_settings, names_distinct, same_entries, lookup_bool, lookup_str, lookup_u64, pair_views,
    parse_settings_json, settings_of_json, with_pairs, write_settings_json,
};

verus! {

/// Everything the timer keeps between events.
pub struct AppState {
    /// The current work session.
    pub session: Session,
    /// The session countdown has been told to stop.
    pub timer_cancelled: bool,
    /// The break countdown has been told to stop.
    pub break_cancelled: bool,
    /// Current settings.
    pub settings: Settings,
    /// Where the settings are stored, once known.
    pub settings_path: Option<String>,
    /// Short breaks taken since the last long break.
    pub short_break_count: u64,
    /// A break is under way.
    pub on_break: bool,
    /// The break windows are being closed by the application itself.
    pub break_closing: bool,
}

/// What an [`AppState`] holds.
pub struct AppStateView {
    pub session: SessionView,
    pub timer_cancelled: bool,
    pub break_cancelled: bool,
    pub settings: SettingMap,
    pub settings_path: Option<Seq<char>>,
    pub short_break_count: u64,
    pub on_break: bool,
    pub break_closing: bool,
}

impl View for AppState {
    type V = AppStateView;

    open spec fn view(&self) -> AppStateView {
        AppStateView {
            session: self.session@,
            timer_cancelled: self.timer_cancelled,
            break_cancelled: self.break_cancelled,
            settings: self.settings@,
            settings_path: opt_text(self.settings_path),
            short_break_count: self.short_break_count,
            on_break: self.on_break,
            break_closing: self.break_closing,
        }
    }
}

/// The state of a freshly started application.
pub open spec fn initial_state() -> AppStateView {
    AppStateView {
        session: empty_session(),
        timer_cancelled: false,
        break_cancelled: false,
        settings: default_settings_map(),
        settings_path: None,
        short_break_count: 0,
        on_break: false,
        break_closing: false,
    }
}

/// A list of distinct names with the same entries as a list of `m` lists `m`.
pub proof fn lemma_same_entries_list(m: SettingMap, v: Seq<(Seq<char>, SettingView)>, w: Seq<(Seq<char>, SettingView)>)
    requires
        lists_settings(m, v),
        names_distinct(w),
        same_entries(w, v),
    ensures
        lists_settings(m, w),
{
    assert forall|k: Seq<char>| #[trigger] m.contains_key(k) <==> exists|i: int| 0 <= i < w.len() && w[i].0 == k by {
        if m.contains_key(k) {
            let i = choose|i: int| 0 <= i < v.len() && v[i].0 == k;
            assert(v.contains(v[i]));
            assert(w.contains(v[i]));
            let j = choose|j: int| 0 <= j < w.len() && w[j] == v[i];
            assert(w[j].0 == k);
        }
        if exists|j: int| 0 <= j < w.len() && w[j].0 == k {
            let j = choose|j: int| 0 <= j < w.len() && w[j].0 == k;
            assert(w.contains(w[j]));
            assert(v.contains(w[j]));
            let i = choose|i: int| 0 <= i < v.len() && v[i] == w[j];
            assert(v[i].0 == k);
        }
    }
    assert forall|j: int| 0 <= j < w.len() implies #[trigger] m[w[j].0] == w[j].1 by {
        assert(w.contains(w[j]));
        assert(v.contains(w[j]));
        let i = choose|i: int| 0 <= i < v.len() && v[i] == w[j];
        assert(m[v[i].0] == v[i].1);
    }
}

impl AppState {
    /// A fresh state: no session, default settings, no path, nothing flagged.
    pub fn new() -> (s: Self)
        ensures
            s@ == initial_state(),
    {
        AppState {
            session: Session::default(),
            timer_cancelled: false,
            break_cancelled: false,
            settings: get_default_settings(),
            settings_path: None,
            short_break_count: 0,
            on_break: false,
            break_closing: false,
        }
    }

    /// Replaces the settings with the defaults overridden by `loaded`, each
    /// loaded pair in turn.
    pub fn load_settings(&mut self, loaded: Vec<(String, SettingValue)>)
        ensures
            final(self)@ == (AppStateView {
                settings: with_pairs(default_settings_map(), pair_views(loaded@)),
                ..old(self)@
            }),
    {
        let mut s = get_default_settings();
        s.insert_all(loaded);
        self.settings = s;
    }

    /// Loads settings from the text of the settings file: the defaults
    /// overridden by what the text holds, in turn. Text that is not a JSON
    /// object changes nothing and gives `false`.
    pub fn load_settings_text(&mut self, text: &str) -> (r: bool)
        ensures
            match settings_of_json(text@) {
                Some(v) => r && final(self)@ == (AppStateView {
                    settings: with_pairs(default_settings_map(), v),
                    ..old(self)@
                }),
                None => !r && final(self)@ == old(self)@,
            },
    {
        match parse_settings_json(text) {
            Some(pairs) => {
                self.load_settings(pairs);
                true
            },
            None => false,
        }
    }

    /// The text of the settings file for the current settings: the JSON object
    /// of a list that holds each setting once. Where no setting is kept as raw
    /// JSON, the text reads back as a list of exactly the current settings.
    pub fn settings_json(&self) -> (r: String)
        ensures
            exists|v: Seq<(Seq<char>, SettingView)>| lists_settings(self@.settings, v) && r@ == json_of_settings(v),
            (forall|k: Seq<char>| #[trigger] self@.settings.contains_key(k) ==> !(self@.settings[k] is Json))
                ==> match settings_of_json(r@) {
                Some(w) => lists_settings(self@.settings, w),
                None => false,
            },
    {
        let pairs = self.settings.to_pairs();
        let text = write_settings_json(&pairs);
        let ghost v = pair_views(pairs@);
        assert(lists_settings(self@.settings, v));
        proof {
            if forall|k: Seq<char>| #[trigger] self@.settings.contains_key(k) ==> !(self@.settings[k] is Json) {
                assert forall|i: int| 0 <= i < v.len() implies !(v[i].1 is Json) by {
                    assert(self@.settings.contains_key(v[i].0));
                }
                let w = settings_of_json(text@).unwrap();
                lemma_same_entries_list(self@.settings, v, w);
            }
        }
        text
    }

    /// Puts the default settings back.
    pub fn reset_to_defaults(&mut self)
        ensures
            final(self)@ == (AppStateView { settings: default_settings_map(), ..old(self)@ }),
    {
        self.settings = get_default_settings();
    }

    /// Where the settings are stored, if known.
    pub fn get_settings_path(&self) -> (r: Option<String>)
        ensures
            opt_text(r) == self@.settings_path,
    {
        clone_text(&self.settings_path)
    }

    /// The value stored under `key`.
    pub fn get_setting(&self, key: &str) -> (r: Option<SettingValue>)
        ensures
            match r {
                Some(v) => self@.settings.contains_key(key@) && v@ == self@.settings[key@],
                None => !self@.settings.contains_key(key@),
            },
    {
        match self.settings.get(key) {
            Some(v) => Some(v.clone()),
            None => None,
        }
    }

    /// Stores `value` under `key`.
    pub fn set_setting(&mut self, key: &str, value: SettingValue)
        ensures
            final(self)@ == (AppStateView {
                settings: old(self)@.settings.insert(key@, value@),
                ..old(self)@
            }),
    {
        self.settings.insert(key.to_owned(), value);
    }

    /// The setting under `key` as a boolean, `false` when missing or not one.
    pub fn get_setting_bool(&self, key: &str) -> (r: bool)
        ensures
            r == lookup_bool(self@.settings, key@),
    {
        self.settings.get_bool(key)
    }

    /// The setting under `key` as an unsigned integer, 0 when missing or not one.
    pub fn get_setting_u64(&self, key: &str) -> (r: u64)
        ensures
            r == lookup_u64(self@.settings, key@),
    {
        self.settings.get_u64(key)
    }

    /// The setting under `key` as a string, empty when missing or not one.
    pub fn get_setting_string(&self, key: &str) -> (r: String)
        ensures
            r@ == lookup_str(self@.settings, key@),
    {
        self.settings.get_string(key)
    }

    /// A copy of the current session.
    pub fn get_session(&self) -> (r: Session)
        ensures
            r@ == self@.session,
    {
        self.session.clone()
    }

    /// Replaces the session with what `f` makes of it.
    pub fn update_session<F: FnOnce(Session) -> Session>(&mut self, f: F)
        requires
            f.requires((old(self).session,)),
        ensures
            f.ensures((old(self).session,), final(self).session),
            final(self)@ == (AppStateView { session: final(self)@.session, ..old(self)@ }),
    {
        let mut current = Session::default();
        std::mem::swap(&mut current, &mut self.session);
        self.session = f(current);
    }

    /// Clears the session.
    pub fn reset_session(&mut self)
        ensures
            final(self)@ == (AppStateView { session: empty_session(), ..old(self)@ }),
    {
        self.session = Session::default();
    }

    /// A session is running: it has an end and is not paused.
    pub fn is_session_active(&self) -> (r: bool)
        ensures
            r == session_active(self@.session),
    {
        self.session.end_time.is_some() && !self.session.paused
    }

    /// Short breaks since the last long one.
    pub fn get_short_break_count(&self) -> (r: u64)
        ensures
            r == self@.short_break_count,
    {
        self.short_break_count
    }

    /// Counts one more short break.
    pub fn increment_short_break_count(&mut self)
        requires
            old(self).short_break_count < u64::MAX,
        ensures
            final(self)@ == (AppStateView {
                short_break_count: (old(self).short_break_count + 1) as u64,
                ..old(self)@
            }),
    {
        self.short_break_count = self.short_break_count + 1;
    }

    /// Sets the short break count back to zero.
    pub fn reset_short_break_count(&mut self)
        ensures
            final(self)@ == (AppStateView { short_break_count: 0, ..old(self)@ }),
    {
        self.short_break_count = 0;
    }

    /// Tells the session countdown to stop.
    pub fn cancel_timer(&mut self)
        ensures
            final(self)@ == (AppStateView { timer_cancelled: true, ..old(self)@ }),
    {
        self.timer_cancelled = true;
    }

    /// Lets a session countdown run again.
    pub fn reset_timer_cancelled(&mut self)
        ensures
            final(self)@ == (AppStateView { timer_cancelled: false, ..old(self)@ }),
    {
        self.timer_cancelled = false;
    }

    /// A break is under way.
    pub fn is_on_break(&self) -> (r: bool)
        ensures
            r == self@.on_break,
    {
        self.on_break
    }

    /// Records whether a break is under way.
    pub fn set_on_break(&mut self, value: bool)
        ensures
            final(self)@ == (AppStateView { on_break: value, ..old(self)@ }),
    {
        self.on_break = value;
    }

    /// Tells the break countdown to stop.
    pub fn cancel_break_timer(&mut self)
        ensures
            final(self)@ == (AppStateView { break_cancelled: true, ..old(self)@ }),
    {
        self.break_cancelled = true;
    }

    /// Lets a break countdown run again.
    pub fn reset_break_cancelled(&mut self)
        ensures
            final(self)@ == (AppStateView { break_cancelled: false, ..old(self)@ }),
    {
        self.break_cancelled = false;
    }

    /// The break windows are being closed by the application itself.
    pub fn is_break_closing(&self) -> (r: bool)
        ensures
            r == self@.break_closing,
    {
        self.break_closing
    }

    /// Records whether the break windows are being closed by the application.
    pub fn set_break_closing(&mut self, value: bool)
        ensures
            final(self)@ == (AppStateView { break_closing: value, ..old(self)@ }),
    {
        self.break_closing = value;
    }
}

impl Default for AppState {
    fn default() -> (s: Self)
        ensures
            s@ == initial_state(),
    {
        AppState::new()
    }
}

} // verus!
