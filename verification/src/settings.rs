//! Settings: a map from setting names to JSON-like values, with defaults and
//! typed reads.

use vstd::prelude::*;
use vstd::string::*;
use crate::defaults::{
    BREAK_NOTIFICATION_AT, DEFAULT_BREAK_DURATION, DEFAULT_INTERVAL_DURATION,
    DEFAULT_LONG_BREAK_AFTER, DEFAULT_LONG_BREAK_DURATION,
};

verus! {

/// A setting's value. `Json` holds, as its JSON text, any value that is none
/// of the others (a negative or fractional number, an array or an object).
#[derive(Debug, PartialEq)]
pub enum SettingValue {
    Null,
    Bool(bool),
    UInt(u64),
    Str(String),
    Json(String),
}

/// What a [`SettingValue`] holds, with its text as a sequence of characters.
pub enum SettingView {
    Null,
    Bool(bool),
    UInt(u64),
    Str(Seq<char>),
    Json(Seq<char>),
}

impl View for SettingValue {
    type V = SettingView;

    open spec fn view(&self) -> SettingView {
        match self {
            SettingValue::Null => SettingView::Null,
            SettingValue::Bool(b) => SettingView::Bool(*b),
            SettingValue::UInt(n) => SettingView::UInt(*n),
            SettingValue::Str(s) => SettingView::Str(s@),
            SettingValue::Json(s) => SettingView::Json(s@),
        }
    }
}

impl Clone for SettingValue {
    fn clone(&self) -> (r: Self)
        ensures
            r@ == self@,
    {
        match self {
            SettingValue::Null => SettingValue::Null,
            SettingValue::Bool(b) => SettingValue::Bool(*b),
            SettingValue::UInt(n) => SettingValue::UInt(*n),
            SettingValue::Str(s) => SettingValue::Str(s.clone()),
            SettingValue::Json(s) => SettingValue::Json(s.clone()),
        }
    }
}

/// The map that a setting table stands for.
pub type SettingMap = Map<Seq<char>, SettingView>;

/// A setting read as a boolean: `false` when missing or not a boolean.
pub open spec fn lookup_bool(m: SettingMap, key: Seq<char>) -> bool {
    if m.contains_key(key) {
        match m[key] {
            SettingView::Bool(b) => b,
            _ => false,
        }
    } else {
        false
    }
}

/// A setting read as an unsigned integer: 0 when missing or not one.
pub open spec fn lookup_u64(m: SettingMap, key: Seq<char>) -> u64 {
    if m.contains_key(key) {
        match m[key] {
            SettingView::UInt(n) => n,
            _ => 0,
        }
    } else {
        0
    }
}

/// A setting read as a string: empty when missing or not a string.
pub open spec fn lookup_str(m: SettingMap, key: Seq<char>) -> Seq<char> {
    if m.contains_key(key) {
        match m[key] {
            SettingView::Str(s) => s,
            _ => Seq::empty(),
        }
    } else {
        Seq::empty()
    }
}

/// `m` with each pair of `pairs` written into it in turn, the later of two
/// pairs with one key winning.
pub open spec fn with_pairs(m: SettingMap, pairs: Seq<(Seq<char>, SettingView)>) -> SettingMap
    decreases pairs.len(),
{
    if pairs.len() == 0 {
        m
    } else {
        with_pairs(m, pairs.drop_last()).insert(pairs.last().0, pairs.last().1)
    }
}

/// The views of a list of named values.
pub open spec fn pair_views(pairs: Seq<(String, SettingValue)>) -> Seq<(Seq<char>, SettingView)> {
    pairs.map_values(|p: (String, SettingValue)| (p.0@, p.1@))
}

/// `pairs` lists the settings of `m`: each name once, with its value.
pub open spec fn lists_settings(m: SettingMap, pairs: Seq<(Seq<char>, SettingView)>) -> bool {
    &&& forall|k: Seq<char>| #[trigger] m.contains_key(k) <==> exists|i: int| 0 <= i < pairs.len() && pairs[i].0 == k
    &&& forall|i: int| 0 <= i < pairs.len() ==> #[trigger] m[pairs[i].0] == pairs[i].1
    &&& forall|i: int, j: int| 0 <= i < pairs.len() && 0 <= j < pairs.len() && i != j ==> pairs[i].0 != pairs[j].0
}

/// No name occurs twice in `pairs`.
pub open spec fn names_distinct(pairs: Seq<(Seq<char>, SettingView)>) -> bool {
    forall|i: int, j: int| 0 <= i < pairs.len() && 0 <= j < pairs.len() && i != j ==> pairs[i].0 != pairs[j].0
}

/// No value in `pairs` is kept as raw JSON text.
pub open spec fn no_json_values(pairs: Seq<(Seq<char>, SettingView)>) -> bool {
    forall|i: int| 0 <= i < pairs.len() ==> !(pairs[i].1 is Json)
}

/// `a` and `b` hold the same named values, whatever their order.
pub open spec fn same_entries(a: Seq<(Seq<char>, SettingView)>, b: Seq<(Seq<char>, SettingView)>) -> bool {
    forall|p: (Seq<char>, SettingView)| a.contains(p) <==> b.contains(p)
}

/// The named values that serde_json reads from `text` as a JSON object, in the
/// order of its map (by name), or `None` where `text` is not a JSON object.
pub uninterp spec fn settings_of_json(text: Seq<char>) -> Option<Seq<(Seq<char>, SettingView)>>;

/// The pretty JSON object text that serde_json writes for the named values.
pub uninterp spec fn json_of_settings(pairs: Seq<(Seq<char>, SettingView)>) -> Seq<char>;

/// Calls `serde_json::from_str` for a `serde_json::Map<String, Value>` and
/// turns each value into a [`SettingValue`]: null, booleans and strings as
/// themselves, a number as `UInt` where `Number::as_u64` gives one and as its
/// text otherwise, arrays and objects as their text. The contract only names
/// the result; which texts parse is left unsaid.
#[verifier::external_body]
pub(crate) fn parse_settings_json(text: &str) -> (r: Option<Vec<(String, SettingValue)>>)
    ensures
        match r {
            Some(p) => settings_of_json(text@) == Some(pair_views(p@)),
            None => settings_of_json(text@) is None,
        },
{
    let map = serde_json::from_str::<serde_json::Map<String, serde_json::Value>>(text).ok()?;
    Some(map.into_iter().map(|(k, v)| (k, match v {
        serde_json::Value::Null => SettingValue::Null,
        serde_json::Value::Bool(b) => SettingValue::Bool(b),
        serde_json::Value::String(t) => SettingValue::Str(t),
        serde_json::Value::Number(n) => match n.as_u64() {
            Some(u) => SettingValue::UInt(u),
            None => SettingValue::Json(n.to_string()),
        },
        other => SettingValue::Json(other.to_string()),
    })).collect())
}

/// Calls `serde_json::to_string_pretty` on the JSON object of `pairs`, each
/// value turned into a `serde_json::Value` (a `Json` value read back with
/// `serde_json::from_str`, null where that fails). The text is named
/// `json_of_settings`. Where the names are distinct and no value is raw JSON,
/// the object holds each pair once, as null, a boolean, an unsigned integer
/// or a string, and `parse_settings_json` reads from it those same pairs (in
/// the order of its map); other texts kept as raw JSON may come back written
/// otherwise, so nothing is said of them.
#[verifier::external_body]
pub(crate) fn write_settings_json(pairs: &Vec<(String, SettingValue)>) -> (r: String)
    ensures
        r@ == json_of_settings(pair_views(pairs@)),
        names_distinct(pair_views(pairs@)) && no_json_values(pair_views(pairs@)) ==> match settings_of_json(r@) {
            Some(w) => names_distinct(w) && same_entries(w, pair_views(pairs@)),
            None => false,
        },
{
    let map: serde_json::Map<String, serde_json::Value> = pairs.iter().map(|(k, v)| (k.clone(), match v {
        SettingValue::Null => serde_json::Value::Null,
        SettingValue::Bool(b) => serde_json::Value::Bool(*b),
        SettingValue::UInt(u) => serde_json::Value::from(*u),
        SettingValue::Str(t) => serde_json::Value::String(t.clone()),
        SettingValue::Json(t) => serde_json::from_str(t).unwrap_or(serde_json::Value::Null),
    })).collect();
    serde_json::to_string_pretty(&serde_json::Value::Object(map)).unwrap_or_default()
}

/// The default settings.
pub open spec fn default_settings_map() -> SettingMap {
    Map::<Seq<char>, SettingView>::empty()
        .insert("launch_at_login"@, SettingView::Bool(true))
        .insert("start_timer"@, SettingView::Bool(false))
        .insert("session_duration"@, SettingView::UInt(DEFAULT_INTERVAL_DURATION))
        .insert("break_duration"@, SettingView::UInt(DEFAULT_BREAK_DURATION))
        .insert("pre_break_reminder_enabled"@, SettingView::Bool(true))
        .insert("pre_break_reminder_at"@, SettingView::UInt(BREAK_NOTIFICATION_AT))
        .insert("reset_timer_enabled"@, SettingView::Bool(true))
        .insert("toolbar_timer_style"@, SettingView::Str("remaining"@))
        .insert("long_break_enabled"@, SettingView::Bool(true))
        .insert("long_break_duration"@, SettingView::UInt(DEFAULT_LONG_BREAK_DURATION))
        .insert("long_break_after"@, SettingView::UInt(DEFAULT_LONG_BREAK_AFTER))
        .insert("short_break_count"@, SettingView::UInt(0))
        .insert("chime_enabled"@, SettingView::Bool(false))
        .insert("chime_on_session_start"@, SettingView::Bool(true))
        .insert("chime_on_break_start"@, SettingView::Bool(true))
        .insert("chime_on_break_end"@, SettingView::Bool(true))
        .insert("chime_on_reminder"@, SettingView::Bool(false))
        .insert("shortcuts_enabled"@, SettingView::Bool(true))
}

/// A table of settings, each name at most once, kept in the order the names
/// were first written.
pub struct Settings {
    entries: Vec<(String, SettingValue)>,
}

impl Settings {
    spec fn key_at(self, i: int) -> Seq<char> {
        self.entries@[i].0@
    }

    spec fn has_key(self, k: Seq<char>) -> bool {
        exists|i: int| 0 <= i < self.entries@.len() && self.key_at(i) == k
    }

    spec fn index_of(self, k: Seq<char>) -> int {
        choose|i: int| 0 <= i < self.entries@.len() && self.key_at(i) == k
    }

    #[verifier::type_invariant]
    spec fn keys_distinct(self) -> bool {
        forall|i: int, j: int|
            0 <= i < self.entries@.len() && 0 <= j < self.entries@.len() && i != j
                ==> #[trigger] self.entries@[i].0@ != #[trigger] self.entries@[j].0@
    }

    proof fn lemma_index(self, i: int)
        requires
            self.keys_distinct(),
            0 <= i < self.entries@.len(),
        ensures
            self@.contains_key(self.key_at(i)),
            self@[self.key_at(i)] == self.entries@[i].1@,
    {
        let k = self.key_at(i);
        assert(self.has_key(k));
        let j = self.index_of(k);
        assert(self.key_at(j) == k);
    }
}

impl View for Settings {
    type V = SettingMap;

    closed spec fn view(&self) -> SettingMap {
        Map::new(|k: Seq<char>| self.has_key(k), |k: Seq<char>| self.entries@[self.index_of(k)].1@)
    }
}

impl Settings {
    /// An empty table.
    pub fn new() -> (s: Self)
        ensures
            s@ == Map::<Seq<char>, SettingView>::empty(),
    {
        let s = Settings { entries: Vec::new() };
        assert(s@ =~= Map::<Seq<char>, SettingView>::empty());
        s
    }

    /// The position of `key`, if the table has it.
    fn find(&self, key: &str) -> (r: Option<usize>)
        ensures
            match r {
                Some(i) => i < self.entries@.len() && self.key_at(i as int) == key@,
                None => !self@.contains_key(key@),
            },
    {
        let k = key.to_owned();
        let n = self.entries.len();
        let mut i: usize = 0;
        while i < n
            invariant
                n == self.entries@.len(),
                i <= n,
                k@ == key@,
                forall|j: int| 0 <= j < i ==> self.key_at(j) != key@,
            decreases n - i,
        {
            if self.entries[i].0 == k {
                return Some(i);
            }
            i = i + 1;
        }
        None
    }

    /// The value stored under `key`.
    pub fn get(&self, key: &str) -> (r: Option<&SettingValue>)
        ensures
            match r {
                Some(v) => self@.contains_key(key@) && v@ == self@[key@],
                None => !self@.contains_key(key@),
            },
    {
        proof {
            use_type_invariant(self);
        }
        match self.find(key) {
            Some(i) => {
                proof {
                    self.lemma_index(i as int);
                }
                Some(&self.entries[i].1)
            },
            None => None,
        }
    }

    /// Stores `value` under `key`, replacing what was there.
    pub fn insert(&mut self, key: String, value: SettingValue)
        ensures
            final(self)@ == old(self)@.insert(key@, value@),
    {
        proof {
            use_type_invariant(&*self);
        }
        let ghost old_s = *self;
        let ghost k = key@;
        let ghost v = value@;
        let found = self.find(key.as_str());
        let mut entries: Vec<(String, SettingValue)> = Vec::new();
        std::mem::swap(&mut entries, &mut self.entries);
        let ghost at: int;
        match found {
            Some(i) => {
                entries.set(i, (key, value));
                proof {
                    at = i as int;
                    assert forall|a: int, b: int|
                        0 <= a < entries@.len() && 0 <= b < entries@.len() && a != b
                        implies #[trigger] entries@[a].0@ != #[trigger] entries@[b].0@ by {
                        assert(old_s.key_at(a) != old_s.key_at(b));
                    }
                }
            },
            None => {
                entries.push((key, value));
                proof {
                    at = old_s.entries@.len() as int;
                    assert forall|a: int, b: int|
                        0 <= a < entries@.len() && 0 <= b < entries@.len() && a != b
                        implies #[trigger] entries@[a].0@ != #[trigger] entries@[b].0@ by {
                        if a < old_s.entries@.len() && b < old_s.entries@.len() {
                            assert(old_s.key_at(a) != old_s.key_at(b));
                        } else if a < old_s.entries@.len() {
                            assert(old_s.key_at(a) == entries@[a].0@);
                            assert(!old_s.has_key(k));
                        } else {
                            assert(old_s.key_at(b) == entries@[b].0@);
                            assert(!old_s.has_key(k));
                        }
                    }
                }
            },
        }
        self.entries = entries;
        proof {
            let new_s = *self;
            assert(new_s.key_at(at) == k);
            assert(new_s.entries@[at].1@ == v);
            assert forall|q: Seq<char>|
                #[trigger] new_s@.contains_key(q) <==> old_s@.insert(k, v).contains_key(q) by {
                if q == k {
                    assert(new_s.has_key(q));
                } else {
                    if new_s.has_key(q) {
                        let j = new_s.index_of(q);
                        assert(old_s.key_at(j) == q);
                    }
                    if old_s.has_key(q) {
                        let j = old_s.index_of(q);
                        assert(new_s.key_at(j) == q);
                    }
                }
            }
            assert forall|q: Seq<char>| new_s@.contains_key(q) implies #[trigger] new_s@[q]
                == old_s@.insert(k, v)[q] by {
                let j = new_s.index_of(q);
                new_s.lemma_index(j);
                if q != k {
                    assert(old_s.key_at(j) == q);
                    old_s.lemma_index(j);
                } else {
                    new_s.lemma_index(at);
                }
            }
            assert(new_s@ =~= old_s@.insert(k, v));
        }
    }

    /// Writes each pair of `pairs` in turn.
    pub fn insert_all(&mut self, pairs: Vec<(String, SettingValue)>)
        ensures
            final(self)@ == with_pairs(old(self)@, pair_views(pairs@)),
    {
        let ghost views = pair_views(pairs@);
        let n = pairs.len();
        let mut i: usize = 0;
        while i < n
            invariant
                n == pairs@.len(),
                i <= n,
                views == pair_views(pairs@),
                self@ == with_pairs(old(self)@, views.take(i as int)),
            decreases n - i,
        {
            let k = pairs[i].0.clone();
            let v = pairs[i].1.clone();
            self.insert(k, v);
            proof {
                assert(views.take(i + 1).drop_last() =~= views.take(i as int));
            }
            i = i + 1;
        }
        assert(views.take(n as int) =~= views);
    }

    /// The setting under `key` read as a boolean.
    pub fn get_bool(&self, key: &str) -> (r: bool)
        ensures
            r == lookup_bool(self@, key@),
    {
        match self.get(key) {
            Some(SettingValue::Bool(b)) => *b,
            _ => false,
        }
    }

    /// The setting under `key` read as an unsigned integer.
    pub fn get_u64(&self, key: &str) -> (r: u64)
        ensures
            r == lookup_u64(self@, key@),
    {
        match self.get(key) {
            Some(SettingValue::UInt(n)) => *n,
            _ => 0,
        }
    }

    /// The setting under `key` read as a string.
    pub fn get_string(&self, key: &str) -> (r: String)
        ensures
            r@ == lookup_str(self@, key@),
    {
        match self.get(key) {
            Some(SettingValue::Str(s)) => s.clone(),
            _ => String::new(),
        }
    }

    /// Every name with its value, each name once.
    pub fn to_pairs(&self) -> (r: Vec<(String, SettingValue)>)
        ensures
            forall|k: Seq<char>| #[trigger] self@.contains_key(k) <==> exists|i: int| 0 <= i < r@.len() && r@[i].0@ == k,
            forall|i: int| 0 <= i < r@.len() ==> #[trigger] self@[r@[i].0@] == r@[i].1@,
            forall|i: int, j: int| 0 <= i < r@.len() && 0 <= j < r@.len() && i != j ==> r@[i].0@ != r@[j].0@,
            lists_settings(self@, pair_views(r@)),
    {
        proof {
            use_type_invariant(self);
        }
        let n = self.entries.len();
        let mut r: Vec<(String, SettingValue)> = Vec::new();
        let mut i: usize = 0;
        while i < n
            invariant
                n == self.entries@.len(),
                i <= n,
                r@.len() == i,
                self.keys_distinct(),
                forall|j: int| 0 <= j < i ==> #[trigger] r@[j].0@ == self.key_at(j) && r@[j].1@ == self.entries@[j].1@,
            decreases n - i,
        {
            let k = self.entries[i].0.clone();
            let v = self.entries[i].1.clone();
            r.push((k, v));
            i = i + 1;
        }
        proof {
            assert forall|k: Seq<char>| #[trigger] self@.contains_key(k) implies exists|i: int| 0 <= i < r@.len() && r@[i].0@ == k by {
                let j = self.index_of(k);
                assert(r@[j].0@ == k);
            }
            assert forall|i: int| 0 <= i < r@.len() implies #[trigger] self@[r@[i].0@] == r@[i].1@ by {
                self.lemma_index(i);
            }
            assert forall|i: int, j: int| 0 <= i < r@.len() && 0 <= j < r@.len() && i != j implies r@[i].0@ != r@[j].0@ by {
                assert(r@[i].0@ == self.key_at(i));
                assert(r@[j].0@ == self.key_at(j));
            }
            let v = pair_views(r@);
            assert forall|k: Seq<char>| #[trigger] self@.contains_key(k) <==> exists|i: int| 0 <= i < v.len() && v[i].0 == k by {
                if self@.contains_key(k) {
                    let i = choose|i: int| 0 <= i < r@.len() && r@[i].0@ == k;
                    assert(v[i].0 == k);
                }
                if exists|i: int| 0 <= i < v.len() && v[i].0 == k {
                    let i = choose|i: int| 0 <= i < v.len() && v[i].0 == k;
                    assert(r@[i].0@ == k);
                }
            }
            assert forall|i: int| 0 <= i < v.len() implies #[trigger] self@[v[i].0] == v[i].1 by {
                assert(self@[r@[i].0@] == r@[i].1@);
            }
            assert forall|i: int, j: int| 0 <= i < v.len() && 0 <= j < v.len() && i != j implies v[i].0 != v[j].0 by {
                assert(r@[i].0@ != r@[j].0@);
            }
        }
        r
    }
}

fn insert_literal(s: &mut Settings, key: &str, value: SettingValue)
    ensures
        final(s)@ == old(s)@.insert(key@, value@),
{
    s.insert(String::from_str(key), value);
}

/// The default settings.
pub fn get_default_settings() -> (s: Settings)
    ensures
        s@ == default_settings_map(),
{
    let mut s = Settings::new();
    insert_literal(&mut s, "launch_at_login", SettingValue::Bool(true));
    insert_literal(&mut s, "start_timer", SettingValue::Bool(false));
    insert_literal(&mut s, "session_duration", SettingValue::UInt(DEFAULT_INTERVAL_DURATION));
    insert_literal(&mut s, "break_duration", SettingValue::UInt(DEFAULT_BREAK_DURATION));
    insert_literal(&mut s, "pre_break_reminder_enabled", SettingValue::Bool(true));
    insert_literal(&mut s, "pre_break_reminder_at", SettingValue::UInt(BREAK_NOTIFICATION_AT));
    insert_literal(&mut s, "reset_timer_enabled", SettingValue::Bool(true));
    insert_literal(&mut s, "toolbar_timer_style", SettingValue::Str(String::from_str("remaining")));
    insert_literal(&mut s, "long_break_enabled", SettingValue::Bool(true));
    insert_literal(&mut s, "long_break_duration", SettingValue::UInt(DEFAULT_LONG_BREAK_DURATION));
    insert_literal(&mut s, "long_break_after", SettingValue::UInt(DEFAULT_LONG_BREAK_AFTER));
    insert_literal(&mut s, "short_break_count", SettingValue::UInt(0));
    insert_literal(&mut s, "chime_enabled", SettingValue::Bool(false));
    insert_literal(&mut s, "chime_on_session_start", SettingValue::Bool(true));
    insert_literal(&mut s, "chime_on_break_start", SettingValue::Bool(true));
    insert_literal(&mut s, "chime_on_break_end", SettingValue::Bool(true));
    insert_literal(&mut s, "chime_on_reminder", SettingValue::Bool(false));
    insert_literal(&mut s, "shortcuts_enabled", SettingValue::Bool(true));
    s
}

} // verus!
