//! Texts the application builds, and the comparisons it makes on text.

use vstd::prelude::*;
use vstd::string::*;
use crate::decimal::{format_i64, format_u64, int_text, nat_text};

verus! {

/// `a` and `b` hold the same characters.
pub fn str_eq(a: &str, b: &str) -> (r: bool)
    ensures
        r == (a@ == b@),
{
    let n = a.unicode_len();
    if n != b.unicode_len() {
        return false;
    }
    let mut i: usize = 0;
    while i < n
        invariant
            n == a@.len(),
            n == b@.len(),
            i <= n,
            forall|j: int| 0 <= j < i ==> a@[j] == b@[j],
        decreases n - i,
    {
        if a.get_char(i) != b.get_char(i) {
            return false;
        }
        i = i + 1;
    }
    assert(a@ =~= b@);
    true
}

/// `s` begins with `prefix`.
pub open spec fn has_prefix(s: Seq<char>, prefix: Seq<char>) -> bool {
    prefix.len() <= s.len() && s.subrange(0, prefix.len() as int) == prefix
}

/// `s` ends with `suffix`.
pub open spec fn has_suffix(s: Seq<char>, suffix: Seq<char>) -> bool {
    suffix.len() <= s.len() && s.subrange(s.len() - suffix.len(), s.len() as int) == suffix
}

/// `s` begins with `prefix`.
pub fn starts_with(s: &str, prefix: &str) -> (r: bool)
    ensures
        r == has_prefix(s@, prefix@),
{
    let n = s.unicode_len();
    let m = prefix.unicode_len();
    if m > n {
        return false;
    }
    let mut i: usize = 0;
    while i < m
        invariant
            n == s@.len(),
            m == prefix@.len(),
            m <= n,
            i <= m,
            forall|j: int| 0 <= j < i ==> s@[j] == prefix@[j],
        decreases m - i,
    {
        if s.get_char(i) != prefix.get_char(i) {
            assert(s@.subrange(0, m as int)[i as int] != prefix@[i as int]);
            return false;
        }
        i = i + 1;
    }
    assert(s@.subrange(0, m as int) =~= prefix@);
    true
}

/// `s` ends with `suffix`.
pub fn ends_with(s: &str, suffix: &str) -> (r: bool)
    ensures
        r == has_suffix(s@, suffix@),
{
    let n = s.unicode_len();
    let m = suffix.unicode_len();
    if m > n {
        return false;
    }
    let off: usize = n - m;
    let mut i: usize = 0;
    while i < m
        invariant
            n == s@.len(),
            m == suffix@.len(),
            m <= n,
            off == n - m,
            i <= m,
            forall|j: int| 0 <= j < i ==> s@[off + j] == suffix@[j],
        decreases m - i,
    {
        if s.get_char(off + i) != suffix.get_char(i) {
            assert(s@.subrange(off as int, n as int)[i as int] != suffix@[i as int]);
            return false;
        }
        i = i + 1;
    }
    assert(s@.subrange(off as int, n as int) =~= suffix@);
    true
}

/// The page a break window shows: the kind of break and its length.
pub open spec fn break_url_text(long_break: bool, duration: u64) -> Seq<char> {
    "index.html?"@ + (if long_break { "long-break"@ } else { "break"@ }) + "&duration="@
        + nat_text(duration as nat)
}

/// The page a break window shows.
pub fn break_url(long_break: bool, duration: u64) -> (r: String)
    ensures
        r@ == break_url_text(long_break, duration),
{
    let mut s = String::from_str("index.html?");
    if long_break {
        s.append("long-break");
    } else {
        s.append("break");
    }
    s.append("&duration=");
    let d = format_u64(duration);
    s.append(d.as_str());
    s
}

/// The label of the break window on display number `index`.
pub open spec fn break_window_label_text(index: u64) -> Seq<char> {
    "break_"@ + nat_text(index as nat)
}

/// The label of the break window on display number `index`.
pub fn break_window_label(index: u64) -> (r: String)
    ensures
        r@ == break_window_label_text(index),
{
    let mut s = String::from_str("break_");
    let d = format_u64(index);
    s.append(d.as_str());
    s
}

/// A window with this label is a break window.
pub fn is_break_window_label(label: &str) -> (r: bool)
    ensures
        r == has_prefix(label@, "break"@),
{
    starts_with(label, "break")
}

/// Whole minutes in `secs` read as a signed number, truncated toward zero.
pub open spec fn reminder_minutes(pre_break_at: u64) -> int {
    let secs = (pre_break_at as i64) as int;
    if secs >= 0 {
        secs / 60
    } else {
        -((-secs) / 60)
    }
}

/// The title of the notice that a break is near.
pub open spec fn reminder_title_text(pre_break_at: u64) -> Seq<char> {
    let mins = reminder_minutes(pre_break_at);
    if mins >= 1 {
        "\u{1F440} "@ + int_text(mins) + " min until break"@
    } else {
        "\u{1F440} Break starting soon"@
    }
}

/// The title of the notice that a break comes in `pre_break_at` seconds.
pub fn reminder_title(pre_break_at: u64) -> (r: String)
    ensures
        r@ == reminder_title_text(pre_break_at),
{
    let secs: i64 = pre_break_at as i64;
    let mins: i64 = if secs >= 0 {
        secs / 60
    } else {
        let q: i128 = (0i128 - (secs as i128)) / 60;
        (0i128 - q) as i64
    };
    if mins >= 1 {
        let mut s = String::from_str("\u{1F440} ");
        let d = format_i64(mins);
        s.append(d.as_str());
        s.append(" min until break");
        s
    } else {
        String::from_str("\u{1F440} Break starting soon")
    }
}

/// The view the main window opens on.
pub fn navigation_view(open_dashboard: bool) -> (r: &'static str)
    ensures
        r@ == (if open_dashboard {
            "dashboard"@
        } else {
            "settings"@
        }),
{
    if open_dashboard {
        "dashboard"
    } else {
        "settings"
    }
}

/// The body of the notice that a break is near.
pub fn reminder_body() -> (r: &'static str)
    ensures
        r@ == "Your eyes need a rest"@,
{
    "Your eyes need a rest"
}

} // verus!
