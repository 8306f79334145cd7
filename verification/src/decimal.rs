//! Decimal text of integers, written and read the way `i64`'s `Display` and
//! `FromStr` do it.

use vstd::prelude::*;
use vstd::string::*;

verus! {

/// `c` is an ASCII decimal digit.
pub open spec fn is_digit(c: char) -> bool {
    48 <= (c as int) <= 57
}

/// The numeric value of an ASCII digit.
pub open spec fn digit_val(c: char) -> nat {
    ((c as int) - 48) as nat
}

/// The ASCII digit for `d` in `0..10`.
pub open spec fn digit_char(d: nat) -> char {
    (d + 48) as char
}

pub open spec fn all_digits(s: Seq<char>) -> bool {
    forall|i: int| 0 <= i < s.len() ==> is_digit(#[trigger] s[i])
}

/// The value of a string of digits read in base ten.
pub open spec fn digits_value(s: Seq<char>) -> nat
    decreases s.len(),
{
    if s.len() == 0 {
        0
    } else {
        digits_value(s.drop_last()) * 10 + digit_val(s.last())
    }
}

/// Decimal digits of `n`, most significant first, without leading zeros.
pub open spec fn nat_text(n: nat) -> Seq<char>
    decreases n,
{
    if n < 10 {
        seq![digit_char(n)]
    } else {
        nat_text(n / 10).push(digit_char(n % 10))
    }
}

/// Decimal text of `x`: a `-` before the digits of a negative number.
pub open spec fn int_text(x: int) -> Seq<char> {
    if x < 0 {
        seq!['-'] + nat_text((-x) as nat)
    } else {
        nat_text(x as nat)
    }
}

/// Length of the optional leading sign.
pub open spec fn sign_len(s: Seq<char>) -> int {
    if s.len() > 0 && (s[0] == '-' || s[0] == '+') {
        1
    } else {
        0
    }
}

/// What reading `s` as an `i64` gives: an optional `+` or `-`, then one or more
/// ASCII digits, and a value within the range of `i64`; anything else is `None`.
pub open spec fn decimal_i64(s: Seq<char>) -> Option<i64> {
    let body = s.subrange(sign_len(s), s.len() as int);
    let negative = sign_len(s) == 1 && s[0] == '-';
    let v: int = if negative {
        -(digits_value(body) as int)
    } else {
        digits_value(body) as int
    };
    if body.len() > 0 && all_digits(body) && i64::MIN <= v <= i64::MAX {
        Some(v as i64)
    } else {
        None
    }
}

pub proof fn lemma_digit_char(d: nat)
    requires
        d < 10,
    ensures
        is_digit(digit_char(d)),
        digit_val(digit_char(d)) == d,
{
    assert((digit_char(d) as int) == d + 48);
}

pub proof fn lemma_nat_text(n: nat)
    ensures
        nat_text(n).len() >= 1,
        all_digits(nat_text(n)),
        digits_value(nat_text(n)) == n,
        is_digit(nat_text(n)[0]),
    decreases n,
{
    lemma_digit_char(n % 10);
    if n >= 10 {
        lemma_nat_text(n / 10);
        let t = nat_text(n);
        assert(t.drop_last() =~= nat_text(n / 10));
        assert(t[0] == nat_text(n / 10)[0]);
        assert(digits_value(t) == digits_value(nat_text(n / 10)) * 10 + n % 10);
        assert(n == (n / 10) * 10 + n % 10);
    } else {
        assert(nat_text(n).drop_last() =~= Seq::<char>::empty());
        assert(digits_value(Seq::<char>::empty()) == 0);
    }
}

/// Reading the decimal text of an `i64` gives the number back.
pub proof fn lemma_decimal_round_trip(x: i64)
    ensures
        decimal_i64(int_text(x as int)) == Some(x),
{
    if x < 0 {
        let m = (-x) as nat;
        lemma_nat_text(m);
        let s = int_text(x as int);
        assert(s[0] == '-');
        assert(s.subrange(1, s.len() as int) =~= nat_text(m));
    } else {
        lemma_nat_text(x as nat);
        let s = int_text(x as int);
        assert(s.subrange(0, s.len() as int) =~= s);
    }
}

proof fn lemma_digits_value_prefix(s: Seq<char>, j: int)
    requires
        0 <= j <= s.len(),
    ensures
        digits_value(s.subrange(0, j)) <= digits_value(s),
    decreases s.len(),
{
    if j < s.len() {
        assert(s.drop_last().subrange(0, j) =~= s.subrange(0, j));
        lemma_digits_value_prefix(s.drop_last(), j);
    } else {
        assert(s.subrange(0, j) =~= s);
    }
}

fn digit_str(d: u64) -> (r: &'static str)
    requires
        d < 10,
    ensures
        r@ == seq![digit_char(d as nat)],
{
    proof {
        reveal_strlit("0");
        reveal_strlit("1");
        reveal_strlit("2");
        reveal_strlit("3");
        reveal_strlit("4");
        reveal_strlit("5");
        reveal_strlit("6");
        reveal_strlit("7");
        reveal_strlit("8");
        reveal_strlit("9");
    }
    let r = if d == 0 {
        "0"
    } else if d == 1 {
        "1"
    } else if d == 2 {
        "2"
    } else if d == 3 {
        "3"
    } else if d == 4 {
        "4"
    } else if d == 5 {
        "5"
    } else if d == 6 {
        "6"
    } else if d == 7 {
        "7"
    } else if d == 8 {
        "8"
    } else {
        "9"
    };
    assert(r@ =~= seq![digit_char(d as nat)]);
    r
}

/// Decimal text of an unsigned number.
pub fn format_u64(n: u64) -> (s: String)
    ensures
        s@ == nat_text(n as nat),
    decreases n,
{
    if n < 10 {
        String::from_str(digit_str(n))
    } else {
        let mut s = format_u64(n / 10);
        s.append(digit_str(n % 10));
        assert(s@ =~= nat_text(n as nat));
        s
    }
}

/// Decimal text of a signed number, as `i64::to_string` writes it.
pub fn format_i64(x: i64) -> (s: String)
    ensures
        s@ == int_text(x as int),
{
    if x < 0 {
        let m: u64 = (0i128 - (x as i128)) as u64;
        proof {
            reveal_strlit("-");
        }
        let mut s = String::from_str("-");
        let digits = format_u64(m);
        s.append(digits.as_str());
        assert(s@ =~= int_text(x as int));
        s
    } else {
        format_u64(x as u64)
    }
}

/// Reads `s` as an `i64` the way `str::parse::<i64>` does.
pub fn parse_i64(s: &str) -> (r: Option<i64>)
    ensures
        r == decimal_i64(s@),
{
    let len = s.unicode_len();
    if len == 0 {
        return None;
    }
    let c0 = s.get_char(0);
    let negative = c0 == '-';
    let start: usize = if c0 == '-' || c0 == '+' {
        1
    } else {
        0
    };
    assert(start as int == sign_len(s@));
    if start == len {
        assert(s@.subrange(start as int, len as int).len() == 0);
        return None;
    }
    let ghost body = s@.subrange(start as int, len as int);
    let mut acc: u128 = 0;
    let mut i: usize = start;
    while i < len
        invariant
            start <= i <= len,
            len == s@.len(),
            start as int == sign_len(s@),
            negative == (s@[0] == '-'),
            body == s@.subrange(start as int, len as int),
            acc == digits_value(body.subrange(0, i - start)),
            acc <= 0x8000_0000_0000_0000u128,
            all_digits(body.subrange(0, i - start)),
        decreases len - i,
    {
        let c = s.get_char(i);
        assert(c == body[i - start]);
        if !('0' <= c && c <= '9') {
            assert(!all_digits(body));
            return None;
        }
        let d: u128 = (c as u32 - 48) as u128;
        let next: u128 = acc * 10 + d;
        proof {
            let p = body.subrange(0, i + 1 - start);
            assert(p.drop_last() =~= body.subrange(0, i - start));
            assert(p.last() == c);
            assert(digits_value(p) == next);
            assert(all_digits(p));
        }
        if next > 0x8000_0000_0000_0000u128 {
            proof {
                if all_digits(body) {
                    lemma_digits_value_prefix(body, i + 1 - start);
                }
            }
            return None;
        }
        acc = next;
        i = i + 1;
    }
    assert(body.subrange(0, len - start) =~= body);
    if negative {
        Some((0i128 - (acc as i128)) as i64)
    } else if acc > 0x7fff_ffff_ffff_ffffu128 {
        None
    } else {
        Some(acc as i64)
    }
}

} // verus!
