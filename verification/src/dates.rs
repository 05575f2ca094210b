//! Calendar dates, times of day, and RFC 3339 timestamps on the wire.
//!
//! The broker writes dates as `YYYY-MM-DD`, market hours as `HH:MM` (with
//! an optional seconds field), and timestamps as RFC 3339 text such as
//! `2025-01-21T05:32:12Z` or `2025-11-14T15:56:46.539081981-05:00`.
//! Requests carry whole-second UTC timestamps; responses may carry
//! fractional seconds, which are validated and then dropped, and a
//! numeric offset, which is kept.

use vstd::prelude::*;

use crate::numtext::{
    all_digits, dec_digits, digit_val, digits_val, is_digit, lemma_dec_digits_all_digits,
    lemma_digits_val_of_dec_digits, parse_u64_chars, push_dec_u64,
};
use crate::text::{chars_to_string, str_to_chars};

verus! {

// ---------------------------------------------------------------------
// Zero-padded numbers
// ---------------------------------------------------------------------

/// `n` rendered with at least two digits.
pub open spec fn pad2(n: nat) -> Seq<char> {
    if n < 10 {
        seq!['0'] + dec_digits(n)
    } else {
        dec_digits(n)
    }
}

/// `n` rendered with at least four digits.
pub open spec fn pad4(n: nat) -> Seq<char> {
    if n < 10 {
        seq!['0', '0', '0'] + dec_digits(n)
    } else if n < 100 {
        seq!['0', '0'] + dec_digits(n)
    } else if n < 1000 {
        seq!['0'] + dec_digits(n)
    } else {
        dec_digits(n)
    }
}

proof fn lemma_digits_val_prepend_zero(s: Seq<char>)
    ensures
        digits_val(seq!['0'] + s) == digits_val(s),
    decreases s.len(),
{
    let t = seq!['0'] + s;
    if s.len() == 0 {
        assert(t =~= seq!['0']);
        assert(t.drop_last() =~= Seq::<char>::empty());
        assert(digits_val(t.drop_last()) == 0);
        assert(t.last() == '0');
        assert(digits_val(t) == 0);
        assert(digits_val(s) == 0);
    } else {
        assert(t.drop_last() =~= seq!['0'] + s.drop_last());
        assert(t.last() == s.last());
        lemma_digits_val_prepend_zero(s.drop_last());
        assert(digits_val(t) == digits_val(t.drop_last()) * 10 + digit_val(t.last()));
        assert(digits_val(s) == digits_val(s.drop_last()) * 10 + digit_val(s.last()));
    }
}

proof fn lemma_dec_digits_len1(n: nat)
    requires
        n < 10,
    ensures
        dec_digits(n).len() == 1,
{
    if n > 0 {
        assert(dec_digits(n) == crate::numtext::dec_digits_rec(n / 10) + seq![
            crate::numtext::digit_char(n % 10),
        ]);
        assert(crate::numtext::dec_digits_rec(0) == Seq::<char>::empty());
    }
}

pub proof fn lemma_pad2(n: nat)
    ensures
        all_digits(pad2(n)),
        pad2(n).len() >= 2,
        digits_val(pad2(n)) == n,
        n < 100 ==> pad2(n).len() == 2,
{
    lemma_dec_digits_all_digits(n);
    lemma_digits_val_of_dec_digits(n);
    if n < 10 {
        lemma_dec_digits_len1(n);
        assert(pad2(n) == seq!['0'] + dec_digits(n));
        lemma_digits_val_prepend_zero(dec_digits(n));
        assert(forall|i: int| 0 <= i < pad2(n).len() ==> is_digit(#[trigger] pad2(n)[i]));
    } else if n < 100 {
        lemma_dec_digits_len2(n);
    } else {
        assert(dec_digits(n).len() >= 3) by {
            lemma_dec_digits_ge(n, 100);
        }
    }
}

/// A value of at least `lo` needs at least as many digits as `lo` does.
proof fn lemma_dec_digits_ge(n: nat, lo: nat)
    requires
        n >= lo,
        lo == 100 || lo == 1000 || lo == 10000,
    ensures
        lo == 100 ==> dec_digits(n).len() >= 3,
        lo == 1000 ==> dec_digits(n).len() >= 4,
        lo == 10000 ==> dec_digits(n).len() >= 5,
    decreases n,
{
    assert(dec_digits(n) == crate::numtext::dec_digits_rec(n));
    lemma_dec_digits_rec_len_lower(n);
}

/// The digit count of `n` grows with `n`.
proof fn lemma_dec_digits_rec_len_lower(n: nat)
    ensures
        n >= 1 ==> crate::numtext::dec_digits_rec(n).len() >= 1,
        n >= 10 ==> crate::numtext::dec_digits_rec(n).len() >= 2,
        n >= 100 ==> crate::numtext::dec_digits_rec(n).len() >= 3,
        n >= 1000 ==> crate::numtext::dec_digits_rec(n).len() >= 4,
        n >= 10000 ==> crate::numtext::dec_digits_rec(n).len() >= 5,
    decreases n,
{
    if n >= 1 {
        lemma_dec_digits_rec_len_lower(n / 10);
    }
}

proof fn lemma_dec_digits_len2(n: nat)
    requires
        10 <= n < 100,
    ensures
        dec_digits(n).len() == 2,
{
    assert(dec_digits(n) == crate::numtext::dec_digits_rec(n / 10) + seq![
        crate::numtext::digit_char(n % 10),
    ]);
    assert(crate::numtext::dec_digits_rec(n / 10) == crate::numtext::dec_digits_rec(n / 10 / 10)
        + seq![crate::numtext::digit_char(n / 10 % 10)]);
    assert(crate::numtext::dec_digits_rec(0) == Seq::<char>::empty());
}

pub proof fn lemma_pad4(n: nat)
    ensures
        all_digits(pad4(n)),
        pad4(n).len() >= 4,
        digits_val(pad4(n)) == n,
        n < 10000 ==> pad4(n).len() == 4,
{
    lemma_dec_digits_all_digits(n);
    lemma_digits_val_of_dec_digits(n);
    if n < 10 {
        lemma_dec_digits_len1(n);
        assert(pad4(n) =~= seq!['0'] + (seq!['0'] + (seq!['0'] + dec_digits(n))));
        lemma_digits_val_prepend_zero(dec_digits(n));
        lemma_digits_val_prepend_zero(seq!['0'] + dec_digits(n));
        lemma_digits_val_prepend_zero(seq!['0'] + (seq!['0'] + dec_digits(n)));
        assert(forall|i: int| 0 <= i < pad4(n).len() ==> is_digit(#[trigger] pad4(n)[i]));
    } else if n < 100 {
        lemma_dec_digits_len2(n);
        assert(pad4(n) =~= seq!['0'] + (seq!['0'] + dec_digits(n)));
        lemma_digits_val_prepend_zero(dec_digits(n));
        lemma_digits_val_prepend_zero(seq!['0'] + dec_digits(n));
        assert(forall|i: int| 0 <= i < pad4(n).len() ==> is_digit(#[trigger] pad4(n)[i]));
    } else if n < 1000 {
        lemma_dec_digits_len3(n);
        assert(pad4(n) =~= seq!['0'] + dec_digits(n));
        lemma_digits_val_prepend_zero(dec_digits(n));
        assert(forall|i: int| 0 <= i < pad4(n).len() ==> is_digit(#[trigger] pad4(n)[i]));
    } else if n < 10000 {
        lemma_dec_digits_len4(n);
    } else {
        lemma_dec_digits_ge(n, 10000);
    }
}

proof fn lemma_dec_digits_len3(n: nat)
    requires
        100 <= n < 1000,
    ensures
        dec_digits(n).len() == 3,
{
    lemma_dec_digits_len2(n / 10);
    assert(dec_digits(n) == crate::numtext::dec_digits_rec(n / 10) + seq![
        crate::numtext::digit_char(n % 10),
    ]);
    assert(dec_digits(n / 10) == crate::numtext::dec_digits_rec(n / 10));
}

proof fn lemma_dec_digits_len4(n: nat)
    requires
        1000 <= n < 10000,
    ensures
        dec_digits(n).len() == 4,
{
    lemma_dec_digits_len3(n / 10);
    assert(dec_digits(n) == crate::numtext::dec_digits_rec(n / 10) + seq![
        crate::numtext::digit_char(n % 10),
    ]);
    assert(dec_digits(n / 10) == crate::numtext::dec_digits_rec(n / 10));
}

/// Appends `n` as exactly two digits.
pub fn push_pad2(out: &mut Vec<char>, n: u8)
    requires
        n < 100,
    ensures
        final(out)@ == old(out)@ + pad2(n as nat),
{
    if n < 10 {
        out.push('0');
    }
    push_dec_u64(out, n as u64);
    proof {
        assert(out@ =~= old(out)@ + pad2(n as nat));
    }
}

/// Appends `n` as exactly four digits.
pub fn push_pad4(out: &mut Vec<char>, n: u16)
    requires
        n < 10000,
    ensures
        final(out)@ == old(out)@ + pad4(n as nat),
{
    if n < 10 {
        out.push('0');
        out.push('0');
        out.push('0');
    } else if n < 100 {
        out.push('0');
        out.push('0');
    } else if n < 1000 {
        out.push('0');
    }
    push_dec_u64(out, n as u64);
    proof {
        assert(out@ =~= old(out)@ + pad4(n as nat));
    }
}

// ---------------------------------------------------------------------
// Dates
// ---------------------------------------------------------------------

/// A calendar date.
#[derive(Debug, Clone, Copy, PartialEq, Eq, Structural)]
pub struct Date {
    pub year: u16,
    pub month: u8,
    pub day: u8,
}

/// The number of days in a month, with the Gregorian leap rule.
pub open spec fn spec_days_in_month(year: nat, month: nat) -> nat {
    if month == 2 {
        if year % 4 == 0 && (year % 100 != 0 || year % 400 == 0) {
            29
        } else {
            28
        }
    } else if month == 4 || month == 6 || month == 9 || month == 11 {
        30
    } else {
        31
    }
}

impl Date {
    /// A real calendar date that the four-digit format can carry.
    pub open spec fn wf(self) -> bool {
        &&& 1 <= self.year <= 9999
        &&& 1 <= self.month <= 12
        &&& 1 <= self.day <= spec_days_in_month(self.year as nat, self.month as nat)
    }
}

/// The `YYYY-MM-DD` text of a date.
pub open spec fn date_text(d: Date) -> Seq<char> {
    pad4(d.year as nat) + seq!['-'] + pad2(d.month as nat) + seq!['-'] + pad2(d.day as nat)
}

/// The date that `YYYY-MM-DD` text denotes: exactly ten characters, with
/// digits and hyphens in place, denoting a real calendar date.
pub open spec fn date_from_text(s: Seq<char>) -> Option<Date> {
    if s.len() == 10 && s[4] == '-' && s[7] == '-' && all_digits(s.subrange(0, 4)) && all_digits(
        s.subrange(5, 7),
    ) && all_digits(s.subrange(8, 10)) {
        let y = digits_val(s.subrange(0, 4));
        let m = digits_val(s.subrange(5, 7));
        let d = digits_val(s.subrange(8, 10));
        if 1 <= y <= 9999 && 1 <= m <= 12 && 1 <= d <= spec_days_in_month(y, m) {
            Some(Date { year: y as u16, month: m as u8, day: d as u8 })
        } else {
            None
        }
    } else {
        None
    }
}

pub fn days_in_month(year: u16, month: u8) -> (r: u8)
    ensures
        r == spec_days_in_month(year as nat, month as nat),
{
    if month == 2 {
        if year % 4 == 0 && (year % 100 != 0 || year % 400 == 0) {
            29
        } else {
            28
        }
    } else if month == 4 || month == 6 || month == 9 || month == 11 {
        30
    } else {
        31
    }
}

impl Date {
    /// The `YYYY-MM-DD` wire text, as characters.
    pub fn wire_chars(&self) -> (r: Vec<char>)
        requires
            self.wf(),
        ensures
            r@ == date_text(*self),
    {
        let mut out: Vec<char> = Vec::new();
        push_pad4(&mut out, self.year);
        out.push('-');
        push_pad2(&mut out, self.month);
        out.push('-');
        push_pad2(&mut out, self.day);
        proof {
            assert(out@ =~= date_text(*self));
        }
        out
    }

    /// The `YYYY-MM-DD` wire text.
    pub fn wire_token(&self) -> (r: String)
        requires
            self.wf(),
        ensures
            r@ == date_text(*self),
    {
        let cs = self.wire_chars();
        chars_to_string(&cs)
    }

    /// Whether this is a real calendar date the format can carry.
    pub fn is_wf(&self) -> (r: bool)
        ensures
            r == self.wf(),
    {
        1 <= self.year && self.year <= 9999 && 1 <= self.month && self.month <= 12
            && 1 <= self.day && self.day <= days_in_month(self.year, self.month)
    }

    /// Reads `YYYY-MM-DD` text; `None` for anything else, including a
    /// date that does not exist in the calendar.
    #[verifier::loop_isolation(false)]
    pub fn from_wire(s: &str) -> (r: Option<Date>)
        ensures
            r == date_from_text(s@),
    {
        let cs = str_to_chars(s);
        if cs.len() != 10 {
            return None;
        }
        if !(cs[4] == '-' && cs[7] == '-') {
            return None;
        }
        let r = date_from_parts(&cs, 0);
        proof {
            assert(cs@.subrange(0, 10) =~= s@);
        }
        r
    }

    /// Every well-formed date reads back from its own text.
    pub proof fn lemma_round_trip(d: Date)
        requires
            d.wf(),
        ensures
            date_from_text(date_text(d)) == Some(d),
    {
        let t = date_text(d);
        lemma_pad4(d.year as nat);
        lemma_pad2(d.month as nat);
        lemma_pad2(d.day as nat);
        assert(t.len() == 10);
        assert(t.subrange(0, 4) =~= pad4(d.year as nat));
        assert(t[4] == '-');
        assert(t.subrange(5, 7) =~= pad2(d.month as nat));
        assert(t[7] == '-');
        assert(t.subrange(8, 10) =~= pad2(d.day as nat));
    }
}

/// Reads the date written at `at..at + 10` inside `cs`; used for the date
/// part of timestamps too.
#[verifier::loop_isolation(false)]
fn date_from_parts(cs: &Vec<char>, at: usize) -> (r: Option<Date>)
    requires
        at + 10 <= cs@.len(),
        cs@[at + 4] == '-',
        cs@[at + 7] == '-',
    ensures
        r == date_from_text(cs@.subrange(at as int, at + 10)),
{
    let n = cs.len();
    let ghost t = cs@.subrange(at as int, at + 10);
    let y = match parse_u64_chars(cs, at, at + 4) {
        Some(v) => v,
        None => {
            proof {
                assert(t.subrange(0, 4) =~= cs@.subrange(at as int, at + 4));
            }
            return None;
        },
    };
    let m = match parse_u64_chars(cs, at + 5, at + 7) {
        Some(v) => v,
        None => {
            proof {
                assert(t.subrange(5, 7) =~= cs@.subrange(at + 5, at + 7));
            }
            return None;
        },
    };
    let d = match parse_u64_chars(cs, at + 8, at + 10) {
        Some(v) => v,
        None => {
            proof {
                assert(t.subrange(8, 10) =~= cs@.subrange(at + 8, at + 10));
            }
            return None;
        },
    };
    proof {
        assert(t.subrange(0, 4) =~= cs@.subrange(at as int, at + 4));
        assert(t.subrange(5, 7) =~= cs@.subrange(at + 5, at + 7));
        assert(t.subrange(8, 10) =~= cs@.subrange(at + 8, at + 10));
        assert(t[4] == '-');
        assert(t[7] == '-');
    }
    if !(1 <= y && y <= 9999 && 1 <= m && m <= 12) {
        return None;
    }
    let dm = days_in_month(y as u16, m as u8);
    if !(1 <= d && d <= dm as u64) {
        return None;
    }
    Some(Date { year: y as u16, month: m as u8, day: d as u8 })
}

// ---------------------------------------------------------------------
// Times of day
// ---------------------------------------------------------------------

/// A time of day, as the market calendar carries it.
#[derive(Debug, Clone, Copy, PartialEq, Eq, Structural)]
pub struct TimeOfDay {
    pub hour: u8,
    pub minute: u8,
    pub second: u8,
}

impl TimeOfDay {
    pub open spec fn wf(self) -> bool {
        self.hour <= 23 && self.minute <= 59 && self.second <= 59
    }
}

/// The time that `HH:MM` or `HH:MM:SS` text denotes.
pub open spec fn time_from_text(s: Seq<char>) -> Option<TimeOfDay> {
    if s.len() == 5 && s[2] == ':' && all_digits(s.subrange(0, 2)) && all_digits(
        s.subrange(3, 5),
    ) {
        let h = digits_val(s.subrange(0, 2));
        let m = digits_val(s.subrange(3, 5));
        if h <= 23 && m <= 59 {
            Some(TimeOfDay { hour: h as u8, minute: m as u8, second: 0 })
        } else {
            None
        }
    } else if s.len() == 8 && s[2] == ':' && s[5] == ':' && all_digits(s.subrange(0, 2))
        && all_digits(s.subrange(3, 5)) && all_digits(s.subrange(6, 8)) {
        let h = digits_val(s.subrange(0, 2));
        let m = digits_val(s.subrange(3, 5));
        let sec = digits_val(s.subrange(6, 8));
        if h <= 23 && m <= 59 && sec <= 59 {
            Some(TimeOfDay { hour: h as u8, minute: m as u8, second: sec as u8 })
        } else {
            None
        }
    } else {
        None
    }
}

impl TimeOfDay {
    /// Reads `HH:MM` or `HH:MM:SS` text.
    #[verifier::loop_isolation(false)]
    pub fn from_wire(s: &str) -> (r: Option<TimeOfDay>)
        ensures
            r == time_from_text(s@),
    {
        let cs = str_to_chars(s);
        let n = cs.len();
        if n == 5 {
            if cs[2] != ':' {
                return None;
            }
            let h = match parse_u64_chars(&cs, 0, 2) {
                Some(v) => v,
                None => {
                    return None;
                },
            };
            let m = match parse_u64_chars(&cs, 3, 5) {
                Some(v) => v,
                None => {
                    return None;
                },
            };
            if h <= 23 && m <= 59 {
                Some(TimeOfDay { hour: h as u8, minute: m as u8, second: 0 })
            } else {
                None
            }
        } else if n == 8 {
            if cs[2] != ':' || cs[5] != ':' {
                return None;
            }
            let h = match parse_u64_chars(&cs, 0, 2) {
                Some(v) => v,
                None => {
                    return None;
                },
            };
            let m = match parse_u64_chars(&cs, 3, 5) {
                Some(v) => v,
                None => {
                    return None;
                },
            };
            let sec = match parse_u64_chars(&cs, 6, 8) {
                Some(v) => v,
                None => {
                    return None;
                },
            };
            if h <= 23 && m <= 59 && sec <= 59 {
                Some(TimeOfDay { hour: h as u8, minute: m as u8, second: sec as u8 })
            } else {
                None
            }
        } else {
            None
        }
    }
}

// ---------------------------------------------------------------------
// Timestamps
// ---------------------------------------------------------------------

/// An RFC 3339 timestamp: a date, a time of day, and a numeric offset
/// from UTC. Fractional seconds are validated at decode and dropped.
#[derive(Debug, Clone, Copy, PartialEq, Eq, Structural)]
pub struct Timestamp {
    pub date: Date,
    pub hour: u8,
    pub minute: u8,
    pub second: u8,
    pub offset_neg: bool,
    pub offset_hour: u8,
    pub offset_minute: u8,
}

impl Timestamp {
    pub open spec fn wf(self) -> bool {
        &&& self.date.wf()
        &&& self.hour <= 23
        &&& self.minute <= 59
        &&& self.second <= 59
        &&& self.offset_hour <= 23
        &&& self.offset_minute <= 59
        &&& self.offset_neg ==> self.offset_hour > 0 || self.offset_minute > 0
    }

    /// A timestamp at UTC, as requests carry them.
    pub open spec fn is_utc(self) -> bool {
        !self.offset_neg && self.offset_hour == 0 && self.offset_minute == 0
    }
}

/// The offset suffix: `Z` at UTC, `+HH:MM` or `-HH:MM` otherwise.
pub open spec fn offset_text(t: Timestamp) -> Seq<char> {
    if t.is_utc() {
        seq!['Z']
    } else {
        (if t.offset_neg {
            seq!['-']
        } else {
            seq!['+']
        }) + pad2(t.offset_hour as nat) + seq![':'] + pad2(t.offset_minute as nat)
    }
}

/// The RFC 3339 text of a whole-second timestamp.
pub open spec fn timestamp_text(t: Timestamp) -> Seq<char> {
    date_text(t.date) + seq!['T'] + pad2(t.hour as nat) + seq![':'] + pad2(t.minute as nat) + seq![
        ':',
    ] + pad2(t.second as nat) + offset_text(t)
}

/// The length of the run of digits at the front of `s`.
pub open spec fn digits_prefix_len(s: Seq<char>) -> int
    decreases s.len(),
{
    if s.len() == 0 {
        0
    } else if !is_digit(s[0]) {
        0
    } else {
        1 + digits_prefix_len(s.skip(1))
    }
}

/// The timestamp that RFC 3339 text denotes: date, `T`, whole-second
/// time, optionally `.` and at least one fraction digit (dropped), then
/// `Z` or a `+HH:MM` / `-HH:MM` offset.
pub open spec fn timestamp_from_text(s: Seq<char>) -> Option<Timestamp> {
    if s.len() < 20 {
        None
    } else if !(s[10] == 'T' && s[13] == ':' && s[16] == ':') {
        None
    } else {
        let date = date_from_text(s.subrange(0, 10));
        let hh = s.subrange(11, 13);
        let mm = s.subrange(14, 16);
        let ss = s.subrange(17, 19);
        if date is None || !all_digits(hh) || !all_digits(mm) || !all_digits(ss) {
            None
        } else {
            let h = digits_val(hh);
            let m = digits_val(mm);
            let sec = digits_val(ss);
            if !(h <= 23 && m <= 59 && sec <= 59) {
                None
            } else {
                let p = if s[19] == '.' {
                    20 + digits_prefix_len(s.skip(20))
                } else {
                    19
                };
                if s[19] == '.' && p == 20 {
                    None
                } else {
                    match offset_from_text(s, p) {
                        Some((neg, oh, om)) => Some(
                            Timestamp {
                                date: date->0,
                                hour: h as u8,
                                minute: m as u8,
                                second: sec as u8,
                                offset_neg: neg && (oh > 0 || om > 0),
                                offset_hour: oh,
                                offset_minute: om,
                            },
                        ),
                        None => None,
                    }
                }
            }
        }
    }
}

/// The offset written at `p`: either a final `Z`, or a sign and `HH:MM`
/// filling the rest of the text.
pub open spec fn offset_from_text(s: Seq<char>, p: int) -> Option<(bool, u8, u8)> {
    if p == s.len() - 1 && s[p] == 'Z' {
        Some((false, 0u8, 0u8))
    } else if p == s.len() - 6 && (s[p] == '+' || s[p] == '-') && s[p + 3] == ':' && all_digits(
        s.subrange(p + 1, p + 3),
    ) && all_digits(s.subrange(p + 4, p + 6)) {
        let oh = digits_val(s.subrange(p + 1, p + 3));
        let om = digits_val(s.subrange(p + 4, p + 6));
        if oh <= 23 && om <= 59 {
            Some((s[p] == '-', oh as u8, om as u8))
        } else {
            None
        }
    } else {
        None
    }
}

proof fn lemma_digits_prefix_char(s: Seq<char>, i: int)
    requires
        0 <= i <= s.len(),
        forall|j: int| 0 <= j < i ==> is_digit(#[trigger] s[j]),
        i < s.len() ==> !is_digit(s[i]),
    ensures
        digits_prefix_len(s) == i,
    decreases s.len(),
{
    if s.len() == 0 {
    } else if !is_digit(s[0]) {
        assert(i == 0);
    } else {
        assert(i > 0);
        let t = s.skip(1);
        assert(forall|j: int| 0 <= j < i - 1 ==> t[j] == s[j + 1] && is_digit(#[trigger] t[j]));
        assert(i - 1 < t.len() ==> t[i - 1] == s[i] && !is_digit(t[i - 1]));
        lemma_digits_prefix_char(t, i - 1);
    }
}

impl Timestamp {
    /// Whether every component is in range.
    pub fn is_wf(&self) -> (r: bool)
        ensures
            r == self.wf(),
    {
        self.date.is_wf() && self.hour <= 23 && self.minute <= 59 && self.second <= 59
            && self.offset_hour <= 23 && self.offset_minute <= 59 && (!self.offset_neg
            || self.offset_hour > 0 || self.offset_minute > 0)
    }

    /// The RFC 3339 wire text, as characters.
    pub fn wire_chars(&self) -> (r: Vec<char>)
        requires
            self.wf(),
        ensures
            r@ == timestamp_text(*self),
    {
        let mut out: Vec<char> = Vec::new();
        push_pad4(&mut out, self.date.year);
        out.push('-');
        push_pad2(&mut out, self.date.month);
        out.push('-');
        push_pad2(&mut out, self.date.day);
        out.push('T');
        push_pad2(&mut out, self.hour);
        out.push(':');
        push_pad2(&mut out, self.minute);
        out.push(':');
        push_pad2(&mut out, self.second);
        if !self.offset_neg && self.offset_hour == 0 && self.offset_minute == 0 {
            out.push('Z');
        } else {
            if self.offset_neg {
                out.push('-');
            } else {
                out.push('+');
            }
            push_pad2(&mut out, self.offset_hour);
            out.push(':');
            push_pad2(&mut out, self.offset_minute);
        }
        proof {
            assert(out@ =~= timestamp_text(*self));
        }
        out
    }

    /// The RFC 3339 wire text.
    pub fn wire_token(&self) -> (r: String)
        requires
            self.wf(),
        ensures
            r@ == timestamp_text(*self),
    {
        let cs = self.wire_chars();
        chars_to_string(&cs)
    }

    /// Reads RFC 3339 text; `None` for anything else.
    #[verifier::loop_isolation(false)]
    #[verifier::rlimit(50)]
    pub fn from_wire(s: &str) -> (r: Option<Timestamp>)
        ensures
            r == timestamp_from_text(s@),
    {
        let cs = str_to_chars(s);
        let n = cs.len();
        if n < 20 {
            return None;
        }
        if !(cs[10] == 'T' && cs[13] == ':' && cs[16] == ':') {
            return None;
        }
        if !(cs[4] == '-' && cs[7] == '-') {
            proof {
                let sub = s@.subrange(0, 10);
                assert(sub[4] == s@[4] && sub[7] == s@[7]);
            }
            return None;
        }
        proof {
            let sub = s@.subrange(0, 10);
            assert(sub[4] == s@[4] && sub[7] == s@[7]);
        }
        let date = match date_from_parts(&cs, 0) {
            Some(d) => d,
            None => {
                proof {
                    assert(cs@.subrange(0, 10) =~= s@.subrange(0, 10));
                }
                return None;
            },
        };
        proof {
            assert(cs@.subrange(0, 10) =~= s@.subrange(0, 10));
        }
        let h = match parse_u64_chars(&cs, 11, 13) {
            Some(v) => v,
            None => {
                return None;
            },
        };
        let m = match parse_u64_chars(&cs, 14, 16) {
            Some(v) => v,
            None => {
                return None;
            },
        };
        let sec = match parse_u64_chars(&cs, 17, 19) {
            Some(v) => v,
            None => {
                return None;
            },
        };
        if !(h <= 23 && m <= 59 && sec <= 59) {
            return None;
        }
        // optional fraction: at least one digit after the point
        let mut p: usize = 19;
        if cs[19] == '.' {
            let mut i: usize = 20;
            while i < n && crate::numtext::digit_val_exec(cs[i]) < 10
                invariant
                    20 <= i <= n,
                    forall|j: int| 20 <= j < i ==> is_digit(#[trigger] s@[j]),
                decreases n - i,
            {
                i = i + 1;
            }
            proof {
                let t = s@.skip(20);
                assert(forall|j: int| 0 <= j < i - 20 ==> t[j] == s@[j + 20] && is_digit(
                    #[trigger] t[j],
                ));
                assert(i - 20 < t.len() ==> t[i - 20] == s@[i as int] && !is_digit(t[i - 20]));
                lemma_digits_prefix_char(t, i - 20);
            }
            if i == 20 {
                return None;
            }
            p = i;
        }
        // the offset suffix
        if p == n - 1 {
            if cs[p] == 'Z' {
                let t = Timestamp {
                    date,
                    hour: h as u8,
                    minute: m as u8,
                    second: sec as u8,
                    offset_neg: false,
                    offset_hour: 0,
                    offset_minute: 0,
                };
                proof {
                    assert(timestamp_from_text(s@) == Some(t));
                }
                return Some(t);
            }
            return None;
        }
        if n - p == 6 && (cs[p] == '+' || cs[p] == '-') && cs[p + 3] == ':' {
            let oh = match parse_u64_chars(&cs, p + 1, p + 3) {
                Some(v) => v,
                None => {
                    return None;
                },
            };
            let om = match parse_u64_chars(&cs, p + 4, p + 6) {
                Some(v) => v,
                None => {
                    return None;
                },
            };
            if !(oh <= 23 && om <= 59) {
                return None;
            }
            let neg = cs[p] == '-' && (oh > 0 || om > 0);
            let t = Timestamp {
                date,
                hour: h as u8,
                minute: m as u8,
                second: sec as u8,
                offset_neg: neg,
                offset_hour: oh as u8,
                offset_minute: om as u8,
            };
            proof {
                assert(timestamp_from_text(s@) == Some(t));
            }
            return Some(t);
        }
        None
    }

    /// Every well-formed whole-second timestamp reads back from its own
    /// text.
    pub proof fn lemma_round_trip(t: Timestamp)
        requires
            t.wf(),
        ensures
            timestamp_from_text(timestamp_text(t)) == Some(t),
    {
        let s = timestamp_text(t);
        let dt = date_text(t.date);
        lemma_pad4(t.date.year as nat);
        lemma_pad2(t.date.month as nat);
        lemma_pad2(t.date.day as nat);
        lemma_pad2(t.hour as nat);
        lemma_pad2(t.minute as nat);
        lemma_pad2(t.second as nat);
        lemma_pad2(t.offset_hour as nat);
        lemma_pad2(t.offset_minute as nat);
        assert(dt.len() == 10);
        assert(s.subrange(0, 10) =~= dt);
        Date::lemma_round_trip(t.date);
        assert(s[10] == 'T');
        assert(s.subrange(11, 13) =~= pad2(t.hour as nat));
        assert(s[13] == ':');
        assert(s.subrange(14, 16) =~= pad2(t.minute as nat));
        assert(s[16] == ':');
        assert(s.subrange(17, 19) =~= pad2(t.second as nat));
        assert(s[19] != '.');
        if t.is_utc() {
            assert(s.len() == 20);
            assert(s[19] == 'Z');
            assert(offset_from_text(s, 19) == Some((false, 0u8, 0u8)));
        } else {
            assert(s.len() == 25);
            assert(s[19] == '+' || s[19] == '-');
            assert(s[22] == ':');
            assert(s.subrange(20, 22) =~= pad2(t.offset_hour as nat));
            assert(s.subrange(23, 25) =~= pad2(t.offset_minute as nat));
            assert((s[19] == '-') == t.offset_neg);
            assert(offset_from_text(s, 19) == Some(
                (t.offset_neg, t.offset_hour, t.offset_minute),
            ));
        }
    }
}

} // verus!
