//! Decimal wire numbers.
//!
//! The broker sends monetary amounts and quantities either as quoted decimal
//! strings or as bare JSON number tokens. Every accepted form is normalized
//! into one value, which always re-encodes to the canonical token: optional
//! sign, integer digits without leading zeros, and a fractional part only
//! when it is non-zero (no trailing zeros).
//!
//! The accepted token grammar is, by design, exactly plain decimal text:
//! an optional minus, one or more integer digits, and optionally a point
//! followed by one or more fraction digits. Exponent notation is rejected,
//! and the integer part must fit in 64 bits; both are turned away at
//! decode time rather than read with rounding, so every value the library
//! holds re-encodes to its own token exactly.

use vstd::prelude::*;

use crate::numtext::{
    all_digits, dec_digits, digits_val, is_digit, lemma_dec_digits_all_digits,
    lemma_digits_val_of_dec_digits, parse_u64_chars, push_dec_u64,
};
use crate::text::{chars_to_string, push_chars, str_to_chars};

verus! {

/// The mathematical value of a decimal wire number: a sign, an integer
/// part, and the fraction digits after the point.
pub struct MoneyV {
    pub neg: bool,
    pub whole: u64,
    pub frac: Seq<char>,
}

impl MoneyV {
    /// A normalized value: fraction digits with no trailing zero, and no
    /// negative zero.
    pub open spec fn wf(self) -> bool {
        &&& all_digits(self.frac)
        &&& self.frac.len() > 0 ==> self.frac.last() != '0'
        &&& self.neg ==> self.whole > 0 || self.frac.len() > 0
    }
}

/// The canonical wire token of a decimal value.
pub open spec fn money_text(v: MoneyV) -> Seq<char> {
    let sign = if v.neg {
        seq!['-']
    } else {
        Seq::<char>::empty()
    };
    let frac = if v.frac.len() > 0 {
        seq!['.'] + v.frac
    } else {
        Seq::<char>::empty()
    };
    sign + dec_digits(v.whole as nat) + frac
}

/// `s` with every trailing `'0'` removed.
pub open spec fn strip_zeros(s: Seq<char>) -> Seq<char>
    decreases s.len(),
{
    if s.len() > 0 && s.last() == '0' {
        strip_zeros(s.drop_last())
    } else {
        s
    }
}

/// The index of the first `'.'` in `s`, or `s.len()` if there is none.
pub open spec fn dot_pos(s: Seq<char>) -> int
    decreases s.len(),
{
    if s.len() == 0 {
        0
    } else if s[0] == '.' {
        0
    } else {
        1 + dot_pos(s.skip(1))
    }
}

/// What a wire token denotes: an optional leading minus, one or more
/// integer digits, and optionally a point followed by one or more fraction
/// digits. Anything else — exponent notation included — and an integer
/// part beyond `u64` denotes nothing.
pub open spec fn money_from_token(s: Seq<char>) -> Option<MoneyV> {
    let neg0 = s.len() > 0 && s[0] == '-';
    let body = if neg0 {
        s.skip(1)
    } else {
        s
    };
    let d = dot_pos(body);
    let ipart = body.subrange(0, d);
    let fpart = if d < body.len() {
        body.subrange(d + 1, body.len() as int)
    } else {
        Seq::<char>::empty()
    };
    if ipart.len() == 0 || !all_digits(ipart) || digits_val(ipart) > u64::MAX {
        None
    } else if d < body.len() && (fpart.len() == 0 || !all_digits(fpart)) {
        None
    } else {
        let whole = digits_val(ipart) as u64;
        let frac = strip_zeros(fpart);
        Some(
            MoneyV {
                neg: neg0 && (whole > 0 || frac.len() > 0),
                whole,
                frac,
            },
        )
    }
}

proof fn lemma_dot_pos_char(s: Seq<char>, i: int)
    requires
        0 <= i <= s.len(),
        forall|j: int| 0 <= j < i ==> s[j] != '.',
        i < s.len() ==> s[i] == '.',
    ensures
        dot_pos(s) == i,
    decreases s.len(),
{
    if s.len() == 0 {
    } else if s[0] == '.' {
        assert(i == 0);
    } else {
        assert(i > 0);
        let t = s.skip(1);
        assert(forall|j: int| 0 <= j < i - 1 ==> t[j] == s[j + 1] && t[j] != '.');
        assert(i - 1 < t.len() ==> t[i - 1] == '.');
        lemma_dot_pos_char(t, i - 1);
    }
}

proof fn lemma_strip_zeros_char(s: Seq<char>, i: int)
    requires
        0 <= i <= s.len(),
        forall|j: int| i <= j < s.len() ==> s[j] == '0',
        i > 0 ==> s[i - 1] != '0',
    ensures
        strip_zeros(s) == s.subrange(0, i),
    decreases s.len(),
{
    if s.len() > 0 && s.last() == '0' {
        assert(i < s.len());
        let t = s.drop_last();
        assert(forall|j: int| i <= j < t.len() ==> t[j] == s[j] && t[j] == '0');
        lemma_strip_zeros_char(t, i);
        assert(t.subrange(0, i) =~= s.subrange(0, i));
    } else {
        if i < s.len() {
            assert(s[s.len() - 1] == '0');
            assert(false);
        }
        assert(s.subrange(0, i) =~= s);
    }
}

proof fn lemma_strip_zeros_wf(s: Seq<char>)
    requires
        all_digits(s),
    ensures
        all_digits(strip_zeros(s)),
        strip_zeros(s).len() > 0 ==> strip_zeros(s).last() != '0',
        strip_zeros(s).len() <= s.len(),
    decreases s.len(),
{
    if s.len() > 0 && s.last() == '0' {
        let t = s.drop_last();
        assert(forall|j: int| 0 <= j < t.len() ==> t[j] == s[j]);
        lemma_strip_zeros_wf(t);
    }
}

/// Every value a token denotes is normalized.
pub proof fn lemma_money_from_token_wf(s: Seq<char>)
    ensures
        match money_from_token(s) {
            Some(v) => v.wf(),
            None => true,
        },
{
    if money_from_token(s) is Some {
        let neg0 = s.len() > 0 && s[0] == '-';
        let body = if neg0 {
            s.skip(1)
        } else {
            s
        };
        let d = dot_pos(body);
        let fpart = if d < body.len() {
            body.subrange(d + 1, body.len() as int)
        } else {
            Seq::<char>::empty()
        };
        lemma_strip_zeros_wf(fpart);
    }
}

/// Re-reading the canonical token of a normalized value gives that value
/// back: decode is a left inverse of encode.
pub proof fn lemma_money_round_trip(v: MoneyV)
    requires
        v.wf(),
    ensures
        money_from_token(money_text(v)) == Some(v),
{
    let t = money_text(v);
    let dd = dec_digits(v.whole as nat);
    lemma_dec_digits_all_digits(v.whole as nat);
    lemma_digits_val_of_dec_digits(v.whole as nat);
    let dotfrac = if v.frac.len() > 0 {
        seq!['.'] + v.frac
    } else {
        Seq::<char>::empty()
    };
    assert(is_digit(dd[0]));
    assert(dd[0] != '-');
    if v.neg {
        assert(t[0] == '-');
        assert(t.skip(1) =~= dd + dotfrac);
    } else {
        assert(t[0] == dd[0]);
        assert(t =~= dd + dotfrac);
    }
    let body = dd + dotfrac;
    let n = dd.len() as int;
    assert(forall|j: int| 0 <= j < n ==> is_digit(#[trigger] body[j]) && body[j] != '.');
    if v.frac.len() > 0 {
        assert(body[n] == '.');
        lemma_dot_pos_char(body, n);
        assert(body.subrange(n + 1, body.len() as int) =~= v.frac);
    } else {
        lemma_dot_pos_char(body, n);
    }
    assert(body.subrange(0, n) =~= dd);
    let fpart = if dot_pos(body) < body.len() {
        body.subrange(dot_pos(body) + 1, body.len() as int)
    } else {
        Seq::<char>::empty()
    };
    assert(fpart =~= v.frac);
    if v.frac.len() > 0 {
        assert(strip_zeros(v.frac) == v.frac);
    }
    assert(money_from_token(t) == Some(v));
}

/// A decimal wire number, normalized.
#[derive(Debug, Clone, PartialEq, Eq)]
pub struct Money {
    neg: bool,
    whole: u64,
    frac: Vec<char>,
}

impl View for Money {
    type V = MoneyV;

    closed spec fn view(&self) -> MoneyV {
        MoneyV { neg: self.neg, whole: self.whole, frac: self.frac@ }
    }
}

impl Money {
    /// Reads a wire token. `None` when the token is not a plain decimal
    /// number (exponent notation is not accepted), or its integer part
    /// exceeds 64 bits.
    #[verifier::rlimit(50)]
    #[verifier::loop_isolation(false)]
    pub fn from_wire(s: &str) -> (r: Option<Money>)
        ensures
            match r {
                Some(m) => money_from_token(s@) == Some(m@) && m@.wf(),
                None => money_from_token(s@) is None,
            },
    {
        let cs = str_to_chars(s);
        let n = cs.len();
        let neg0 = n > 0 && cs[0] == '-';
        let start: usize = if neg0 {
            1
        } else {
            0
        };
        let ghost body = if neg0 {
            s@.skip(1)
        } else {
            s@
        };
        proof {
            assert(body =~= s@.subrange(start as int, n as int));
        }
        // find the first '.' at or after `start`
        let mut dp: usize = start;
        while dp < n && cs[dp] != '.'
            invariant
                start <= dp <= n,
                n == cs@.len(),
                cs@ == s@,
                body == s@.subrange(start as int, n as int),
                forall|j: int| start <= j < dp ==> s@[j] != '.',
            decreases n - dp,
        {
            dp = dp + 1;
        }
        proof {
            assert(forall|j: int| 0 <= j < dp - start ==> body[j] == s@[j + start]);
            if dp < n {
                assert(body[dp - start] == s@[dp as int]);
            }
            lemma_dot_pos_char(body, dp - start);
        }
        let ghost d = dot_pos(body);
        let whole = match parse_u64_chars(&cs, start, dp) {
            Some(w) => w,
            None => {
                proof {
                    assert(body.subrange(0, d) =~= s@.subrange(start as int, dp as int));
                }
                return None;
            },
        };
        proof {
            assert(body.subrange(0, d) =~= s@.subrange(start as int, dp as int));
        }
        // fraction digits, when a point is present
        let mut frac: Vec<char> = Vec::new();
        let ghost fpart = if d < body.len() {
            body.subrange(d + 1, body.len() as int)
        } else {
            Seq::<char>::empty()
        };
        if dp < n {
            proof {
                assert(fpart =~= s@.subrange(dp + 1, n as int));
            }
            if dp + 1 == n {
                return None;
            }
            let mut i: usize = dp + 1;
            while i < n
                invariant
                    dp + 1 <= i <= n,
                    n == cs@.len(),
                    cs@ == s@,
                    fpart == s@.subrange(dp + 1, n as int),
                    frac@ == fpart.subrange(0, i - dp - 1),
                    all_digits(frac@),
                decreases n - i,
            {
                let c = cs[i];
                if crate::numtext::digit_val_exec(c) >= 10 {
                    proof {
                        assert(fpart[i - dp - 1] == c);
                        assert(!is_digit(fpart[i - dp - 1]));
                        assert(!all_digits(fpart));
                        assert(d < body.len());
                        assert(money_from_token(s@) is None);
                    }
                    return None;
                }
                frac.push(c);
                i = i + 1;
                proof {
                    assert(frac@ =~= fpart.subrange(0, i - dp - 1));
                }
            }
            proof {
                assert(frac@ =~= fpart);
            }
        }
        // strip trailing zeros from the fraction
        let mut k = frac.len();
        while k > 0 && frac[k - 1] == '0'
            invariant
                k <= frac@.len(),
                all_digits(frac@),
                frac@ == fpart,
                forall|j: int| k <= j < frac@.len() ==> frac@[j] == '0',
            decreases k,
        {
            k = k - 1;
        }
        proof {
            lemma_strip_zeros_char(fpart, k as int);
        }
        let mut stripped: Vec<char> = Vec::new();
        let mut i: usize = 0;
        while i < k
            invariant
                i <= k <= frac@.len(),
                frac@ == fpart,
                stripped@ == fpart.subrange(0, i as int),
            decreases k - i,
        {
            stripped.push(frac[i]);
            i = i + 1;
            proof {
                assert(stripped@ =~= fpart.subrange(0, i as int));
            }
        }
        let neg = neg0 && (whole > 0 || stripped.len() > 0);
        let m = Money { neg, whole, frac: stripped };
        proof {
            assert(money_from_token(s@) == Some(m@));
            lemma_money_from_token_wf(s@);
        }
        Some(m)
    }

    /// The canonical wire token, as characters.
    pub fn wire_chars(&self) -> (r: Vec<char>)
        ensures
            r@ == money_text(self@),
    {
        let mut out: Vec<char> = Vec::new();
        if self.neg {
            out.push('-');
        }
        push_dec_u64(&mut out, self.whole);
        if self.frac.len() > 0 {
            out.push('.');
            push_chars(&mut out, &self.frac);
        }
        proof {
            assert(out@ =~= money_text(self@));
        }
        out
    }

    /// The canonical wire token.
    pub fn wire_token(&self) -> (r: String)
        ensures
            r@ == money_text(self@),
    {
        let cs = self.wire_chars();
        chars_to_string(&cs)
    }
}

/// A quantity that travels as a string of digits; same wire form as
/// [`Money`].
pub type NumberAsString = Money;

} // verus!
