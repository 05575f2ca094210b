//! Decimal digit text: rendering unsigned integers and reading them back.

use vstd::prelude::*;

verus! {

/// The character for a single decimal digit value.
pub open spec fn digit_char(d: nat) -> char {
    if d == 0 {
        '0'
    } else if d == 1 {
        '1'
    } else if d == 2 {
        '2'
    } else if d == 3 {
        '3'
    } else if d == 4 {
        '4'
    } else if d == 5 {
        '5'
    } else if d == 6 {
        '6'
    } else if d == 7 {
        '7'
    } else if d == 8 {
        '8'
    } else {
        '9'
    }
}

/// The numeric value of a digit character; 10 marks a character that is
/// not a decimal digit.
pub open spec fn digit_val(c: char) -> nat {
    if c == '0' {
        0
    } else if c == '1' {
        1
    } else if c == '2' {
        2
    } else if c == '3' {
        3
    } else if c == '4' {
        4
    } else if c == '5' {
        5
    } else if c == '6' {
        6
    } else if c == '7' {
        7
    } else if c == '8' {
        8
    } else if c == '9' {
        9
    } else {
        10
    }
}

pub open spec fn is_digit(c: char) -> bool {
    digit_val(c) < 10
}

pub open spec fn all_digits(s: Seq<char>) -> bool {
    forall|i: int| 0 <= i < s.len() ==> is_digit(#[trigger] s[i])
}

/// The value of a digit string, read most significant digit first.
pub open spec fn digits_val(s: Seq<char>) -> nat
    decreases s.len(),
{
    if s.len() == 0 {
        0
    } else {
        digits_val(s.drop_last()) * 10 + digit_val(s.last())
    }
}

/// The decimal digits of `n`, most significant first, without leading
/// zeros; empty for zero.
pub open spec fn dec_digits_rec(n: nat) -> Seq<char>
    decreases n,
{
    if n == 0 {
        Seq::empty()
    } else {
        dec_digits_rec(n / 10) + seq![digit_char(n % 10)]
    }
}

/// The canonical decimal rendering of `n` (zero renders as "0").
pub open spec fn dec_digits(n: nat) -> Seq<char> {
    if n == 0 {
        seq!['0']
    } else {
        dec_digits_rec(n)
    }
}

pub proof fn lemma_dec_digits_rec_all_digits(n: nat)
    ensures
        all_digits(dec_digits_rec(n)),
        n > 0 ==> dec_digits_rec(n).len() > 0,
        n > 0 ==> dec_digits_rec(n)[0] != '0',
    decreases n,
{
    if n > 0 {
        lemma_dec_digits_rec_all_digits(n / 10);
        let s = dec_digits_rec(n);
        assert(s == dec_digits_rec(n / 10) + seq![digit_char(n % 10)]);
        if n / 10 == 0 {
            assert(n % 10 == n);
            assert(s =~= seq![digit_char(n % 10)]);
        }
    }
}

pub proof fn lemma_dec_digits_all_digits(n: nat)
    ensures
        all_digits(dec_digits(n)),
        dec_digits(n).len() > 0,
{
    lemma_dec_digits_rec_all_digits(n);
}

/// Reading back what `dec_digits_rec` wrote gives the original value.
pub proof fn lemma_digits_val_of_dec_digits_rec(n: nat)
    ensures
        digits_val(dec_digits_rec(n)) == n,
    decreases n,
{
    if n > 0 {
        lemma_digits_val_of_dec_digits_rec(n / 10);
        let s = dec_digits_rec(n);
        assert(s.drop_last() =~= dec_digits_rec(n / 10));
        assert(s.last() == digit_char(n % 10));
        assert(digit_val(digit_char(n % 10)) == n % 10);
    }
}

/// Reading back the canonical rendering gives the original value.
pub proof fn lemma_digits_val_of_dec_digits(n: nat)
    ensures
        digits_val(dec_digits(n)) == n,
{
    if n == 0 {
        assert(digits_val(seq!['0']) == digits_val(seq!['0'].drop_last()) * 10 + digit_val('0'));
        assert(seq!['0'].drop_last() =~= Seq::<char>::empty());
    } else {
        lemma_digits_val_of_dec_digits_rec(n);
    }
}

/// A longer digit prefix never has a smaller value.
pub proof fn lemma_digits_val_prefix_le(s: Seq<char>, i: int)
    requires
        0 <= i <= s.len(),
    ensures
        digits_val(s.subrange(0, i)) <= digits_val(s),
    decreases s.len() - i,
{
    if i < s.len() {
        lemma_digits_val_prefix_le(s.drop_last(), i);
        assert(s.drop_last().subrange(0, i) =~= s.subrange(0, i));
        assert(digits_val(s) == digits_val(s.drop_last()) * 10 + digit_val(s.last()));
        assert(digits_val(s.drop_last()) * 10 >= digits_val(s.drop_last()));
    } else {
        assert(s.subrange(0, i) =~= s);
    }
}

fn digit_to_char(d: u64) -> (c: char)
    requires
        d < 10,
    ensures
        c == digit_char(d as nat),
{
    if d == 0 {
        '0'
    } else if d == 1 {
        '1'
    } else if d == 2 {
        '2'
    } else if d == 3 {
        '3'
    } else if d == 4 {
        '4'
    } else if d == 5 {
        '5'
    } else if d == 6 {
        '6'
    } else if d == 7 {
        '7'
    } else if d == 8 {
        '8'
    } else {
        '9'
    }
}

/// The numeric value of a digit character; 10 for any other character.
pub fn digit_val_exec(c: char) -> (d: u64)
    ensures
        d == digit_val(c),
{
    if c == '0' {
        0
    } else if c == '1' {
        1
    } else if c == '2' {
        2
    } else if c == '3' {
        3
    } else if c == '4' {
        4
    } else if c == '5' {
        5
    } else if c == '6' {
        6
    } else if c == '7' {
        7
    } else if c == '8' {
        8
    } else if c == '9' {
        9
    } else {
        10
    }
}

fn push_dec_rec(out: &mut Vec<char>, n: u64)
    requires
        n > 0,
    ensures
        final(out)@ == old(out)@ + dec_digits_rec(n as nat),
    decreases n,
{
    if n >= 10 {
        push_dec_rec(out, n / 10);
    }
    out.push(digit_to_char(n % 10));
    proof {
        assert(dec_digits_rec(0) == Seq::<char>::empty());
        assert(out@ =~= old(out)@ + dec_digits_rec(n as nat));
    }
}

/// Appends the canonical decimal rendering of `n`.
pub fn push_dec_u64(out: &mut Vec<char>, n: u64)
    ensures
        final(out)@ == old(out)@ + dec_digits(n as nat),
{
    if n == 0 {
        out.push('0');
        proof {
            assert(out@ =~= old(out)@ + dec_digits(0));
        }
    } else {
        push_dec_rec(out, n);
    }
}

/// Reads `s[start..end]` as an unsigned decimal number. `None` when the
/// range is empty, holds a non-digit, or the value does not fit in `u64`.
pub fn parse_u64_chars(s: &Vec<char>, start: usize, end: usize) -> (r: Option<u64>)
    requires
        start <= end <= s@.len(),
    ensures
        match r {
            Some(v) => {
                let t = s@.subrange(start as int, end as int);
                &&& t.len() > 0
                &&& all_digits(t)
                &&& v == digits_val(t)
            },
            None => {
                let t = s@.subrange(start as int, end as int);
                t.len() == 0 || !all_digits(t) || digits_val(t) > u64::MAX
            },
        },
{
    if start == end {
        return None;
    }
    let ghost t = s@.subrange(start as int, end as int);
    let mut acc: u64 = 0;
    let mut i: usize = start;
    while i < end
        invariant
            start <= i <= end <= s@.len(),
            t == s@.subrange(start as int, end as int),
            all_digits(t.subrange(0, i - start)),
            acc == digits_val(t.subrange(0, i - start)),
        decreases end - i,
    {
        let c = s[i];
        proof {
            assert(t[i - start] == s@[i as int]);
        }
        let d = digit_val_exec(c);
        if d >= 10 {
            proof {
                assert(!is_digit(t[i - start]));
            }
            return None;
        }
        if acc > (u64::MAX - d) / 10 {
            proof {
                let p = t.subrange(0, i - start + 1);
                assert(p.drop_last() =~= t.subrange(0, i - start));
                assert(p.last() == t[i - start]);
                assert(digits_val(p) == acc * 10 + d);
                assert(acc * 10 + d > u64::MAX);
                lemma_digits_val_prefix_le(t, i - start + 1);
            }
            return None;
        }
        acc = acc * 10 + d;
        i = i + 1;
        proof {
            let p = t.subrange(0, i - start);
            assert(p.drop_last() =~= t.subrange(0, i - start - 1));
            assert(p.last() == t[i - start - 1]);
        }
    }
    proof {
        assert(t.subrange(0, (end - start) as int) =~= t);
    }
    Some(acc)
}

} // verus!
