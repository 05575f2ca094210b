//! The JSON wire model.
//!
//! A [`JsonValue`] is the library's view of one parsed JSON document:
//! scalars, arrays, and objects as ordered key/value lists. Number tokens
//! keep their text, so that the decimal codec decides what they mean.
//! Reading real JSON text goes through `serde_json` behind one trusted
//! wrapper; everything that interprets the parsed value is verified.

use vstd::prelude::*;

use crate::text::{push_str_chars, str_eq};

verus! {

pub enum JsonValue {
    Null,
    Bool(bool),
    /// A bare number token, kept as its text.
    Num(String),
    Str(String),
    Arr(Vec<JsonValue>),
    Obj(Vec<(String, JsonValue)>),
}

/// What `serde_json` parses the text into, converted to [`JsonValue`];
/// the result is a function of the text alone.
pub uninterp spec fn json_of(s: Seq<char>) -> Option<JsonValue>;

#[verifier::external_type_specification]
#[verifier::external_body]
pub struct ExValue(serde_json::Value);

/// Bridges a parsed `serde_json::Value` into the library's model, one arm
/// per variant; a number keeps its token text through `ToString`.
#[verifier::external_body]
fn value_to_model(v: serde_json::Value) -> JsonValue {
    match v {
        serde_json::Value::Null => JsonValue::Null,
        serde_json::Value::Bool(b) => JsonValue::Bool(b),
        serde_json::Value::Number(n) => JsonValue::Num(n.to_string()),
        serde_json::Value::String(s) => JsonValue::Str(s),
        serde_json::Value::Array(a) => JsonValue::Arr(a.into_iter().map(value_to_model).collect()),
        serde_json::Value::Object(m) => JsonValue::Obj(
            m.into_iter().map(|kv| (kv.0, value_to_model(kv.1))).collect(),
        ),
    }
}

/// Relies on `serde_json::from_str::<serde_json::Value>`: parses one JSON
/// document, or fails; the parse depends on the text alone, and `json_of`
/// names its converted result.
#[verifier::external_body]
pub fn parse_json(s: &str) -> (r: Option<JsonValue>)
    ensures
        r == json_of(s@),
{
    match serde_json::from_str::<serde_json::Value>(s) {
        Ok(v) => Some(value_to_model(v)),
        Err(_) => None,
    }
}

/// The first value bound to key `k`, front to back.
pub open spec fn obj_lookup(m: Seq<(String, JsonValue)>, k: Seq<char>) -> Option<JsonValue>
    decreases m.len(),
{
    if m.len() == 0 {
        None
    } else if m[0].0@ == k {
        Some(m[0].1)
    } else {
        obj_lookup(m.skip(1), k)
    }
}

/// The member `k` of an object; `None` for a missing member or a
/// non-object.
pub open spec fn json_get(v: JsonValue, k: Seq<char>) -> Option<JsonValue> {
    match v {
        JsonValue::Obj(m) => obj_lookup(m@, k),
        _ => None,
    }
}

impl JsonValue {
    /// Looks a member up in an object.
    #[verifier::loop_isolation(false)]
    pub fn get<'a>(&'a self, k: &str) -> (r: Option<&'a JsonValue>)
        ensures
            match r {
                Some(x) => json_get(*self, k@) == Some(*x),
                None => json_get(*self, k@) is None,
            },
    {
        match self {
            JsonValue::Obj(m) => {
                let n = m.len();
                let mut i: usize = 0;
                proof {
                    assert(m@.skip(0) =~= m@);
                }
                while i < n
                    invariant
                        i <= n,
                        n == m@.len(),
                        obj_lookup(m@, k@) == obj_lookup(m@.skip(i as int), k@),
                    decreases n - i,
                {
                    let entry = &m[i];
                    if str_eq(entry.0.as_str(), k) {
                        proof {
                            assert(m@.skip(i as int)[0] == m@[i as int]);
                            assert(m@.skip(i as int)[0].0@ == k@);
                            assert(obj_lookup(m@.skip(i as int), k@) == Some(m@[i as int].1));
                        }
                        return Some(&entry.1);
                    }
                    i = i + 1;
                    proof {
                        assert(m@.skip(i - 1)[0] == m@[i - 1]);
                        assert(m@.skip(i - 1).skip(1) =~= m@.skip(i as int));
                    }
                }
                proof {
                    assert(m@.skip(n as int).len() == 0);
                }
                None
            },
            _ => None,
        }
    }
}

// ---------------------------------------------------------------------
// Emitting JSON text
// ---------------------------------------------------------------------

/// The hexadecimal digit character for a value below 16.
pub open spec fn hex_char(d: nat) -> char {
    if d < 10 {
        crate::numtext::digit_char(d)
    } else if d == 10 {
        'a'
    } else if d == 11 {
        'b'
    } else if d == 12 {
        'c'
    } else if d == 13 {
        'd'
    } else if d == 14 {
        'e'
    } else {
        'f'
    }
}

/// How one character appears inside a JSON string literal: the named
/// escapes for quote, backslash and the usual control characters, a
/// `\u00XX` escape for the remaining control characters, and the
/// character itself otherwise.
pub open spec fn json_esc(c: char) -> Seq<char> {
    if c == '"' {
        seq!['\\', '"']
    } else if c == '\\' {
        seq!['\\', '\\']
    } else if c == '\n' {
        seq!['\\', 'n']
    } else if c == '\r' {
        seq!['\\', 'r']
    } else if c == '\t' {
        seq!['\\', 't']
    } else if c == '\u{0008}' {
        seq!['\\', 'b']
    } else if c == '\u{000C}' {
        seq!['\\', 'f']
    } else if (c as nat) < 32 {
        seq!['\\', 'u', '0', '0', hex_char((c as nat) / 16), hex_char((c as nat) % 16)]
    } else {
        seq![c]
    }
}

/// A string's characters with every escape applied.
pub open spec fn json_escape(s: Seq<char>) -> Seq<char>
    decreases s.len(),
{
    if s.len() == 0 {
        Seq::empty()
    } else {
        json_esc(s[0]) + json_escape(s.skip(1))
    }
}

/// A JSON string literal: quoted and escaped.
pub open spec fn json_quote(s: Seq<char>) -> Seq<char> {
    seq!['"'] + json_escape(s) + seq!['"']
}

proof fn lemma_json_escape_snoc(s: Seq<char>, c: char)
    ensures
        json_escape(s.push(c)) == json_escape(s) + json_esc(c),
    decreases s.len(),
{
    let t = s.push(c);
    if s.len() == 0 {
        assert(t[0] == c);
        assert(t.skip(1) =~= Seq::<char>::empty());
        assert(json_escape(t.skip(1)) == Seq::<char>::empty());
        assert(json_escape(t) =~= json_esc(c));
        assert(json_escape(s) + json_esc(c) =~= json_esc(c));
    } else {
        assert(t[0] == s[0]);
        assert(t.skip(1) =~= s.skip(1).push(c));
        lemma_json_escape_snoc(s.skip(1), c);
        assert(json_escape(t) =~= json_escape(s) + json_esc(c));
    }
}

fn push_esc_char(out: &mut Vec<char>, c: char)
    ensures
        final(out)@ == old(out)@ + json_esc(c),
{
    if c == '"' {
        out.push('\\');
        out.push('"');
    } else if c == '\\' {
        out.push('\\');
        out.push('\\');
    } else if c == '\n' {
        out.push('\\');
        out.push('n');
    } else if c == '\r' {
        out.push('\\');
        out.push('r');
    } else if c == '\t' {
        out.push('\\');
        out.push('t');
    } else if c == '\u{0008}' {
        out.push('\\');
        out.push('b');
    } else if c == '\u{000C}' {
        out.push('\\');
        out.push('f');
    } else if (c as u32) < 32 {
        let cp = c as u32;
        out.push('\\');
        out.push('u');
        out.push('0');
        out.push('0');
        out.push(hex_char_exec(cp / 16));
        out.push(hex_char_exec(cp % 16));
    } else {
        out.push(c);
    }
    proof {
        assert(out@ =~= old(out)@ + json_esc(c));
    }
}

fn hex_char_exec(d: u32) -> (c: char)
    requires
        d < 16,
    ensures
        c == hex_char(d as nat),
{
    if d == 0 {
        '0'
    } else if d == 1 {
        '1'
    } else if d == 2 {
        '2'
    } else if d == 3 {
        '3'
    } else if d == 4 {
        '4'
    } else if d == 5 {
        '5'
    } else if d == 6 {
        '6'
    } else if d == 7 {
        '7'
    } else if d == 8 {
        '8'
    } else if d == 9 {
        '9'
    } else if d == 10 {
        'a'
    } else if d == 11 {
        'b'
    } else if d == 12 {
        'c'
    } else if d == 13 {
        'd'
    } else if d == 14 {
        'e'
    } else {
        'f'
    }
}

/// Appends `s` as a JSON string literal.
pub fn push_json_str(out: &mut Vec<char>, s: &str)
    ensures
        final(out)@ == old(out)@ + json_quote(s@),
{
    out.push('"');
    let n = s.unicode_len();
    let mut i: usize = 0;
    while i < n
        invariant
            i <= n,
            n == s@.len(),
            out@ == old(out)@ + seq!['"'] + json_escape(s@.subrange(0, i as int)),
        decreases n - i,
    {
        let c = s.get_char(i);
        push_esc_char(out, c);
        i = i + 1;
        proof {
            assert(s@.subrange(0, i as int) =~= s@.subrange(0, i - 1).push(s@[i - 1]));
            lemma_json_escape_snoc(s@.subrange(0, i - 1), s@[i - 1]);
            assert(out@ =~= old(out)@ + seq!['"'] + json_escape(s@.subrange(0, i as int)));
        }
    }
    out.push('"');
    proof {
        assert(s@.subrange(0, n as int) =~= s@);
        assert(out@ =~= old(out)@ + json_quote(s@));
    }
}

/// Appends `s` as a JSON string literal.
pub fn push_json_string(out: &mut Vec<char>, s: &String)
    ensures
        final(out)@ == old(out)@ + json_quote(s@),
{
    push_json_str(out, s.as_str());
}

// ---------------------------------------------------------------------
// Joining parts
// ---------------------------------------------------------------------

/// `s` wrapped in plain quotes; for tokens that never need escaping.
pub open spec fn quoted(s: Seq<char>) -> Seq<char> {
    seq!['"'] + s + seq!['"']
}

/// `true` or `false`.
pub open spec fn bool_text(b: bool) -> Seq<char> {
    if b {
        "true"@
    } else {
        "false"@
    }
}

/// Appends `true` or `false`.
pub fn push_bool(out: &mut Vec<char>, b: bool)
    ensures
        final(out)@ == old(out)@ + bool_text(b),
{
    if b {
        push_str_chars(out, "true");
    } else {
        push_str_chars(out, "false");
    }
}

/// The parts joined by `sep`.
pub open spec fn spec_join(parts: Seq<Seq<char>>, sep: Seq<char>) -> Seq<char>
    decreases parts.len(),
{
    if parts.len() == 0 {
        Seq::empty()
    } else if parts.len() == 1 {
        parts[0]
    } else {
        parts[0] + sep + spec_join(parts.skip(1), sep)
    }
}

/// Appending one more part extends the joined text by a separator and
/// that part, except at the front.
pub proof fn lemma_spec_join_snoc(parts: Seq<Seq<char>>, x: Seq<char>, sep: Seq<char>)
    ensures
        spec_join(parts.push(x), sep) == if parts.len() == 0 {
            x
        } else {
            spec_join(parts, sep) + sep + x
        },
    decreases parts.len(),
{
    let t = parts.push(x);
    if parts.len() == 0 {
        assert(t.len() == 1);
        assert(t[0] == x);
    } else if parts.len() == 1 {
        assert(t.skip(1) =~= Seq::<Seq<char>>::empty().push(x));
        lemma_spec_join_snoc(Seq::<Seq<char>>::empty(), x, sep);
        assert(spec_join(t, sep) == t[0] + sep + spec_join(t.skip(1), sep));
        assert(t[0] == parts[0]);
    } else {
        assert(t[0] == parts[0]);
        assert(t.skip(1) =~= parts.skip(1).push(x));
        lemma_spec_join_snoc(parts.skip(1), x, sep);
        assert(spec_join(t, sep) == t[0] + sep + spec_join(t.skip(1), sep));
        assert(spec_join(t, sep) =~= spec_join(parts, sep) + sep + x);
    }
}

/// The character sequences of a list of parts.
pub open spec fn view_parts(parts: Seq<Vec<char>>) -> Seq<Seq<char>> {
    parts.map_values(|p: Vec<char>| p@)
}

/// Appends the parts joined by `sep`.
#[verifier::loop_isolation(false)]
pub fn push_join(out: &mut Vec<char>, parts: &Vec<Vec<char>>, sep: &str)
    ensures
        final(out)@ == old(out)@ + spec_join(view_parts(parts@), sep@),
{
    let n = parts.len();
    let mut i: usize = 0;
    while i < n
        invariant
            i <= n,
            out@ == old(out)@ + spec_join(view_parts(parts@.subrange(0, i as int)), sep@),
        decreases n - i,
    {
        if i > 0 {
            push_str_chars(out, sep);
        }
        crate::text::push_chars(out, &parts[i]);
        i = i + 1;
        proof {
            let pre = view_parts(parts@.subrange(0, i - 1));
            assert(view_parts(parts@.subrange(0, i as int)) =~= pre.push(parts@[i - 1]@));
            lemma_spec_join_snoc(pre, parts@[i - 1]@, sep@);
        }
    }
    proof {
        assert(parts@.subrange(0, n as int) =~= parts@);
    }
}

/// A JSON object around the given members.
pub open spec fn obj_text(members: Seq<Seq<char>>) -> Seq<char> {
    seq!['{'] + spec_join(members, ","@) + seq!['}']
}

/// A JSON array around the given elements.
pub open spec fn arr_text(elems: Seq<Seq<char>>) -> Seq<char> {
    seq!['['] + spec_join(elems, ","@) + seq![']']
}

/// Appends a JSON object with the given member texts.
pub fn push_obj(out: &mut Vec<char>, members: &Vec<Vec<char>>)
    ensures
        final(out)@ == old(out)@ + obj_text(view_parts(members@)),
{
    out.push('{');
    push_join(out, members, ",");
    out.push('}');
    proof {
        assert(out@ =~= old(out)@ + obj_text(view_parts(members@)));
    }
}

/// Appends a JSON array with the given element texts.
pub fn push_arr(out: &mut Vec<char>, elems: &Vec<Vec<char>>)
    ensures
        final(out)@ == old(out)@ + arr_text(view_parts(elems@)),
{
    out.push('[');
    push_join(out, elems, ",");
    out.push(']');
    proof {
        assert(out@ =~= old(out)@ + arr_text(view_parts(elems@)));
    }
}

} // verus!
