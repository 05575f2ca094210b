//! Field readers over [`JsonValue`] objects.
//!
//! Every response record is decoded field by field through these helpers.
//! Each helper has an exact contract: precisely which member shapes it
//! accepts, which value it hands back, and which error it raises
//! otherwise, with the field name and the offending text carried along.

use vstd::prelude::*;

use crate::dates::{date_from_text, time_from_text, timestamp_from_text, Date, TimeOfDay, Timestamp};
use crate::decimal::{money_from_token, Money, MoneyV};
use crate::json::{json_get, JsonValue};
use crate::numtext::{all_digits, digits_val, is_digit, parse_u64_chars};
use crate::text::str_to_chars;

verus! {

/// Why a response body did not decode.
#[derive(Debug, Clone, PartialEq, Eq)]
pub enum DecodeError {
    /// The member is absent.
    Missing { field: String },
    /// The member is present with the wrong JSON type.
    WrongType { field: String },
    /// The member's text does not denote a value of the expected form.
    BadValue { field: String, raw: String },
    /// The member's token is not a declared variant of its enum.
    UnknownVariant { field: String, raw: String },
}

impl DecodeError {
    /// The name of the field the error is about.
    pub open spec fn spec_field(self) -> Seq<char> {
        match self {
            DecodeError::Missing { field } => field@,
            DecodeError::WrongType { field } => field@,
            DecodeError::BadValue { field, .. } => field@,
            DecodeError::UnknownVariant { field, .. } => field@,
        }
    }
}

// ---------------------------------------------------------------------
// Spec readers: what each member shape denotes
// ---------------------------------------------------------------------

/// The member's text when it is a JSON string.
pub open spec fn spec_str_field(v: JsonValue, k: Seq<char>) -> Option<Seq<char>> {
    match json_get(v, k) {
        Some(JsonValue::Str(s)) => Some(s@),
        _ => None,
    }
}

/// An optional string member: `None` when absent or null.
pub open spec fn spec_opt_str_field(v: JsonValue, k: Seq<char>) -> Option<Option<Seq<char>>> {
    match json_get(v, k) {
        None => Some(None),
        Some(JsonValue::Null) => Some(None),
        Some(JsonValue::Str(s)) => Some(Some(s@)),
        _ => None,
    }
}

/// The member when it is a JSON boolean.
pub open spec fn spec_bool_field(v: JsonValue, k: Seq<char>) -> Option<bool> {
    match json_get(v, k) {
        Some(JsonValue::Bool(b)) => Some(b),
        _ => None,
    }
}

/// A decimal member: a quoted decimal string or a bare number token,
/// normalized by the decimal codec.
pub open spec fn spec_money_field(v: JsonValue, k: Seq<char>) -> Option<MoneyV> {
    match json_get(v, k) {
        Some(JsonValue::Str(s)) => money_from_token(s@),
        Some(JsonValue::Num(t)) => money_from_token(t@),
        _ => None,
    }
}

/// An optional decimal member: `None` when absent or null.
pub open spec fn spec_opt_money_field(v: JsonValue, k: Seq<char>) -> Option<Option<MoneyV>> {
    match json_get(v, k) {
        None => Some(None),
        Some(JsonValue::Null) => Some(None),
        Some(JsonValue::Str(s)) => match money_from_token(s@) {
            Some(m) => Some(Some(m)),
            None => None,
        },
        Some(JsonValue::Num(t)) => match money_from_token(t@) {
            Some(m) => Some(Some(m)),
            None => None,
        },
        _ => None,
    }
}

/// An unsigned integer member: a bare token of plain digits, within
/// `bound`.
pub open spec fn spec_uint_field(v: JsonValue, k: Seq<char>, bound: nat) -> Option<nat> {
    match json_get(v, k) {
        Some(JsonValue::Num(t)) => {
            if t@.len() > 0 && all_digits(t@) && digits_val(t@) <= bound {
                Some(digits_val(t@))
            } else {
                None
            }
        },
        _ => None,
    }
}

/// An optional unsigned integer member.
pub open spec fn spec_opt_uint_field(v: JsonValue, k: Seq<char>, bound: nat) -> Option<
    Option<nat>,
> {
    match json_get(v, k) {
        None => Some(None),
        Some(JsonValue::Null) => Some(None),
        Some(JsonValue::Num(t)) => {
            if t@.len() > 0 && all_digits(t@) && digits_val(t@) <= bound {
                Some(Some(digits_val(t@)))
            } else {
                None
            }
        },
        _ => None,
    }
}

/// An unsigned integer that travels as a quoted string of digits.
pub open spec fn spec_str_uint_field(v: JsonValue, k: Seq<char>, bound: nat) -> Option<nat> {
    match json_get(v, k) {
        Some(JsonValue::Str(t)) => {
            if t@.len() > 0 && all_digits(t@) && digits_val(t@) <= bound {
                Some(digits_val(t@))
            } else {
                None
            }
        },
        _ => None,
    }
}

/// A `YYYY-MM-DD` member.
pub open spec fn spec_date_field(v: JsonValue, k: Seq<char>) -> Option<Date> {
    match json_get(v, k) {
        Some(JsonValue::Str(s)) => date_from_text(s@),
        _ => None,
    }
}

/// An optional `YYYY-MM-DD` member.
pub open spec fn spec_opt_date_field(v: JsonValue, k: Seq<char>) -> Option<Option<Date>> {
    match json_get(v, k) {
        None => Some(None),
        Some(JsonValue::Null) => Some(None),
        Some(JsonValue::Str(s)) => match date_from_text(s@) {
            Some(d) => Some(Some(d)),
            None => None,
        },
        _ => None,
    }
}

/// An RFC 3339 timestamp member.
pub open spec fn spec_timestamp_field(v: JsonValue, k: Seq<char>) -> Option<Timestamp> {
    match json_get(v, k) {
        Some(JsonValue::Str(s)) => timestamp_from_text(s@),
        _ => None,
    }
}

/// An optional RFC 3339 timestamp member.
pub open spec fn spec_opt_timestamp_field(v: JsonValue, k: Seq<char>) -> Option<
    Option<Timestamp>,
> {
    match json_get(v, k) {
        None => Some(None),
        Some(JsonValue::Null) => Some(None),
        Some(JsonValue::Str(s)) => match timestamp_from_text(s@) {
            Some(t) => Some(Some(t)),
            None => None,
        },
        _ => None,
    }
}

/// An `HH:MM` or `HH:MM:SS` member.
pub open spec fn spec_time_field(v: JsonValue, k: Seq<char>) -> Option<TimeOfDay> {
    match json_get(v, k) {
        Some(JsonValue::Str(s)) => time_from_text(s@),
        _ => None,
    }
}

// ---------------------------------------------------------------------
// Exec readers
// ---------------------------------------------------------------------

fn field_string(k: &str) -> (r: String)
    ensures
        r@ == k@,
{
    String::from_str(k)
}

/// Reads a required string member.
pub fn get_str(v: &JsonValue, k: &str) -> (r: Result<String, DecodeError>)
    ensures
        match r {
            Ok(s) => spec_str_field(*v, k@) == Some(s@),
            Err(e) => spec_str_field(*v, k@) is None && e.spec_field() == k@,
        },
{
    match v.get(k) {
        None => Err(DecodeError::Missing { field: field_string(k) }),
        Some(x) => match x {
            JsonValue::Str(s) => Ok(s.clone()),
            _ => Err(DecodeError::WrongType { field: field_string(k) }),
        },
    }
}

/// Reads an optional string member; absent and null read as `None`.
pub fn get_opt_str(v: &JsonValue, k: &str) -> (r: Result<Option<String>, DecodeError>)
    ensures
        match r {
            Ok(None) => spec_opt_str_field(*v, k@) == Some(Option::<Seq<char>>::None),
            Ok(Some(s)) => spec_opt_str_field(*v, k@) == Some(Some(s@)),
            Err(e) => spec_opt_str_field(*v, k@) is None && e.spec_field() == k@,
        },
{
    match v.get(k) {
        None => Ok(None),
        Some(x) => match x {
            JsonValue::Null => Ok(None),
            JsonValue::Str(s) => Ok(Some(s.clone())),
            _ => Err(DecodeError::WrongType { field: field_string(k) }),
        },
    }
}

/// Reads a required boolean member.
pub fn get_bool(v: &JsonValue, k: &str) -> (r: Result<bool, DecodeError>)
    ensures
        match r {
            Ok(b) => spec_bool_field(*v, k@) == Some(b),
            Err(e) => spec_bool_field(*v, k@) is None && e.spec_field() == k@,
        },
{
    match v.get(k) {
        None => Err(DecodeError::Missing { field: field_string(k) }),
        Some(x) => match x {
            JsonValue::Bool(b) => Ok(*b),
            _ => Err(DecodeError::WrongType { field: field_string(k) }),
        },
    }
}

/// Reads a required decimal member: a quoted decimal string or a bare
/// number token.
pub fn get_money(v: &JsonValue, k: &str) -> (r: Result<Money, DecodeError>)
    ensures
        match r {
            Ok(m) => spec_money_field(*v, k@) == Some(m@) && m@.wf(),
            Err(e) => spec_money_field(*v, k@) is None && e.spec_field() == k@,
        },
{
    match v.get(k) {
        None => Err(DecodeError::Missing { field: field_string(k) }),
        Some(x) => match x {
            JsonValue::Str(s) => match Money::from_wire(s.as_str()) {
                Some(m) => Ok(m),
                None => Err(
                    DecodeError::BadValue { field: field_string(k), raw: s.clone() },
                ),
            },
            JsonValue::Num(t) => match Money::from_wire(t.as_str()) {
                Some(m) => Ok(m),
                None => Err(
                    DecodeError::BadValue { field: field_string(k), raw: t.clone() },
                ),
            },
            _ => Err(DecodeError::WrongType { field: field_string(k) }),
        },
    }
}

/// Reads an optional decimal member; absent and null read as `None`.
pub fn get_opt_money(v: &JsonValue, k: &str) -> (r: Result<Option<Money>, DecodeError>)
    ensures
        match r {
            Ok(None) => spec_opt_money_field(*v, k@) == Some(Option::<MoneyV>::None),
            Ok(Some(m)) => spec_opt_money_field(*v, k@) == Some(Some(m@)) && m@.wf(),
            Err(e) => spec_opt_money_field(*v, k@) is None && e.spec_field() == k@,
        },
{
    match v.get(k) {
        None => Ok(None),
        Some(x) => match x {
            JsonValue::Null => Ok(None),
            JsonValue::Str(s) => match Money::from_wire(s.as_str()) {
                Some(m) => Ok(Some(m)),
                None => Err(
                    DecodeError::BadValue { field: field_string(k), raw: s.clone() },
                ),
            },
            JsonValue::Num(t) => match Money::from_wire(t.as_str()) {
                Some(m) => Ok(Some(m)),
                None => Err(
                    DecodeError::BadValue { field: field_string(k), raw: t.clone() },
                ),
            },
            _ => Err(DecodeError::WrongType { field: field_string(k) }),
        },
    }
}

/// Reads the digits of `s` as a value within `bound`.
fn parse_bounded(s: &String, bound: u64) -> (r: Option<u64>)
    ensures
        match r {
            Some(n) => s@.len() > 0 && all_digits(s@) && digits_val(s@) == n && n <= bound,
            None => !(s@.len() > 0 && all_digits(s@) && digits_val(s@) <= bound),
        },
{
    let cs = str_to_chars(s.as_str());
    let len = cs.len();
    proof {
        assert(cs@.subrange(0, len as int) =~= s@);
    }
    match parse_u64_chars(&cs, 0, len) {
        Some(n) => {
            if n <= bound {
                Some(n)
            } else {
                None
            }
        },
        None => None,
    }
}

/// Reads a required unsigned integer member within `bound`.
pub fn get_uint(v: &JsonValue, k: &str, bound: u64) -> (r: Result<u64, DecodeError>)
    ensures
        match r {
            Ok(n) => spec_uint_field(*v, k@, bound as nat) == Some(n as nat) && n <= bound,
            Err(e) => spec_uint_field(*v, k@, bound as nat) is None && e.spec_field() == k@,
        },
{
    match v.get(k) {
        None => Err(DecodeError::Missing { field: field_string(k) }),
        Some(x) => match x {
            JsonValue::Num(t) => match parse_bounded(t, bound) {
                Some(n) => Ok(n),
                None => Err(
                    DecodeError::BadValue { field: field_string(k), raw: t.clone() },
                ),
            },
            _ => Err(DecodeError::WrongType { field: field_string(k) }),
        },
    }
}

/// Reads an optional unsigned integer member within `bound`.
pub fn get_opt_uint(v: &JsonValue, k: &str, bound: u64) -> (r: Result<
    Option<u64>,
    DecodeError,
>)
    ensures
        match r {
            Ok(None) => spec_opt_uint_field(*v, k@, bound as nat) == Some(Option::<nat>::None),
            Ok(Some(n)) => spec_opt_uint_field(*v, k@, bound as nat) == Some(Some(n as nat)) && n
                <= bound,
            Err(e) => spec_opt_uint_field(*v, k@, bound as nat) is None && e.spec_field() == k@,
        },
{
    match v.get(k) {
        None => Ok(None),
        Some(x) => match x {
            JsonValue::Null => Ok(None),
            JsonValue::Num(t) => match parse_bounded(t, bound) {
                Some(n) => Ok(Some(n)),
                None => Err(
                    DecodeError::BadValue { field: field_string(k), raw: t.clone() },
                ),
            },
            _ => Err(DecodeError::WrongType { field: field_string(k) }),
        },
    }
}

/// Reads an unsigned integer that travels as a quoted string of digits.
pub fn get_str_uint(v: &JsonValue, k: &str, bound: u64) -> (r: Result<u64, DecodeError>)
    ensures
        match r {
            Ok(n) => spec_str_uint_field(*v, k@, bound as nat) == Some(n as nat) && n <= bound,
            Err(e) => spec_str_uint_field(*v, k@, bound as nat) is None && e.spec_field() == k@,
        },
{
    match v.get(k) {
        None => Err(DecodeError::Missing { field: field_string(k) }),
        Some(x) => match x {
            JsonValue::Str(t) => match parse_bounded(t, bound) {
                Some(n) => Ok(n),
                None => Err(
                    DecodeError::BadValue { field: field_string(k), raw: t.clone() },
                ),
            },
            _ => Err(DecodeError::WrongType { field: field_string(k) }),
        },
    }
}

/// Reads a required `YYYY-MM-DD` member.
pub fn get_date(v: &JsonValue, k: &str) -> (r: Result<Date, DecodeError>)
    ensures
        match r {
            Ok(d) => spec_date_field(*v, k@) == Some(d) && d.wf(),
            Err(e) => spec_date_field(*v, k@) is None && e.spec_field() == k@,
        },
{
    match v.get(k) {
        None => Err(DecodeError::Missing { field: field_string(k) }),
        Some(x) => match x {
            JsonValue::Str(s) => match Date::from_wire(s.as_str()) {
                Some(d) => Ok(d),
                None => Err(
                    DecodeError::BadValue { field: field_string(k), raw: s.clone() },
                ),
            },
            _ => Err(DecodeError::WrongType { field: field_string(k) }),
        },
    }
}

/// Reads an optional `YYYY-MM-DD` member.
pub fn get_opt_date(v: &JsonValue, k: &str) -> (r: Result<Option<Date>, DecodeError>)
    ensures
        match r {
            Ok(None) => spec_opt_date_field(*v, k@) == Some(Option::<Date>::None),
            Ok(Some(d)) => spec_opt_date_field(*v, k@) == Some(Some(d)) && d.wf(),
            Err(e) => spec_opt_date_field(*v, k@) is None && e.spec_field() == k@,
        },
{
    match v.get(k) {
        None => Ok(None),
        Some(x) => match x {
            JsonValue::Null => Ok(None),
            JsonValue::Str(s) => match Date::from_wire(s.as_str()) {
                Some(d) => Ok(Some(d)),
                None => Err(
                    DecodeError::BadValue { field: field_string(k), raw: s.clone() },
                ),
            },
            _ => Err(DecodeError::WrongType { field: field_string(k) }),
        },
    }
}

/// Reads a required RFC 3339 timestamp member.
pub fn get_timestamp(v: &JsonValue, k: &str) -> (r: Result<Timestamp, DecodeError>)
    ensures
        match r {
            Ok(t) => spec_timestamp_field(*v, k@) == Some(t),
            Err(e) => spec_timestamp_field(*v, k@) is None && e.spec_field() == k@,
        },
{
    match v.get(k) {
        None => Err(DecodeError::Missing { field: field_string(k) }),
        Some(x) => match x {
            JsonValue::Str(s) => match Timestamp::from_wire(s.as_str()) {
                Some(t) => Ok(t),
                None => Err(
                    DecodeError::BadValue { field: field_string(k), raw: s.clone() },
                ),
            },
            _ => Err(DecodeError::WrongType { field: field_string(k) }),
        },
    }
}

/// Reads an optional RFC 3339 timestamp member.
pub fn get_opt_timestamp(v: &JsonValue, k: &str) -> (r: Result<Option<Timestamp>, DecodeError>)
    ensures
        match r {
            Ok(None) => spec_opt_timestamp_field(*v, k@) == Some(Option::<Timestamp>::None),
            Ok(Some(t)) => spec_opt_timestamp_field(*v, k@) == Some(Some(t)),
            Err(e) => spec_opt_timestamp_field(*v, k@) is None && e.spec_field() == k@,
        },
{
    match v.get(k) {
        None => Ok(None),
        Some(x) => match x {
            JsonValue::Null => Ok(None),
            JsonValue::Str(s) => match Timestamp::from_wire(s.as_str()) {
                Some(t) => Ok(Some(t)),
                None => Err(
                    DecodeError::BadValue { field: field_string(k), raw: s.clone() },
                ),
            },
            _ => Err(DecodeError::WrongType { field: field_string(k) }),
        },
    }
}

/// Reads a required `HH:MM` or `HH:MM:SS` member.
pub fn get_time(v: &JsonValue, k: &str) -> (r: Result<TimeOfDay, DecodeError>)
    ensures
        match r {
            Ok(t) => spec_time_field(*v, k@) == Some(t) && t.wf(),
            Err(e) => spec_time_field(*v, k@) is None && e.spec_field() == k@,
        },
{
    match v.get(k) {
        None => Err(DecodeError::Missing { field: field_string(k) }),
        Some(x) => match x {
            JsonValue::Str(s) => match TimeOfDay::from_wire(s.as_str()) {
                Some(t) => Ok(t),
                None => Err(
                    DecodeError::BadValue { field: field_string(k), raw: s.clone() },
                ),
            },
            _ => Err(DecodeError::WrongType { field: field_string(k) }),
        },
    }
}

// ---------------------------------------------------------------------
// Views and array readers
// ---------------------------------------------------------------------

pub open spec fn view_opt_str(o: Option<String>) -> Option<Seq<char>> {
    match o {
        Some(s) => Some(s@),
        None => None,
    }
}

pub open spec fn view_opt_money(o: Option<Money>) -> Option<MoneyV> {
    match o {
        Some(m) => Some(m@),
        None => None,
    }
}

pub open spec fn view_str_seq(s: Seq<String>) -> Seq<Seq<char>> {
    s.map_values(|x: String| x@)
}

pub open spec fn view_money_seq(s: Seq<Money>) -> Seq<MoneyV> {
    s.map_values(|x: Money| x@)
}

pub open spec fn view_u64_seq(s: Seq<u64>) -> Seq<nat> {
    s.map_values(|x: u64| x as nat)
}

/// An array member whose elements are all strings.
pub open spec fn spec_str_arr_field(v: JsonValue, k: Seq<char>) -> Option<Seq<Seq<char>>> {
    match json_get(v, k) {
        Some(JsonValue::Arr(a)) => {
            if forall|i: int| 0 <= i < a@.len() ==> (#[trigger] a@[i]) is Str {
                Some(a@.map_values(|x: JsonValue| x->Str_0@))
            } else {
                None
            }
        },
        _ => None,
    }
}

/// Reads a required array-of-strings member.
#[verifier::loop_isolation(false)]
pub fn get_str_arr(v: &JsonValue, k: &str) -> (r: Result<Vec<String>, DecodeError>)
    ensures
        match r {
            Ok(xs) => spec_str_arr_field(*v, k@) == Some(view_str_seq(xs@)),
            Err(e) => spec_str_arr_field(*v, k@) is None && e.spec_field() == k@,
        },
{
    let arr = match v.get(k) {
        None => {
            return Err(DecodeError::Missing { field: field_string(k) });
        },
        Some(x) => match x {
            JsonValue::Arr(a) => a,
            _ => {
                return Err(DecodeError::WrongType { field: field_string(k) });
            },
        },
    };
    let n = arr.len();
    let mut out: Vec<String> = Vec::new();
    let mut i: usize = 0;
    while i < n
        invariant
            i <= n,
            n == arr@.len(),
            out@.len() == i,
            forall|j: int| 0 <= j < i ==> (#[trigger] arr@[j]) is Str,
            forall|j: int| 0 <= j < i ==> #[trigger] out@[j]@ == arr@[j]->Str_0@,
        decreases n - i,
    {
        match &arr[i] {
            JsonValue::Str(s) => {
                out.push(s.clone());
            },
            _ => {
                return Err(DecodeError::WrongType { field: field_string(k) });
            },
        }
        i = i + 1;
    }
    proof {
        assert(view_str_seq(out@) =~= a_view_strs(arr@));
        assert(spec_str_arr_field(*v, k@) == Some(view_str_seq(out@)));
    }
    Ok(out)
}

/// The string views of an all-string array.
pub open spec fn a_view_strs(a: Seq<JsonValue>) -> Seq<Seq<char>> {
    a.map_values(|x: JsonValue| x->Str_0@)
}

/// An array member whose elements are all bare digit tokens within
/// `bound`.
pub open spec fn spec_uint_arr_field(v: JsonValue, k: Seq<char>, bound: nat) -> Option<
    Seq<nat>,
> {
    match json_get(v, k) {
        Some(JsonValue::Arr(a)) => {
            if forall|i: int| 0 <= i < a@.len() ==> spec_uint_token(#[trigger] a@[i], bound) {
                Some(a@.map_values(|x: JsonValue| digits_val(x->Num_0@)))
            } else {
                None
            }
        },
        _ => None,
    }
}

/// A bare number token of plain digits within `bound`.
pub open spec fn spec_uint_token(x: JsonValue, bound: nat) -> bool {
    &&& x is Num
    &&& x->Num_0@.len() > 0
    &&& all_digits(x->Num_0@)
    &&& digits_val(x->Num_0@) <= bound
}

/// Reads a required array-of-integers member within `bound`.
#[verifier::loop_isolation(false)]
pub fn get_uint_arr(v: &JsonValue, k: &str, bound: u64) -> (r: Result<Vec<u64>, DecodeError>)
    ensures
        match r {
            Ok(xs) => spec_uint_arr_field(*v, k@, bound as nat) == Some(view_u64_seq(xs@)),
            Err(e) => spec_uint_arr_field(*v, k@, bound as nat) is None && e.spec_field() == k@,
        },
{
    let arr = match v.get(k) {
        None => {
            return Err(DecodeError::Missing { field: field_string(k) });
        },
        Some(x) => match x {
            JsonValue::Arr(a) => a,
            _ => {
                return Err(DecodeError::WrongType { field: field_string(k) });
            },
        },
    };
    let n = arr.len();
    let mut out: Vec<u64> = Vec::new();
    let mut i: usize = 0;
    while i < n
        invariant
            i <= n,
            n == arr@.len(),
            out@.len() == i,
            forall|j: int| 0 <= j < i ==> spec_uint_token(#[trigger] arr@[j], bound as nat),
            forall|j: int| 0 <= j < i ==> #[trigger] out@[j] as nat == digits_val(
                arr@[j]->Num_0@,
            ),
        decreases n - i,
    {
        match &arr[i] {
            JsonValue::Num(t) => match parse_bounded(t, bound) {
                Some(x) => {
                    out.push(x);
                },
                None => {
                    return Err(
                        DecodeError::BadValue { field: field_string(k), raw: t.clone() },
                    );
                },
            },
            _ => {
                return Err(DecodeError::WrongType { field: field_string(k) });
            },
        }
        i = i + 1;
    }
    proof {
        assert(view_u64_seq(out@) =~= arr@.map_values(|x: JsonValue| digits_val(x->Num_0@)));
    }
    Ok(out)
}

/// A decimal token: a quoted decimal string or a bare number token.
pub open spec fn spec_money_token(x: JsonValue) -> Option<MoneyV> {
    match x {
        JsonValue::Str(s) => money_from_token(s@),
        JsonValue::Num(t) => money_from_token(t@),
        _ => None,
    }
}

/// An array member whose elements are all decimal tokens.
pub open spec fn spec_money_arr_field(v: JsonValue, k: Seq<char>) -> Option<Seq<MoneyV>> {
    match json_get(v, k) {
        Some(JsonValue::Arr(a)) => {
            if forall|i: int| 0 <= i < a@.len() ==> spec_money_token(#[trigger] a@[i]) is Some {
                Some(a@.map_values(|x: JsonValue| spec_money_token(x)->0))
            } else {
                None
            }
        },
        _ => None,
    }
}

/// Reads one decimal token.
fn money_of_token(x: &JsonValue, k: &str) -> (r: Result<Money, DecodeError>)
    ensures
        match r {
            Ok(m) => spec_money_token(*x) == Some(m@) && m@.wf(),
            Err(e) => spec_money_token(*x) is None && e.spec_field() == k@,
        },
{
    match x {
        JsonValue::Str(s) => match Money::from_wire(s.as_str()) {
            Some(m) => Ok(m),
            None => Err(DecodeError::BadValue { field: field_string(k), raw: s.clone() }),
        },
        JsonValue::Num(t) => match Money::from_wire(t.as_str()) {
            Some(m) => Ok(m),
            None => Err(DecodeError::BadValue { field: field_string(k), raw: t.clone() }),
        },
        _ => Err(DecodeError::WrongType { field: field_string(k) }),
    }
}

/// Reads a required array-of-decimals member.
#[verifier::loop_isolation(false)]
pub fn get_money_arr(v: &JsonValue, k: &str) -> (r: Result<Vec<Money>, DecodeError>)
    ensures
        match r {
            Ok(xs) => spec_money_arr_field(*v, k@) == Some(view_money_seq(xs@)),
            Err(e) => spec_money_arr_field(*v, k@) is None && e.spec_field() == k@,
        },
{
    let arr = match v.get(k) {
        None => {
            return Err(DecodeError::Missing { field: field_string(k) });
        },
        Some(x) => match x {
            JsonValue::Arr(a) => a,
            _ => {
                return Err(DecodeError::WrongType { field: field_string(k) });
            },
        },
    };
    let n = arr.len();
    let mut out: Vec<Money> = Vec::new();
    let mut i: usize = 0;
    while i < n
        invariant
            i <= n,
            n == arr@.len(),
            out@.len() == i,
            forall|j: int| 0 <= j < i ==> spec_money_token(#[trigger] arr@[j]) is Some,
            forall|j: int| 0 <= j < i ==> #[trigger] out@[j]@ == spec_money_token(arr@[j])->0,
        decreases n - i,
    {
        let m = money_of_token(&arr[i], k)?;
        out.push(m);
        i = i + 1;
    }
    proof {
        assert(view_money_seq(out@) =~= arr@.map_values(|x: JsonValue| spec_money_token(x)->0));
    }
    Ok(out)
}

/// An optional array-of-decimals member.
pub open spec fn spec_opt_money_arr_field(v: JsonValue, k: Seq<char>) -> Option<
    Option<Seq<MoneyV>>,
> {
    match json_get(v, k) {
        None => Some(None),
        Some(JsonValue::Null) => Some(None),
        Some(JsonValue::Arr(a)) => {
            if forall|i: int| 0 <= i < a@.len() ==> spec_money_token(#[trigger] a@[i]) is Some {
                Some(Some(a@.map_values(|x: JsonValue| spec_money_token(x)->0)))
            } else {
                None
            }
        },
        _ => None,
    }
}

/// Reads an optional array-of-decimals member.
#[verifier::loop_isolation(false)]
pub fn get_opt_money_arr(v: &JsonValue, k: &str) -> (r: Result<Option<Vec<Money>>, DecodeError>)
    ensures
        match r {
            Ok(None) => spec_opt_money_arr_field(*v, k@) == Some(Option::<Seq<MoneyV>>::None),
            Ok(Some(xs)) => spec_opt_money_arr_field(*v, k@) == Some(Some(view_money_seq(xs@))),
            Err(e) => spec_opt_money_arr_field(*v, k@) is None && e.spec_field() == k@,
        },
{
    let arr = match v.get(k) {
        None => {
            return Ok(None);
        },
        Some(x) => match x {
            JsonValue::Null => {
                return Ok(None);
            },
            JsonValue::Arr(a) => a,
            _ => {
                return Err(DecodeError::WrongType { field: field_string(k) });
            },
        },
    };
    let n = arr.len();
    let mut out: Vec<Money> = Vec::new();
    let mut i: usize = 0;
    while i < n
        invariant
            i <= n,
            n == arr@.len(),
            out@.len() == i,
            forall|j: int| 0 <= j < i ==> spec_money_token(#[trigger] arr@[j]) is Some,
            forall|j: int| 0 <= j < i ==> #[trigger] out@[j]@ == spec_money_token(arr@[j])->0,
        decreases n - i,
    {
        let m = money_of_token(&arr[i], k)?;
        out.push(m);
        i = i + 1;
    }
    proof {
        assert(view_money_seq(out@) =~= arr@.map_values(|x: JsonValue| spec_money_token(x)->0));
    }
    Ok(Some(out))
}

// ---------------------------------------------------------------------
// Identifiers
// ---------------------------------------------------------------------

/// Whether `c` is a hexadecimal digit.
pub open spec fn is_hex_digit(c: char) -> bool {
    is_digit(c) || c == 'a' || c == 'b' || c == 'c' || c == 'd' || c == 'e' || c == 'f' || c
        == 'A' || c == 'B' || c == 'C' || c == 'D' || c == 'E' || c == 'F'
}

/// `c` with an upper-case hex letter lowered.
pub open spec fn lower_hex_char(c: char) -> char {
    if c == 'A' {
        'a'
    } else if c == 'B' {
        'b'
    } else if c == 'C' {
        'c'
    } else if c == 'D' {
        'd'
    } else if c == 'E' {
        'e'
    } else if c == 'F' {
        'f'
    } else {
        c
    }
}

/// The canonical hyphenated UUID shape: 36 characters, hyphens at the
/// four fixed places, hex digits elsewhere.
pub open spec fn is_uuid_text(s: Seq<char>) -> bool {
    &&& s.len() == 36
    &&& forall|i: int|
        0 <= i < 36 ==> {
            if i == 8 || i == 13 || i == 18 || i == 23 {
                #[trigger] s[i] == '-'
            } else {
                is_hex_digit(s[i])
            }
        }
}

/// A UUID's text, lowered to the canonical case.
pub open spec fn uuid_norm(s: Seq<char>) -> Seq<char> {
    s.map_values(|c: char| lower_hex_char(c))
}

/// An identifier member holding hyphenated UUID text, normalized to
/// lower case.
pub open spec fn spec_uuid_field(v: JsonValue, k: Seq<char>) -> Option<Seq<char>> {
    match json_get(v, k) {
        Some(JsonValue::Str(s)) => {
            if is_uuid_text(s@) {
                Some(uuid_norm(s@))
            } else {
                None
            }
        },
        _ => None,
    }
}

/// An optional identifier member.
pub open spec fn spec_opt_uuid_field(v: JsonValue, k: Seq<char>) -> Option<Option<Seq<char>>> {
    match json_get(v, k) {
        None => Some(None),
        Some(JsonValue::Null) => Some(None),
        Some(JsonValue::Str(s)) => {
            if is_uuid_text(s@) {
                Some(Some(uuid_norm(s@)))
            } else {
                None
            }
        },
        _ => None,
    }
}

fn is_hex_digit_exec(c: char) -> (r: bool)
    ensures
        r == is_hex_digit(c),
{
    crate::numtext::digit_val_exec(c) < 10 || c == 'a' || c == 'b' || c == 'c' || c == 'd' || c
        == 'e' || c == 'f' || c == 'A' || c == 'B' || c == 'C' || c == 'D' || c == 'E' || c == 'F'
}

fn lower_hex_char_exec(c: char) -> (r: char)
    ensures
        r == lower_hex_char(c),
{
    if c == 'A' {
        'a'
    } else if c == 'B' {
        'b'
    } else if c == 'C' {
        'c'
    } else if c == 'D' {
        'd'
    } else if c == 'E' {
        'e'
    } else if c == 'F' {
        'f'
    } else {
        c
    }
}

/// Validates UUID text and lowers it to the canonical case.
#[verifier::loop_isolation(false)]
fn normalize_uuid(s: &String) -> (r: Option<String>)
    ensures
        match r {
            Some(t) => is_uuid_text(s@) && t@ == uuid_norm(s@),
            None => !is_uuid_text(s@),
        },
{
    let cs = crate::text::str_to_chars(s.as_str());
    let n = cs.len();
    if n != 36 {
        return None;
    }
    let mut out: Vec<char> = Vec::new();
    let mut i: usize = 0;
    while i < 36
        invariant
            i <= 36,
            out@.len() == i,
            forall|j: int|
                0 <= j < i ==> {
                    if j == 8 || j == 13 || j == 18 || j == 23 {
                        #[trigger] s@[j] == '-'
                    } else {
                        is_hex_digit(s@[j])
                    }
                },
            forall|j: int| 0 <= j < i ==> #[trigger] out@[j] == lower_hex_char(s@[j]),
        decreases 36 - i,
    {
        let c = cs[i];
        if i == 8 || i == 13 || i == 18 || i == 23 {
            if c != '-' {
                return None;
            }
            out.push('-');
            proof {
                assert(lower_hex_char('-') == '-');
            }
        } else {
            if !is_hex_digit_exec(c) {
                return None;
            }
            out.push(lower_hex_char_exec(c));
        }
        i = i + 1;
    }
    proof {
        assert(out@ =~= uuid_norm(s@));
    }
    Some(crate::text::chars_to_string(&out))
}

/// Reads a required UUID member, lowered to the canonical case.
pub fn get_uuid(v: &JsonValue, k: &str) -> (r: Result<String, DecodeError>)
    ensures
        match r {
            Ok(s) => spec_uuid_field(*v, k@) == Some(s@),
            Err(e) => spec_uuid_field(*v, k@) is None && e.spec_field() == k@,
        },
{
    match v.get(k) {
        None => Err(DecodeError::Missing { field: field_string(k) }),
        Some(x) => match x {
            JsonValue::Str(s) => match normalize_uuid(s) {
                Some(t) => Ok(t),
                None => Err(
                    DecodeError::BadValue { field: field_string(k), raw: s.clone() },
                ),
            },
            _ => Err(DecodeError::WrongType { field: field_string(k) }),
        },
    }
}

/// Reads an optional UUID member.
pub fn get_opt_uuid(v: &JsonValue, k: &str) -> (r: Result<Option<String>, DecodeError>)
    ensures
        match r {
            Ok(None) => spec_opt_uuid_field(*v, k@) == Some(Option::<Seq<char>>::None),
            Ok(Some(s)) => spec_opt_uuid_field(*v, k@) == Some(Some(s@)),
            Err(e) => spec_opt_uuid_field(*v, k@) is None && e.spec_field() == k@,
        },
{
    match v.get(k) {
        None => Ok(None),
        Some(x) => match x {
            JsonValue::Null => Ok(None),
            JsonValue::Str(s) => match normalize_uuid(s) {
                Some(t) => Ok(Some(t)),
                None => Err(
                    DecodeError::BadValue { field: field_string(k), raw: s.clone() },
                ),
            },
            _ => Err(DecodeError::WrongType { field: field_string(k) }),
        },
    }
}

} // verus!
