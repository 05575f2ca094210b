//! Tradable assets.

use vstd::prelude::*;

use crate::decode::{
    DecodeError, get_bool, get_opt_money, get_opt_str, get_str, get_str_arr, get_uuid,
    spec_bool_field, spec_opt_money_field, spec_opt_str_field, spec_str_arr_field,
    spec_str_field, spec_uuid_field, view_opt_money, view_opt_str, view_str_seq
};
use crate::decimal::{Money};
use crate::enums::{
    AssetClass, Exchange, Status, spec_asset_class_from_wire, spec_exchange_from_wire,
    spec_status_from_wire
};
use crate::json::{JsonValue};

verus! {

/// One tradable asset and its flags.
#[derive(Debug, Clone, PartialEq)]
pub struct Asset {
    pub id: String,
    pub class: AssetClass,
    pub cusip: Option<String>,
    pub exchange: Exchange,
    pub symbol: String,
    pub name: String,
    pub status: Status,
    pub tradable: bool,
    pub marginable: bool,
    pub shortable: bool,
    pub margin_requirement_long: Option<Money>,
    pub margin_requirement_short: Option<Money>,
    pub easy_to_borrow: bool,
    pub fractionable: bool,
    pub attributes: Vec<String>,
}

/// Whether a parsed body has the shape of a [`Asset`].
pub open spec fn spec_asset_ok(v: JsonValue) -> bool {
    &&& spec_uuid_field(v, "id"@) is Some
    &&& spec_str_field(v, "class"@) is Some && spec_asset_class_from_wire(spec_str_field(v, "class"@)->0) is Some
    &&& spec_opt_str_field(v, "cusip"@) is Some
    &&& spec_str_field(v, "exchange"@) is Some && spec_exchange_from_wire(spec_str_field(v, "exchange"@)->0) is Some
    &&& spec_str_field(v, "symbol"@) is Some
    &&& spec_str_field(v, "name"@) is Some
    &&& spec_str_field(v, "status"@) is Some && spec_status_from_wire(spec_str_field(v, "status"@)->0) is Some
    &&& spec_bool_field(v, "tradable"@) is Some
    &&& spec_bool_field(v, "marginable"@) is Some
    &&& spec_bool_field(v, "shortable"@) is Some
    &&& spec_opt_money_field(v, "margin_requirement_long"@) is Some
    &&& spec_opt_money_field(v, "margin_requirement_short"@) is Some
    &&& spec_bool_field(v, "easy_to_borrow"@) is Some
    &&& spec_bool_field(v, "fractionable"@) is Some
    &&& spec_str_arr_field(v, "attributes"@) is Some
}

/// Whether `m` is exactly what the body `v` denotes, field by field.
pub open spec fn spec_asset_matches(v: JsonValue, m: Asset) -> bool {
    &&& m.id@ == spec_uuid_field(v, "id"@)->0
    &&& Some(m.class) == spec_asset_class_from_wire(spec_str_field(v, "class"@)->0)
    &&& view_opt_str(m.cusip) == spec_opt_str_field(v, "cusip"@)->0
    &&& Some(m.exchange) == spec_exchange_from_wire(spec_str_field(v, "exchange"@)->0)
    &&& m.symbol@ == spec_str_field(v, "symbol"@)->0
    &&& m.name@ == spec_str_field(v, "name"@)->0
    &&& Some(m.status) == spec_status_from_wire(spec_str_field(v, "status"@)->0)
    &&& m.tradable == spec_bool_field(v, "tradable"@)->0
    &&& m.marginable == spec_bool_field(v, "marginable"@)->0
    &&& m.shortable == spec_bool_field(v, "shortable"@)->0
    &&& view_opt_money(m.margin_requirement_long) == spec_opt_money_field(v, "margin_requirement_long"@)->0
    &&& view_opt_money(m.margin_requirement_short) == spec_opt_money_field(v, "margin_requirement_short"@)->0
    &&& m.easy_to_borrow == spec_bool_field(v, "easy_to_borrow"@)->0
    &&& m.fractionable == spec_bool_field(v, "fractionable"@)->0
    &&& spec_str_arr_field(v, "attributes"@) == Some(view_str_seq(m.attributes@))
}

/// Reads a [`Asset`] from a parsed response body.
#[verifier::loop_isolation(false)]
#[verifier::rlimit(50)]
pub fn asset_from_json(v: &JsonValue) -> (r: Result<Asset, DecodeError>)
    ensures
        r is Ok <==> spec_asset_ok(*v),
        match r {
            Ok(m) => spec_asset_matches(*v, m),
            Err(_) => true,
        },
{
    let id = get_uuid(v, "id")?;
    let class_s = get_str(v, "class")?;
    let class = match AssetClass::from_wire(class_s.as_str()) {
        Some(x) => x,
        None => {
            return Err(DecodeError::UnknownVariant { field: String::from_str("class"), raw: class_s });
        },
    };
    let cusip = get_opt_str(v, "cusip")?;
    let exchange_s = get_str(v, "exchange")?;
    let exchange = match Exchange::from_wire(exchange_s.as_str()) {
        Some(x) => x,
        None => {
            return Err(DecodeError::UnknownVariant { field: String::from_str("exchange"), raw: exchange_s });
        },
    };
    let symbol = get_str(v, "symbol")?;
    let name = get_str(v, "name")?;
    let status_s = get_str(v, "status")?;
    let status = match Status::from_wire(status_s.as_str()) {
        Some(x) => x,
        None => {
            return Err(DecodeError::UnknownVariant { field: String::from_str("status"), raw: status_s });
        },
    };
    let tradable = get_bool(v, "tradable")?;
    let marginable = get_bool(v, "marginable")?;
    let shortable = get_bool(v, "shortable")?;
    let margin_requirement_long = get_opt_money(v, "margin_requirement_long")?;
    let margin_requirement_short = get_opt_money(v, "margin_requirement_short")?;
    let easy_to_borrow = get_bool(v, "easy_to_borrow")?;
    let fractionable = get_bool(v, "fractionable")?;
    let attributes = get_str_arr(v, "attributes")?;
    Ok(Asset {
        id,
        class,
        cusip,
        exchange,
        symbol,
        name,
        status,
        tradable,
        marginable,
        shortable,
        margin_requirement_long,
        margin_requirement_short,
        easy_to_borrow,
        fractionable,
        attributes,
    })
}


/// Whether a parsed body is an array of well-formed [`Asset`] bodies.
pub open spec fn spec_assets_ok(v: JsonValue) -> bool {
    match v {
        JsonValue::Arr(a) => forall|i: int| 0 <= i < a@.len() ==> spec_asset_ok(#[trigger] a@[i]),
        _ => false,
    }
}

/// Reads a whole response array of [`Asset`] records.
#[verifier::loop_isolation(false)]
pub fn assets_from_json(v: &JsonValue) -> (r: Result<Vec<Asset>, DecodeError>)
    ensures
        r is Ok <==> spec_assets_ok(*v),
        match r {
            Ok(xs) => v matches JsonValue::Arr(a) && xs@.len() == a@.len() && (forall|i: int|
                0 <= i < a@.len() ==> spec_asset_matches(#[trigger] a@[i], xs@[i])),
            Err(_) => true,
        },
{
    let arr = match v {
        JsonValue::Arr(a) => a,
        _ => {
            return Err(DecodeError::WrongType { field: String::from_str("body") });
        },
    };
    let n = arr.len();
    let mut out: Vec<Asset> = Vec::new();
    let mut i: usize = 0;
    while i < n
        invariant
            i <= n,
            out@.len() == i,
            forall|j: int|
                0 <= j < i ==> spec_asset_ok(#[trigger] arr@[j]) && spec_asset_matches(
                    arr@[j],
                    out@[j],
                ),
        decreases n - i,
    {
        let item = asset_from_json(&arr[i])?;
        out.push(item);
        i = i + 1;
    }
    Ok(out)
}


} // verus!
