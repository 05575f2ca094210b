//! Option contracts.

use vstd::prelude::*;

use crate::decode::{
    DecodeError, get_bool, get_date, get_money, get_opt_date, get_opt_money, get_opt_str,
    get_opt_uint, get_opt_uuid, get_str, get_uuid, spec_bool_field, spec_date_field,
    spec_money_field, spec_opt_date_field, spec_opt_money_field, spec_opt_str_field,
    spec_opt_uint_field, spec_opt_uuid_field, spec_str_field, spec_uuid_field, view_opt_money,
    view_opt_str
};
use crate::dates::{Date};
use crate::decimal::{Money};
use crate::enums::{
    DeliverableSettlementMethod, DeliverableType, OptionStyle, OptionType,
    spec_deliverable_settlement_method_from_wire, spec_deliverable_type_from_wire,
    spec_option_style_from_wire, spec_option_type_from_wire
};
use crate::json::{json_get, JsonValue};

verus! {

/// What one option contract delivers on exercise.
#[derive(Debug, Clone, PartialEq)]
pub struct Deliverable {
    pub _type: DeliverableType,
    pub symbol: String,
    pub asset_id: Option<String>,
    pub amount: Money,
    pub allocation_percentage: Money,
    pub settlement_type: String,
    pub settlement_method: DeliverableSettlementMethod,
    pub delayed_settlement: bool,
}

/// Whether a parsed body has the shape of a [`Deliverable`].
pub open spec fn spec_deliverable_ok(v: JsonValue) -> bool {
    &&& spec_str_field(v, "type"@) is Some && spec_deliverable_type_from_wire(spec_str_field(v, "type"@)->0) is Some
    &&& spec_str_field(v, "symbol"@) is Some
    &&& spec_opt_uuid_field(v, "asset_id"@) is Some
    &&& spec_money_field(v, "amount"@) is Some
    &&& spec_money_field(v, "allocation_percentage"@) is Some
    &&& spec_str_field(v, "settlement_type"@) is Some
    &&& spec_str_field(v, "settlement_method"@) is Some && spec_deliverable_settlement_method_from_wire(spec_str_field(v, "settlement_method"@)->0) is Some
    &&& spec_bool_field(v, "delayed_settlement"@) is Some
}

/// Whether `m` is exactly what the body `v` denotes, field by field.
pub open spec fn spec_deliverable_matches(v: JsonValue, m: Deliverable) -> bool {
    &&& Some(m._type) == spec_deliverable_type_from_wire(spec_str_field(v, "type"@)->0)
    &&& m.symbol@ == spec_str_field(v, "symbol"@)->0
    &&& view_opt_str(m.asset_id) == spec_opt_uuid_field(v, "asset_id"@)->0
    &&& m.amount@ == spec_money_field(v, "amount"@)->0
    &&& m.allocation_percentage@ == spec_money_field(v, "allocation_percentage"@)->0
    &&& m.settlement_type@ == spec_str_field(v, "settlement_type"@)->0
    &&& Some(m.settlement_method) == spec_deliverable_settlement_method_from_wire(spec_str_field(v, "settlement_method"@)->0)
    &&& m.delayed_settlement == spec_bool_field(v, "delayed_settlement"@)->0
}

/// Reads a [`Deliverable`] from a parsed response body.
#[verifier::loop_isolation(false)]
pub fn deliverable_from_json(v: &JsonValue) -> (r: Result<Deliverable, DecodeError>)
    ensures
        r is Ok <==> spec_deliverable_ok(*v),
        match r {
            Ok(m) => spec_deliverable_matches(*v, m),
            Err(_) => true,
        },
{
    let _type_s = get_str(v, "type")?;
    let _type = match DeliverableType::from_wire(_type_s.as_str()) {
        Some(x) => x,
        None => {
            return Err(DecodeError::UnknownVariant { field: String::from_str("type"), raw: _type_s });
        },
    };
    let symbol = get_str(v, "symbol")?;
    let asset_id = get_opt_uuid(v, "asset_id")?;
    let amount = get_money(v, "amount")?;
    let allocation_percentage = get_money(v, "allocation_percentage")?;
    let settlement_type = get_str(v, "settlement_type")?;
    let settlement_method_s = get_str(v, "settlement_method")?;
    let settlement_method = match DeliverableSettlementMethod::from_wire(settlement_method_s.as_str()) {
        Some(x) => x,
        None => {
            return Err(DecodeError::UnknownVariant { field: String::from_str("settlement_method"), raw: settlement_method_s });
        },
    };
    let delayed_settlement = get_bool(v, "delayed_settlement")?;
    Ok(Deliverable {
        _type,
        symbol,
        asset_id,
        amount,
        allocation_percentage,
        settlement_type,
        settlement_method,
        delayed_settlement,
    })
}

/// One option contract.
#[derive(Debug, Clone, PartialEq)]
pub struct OptionContract {
    pub id: String,
    pub symbol: String,
    pub name: String,
    pub tradable: bool,
    pub expiration_date: Date,
    pub root_symbol: Option<String>,
    pub underlying_symbol: String,
    pub underlying_asset_id: String,
    pub _type: OptionType,
    pub style: OptionStyle,
    pub strike_price: Money,
    pub multiplier: Money,
    pub size: Money,
    pub open_interest: Option<u32>,
    pub open_interest_date: Option<Date>,
    pub close_price: Option<Money>,
    pub close_price_date: Option<Date>,
    pub deliverables: Option<Vec<Deliverable>>,
}

/// Whether a parsed body has the shape of a [`OptionContract`].
pub open spec fn spec_option_contract_ok(v: JsonValue) -> bool {
    &&& spec_uuid_field(v, "id"@) is Some
    &&& spec_str_field(v, "symbol"@) is Some
    &&& spec_str_field(v, "name"@) is Some
    &&& spec_bool_field(v, "tradable"@) is Some
    &&& spec_date_field(v, "expiration_date"@) is Some
    &&& spec_opt_str_field(v, "root_symbol"@) is Some
    &&& spec_str_field(v, "underlying_symbol"@) is Some
    &&& spec_uuid_field(v, "underlying_asset_id"@) is Some
    &&& spec_str_field(v, "type"@) is Some && spec_option_type_from_wire(spec_str_field(v, "type"@)->0) is Some
    &&& spec_str_field(v, "style"@) is Some && spec_option_style_from_wire(spec_str_field(v, "style"@)->0) is Some
    &&& spec_money_field(v, "strike_price"@) is Some
    &&& spec_money_field(v, "multiplier"@) is Some
    &&& spec_money_field(v, "size"@) is Some
    &&& spec_opt_uint_field(v, "open_interest"@, u32::MAX as nat) is Some
    &&& spec_opt_date_field(v, "open_interest_date"@) is Some
    &&& spec_opt_money_field(v, "close_price"@) is Some
    &&& spec_opt_date_field(v, "close_price_date"@) is Some
    &&& (match json_get(v, "deliverables"@) { None => true, Some(JsonValue::Null) => true, Some(JsonValue::Arr(a)) => forall|i: int| 0 <= i < a@.len() ==> spec_deliverable_ok(#[trigger] a@[i]), _ => false })
}

/// Whether `m` is exactly what the body `v` denotes, field by field.
pub open spec fn spec_option_contract_matches(v: JsonValue, m: OptionContract) -> bool {
    &&& m.id@ == spec_uuid_field(v, "id"@)->0
    &&& m.symbol@ == spec_str_field(v, "symbol"@)->0
    &&& m.name@ == spec_str_field(v, "name"@)->0
    &&& m.tradable == spec_bool_field(v, "tradable"@)->0
    &&& Some(m.expiration_date) == spec_date_field(v, "expiration_date"@)
    &&& view_opt_str(m.root_symbol) == spec_opt_str_field(v, "root_symbol"@)->0
    &&& m.underlying_symbol@ == spec_str_field(v, "underlying_symbol"@)->0
    &&& m.underlying_asset_id@ == spec_uuid_field(v, "underlying_asset_id"@)->0
    &&& Some(m._type) == spec_option_type_from_wire(spec_str_field(v, "type"@)->0)
    &&& Some(m.style) == spec_option_style_from_wire(spec_str_field(v, "style"@)->0)
    &&& m.strike_price@ == spec_money_field(v, "strike_price"@)->0
    &&& m.multiplier@ == spec_money_field(v, "multiplier"@)->0
    &&& m.size@ == spec_money_field(v, "size"@)->0
    &&& (match m.open_interest { Some(x) => spec_opt_uint_field(v, "open_interest"@, u32::MAX as nat) == Some(Some(x as nat)), None => spec_opt_uint_field(v, "open_interest"@, u32::MAX as nat) == Some(Option::<nat>::None) })
    &&& spec_opt_date_field(v, "open_interest_date"@) == Some(m.open_interest_date)
    &&& view_opt_money(m.close_price) == spec_opt_money_field(v, "close_price"@)->0
    &&& spec_opt_date_field(v, "close_price_date"@) == Some(m.close_price_date)
    &&& (match json_get(v, "deliverables"@) { None => m.deliverables is None, Some(JsonValue::Null) => m.deliverables is None, Some(JsonValue::Arr(a)) => m.deliverables matches Some(l) && l@.len() == a@.len() && (forall|i: int| 0 <= i < a@.len() ==> spec_deliverable_matches(#[trigger] a@[i], l@[i])), _ => false })
}

/// Reads a [`OptionContract`] from a parsed response body.
#[verifier::loop_isolation(false)]
#[verifier::rlimit(50)]
pub fn option_contract_from_json(v: &JsonValue) -> (r: Result<OptionContract, DecodeError>)
    ensures
        r is Ok <==> spec_option_contract_ok(*v),
        match r {
            Ok(m) => spec_option_contract_matches(*v, m),
            Err(_) => true,
        },
{
    let id = get_uuid(v, "id")?;
    let symbol = get_str(v, "symbol")?;
    let name = get_str(v, "name")?;
    let tradable = get_bool(v, "tradable")?;
    let expiration_date = get_date(v, "expiration_date")?;
    let root_symbol = get_opt_str(v, "root_symbol")?;
    let underlying_symbol = get_str(v, "underlying_symbol")?;
    let underlying_asset_id = get_uuid(v, "underlying_asset_id")?;
    let _type_s = get_str(v, "type")?;
    let _type = match OptionType::from_wire(_type_s.as_str()) {
        Some(x) => x,
        None => {
            return Err(DecodeError::UnknownVariant { field: String::from_str("type"), raw: _type_s });
        },
    };
    let style_s = get_str(v, "style")?;
    let style = match OptionStyle::from_wire(style_s.as_str()) {
        Some(x) => x,
        None => {
            return Err(DecodeError::UnknownVariant { field: String::from_str("style"), raw: style_s });
        },
    };
    let strike_price = get_money(v, "strike_price")?;
    let multiplier = get_money(v, "multiplier")?;
    let size = get_money(v, "size")?;
    let open_interest = match get_opt_uint(v, "open_interest", u32::MAX as u64)? {
        Some(x) => Some(x as u32),
        None => None,
    };
    let open_interest_date = get_opt_date(v, "open_interest_date")?;
    let close_price = get_opt_money(v, "close_price")?;
    let close_price_date = get_opt_date(v, "close_price_date")?;
    let deliverables = match v.get("deliverables") {
        None => None,
        Some(x) => match x {
            JsonValue::Null => None,
            JsonValue::Arr(arr) => {
                let n = arr.len();
                let mut out: Vec<Deliverable> = Vec::new();
                let mut i: usize = 0;
                while i < n
                    invariant
                        i <= n,
                        n == arr@.len(),
                        out@.len() == i,
                        forall|j: int|
                            0 <= j < i ==> spec_deliverable_ok(#[trigger] arr@[j]) && spec_deliverable_matches(
                                arr@[j],
                                out@[j],
                            ),
                    decreases n - i,
                {
                    let item = deliverable_from_json(&arr[i])?;
                    out.push(item);
                    i = i + 1;
                }
                Some(out)
            },
            _ => {
                return Err(DecodeError::WrongType { field: String::from_str("deliverables") });
            },
        },
    };
    Ok(OptionContract {
        id,
        symbol,
        name,
        tradable,
        expiration_date,
        root_symbol,
        underlying_symbol,
        underlying_asset_id,
        _type,
        style,
        strike_price,
        multiplier,
        size,
        open_interest,
        open_interest_date,
        close_price,
        close_price_date,
        deliverables,
    })
}

/// A page of option contracts.
#[derive(Debug, Clone, PartialEq)]
pub struct OptionsResponse {
    pub option_contracts: Vec<OptionContract>,
    pub next_page_token: Option<String>,
}

/// Whether a parsed body has the shape of a [`OptionsResponse`].
pub open spec fn spec_options_response_ok(v: JsonValue) -> bool {
    &&& (match json_get(v, "option_contracts"@) { Some(JsonValue::Arr(a)) => forall|i: int| 0 <= i < a@.len() ==> spec_option_contract_ok(#[trigger] a@[i]), _ => false })
    &&& spec_opt_str_field(v, "next_page_token"@) is Some
}

/// Whether `m` is exactly what the body `v` denotes, field by field.
pub open spec fn spec_options_response_matches(v: JsonValue, m: OptionsResponse) -> bool {
    &&& (match json_get(v, "option_contracts"@) { Some(JsonValue::Arr(a)) => m.option_contracts@.len() == a@.len() && (forall|i: int| 0 <= i < a@.len() ==> spec_option_contract_matches(#[trigger] a@[i], m.option_contracts@[i])), _ => false })
    &&& view_opt_str(m.next_page_token) == spec_opt_str_field(v, "next_page_token"@)->0
}

/// Reads a [`OptionsResponse`] from a parsed response body.
#[verifier::loop_isolation(false)]
pub fn options_response_from_json(v: &JsonValue) -> (r: Result<OptionsResponse, DecodeError>)
    ensures
        r is Ok <==> spec_options_response_ok(*v),
        match r {
            Ok(m) => spec_options_response_matches(*v, m),
            Err(_) => true,
        },
{
    let option_contracts = match v.get("option_contracts") {
        None => {
            return Err(DecodeError::Missing { field: String::from_str("option_contracts") });
        },
        Some(x) => match x {
            JsonValue::Arr(arr) => {
                let n = arr.len();
                let mut out: Vec<OptionContract> = Vec::new();
                let mut i: usize = 0;
                while i < n
                    invariant
                        i <= n,
                        n == arr@.len(),
                        out@.len() == i,
                        forall|j: int|
                            0 <= j < i ==> spec_option_contract_ok(#[trigger] arr@[j]) && spec_option_contract_matches(
                                arr@[j],
                                out@[j],
                            ),
                    decreases n - i,
                {
                    let item = option_contract_from_json(&arr[i])?;
                    out.push(item);
                    i = i + 1;
                }
                out
            },
            _ => {
                return Err(DecodeError::WrongType { field: String::from_str("option_contracts") });
            },
        },
    };
    let next_page_token = get_opt_str(v, "next_page_token")?;
    Ok(OptionsResponse {
        option_contracts,
        next_page_token,
    })
}

} // verus!
