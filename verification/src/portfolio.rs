//! Portfolio history.

use vstd::prelude::*;

use crate::decode::{
    DecodeError, get_date, get_money, get_money_arr, get_opt_money_arr, get_str, get_uint_arr,
    spec_date_field, spec_money_arr_field, spec_money_field, spec_opt_money_arr_field,
    spec_str_field, spec_uint_arr_field, view_money_seq, view_u64_seq
};
use crate::dates::{Date};
use crate::decimal::{Money, MoneyV};
use crate::json::{json_get, JsonValue};

verus! {

/// Cash flow amounts alongside the history, when requested.
#[derive(Debug, Clone, PartialEq)]
pub struct CashFlow {
    pub fee: Option<Vec<Money>>,
}

/// Whether a parsed body has the shape of a [`CashFlow`].
pub open spec fn spec_cash_flow_ok(v: JsonValue) -> bool {
    &&& spec_opt_money_arr_field(v, "fee"@) is Some
}

/// Whether `m` is exactly what the body `v` denotes, field by field.
pub open spec fn spec_cash_flow_matches(v: JsonValue, m: CashFlow) -> bool {
    &&& (match m.fee { Some(xs) => spec_opt_money_arr_field(v, "fee"@) == Some(Some(view_money_seq(xs@))), None => spec_opt_money_arr_field(v, "fee"@) == Some(Option::<Seq<MoneyV>>::None) })
}

/// Reads a [`CashFlow`] from a parsed response body.
#[verifier::loop_isolation(false)]
pub fn cash_flow_from_json(v: &JsonValue) -> (r: Result<CashFlow, DecodeError>)
    ensures
        r is Ok <==> spec_cash_flow_ok(*v),
        match r {
            Ok(m) => spec_cash_flow_matches(*v, m),
            Err(_) => true,
        },
{
    let fee = get_opt_money_arr(v, "fee")?;
    Ok(CashFlow {
        fee,
    })
}

/// The account's value over time, as parallel arrays.
#[derive(Debug, Clone, PartialEq)]
pub struct PortfolioHistory {
    pub timestamp: Vec<u64>,
    pub equity: Vec<Money>,
    pub profit_loss: Vec<Money>,
    pub profit_loss_pct: Vec<Money>,
    pub base_value: Money,
    pub base_value_asof: Date,
    pub timeframe: String,
    pub cashflow: Option<CashFlow>,
}

/// Whether a parsed body has the shape of a [`PortfolioHistory`].
pub open spec fn spec_portfolio_history_ok(v: JsonValue) -> bool {
    &&& spec_uint_arr_field(v, "timestamp"@, u64::MAX as nat) is Some
    &&& spec_money_arr_field(v, "equity"@) is Some
    &&& spec_money_arr_field(v, "profit_loss"@) is Some
    &&& spec_money_arr_field(v, "profit_loss_pct"@) is Some
    &&& spec_money_field(v, "base_value"@) is Some
    &&& spec_date_field(v, "base_value_asof"@) is Some
    &&& spec_str_field(v, "timeframe"@) is Some
    &&& (match json_get(v, "cashflow"@) { None => true, Some(JsonValue::Null) => true, Some(x) => spec_cash_flow_ok(x) })
}

/// Whether `m` is exactly what the body `v` denotes, field by field.
pub open spec fn spec_portfolio_history_matches(v: JsonValue, m: PortfolioHistory) -> bool {
    &&& spec_uint_arr_field(v, "timestamp"@, u64::MAX as nat) == Some(view_u64_seq(m.timestamp@))
    &&& spec_money_arr_field(v, "equity"@) == Some(view_money_seq(m.equity@))
    &&& spec_money_arr_field(v, "profit_loss"@) == Some(view_money_seq(m.profit_loss@))
    &&& spec_money_arr_field(v, "profit_loss_pct"@) == Some(view_money_seq(m.profit_loss_pct@))
    &&& m.base_value@ == spec_money_field(v, "base_value"@)->0
    &&& Some(m.base_value_asof) == spec_date_field(v, "base_value_asof"@)
    &&& m.timeframe@ == spec_str_field(v, "timeframe"@)->0
    &&& (match json_get(v, "cashflow"@) { None => m.cashflow is None, Some(JsonValue::Null) => m.cashflow is None, Some(x) => m.cashflow matches Some(inner) && spec_cash_flow_matches(x, inner) })
}

/// Reads a [`PortfolioHistory`] from a parsed response body.
#[verifier::loop_isolation(false)]
pub fn portfolio_history_from_json(v: &JsonValue) -> (r: Result<PortfolioHistory, DecodeError>)
    ensures
        r is Ok <==> spec_portfolio_history_ok(*v),
        match r {
            Ok(m) => spec_portfolio_history_matches(*v, m),
            Err(_) => true,
        },
{
    let timestamp = get_uint_arr(v, "timestamp", u64::MAX)?;
    let equity = get_money_arr(v, "equity")?;
    let profit_loss = get_money_arr(v, "profit_loss")?;
    let profit_loss_pct = get_money_arr(v, "profit_loss_pct")?;
    let base_value = get_money(v, "base_value")?;
    let base_value_asof = get_date(v, "base_value_asof")?;
    let timeframe = get_str(v, "timeframe")?;
    let cashflow = match v.get("cashflow") {
        None => None,
        Some(x) => match x {
            JsonValue::Null => None,
            _ => Some(cash_flow_from_json(x)?),
        },
    };
    Ok(PortfolioHistory {
        timestamp,
        equity,
        profit_loss,
        profit_loss_pct,
        base_value,
        base_value_asof,
        timeframe,
        cashflow,
    })
}

} // verus!
