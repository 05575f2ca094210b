//! The trading account.

use vstd::prelude::*;

use crate::decode::{
    DecodeError, get_bool, get_date, get_money, get_opt_money, get_str, get_str_uint,
    get_timestamp, get_uint, get_uuid, spec_bool_field, spec_date_field, spec_money_field,
    spec_opt_money_field, spec_str_field, spec_str_uint_field, spec_timestamp_field,
    spec_uint_field, spec_uuid_field, view_opt_money
};
use crate::dates::{Date, Timestamp};
use crate::decimal::{Money};
use crate::enums::{
    AccountStatus, Currency, spec_account_status_from_wire, spec_currency_from_wire
};
use crate::json::{JsonValue};

verus! {

/// The trading account: balances, buying power, and standing flags.
#[derive(Debug, Clone, PartialEq)]
pub struct Account {
    pub id: String,
    pub account_number: String,
    pub status: AccountStatus,
    pub crypto_status: AccountStatus,
    pub currency: Currency,
    pub buying_power: Money,
    pub regt_buying_power: Money,
    pub daytrading_buying_power: Money,
    pub effective_buying_power: Money,
    pub options_buying_power: Money,
    pub options_approved_level: u8,
    pub options_trading_level: u8,
    pub non_marginable_buying_power: Money,
    pub bod_dtbp: Money,
    pub cash: Money,
    pub accrued_fees: Money,
    pub portfolio_value: Money,
    pub pattern_day_trader: bool,
    pub trading_blocked: bool,
    pub transfers_blocked: bool,
    pub account_blocked: bool,
    pub trade_suspended_by_user: bool,
    pub shorting_enabled: bool,
    pub multiplier: u8,
    pub equity: Money,
    pub last_equity: Money,
    pub long_market_value: Money,
    pub short_market_value: Money,
    pub position_market_value: Money,
    pub initial_margin: Money,
    pub maintenance_margin: Money,
    pub last_maintenance_margin: Money,
    pub sma: Money,
    pub daytrade_count: u16,
    pub balance_asof: Date,
    pub crypto_tier: u8,
    pub intraday_adjustments: u8,
    pub pending_reg_taf_fees: Option<Money>,
    pub pending_transfer_in: Option<Money>,
    pub pending_transfer_out: Option<Money>,
    pub created_at: Timestamp,
}

/// Whether a parsed body has the shape of a [`Account`].
pub open spec fn spec_account_ok(v: JsonValue) -> bool {
    &&& spec_uuid_field(v, "id"@) is Some
    &&& spec_str_field(v, "account_number"@) is Some
    &&& spec_str_field(v, "status"@) is Some && spec_account_status_from_wire(spec_str_field(v, "status"@)->0) is Some
    &&& spec_str_field(v, "crypto_status"@) is Some && spec_account_status_from_wire(spec_str_field(v, "crypto_status"@)->0) is Some
    &&& spec_str_field(v, "currency"@) is Some && spec_currency_from_wire(spec_str_field(v, "currency"@)->0) is Some
    &&& spec_money_field(v, "buying_power"@) is Some
    &&& spec_money_field(v, "regt_buying_power"@) is Some
    &&& spec_money_field(v, "daytrading_buying_power"@) is Some
    &&& spec_money_field(v, "effective_buying_power"@) is Some
    &&& spec_money_field(v, "options_buying_power"@) is Some
    &&& spec_uint_field(v, "options_approved_level"@, u8::MAX as nat) is Some
    &&& spec_uint_field(v, "options_trading_level"@, u8::MAX as nat) is Some
    &&& spec_money_field(v, "non_marginable_buying_power"@) is Some
    &&& spec_money_field(v, "bod_dtbp"@) is Some
    &&& spec_money_field(v, "cash"@) is Some
    &&& spec_money_field(v, "accrued_fees"@) is Some
    &&& spec_money_field(v, "portfolio_value"@) is Some
    &&& spec_bool_field(v, "pattern_day_trader"@) is Some
    &&& spec_bool_field(v, "trading_blocked"@) is Some
    &&& spec_bool_field(v, "transfers_blocked"@) is Some
    &&& spec_bool_field(v, "account_blocked"@) is Some
    &&& spec_bool_field(v, "trade_suspended_by_user"@) is Some
    &&& spec_bool_field(v, "shorting_enabled"@) is Some
    &&& spec_str_uint_field(v, "multiplier"@, u8::MAX as nat) is Some
    &&& spec_money_field(v, "equity"@) is Some
    &&& spec_money_field(v, "last_equity"@) is Some
    &&& spec_money_field(v, "long_market_value"@) is Some
    &&& spec_money_field(v, "short_market_value"@) is Some
    &&& spec_money_field(v, "position_market_value"@) is Some
    &&& spec_money_field(v, "initial_margin"@) is Some
    &&& spec_money_field(v, "maintenance_margin"@) is Some
    &&& spec_money_field(v, "last_maintenance_margin"@) is Some
    &&& spec_money_field(v, "sma"@) is Some
    &&& spec_uint_field(v, "daytrade_count"@, u16::MAX as nat) is Some
    &&& spec_date_field(v, "balance_asof"@) is Some
    &&& spec_uint_field(v, "crypto_tier"@, u8::MAX as nat) is Some
    &&& spec_str_uint_field(v, "intraday_adjustments"@, u8::MAX as nat) is Some
    &&& spec_opt_money_field(v, "pending_reg_taf_fees"@) is Some
    &&& spec_opt_money_field(v, "pending_transfer_in"@) is Some
    &&& spec_opt_money_field(v, "pending_transfer_out"@) is Some
    &&& spec_timestamp_field(v, "created_at"@) is Some
}

/// Whether `m` is exactly what the body `v` denotes, field by field.
pub open spec fn spec_account_matches(v: JsonValue, m: Account) -> bool {
    &&& m.id@ == spec_uuid_field(v, "id"@)->0
    &&& m.account_number@ == spec_str_field(v, "account_number"@)->0
    &&& Some(m.status) == spec_account_status_from_wire(spec_str_field(v, "status"@)->0)
    &&& Some(m.crypto_status) == spec_account_status_from_wire(spec_str_field(v, "crypto_status"@)->0)
    &&& Some(m.currency) == spec_currency_from_wire(spec_str_field(v, "currency"@)->0)
    &&& m.buying_power@ == spec_money_field(v, "buying_power"@)->0
    &&& m.regt_buying_power@ == spec_money_field(v, "regt_buying_power"@)->0
    &&& m.daytrading_buying_power@ == spec_money_field(v, "daytrading_buying_power"@)->0
    &&& m.effective_buying_power@ == spec_money_field(v, "effective_buying_power"@)->0
    &&& m.options_buying_power@ == spec_money_field(v, "options_buying_power"@)->0
    &&& m.options_approved_level as nat == spec_uint_field(v, "options_approved_level"@, u8::MAX as nat)->0
    &&& m.options_trading_level as nat == spec_uint_field(v, "options_trading_level"@, u8::MAX as nat)->0
    &&& m.non_marginable_buying_power@ == spec_money_field(v, "non_marginable_buying_power"@)->0
    &&& m.bod_dtbp@ == spec_money_field(v, "bod_dtbp"@)->0
    &&& m.cash@ == spec_money_field(v, "cash"@)->0
    &&& m.accrued_fees@ == spec_money_field(v, "accrued_fees"@)->0
    &&& m.portfolio_value@ == spec_money_field(v, "portfolio_value"@)->0
    &&& m.pattern_day_trader == spec_bool_field(v, "pattern_day_trader"@)->0
    &&& m.trading_blocked == spec_bool_field(v, "trading_blocked"@)->0
    &&& m.transfers_blocked == spec_bool_field(v, "transfers_blocked"@)->0
    &&& m.account_blocked == spec_bool_field(v, "account_blocked"@)->0
    &&& m.trade_suspended_by_user == spec_bool_field(v, "trade_suspended_by_user"@)->0
    &&& m.shorting_enabled == spec_bool_field(v, "shorting_enabled"@)->0
    &&& m.multiplier as nat == spec_str_uint_field(v, "multiplier"@, u8::MAX as nat)->0
    &&& m.equity@ == spec_money_field(v, "equity"@)->0
    &&& m.last_equity@ == spec_money_field(v, "last_equity"@)->0
    &&& m.long_market_value@ == spec_money_field(v, "long_market_value"@)->0
    &&& m.short_market_value@ == spec_money_field(v, "short_market_value"@)->0
    &&& m.position_market_value@ == spec_money_field(v, "position_market_value"@)->0
    &&& m.initial_margin@ == spec_money_field(v, "initial_margin"@)->0
    &&& m.maintenance_margin@ == spec_money_field(v, "maintenance_margin"@)->0
    &&& m.last_maintenance_margin@ == spec_money_field(v, "last_maintenance_margin"@)->0
    &&& m.sma@ == spec_money_field(v, "sma"@)->0
    &&& m.daytrade_count as nat == spec_uint_field(v, "daytrade_count"@, u16::MAX as nat)->0
    &&& Some(m.balance_asof) == spec_date_field(v, "balance_asof"@)
    &&& m.crypto_tier as nat == spec_uint_field(v, "crypto_tier"@, u8::MAX as nat)->0
    &&& m.intraday_adjustments as nat == spec_str_uint_field(v, "intraday_adjustments"@, u8::MAX as nat)->0
    &&& view_opt_money(m.pending_reg_taf_fees) == spec_opt_money_field(v, "pending_reg_taf_fees"@)->0
    &&& view_opt_money(m.pending_transfer_in) == spec_opt_money_field(v, "pending_transfer_in"@)->0
    &&& view_opt_money(m.pending_transfer_out) == spec_opt_money_field(v, "pending_transfer_out"@)->0
    &&& Some(m.created_at) == spec_timestamp_field(v, "created_at"@)
}

/// Reads a [`Account`] from a parsed response body.
#[verifier::loop_isolation(false)]
#[verifier::rlimit(100)]
pub fn account_from_json(v: &JsonValue) -> (r: Result<Account, DecodeError>)
    ensures
        r is Ok <==> spec_account_ok(*v),
        match r {
            Ok(m) => spec_account_matches(*v, m),
            Err(_) => true,
        },
{
    let id = get_uuid(v, "id")?;
    let account_number = get_str(v, "account_number")?;
    let status_s = get_str(v, "status")?;
    let status = match AccountStatus::from_wire(status_s.as_str()) {
        Some(x) => x,
        None => {
            return Err(DecodeError::UnknownVariant { field: String::from_str("status"), raw: status_s });
        },
    };
    let crypto_status_s = get_str(v, "crypto_status")?;
    let crypto_status = match AccountStatus::from_wire(crypto_status_s.as_str()) {
        Some(x) => x,
        None => {
            return Err(DecodeError::UnknownVariant { field: String::from_str("crypto_status"), raw: crypto_status_s });
        },
    };
    let currency_s = get_str(v, "currency")?;
    let currency = match Currency::from_wire(currency_s.as_str()) {
        Some(x) => x,
        None => {
            return Err(DecodeError::UnknownVariant { field: String::from_str("currency"), raw: currency_s });
        },
    };
    let buying_power = get_money(v, "buying_power")?;
    let regt_buying_power = get_money(v, "regt_buying_power")?;
    let daytrading_buying_power = get_money(v, "daytrading_buying_power")?;
    let effective_buying_power = get_money(v, "effective_buying_power")?;
    let options_buying_power = get_money(v, "options_buying_power")?;
    let options_approved_level = get_uint(v, "options_approved_level", u8::MAX as u64)? as u8;
    let options_trading_level = get_uint(v, "options_trading_level", u8::MAX as u64)? as u8;
    let non_marginable_buying_power = get_money(v, "non_marginable_buying_power")?;
    let bod_dtbp = get_money(v, "bod_dtbp")?;
    let cash = get_money(v, "cash")?;
    let accrued_fees = get_money(v, "accrued_fees")?;
    let portfolio_value = get_money(v, "portfolio_value")?;
    let pattern_day_trader = get_bool(v, "pattern_day_trader")?;
    let trading_blocked = get_bool(v, "trading_blocked")?;
    let transfers_blocked = get_bool(v, "transfers_blocked")?;
    let account_blocked = get_bool(v, "account_blocked")?;
    let trade_suspended_by_user = get_bool(v, "trade_suspended_by_user")?;
    let shorting_enabled = get_bool(v, "shorting_enabled")?;
    let multiplier = get_str_uint(v, "multiplier", u8::MAX as u64)? as u8;
    let equity = get_money(v, "equity")?;
    let last_equity = get_money(v, "last_equity")?;
    let long_market_value = get_money(v, "long_market_value")?;
    let short_market_value = get_money(v, "short_market_value")?;
    let position_market_value = get_money(v, "position_market_value")?;
    let initial_margin = get_money(v, "initial_margin")?;
    let maintenance_margin = get_money(v, "maintenance_margin")?;
    let last_maintenance_margin = get_money(v, "last_maintenance_margin")?;
    let sma = get_money(v, "sma")?;
    let daytrade_count = get_uint(v, "daytrade_count", u16::MAX as u64)? as u16;
    let balance_asof = get_date(v, "balance_asof")?;
    let crypto_tier = get_uint(v, "crypto_tier", u8::MAX as u64)? as u8;
    let intraday_adjustments = get_str_uint(v, "intraday_adjustments", u8::MAX as u64)? as u8;
    let pending_reg_taf_fees = get_opt_money(v, "pending_reg_taf_fees")?;
    let pending_transfer_in = get_opt_money(v, "pending_transfer_in")?;
    let pending_transfer_out = get_opt_money(v, "pending_transfer_out")?;
    let created_at = get_timestamp(v, "created_at")?;
    Ok(Account {
        id,
        account_number,
        status,
        crypto_status,
        currency,
        buying_power,
        regt_buying_power,
        daytrading_buying_power,
        effective_buying_power,
        options_buying_power,
        options_approved_level,
        options_trading_level,
        non_marginable_buying_power,
        bod_dtbp,
        cash,
        accrued_fees,
        portfolio_value,
        pattern_day_trader,
        trading_blocked,
        transfers_blocked,
        account_blocked,
        trade_suspended_by_user,
        shorting_enabled,
        multiplier,
        equity,
        last_equity,
        long_market_value,
        short_market_value,
        position_market_value,
        initial_margin,
        maintenance_margin,
        last_maintenance_margin,
        sma,
        daytrade_count,
        balance_asof,
        crypto_tier,
        intraday_adjustments,
        pending_reg_taf_fees,
        pending_transfer_in,
        pending_transfer_out,
        created_at,
    })
}

} // verus!
