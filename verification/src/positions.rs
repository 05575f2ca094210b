//! Open positions, and what closing one reports back.

use vstd::prelude::*;

use crate::decode::{
    DecodeError, get_bool, get_money, get_opt_money, get_opt_str, get_opt_timestamp,
    get_opt_uuid, get_str, get_uuid, spec_bool_field, spec_money_field, spec_opt_money_field,
    spec_opt_str_field, spec_opt_timestamp_field, spec_opt_uuid_field, spec_str_field,
    spec_uuid_field, view_opt_money, view_opt_str
};
use crate::dates::{Timestamp};
use crate::decimal::{Money};
use crate::enums::{
    AssetClass, Exchange, OrderClass, OrderStatus, OrderType, PositionSide, Side, TimeInForce,
    spec_asset_class_from_wire, spec_exchange_from_wire, spec_order_class_from_wire,
    spec_order_status_from_wire, spec_order_type_from_wire, spec_position_side_from_wire,
    spec_side_from_wire, spec_time_in_force_from_wire
};
use crate::json::{json_get, JsonValue};
use crate::orders::{order_from_json, spec_order_matches, spec_order_ok, Order};

verus! {

/// One open position.
#[derive(Debug, Clone, PartialEq)]
pub struct Position {
    pub asset_id: String,
    pub symbol: String,
    pub exchange: Exchange,
    pub asset_class: AssetClass,
    pub avg_entry_price: Money,
    pub qty: Money,
    pub qty_available: Option<Money>,
    pub side: PositionSide,
    pub market_value: Money,
    pub cost_basis: Money,
    pub unrealized_pl: Money,
    pub unrealized_plpc: Money,
    pub unrealized_intraday_pl: Money,
    pub unrealized_intraday_plpc: Money,
    pub current_price: Money,
    pub lastday_price: Money,
    pub change_today: Money,
    pub asset_marginable: bool,
}

/// Whether a parsed body has the shape of a [`Position`].
pub open spec fn spec_position_ok(v: JsonValue) -> bool {
    &&& spec_uuid_field(v, "asset_id"@) is Some
    &&& spec_str_field(v, "symbol"@) is Some
    &&& spec_str_field(v, "exchange"@) is Some && spec_exchange_from_wire(spec_str_field(v, "exchange"@)->0) is Some
    &&& spec_str_field(v, "asset_class"@) is Some && spec_asset_class_from_wire(spec_str_field(v, "asset_class"@)->0) is Some
    &&& spec_money_field(v, "avg_entry_price"@) is Some
    &&& spec_money_field(v, "qty"@) is Some
    &&& spec_opt_money_field(v, "qty_available"@) is Some
    &&& spec_str_field(v, "side"@) is Some && spec_position_side_from_wire(spec_str_field(v, "side"@)->0) is Some
    &&& spec_money_field(v, "market_value"@) is Some
    &&& spec_money_field(v, "cost_basis"@) is Some
    &&& spec_money_field(v, "unrealized_pl"@) is Some
    &&& spec_money_field(v, "unrealized_plpc"@) is Some
    &&& spec_money_field(v, "unrealized_intraday_pl"@) is Some
    &&& spec_money_field(v, "unrealized_intraday_plpc"@) is Some
    &&& spec_money_field(v, "current_price"@) is Some
    &&& spec_money_field(v, "lastday_price"@) is Some
    &&& spec_money_field(v, "change_today"@) is Some
    &&& spec_bool_field(v, "asset_marginable"@) is Some
}

/// Whether `m` is exactly what the body `v` denotes, field by field.
pub open spec fn spec_position_matches(v: JsonValue, m: Position) -> bool {
    &&& m.asset_id@ == spec_uuid_field(v, "asset_id"@)->0
    &&& m.symbol@ == spec_str_field(v, "symbol"@)->0
    &&& Some(m.exchange) == spec_exchange_from_wire(spec_str_field(v, "exchange"@)->0)
    &&& Some(m.asset_class) == spec_asset_class_from_wire(spec_str_field(v, "asset_class"@)->0)
    &&& m.avg_entry_price@ == spec_money_field(v, "avg_entry_price"@)->0
    &&& m.qty@ == spec_money_field(v, "qty"@)->0
    &&& view_opt_money(m.qty_available) == spec_opt_money_field(v, "qty_available"@)->0
    &&& Some(m.side) == spec_position_side_from_wire(spec_str_field(v, "side"@)->0)
    &&& m.market_value@ == spec_money_field(v, "market_value"@)->0
    &&& m.cost_basis@ == spec_money_field(v, "cost_basis"@)->0
    &&& m.unrealized_pl@ == spec_money_field(v, "unrealized_pl"@)->0
    &&& m.unrealized_plpc@ == spec_money_field(v, "unrealized_plpc"@)->0
    &&& m.unrealized_intraday_pl@ == spec_money_field(v, "unrealized_intraday_pl"@)->0
    &&& m.unrealized_intraday_plpc@ == spec_money_field(v, "unrealized_intraday_plpc"@)->0
    &&& m.current_price@ == spec_money_field(v, "current_price"@)->0
    &&& m.lastday_price@ == spec_money_field(v, "lastday_price"@)->0
    &&& m.change_today@ == spec_money_field(v, "change_today"@)->0
    &&& m.asset_marginable == spec_bool_field(v, "asset_marginable"@)->0
}

/// Reads a [`Position`] from a parsed response body.
#[verifier::loop_isolation(false)]
#[verifier::rlimit(50)]
pub fn position_from_json(v: &JsonValue) -> (r: Result<Position, DecodeError>)
    ensures
        r is Ok <==> spec_position_ok(*v),
        match r {
            Ok(m) => spec_position_matches(*v, m),
            Err(_) => true,
        },
{
    let asset_id = get_uuid(v, "asset_id")?;
    let symbol = get_str(v, "symbol")?;
    let exchange_s = get_str(v, "exchange")?;
    let exchange = match Exchange::from_wire(exchange_s.as_str()) {
        Some(x) => x,
        None => {
            return Err(DecodeError::UnknownVariant { field: String::from_str("exchange"), raw: exchange_s });
        },
    };
    let asset_class_s = get_str(v, "asset_class")?;
    let asset_class = match AssetClass::from_wire(asset_class_s.as_str()) {
        Some(x) => x,
        None => {
            return Err(DecodeError::UnknownVariant { field: String::from_str("asset_class"), raw: asset_class_s });
        },
    };
    let avg_entry_price = get_money(v, "avg_entry_price")?;
    let qty = get_money(v, "qty")?;
    let qty_available = get_opt_money(v, "qty_available")?;
    let side_s = get_str(v, "side")?;
    let side = match PositionSide::from_wire(side_s.as_str()) {
        Some(x) => x,
        None => {
            return Err(DecodeError::UnknownVariant { field: String::from_str("side"), raw: side_s });
        },
    };
    let market_value = get_money(v, "market_value")?;
    let cost_basis = get_money(v, "cost_basis")?;
    let unrealized_pl = get_money(v, "unrealized_pl")?;
    let unrealized_plpc = get_money(v, "unrealized_plpc")?;
    let unrealized_intraday_pl = get_money(v, "unrealized_intraday_pl")?;
    let unrealized_intraday_plpc = get_money(v, "unrealized_intraday_plpc")?;
    let current_price = get_money(v, "current_price")?;
    let lastday_price = get_money(v, "lastday_price")?;
    let change_today = get_money(v, "change_today")?;
    let asset_marginable = get_bool(v, "asset_marginable")?;
    Ok(Position {
        asset_id,
        symbol,
        exchange,
        asset_class,
        avg_entry_price,
        qty,
        qty_available,
        side,
        market_value,
        cost_basis,
        unrealized_pl,
        unrealized_plpc,
        unrealized_intraday_pl,
        unrealized_intraday_plpc,
        current_price,
        lastday_price,
        change_today,
        asset_marginable,
    })
}

/// The order that closing a position produced.
#[derive(Debug)]
pub struct ClosedPosition {
    pub id: String,
    pub client_order_id: String,
    pub created_at: Option<Timestamp>,
    pub updated_at: Option<Timestamp>,
    pub submitted_at: Option<Timestamp>,
    pub filled_at: Option<Timestamp>,
    pub expired_at: Option<Timestamp>,
    pub canceled_at: Option<Timestamp>,
    pub failed_at: Option<Timestamp>,
    pub replaced_at: Option<Timestamp>,
    pub replaced_by: Option<String>,
    pub replaces: Option<String>,
    pub asset_id: Option<String>,
    pub symbol: Option<String>,
    pub asset_class: Option<AssetClass>,
    pub notional: String,
    pub qty: Option<Money>,
    pub filled_qty: Option<Money>,
    pub filled_avg_price: Option<Money>,
    pub order_class: Option<OrderClass>,
    pub _type: OrderType,
    pub side: Side,
    pub time_in_force: TimeInForce,
    pub limit_price: Money,
    pub stop_price: Money,
    pub status: OrderStatus,
    pub extended_hours: bool,
    pub trail_percent: Money,
    pub trail_price: Option<Money>,
    pub hwm: Option<Money>,
    pub position_intent: String,
    pub legs: Option<Vec<Order>>,
}

/// Whether a parsed body has the shape of a [`ClosedPosition`].
pub open spec fn spec_closed_position_ok(v: JsonValue) -> bool {
    &&& spec_uuid_field(v, "id"@) is Some
    &&& spec_str_field(v, "client_order_id"@) is Some
    &&& spec_opt_timestamp_field(v, "created_at"@) is Some
    &&& spec_opt_timestamp_field(v, "updated_at"@) is Some
    &&& spec_opt_timestamp_field(v, "submitted_at"@) is Some
    &&& spec_opt_timestamp_field(v, "filled_at"@) is Some
    &&& spec_opt_timestamp_field(v, "expired_at"@) is Some
    &&& spec_opt_timestamp_field(v, "canceled_at"@) is Some
    &&& spec_opt_timestamp_field(v, "failed_at"@) is Some
    &&& spec_opt_timestamp_field(v, "replaced_at"@) is Some
    &&& spec_opt_uuid_field(v, "replaced_by"@) is Some
    &&& spec_opt_uuid_field(v, "replaces"@) is Some
    &&& spec_opt_uuid_field(v, "asset_id"@) is Some
    &&& spec_opt_str_field(v, "symbol"@) is Some
    &&& (match spec_opt_str_field(v, "asset_class"@) { Some(Some(s)) => spec_asset_class_from_wire(s) is Some, Some(None) => true, None => false })
    &&& spec_str_field(v, "notional"@) is Some
    &&& spec_opt_money_field(v, "qty"@) is Some
    &&& spec_opt_money_field(v, "filled_qty"@) is Some
    &&& spec_opt_money_field(v, "filled_avg_price"@) is Some
    &&& (match spec_opt_str_field(v, "order_class"@) { Some(Some(s)) => spec_order_class_from_wire(s) is Some, Some(None) => true, None => false })
    &&& spec_str_field(v, "type"@) is Some && spec_order_type_from_wire(spec_str_field(v, "type"@)->0) is Some
    &&& spec_str_field(v, "side"@) is Some && spec_side_from_wire(spec_str_field(v, "side"@)->0) is Some
    &&& spec_str_field(v, "time_in_force"@) is Some && spec_time_in_force_from_wire(spec_str_field(v, "time_in_force"@)->0) is Some
    &&& spec_money_field(v, "limit_price"@) is Some
    &&& spec_money_field(v, "stop_price"@) is Some
    &&& spec_str_field(v, "status"@) is Some && spec_order_status_from_wire(spec_str_field(v, "status"@)->0) is Some
    &&& spec_bool_field(v, "extended_hours"@) is Some
    &&& spec_money_field(v, "trail_percent"@) is Some
    &&& spec_opt_money_field(v, "trail_price"@) is Some
    &&& spec_opt_money_field(v, "hwm"@) is Some
    &&& spec_str_field(v, "position_intent"@) is Some
    &&& (match json_get(v, "legs"@) { None => true, Some(JsonValue::Null) => true, Some(JsonValue::Arr(a)) => forall|i: int| 0 <= i < a@.len() ==> spec_order_ok(#[trigger] a@[i]), _ => false })
}

/// Whether `m` is exactly what the body `v` denotes, field by field.
pub open spec fn spec_closed_position_matches(v: JsonValue, m: ClosedPosition) -> bool {
    &&& m.id@ == spec_uuid_field(v, "id"@)->0
    &&& m.client_order_id@ == spec_str_field(v, "client_order_id"@)->0
    &&& spec_opt_timestamp_field(v, "created_at"@) == Some(m.created_at)
    &&& spec_opt_timestamp_field(v, "updated_at"@) == Some(m.updated_at)
    &&& spec_opt_timestamp_field(v, "submitted_at"@) == Some(m.submitted_at)
    &&& spec_opt_timestamp_field(v, "filled_at"@) == Some(m.filled_at)
    &&& spec_opt_timestamp_field(v, "expired_at"@) == Some(m.expired_at)
    &&& spec_opt_timestamp_field(v, "canceled_at"@) == Some(m.canceled_at)
    &&& spec_opt_timestamp_field(v, "failed_at"@) == Some(m.failed_at)
    &&& spec_opt_timestamp_field(v, "replaced_at"@) == Some(m.replaced_at)
    &&& view_opt_str(m.replaced_by) == spec_opt_uuid_field(v, "replaced_by"@)->0
    &&& view_opt_str(m.replaces) == spec_opt_uuid_field(v, "replaces"@)->0
    &&& view_opt_str(m.asset_id) == spec_opt_uuid_field(v, "asset_id"@)->0
    &&& view_opt_str(m.symbol) == spec_opt_str_field(v, "symbol"@)->0
    &&& (match m.asset_class { Some(x) => spec_opt_str_field(v, "asset_class"@) matches Some(Some(s)) && spec_asset_class_from_wire(s) == Some(x), None => spec_opt_str_field(v, "asset_class"@) == Some(Option::<Seq<char>>::None) })
    &&& m.notional@ == spec_str_field(v, "notional"@)->0
    &&& view_opt_money(m.qty) == spec_opt_money_field(v, "qty"@)->0
    &&& view_opt_money(m.filled_qty) == spec_opt_money_field(v, "filled_qty"@)->0
    &&& view_opt_money(m.filled_avg_price) == spec_opt_money_field(v, "filled_avg_price"@)->0
    &&& (match m.order_class { Some(x) => spec_opt_str_field(v, "order_class"@) matches Some(Some(s)) && spec_order_class_from_wire(s) == Some(x), None => spec_opt_str_field(v, "order_class"@) == Some(Option::<Seq<char>>::None) })
    &&& Some(m._type) == spec_order_type_from_wire(spec_str_field(v, "type"@)->0)
    &&& Some(m.side) == spec_side_from_wire(spec_str_field(v, "side"@)->0)
    &&& Some(m.time_in_force) == spec_time_in_force_from_wire(spec_str_field(v, "time_in_force"@)->0)
    &&& m.limit_price@ == spec_money_field(v, "limit_price"@)->0
    &&& m.stop_price@ == spec_money_field(v, "stop_price"@)->0
    &&& Some(m.status) == spec_order_status_from_wire(spec_str_field(v, "status"@)->0)
    &&& m.extended_hours == spec_bool_field(v, "extended_hours"@)->0
    &&& m.trail_percent@ == spec_money_field(v, "trail_percent"@)->0
    &&& view_opt_money(m.trail_price) == spec_opt_money_field(v, "trail_price"@)->0
    &&& view_opt_money(m.hwm) == spec_opt_money_field(v, "hwm"@)->0
    &&& m.position_intent@ == spec_str_field(v, "position_intent"@)->0
    &&& (match json_get(v, "legs"@) { None => m.legs is None, Some(JsonValue::Null) => m.legs is None, Some(JsonValue::Arr(a)) => m.legs matches Some(l) && l@.len() == a@.len() && (forall|i: int| 0 <= i < a@.len() ==> spec_order_matches(#[trigger] a@[i], l@[i])), _ => false })
}

/// Reads a [`ClosedPosition`] from a parsed response body.
#[verifier::loop_isolation(false)]
#[verifier::rlimit(100)]
pub fn closed_position_from_json(v: &JsonValue) -> (r: Result<ClosedPosition, DecodeError>)
    ensures
        r is Ok <==> spec_closed_position_ok(*v),
        match r {
            Ok(m) => spec_closed_position_matches(*v, m),
            Err(_) => true,
        },
{
    let id = get_uuid(v, "id")?;
    let client_order_id = get_str(v, "client_order_id")?;
    let created_at = get_opt_timestamp(v, "created_at")?;
    let updated_at = get_opt_timestamp(v, "updated_at")?;
    let submitted_at = get_opt_timestamp(v, "submitted_at")?;
    let filled_at = get_opt_timestamp(v, "filled_at")?;
    let expired_at = get_opt_timestamp(v, "expired_at")?;
    let canceled_at = get_opt_timestamp(v, "canceled_at")?;
    let failed_at = get_opt_timestamp(v, "failed_at")?;
    let replaced_at = get_opt_timestamp(v, "replaced_at")?;
    let replaced_by = get_opt_uuid(v, "replaced_by")?;
    let replaces = get_opt_uuid(v, "replaces")?;
    let asset_id = get_opt_uuid(v, "asset_id")?;
    let symbol = get_opt_str(v, "symbol")?;
    let asset_class = match get_opt_str(v, "asset_class")? {
        Some(asset_class_s) => match AssetClass::from_wire(asset_class_s.as_str()) {
            Some(x) => Some(x),
            None => {
                return Err(DecodeError::UnknownVariant { field: String::from_str("asset_class"), raw: asset_class_s });
            },
        },
        None => None,
    };
    let notional = get_str(v, "notional")?;
    let qty = get_opt_money(v, "qty")?;
    let filled_qty = get_opt_money(v, "filled_qty")?;
    let filled_avg_price = get_opt_money(v, "filled_avg_price")?;
    let order_class = match get_opt_str(v, "order_class")? {
        Some(order_class_s) => match OrderClass::from_wire(order_class_s.as_str()) {
            Some(x) => Some(x),
            None => {
                return Err(DecodeError::UnknownVariant { field: String::from_str("order_class"), raw: order_class_s });
            },
        },
        None => None,
    };
    let _type_s = get_str(v, "type")?;
    let _type = match OrderType::from_wire(_type_s.as_str()) {
        Some(x) => x,
        None => {
            return Err(DecodeError::UnknownVariant { field: String::from_str("type"), raw: _type_s });
        },
    };
    let side_s = get_str(v, "side")?;
    let side = match Side::from_wire(side_s.as_str()) {
        Some(x) => x,
        None => {
            return Err(DecodeError::UnknownVariant { field: String::from_str("side"), raw: side_s });
        },
    };
    let time_in_force_s = get_str(v, "time_in_force")?;
    let time_in_force = match TimeInForce::from_wire(time_in_force_s.as_str()) {
        Some(x) => x,
        None => {
            return Err(DecodeError::UnknownVariant { field: String::from_str("time_in_force"), raw: time_in_force_s });
        },
    };
    let limit_price = get_money(v, "limit_price")?;
    let stop_price = get_money(v, "stop_price")?;
    let status_s = get_str(v, "status")?;
    let status = match OrderStatus::from_wire(status_s.as_str()) {
        Some(x) => x,
        None => {
            return Err(DecodeError::UnknownVariant { field: String::from_str("status"), raw: status_s });
        },
    };
    let extended_hours = get_bool(v, "extended_hours")?;
    let trail_percent = get_money(v, "trail_percent")?;
    let trail_price = get_opt_money(v, "trail_price")?;
    let hwm = get_opt_money(v, "hwm")?;
    let position_intent = get_str(v, "position_intent")?;
    let legs = match v.get("legs") {
        None => None,
        Some(x) => match x {
            JsonValue::Null => None,
            JsonValue::Arr(arr) => {
                let n = arr.len();
                let mut out: Vec<Order> = Vec::new();
                let mut i: usize = 0;
                while i < n
                    invariant
                        i <= n,
                        n == arr@.len(),
                        out@.len() == i,
                        forall|j: int|
                            0 <= j < i ==> spec_order_ok(#[trigger] arr@[j]) && spec_order_matches(
                                arr@[j],
                                out@[j],
                            ),
                    decreases n - i,
                {
                    let item = order_from_json(&arr[i])?;
                    out.push(item);
                    i = i + 1;
                }
                Some(out)
            },
            _ => {
                return Err(DecodeError::WrongType { field: String::from_str("legs") });
            },
        },
    };
    Ok(ClosedPosition {
        id,
        client_order_id,
        created_at,
        updated_at,
        submitted_at,
        filled_at,
        expired_at,
        canceled_at,
        failed_at,
        replaced_at,
        replaced_by,
        replaces,
        asset_id,
        symbol,
        asset_class,
        notional,
        qty,
        filled_qty,
        filled_avg_price,
        order_class,
        _type,
        side,
        time_in_force,
        limit_price,
        stop_price,
        status,
        extended_hours,
        trail_percent,
        trail_price,
        hwm,
        position_intent,
        legs,
    })
}

/// One record of the close-all-positions response.
#[derive(Debug)]
pub struct ClosePositionInfo {
    pub symbol: String,
    pub status: String,
    pub body: Order,
}

/// Whether a parsed body has the shape of a [`ClosePositionInfo`].
pub open spec fn spec_close_position_info_ok(v: JsonValue) -> bool {
    &&& spec_str_field(v, "symbol"@) is Some
    &&& spec_str_field(v, "status"@) is Some
    &&& json_get(v, "body"@) is Some && spec_order_ok(json_get(v, "body"@)->0)
}

/// Whether `m` is exactly what the body `v` denotes, field by field.
pub open spec fn spec_close_position_info_matches(v: JsonValue, m: ClosePositionInfo) -> bool {
    &&& m.symbol@ == spec_str_field(v, "symbol"@)->0
    &&& m.status@ == spec_str_field(v, "status"@)->0
    &&& spec_order_matches(json_get(v, "body"@)->0, m.body)
}

/// Reads a [`ClosePositionInfo`] from a parsed response body.
#[verifier::loop_isolation(false)]
pub fn close_position_info_from_json(v: &JsonValue) -> (r: Result<ClosePositionInfo, DecodeError>)
    ensures
        r is Ok <==> spec_close_position_info_ok(*v),
        match r {
            Ok(m) => spec_close_position_info_matches(*v, m),
            Err(_) => true,
        },
{
    let symbol = get_str(v, "symbol")?;
    let status = get_str(v, "status")?;
    let body = match v.get("body") {
        None => {
            return Err(DecodeError::Missing { field: String::from_str("body") });
        },
        Some(x) => order_from_json(x)?,
    };
    Ok(ClosePositionInfo {
        symbol,
        status,
        body,
    })
}


/// Whether a parsed body is an array of well-formed [`Position`] bodies.
pub open spec fn spec_positions_ok(v: JsonValue) -> bool {
    match v {
        JsonValue::Arr(a) => forall|i: int| 0 <= i < a@.len() ==> spec_position_ok(#[trigger] a@[i]),
        _ => false,
    }
}

/// Reads a whole response array of [`Position`] records.
#[verifier::loop_isolation(false)]
pub fn positions_from_json(v: &JsonValue) -> (r: Result<Vec<Position>, DecodeError>)
    ensures
        r is Ok <==> spec_positions_ok(*v),
        match r {
            Ok(xs) => v matches JsonValue::Arr(a) && xs@.len() == a@.len() && (forall|i: int|
                0 <= i < a@.len() ==> spec_position_matches(#[trigger] a@[i], xs@[i])),
            Err(_) => true,
        },
{
    let arr = match v {
        JsonValue::Arr(a) => a,
        _ => {
            return Err(DecodeError::WrongType { field: String::from_str("body") });
        },
    };
    let n = arr.len();
    let mut out: Vec<Position> = Vec::new();
    let mut i: usize = 0;
    while i < n
        invariant
            i <= n,
            out@.len() == i,
            forall|j: int|
                0 <= j < i ==> spec_position_ok(#[trigger] arr@[j]) && spec_position_matches(
                    arr@[j],
                    out@[j],
                ),
        decreases n - i,
    {
        let item = position_from_json(&arr[i])?;
        out.push(item);
        i = i + 1;
    }
    Ok(out)
}


/// Whether a parsed body is an array of well-formed [`ClosePositionInfo`] bodies.
pub open spec fn spec_close_position_infos_ok(v: JsonValue) -> bool {
    match v {
        JsonValue::Arr(a) => forall|i: int| 0 <= i < a@.len() ==> spec_close_position_info_ok(#[trigger] a@[i]),
        _ => false,
    }
}

/// Reads a whole response array of [`ClosePositionInfo`] records.
#[verifier::loop_isolation(false)]
pub fn close_position_infos_from_json(v: &JsonValue) -> (r: Result<Vec<ClosePositionInfo>, DecodeError>)
    ensures
        r is Ok <==> spec_close_position_infos_ok(*v),
        match r {
            Ok(xs) => v matches JsonValue::Arr(a) && xs@.len() == a@.len() && (forall|i: int|
                0 <= i < a@.len() ==> spec_close_position_info_matches(#[trigger] a@[i], xs@[i])),
            Err(_) => true,
        },
{
    let arr = match v {
        JsonValue::Arr(a) => a,
        _ => {
            return Err(DecodeError::WrongType { field: String::from_str("body") });
        },
    };
    let n = arr.len();
    let mut out: Vec<ClosePositionInfo> = Vec::new();
    let mut i: usize = 0;
    while i < n
        invariant
            i <= n,
            out@.len() == i,
            forall|j: int|
                0 <= j < i ==> spec_close_position_info_ok(#[trigger] arr@[j]) && spec_close_position_info_matches(
                    arr@[j],
                    out@[j],
                ),
        decreases n - i,
    {
        let item = close_position_info_from_json(&arr[i])?;
        out.push(item);
        i = i + 1;
    }
    Ok(out)
}


} // verus!
