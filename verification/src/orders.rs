//! Orders.
//!
//! An order may carry child orders for multi-leg strategies in its `legs`
//! member, so the order decoder is the one recursive decoder in the
//! library.

use vstd::prelude::*;

use crate::decode::{
    get_bool, get_opt_money, get_opt_str, get_opt_timestamp, get_opt_uuid, get_str, get_uint,
    get_uuid, spec_bool_field, spec_opt_money_field, spec_opt_str_field,
    spec_opt_timestamp_field, spec_opt_uuid_field, spec_str_field, spec_uint_field,
    spec_uuid_field, view_opt_money, view_opt_str, DecodeError,
};
use crate::dates::Timestamp;
use crate::decimal::Money;
use crate::enums::{
    spec_asset_class_from_wire, spec_order_class_from_wire, spec_order_status_from_wire,
    spec_order_type_from_wire, spec_position_intent_from_wire, spec_side_from_wire,
    spec_time_in_force_from_wire, AssetClass, OrderClass, OrderStatus, OrderType, PositionIntent,
    Side, TimeInForce,
};
use crate::json::{json_get, obj_lookup, JsonValue};

verus! {

/// One order, as the broker reports it; `legs` holds the child orders of
/// a multi-leg strategy.
#[derive(Debug)]
pub struct Order {
    pub id: String,
    pub client_order_id: String,
    pub created_at: Option<Timestamp>,
    pub updated_at: Option<Timestamp>,
    pub submitted_at: Option<Timestamp>,
    pub filled_at: Option<Timestamp>,
    pub expired_at: Option<Timestamp>,
    pub canceled_at: Option<Timestamp>,
    pub failed_at: Option<Timestamp>,
    pub replaced_at: Option<Timestamp>,
    pub replaced_by: Option<String>,
    pub replaces: Option<String>,
    pub asset_id: String,
    pub symbol: String,
    pub asset_class: AssetClass,
    pub national: Option<String>,
    pub qty: Option<Money>,
    pub filled_qty: Option<Money>,
    pub filled_avg_price: Option<Money>,
    pub order_class: OrderClass,
    pub _type: OrderType,
    pub side: Side,
    pub time_in_force: TimeInForce,
    pub limit_price: Option<String>,
    pub stop_price: Option<String>,
    pub status: OrderStatus,
    pub extended_hours: bool,
    pub legs: Option<Vec<Order>>,
    pub trail_price: Option<Money>,
    pub trail_percent: Option<Money>,
    pub hwm: Option<Money>,
    pub position_intent: PositionIntent,
}

/// Whether a parsed body has the shape of an [`Order`], child orders
/// included.
pub open spec fn spec_order_ok(v: JsonValue) -> bool
    decreases v,
{
    &&& v is Obj
    &&& spec_order_scalars_ok(v)
    &&& spec_legs_entry_ok(v->Obj_0@)
}

/// Whether every member of an order body other than `legs` is
/// well-formed.
pub open spec fn spec_order_scalars_ok(v: JsonValue) -> bool {
    &&& spec_uuid_field(v, "id"@) is Some
    &&& spec_str_field(v, "client_order_id"@) is Some
    &&& spec_opt_timestamp_field(v, "created_at"@) is Some
    &&& spec_opt_timestamp_field(v, "updated_at"@) is Some
    &&& spec_opt_timestamp_field(v, "submitted_at"@) is Some
    &&& spec_opt_timestamp_field(v, "filled_at"@) is Some
    &&& spec_opt_timestamp_field(v, "expired_at"@) is Some
    &&& spec_opt_timestamp_field(v, "canceled_at"@) is Some
    &&& spec_opt_timestamp_field(v, "failed_at"@) is Some
    &&& spec_opt_timestamp_field(v, "replaced_at"@) is Some
    &&& spec_opt_uuid_field(v, "replaced_by"@) is Some
    &&& spec_opt_uuid_field(v, "replaces"@) is Some
    &&& spec_uuid_field(v, "asset_id"@) is Some
    &&& spec_str_field(v, "symbol"@) is Some
    &&& spec_str_field(v, "asset_class"@) is Some && spec_asset_class_from_wire(
        spec_str_field(v, "asset_class"@)->0,
    ) is Some
    &&& spec_opt_str_field(v, "national"@) is Some
    &&& spec_opt_money_field(v, "qty"@) is Some
    &&& spec_opt_money_field(v, "filled_qty"@) is Some
    &&& spec_opt_money_field(v, "filled_avg_price"@) is Some
    &&& spec_str_field(v, "order_class"@) is Some && spec_order_class_from_wire(
        spec_str_field(v, "order_class"@)->0,
    ) is Some
    &&& spec_str_field(v, "type"@) is Some && spec_order_type_from_wire(
        spec_str_field(v, "type"@)->0,
    ) is Some
    &&& spec_str_field(v, "side"@) is Some && spec_side_from_wire(
        spec_str_field(v, "side"@)->0,
    ) is Some
    &&& spec_str_field(v, "time_in_force"@) is Some && spec_time_in_force_from_wire(
        spec_str_field(v, "time_in_force"@)->0,
    ) is Some
    &&& spec_opt_str_field(v, "limit_price"@) is Some
    &&& spec_opt_str_field(v, "stop_price"@) is Some
    &&& spec_str_field(v, "status"@) is Some && spec_order_status_from_wire(
        spec_str_field(v, "status"@)->0,
    ) is Some
    &&& spec_bool_field(v, "extended_hours"@) is Some
    &&& spec_opt_money_field(v, "trail_price"@) is Some
    &&& spec_opt_money_field(v, "trail_percent"@) is Some
    &&& spec_opt_money_field(v, "hwm"@) is Some
    &&& spec_str_field(v, "position_intent"@) is Some && spec_position_intent_from_wire(
        spec_str_field(v, "position_intent"@)->0,
    ) is Some
}

/// Whether the `legs` member, if the object has one, is null or an array
/// of well-formed child orders. Scans the members in order, as lookup
/// does.
pub open spec fn spec_legs_entry_ok(m: Seq<(String, JsonValue)>) -> bool
    decreases m,
{
    if m.len() == 0 {
        true
    } else if m[0].0@ == "legs"@ {
        spec_legs_value_ok(m[0].1)
    } else {
        spec_legs_entry_ok(m.skip(1))
    }
}

/// Whether a `legs` value is null or an array of well-formed orders.
pub open spec fn spec_legs_value_ok(x: JsonValue) -> bool
    decreases x,
{
    match x {
        JsonValue::Null => true,
        JsonValue::Arr(a) => spec_orders_ok(a@),
        _ => false,
    }
}

/// Whether every element is a well-formed order body.
pub open spec fn spec_orders_ok(elems: Seq<JsonValue>) -> bool
    decreases elems,
{
    if elems.len() == 0 {
        true
    } else {
        spec_order_ok(elems[0]) && spec_orders_ok(elems.skip(1))
    }
}

/// `spec_orders_ok` says exactly that every element is well-formed.
#[verifier::rlimit(100)]
pub proof fn lemma_orders_ok_iff_forall(elems: Seq<JsonValue>)
    ensures
        spec_orders_ok(elems) <==> (forall|i: int|
            0 <= i < elems.len() ==> spec_order_ok(#[trigger] elems[i])),
    decreases elems.len(),
{
    if elems.len() > 0 {
        lemma_orders_ok_iff_forall(elems.skip(1));
        assert(forall|i: int|
            0 <= i < elems.skip(1).len() ==> elems.skip(1)[i] == #[trigger] elems[i + 1]);
        if spec_orders_ok(elems) {
            assert(forall|i: int|
                0 < i < elems.len() ==> spec_order_ok(#[trigger] elems[i]) == spec_order_ok(
                    elems.skip(1)[i - 1],
                ));
        }
    }
}

/// The legs scan agrees with object lookup.
pub proof fn lemma_legs_entry_ok_is_lookup(m: Seq<(String, JsonValue)>)
    ensures
        spec_legs_entry_ok(m) <==> (match obj_lookup(m, "legs"@) {
            Some(x) => spec_legs_value_ok(x),
            None => true,
        }),
    decreases m.len(),
{
    if m.len() > 0 && m[0].0@ != "legs"@ {
        lemma_legs_entry_ok_is_lookup(m.skip(1));
    }
}

/// Whether `o` is exactly what the body `v` denotes, field by field and
/// recursively through `legs`.
pub open spec fn spec_order_matches(v: JsonValue, o: Order) -> bool
    decreases o,
{
    &&& spec_order_scalars_match(v, o)
    &&& (match json_get(v, "legs"@) {
        None => o.legs is None,
        Some(JsonValue::Null) => o.legs is None,
        Some(JsonValue::Arr(a)) => {
            &&& o.legs matches Some(l)
            &&& l@.len() == a@.len()
            &&& (forall|i: int|
                0 <= i < a@.len() ==> spec_order_matches(#[trigger] a@[i], l@[i]))
        },
        _ => false,
    })
}

/// Whether every member of `o` other than `legs` is exactly what the
/// body `v` denotes.
pub open spec fn spec_order_scalars_match(v: JsonValue, o: Order) -> bool {
    &&& o.id@ == spec_uuid_field(v, "id"@)->0
    &&& o.client_order_id@ == spec_str_field(v, "client_order_id"@)->0
    &&& spec_opt_timestamp_field(v, "created_at"@) == Some(o.created_at)
    &&& spec_opt_timestamp_field(v, "updated_at"@) == Some(o.updated_at)
    &&& spec_opt_timestamp_field(v, "submitted_at"@) == Some(o.submitted_at)
    &&& spec_opt_timestamp_field(v, "filled_at"@) == Some(o.filled_at)
    &&& spec_opt_timestamp_field(v, "expired_at"@) == Some(o.expired_at)
    &&& spec_opt_timestamp_field(v, "canceled_at"@) == Some(o.canceled_at)
    &&& spec_opt_timestamp_field(v, "failed_at"@) == Some(o.failed_at)
    &&& spec_opt_timestamp_field(v, "replaced_at"@) == Some(o.replaced_at)
    &&& view_opt_str(o.replaced_by) == spec_opt_uuid_field(v, "replaced_by"@)->0
    &&& view_opt_str(o.replaces) == spec_opt_uuid_field(v, "replaces"@)->0
    &&& o.asset_id@ == spec_uuid_field(v, "asset_id"@)->0
    &&& o.symbol@ == spec_str_field(v, "symbol"@)->0
    &&& Some(o.asset_class) == spec_asset_class_from_wire(spec_str_field(v, "asset_class"@)->0)
    &&& view_opt_str(o.national) == spec_opt_str_field(v, "national"@)->0
    &&& view_opt_money(o.qty) == spec_opt_money_field(v, "qty"@)->0
    &&& view_opt_money(o.filled_qty) == spec_opt_money_field(v, "filled_qty"@)->0
    &&& view_opt_money(o.filled_avg_price) == spec_opt_money_field(v, "filled_avg_price"@)->0
    &&& Some(o.order_class) == spec_order_class_from_wire(spec_str_field(v, "order_class"@)->0)
    &&& Some(o._type) == spec_order_type_from_wire(spec_str_field(v, "type"@)->0)
    &&& Some(o.side) == spec_side_from_wire(spec_str_field(v, "side"@)->0)
    &&& Some(o.time_in_force) == spec_time_in_force_from_wire(
        spec_str_field(v, "time_in_force"@)->0,
    )
    &&& view_opt_str(o.limit_price) == spec_opt_str_field(v, "limit_price"@)->0
    &&& view_opt_str(o.stop_price) == spec_opt_str_field(v, "stop_price"@)->0
    &&& Some(o.status) == spec_order_status_from_wire(spec_str_field(v, "status"@)->0)
    &&& o.extended_hours == spec_bool_field(v, "extended_hours"@)->0
    &&& view_opt_money(o.trail_price) == spec_opt_money_field(v, "trail_price"@)->0
    &&& view_opt_money(o.trail_percent) == spec_opt_money_field(v, "trail_percent"@)->0
    &&& view_opt_money(o.hwm) == spec_opt_money_field(v, "hwm"@)->0
    &&& Some(o.position_intent) == spec_position_intent_from_wire(
        spec_str_field(v, "position_intent"@)->0,
    )
}

/// Reads every member of an order body other than `legs`.
#[verifier::rlimit(100)]
fn order_scalars_from_json(v: &JsonValue) -> (r: Result<Order, DecodeError>)
    ensures
        r is Ok <==> spec_order_scalars_ok(*v),
        match r {
            Ok(o) => spec_order_scalars_match(*v, o) && o.legs is None,
            Err(_) => true,
        },
{
    let id = get_uuid(v, "id")?;
    let client_order_id = get_str(v, "client_order_id")?;
    let created_at = get_opt_timestamp(v, "created_at")?;
    let updated_at = get_opt_timestamp(v, "updated_at")?;
    let submitted_at = get_opt_timestamp(v, "submitted_at")?;
    let filled_at = get_opt_timestamp(v, "filled_at")?;
    let expired_at = get_opt_timestamp(v, "expired_at")?;
    let canceled_at = get_opt_timestamp(v, "canceled_at")?;
    let failed_at = get_opt_timestamp(v, "failed_at")?;
    let replaced_at = get_opt_timestamp(v, "replaced_at")?;
    let replaced_by = get_opt_uuid(v, "replaced_by")?;
    let replaces = get_opt_uuid(v, "replaces")?;
    let asset_id = get_uuid(v, "asset_id")?;
    let symbol = get_str(v, "symbol")?;
    let asset_class_s = get_str(v, "asset_class")?;
    let asset_class = match AssetClass::from_wire(asset_class_s.as_str()) {
        Some(x) => x,
        None => {
            return Err(
                DecodeError::UnknownVariant {
                    field: String::from_str("asset_class"),
                    raw: asset_class_s,
                },
            );
        },
    };
    let national = get_opt_str(v, "national")?;
    let qty = get_opt_money(v, "qty")?;
    let filled_qty = get_opt_money(v, "filled_qty")?;
    let filled_avg_price = get_opt_money(v, "filled_avg_price")?;
    let order_class_s = get_str(v, "order_class")?;
    let order_class = match OrderClass::from_wire(order_class_s.as_str()) {
        Some(x) => x,
        None => {
            return Err(
                DecodeError::UnknownVariant {
                    field: String::from_str("order_class"),
                    raw: order_class_s,
                },
            );
        },
    };
    let type_s = get_str(v, "type")?;
    let _type = match OrderType::from_wire(type_s.as_str()) {
        Some(x) => x,
        None => {
            return Err(
                DecodeError::UnknownVariant { field: String::from_str("type"), raw: type_s },
            );
        },
    };
    let side_s = get_str(v, "side")?;
    let side = match Side::from_wire(side_s.as_str()) {
        Some(x) => x,
        None => {
            return Err(
                DecodeError::UnknownVariant { field: String::from_str("side"), raw: side_s },
            );
        },
    };
    let tif_s = get_str(v, "time_in_force")?;
    let time_in_force = match TimeInForce::from_wire(tif_s.as_str()) {
        Some(x) => x,
        None => {
            return Err(
                DecodeError::UnknownVariant {
                    field: String::from_str("time_in_force"),
                    raw: tif_s,
                },
            );
        },
    };
    let limit_price = get_opt_str(v, "limit_price")?;
    let stop_price = get_opt_str(v, "stop_price")?;
    let status_s = get_str(v, "status")?;
    let status = match OrderStatus::from_wire(status_s.as_str()) {
        Some(x) => x,
        None => {
            return Err(
                DecodeError::UnknownVariant {
                    field: String::from_str("status"),
                    raw: status_s,
                },
            );
        },
    };
    let extended_hours = get_bool(v, "extended_hours")?;
    let trail_price = get_opt_money(v, "trail_price")?;
    let trail_percent = get_opt_money(v, "trail_percent")?;
    let hwm = get_opt_money(v, "hwm")?;
    let pi_s = get_str(v, "position_intent")?;
    let position_intent = match PositionIntent::from_wire(pi_s.as_str()) {
        Some(x) => x,
        None => {
            return Err(
                DecodeError::UnknownVariant {
                    field: String::from_str("position_intent"),
                    raw: pi_s,
                },
            );
        },
    };
    Ok(
        Order {
            id,
            client_order_id,
            created_at,
            updated_at,
            submitted_at,
            filled_at,
            expired_at,
            canceled_at,
            failed_at,
            replaced_at,
            replaced_by,
            replaces,
            asset_id,
            symbol,
            asset_class,
            national,
            qty,
            filled_qty,
            filled_avg_price,
            order_class,
            _type,
            side,
            time_in_force,
            limit_price,
            stop_price,
            status,
            extended_hours,
            legs: None,
            trail_price,
            trail_percent,
            hwm,
            position_intent,
        },
    )
}

/// Reads an [`Order`] from a parsed response body, child orders included.
#[verifier::loop_isolation(false)]
#[verifier::rlimit(100)]
pub fn order_from_json(v: &JsonValue) -> (r: Result<Order, DecodeError>)
    ensures
        r is Ok <==> spec_order_ok(*v),
        match r {
            Ok(o) => spec_order_matches(*v, o),
            Err(_) => true,
        },
    decreases v,
{
    let m = match v {
        JsonValue::Obj(m) => m,
        _ => {
            return Err(DecodeError::WrongType { field: String::from_str("order") });
        },
    };
    let mut o = order_scalars_from_json(v)?;
    proof {
        lemma_legs_entry_ok_is_lookup(m@);
    }
    // the `legs` member, scanned structurally so that the recursion
    // descends into the object itself
    let n = m.len();
    let mut k: usize = 0;
    while k < n
        invariant
            k <= n,
            forall|j: int| 0 <= j < k ==> #[trigger] m@[j].0@ != "legs"@,
            spec_order_scalars_match(*v, o),
            o.legs is None,
        decreases n - k,
    {
        let entry = &m[k];
        if crate::text::str_eq(entry.0.as_str(), "legs") {
            proof {
                lemma_lookup_at(m@, k as int, "legs"@);
                assert(decreases_to!(*v => *m));
                assert(decreases_to!(*m => m@));
                assert(decreases_to!(m@ => m@[k as int]));
                assert(decreases_to!(m@[k as int] => m@[k as int].1));
            }
            match &entry.1 {
                JsonValue::Null => {},
                JsonValue::Arr(a) => {
                    let cnt = a.len();
                    let mut out: Vec<Order> = Vec::new();
                    let mut i: usize = 0;
                    proof {
                        lemma_orders_ok_iff_forall(a@);
                    }
                    while i < cnt
                        invariant
                            i <= cnt,
                            out@.len() == i,
                            forall|j: int|
                                0 <= j < i ==> spec_order_ok(#[trigger] a@[j])
                                    && spec_order_matches(a@[j], out@[j]),
                        decreases cnt - i,
                    {
                        proof {
                            assert(decreases_to!(m@[k as int].1 => *a));
                            assert(decreases_to!(*a => a@));
                            assert(decreases_to!(a@ => a@[i as int]));
                            assert(decreases_to!(*v => a@[i as int]));
                        }
                        let item = order_from_json(&a[i])?;
                        out.push(item);
                        i = i + 1;
                    }
                    proof {
                        assert(spec_orders_ok(a@));
                        assert(m@[k as int].1 == entry.1);
                        assert(spec_legs_value_ok(m@[k as int].1));
                    }
                    o.legs = Some(out);
                },
                _ => {
                    return Err(DecodeError::WrongType { field: String::from_str("legs") });
                },
            }
            proof {
                assert(json_get(*v, "legs"@) == Some(m@[k as int].1));
                assert(spec_order_scalars_match(*v, o));
                assert(spec_order_matches(*v, o));
                assert(spec_order_ok(*v));
            }
            return Ok(o);
        }
        k = k + 1;
    }
    // no `legs` member at all
    proof {
        lemma_lookup_absent(m@, "legs"@);
        assert(json_get(*v, "legs"@) is None);
        assert(spec_order_matches(*v, o));
        assert(spec_order_ok(*v));
    }
    Ok(o)
}

/// Lookup finds the first entry whose key matches.
proof fn lemma_lookup_at(m: Seq<(String, JsonValue)>, i: int, k: Seq<char>)
    requires
        0 <= i < m.len(),
        forall|j: int| 0 <= j < i ==> #[trigger] m[j].0@ != k,
        m[i].0@ == k,
    ensures
        obj_lookup(m, k) == Some(m[i].1),
    decreases m.len(),
{
    if i > 0 {
        assert(forall|j: int| 0 <= j < i - 1 ==> m.skip(1)[j] == #[trigger] m[j + 1]);
        lemma_lookup_at(m.skip(1), i - 1, k);
    }
}

/// Lookup finds nothing when no key matches.
proof fn lemma_lookup_absent(m: Seq<(String, JsonValue)>, k: Seq<char>)
    requires
        forall|j: int| 0 <= j < m.len() ==> #[trigger] m[j].0@ != k,
    ensures
        obj_lookup(m, k) is None,
    decreases m.len(),
{
    if m.len() > 0 {
        assert(forall|j: int| 0 <= j < m.len() - 1 ==> m.skip(1)[j] == #[trigger] m[j + 1]);
        lemma_lookup_absent(m.skip(1), k);
    }
}

/// One record of the bulk order cancellation response.
#[derive(Debug, Clone, PartialEq)]
pub struct DeleteAllOrdersResponse {
    pub id: String,
    pub status: u16,
}

/// Whether a parsed body has the shape of a [`DeleteAllOrdersResponse`].
pub open spec fn spec_delete_all_orders_response_ok(v: JsonValue) -> bool {
    &&& spec_uuid_field(v, "id"@) is Some
    &&& spec_uint_field(v, "status"@, u16::MAX as nat) is Some
}

/// Whether `m` is exactly what the body `v` denotes.
pub open spec fn spec_delete_all_orders_response_matches(
    v: JsonValue,
    m: DeleteAllOrdersResponse,
) -> bool {
    &&& m.id@ == spec_uuid_field(v, "id"@)->0
    &&& m.status as nat == spec_uint_field(v, "status"@, u16::MAX as nat)->0
}

/// Reads a [`DeleteAllOrdersResponse`] from a parsed response body.
pub fn delete_all_orders_response_from_json(v: &JsonValue) -> (r: Result<
    DeleteAllOrdersResponse,
    DecodeError,
>)
    ensures
        r is Ok <==> spec_delete_all_orders_response_ok(*v),
        match r {
            Ok(m) => spec_delete_all_orders_response_matches(*v, m),
            Err(_) => true,
        },
{
    let id = get_uuid(v, "id")?;
    let status = get_uint(v, "status", u16::MAX as u64)? as u16;
    Ok(DeleteAllOrdersResponse { id, status })
}


/// Whether a parsed body is an array of well-formed [`Order`] bodies.
pub open spec fn spec_order_array_ok(v: JsonValue) -> bool {
    match v {
        JsonValue::Arr(a) => forall|i: int| 0 <= i < a@.len() ==> spec_order_ok(#[trigger] a@[i]),
        _ => false,
    }
}

/// Reads a whole response array of [`Order`] records.
#[verifier::loop_isolation(false)]
pub fn orders_from_json(v: &JsonValue) -> (r: Result<Vec<Order>, DecodeError>)
    ensures
        r is Ok <==> spec_order_array_ok(*v),
        match r {
            Ok(xs) => v matches JsonValue::Arr(a) && xs@.len() == a@.len() && (forall|i: int|
                0 <= i < a@.len() ==> spec_order_matches(#[trigger] a@[i], xs@[i])),
            Err(_) => true,
        },
{
    let arr = match v {
        JsonValue::Arr(a) => a,
        _ => {
            return Err(DecodeError::WrongType { field: String::from_str("body") });
        },
    };
    let n = arr.len();
    let mut out: Vec<Order> = Vec::new();
    let mut i: usize = 0;
    while i < n
        invariant
            i <= n,
            out@.len() == i,
            forall|j: int|
                0 <= j < i ==> spec_order_ok(#[trigger] arr@[j]) && spec_order_matches(
                    arr@[j],
                    out@[j],
                ),
        decreases n - i,
    {
        let item = order_from_json(&arr[i])?;
        out.push(item);
        i = i + 1;
    }
    Ok(out)
}


/// Whether a parsed body is an array of well-formed [`DeleteAllOrdersResponse`] bodies.
pub open spec fn spec_delete_all_orders_responses_ok(v: JsonValue) -> bool {
    match v {
        JsonValue::Arr(a) => forall|i: int| 0 <= i < a@.len() ==> spec_delete_all_orders_response_ok(#[trigger] a@[i]),
        _ => false,
    }
}

/// Reads a whole response array of [`DeleteAllOrdersResponse`] records.
#[verifier::loop_isolation(false)]
pub fn delete_all_orders_responses_from_json(v: &JsonValue) -> (r: Result<Vec<DeleteAllOrdersResponse>, DecodeError>)
    ensures
        r is Ok <==> spec_delete_all_orders_responses_ok(*v),
        match r {
            Ok(xs) => v matches JsonValue::Arr(a) && xs@.len() == a@.len() && (forall|i: int|
                0 <= i < a@.len() ==> spec_delete_all_orders_response_matches(#[trigger] a@[i], xs@[i])),
            Err(_) => true,
        },
{
    let arr = match v {
        JsonValue::Arr(a) => a,
        _ => {
            return Err(DecodeError::WrongType { field: String::from_str("body") });
        },
    };
    let n = arr.len();
    let mut out: Vec<DeleteAllOrdersResponse> = Vec::new();
    let mut i: usize = 0;
    while i < n
        invariant
            i <= n,
            out@.len() == i,
            forall|j: int|
                0 <= j < i ==> spec_delete_all_orders_response_ok(#[trigger] arr@[j]) && spec_delete_all_orders_response_matches(
                    arr@[j],
                    out@[j],
                ),
        decreases n - i,
    {
        let item = delete_all_orders_response_from_json(&arr[i])?;
        out.push(item);
        i = i + 1;
    }
    Ok(out)
}


} // verus!
