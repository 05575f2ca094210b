//! Watchlists.

use vstd::prelude::*;

use crate::decode::{
    DecodeError, get_str, get_timestamp, get_uuid, spec_str_field, spec_timestamp_field,
    spec_uuid_field
};
use crate::dates::{Timestamp};
use crate::json::{json_get, JsonValue};
use crate::assets::{asset_from_json, spec_asset_matches, spec_asset_ok, Asset};

verus! {

/// A watchlist without its assets.
#[derive(Debug, Clone, PartialEq)]
pub struct BasicWatchListInfo {
    pub id: String,
    pub account_id: String,
    pub created_at: Timestamp,
    pub updated_at: Timestamp,
    pub name: String,
}

/// Whether a parsed body has the shape of a [`BasicWatchListInfo`].
pub open spec fn spec_basic_watch_list_info_ok(v: JsonValue) -> bool {
    &&& spec_uuid_field(v, "id"@) is Some
    &&& spec_uuid_field(v, "account_id"@) is Some
    &&& spec_timestamp_field(v, "created_at"@) is Some
    &&& spec_timestamp_field(v, "updated_at"@) is Some
    &&& spec_str_field(v, "name"@) is Some
}

/// Whether `m` is exactly what the body `v` denotes, field by field.
pub open spec fn spec_basic_watch_list_info_matches(v: JsonValue, m: BasicWatchListInfo) -> bool {
    &&& m.id@ == spec_uuid_field(v, "id"@)->0
    &&& m.account_id@ == spec_uuid_field(v, "account_id"@)->0
    &&& Some(m.created_at) == spec_timestamp_field(v, "created_at"@)
    &&& Some(m.updated_at) == spec_timestamp_field(v, "updated_at"@)
    &&& m.name@ == spec_str_field(v, "name"@)->0
}

/// Reads a [`BasicWatchListInfo`] from a parsed response body.
#[verifier::loop_isolation(false)]
pub fn basic_watch_list_info_from_json(v: &JsonValue) -> (r: Result<BasicWatchListInfo, DecodeError>)
    ensures
        r is Ok <==> spec_basic_watch_list_info_ok(*v),
        match r {
            Ok(m) => spec_basic_watch_list_info_matches(*v, m),
            Err(_) => true,
        },
{
    let id = get_uuid(v, "id")?;
    let account_id = get_uuid(v, "account_id")?;
    let created_at = get_timestamp(v, "created_at")?;
    let updated_at = get_timestamp(v, "updated_at")?;
    let name = get_str(v, "name")?;
    Ok(BasicWatchListInfo {
        id,
        account_id,
        created_at,
        updated_at,
        name,
    })
}

/// A watchlist and the assets on it.
#[derive(Debug, Clone, PartialEq)]
pub struct WatchList {
    pub id: String,
    pub account_id: String,
    pub created_at: Timestamp,
    pub updated_at: Timestamp,
    pub name: String,
    pub assets: Vec<Asset>,
}

/// Whether a parsed body has the shape of a [`WatchList`].
pub open spec fn spec_watch_list_ok(v: JsonValue) -> bool {
    &&& spec_uuid_field(v, "id"@) is Some
    &&& spec_uuid_field(v, "account_id"@) is Some
    &&& spec_timestamp_field(v, "created_at"@) is Some
    &&& spec_timestamp_field(v, "updated_at"@) is Some
    &&& spec_str_field(v, "name"@) is Some
    &&& (match json_get(v, "assets"@) { Some(JsonValue::Arr(a)) => forall|i: int| 0 <= i < a@.len() ==> spec_asset_ok(#[trigger] a@[i]), _ => false })
}

/// Whether `m` is exactly what the body `v` denotes, field by field.
pub open spec fn spec_watch_list_matches(v: JsonValue, m: WatchList) -> bool {
    &&& m.id@ == spec_uuid_field(v, "id"@)->0
    &&& m.account_id@ == spec_uuid_field(v, "account_id"@)->0
    &&& Some(m.created_at) == spec_timestamp_field(v, "created_at"@)
    &&& Some(m.updated_at) == spec_timestamp_field(v, "updated_at"@)
    &&& m.name@ == spec_str_field(v, "name"@)->0
    &&& (match json_get(v, "assets"@) { Some(JsonValue::Arr(a)) => m.assets@.len() == a@.len() && (forall|i: int| 0 <= i < a@.len() ==> spec_asset_matches(#[trigger] a@[i], m.assets@[i])), _ => false })
}

/// Reads a [`WatchList`] from a parsed response body.
#[verifier::loop_isolation(false)]
pub fn watch_list_from_json(v: &JsonValue) -> (r: Result<WatchList, DecodeError>)
    ensures
        r is Ok <==> spec_watch_list_ok(*v),
        match r {
            Ok(m) => spec_watch_list_matches(*v, m),
            Err(_) => true,
        },
{
    let id = get_uuid(v, "id")?;
    let account_id = get_uuid(v, "account_id")?;
    let created_at = get_timestamp(v, "created_at")?;
    let updated_at = get_timestamp(v, "updated_at")?;
    let name = get_str(v, "name")?;
    let assets = match v.get("assets") {
        None => {
            return Err(DecodeError::Missing { field: String::from_str("assets") });
        },
        Some(x) => match x {
            JsonValue::Arr(arr) => {
                let n = arr.len();
                let mut out: Vec<Asset> = Vec::new();
                let mut i: usize = 0;
                while i < n
                    invariant
                        i <= n,
                        n == arr@.len(),
                        out@.len() == i,
                        forall|j: int|
                            0 <= j < i ==> spec_asset_ok(#[trigger] arr@[j]) && spec_asset_matches(
                                arr@[j],
                                out@[j],
                            ),
                    decreases n - i,
                {
                    let item = asset_from_json(&arr[i])?;
                    out.push(item);
                    i = i + 1;
                }
                out
            },
            _ => {
                return Err(DecodeError::WrongType { field: String::from_str("assets") });
            },
        },
    };
    Ok(WatchList {
        id,
        account_id,
        created_at,
        updated_at,
        name,
        assets,
    })
}


/// Whether a parsed body is an array of well-formed [`BasicWatchListInfo`] bodies.
pub open spec fn spec_basic_watch_list_infos_ok(v: JsonValue) -> bool {
    match v {
        JsonValue::Arr(a) => forall|i: int| 0 <= i < a@.len() ==> spec_basic_watch_list_info_ok(#[trigger] a@[i]),
        _ => false,
    }
}

/// Reads a whole response array of [`BasicWatchListInfo`] records.
#[verifier::loop_isolation(false)]
pub fn basic_watch_list_infos_from_json(v: &JsonValue) -> (r: Result<Vec<BasicWatchListInfo>, DecodeError>)
    ensures
        r is Ok <==> spec_basic_watch_list_infos_ok(*v),
        match r {
            Ok(xs) => v matches JsonValue::Arr(a) && xs@.len() == a@.len() && (forall|i: int|
                0 <= i < a@.len() ==> spec_basic_watch_list_info_matches(#[trigger] a@[i], xs@[i])),
            Err(_) => true,
        },
{
    let arr = match v {
        JsonValue::Arr(a) => a,
        _ => {
            return Err(DecodeError::WrongType { field: String::from_str("body") });
        },
    };
    let n = arr.len();
    let mut out: Vec<BasicWatchListInfo> = Vec::new();
    let mut i: usize = 0;
    while i < n
        invariant
            i <= n,
            out@.len() == i,
            forall|j: int|
                0 <= j < i ==> spec_basic_watch_list_info_ok(#[trigger] arr@[j]) && spec_basic_watch_list_info_matches(
                    arr@[j],
                    out@[j],
                ),
        decreases n - i,
    {
        let item = basic_watch_list_info_from_json(&arr[i])?;
        out.push(item);
        i = i + 1;
    }
    Ok(out)
}


} // verus!
