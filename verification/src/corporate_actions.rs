//! Corporate action announcements.

use vstd::prelude::*;

use crate::decode::{
    DecodeError, get_opt_date, get_str, get_uuid, spec_opt_date_field, spec_str_field,
    spec_uuid_field
};
use crate::dates::{Date};
use crate::json::{JsonValue};

verus! {

/// One corporate action announcement.
#[derive(Debug, Clone, PartialEq)]
pub struct CorporateAction {
    pub id: String,
    pub corporate_action_id: String,
    pub ca_type: String,
    pub ca_sub_type: String,
    pub initiating_symbol: String,
    pub initiating_original_cusip: String,
    pub target_symbol: String,
    pub target_original_cusip: String,
    pub declaration_date: Option<Date>,
    pub expiration_date: Option<Date>,
    pub effective_date: Option<Date>,
    pub record_date: Option<Date>,
    pub payable_date: Option<Date>,
    pub cash: String,
    pub old_rate: String,
    pub new_rate: String,
}

/// Whether a parsed body has the shape of a [`CorporateAction`].
pub open spec fn spec_corporate_action_ok(v: JsonValue) -> bool {
    &&& spec_uuid_field(v, "id"@) is Some
    &&& spec_str_field(v, "corporate_action_id"@) is Some
    &&& spec_str_field(v, "ca_type"@) is Some
    &&& spec_str_field(v, "ca_sub_type"@) is Some
    &&& spec_str_field(v, "initiating_symbol"@) is Some
    &&& spec_str_field(v, "initiating_original_cusip"@) is Some
    &&& spec_str_field(v, "target_symbol"@) is Some
    &&& spec_str_field(v, "target_original_cusip"@) is Some
    &&& spec_opt_date_field(v, "declaration_date"@) is Some
    &&& spec_opt_date_field(v, "expiration_date"@) is Some
    &&& spec_opt_date_field(v, "effective_date"@) is Some
    &&& spec_opt_date_field(v, "record_date"@) is Some
    &&& spec_opt_date_field(v, "payable_date"@) is Some
    &&& spec_str_field(v, "cash"@) is Some
    &&& spec_str_field(v, "old_rate"@) is Some
    &&& spec_str_field(v, "new_rate"@) is Some
}

/// Whether `m` is exactly what the body `v` denotes, field by field.
pub open spec fn spec_corporate_action_matches(v: JsonValue, m: CorporateAction) -> bool {
    &&& m.id@ == spec_uuid_field(v, "id"@)->0
    &&& m.corporate_action_id@ == spec_str_field(v, "corporate_action_id"@)->0
    &&& m.ca_type@ == spec_str_field(v, "ca_type"@)->0
    &&& m.ca_sub_type@ == spec_str_field(v, "ca_sub_type"@)->0
    &&& m.initiating_symbol@ == spec_str_field(v, "initiating_symbol"@)->0
    &&& m.initiating_original_cusip@ == spec_str_field(v, "initiating_original_cusip"@)->0
    &&& m.target_symbol@ == spec_str_field(v, "target_symbol"@)->0
    &&& m.target_original_cusip@ == spec_str_field(v, "target_original_cusip"@)->0
    &&& spec_opt_date_field(v, "declaration_date"@) == Some(m.declaration_date)
    &&& spec_opt_date_field(v, "expiration_date"@) == Some(m.expiration_date)
    &&& spec_opt_date_field(v, "effective_date"@) == Some(m.effective_date)
    &&& spec_opt_date_field(v, "record_date"@) == Some(m.record_date)
    &&& spec_opt_date_field(v, "payable_date"@) == Some(m.payable_date)
    &&& m.cash@ == spec_str_field(v, "cash"@)->0
    &&& m.old_rate@ == spec_str_field(v, "old_rate"@)->0
    &&& m.new_rate@ == spec_str_field(v, "new_rate"@)->0
}

/// Reads a [`CorporateAction`] from a parsed response body.
#[verifier::loop_isolation(false)]
#[verifier::rlimit(50)]
pub fn corporate_action_from_json(v: &JsonValue) -> (r: Result<CorporateAction, DecodeError>)
    ensures
        r is Ok <==> spec_corporate_action_ok(*v),
        match r {
            Ok(m) => spec_corporate_action_matches(*v, m),
            Err(_) => true,
        },
{
    let id = get_uuid(v, "id")?;
    let corporate_action_id = get_str(v, "corporate_action_id")?;
    let ca_type = get_str(v, "ca_type")?;
    let ca_sub_type = get_str(v, "ca_sub_type")?;
    let initiating_symbol = get_str(v, "initiating_symbol")?;
    let initiating_original_cusip = get_str(v, "initiating_original_cusip")?;
    let target_symbol = get_str(v, "target_symbol")?;
    let target_original_cusip = get_str(v, "target_original_cusip")?;
    let declaration_date = get_opt_date(v, "declaration_date")?;
    let expiration_date = get_opt_date(v, "expiration_date")?;
    let effective_date = get_opt_date(v, "effective_date")?;
    let record_date = get_opt_date(v, "record_date")?;
    let payable_date = get_opt_date(v, "payable_date")?;
    let cash = get_str(v, "cash")?;
    let old_rate = get_str(v, "old_rate")?;
    let new_rate = get_str(v, "new_rate")?;
    Ok(CorporateAction {
        id,
        corporate_action_id,
        ca_type,
        ca_sub_type,
        initiating_symbol,
        initiating_original_cusip,
        target_symbol,
        target_original_cusip,
        declaration_date,
        expiration_date,
        effective_date,
        record_date,
        payable_date,
        cash,
        old_rate,
        new_rate,
    })
}


/// Whether a parsed body is an array of well-formed [`CorporateAction`] bodies.
pub open spec fn spec_corporate_actions_ok(v: JsonValue) -> bool {
    match v {
        JsonValue::Arr(a) => forall|i: int| 0 <= i < a@.len() ==> spec_corporate_action_ok(#[trigger] a@[i]),
        _ => false,
    }
}

/// Reads a whole response array of [`CorporateAction`] records.
#[verifier::loop_isolation(false)]
pub fn corporate_actions_from_json(v: &JsonValue) -> (r: Result<Vec<CorporateAction>, DecodeError>)
    ensures
        r is Ok <==> spec_corporate_actions_ok(*v),
        match r {
            Ok(xs) => v matches JsonValue::Arr(a) && xs@.len() == a@.len() && (forall|i: int|
                0 <= i < a@.len() ==> spec_corporate_action_matches(#[trigger] a@[i], xs@[i])),
            Err(_) => true,
        },
{
    let arr = match v {
        JsonValue::Arr(a) => a,
        _ => {
            return Err(DecodeError::WrongType { field: String::from_str("body") });
        },
    };
    let n = arr.len();
    let mut out: Vec<CorporateAction> = Vec::new();
    let mut i: usize = 0;
    while i < n
        invariant
            i <= n,
            out@.len() == i,
            forall|j: int|
                0 <= j < i ==> spec_corporate_action_ok(#[trigger] arr@[j]) && spec_corporate_action_matches(
                    arr@[j],
                    out@[j],
                ),
        decreases n - i,
    {
        let item = corporate_action_from_json(&arr[i])?;
        out.push(item);
        i = i + 1;
    }
    Ok(out)
}


} // verus!
