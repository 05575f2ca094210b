//! Crypto funding: wallets, transfers, whitelisted addresses and fees.

use vstd::prelude::*;

use crate::decode::{
    DecodeError, get_money, get_str, get_timestamp, get_uuid, spec_money_field, spec_str_field,
    spec_timestamp_field, spec_uuid_field
};
use crate::dates::{Timestamp};
use crate::decimal::{Money};
use crate::enums::{
    AddressStatus, CryptoDirection, CryptoStatus, spec_address_status_from_wire,
    spec_crypto_direction_from_wire, spec_crypto_status_from_wire
};
use crate::json::{JsonValue};

verus! {

/// One crypto wallet.
#[derive(Debug, Clone, PartialEq)]
pub struct CryptoWalletInfo {
    pub chain: String,
    pub address: String,
    pub created_at: Timestamp,
}

/// Whether a parsed body has the shape of a [`CryptoWalletInfo`].
pub open spec fn spec_crypto_wallet_info_ok(v: JsonValue) -> bool {
    &&& spec_str_field(v, "chain"@) is Some
    &&& spec_str_field(v, "address"@) is Some
    &&& spec_timestamp_field(v, "created_at"@) is Some
}

/// Whether `m` is exactly what the body `v` denotes, field by field.
pub open spec fn spec_crypto_wallet_info_matches(v: JsonValue, m: CryptoWalletInfo) -> bool {
    &&& m.chain@ == spec_str_field(v, "chain"@)->0
    &&& m.address@ == spec_str_field(v, "address"@)->0
    &&& Some(m.created_at) == spec_timestamp_field(v, "created_at"@)
}

/// Reads a [`CryptoWalletInfo`] from a parsed response body.
#[verifier::loop_isolation(false)]
pub fn crypto_wallet_info_from_json(v: &JsonValue) -> (r: Result<CryptoWalletInfo, DecodeError>)
    ensures
        r is Ok <==> spec_crypto_wallet_info_ok(*v),
        match r {
            Ok(m) => spec_crypto_wallet_info_matches(*v, m),
            Err(_) => true,
        },
{
    let chain = get_str(v, "chain")?;
    let address = get_str(v, "address")?;
    let created_at = get_timestamp(v, "created_at")?;
    Ok(CryptoWalletInfo {
        chain,
        address,
        created_at,
    })
}

/// One crypto funding transfer.
#[derive(Debug, Clone, PartialEq)]
pub struct CryptoTransfer {
    pub id: String,
    pub tx_hash: String,
    pub direction: CryptoDirection,
    pub status: CryptoStatus,
    pub amount: Money,
    pub usd_value: Money,
    pub network_fee: Money,
    pub fees: Money,
    pub chain: String,
    pub asset: String,
    pub from_address: String,
    pub to_address: String,
    pub created_at: Timestamp,
}

/// Whether a parsed body has the shape of a [`CryptoTransfer`].
pub open spec fn spec_crypto_transfer_ok(v: JsonValue) -> bool {
    &&& spec_uuid_field(v, "id"@) is Some
    &&& spec_str_field(v, "tx_hash"@) is Some
    &&& spec_str_field(v, "direction"@) is Some && spec_crypto_direction_from_wire(spec_str_field(v, "direction"@)->0) is Some
    &&& spec_str_field(v, "status"@) is Some && spec_crypto_status_from_wire(spec_str_field(v, "status"@)->0) is Some
    &&& spec_money_field(v, "amount"@) is Some
    &&& spec_money_field(v, "usd_value"@) is Some
    &&& spec_money_field(v, "network_fee"@) is Some
    &&& spec_money_field(v, "fees"@) is Some
    &&& spec_str_field(v, "chain"@) is Some
    &&& spec_str_field(v, "asset"@) is Some
    &&& spec_str_field(v, "from_address"@) is Some
    &&& spec_str_field(v, "to_address"@) is Some
    &&& spec_timestamp_field(v, "created_at"@) is Some
}

/// Whether `m` is exactly what the body `v` denotes, field by field.
pub open spec fn spec_crypto_transfer_matches(v: JsonValue, m: CryptoTransfer) -> bool {
    &&& m.id@ == spec_uuid_field(v, "id"@)->0
    &&& m.tx_hash@ == spec_str_field(v, "tx_hash"@)->0
    &&& Some(m.direction) == spec_crypto_direction_from_wire(spec_str_field(v, "direction"@)->0)
    &&& Some(m.status) == spec_crypto_status_from_wire(spec_str_field(v, "status"@)->0)
    &&& m.amount@ == spec_money_field(v, "amount"@)->0
    &&& m.usd_value@ == spec_money_field(v, "usd_value"@)->0
    &&& m.network_fee@ == spec_money_field(v, "network_fee"@)->0
    &&& m.fees@ == spec_money_field(v, "fees"@)->0
    &&& m.chain@ == spec_str_field(v, "chain"@)->0
    &&& m.asset@ == spec_str_field(v, "asset"@)->0
    &&& m.from_address@ == spec_str_field(v, "from_address"@)->0
    &&& m.to_address@ == spec_str_field(v, "to_address"@)->0
    &&& Some(m.created_at) == spec_timestamp_field(v, "created_at"@)
}

/// Reads a [`CryptoTransfer`] from a parsed response body.
#[verifier::loop_isolation(false)]
#[verifier::rlimit(50)]
pub fn crypto_transfer_from_json(v: &JsonValue) -> (r: Result<CryptoTransfer, DecodeError>)
    ensures
        r is Ok <==> spec_crypto_transfer_ok(*v),
        match r {
            Ok(m) => spec_crypto_transfer_matches(*v, m),
            Err(_) => true,
        },
{
    let id = get_uuid(v, "id")?;
    let tx_hash = get_str(v, "tx_hash")?;
    let direction_s = get_str(v, "direction")?;
    let direction = match CryptoDirection::from_wire(direction_s.as_str()) {
        Some(x) => x,
        None => {
            return Err(DecodeError::UnknownVariant { field: String::from_str("direction"), raw: direction_s });
        },
    };
    let status_s = get_str(v, "status")?;
    let status = match CryptoStatus::from_wire(status_s.as_str()) {
        Some(x) => x,
        None => {
            return Err(DecodeError::UnknownVariant { field: String::from_str("status"), raw: status_s });
        },
    };
    let amount = get_money(v, "amount")?;
    let usd_value = get_money(v, "usd_value")?;
    let network_fee = get_money(v, "network_fee")?;
    let fees = get_money(v, "fees")?;
    let chain = get_str(v, "chain")?;
    let asset = get_str(v, "asset")?;
    let from_address = get_str(v, "from_address")?;
    let to_address = get_str(v, "to_address")?;
    let created_at = get_timestamp(v, "created_at")?;
    Ok(CryptoTransfer {
        id,
        tx_hash,
        direction,
        status,
        amount,
        usd_value,
        network_fee,
        fees,
        chain,
        asset,
        from_address,
        to_address,
        created_at,
    })
}

/// One whitelisted withdrawal address.
#[derive(Debug, Clone, PartialEq)]
pub struct WhiteListedAddress {
    pub id: String,
    pub chain: String,
    pub asset: String,
    pub address: String,
    pub status: AddressStatus,
    pub created_at: Timestamp,
}

/// Whether a parsed body has the shape of a [`WhiteListedAddress`].
pub open spec fn spec_white_listed_address_ok(v: JsonValue) -> bool {
    &&& spec_str_field(v, "id"@) is Some
    &&& spec_str_field(v, "chain"@) is Some
    &&& spec_str_field(v, "asset"@) is Some
    &&& spec_str_field(v, "address"@) is Some
    &&& spec_str_field(v, "status"@) is Some && spec_address_status_from_wire(spec_str_field(v, "status"@)->0) is Some
    &&& spec_timestamp_field(v, "created_at"@) is Some
}

/// Whether `m` is exactly what the body `v` denotes, field by field.
pub open spec fn spec_white_listed_address_matches(v: JsonValue, m: WhiteListedAddress) -> bool {
    &&& m.id@ == spec_str_field(v, "id"@)->0
    &&& m.chain@ == spec_str_field(v, "chain"@)->0
    &&& m.asset@ == spec_str_field(v, "asset"@)->0
    &&& m.address@ == spec_str_field(v, "address"@)->0
    &&& Some(m.status) == spec_address_status_from_wire(spec_str_field(v, "status"@)->0)
    &&& Some(m.created_at) == spec_timestamp_field(v, "created_at"@)
}

/// Reads a [`WhiteListedAddress`] from a parsed response body.
#[verifier::loop_isolation(false)]
pub fn white_listed_address_from_json(v: &JsonValue) -> (r: Result<WhiteListedAddress, DecodeError>)
    ensures
        r is Ok <==> spec_white_listed_address_ok(*v),
        match r {
            Ok(m) => spec_white_listed_address_matches(*v, m),
            Err(_) => true,
        },
{
    let id = get_str(v, "id")?;
    let chain = get_str(v, "chain")?;
    let asset = get_str(v, "asset")?;
    let address = get_str(v, "address")?;
    let status_s = get_str(v, "status")?;
    let status = match AddressStatus::from_wire(status_s.as_str()) {
        Some(x) => x,
        None => {
            return Err(DecodeError::UnknownVariant { field: String::from_str("status"), raw: status_s });
        },
    };
    let created_at = get_timestamp(v, "created_at")?;
    Ok(WhiteListedAddress {
        id,
        chain,
        asset,
        address,
        status,
        created_at,
    })
}

/// An estimated network fee.
#[derive(Debug, Clone, PartialEq)]
pub struct GasFee {
    pub fee: Money,
}

/// Whether a parsed body has the shape of a [`GasFee`].
pub open spec fn spec_gas_fee_ok(v: JsonValue) -> bool {
    &&& spec_money_field(v, "fee"@) is Some
}

/// Whether `m` is exactly what the body `v` denotes, field by field.
pub open spec fn spec_gas_fee_matches(v: JsonValue, m: GasFee) -> bool {
    &&& m.fee@ == spec_money_field(v, "fee"@)->0
}

/// Reads a [`GasFee`] from a parsed response body.
#[verifier::loop_isolation(false)]
pub fn gas_fee_from_json(v: &JsonValue) -> (r: Result<GasFee, DecodeError>)
    ensures
        r is Ok <==> spec_gas_fee_ok(*v),
        match r {
            Ok(m) => spec_gas_fee_matches(*v, m),
            Err(_) => true,
        },
{
    let fee = get_money(v, "fee")?;
    Ok(GasFee {
        fee,
    })
}


/// Whether a parsed body is an array of well-formed [`CryptoWalletInfo`] bodies.
pub open spec fn spec_crypto_wallet_infos_ok(v: JsonValue) -> bool {
    match v {
        JsonValue::Arr(a) => forall|i: int| 0 <= i < a@.len() ==> spec_crypto_wallet_info_ok(#[trigger] a@[i]),
        _ => false,
    }
}

/// Reads a whole response array of [`CryptoWalletInfo`] records.
#[verifier::loop_isolation(false)]
pub fn crypto_wallet_infos_from_json(v: &JsonValue) -> (r: Result<Vec<CryptoWalletInfo>, DecodeError>)
    ensures
        r is Ok <==> spec_crypto_wallet_infos_ok(*v),
        match r {
            Ok(xs) => v matches JsonValue::Arr(a) && xs@.len() == a@.len() && (forall|i: int|
                0 <= i < a@.len() ==> spec_crypto_wallet_info_matches(#[trigger] a@[i], xs@[i])),
            Err(_) => true,
        },
{
    let arr = match v {
        JsonValue::Arr(a) => a,
        _ => {
            return Err(DecodeError::WrongType { field: String::from_str("body") });
        },
    };
    let n = arr.len();
    let mut out: Vec<CryptoWalletInfo> = Vec::new();
    let mut i: usize = 0;
    while i < n
        invariant
            i <= n,
            out@.len() == i,
            forall|j: int|
                0 <= j < i ==> spec_crypto_wallet_info_ok(#[trigger] arr@[j]) && spec_crypto_wallet_info_matches(
                    arr@[j],
                    out@[j],
                ),
        decreases n - i,
    {
        let item = crypto_wallet_info_from_json(&arr[i])?;
        out.push(item);
        i = i + 1;
    }
    Ok(out)
}


} // verus!
