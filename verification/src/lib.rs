//! Typed wire-codec layer for a brokerage trading REST API.
//!
//! The library models the broker's JSON wire format: numeric values that
//! travel as strings, enums with mixed casing conventions, comma-joined list
//! parameters, date and period tokens, and the typed request and response
//! records built from them. Every encoder and decoder carries a contract
//! stating exactly which text it produces or accepts.

pub mod account;
pub mod assets;
pub mod corporate_actions;
pub mod crypto;
pub mod dates;
pub mod decimal;
pub mod decode;
pub mod enums;
pub mod error;
pub mod http;
pub mod json;
pub mod market;
pub mod numtext;
pub mod options;
pub mod orders;
pub mod portfolio;
pub mod positions;
pub mod requests;
pub mod text;
pub mod watch_lists;
