//! Request bodies and query parameters.
//!
//! Each structure here renders itself two ways, as the endpoints need it:
//! a JSON body with the members in declaration order (absent optionals
//! are skipped or written as `null`, following each field's wire
//! contract), and a flat ordered list of query key/value pairs where
//! absent optionals are omitted.

use vstd::prelude::*;

use crate::decode::view_str_seq;

use crate::dates::{date_text, timestamp_text, Date, Timestamp};
use crate::decimal::{money_text, Money, NumberAsString};
use crate::enums::{
    spec_asset_class_wire, spec_exchange_wire, spec_option_status_wire, spec_option_style_wire,
    spec_option_type_wire, spec_order_class_wire, spec_order_type_wire,
    spec_position_intent_wire, spec_side_wire, spec_time_in_force_wire, AssetClass, Exchange,
    OptionStatus, OptionStyle, OptionType, OrderClass, OrderType, PositionIntent, Side,
    TimeInForce,
};
use crate::json::{
    arr_text, bool_text, json_quote, obj_text, push_bool, push_json_string, quoted, spec_join,
    view_parts,
};
use crate::numtext::{dec_digits, push_dec_u64};
use crate::text::{chars_to_string, push_chars, push_str_chars, str_to_chars};

verus! {


/// An asset status filter; serialized by its variant name.
#[derive(Debug, Clone, Copy, PartialEq, Eq)]
pub enum AssetsStatus {
    Active,
    Inactive,
    All,
}

/// The wire token of each [`AssetsStatus`] variant.
pub open spec fn spec_assets_status_wire(v: AssetsStatus) -> Seq<char> {
    match v {
        AssetsStatus::Active => "Active"@,
        AssetsStatus::Inactive => "Inactive"@,
        AssetsStatus::All => "All"@,
    }
}

impl AssetsStatus {
    /// The wire token of this variant.
    pub fn to_wire(&self) -> (r: &'static str)
        ensures
            r@ == spec_assets_status_wire(*self),
    {
        match self {
            AssetsStatus::Active => "Active",
            AssetsStatus::Inactive => "Inactive",
            AssetsStatus::All => "All",
        }
    }
}

/// Which calendar date a range filters on.
#[derive(Debug, Clone, Copy, PartialEq, Eq)]
pub enum DateType {
    Trading,
    Settlement,
}

/// The wire token of each [`DateType`] variant.
pub open spec fn spec_date_type_wire(v: DateType) -> Seq<char> {
    match v {
        DateType::Trading => "TRADING"@,
        DateType::Settlement => "SETTLEMENT"@,
    }
}

impl DateType {
    /// The wire token of this variant.
    pub fn to_wire(&self) -> (r: &'static str)
        ensures
            r@ == spec_date_type_wire(*self),
    {
        match self {
            DateType::Trading => "TRADING",
            DateType::Settlement => "SETTLEMENT",
        }
    }
}

/// Which corporate-action date a range filters on.
#[derive(Debug, Clone, Copy, PartialEq, Eq)]
pub enum CorporateActionsDateType {
    DeclarationDate,
    ExDate,
    RecordDate,
    PayableDate,
}

/// The wire token of each [`CorporateActionsDateType`] variant.
pub open spec fn spec_corporate_actions_date_type_wire(v: CorporateActionsDateType) -> Seq<char> {
    match v {
        CorporateActionsDateType::DeclarationDate => "declaration_date"@,
        CorporateActionsDateType::ExDate => "ex_date"@,
        CorporateActionsDateType::RecordDate => "record_date"@,
        CorporateActionsDateType::PayableDate => "payable_date"@,
    }
}

impl CorporateActionsDateType {
    /// The wire token of this variant.
    pub fn to_wire(&self) -> (r: &'static str)
        ensures
            r@ == spec_corporate_actions_date_type_wire(*self),
    {
        match self {
            CorporateActionsDateType::DeclarationDate => "declaration_date",
            CorporateActionsDateType::ExDate => "ex_date",
            CorporateActionsDateType::RecordDate => "record_date",
            CorporateActionsDateType::PayableDate => "payable_date",
        }
    }
}

/// The network a funding wallet lives on.
#[derive(Debug, Clone, Copy, PartialEq, Eq)]
pub enum CryptonNetwork {
    Ethereum,
    Solana,
}

/// The wire token of each [`CryptonNetwork`] variant.
pub open spec fn spec_crypton_network_wire(v: CryptonNetwork) -> Seq<char> {
    match v {
        CryptonNetwork::Ethereum => "ethereum"@,
        CryptonNetwork::Solana => "solana"@,
    }
}

impl CryptonNetwork {
    /// The wire token of this variant.
    pub fn to_wire(&self) -> (r: &'static str)
        ensures
            r@ == spec_crypton_network_wire(*self),
    {
        match self {
            CryptonNetwork::Ethereum => "ethereum",
            CryptonNetwork::Solana => "solana",
        }
    }
}

/// An order status filter for listing orders.
#[derive(Debug, Clone, Copy, PartialEq, Eq)]
pub enum OrderStatus {
    Open,
    Closed,
    All,
}

/// The wire token of each [`OrderStatus`] variant.
pub open spec fn spec_query_order_status_wire(v: OrderStatus) -> Seq<char> {
    match v {
        OrderStatus::Open => "open"@,
        OrderStatus::Closed => "closed"@,
        OrderStatus::All => "all"@,
    }
}

impl OrderStatus {
    /// The wire token of this variant.
    pub fn to_wire(&self) -> (r: &'static str)
        ensures
            r@ == spec_query_order_status_wire(*self),
    {
        match self {
            OrderStatus::Open => "open",
            OrderStatus::Closed => "closed",
            OrderStatus::All => "all",
        }
    }
}

/// The sort direction for listing orders.
#[derive(Debug, Clone, Copy, PartialEq, Eq)]
pub enum OrdersDirection {
    Asc,
    Desc,
}

/// The wire token of each [`OrdersDirection`] variant.
pub open spec fn spec_orders_direction_wire(v: OrdersDirection) -> Seq<char> {
    match v {
        OrdersDirection::Asc => "asc"@,
        OrdersDirection::Desc => "desc"@,
    }
}

impl OrdersDirection {
    /// The wire token of this variant.
    pub fn to_wire(&self) -> (r: &'static str)
        ensures
            r@ == spec_orders_direction_wire(*self),
    {
        match self {
            OrdersDirection::Asc => "asc",
            OrdersDirection::Desc => "desc",
        }
    }
}

/// An asset class filter for listing orders.
#[derive(Debug, Clone, Copy, PartialEq, Eq)]
pub enum OrderAssetClass {
    UsEquity,
    UsOption,
    Crypto,
}

/// The wire token of each [`OrderAssetClass`] variant.
pub open spec fn spec_order_asset_class_wire(v: OrderAssetClass) -> Seq<char> {
    match v {
        OrderAssetClass::UsEquity => "us_equity"@,
        OrderAssetClass::UsOption => "us_option"@,
        OrderAssetClass::Crypto => "crypto"@,
    }
}

impl OrderAssetClass {
    /// The wire token of this variant.
    pub fn to_wire(&self) -> (r: &'static str)
        ensures
            r@ == spec_order_asset_class_wire(*self),
    {
        match self {
            OrderAssetClass::UsEquity => "us_equity",
            OrderAssetClass::UsOption => "us_option",
            OrderAssetClass::Crypto => "crypto",
        }
    }
}

/// Which sessions intraday history points cover.
#[derive(Debug, Clone, Copy, PartialEq, Eq)]
pub enum IntradayReporting {
    MarketHours,
    ExtendedHours,
    Continuous,
}

/// The wire token of each [`IntradayReporting`] variant.
pub open spec fn spec_intraday_reporting_wire(v: IntradayReporting) -> Seq<char> {
    match v {
        IntradayReporting::MarketHours => "market_hours"@,
        IntradayReporting::ExtendedHours => "extended_hours"@,
        IntradayReporting::Continuous => "continuous"@,
    }
}

impl IntradayReporting {
    /// The wire token of this variant.
    pub fn to_wire(&self) -> (r: &'static str)
        ensures
            r@ == spec_intraday_reporting_wire(*self),
    {
        match self {
            IntradayReporting::MarketHours => "market_hours",
            IntradayReporting::ExtendedHours => "extended_hours",
            IntradayReporting::Continuous => "continuous",
        }
    }
}

/// How profit-and-loss resets across days.
#[derive(Debug, Clone, Copy, PartialEq, Eq)]
pub enum PnlReset {
    NoReset,
    PerDay,
}

/// The wire token of each [`PnlReset`] variant.
pub open spec fn spec_pnl_reset_wire(v: PnlReset) -> Seq<char> {
    match v {
        PnlReset::NoReset => "no_reset"@,
        PnlReset::PerDay => "per_day"@,
    }
}

impl PnlReset {
    /// The wire token of this variant.
    pub fn to_wire(&self) -> (r: &'static str)
        ensures
            r@ == spec_pnl_reset_wire(*self),
    {
        match self {
            PnlReset::NoReset => "no_reset",
            PnlReset::PerDay => "per_day",
        }
    }
}

/// A boolean with a default of `false`; serialized as a bare boolean.
#[derive(Debug, Clone, Copy, PartialEq, Eq, Structural)]
pub struct DefaultBoolean {
    pub value: bool,
}

impl Default for DefaultBoolean {
    /// The default is `false`.
    fn default() -> (r: DefaultBoolean)
        ensures
            r.value == false,
    {
        DefaultBoolean { value: false }
    }
}

impl Default for AssetsStatus {
    /// The default filter lists every asset.
    fn default() -> (r: AssetsStatus)
        ensures
            r == AssetsStatus::All,
    {
        AssetsStatus::All
    }
}

/// An ordered list of tokens that serializes as one comma-joined string;
/// request-only, never read back.
#[derive(Debug, Clone, PartialEq, Eq)]
pub struct ComaSeparatedStrings {
    pub values: Vec<String>,
}

/// The comma-joined text of the tokens.
pub open spec fn spec_csv_text(c: ComaSeparatedStrings) -> Seq<char> {
    spec_join(crate::decode::view_str_seq(c.values@), ","@)
}

impl ComaSeparatedStrings {
    /// The tokens joined by commas, in order.
    #[verifier::loop_isolation(false)]
    pub fn joined(&self) -> (r: String)
        ensures
            r@ == spec_csv_text(*self),
    {
        let n = self.values.len();
        let mut parts: Vec<Vec<char>> = Vec::new();
        let mut i: usize = 0;
        while i < n
            invariant
                i <= n,
                parts@.len() == i,
                forall|j: int| 0 <= j < i ==> #[trigger] parts@[j]@ == self.values@[j]@,
            decreases n - i,
        {
            parts.push(str_to_chars(self.values[i].as_str()));
            i = i + 1;
        }
        let mut out: Vec<char> = Vec::new();
        crate::json::push_join(&mut out, &parts, ",");
        proof {
            assert(view_parts(parts@) =~~= view_str_seq(self.values@));
        }
        chars_to_string(&out)
    }
}

/// A history span: so many days, weeks, months or years.
#[derive(Debug, Clone, Copy, PartialEq, Eq)]
pub enum HistoryPeriod {
    Day(u32),
    Week(u32),
    Month(u32),
    Year(u32),
}

/// The period token: the count followed by `D`, `W`, `M` or `A`.
pub open spec fn spec_history_period_wire(p: HistoryPeriod) -> Seq<char> {
    match p {
        HistoryPeriod::Day(n) => dec_digits(n as nat) + seq!['D'],
        HistoryPeriod::Week(n) => dec_digits(n as nat) + seq!['W'],
        HistoryPeriod::Month(n) => dec_digits(n as nat) + seq!['M'],
        HistoryPeriod::Year(n) => dec_digits(n as nat) + seq!['A'],
    }
}

impl HistoryPeriod {
    /// The period token, as characters.
    pub fn wire_chars(&self) -> (r: Vec<char>)
        ensures
            r@ == spec_history_period_wire(*self),
    {
        let mut out: Vec<char> = Vec::new();
        match self {
            HistoryPeriod::Day(n) => {
                push_dec_u64(&mut out, *n as u64);
                out.push('D');
            },
            HistoryPeriod::Week(n) => {
                push_dec_u64(&mut out, *n as u64);
                out.push('W');
            },
            HistoryPeriod::Month(n) => {
                push_dec_u64(&mut out, *n as u64);
                out.push('M');
            },
            HistoryPeriod::Year(n) => {
                push_dec_u64(&mut out, *n as u64);
                out.push('A');
            },
        }
        proof {
            assert(out@ =~= spec_history_period_wire(*self));
        }
        out
    }

    /// The period token.
    pub fn wire_token(&self) -> (r: String)
        ensures
            r@ == spec_history_period_wire(*self),
    {
        let cs = self.wire_chars();
        chars_to_string(&cs)
    }
}

/// A history resolution: so many minutes, hours or days per point.
#[derive(Debug, Clone, Copy, PartialEq, Eq)]
pub enum HistoryTimeFrame {
    Minute(u32),
    Hour(u32),
    Day(u32),
}

/// The timeframe token: the count followed by `Min`, `H` or `D`.
pub open spec fn spec_history_timeframe_wire(t: HistoryTimeFrame) -> Seq<char> {
    match t {
        HistoryTimeFrame::Minute(n) => dec_digits(n as nat) + seq!['M', 'i', 'n'],
        HistoryTimeFrame::Hour(n) => dec_digits(n as nat) + seq!['H'],
        HistoryTimeFrame::Day(n) => dec_digits(n as nat) + seq!['D'],
    }
}

impl HistoryTimeFrame {
    /// The timeframe token, as characters.
    pub fn wire_chars(&self) -> (r: Vec<char>)
        ensures
            r@ == spec_history_timeframe_wire(*self),
    {
        let mut out: Vec<char> = Vec::new();
        match self {
            HistoryTimeFrame::Minute(n) => {
                push_dec_u64(&mut out, *n as u64);
                out.push('M');
                out.push('i');
                out.push('n');
            },
            HistoryTimeFrame::Hour(n) => {
                push_dec_u64(&mut out, *n as u64);
                out.push('H');
            },
            HistoryTimeFrame::Day(n) => {
                push_dec_u64(&mut out, *n as u64);
                out.push('D');
            },
        }
        proof {
            assert(out@ =~= spec_history_timeframe_wire(*self));
        }
        out
    }

    /// The timeframe token.
    pub fn wire_token(&self) -> (r: String)
        ensures
            r@ == spec_history_timeframe_wire(*self),
    {
        let cs = self.wire_chars();
        chars_to_string(&cs)
    }
}

/// Which cash flows to include: the literal `ALL` or `NONE`, or a
/// caller-supplied comma-joined list.
#[derive(Debug, Clone, PartialEq, Eq)]
pub enum CashflowTypes {
    All,
    NoTypes,
    ComaSeparatedString(String),
}

/// The plain wire token of the choice.
pub open spec fn spec_cashflow_types_wire(c: CashflowTypes) -> Seq<char> {
    match c {
        CashflowTypes::All => "ALL"@,
        CashflowTypes::NoTypes => "NONE"@,
        CashflowTypes::ComaSeparatedString(s) => s@,
    }
}

/// The choice as a JSON string member value.
pub open spec fn spec_cashflow_types_json(c: CashflowTypes) -> Seq<char> {
    match c {
        CashflowTypes::All => quoted("ALL"@),
        CashflowTypes::NoTypes => quoted("NONE"@),
        CashflowTypes::ComaSeparatedString(s) => json_quote(s@),
    }
}

impl CashflowTypes {
    /// Appends the plain wire token.
    pub fn push_wire(&self, out: &mut Vec<char>)
        ensures
            final(out)@ == old(out)@ + spec_cashflow_types_wire(*self),
    {
        match self {
            CashflowTypes::All => push_str_chars(out, "ALL"),
            CashflowTypes::NoTypes => push_str_chars(out, "NONE"),
            CashflowTypes::ComaSeparatedString(s) => push_str_chars(out, s.as_str()),
        }
    }

    /// Appends the choice as a JSON string.
    pub fn push_json(&self, out: &mut Vec<char>)
        ensures
            final(out)@ == old(out)@ + spec_cashflow_types_json(*self),
    {
        match self {
            CashflowTypes::All => {
                out.push('"');
                push_str_chars(out, "ALL");
                out.push('"');
                proof {
                    assert(out@ =~= old(out)@ + spec_cashflow_types_json(*self));
                }
            },
            CashflowTypes::NoTypes => {
                out.push('"');
                push_str_chars(out, "NONE");
                out.push('"');
                proof {
                    assert(out@ =~= old(out)@ + spec_cashflow_types_json(*self));
                }
            },
            CashflowTypes::ComaSeparatedString(s) => {
                push_json_string(out, s);
            },
        }
    }
}

/// What a fractional or whole close amount serializes to: the bare
/// decimal token, handed to the close-position query.
#[derive(Debug, Clone, PartialEq, Eq)]
pub enum ClosePositionParam {
    Qty(Money),
    Percentage(Money),
}

/// The bare decimal token of either choice.
pub open spec fn spec_close_position_param_wire(p: ClosePositionParam) -> Seq<char> {
    match p {
        ClosePositionParam::Qty(m) => money_text(m@),
        ClosePositionParam::Percentage(m) => money_text(m@),
    }
}

impl ClosePositionParam {
    /// The bare decimal token.
    pub fn wire_token(&self) -> (r: String)
        ensures
            r@ == spec_close_position_param_wire(*self),
    {
        match self {
            ClosePositionParam::Qty(m) => m.wire_token(),
            ClosePositionParam::Percentage(m) => m.wire_token(),
        }
    }

    /// The query pair the close-position call sends: `qty` or
    /// `percentage`, with the decimal token.
    pub fn query_pair(&self) -> (r: (String, String))
        ensures
            r.0@ == (match *self {
                ClosePositionParam::Qty(_) => "qty"@,
                ClosePositionParam::Percentage(_) => "percentage"@,
            }),
            r.1@ == spec_close_position_param_wire(*self),
    {
        match self {
            ClosePositionParam::Qty(m) => (String::from_str("qty"), m.wire_token()),
            ClosePositionParam::Percentage(m) => (
                String::from_str("percentage"),
                m.wire_token(),
            ),
        }
    }
}

/// The character views of query pairs.
pub open spec fn view_pairs(s: Seq<(String, String)>) -> Seq<(Seq<char>, Seq<char>)> {
    s.map_values(|p: (String, String)| (p.0@, p.1@))
}

/// Every string quoted as a JSON string literal.
pub open spec fn json_quote_all(xs: Seq<Seq<char>>) -> Seq<Seq<char>> {
    xs.map_values(|x: Seq<char>| json_quote(x))
}

/// Appends a JSON array of string literals.
#[verifier::loop_isolation(false)]
fn push_str_arr(out: &mut Vec<char>, xs: &Vec<String>)
    ensures
        final(out)@ == old(out)@ + arr_text(json_quote_all(crate::decode::view_str_seq(xs@))),
{
    let n = xs.len();
    let mut elems: Vec<Vec<char>> = Vec::new();
    let mut i: usize = 0;
    while i < n
        invariant
            i <= n,
            elems@.len() == i,
            forall|j: int| 0 <= j < i ==> #[trigger] elems@[j]@ == json_quote(xs@[j]@),
        decreases n - i,
    {
        let mut e: Vec<char> = Vec::new();
        push_json_string(&mut e, &xs[i]);
        elems.push(e);
        i = i + 1;
    }
    proof {
        assert(view_parts(elems@) =~~= json_quote_all(view_str_seq(xs@)));
    }
    crate::json::push_arr(out, &elems);
}

/// The JSON texts of the legs, in order.
pub open spec fn view_parts_of_legs(legs: Seq<Leg>) -> Seq<Seq<char>> {
    legs.map_values(|l: Leg| spec_leg_json(l))
}

/// Appends a JSON array of order legs.
#[verifier::loop_isolation(false)]
fn push_leg_arr(out: &mut Vec<char>, legs: &Vec<Leg>)
    ensures
        final(out)@ == old(out)@ + arr_text(view_parts_of_legs(legs@)),
{
    let n = legs.len();
    let mut elems: Vec<Vec<char>> = Vec::new();
    let mut i: usize = 0;
    while i < n
        invariant
            i <= n,
            elems@.len() == i,
            forall|j: int| 0 <= j < i ==> #[trigger] elems@[j]@ == spec_leg_json(legs@[j]),
        decreases n - i,
    {
        let mut e: Vec<char> = Vec::new();
        legs[i].push_json(&mut e);
        elems.push(e);
        i = i + 1;
    }
    proof {
        assert(view_parts(elems@) =~~= view_parts_of_legs(legs@));
    }
    crate::json::push_arr(out, &elems);
}

/// Filters for listing assets.
#[derive(Debug, Clone, PartialEq)]
pub struct AssetsQueryParameter {
    pub status: AssetsStatus,
    pub asset_class: Option<AssetClass>,
    pub exchange: Option<Exchange>,
    pub attributes: Option<ComaSeparatedStrings>,
}

/// The JSON members of a [`AssetsQueryParameter`], in declaration order.
pub open spec fn spec_assets_query_members(p: AssetsQueryParameter) -> Seq<Seq<char>> {
    seq!["\"status\":"@ + quoted(spec_assets_status_wire(p.status))]
        + (match p.asset_class { Some(x) => seq!["\"asset_class\":"@ + quoted(spec_asset_class_wire(x))], None => Seq::<Seq<char>>::empty() })
        + (match p.exchange { Some(x) => seq!["\"exchange\":"@ + quoted(spec_exchange_wire(x))], None => Seq::<Seq<char>>::empty() })
        + seq!["\"attributes\":"@ + (match p.attributes { Some(x) => json_quote(spec_csv_text(x)), None => "null"@ })]
}

/// The exact JSON body text of a [`AssetsQueryParameter`].
pub open spec fn spec_assets_query_json(p: AssetsQueryParameter) -> Seq<char> {
    obj_text(spec_assets_query_members(p))
}

/// The query pairs of a [`AssetsQueryParameter`], in declaration order; an
/// absent optional contributes no pair.
pub open spec fn spec_assets_query_pairs(p: AssetsQueryParameter) -> Seq<(Seq<char>, Seq<char>)> {
    seq![("status"@, spec_assets_status_wire(p.status))]
        + (match p.asset_class { Some(x) => seq![("asset_class"@, spec_asset_class_wire(x))], None => Seq::<(Seq<char>, Seq<char>)>::empty() })
        + (match p.exchange { Some(x) => seq![("exchange"@, spec_exchange_wire(x))], None => Seq::<(Seq<char>, Seq<char>)>::empty() })
        + (match p.attributes { Some(x) => seq![("attributes"@, spec_csv_text(x))], None => Seq::<(Seq<char>, Seq<char>)>::empty() })
}

impl AssetsQueryParameter {
    /// Appends the JSON body text.
    #[verifier::loop_isolation(false)]
    #[verifier::rlimit(100)]
    pub fn push_json(&self, out: &mut Vec<char>)
        ensures
            final(out)@ == old(out)@ + spec_assets_query_json(*self),
    {
        let mut members: Vec<Vec<char>> = Vec::new();
        let ghost pre = members@;
        {
            let mut part: Vec<char> = Vec::new();
            push_str_chars(&mut part, "\"status\":");
            part.push('"');
            push_str_chars(&mut part, self.status.to_wire());
            part.push('"');
            members.push(part);
        }
        proof {
            assert(view_parts(members@) =~~= view_parts(pre) + seq!["\"status\":"@ + quoted(spec_assets_status_wire(self.status))]);
        }
        let ghost pre = members@;
        match &self.asset_class {
            Some(x) => {
                let mut part: Vec<char> = Vec::new();
                push_str_chars(&mut part, "\"asset_class\":");
                part.push('"');
                push_str_chars(&mut part, x.to_wire());
                part.push('"');
                members.push(part);
            },
            None => {},
        }
        proof {
            assert(view_parts(members@) =~~= view_parts(pre) + (match self.asset_class { Some(x) => seq!["\"asset_class\":"@ + quoted(spec_asset_class_wire(x))], None => Seq::<Seq<char>>::empty() }));
        }
        let ghost pre = members@;
        match &self.exchange {
            Some(x) => {
                let mut part: Vec<char> = Vec::new();
                push_str_chars(&mut part, "\"exchange\":");
                part.push('"');
                push_str_chars(&mut part, x.to_wire());
                part.push('"');
                members.push(part);
            },
            None => {},
        }
        proof {
            assert(view_parts(members@) =~~= view_parts(pre) + (match self.exchange { Some(x) => seq!["\"exchange\":"@ + quoted(spec_exchange_wire(x))], None => Seq::<Seq<char>>::empty() }));
        }
        let ghost pre = members@;
        {
            let mut part: Vec<char> = Vec::new();
            push_str_chars(&mut part, "\"attributes\":");
            match &self.attributes {
                Some(x) => {
                    let joined = x.joined();
                    push_json_string(&mut part, &joined);
                },
                None => {
                    push_str_chars(&mut part, "null");
                },
            }
            members.push(part);
        }
        proof {
            assert(view_parts(members@) =~~= view_parts(pre) + seq!["\"attributes\":"@ + (match self.attributes { Some(x) => json_quote(spec_csv_text(x)), None => "null"@ })]);
        }
        proof {
            assert(view_parts(members@) =~~= seq!["\"status\":"@ + quoted(spec_assets_status_wire(self.status))]
            + (match self.asset_class { Some(x) => seq!["\"asset_class\":"@ + quoted(spec_asset_class_wire(x))], None => Seq::<Seq<char>>::empty() })
            + (match self.exchange { Some(x) => seq!["\"exchange\":"@ + quoted(spec_exchange_wire(x))], None => Seq::<Seq<char>>::empty() })
            + seq!["\"attributes\":"@ + (match self.attributes { Some(x) => json_quote(spec_csv_text(x)), None => "null"@ })]);
        }
        crate::json::push_obj(out, &members);
    }

    /// The exact JSON body text.
    pub fn to_json(&self) -> (r: String)
        ensures
            r@ == spec_assets_query_json(*self),
    {
        let mut out: Vec<char> = Vec::new();
        self.push_json(&mut out);
        chars_to_string(&out)
    }

    /// The query pairs, in declaration order, omitting absent
    /// optionals.
    #[verifier::loop_isolation(false)]
    #[verifier::rlimit(100)]
    pub fn query_pairs(&self) -> (r: Vec<(String, String)>)
        ensures
            view_pairs(r@) == spec_assets_query_pairs(*self),
    {
        let mut pairs: Vec<(String, String)> = Vec::new();
        let ghost pre = pairs@;
        {
            let mut val: Vec<char> = Vec::new();
            push_str_chars(&mut val, self.status.to_wire());
            pairs.push((String::from_str("status"), chars_to_string(&val)));
        }
        proof {
            assert(view_pairs(pairs@) =~~= view_pairs(pre) + seq![("status"@, spec_assets_status_wire(self.status))]);
        }
        let ghost pre = pairs@;
        match &self.asset_class {
            Some(x) => {
                let mut val: Vec<char> = Vec::new();
                push_str_chars(&mut val, x.to_wire());
                pairs.push((String::from_str("asset_class"), chars_to_string(&val)));
            },
            None => {},
        }
        proof {
            assert(view_pairs(pairs@) =~~= view_pairs(pre) + (match self.asset_class { Some(x) => seq![("asset_class"@, spec_asset_class_wire(x))], None => Seq::<(Seq<char>, Seq<char>)>::empty() }));
        }
        let ghost pre = pairs@;
        match &self.exchange {
            Some(x) => {
                let mut val: Vec<char> = Vec::new();
                push_str_chars(&mut val, x.to_wire());
                pairs.push((String::from_str("exchange"), chars_to_string(&val)));
            },
            None => {},
        }
        proof {
            assert(view_pairs(pairs@) =~~= view_pairs(pre) + (match self.exchange { Some(x) => seq![("exchange"@, spec_exchange_wire(x))], None => Seq::<(Seq<char>, Seq<char>)>::empty() }));
        }
        let ghost pre = pairs@;
        match &self.attributes {
            Some(x) => {
                let mut val: Vec<char> = Vec::new();
                let joined = x.joined();
                push_str_chars(&mut val, joined.as_str());
                pairs.push((String::from_str("attributes"), chars_to_string(&val)));
            },
            None => {},
        }
        proof {
            assert(view_pairs(pairs@) =~~= view_pairs(pre) + (match self.attributes { Some(x) => seq![("attributes"@, spec_csv_text(x))], None => Seq::<(Seq<char>, Seq<char>)>::empty() }));
        }
        proof {
            assert(view_pairs(pairs@) =~~= seq![("status"@, spec_assets_status_wire(self.status))]
            + (match self.asset_class { Some(x) => seq![("asset_class"@, spec_asset_class_wire(x))], None => Seq::<(Seq<char>, Seq<char>)>::empty() })
            + (match self.exchange { Some(x) => seq![("exchange"@, spec_exchange_wire(x))], None => Seq::<(Seq<char>, Seq<char>)>::empty() })
            + (match self.attributes { Some(x) => seq![("attributes"@, spec_csv_text(x))], None => Seq::<(Seq<char>, Seq<char>)>::empty() }));
        }
        pairs
    }
}

/// A date range for the market calendar.
#[derive(Debug, Clone, PartialEq)]
pub struct CalendarApiQueryParameter {
    pub start: Option<Date>,
    pub end: Option<Date>,
    pub date_type: Option<DateType>,
}

/// The JSON members of a [`CalendarApiQueryParameter`], in declaration order.
pub open spec fn spec_calendar_query_members(p: CalendarApiQueryParameter) -> Seq<Seq<char>> {
    seq!["\"start\":"@ + (match p.start { Some(x) => quoted(date_text(x)), None => "null"@ })]
        + seq!["\"end\":"@ + (match p.end { Some(x) => quoted(date_text(x)), None => "null"@ })]
        + seq!["\"date_type\":"@ + (match p.date_type { Some(x) => quoted(spec_date_type_wire(x)), None => "null"@ })]
}

/// The exact JSON body text of a [`CalendarApiQueryParameter`].
pub open spec fn spec_calendar_query_json(p: CalendarApiQueryParameter) -> Seq<char> {
    obj_text(spec_calendar_query_members(p))
}

/// The query pairs of a [`CalendarApiQueryParameter`], in declaration order; an
/// absent optional contributes no pair.
pub open spec fn spec_calendar_query_pairs(p: CalendarApiQueryParameter) -> Seq<(Seq<char>, Seq<char>)> {
    (match p.start { Some(x) => seq![("start"@, date_text(x))], None => Seq::<(Seq<char>, Seq<char>)>::empty() })
        + (match p.end { Some(x) => seq![("end"@, date_text(x))], None => Seq::<(Seq<char>, Seq<char>)>::empty() })
        + (match p.date_type { Some(x) => seq![("date_type"@, spec_date_type_wire(x))], None => Seq::<(Seq<char>, Seq<char>)>::empty() })
}

impl CalendarApiQueryParameter {
    /// Appends the JSON body text.
    #[verifier::loop_isolation(false)]
    #[verifier::rlimit(100)]
    pub fn push_json(&self, out: &mut Vec<char>)
        requires
            self.start matches Some(d) ==> d.wf(),
            self.end matches Some(d) ==> d.wf(),
        ensures
            final(out)@ == old(out)@ + spec_calendar_query_json(*self),
    {
        let mut members: Vec<Vec<char>> = Vec::new();
        let ghost pre = members@;
        {
            let mut part: Vec<char> = Vec::new();
            push_str_chars(&mut part, "\"start\":");
            match &self.start {
                Some(x) => {
                    part.push('"');
                    let dc = x.wire_chars();
                    push_chars(&mut part, &dc);
                    part.push('"');
                },
                None => {
                    push_str_chars(&mut part, "null");
                },
            }
            members.push(part);
        }
        proof {
            assert(view_parts(members@) =~~= view_parts(pre) + seq!["\"start\":"@ + (match self.start { Some(x) => quoted(date_text(x)), None => "null"@ })]);
        }
        let ghost pre = members@;
        {
            let mut part: Vec<char> = Vec::new();
            push_str_chars(&mut part, "\"end\":");
            match &self.end {
                Some(x) => {
                    part.push('"');
                    let dc = x.wire_chars();
                    push_chars(&mut part, &dc);
                    part.push('"');
                },
                None => {
                    push_str_chars(&mut part, "null");
                },
            }
            members.push(part);
        }
        proof {
            assert(view_parts(members@) =~~= view_parts(pre) + seq!["\"end\":"@ + (match self.end { Some(x) => quoted(date_text(x)), None => "null"@ })]);
        }
        let ghost pre = members@;
        {
            let mut part: Vec<char> = Vec::new();
            push_str_chars(&mut part, "\"date_type\":");
            match &self.date_type {
                Some(x) => {
                    part.push('"');
                    push_str_chars(&mut part, x.to_wire());
                    part.push('"');
                },
                None => {
                    push_str_chars(&mut part, "null");
                },
            }
            members.push(part);
        }
        proof {
            assert(view_parts(members@) =~~= view_parts(pre) + seq!["\"date_type\":"@ + (match self.date_type { Some(x) => quoted(spec_date_type_wire(x)), None => "null"@ })]);
        }
        proof {
            assert(view_parts(members@) =~~= seq!["\"start\":"@ + (match self.start { Some(x) => quoted(date_text(x)), None => "null"@ })]
            + seq!["\"end\":"@ + (match self.end { Some(x) => quoted(date_text(x)), None => "null"@ })]
            + seq!["\"date_type\":"@ + (match self.date_type { Some(x) => quoted(spec_date_type_wire(x)), None => "null"@ })]);
        }
        crate::json::push_obj(out, &members);
    }

    /// The exact JSON body text.
    pub fn to_json(&self) -> (r: String)
        requires
            self.start matches Some(d) ==> d.wf(),
            self.end matches Some(d) ==> d.wf(),
        ensures
            r@ == spec_calendar_query_json(*self),
    {
        let mut out: Vec<char> = Vec::new();
        self.push_json(&mut out);
        chars_to_string(&out)
    }

    /// The query pairs, in declaration order, omitting absent
    /// optionals.
    #[verifier::loop_isolation(false)]
    #[verifier::rlimit(100)]
    pub fn query_pairs(&self) -> (r: Vec<(String, String)>)
        requires
            self.start matches Some(d) ==> d.wf(),
            self.end matches Some(d) ==> d.wf(),
        ensures
            view_pairs(r@) == spec_calendar_query_pairs(*self),
    {
        let mut pairs: Vec<(String, String)> = Vec::new();
        let ghost pre = pairs@;
        match &self.start {
            Some(x) => {
                let mut val: Vec<char> = Vec::new();
                let dc = x.wire_chars();
                push_chars(&mut val, &dc);
                pairs.push((String::from_str("start"), chars_to_string(&val)));
            },
            None => {},
        }
        proof {
            assert(view_pairs(pairs@) =~~= view_pairs(pre) + (match self.start { Some(x) => seq![("start"@, date_text(x))], None => Seq::<(Seq<char>, Seq<char>)>::empty() }));
        }
        let ghost pre = pairs@;
        match &self.end {
            Some(x) => {
                let mut val: Vec<char> = Vec::new();
                let dc = x.wire_chars();
                push_chars(&mut val, &dc);
                pairs.push((String::from_str("end"), chars_to_string(&val)));
            },
            None => {},
        }
        proof {
            assert(view_pairs(pairs@) =~~= view_pairs(pre) + (match self.end { Some(x) => seq![("end"@, date_text(x))], None => Seq::<(Seq<char>, Seq<char>)>::empty() }));
        }
        let ghost pre = pairs@;
        match &self.date_type {
            Some(x) => {
                let mut val: Vec<char> = Vec::new();
                push_str_chars(&mut val, x.to_wire());
                pairs.push((String::from_str("date_type"), chars_to_string(&val)));
            },
            None => {},
        }
        proof {
            assert(view_pairs(pairs@) =~~= view_pairs(pre) + (match self.date_type { Some(x) => seq![("date_type"@, spec_date_type_wire(x))], None => Seq::<(Seq<char>, Seq<char>)>::empty() }));
        }
        proof {
            assert(view_pairs(pairs@) =~~= (match self.start { Some(x) => seq![("start"@, date_text(x))], None => Seq::<(Seq<char>, Seq<char>)>::empty() })
            + (match self.end { Some(x) => seq![("end"@, date_text(x))], None => Seq::<(Seq<char>, Seq<char>)>::empty() })
            + (match self.date_type { Some(x) => seq![("date_type"@, spec_date_type_wire(x))], None => Seq::<(Seq<char>, Seq<char>)>::empty() }));
        }
        pairs
    }
}

/// Filters for corporate action announcements.
#[derive(Debug, Clone, PartialEq)]
pub struct CorporateActionsQueryParameter {
    pub ca_types: ComaSeparatedStrings,
    pub since: Date,
    pub until: Date,
    pub symbols: Option<String>,
    pub cusip: Option<String>,
    pub date_type: Option<CorporateActionsDateType>,
}

/// The JSON members of a [`CorporateActionsQueryParameter`], in declaration order.
pub open spec fn spec_corporate_actions_query_members(p: CorporateActionsQueryParameter) -> Seq<Seq<char>> {
    seq!["\"ca_types\":"@ + json_quote(spec_csv_text(p.ca_types))]
        + seq!["\"since\":"@ + quoted(date_text(p.since))]
        + seq!["\"until\":"@ + quoted(date_text(p.until))]
        + (match p.symbols { Some(x) => seq!["\"symbols\":"@ + json_quote(x@)], None => Seq::<Seq<char>>::empty() })
        + (match p.cusip { Some(x) => seq!["\"cusip\":"@ + json_quote(x@)], None => Seq::<Seq<char>>::empty() })
        + (match p.date_type { Some(x) => seq!["\"date_type\":"@ + quoted(spec_corporate_actions_date_type_wire(x))], None => Seq::<Seq<char>>::empty() })
}

/// The exact JSON body text of a [`CorporateActionsQueryParameter`].
pub open spec fn spec_corporate_actions_query_json(p: CorporateActionsQueryParameter) -> Seq<char> {
    obj_text(spec_corporate_actions_query_members(p))
}

/// The query pairs of a [`CorporateActionsQueryParameter`], in declaration order; an
/// absent optional contributes no pair.
pub open spec fn spec_corporate_actions_query_pairs(p: CorporateActionsQueryParameter) -> Seq<(Seq<char>, Seq<char>)> {
    seq![("ca_types"@, spec_csv_text(p.ca_types))]
        + seq![("since"@, date_text(p.since))]
        + seq![("until"@, date_text(p.until))]
        + (match p.symbols { Some(x) => seq![("symbols"@, x@)], None => Seq::<(Seq<char>, Seq<char>)>::empty() })
        + (match p.cusip { Some(x) => seq![("cusip"@, x@)], None => Seq::<(Seq<char>, Seq<char>)>::empty() })
        + (match p.date_type { Some(x) => seq![("date_type"@, spec_corporate_actions_date_type_wire(x))], None => Seq::<(Seq<char>, Seq<char>)>::empty() })
}

impl CorporateActionsQueryParameter {
    /// Appends the JSON body text.
    #[verifier::loop_isolation(false)]
    #[verifier::rlimit(100)]
    pub fn push_json(&self, out: &mut Vec<char>)
        requires
            self.since.wf(),
            self.until.wf(),
        ensures
            final(out)@ == old(out)@ + spec_corporate_actions_query_json(*self),
    {
        let mut members: Vec<Vec<char>> = Vec::new();
        let ghost pre = members@;
        {
            let mut part: Vec<char> = Vec::new();
            push_str_chars(&mut part, "\"ca_types\":");
            let joined = self.ca_types.joined();
            push_json_string(&mut part, &joined);
            members.push(part);
        }
        proof {
            assert(view_parts(members@) =~~= view_parts(pre) + seq!["\"ca_types\":"@ + json_quote(spec_csv_text(self.ca_types))]);
        }
        let ghost pre = members@;
        {
            let mut part: Vec<char> = Vec::new();
            push_str_chars(&mut part, "\"since\":");
            part.push('"');
            let dc = self.since.wire_chars();
            push_chars(&mut part, &dc);
            part.push('"');
            members.push(part);
        }
        proof {
            assert(view_parts(members@) =~~= view_parts(pre) + seq!["\"since\":"@ + quoted(date_text(self.since))]);
        }
        let ghost pre = members@;
        {
            let mut part: Vec<char> = Vec::new();
            push_str_chars(&mut part, "\"until\":");
            part.push('"');
            let dc = self.until.wire_chars();
            push_chars(&mut part, &dc);
            part.push('"');
            members.push(part);
        }
        proof {
            assert(view_parts(members@) =~~= view_parts(pre) + seq!["\"until\":"@ + quoted(date_text(self.until))]);
        }
        let ghost pre = members@;
        match &self.symbols {
            Some(x) => {
                let mut part: Vec<char> = Vec::new();
                push_str_chars(&mut part, "\"symbols\":");
                push_json_string(&mut part, &x);
                members.push(part);
            },
            None => {},
        }
        proof {
            assert(view_parts(members@) =~~= view_parts(pre) + (match self.symbols { Some(x) => seq!["\"symbols\":"@ + json_quote(x@)], None => Seq::<Seq<char>>::empty() }));
        }
        let ghost pre = members@;
        match &self.cusip {
            Some(x) => {
                let mut part: Vec<char> = Vec::new();
                push_str_chars(&mut part, "\"cusip\":");
                push_json_string(&mut part, &x);
                members.push(part);
            },
            None => {},
        }
        proof {
            assert(view_parts(members@) =~~= view_parts(pre) + (match self.cusip { Some(x) => seq!["\"cusip\":"@ + json_quote(x@)], None => Seq::<Seq<char>>::empty() }));
        }
        let ghost pre = members@;
        match &self.date_type {
            Some(x) => {
                let mut part: Vec<char> = Vec::new();
                push_str_chars(&mut part, "\"date_type\":");
                part.push('"');
                push_str_chars(&mut part, x.to_wire());
                part.push('"');
                members.push(part);
            },
            None => {},
        }
        proof {
            assert(view_parts(members@) =~~= view_parts(pre) + (match self.date_type { Some(x) => seq!["\"date_type\":"@ + quoted(spec_corporate_actions_date_type_wire(x))], None => Seq::<Seq<char>>::empty() }));
        }
        proof {
            assert(view_parts(members@) =~~= seq!["\"ca_types\":"@ + json_quote(spec_csv_text(self.ca_types))]
            + seq!["\"since\":"@ + quoted(date_text(self.since))]
            + seq!["\"until\":"@ + quoted(date_text(self.until))]
            + (match self.symbols { Some(x) => seq!["\"symbols\":"@ + json_quote(x@)], None => Seq::<Seq<char>>::empty() })
            + (match self.cusip { Some(x) => seq!["\"cusip\":"@ + json_quote(x@)], None => Seq::<Seq<char>>::empty() })
            + (match self.date_type { Some(x) => seq!["\"date_type\":"@ + quoted(spec_corporate_actions_date_type_wire(x))], None => Seq::<Seq<char>>::empty() }));
        }
        crate::json::push_obj(out, &members);
    }

    /// The exact JSON body text.
    pub fn to_json(&self) -> (r: String)
        requires
            self.since.wf(),
            self.until.wf(),
        ensures
            r@ == spec_corporate_actions_query_json(*self),
    {
        let mut out: Vec<char> = Vec::new();
        self.push_json(&mut out);
        chars_to_string(&out)
    }

    /// The query pairs, in declaration order, omitting absent
    /// optionals.
    #[verifier::loop_isolation(false)]
    #[verifier::rlimit(100)]
    pub fn query_pairs(&self) -> (r: Vec<(String, String)>)
        requires
            self.since.wf(),
            self.until.wf(),
        ensures
            view_pairs(r@) == spec_corporate_actions_query_pairs(*self),
    {
        let mut pairs: Vec<(String, String)> = Vec::new();
        let ghost pre = pairs@;
        {
            let mut val: Vec<char> = Vec::new();
            let joined = self.ca_types.joined();
            push_str_chars(&mut val, joined.as_str());
            pairs.push((String::from_str("ca_types"), chars_to_string(&val)));
        }
        proof {
            assert(view_pairs(pairs@) =~~= view_pairs(pre) + seq![("ca_types"@, spec_csv_text(self.ca_types))]);
        }
        let ghost pre = pairs@;
        {
            let mut val: Vec<char> = Vec::new();
            let dc = self.since.wire_chars();
            push_chars(&mut val, &dc);
            pairs.push((String::from_str("since"), chars_to_string(&val)));
        }
        proof {
            assert(view_pairs(pairs@) =~~= view_pairs(pre) + seq![("since"@, date_text(self.since))]);
        }
        let ghost pre = pairs@;
        {
            let mut val: Vec<char> = Vec::new();
            let dc = self.until.wire_chars();
            push_chars(&mut val, &dc);
            pairs.push((String::from_str("until"), chars_to_string(&val)));
        }
        proof {
            assert(view_pairs(pairs@) =~~= view_pairs(pre) + seq![("until"@, date_text(self.until))]);
        }
        let ghost pre = pairs@;
        match &self.symbols {
            Some(x) => {
                let mut val: Vec<char> = Vec::new();
                push_str_chars(&mut val, x.as_str());
                pairs.push((String::from_str("symbols"), chars_to_string(&val)));
            },
            None => {},
        }
        proof {
            assert(view_pairs(pairs@) =~~= view_pairs(pre) + (match self.symbols { Some(x) => seq![("symbols"@, x@)], None => Seq::<(Seq<char>, Seq<char>)>::empty() }));
        }
        let ghost pre = pairs@;
        match &self.cusip {
            Some(x) => {
                let mut val: Vec<char> = Vec::new();
                push_str_chars(&mut val, x.as_str());
                pairs.push((String::from_str("cusip"), chars_to_string(&val)));
            },
            None => {},
        }
        proof {
            assert(view_pairs(pairs@) =~~= view_pairs(pre) + (match self.cusip { Some(x) => seq![("cusip"@, x@)], None => Seq::<(Seq<char>, Seq<char>)>::empty() }));
        }
        let ghost pre = pairs@;
        match &self.date_type {
            Some(x) => {
                let mut val: Vec<char> = Vec::new();
                push_str_chars(&mut val, x.to_wire());
                pairs.push((String::from_str("date_type"), chars_to_string(&val)));
            },
            None => {},
        }
        proof {
            assert(view_pairs(pairs@) =~~= view_pairs(pre) + (match self.date_type { Some(x) => seq![("date_type"@, spec_corporate_actions_date_type_wire(x))], None => Seq::<(Seq<char>, Seq<char>)>::empty() }));
        }
        proof {
            assert(view_pairs(pairs@) =~~= seq![("ca_types"@, spec_csv_text(self.ca_types))]
            + seq![("since"@, date_text(self.since))]
            + seq![("until"@, date_text(self.until))]
            + (match self.symbols { Some(x) => seq![("symbols"@, x@)], None => Seq::<(Seq<char>, Seq<char>)>::empty() })
            + (match self.cusip { Some(x) => seq![("cusip"@, x@)], None => Seq::<(Seq<char>, Seq<char>)>::empty() })
            + (match self.date_type { Some(x) => seq![("date_type"@, spec_corporate_actions_date_type_wire(x))], None => Seq::<(Seq<char>, Seq<char>)>::empty() }));
        }
        pairs
    }
}

/// Filters for listing option contracts.
#[derive(Debug, Clone, PartialEq)]
pub struct OptionContractsQueryParameter {
    pub underlying_symbols: Option<ComaSeparatedStrings>,
    pub show_deliverables: DefaultBoolean,
    pub status: OptionStatus,
    pub expiration_date: Option<String>,
    pub expiration_date_gte: Option<String>,
    pub expiration_date_lte: Option<String>,
    pub root_symbol: Option<String>,
    pub _type: Option<OptionType>,
    pub style: Option<OptionStyle>,
    pub strike_price_gte: Option<Money>,
    pub strike_price_lte: Option<Money>,
    pub page_token: Option<String>,
    pub limit: Option<u16>,
    pub ppind: Option<bool>,
}

/// One run of the JSON members of a [`OptionContractsQueryParameter`].
pub open spec fn spec_option_contracts_query_members_0(p: OptionContractsQueryParameter) -> Seq<Seq<char>> {
    (match p.underlying_symbols { Some(x) => seq!["\"underlying_symbols\":"@ + json_quote(spec_csv_text(x))], None => Seq::<Seq<char>>::empty() })
        + seq!["\"show_deliverables\":"@ + bool_text(p.show_deliverables.value)]
        + seq!["\"status\":"@ + quoted(spec_option_status_wire(p.status))]
        + (match p.expiration_date { Some(x) => seq!["\"expiration_date\":"@ + json_quote(x@)], None => Seq::<Seq<char>>::empty() })
        + (match p.expiration_date_gte { Some(x) => seq!["\"expiration_date_gte\":"@ + json_quote(x@)], None => Seq::<Seq<char>>::empty() })
}

/// One run of the JSON members of a [`OptionContractsQueryParameter`].
pub open spec fn spec_option_contracts_query_members_1(p: OptionContractsQueryParameter) -> Seq<Seq<char>> {
    (match p.expiration_date_lte { Some(x) => seq!["\"expiration_date_lte\":"@ + json_quote(x@)], None => Seq::<Seq<char>>::empty() })
        + (match p.root_symbol { Some(x) => seq!["\"root_symbol\":"@ + json_quote(x@)], None => Seq::<Seq<char>>::empty() })
        + (match p._type { Some(x) => seq!["\"type\":"@ + quoted(spec_option_type_wire(x))], None => Seq::<Seq<char>>::empty() })
        + (match p.style { Some(x) => seq!["\"style\":"@ + quoted(spec_option_style_wire(x))], None => Seq::<Seq<char>>::empty() })
        + (match p.strike_price_gte { Some(x) => seq!["\"strike_price_gte\":"@ + money_text(x@)], None => Seq::<Seq<char>>::empty() })
}

/// One run of the JSON members of a [`OptionContractsQueryParameter`].
pub open spec fn spec_option_contracts_query_members_2(p: OptionContractsQueryParameter) -> Seq<Seq<char>> {
    (match p.strike_price_lte { Some(x) => seq!["\"strike_price_lte\":"@ + money_text(x@)], None => Seq::<Seq<char>>::empty() })
        + (match p.page_token { Some(x) => seq!["\"page_token\":"@ + json_quote(x@)], None => Seq::<Seq<char>>::empty() })
        + (match p.limit { Some(x) => seq!["\"limit\":"@ + dec_digits(x as nat)], None => Seq::<Seq<char>>::empty() })
        + (match p.ppind { Some(x) => seq!["\"ppind\":"@ + bool_text(x)], None => Seq::<Seq<char>>::empty() })
}

/// The JSON members of a [`OptionContractsQueryParameter`], in declaration order.
pub open spec fn spec_option_contracts_query_members(p: OptionContractsQueryParameter) -> Seq<Seq<char>> {
    spec_option_contracts_query_members_0(p) + spec_option_contracts_query_members_1(p) + spec_option_contracts_query_members_2(p)
}

/// The exact JSON body text of a [`OptionContractsQueryParameter`].
pub open spec fn spec_option_contracts_query_json(p: OptionContractsQueryParameter) -> Seq<char> {
    obj_text(spec_option_contracts_query_members(p))
}

/// One run of the query pairs of a [`OptionContractsQueryParameter`].
pub open spec fn spec_option_contracts_query_pairs_0(p: OptionContractsQueryParameter) -> Seq<(Seq<char>, Seq<char>)> {
    (match p.underlying_symbols { Some(x) => seq![("underlying_symbols"@, spec_csv_text(x))], None => Seq::<(Seq<char>, Seq<char>)>::empty() })
        + seq![("show_deliverables"@, bool_text(p.show_deliverables.value))]
        + seq![("status"@, spec_option_status_wire(p.status))]
        + (match p.expiration_date { Some(x) => seq![("expiration_date"@, x@)], None => Seq::<(Seq<char>, Seq<char>)>::empty() })
        + (match p.expiration_date_gte { Some(x) => seq![("expiration_date_gte"@, x@)], None => Seq::<(Seq<char>, Seq<char>)>::empty() })
}

/// One run of the query pairs of a [`OptionContractsQueryParameter`].
pub open spec fn spec_option_contracts_query_pairs_1(p: OptionContractsQueryParameter) -> Seq<(Seq<char>, Seq<char>)> {
    (match p.expiration_date_lte { Some(x) => seq![("expiration_date_lte"@, x@)], None => Seq::<(Seq<char>, Seq<char>)>::empty() })
        + (match p.root_symbol { Some(x) => seq![("root_symbol"@, x@)], None => Seq::<(Seq<char>, Seq<char>)>::empty() })
        + (match p._type { Some(x) => seq![("type"@, spec_option_type_wire(x))], None => Seq::<(Seq<char>, Seq<char>)>::empty() })
        + (match p.style { Some(x) => seq![("style"@, spec_option_style_wire(x))], None => Seq::<(Seq<char>, Seq<char>)>::empty() })
        + (match p.strike_price_gte { Some(x) => seq![("strike_price_gte"@, money_text(x@))], None => Seq::<(Seq<char>, Seq<char>)>::empty() })
}

/// One run of the query pairs of a [`OptionContractsQueryParameter`].
pub open spec fn spec_option_contracts_query_pairs_2(p: OptionContractsQueryParameter) -> Seq<(Seq<char>, Seq<char>)> {
    (match p.strike_price_lte { Some(x) => seq![("strike_price_lte"@, money_text(x@))], None => Seq::<(Seq<char>, Seq<char>)>::empty() })
        + (match p.page_token { Some(x) => seq![("page_token"@, x@)], None => Seq::<(Seq<char>, Seq<char>)>::empty() })
        + (match p.limit { Some(x) => seq![("limit"@, dec_digits(x as nat))], None => Seq::<(Seq<char>, Seq<char>)>::empty() })
        + (match p.ppind { Some(x) => seq![("ppind"@, bool_text(x))], None => Seq::<(Seq<char>, Seq<char>)>::empty() })
}

/// The query pairs of a [`OptionContractsQueryParameter`], in declaration order; an
/// absent optional contributes no pair.
pub open spec fn spec_option_contracts_query_pairs(p: OptionContractsQueryParameter) -> Seq<(Seq<char>, Seq<char>)> {
    spec_option_contracts_query_pairs_0(p) + spec_option_contracts_query_pairs_1(p) + spec_option_contracts_query_pairs_2(p)
}

impl OptionContractsQueryParameter {
    #[verifier::loop_isolation(false)]
    #[verifier::rlimit(100)]
    fn push_members_0(&self, members: &mut Vec<Vec<char>>)
        ensures
            view_parts(final(members)@) == view_parts(old(members)@)
                + spec_option_contracts_query_members_0(*self),
    {
        let ghost pre = members@;
        match &self.underlying_symbols {
            Some(x) => {
                let mut part: Vec<char> = Vec::new();
                push_str_chars(&mut part, "\"underlying_symbols\":");
                let joined = x.joined();
                push_json_string(&mut part, &joined);
                members.push(part);
            },
            None => {},
        }
        proof {
            assert(view_parts(members@) =~~= view_parts(pre) + (match self.underlying_symbols { Some(x) => seq!["\"underlying_symbols\":"@ + json_quote(spec_csv_text(x))], None => Seq::<Seq<char>>::empty() }));
        }
        let ghost pre = members@;
        {
            let mut part: Vec<char> = Vec::new();
            push_str_chars(&mut part, "\"show_deliverables\":");
            push_bool(&mut part, self.show_deliverables.value);
            members.push(part);
        }
        proof {
            assert(view_parts(members@) =~~= view_parts(pre) + seq!["\"show_deliverables\":"@ + bool_text(self.show_deliverables.value)]);
        }
        let ghost pre = members@;
        {
            let mut part: Vec<char> = Vec::new();
            push_str_chars(&mut part, "\"status\":");
            part.push('"');
            push_str_chars(&mut part, self.status.to_wire());
            part.push('"');
            members.push(part);
        }
        proof {
            assert(view_parts(members@) =~~= view_parts(pre) + seq!["\"status\":"@ + quoted(spec_option_status_wire(self.status))]);
        }
        let ghost pre = members@;
        match &self.expiration_date {
            Some(x) => {
                let mut part: Vec<char> = Vec::new();
                push_str_chars(&mut part, "\"expiration_date\":");
                push_json_string(&mut part, &x);
                members.push(part);
            },
            None => {},
        }
        proof {
            assert(view_parts(members@) =~~= view_parts(pre) + (match self.expiration_date { Some(x) => seq!["\"expiration_date\":"@ + json_quote(x@)], None => Seq::<Seq<char>>::empty() }));
        }
        let ghost pre = members@;
        match &self.expiration_date_gte {
            Some(x) => {
                let mut part: Vec<char> = Vec::new();
                push_str_chars(&mut part, "\"expiration_date_gte\":");
                push_json_string(&mut part, &x);
                members.push(part);
            },
            None => {},
        }
        proof {
            assert(view_parts(members@) =~~= view_parts(pre) + (match self.expiration_date_gte { Some(x) => seq!["\"expiration_date_gte\":"@ + json_quote(x@)], None => Seq::<Seq<char>>::empty() }));
        }
        proof {
            assert(view_parts(members@) =~~= view_parts(old(members)@) + spec_option_contracts_query_members_0(*self));
        }
    }

    #[verifier::loop_isolation(false)]
    #[verifier::rlimit(100)]
    fn push_members_1(&self, members: &mut Vec<Vec<char>>)
        ensures
            view_parts(final(members)@) == view_parts(old(members)@)
                + spec_option_contracts_query_members_1(*self),
    {
        let ghost pre = members@;
        match &self.expiration_date_lte {
            Some(x) => {
                let mut part: Vec<char> = Vec::new();
                push_str_chars(&mut part, "\"expiration_date_lte\":");
                push_json_string(&mut part, &x);
                members.push(part);
            },
            None => {},
        }
        proof {
            assert(view_parts(members@) =~~= view_parts(pre) + (match self.expiration_date_lte { Some(x) => seq!["\"expiration_date_lte\":"@ + json_quote(x@)], None => Seq::<Seq<char>>::empty() }));
        }
        let ghost pre = members@;
        match &self.root_symbol {
            Some(x) => {
                let mut part: Vec<char> = Vec::new();
                push_str_chars(&mut part, "\"root_symbol\":");
                push_json_string(&mut part, &x);
                members.push(part);
            },
            None => {},
        }
        proof {
            assert(view_parts(members@) =~~= view_parts(pre) + (match self.root_symbol { Some(x) => seq!["\"root_symbol\":"@ + json_quote(x@)], None => Seq::<Seq<char>>::empty() }));
        }
        let ghost pre = members@;
        match &self._type {
            Some(x) => {
                let mut part: Vec<char> = Vec::new();
                push_str_chars(&mut part, "\"type\":");
                part.push('"');
                push_str_chars(&mut part, x.to_wire());
                part.push('"');
                members.push(part);
            },
            None => {},
        }
        proof {
            assert(view_parts(members@) =~~= view_parts(pre) + (match self._type { Some(x) => seq!["\"type\":"@ + quoted(spec_option_type_wire(x))], None => Seq::<Seq<char>>::empty() }));
        }
        let ghost pre = members@;
        match &self.style {
            Some(x) => {
                let mut part: Vec<char> = Vec::new();
                push_str_chars(&mut part, "\"style\":");
                part.push('"');
                push_str_chars(&mut part, x.to_wire());
                part.push('"');
                members.push(part);
            },
            None => {},
        }
        proof {
            assert(view_parts(members@) =~~= view_parts(pre) + (match self.style { Some(x) => seq!["\"style\":"@ + quoted(spec_option_style_wire(x))], None => Seq::<Seq<char>>::empty() }));
        }
        let ghost pre = members@;
        match &self.strike_price_gte {
            Some(x) => {
                let mut part: Vec<char> = Vec::new();
                push_str_chars(&mut part, "\"strike_price_gte\":");
                let mc = x.wire_chars();
                push_chars(&mut part, &mc);
                members.push(part);
            },
            None => {},
        }
        proof {
            assert(view_parts(members@) =~~= view_parts(pre) + (match self.strike_price_gte { Some(x) => seq!["\"strike_price_gte\":"@ + money_text(x@)], None => Seq::<Seq<char>>::empty() }));
        }
        proof {
            assert(view_parts(members@) =~~= view_parts(old(members)@) + spec_option_contracts_query_members_1(*self));
        }
    }

    #[verifier::loop_isolation(false)]
    #[verifier::rlimit(100)]
    fn push_members_2(&self, members: &mut Vec<Vec<char>>)
        ensures
            view_parts(final(members)@) == view_parts(old(members)@)
                + spec_option_contracts_query_members_2(*self),
    {
        let ghost pre = members@;
        match &self.strike_price_lte {
            Some(x) => {
                let mut part: Vec<char> = Vec::new();
                push_str_chars(&mut part, "\"strike_price_lte\":");
                let mc = x.wire_chars();
                push_chars(&mut part, &mc);
                members.push(part);
            },
            None => {},
        }
        proof {
            assert(view_parts(members@) =~~= view_parts(pre) + (match self.strike_price_lte { Some(x) => seq!["\"strike_price_lte\":"@ + money_text(x@)], None => Seq::<Seq<char>>::empty() }));
        }
        let ghost pre = members@;
        match &self.page_token {
            Some(x) => {
                let mut part: Vec<char> = Vec::new();
                push_str_chars(&mut part, "\"page_token\":");
                push_json_string(&mut part, &x);
                members.push(part);
            },
            None => {},
        }
        proof {
            assert(view_parts(members@) =~~= view_parts(pre) + (match self.page_token { Some(x) => seq!["\"page_token\":"@ + json_quote(x@)], None => Seq::<Seq<char>>::empty() }));
        }
        let ghost pre = members@;
        match &self.limit {
            Some(x) => {
                let mut part: Vec<char> = Vec::new();
                push_str_chars(&mut part, "\"limit\":");
                push_dec_u64(&mut part, *x as u64);
                members.push(part);
            },
            None => {},
        }
        proof {
            assert(view_parts(members@) =~~= view_parts(pre) + (match self.limit { Some(x) => seq!["\"limit\":"@ + dec_digits(x as nat)], None => Seq::<Seq<char>>::empty() }));
        }
        let ghost pre = members@;
        match &self.ppind {
            Some(x) => {
                let mut part: Vec<char> = Vec::new();
                push_str_chars(&mut part, "\"ppind\":");
                push_bool(&mut part, *x);
                members.push(part);
            },
            None => {},
        }
        proof {
            assert(view_parts(members@) =~~= view_parts(pre) + (match self.ppind { Some(x) => seq!["\"ppind\":"@ + bool_text(x)], None => Seq::<Seq<char>>::empty() }));
        }
        proof {
            assert(view_parts(members@) =~~= view_parts(old(members)@) + spec_option_contracts_query_members_2(*self));
        }
    }

    /// Appends the JSON body text.
    #[verifier::loop_isolation(false)]
    #[verifier::rlimit(100)]
    pub fn push_json(&self, out: &mut Vec<char>)
        ensures
            final(out)@ == old(out)@ + spec_option_contracts_query_json(*self),
    {
        let mut members: Vec<Vec<char>> = Vec::new();
        self.push_members_0(&mut members);
        self.push_members_1(&mut members);
        self.push_members_2(&mut members);
        proof {
            assert(view_parts(members@) =~~= spec_option_contracts_query_members(*self));
        }
        crate::json::push_obj(out, &members);
    }

    /// The exact JSON body text.
    pub fn to_json(&self) -> (r: String)
        ensures
            r@ == spec_option_contracts_query_json(*self),
    {
        let mut out: Vec<char> = Vec::new();
        self.push_json(&mut out);
        chars_to_string(&out)
    }

    #[verifier::loop_isolation(false)]
    #[verifier::rlimit(100)]
    fn push_pairs_0(&self, pairs: &mut Vec<(String, String)>)
        ensures
            view_pairs(final(pairs)@) == view_pairs(old(pairs)@)
                + spec_option_contracts_query_pairs_0(*self),
    {
        let ghost pre = pairs@;
        match &self.underlying_symbols {
            Some(x) => {
                let mut val: Vec<char> = Vec::new();
                let joined = x.joined();
                push_str_chars(&mut val, joined.as_str());
                pairs.push((String::from_str("underlying_symbols"), chars_to_string(&val)));
            },
            None => {},
        }
        proof {
            assert(view_pairs(pairs@) =~~= view_pairs(pre) + (match self.underlying_symbols { Some(x) => seq![("underlying_symbols"@, spec_csv_text(x))], None => Seq::<(Seq<char>, Seq<char>)>::empty() }));
        }
        let ghost pre = pairs@;
        {
            let mut val: Vec<char> = Vec::new();
            push_bool(&mut val, self.show_deliverables.value);
            pairs.push((String::from_str("show_deliverables"), chars_to_string(&val)));
        }
        proof {
            assert(view_pairs(pairs@) =~~= view_pairs(pre) + seq![("show_deliverables"@, bool_text(self.show_deliverables.value))]);
        }
        let ghost pre = pairs@;
        {
            let mut val: Vec<char> = Vec::new();
            push_str_chars(&mut val, self.status.to_wire());
            pairs.push((String::from_str("status"), chars_to_string(&val)));
        }
        proof {
            assert(view_pairs(pairs@) =~~= view_pairs(pre) + seq![("status"@, spec_option_status_wire(self.status))]);
        }
        let ghost pre = pairs@;
        match &self.expiration_date {
            Some(x) => {
                let mut val: Vec<char> = Vec::new();
                push_str_chars(&mut val, x.as_str());
                pairs.push((String::from_str("expiration_date"), chars_to_string(&val)));
            },
            None => {},
        }
        proof {
            assert(view_pairs(pairs@) =~~= view_pairs(pre) + (match self.expiration_date { Some(x) => seq![("expiration_date"@, x@)], None => Seq::<(Seq<char>, Seq<char>)>::empty() }));
        }
        let ghost pre = pairs@;
        match &self.expiration_date_gte {
            Some(x) => {
                let mut val: Vec<char> = Vec::new();
                push_str_chars(&mut val, x.as_str());
                pairs.push((String::from_str("expiration_date_gte"), chars_to_string(&val)));
            },
            None => {},
        }
        proof {
            assert(view_pairs(pairs@) =~~= view_pairs(pre) + (match self.expiration_date_gte { Some(x) => seq![("expiration_date_gte"@, x@)], None => Seq::<(Seq<char>, Seq<char>)>::empty() }));
        }
        proof {
            assert(view_pairs(pairs@) =~~= view_pairs(old(pairs)@) + spec_option_contracts_query_pairs_0(*self));
        }
    }

    #[verifier::loop_isolation(false)]
    #[verifier::rlimit(100)]
    fn push_pairs_1(&self, pairs: &mut Vec<(String, String)>)
        ensures
            view_pairs(final(pairs)@) == view_pairs(old(pairs)@)
                + spec_option_contracts_query_pairs_1(*self),
    {
        let ghost pre = pairs@;
        match &self.expiration_date_lte {
            Some(x) => {
                let mut val: Vec<char> = Vec::new();
                push_str_chars(&mut val, x.as_str());
                pairs.push((String::from_str("expiration_date_lte"), chars_to_string(&val)));
            },
            None => {},
        }
        proof {
            assert(view_pairs(pairs@) =~~= view_pairs(pre) + (match self.expiration_date_lte { Some(x) => seq![("expiration_date_lte"@, x@)], None => Seq::<(Seq<char>, Seq<char>)>::empty() }));
        }
        let ghost pre = pairs@;
        match &self.root_symbol {
            Some(x) => {
                let mut val: Vec<char> = Vec::new();
                push_str_chars(&mut val, x.as_str());
                pairs.push((String::from_str("root_symbol"), chars_to_string(&val)));
            },
            None => {},
        }
        proof {
            assert(view_pairs(pairs@) =~~= view_pairs(pre) + (match self.root_symbol { Some(x) => seq![("root_symbol"@, x@)], None => Seq::<(Seq<char>, Seq<char>)>::empty() }));
        }
        let ghost pre = pairs@;
        match &self._type {
            Some(x) => {
                let mut val: Vec<char> = Vec::new();
                push_str_chars(&mut val, x.to_wire());
                pairs.push((String::from_str("type"), chars_to_string(&val)));
            },
            None => {},
        }
        proof {
            assert(view_pairs(pairs@) =~~= view_pairs(pre) + (match self._type { Some(x) => seq![("type"@, spec_option_type_wire(x))], None => Seq::<(Seq<char>, Seq<char>)>::empty() }));
        }
        let ghost pre = pairs@;
        match &self.style {
            Some(x) => {
                let mut val: Vec<char> = Vec::new();
                push_str_chars(&mut val, x.to_wire());
                pairs.push((String::from_str("style"), chars_to_string(&val)));
            },
            None => {},
        }
        proof {
            assert(view_pairs(pairs@) =~~= view_pairs(pre) + (match self.style { Some(x) => seq![("style"@, spec_option_style_wire(x))], None => Seq::<(Seq<char>, Seq<char>)>::empty() }));
        }
        let ghost pre = pairs@;
        match &self.strike_price_gte {
            Some(x) => {
                let mut val: Vec<char> = Vec::new();
                let mc = x.wire_chars();
                push_chars(&mut val, &mc);
                pairs.push((String::from_str("strike_price_gte"), chars_to_string(&val)));
            },
            None => {},
        }
        proof {
            assert(view_pairs(pairs@) =~~= view_pairs(pre) + (match self.strike_price_gte { Some(x) => seq![("strike_price_gte"@, money_text(x@))], None => Seq::<(Seq<char>, Seq<char>)>::empty() }));
        }
        proof {
            assert(view_pairs(pairs@) =~~= view_pairs(old(pairs)@) + spec_option_contracts_query_pairs_1(*self));
        }
    }

    #[verifier::loop_isolation(false)]
    #[verifier::rlimit(100)]
    fn push_pairs_2(&self, pairs: &mut Vec<(String, String)>)
        ensures
            view_pairs(final(pairs)@) == view_pairs(old(pairs)@)
                + spec_option_contracts_query_pairs_2(*self),
    {
        let ghost pre = pairs@;
        match &self.strike_price_lte {
            Some(x) => {
                let mut val: Vec<char> = Vec::new();
                let mc = x.wire_chars();
                push_chars(&mut val, &mc);
                pairs.push((String::from_str("strike_price_lte"), chars_to_string(&val)));
            },
            None => {},
        }
        proof {
            assert(view_pairs(pairs@) =~~= view_pairs(pre) + (match self.strike_price_lte { Some(x) => seq![("strike_price_lte"@, money_text(x@))], None => Seq::<(Seq<char>, Seq<char>)>::empty() }));
        }
        let ghost pre = pairs@;
        match &self.page_token {
            Some(x) => {
                let mut val: Vec<char> = Vec::new();
                push_str_chars(&mut val, x.as_str());
                pairs.push((String::from_str("page_token"), chars_to_string(&val)));
            },
            None => {},
        }
        proof {
            assert(view_pairs(pairs@) =~~= view_pairs(pre) + (match self.page_token { Some(x) => seq![("page_token"@, x@)], None => Seq::<(Seq<char>, Seq<char>)>::empty() }));
        }
        let ghost pre = pairs@;
        match &self.limit {
            Some(x) => {
                let mut val: Vec<char> = Vec::new();
                push_dec_u64(&mut val, *x as u64);
                pairs.push((String::from_str("limit"), chars_to_string(&val)));
            },
            None => {},
        }
        proof {
            assert(view_pairs(pairs@) =~~= view_pairs(pre) + (match self.limit { Some(x) => seq![("limit"@, dec_digits(x as nat))], None => Seq::<(Seq<char>, Seq<char>)>::empty() }));
        }
        let ghost pre = pairs@;
        match &self.ppind {
            Some(x) => {
                let mut val: Vec<char> = Vec::new();
                push_bool(&mut val, *x);
                pairs.push((String::from_str("ppind"), chars_to_string(&val)));
            },
            None => {},
        }
        proof {
            assert(view_pairs(pairs@) =~~= view_pairs(pre) + (match self.ppind { Some(x) => seq![("ppind"@, bool_text(x))], None => Seq::<(Seq<char>, Seq<char>)>::empty() }));
        }
        proof {
            assert(view_pairs(pairs@) =~~= view_pairs(old(pairs)@) + spec_option_contracts_query_pairs_2(*self));
        }
    }

    /// The query pairs, in declaration order, omitting absent
    /// optionals.
    #[verifier::loop_isolation(false)]
    #[verifier::rlimit(100)]
    pub fn query_pairs(&self) -> (r: Vec<(String, String)>)
        ensures
            view_pairs(r@) == spec_option_contracts_query_pairs(*self),
    {
        let mut pairs: Vec<(String, String)> = Vec::new();
        self.push_pairs_0(&mut pairs);
        self.push_pairs_1(&mut pairs);
        self.push_pairs_2(&mut pairs);
        proof {
            assert(view_pairs(pairs@) =~~= spec_option_contracts_query_pairs(*self));
        }
        pairs
    }
}

/// Filters for listing orders.
#[derive(Debug, Clone, PartialEq)]
pub struct AllOrdersQueryParameter {
    pub status: Option<OrderStatus>,
    pub limit: Option<u16>,
    pub after: Option<String>,
    pub until: Option<String>,
    pub direction: Option<OrdersDirection>,
    pub nested: Option<bool>,
    pub symbols: Option<ComaSeparatedStrings>,
    pub side: Option<Side>,
    pub asset_class: Option<ComaSeparatedStrings>,
    pub before_order_id: Option<String>,
    pub after_order_id: Option<String>,
}

/// One run of the JSON members of a [`AllOrdersQueryParameter`].
pub open spec fn spec_all_orders_query_members_0(p: AllOrdersQueryParameter) -> Seq<Seq<char>> {
    (match p.status { Some(x) => seq!["\"status\":"@ + quoted(spec_query_order_status_wire(x))], None => Seq::<Seq<char>>::empty() })
        + (match p.limit { Some(x) => seq!["\"limit\":"@ + dec_digits(x as nat)], None => Seq::<Seq<char>>::empty() })
        + (match p.after { Some(x) => seq!["\"after\":"@ + json_quote(x@)], None => Seq::<Seq<char>>::empty() })
        + (match p.until { Some(x) => seq!["\"until\":"@ + json_quote(x@)], None => Seq::<Seq<char>>::empty() })
        + (match p.direction { Some(x) => seq!["\"direction\":"@ + quoted(spec_orders_direction_wire(x))], None => Seq::<Seq<char>>::empty() })
}

/// One run of the JSON members of a [`AllOrdersQueryParameter`].
pub open spec fn spec_all_orders_query_members_1(p: AllOrdersQueryParameter) -> Seq<Seq<char>> {
    (match p.nested { Some(x) => seq!["\"nested\":"@ + bool_text(x)], None => Seq::<Seq<char>>::empty() })
        + (match p.symbols { Some(x) => seq!["\"symbols\":"@ + json_quote(spec_csv_text(x))], None => Seq::<Seq<char>>::empty() })
        + (match p.side { Some(x) => seq!["\"side\":"@ + quoted(spec_side_wire(x))], None => Seq::<Seq<char>>::empty() })
        + (match p.asset_class { Some(x) => seq!["\"asset_class\":"@ + json_quote(spec_csv_text(x))], None => Seq::<Seq<char>>::empty() })
        + (match p.before_order_id { Some(x) => seq!["\"before_order_id\":"@ + json_quote(x@)], None => Seq::<Seq<char>>::empty() })
}

/// One run of the JSON members of a [`AllOrdersQueryParameter`].
pub open spec fn spec_all_orders_query_members_2(p: AllOrdersQueryParameter) -> Seq<Seq<char>> {
    (match p.after_order_id { Some(x) => seq!["\"after_order_id\":"@ + json_quote(x@)], None => Seq::<Seq<char>>::empty() })
}

/// The JSON members of a [`AllOrdersQueryParameter`], in declaration order.
pub open spec fn spec_all_orders_query_members(p: AllOrdersQueryParameter) -> Seq<Seq<char>> {
    spec_all_orders_query_members_0(p) + spec_all_orders_query_members_1(p) + spec_all_orders_query_members_2(p)
}

/// The exact JSON body text of a [`AllOrdersQueryParameter`].
pub open spec fn spec_all_orders_query_json(p: AllOrdersQueryParameter) -> Seq<char> {
    obj_text(spec_all_orders_query_members(p))
}

/// One run of the query pairs of a [`AllOrdersQueryParameter`].
pub open spec fn spec_all_orders_query_pairs_0(p: AllOrdersQueryParameter) -> Seq<(Seq<char>, Seq<char>)> {
    (match p.status { Some(x) => seq![("status"@, spec_query_order_status_wire(x))], None => Seq::<(Seq<char>, Seq<char>)>::empty() })
        + (match p.limit { Some(x) => seq![("limit"@, dec_digits(x as nat))], None => Seq::<(Seq<char>, Seq<char>)>::empty() })
        + (match p.after { Some(x) => seq![("after"@, x@)], None => Seq::<(Seq<char>, Seq<char>)>::empty() })
        + (match p.until { Some(x) => seq![("until"@, x@)], None => Seq::<(Seq<char>, Seq<char>)>::empty() })
        + (match p.direction { Some(x) => seq![("direction"@, spec_orders_direction_wire(x))], None => Seq::<(Seq<char>, Seq<char>)>::empty() })
}

/// One run of the query pairs of a [`AllOrdersQueryParameter`].
pub open spec fn spec_all_orders_query_pairs_1(p: AllOrdersQueryParameter) -> Seq<(Seq<char>, Seq<char>)> {
    (match p.nested { Some(x) => seq![("nested"@, bool_text(x))], None => Seq::<(Seq<char>, Seq<char>)>::empty() })
        + (match p.symbols { Some(x) => seq![("symbols"@, spec_csv_text(x))], None => Seq::<(Seq<char>, Seq<char>)>::empty() })
        + (match p.side { Some(x) => seq![("side"@, spec_side_wire(x))], None => Seq::<(Seq<char>, Seq<char>)>::empty() })
        + (match p.asset_class { Some(x) => seq![("asset_class"@, spec_csv_text(x))], None => Seq::<(Seq<char>, Seq<char>)>::empty() })
        + (match p.before_order_id { Some(x) => seq![("before_order_id"@, x@)], None => Seq::<(Seq<char>, Seq<char>)>::empty() })
}

/// One run of the query pairs of a [`AllOrdersQueryParameter`].
pub open spec fn spec_all_orders_query_pairs_2(p: AllOrdersQueryParameter) -> Seq<(Seq<char>, Seq<char>)> {
    (match p.after_order_id { Some(x) => seq![("after_order_id"@, x@)], None => Seq::<(Seq<char>, Seq<char>)>::empty() })
}

/// The query pairs of a [`AllOrdersQueryParameter`], in declaration order; an
/// absent optional contributes no pair.
pub open spec fn spec_all_orders_query_pairs(p: AllOrdersQueryParameter) -> Seq<(Seq<char>, Seq<char>)> {
    spec_all_orders_query_pairs_0(p) + spec_all_orders_query_pairs_1(p) + spec_all_orders_query_pairs_2(p)
}

impl AllOrdersQueryParameter {
    #[verifier::loop_isolation(false)]
    #[verifier::rlimit(100)]
    fn push_members_0(&self, members: &mut Vec<Vec<char>>)
        ensures
            view_parts(final(members)@) == view_parts(old(members)@)
                + spec_all_orders_query_members_0(*self),
    {
        let ghost pre = members@;
        match &self.status {
            Some(x) => {
                let mut part: Vec<char> = Vec::new();
                push_str_chars(&mut part, "\"status\":");
                part.push('"');
                push_str_chars(&mut part, x.to_wire());
                part.push('"');
                members.push(part);
            },
            None => {},
        }
        proof {
            assert(view_parts(members@) =~~= view_parts(pre) + (match self.status { Some(x) => seq!["\"status\":"@ + quoted(spec_query_order_status_wire(x))], None => Seq::<Seq<char>>::empty() }));
        }
        let ghost pre = members@;
        match &self.limit {
            Some(x) => {
                let mut part: Vec<char> = Vec::new();
                push_str_chars(&mut part, "\"limit\":");
                push_dec_u64(&mut part, *x as u64);
                members.push(part);
            },
            None => {},
        }
        proof {
            assert(view_parts(members@) =~~= view_parts(pre) + (match self.limit { Some(x) => seq!["\"limit\":"@ + dec_digits(x as nat)], None => Seq::<Seq<char>>::empty() }));
        }
        let ghost pre = members@;
        match &self.after {
            Some(x) => {
                let mut part: Vec<char> = Vec::new();
                push_str_chars(&mut part, "\"after\":");
                push_json_string(&mut part, &x);
                members.push(part);
            },
            None => {},
        }
        proof {
            assert(view_parts(members@) =~~= view_parts(pre) + (match self.after { Some(x) => seq!["\"after\":"@ + json_quote(x@)], None => Seq::<Seq<char>>::empty() }));
        }
        let ghost pre = members@;
        match &self.until {
            Some(x) => {
                let mut part: Vec<char> = Vec::new();
                push_str_chars(&mut part, "\"until\":");
                push_json_string(&mut part, &x);
                members.push(part);
            },
            None => {},
        }
        proof {
            assert(view_parts(members@) =~~= view_parts(pre) + (match self.until { Some(x) => seq!["\"until\":"@ + json_quote(x@)], None => Seq::<Seq<char>>::empty() }));
        }
        let ghost pre = members@;
        match &self.direction {
            Some(x) => {
                let mut part: Vec<char> = Vec::new();
                push_str_chars(&mut part, "\"direction\":");
                part.push('"');
                push_str_chars(&mut part, x.to_wire());
                part.push('"');
                members.push(part);
            },
            None => {},
        }
        proof {
            assert(view_parts(members@) =~~= view_parts(pre) + (match self.direction { Some(x) => seq!["\"direction\":"@ + quoted(spec_orders_direction_wire(x))], None => Seq::<Seq<char>>::empty() }));
        }
        proof {
            assert(view_parts(members@) =~~= view_parts(old(members)@) + spec_all_orders_query_members_0(*self));
        }
    }

    #[verifier::loop_isolation(false)]
    #[verifier::rlimit(100)]
    fn push_members_1(&self, members: &mut Vec<Vec<char>>)
        ensures
            view_parts(final(members)@) == view_parts(old(members)@)
                + spec_all_orders_query_members_1(*self),
    {
        let ghost pre = members@;
        match &self.nested {
            Some(x) => {
                let mut part: Vec<char> = Vec::new();
                push_str_chars(&mut part, "\"nested\":");
                push_bool(&mut part, *x);
                members.push(part);
            },
            None => {},
        }
        proof {
            assert(view_parts(members@) =~~= view_parts(pre) + (match self.nested { Some(x) => seq!["\"nested\":"@ + bool_text(x)], None => Seq::<Seq<char>>::empty() }));
        }
        let ghost pre = members@;
        match &self.symbols {
            Some(x) => {
                let mut part: Vec<char> = Vec::new();
                push_str_chars(&mut part, "\"symbols\":");
                let joined = x.joined();
                push_json_string(&mut part, &joined);
                members.push(part);
            },
            None => {},
        }
        proof {
            assert(view_parts(members@) =~~= view_parts(pre) + (match self.symbols { Some(x) => seq!["\"symbols\":"@ + json_quote(spec_csv_text(x))], None => Seq::<Seq<char>>::empty() }));
        }
        let ghost pre = members@;
        match &self.side {
            Some(x) => {
                let mut part: Vec<char> = Vec::new();
                push_str_chars(&mut part, "\"side\":");
                part.push('"');
                push_str_chars(&mut part, x.to_wire());
                part.push('"');
                members.push(part);
            },
            None => {},
        }
        proof {
            assert(view_parts(members@) =~~= view_parts(pre) + (match self.side { Some(x) => seq!["\"side\":"@ + quoted(spec_side_wire(x))], None => Seq::<Seq<char>>::empty() }));
        }
        let ghost pre = members@;
        match &self.asset_class {
            Some(x) => {
                let mut part: Vec<char> = Vec::new();
                push_str_chars(&mut part, "\"asset_class\":");
                let joined = x.joined();
                push_json_string(&mut part, &joined);
                members.push(part);
            },
            None => {},
        }
        proof {
            assert(view_parts(members@) =~~= view_parts(pre) + (match self.asset_class { Some(x) => seq!["\"asset_class\":"@ + json_quote(spec_csv_text(x))], None => Seq::<Seq<char>>::empty() }));
        }
        let ghost pre = members@;
        match &self.before_order_id {
            Some(x) => {
                let mut part: Vec<char> = Vec::new();
                push_str_chars(&mut part, "\"before_order_id\":");
                push_json_string(&mut part, &x);
                members.push(part);
            },
            None => {},
        }
        proof {
            assert(view_parts(members@) =~~= view_parts(pre) + (match self.before_order_id { Some(x) => seq!["\"before_order_id\":"@ + json_quote(x@)], None => Seq::<Seq<char>>::empty() }));
        }
        proof {
            assert(view_parts(members@) =~~= view_parts(old(members)@) + spec_all_orders_query_members_1(*self));
        }
    }

    #[verifier::loop_isolation(false)]
    #[verifier::rlimit(100)]
    fn push_members_2(&self, members: &mut Vec<Vec<char>>)
        ensures
            view_parts(final(members)@) == view_parts(old(members)@)
                + spec_all_orders_query_members_2(*self),
    {
        let ghost pre = members@;
        match &self.after_order_id {
            Some(x) => {
                let mut part: Vec<char> = Vec::new();
                push_str_chars(&mut part, "\"after_order_id\":");
                push_json_string(&mut part, &x);
                members.push(part);
            },
            None => {},
        }
        proof {
            assert(view_parts(members@) =~~= view_parts(pre) + (match self.after_order_id { Some(x) => seq!["\"after_order_id\":"@ + json_quote(x@)], None => Seq::<Seq<char>>::empty() }));
        }
        proof {
            assert(view_parts(members@) =~~= view_parts(old(members)@) + spec_all_orders_query_members_2(*self));
        }
    }

    /// Appends the JSON body text.
    #[verifier::loop_isolation(false)]
    #[verifier::rlimit(100)]
    pub fn push_json(&self, out: &mut Vec<char>)
        ensures
            final(out)@ == old(out)@ + spec_all_orders_query_json(*self),
    {
        let mut members: Vec<Vec<char>> = Vec::new();
        self.push_members_0(&mut members);
        self.push_members_1(&mut members);
        self.push_members_2(&mut members);
        proof {
            assert(view_parts(members@) =~~= spec_all_orders_query_members(*self));
        }
        crate::json::push_obj(out, &members);
    }

    /// The exact JSON body text.
    pub fn to_json(&self) -> (r: String)
        ensures
            r@ == spec_all_orders_query_json(*self),
    {
        let mut out: Vec<char> = Vec::new();
        self.push_json(&mut out);
        chars_to_string(&out)
    }

    #[verifier::loop_isolation(false)]
    #[verifier::rlimit(100)]
    fn push_pairs_0(&self, pairs: &mut Vec<(String, String)>)
        ensures
            view_pairs(final(pairs)@) == view_pairs(old(pairs)@)
                + spec_all_orders_query_pairs_0(*self),
    {
        let ghost pre = pairs@;
        match &self.status {
            Some(x) => {
                let mut val: Vec<char> = Vec::new();
                push_str_chars(&mut val, x.to_wire());
                pairs.push((String::from_str("status"), chars_to_string(&val)));
            },
            None => {},
        }
        proof {
            assert(view_pairs(pairs@) =~~= view_pairs(pre) + (match self.status { Some(x) => seq![("status"@, spec_query_order_status_wire(x))], None => Seq::<(Seq<char>, Seq<char>)>::empty() }));
        }
        let ghost pre = pairs@;
        match &self.limit {
            Some(x) => {
                let mut val: Vec<char> = Vec::new();
                push_dec_u64(&mut val, *x as u64);
                pairs.push((String::from_str("limit"), chars_to_string(&val)));
            },
            None => {},
        }
        proof {
            assert(view_pairs(pairs@) =~~= view_pairs(pre) + (match self.limit { Some(x) => seq![("limit"@, dec_digits(x as nat))], None => Seq::<(Seq<char>, Seq<char>)>::empty() }));
        }
        let ghost pre = pairs@;
        match &self.after {
            Some(x) => {
                let mut val: Vec<char> = Vec::new();
                push_str_chars(&mut val, x.as_str());
                pairs.push((String::from_str("after"), chars_to_string(&val)));
            },
            None => {},
        }
        proof {
            assert(view_pairs(pairs@) =~~= view_pairs(pre) + (match self.after { Some(x) => seq![("after"@, x@)], None => Seq::<(Seq<char>, Seq<char>)>::empty() }));
        }
        let ghost pre = pairs@;
        match &self.until {
            Some(x) => {
                let mut val: Vec<char> = Vec::new();
                push_str_chars(&mut val, x.as_str());
                pairs.push((String::from_str("until"), chars_to_string(&val)));
            },
            None => {},
        }
        proof {
            assert(view_pairs(pairs@) =~~= view_pairs(pre) + (match self.until { Some(x) => seq![("until"@, x@)], None => Seq::<(Seq<char>, Seq<char>)>::empty() }));
        }
        let ghost pre = pairs@;
        match &self.direction {
            Some(x) => {
                let mut val: Vec<char> = Vec::new();
                push_str_chars(&mut val, x.to_wire());
                pairs.push((String::from_str("direction"), chars_to_string(&val)));
            },
            None => {},
        }
        proof {
            assert(view_pairs(pairs@) =~~= view_pairs(pre) + (match self.direction { Some(x) => seq![("direction"@, spec_orders_direction_wire(x))], None => Seq::<(Seq<char>, Seq<char>)>::empty() }));
        }
        proof {
            assert(view_pairs(pairs@) =~~= view_pairs(old(pairs)@) + spec_all_orders_query_pairs_0(*self));
        }
    }

    #[verifier::loop_isolation(false)]
    #[verifier::rlimit(100)]
    fn push_pairs_1(&self, pairs: &mut Vec<(String, String)>)
        ensures
            view_pairs(final(pairs)@) == view_pairs(old(pairs)@)
                + spec_all_orders_query_pairs_1(*self),
    {
        let ghost pre = pairs@;
        match &self.nested {
            Some(x) => {
                let mut val: Vec<char> = Vec::new();
                push_bool(&mut val, *x);
                pairs.push((String::from_str("nested"), chars_to_string(&val)));
            },
            None => {},
        }
        proof {
            assert(view_pairs(pairs@) =~~= view_pairs(pre) + (match self.nested { Some(x) => seq![("nested"@, bool_text(x))], None => Seq::<(Seq<char>, Seq<char>)>::empty() }));
        }
        let ghost pre = pairs@;
        match &self.symbols {
            Some(x) => {
                let mut val: Vec<char> = Vec::new();
                let joined = x.joined();
                push_str_chars(&mut val, joined.as_str());
                pairs.push((String::from_str("symbols"), chars_to_string(&val)));
            },
            None => {},
        }
        proof {
            assert(view_pairs(pairs@) =~~= view_pairs(pre) + (match self.symbols { Some(x) => seq![("symbols"@, spec_csv_text(x))], None => Seq::<(Seq<char>, Seq<char>)>::empty() }));
        }
        let ghost pre = pairs@;
        match &self.side {
            Some(x) => {
                let mut val: Vec<char> = Vec::new();
                push_str_chars(&mut val, x.to_wire());
                pairs.push((String::from_str("side"), chars_to_string(&val)));
            },
            None => {},
        }
        proof {
            assert(view_pairs(pairs@) =~~= view_pairs(pre) + (match self.side { Some(x) => seq![("side"@, spec_side_wire(x))], None => Seq::<(Seq<char>, Seq<char>)>::empty() }));
        }
        let ghost pre = pairs@;
        match &self.asset_class {
            Some(x) => {
                let mut val: Vec<char> = Vec::new();
                let joined = x.joined();
                push_str_chars(&mut val, joined.as_str());
                pairs.push((String::from_str("asset_class"), chars_to_string(&val)));
            },
            None => {},
        }
        proof {
            assert(view_pairs(pairs@) =~~= view_pairs(pre) + (match self.asset_class { Some(x) => seq![("asset_class"@, spec_csv_text(x))], None => Seq::<(Seq<char>, Seq<char>)>::empty() }));
        }
        let ghost pre = pairs@;
        match &self.before_order_id {
            Some(x) => {
                let mut val: Vec<char> = Vec::new();
                push_str_chars(&mut val, x.as_str());
                pairs.push((String::from_str("before_order_id"), chars_to_string(&val)));
            },
            None => {},
        }
        proof {
            assert(view_pairs(pairs@) =~~= view_pairs(pre) + (match self.before_order_id { Some(x) => seq![("before_order_id"@, x@)], None => Seq::<(Seq<char>, Seq<char>)>::empty() }));
        }
        proof {
            assert(view_pairs(pairs@) =~~= view_pairs(old(pairs)@) + spec_all_orders_query_pairs_1(*self));
        }
    }

    #[verifier::loop_isolation(false)]
    #[verifier::rlimit(100)]
    fn push_pairs_2(&self, pairs: &mut Vec<(String, String)>)
        ensures
            view_pairs(final(pairs)@) == view_pairs(old(pairs)@)
                + spec_all_orders_query_pairs_2(*self),
    {
        let ghost pre = pairs@;
        match &self.after_order_id {
            Some(x) => {
                let mut val: Vec<char> = Vec::new();
                push_str_chars(&mut val, x.as_str());
                pairs.push((String::from_str("after_order_id"), chars_to_string(&val)));
            },
            None => {},
        }
        proof {
            assert(view_pairs(pairs@) =~~= view_pairs(pre) + (match self.after_order_id { Some(x) => seq![("after_order_id"@, x@)], None => Seq::<(Seq<char>, Seq<char>)>::empty() }));
        }
        proof {
            assert(view_pairs(pairs@) =~~= view_pairs(old(pairs)@) + spec_all_orders_query_pairs_2(*self));
        }
    }

    /// The query pairs, in declaration order, omitting absent
    /// optionals.
    #[verifier::loop_isolation(false)]
    #[verifier::rlimit(100)]
    pub fn query_pairs(&self) -> (r: Vec<(String, String)>)
        ensures
            view_pairs(r@) == spec_all_orders_query_pairs(*self),
    {
        let mut pairs: Vec<(String, String)> = Vec::new();
        self.push_pairs_0(&mut pairs);
        self.push_pairs_1(&mut pairs);
        self.push_pairs_2(&mut pairs);
        proof {
            assert(view_pairs(pairs@) =~~= spec_all_orders_query_pairs(*self));
        }
        pairs
    }
}

/// The lookup key for an order by its client id.
#[derive(Debug, Clone, PartialEq)]
pub struct GetOrderByClientIdParameter {
    pub client_order_id: String,
}

/// The query pairs of a [`GetOrderByClientIdParameter`], in declaration order; an
/// absent optional contributes no pair.
pub open spec fn spec_get_order_by_client_id_pairs(p: GetOrderByClientIdParameter) -> Seq<(Seq<char>, Seq<char>)> {
    seq![("client_order_id"@, p.client_order_id@)]
}

impl GetOrderByClientIdParameter {
    /// The query pairs, in declaration order, omitting absent
    /// optionals.
    #[verifier::loop_isolation(false)]
    #[verifier::rlimit(100)]
    pub fn query_pairs(&self) -> (r: Vec<(String, String)>)
        ensures
            view_pairs(r@) == spec_get_order_by_client_id_pairs(*self),
    {
        let mut pairs: Vec<(String, String)> = Vec::new();
        let ghost pre = pairs@;
        {
            let mut val: Vec<char> = Vec::new();
            push_str_chars(&mut val, self.client_order_id.as_str());
            pairs.push((String::from_str("client_order_id"), chars_to_string(&val)));
        }
        proof {
            assert(view_pairs(pairs@) =~~= view_pairs(pre) + seq![("client_order_id"@, self.client_order_id@)]);
        }
        proof {
            assert(view_pairs(pairs@) =~~= seq![("client_order_id"@, self.client_order_id@)]);
        }
        pairs
    }
}

/// The take-profit half of a bracket order.
#[derive(Debug, Clone, PartialEq)]
pub struct TakeProfit {
    pub limit_price: Money,
}

/// The JSON members of a [`TakeProfit`], in declaration order.
pub open spec fn spec_take_profit_members(p: TakeProfit) -> Seq<Seq<char>> {
    seq!["\"limit_price\":"@ + quoted(money_text(p.limit_price@))]
}

/// The exact JSON body text of a [`TakeProfit`].
pub open spec fn spec_take_profit_json(p: TakeProfit) -> Seq<char> {
    obj_text(spec_take_profit_members(p))
}

impl TakeProfit {
    /// Appends the JSON body text.
    #[verifier::loop_isolation(false)]
    #[verifier::rlimit(100)]
    pub fn push_json(&self, out: &mut Vec<char>)
        ensures
            final(out)@ == old(out)@ + spec_take_profit_json(*self),
    {
        let mut members: Vec<Vec<char>> = Vec::new();
        let ghost pre = members@;
        {
            let mut part: Vec<char> = Vec::new();
            push_str_chars(&mut part, "\"limit_price\":");
            part.push('"');
            let mc = self.limit_price.wire_chars();
            push_chars(&mut part, &mc);
            part.push('"');
            members.push(part);
        }
        proof {
            assert(view_parts(members@) =~~= view_parts(pre) + seq!["\"limit_price\":"@ + quoted(money_text(self.limit_price@))]);
        }
        proof {
            assert(view_parts(members@) =~~= seq!["\"limit_price\":"@ + quoted(money_text(self.limit_price@))]);
        }
        crate::json::push_obj(out, &members);
    }

    /// The exact JSON body text.
    pub fn to_json(&self) -> (r: String)
        ensures
            r@ == spec_take_profit_json(*self),
    {
        let mut out: Vec<char> = Vec::new();
        self.push_json(&mut out);
        chars_to_string(&out)
    }
}

/// The stop-loss half of a bracket order.
#[derive(Debug, Clone, PartialEq)]
pub struct StopLoss {
    pub stop_price: Money,
    pub limit_price: Money,
}

/// The JSON members of a [`StopLoss`], in declaration order.
pub open spec fn spec_stop_loss_members(p: StopLoss) -> Seq<Seq<char>> {
    seq!["\"stop_price\":"@ + quoted(money_text(p.stop_price@))]
        + seq!["\"limit_price\":"@ + quoted(money_text(p.limit_price@))]
}

/// The exact JSON body text of a [`StopLoss`].
pub open spec fn spec_stop_loss_json(p: StopLoss) -> Seq<char> {
    obj_text(spec_stop_loss_members(p))
}

impl StopLoss {
    /// Appends the JSON body text.
    #[verifier::loop_isolation(false)]
    #[verifier::rlimit(100)]
    pub fn push_json(&self, out: &mut Vec<char>)
        ensures
            final(out)@ == old(out)@ + spec_stop_loss_json(*self),
    {
        let mut members: Vec<Vec<char>> = Vec::new();
        let ghost pre = members@;
        {
            let mut part: Vec<char> = Vec::new();
            push_str_chars(&mut part, "\"stop_price\":");
            part.push('"');
            let mc = self.stop_price.wire_chars();
            push_chars(&mut part, &mc);
            part.push('"');
            members.push(part);
        }
        proof {
            assert(view_parts(members@) =~~= view_parts(pre) + seq!["\"stop_price\":"@ + quoted(money_text(self.stop_price@))]);
        }
        let ghost pre = members@;
        {
            let mut part: Vec<char> = Vec::new();
            push_str_chars(&mut part, "\"limit_price\":");
            part.push('"');
            let mc = self.limit_price.wire_chars();
            push_chars(&mut part, &mc);
            part.push('"');
            members.push(part);
        }
        proof {
            assert(view_parts(members@) =~~= view_parts(pre) + seq!["\"limit_price\":"@ + quoted(money_text(self.limit_price@))]);
        }
        proof {
            assert(view_parts(members@) =~~= seq!["\"stop_price\":"@ + quoted(money_text(self.stop_price@))]
            + seq!["\"limit_price\":"@ + quoted(money_text(self.limit_price@))]);
        }
        crate::json::push_obj(out, &members);
    }

    /// The exact JSON body text.
    pub fn to_json(&self) -> (r: String)
        ensures
            r@ == spec_stop_loss_json(*self),
    {
        let mut out: Vec<char> = Vec::new();
        self.push_json(&mut out);
        chars_to_string(&out)
    }
}

/// One leg of a multi-leg order.
#[derive(Debug, Clone, PartialEq)]
pub struct Leg {
    pub side: Side,
    pub position_intent: PositionIntent,
    pub symbol: String,
    pub ratio_qty: String,
}

/// The JSON members of a [`Leg`], in declaration order.
pub open spec fn spec_leg_members(p: Leg) -> Seq<Seq<char>> {
    seq!["\"side\":"@ + quoted(spec_side_wire(p.side))]
        + seq!["\"position_intent\":"@ + quoted(spec_position_intent_wire(p.position_intent))]
        + seq!["\"symbol\":"@ + json_quote(p.symbol@)]
        + seq!["\"ratio_qty\":"@ + json_quote(p.ratio_qty@)]
}

/// The exact JSON body text of a [`Leg`].
pub open spec fn spec_leg_json(p: Leg) -> Seq<char> {
    obj_text(spec_leg_members(p))
}

impl Leg {
    /// Appends the JSON body text.
    #[verifier::loop_isolation(false)]
    #[verifier::rlimit(100)]
    pub fn push_json(&self, out: &mut Vec<char>)
        ensures
            final(out)@ == old(out)@ + spec_leg_json(*self),
    {
        let mut members: Vec<Vec<char>> = Vec::new();
        let ghost pre = members@;
        {
            let mut part: Vec<char> = Vec::new();
            push_str_chars(&mut part, "\"side\":");
            part.push('"');
            push_str_chars(&mut part, self.side.to_wire());
            part.push('"');
            members.push(part);
        }
        proof {
            assert(view_parts(members@) =~~= view_parts(pre) + seq!["\"side\":"@ + quoted(spec_side_wire(self.side))]);
        }
        let ghost pre = members@;
        {
            let mut part: Vec<char> = Vec::new();
            push_str_chars(&mut part, "\"position_intent\":");
            part.push('"');
            push_str_chars(&mut part, self.position_intent.to_wire());
            part.push('"');
            members.push(part);
        }
        proof {
            assert(view_parts(members@) =~~= view_parts(pre) + seq!["\"position_intent\":"@ + quoted(spec_position_intent_wire(self.position_intent))]);
        }
        let ghost pre = members@;
        {
            let mut part: Vec<char> = Vec::new();
            push_str_chars(&mut part, "\"symbol\":");
            push_json_string(&mut part, &self.symbol);
            members.push(part);
        }
        proof {
            assert(view_parts(members@) =~~= view_parts(pre) + seq!["\"symbol\":"@ + json_quote(self.symbol@)]);
        }
        let ghost pre = members@;
        {
            let mut part: Vec<char> = Vec::new();
            push_str_chars(&mut part, "\"ratio_qty\":");
            push_json_string(&mut part, &self.ratio_qty);
            members.push(part);
        }
        proof {
            assert(view_parts(members@) =~~= view_parts(pre) + seq!["\"ratio_qty\":"@ + json_quote(self.ratio_qty@)]);
        }
        proof {
            assert(view_parts(members@) =~~= seq!["\"side\":"@ + quoted(spec_side_wire(self.side))]
            + seq!["\"position_intent\":"@ + quoted(spec_position_intent_wire(self.position_intent))]
            + seq!["\"symbol\":"@ + json_quote(self.symbol@)]
            + seq!["\"ratio_qty\":"@ + json_quote(self.ratio_qty@)]);
        }
        crate::json::push_obj(out, &members);
    }

    /// The exact JSON body text.
    pub fn to_json(&self) -> (r: String)
        ensures
            r@ == spec_leg_json(*self),
    {
        let mut out: Vec<char> = Vec::new();
        self.push_json(&mut out);
        chars_to_string(&out)
    }
}

/// A new-order request body.
#[derive(Debug, Clone, PartialEq)]
pub struct OrderRequestBody {
    pub symbol: String,
    pub qty: Option<NumberAsString>,
    pub notional: Option<Money>,
    pub side: Side,
    pub _type: OrderType,
    pub time_in_force: TimeInForce,
    pub limit_price: Option<Money>,
    pub stop_price: Option<Money>,
    pub trail_price: Option<Money>,
    pub trail_percent: Option<Money>,
    pub extended_hours: bool,
    pub client_order_id: Option<String>,
    pub order_class: Option<OrderClass>,
    pub legs: Vec<Leg>,
    pub take_profit: Option<TakeProfit>,
    pub stop_loss: Option<StopLoss>,
    pub position_intent: Option<PositionIntent>,
}

/// One run of the JSON members of a [`OrderRequestBody`].
pub open spec fn spec_order_request_members_0(p: OrderRequestBody) -> Seq<Seq<char>> {
    seq!["\"symbol\":"@ + json_quote(p.symbol@)]
        + (match p.qty { Some(x) => seq!["\"qty\":"@ + quoted(money_text(x@))], None => Seq::<Seq<char>>::empty() })
        + (match p.notional { Some(x) => seq!["\"notional\":"@ + quoted(money_text(x@))], None => Seq::<Seq<char>>::empty() })
        + seq!["\"side\":"@ + quoted(spec_side_wire(p.side))]
        + seq!["\"type\":"@ + quoted(spec_order_type_wire(p._type))]
}

/// One run of the JSON members of a [`OrderRequestBody`].
pub open spec fn spec_order_request_members_1(p: OrderRequestBody) -> Seq<Seq<char>> {
    seq!["\"time_in_force\":"@ + quoted(spec_time_in_force_wire(p.time_in_force))]
        + (match p.limit_price { Some(x) => seq!["\"limit_price\":"@ + quoted(money_text(x@))], None => Seq::<Seq<char>>::empty() })
        + (match p.stop_price { Some(x) => seq!["\"stop_price\":"@ + quoted(money_text(x@))], None => Seq::<Seq<char>>::empty() })
        + (match p.trail_price { Some(x) => seq!["\"trail_price\":"@ + quoted(money_text(x@))], None => Seq::<Seq<char>>::empty() })
        + (match p.trail_percent { Some(x) => seq!["\"trail_percent\":"@ + quoted(money_text(x@))], None => Seq::<Seq<char>>::empty() })
}

/// One run of the JSON members of a [`OrderRequestBody`].
pub open spec fn spec_order_request_members_2(p: OrderRequestBody) -> Seq<Seq<char>> {
    seq!["\"extended_hours\":"@ + bool_text(p.extended_hours)]
        + seq!["\"client_order_id\":"@ + (match p.client_order_id { Some(x) => json_quote(x@), None => "null"@ })]
        + seq!["\"order_class\":"@ + (match p.order_class { Some(x) => quoted(spec_order_class_wire(x)), None => "null"@ })]
        + (if p.legs@.len() > 0 { seq!["\"legs\":"@ + arr_text(view_parts_of_legs(p.legs@))] } else { Seq::<Seq<char>>::empty() })
        + seq!["\"take_profit\":"@ + (match p.take_profit { Some(x) => spec_take_profit_json(x), None => "null"@ })]
}

/// One run of the JSON members of a [`OrderRequestBody`].
pub open spec fn spec_order_request_members_3(p: OrderRequestBody) -> Seq<Seq<char>> {
    seq!["\"stop_loss\":"@ + (match p.stop_loss { Some(x) => spec_stop_loss_json(x), None => "null"@ })]
        + seq!["\"position_intent\":"@ + (match p.position_intent { Some(x) => quoted(spec_position_intent_wire(x)), None => "null"@ })]
}

/// The JSON members of a [`OrderRequestBody`], in declaration order.
pub open spec fn spec_order_request_members(p: OrderRequestBody) -> Seq<Seq<char>> {
    spec_order_request_members_0(p) + spec_order_request_members_1(p) + spec_order_request_members_2(p) + spec_order_request_members_3(p)
}

/// The exact JSON body text of a [`OrderRequestBody`].
pub open spec fn spec_order_request_json(p: OrderRequestBody) -> Seq<char> {
    obj_text(spec_order_request_members(p))
}

impl OrderRequestBody {
    #[verifier::loop_isolation(false)]
    #[verifier::rlimit(100)]
    fn push_members_0(&self, members: &mut Vec<Vec<char>>)
        ensures
            view_parts(final(members)@) == view_parts(old(members)@)
                + spec_order_request_members_0(*self),
    {
        let ghost pre = members@;
        {
            let mut part: Vec<char> = Vec::new();
            push_str_chars(&mut part, "\"symbol\":");
            push_json_string(&mut part, &self.symbol);
            members.push(part);
        }
        proof {
            assert(view_parts(members@) =~~= view_parts(pre) + seq!["\"symbol\":"@ + json_quote(self.symbol@)]);
        }
        let ghost pre = members@;
        match &self.qty {
            Some(x) => {
                let mut part: Vec<char> = Vec::new();
                push_str_chars(&mut part, "\"qty\":");
                part.push('"');
                let mc = x.wire_chars();
                push_chars(&mut part, &mc);
                part.push('"');
                members.push(part);
            },
            None => {},
        }
        proof {
            assert(view_parts(members@) =~~= view_parts(pre) + (match self.qty { Some(x) => seq!["\"qty\":"@ + quoted(money_text(x@))], None => Seq::<Seq<char>>::empty() }));
        }
        let ghost pre = members@;
        match &self.notional {
            Some(x) => {
                let mut part: Vec<char> = Vec::new();
                push_str_chars(&mut part, "\"notional\":");
                part.push('"');
                let mc = x.wire_chars();
                push_chars(&mut part, &mc);
                part.push('"');
                members.push(part);
            },
            None => {},
        }
        proof {
            assert(view_parts(members@) =~~= view_parts(pre) + (match self.notional { Some(x) => seq!["\"notional\":"@ + quoted(money_text(x@))], None => Seq::<Seq<char>>::empty() }));
        }
        let ghost pre = members@;
        {
            let mut part: Vec<char> = Vec::new();
            push_str_chars(&mut part, "\"side\":");
            part.push('"');
            push_str_chars(&mut part, self.side.to_wire());
            part.push('"');
            members.push(part);
        }
        proof {
            assert(view_parts(members@) =~~= view_parts(pre) + seq!["\"side\":"@ + quoted(spec_side_wire(self.side))]);
        }
        let ghost pre = members@;
        {
            let mut part: Vec<char> = Vec::new();
            push_str_chars(&mut part, "\"type\":");
            part.push('"');
            push_str_chars(&mut part, self._type.to_wire());
            part.push('"');
            members.push(part);
        }
        proof {
            assert(view_parts(members@) =~~= view_parts(pre) + seq!["\"type\":"@ + quoted(spec_order_type_wire(self._type))]);
        }
        proof {
            assert(view_parts(members@) =~~= view_parts(old(members)@) + spec_order_request_members_0(*self));
        }
    }

    #[verifier::loop_isolation(false)]
    #[verifier::rlimit(100)]
    fn push_members_1(&self, members: &mut Vec<Vec<char>>)
        ensures
            view_parts(final(members)@) == view_parts(old(members)@)
                + spec_order_request_members_1(*self),
    {
        let ghost pre = members@;
        {
            let mut part: Vec<char> = Vec::new();
            push_str_chars(&mut part, "\"time_in_force\":");
            part.push('"');
            push_str_chars(&mut part, self.time_in_force.to_wire());
            part.push('"');
            members.push(part);
        }
        proof {
            assert(view_parts(members@) =~~= view_parts(pre) + seq!["\"time_in_force\":"@ + quoted(spec_time_in_force_wire(self.time_in_force))]);
        }
        let ghost pre = members@;
        match &self.limit_price {
            Some(x) => {
                let mut part: Vec<char> = Vec::new();
                push_str_chars(&mut part, "\"limit_price\":");
                part.push('"');
                let mc = x.wire_chars();
                push_chars(&mut part, &mc);
                part.push('"');
                members.push(part);
            },
            None => {},
        }
        proof {
            assert(view_parts(members@) =~~= view_parts(pre) + (match self.limit_price { Some(x) => seq!["\"limit_price\":"@ + quoted(money_text(x@))], None => Seq::<Seq<char>>::empty() }));
        }
        let ghost pre = members@;
        match &self.stop_price {
            Some(x) => {
                let mut part: Vec<char> = Vec::new();
                push_str_chars(&mut part, "\"stop_price\":");
                part.push('"');
                let mc = x.wire_chars();
                push_chars(&mut part, &mc);
                part.push('"');
                members.push(part);
            },
            None => {},
        }
        proof {
            assert(view_parts(members@) =~~= view_parts(pre) + (match self.stop_price { Some(x) => seq!["\"stop_price\":"@ + quoted(money_text(x@))], None => Seq::<Seq<char>>::empty() }));
        }
        let ghost pre = members@;
        match &self.trail_price {
            Some(x) => {
                let mut part: Vec<char> = Vec::new();
                push_str_chars(&mut part, "\"trail_price\":");
                part.push('"');
                let mc = x.wire_chars();
                push_chars(&mut part, &mc);
                part.push('"');
                members.push(part);
            },
            None => {},
        }
        proof {
            assert(view_parts(members@) =~~= view_parts(pre) + (match self.trail_price { Some(x) => seq!["\"trail_price\":"@ + quoted(money_text(x@))], None => Seq::<Seq<char>>::empty() }));
        }
        let ghost pre = members@;
        match &self.trail_percent {
            Some(x) => {
                let mut part: Vec<char> = Vec::new();
                push_str_chars(&mut part, "\"trail_percent\":");
                part.push('"');
                let mc = x.wire_chars();
                push_chars(&mut part, &mc);
                part.push('"');
                members.push(part);
            },
            None => {},
        }
        proof {
            assert(view_parts(members@) =~~= view_parts(pre) + (match self.trail_percent { Some(x) => seq!["\"trail_percent\":"@ + quoted(money_text(x@))], None => Seq::<Seq<char>>::empty() }));
        }
        proof {
            assert(view_parts(members@) =~~= view_parts(old(members)@) + spec_order_request_members_1(*self));
        }
    }

    #[verifier::loop_isolation(false)]
    #[verifier::rlimit(100)]
    fn push_members_2(&self, members: &mut Vec<Vec<char>>)
        ensures
            view_parts(final(members)@) == view_parts(old(members)@)
                + spec_order_request_members_2(*self),
    {
        let ghost pre = members@;
        {
            let mut part: Vec<char> = Vec::new();
            push_str_chars(&mut part, "\"extended_hours\":");
            push_bool(&mut part, self.extended_hours);
            members.push(part);
        }
        proof {
            assert(view_parts(members@) =~~= view_parts(pre) + seq!["\"extended_hours\":"@ + bool_text(self.extended_hours)]);
        }
        let ghost pre = members@;
        {
            let mut part: Vec<char> = Vec::new();
            push_str_chars(&mut part, "\"client_order_id\":");
            match &self.client_order_id {
                Some(x) => {
                    push_json_string(&mut part, &x);
                },
                None => {
                    push_str_chars(&mut part, "null");
                },
            }
            members.push(part);
        }
        proof {
            assert(view_parts(members@) =~~= view_parts(pre) + seq!["\"client_order_id\":"@ + (match self.client_order_id { Some(x) => json_quote(x@), None => "null"@ })]);
        }
        let ghost pre = members@;
        {
            let mut part: Vec<char> = Vec::new();
            push_str_chars(&mut part, "\"order_class\":");
            match &self.order_class {
                Some(x) => {
                    part.push('"');
                    push_str_chars(&mut part, x.to_wire());
                    part.push('"');
                },
                None => {
                    push_str_chars(&mut part, "null");
                },
            }
            members.push(part);
        }
        proof {
            assert(view_parts(members@) =~~= view_parts(pre) + seq!["\"order_class\":"@ + (match self.order_class { Some(x) => quoted(spec_order_class_wire(x)), None => "null"@ })]);
        }
        let ghost pre = members@;
        if self.legs.len() > 0 {
            let mut part: Vec<char> = Vec::new();
            push_str_chars(&mut part, "\"legs\":");
            push_leg_arr(&mut part, &self.legs);
            members.push(part);
        }
        proof {
            assert(view_parts(members@) =~~= view_parts(pre) + (if self.legs@.len() > 0 { seq!["\"legs\":"@ + arr_text(view_parts_of_legs(self.legs@))] } else { Seq::<Seq<char>>::empty() }));
        }
        let ghost pre = members@;
        {
            let mut part: Vec<char> = Vec::new();
            push_str_chars(&mut part, "\"take_profit\":");
            match &self.take_profit {
                Some(x) => {
                    x.push_json(&mut part);
                },
                None => {
                    push_str_chars(&mut part, "null");
                },
            }
            members.push(part);
        }
        proof {
            assert(view_parts(members@) =~~= view_parts(pre) + seq!["\"take_profit\":"@ + (match self.take_profit { Some(x) => spec_take_profit_json(x), None => "null"@ })]);
        }
        proof {
            assert(view_parts(members@) =~~= view_parts(old(members)@) + spec_order_request_members_2(*self));
        }
    }

    #[verifier::loop_isolation(false)]
    #[verifier::rlimit(100)]
    fn push_members_3(&self, members: &mut Vec<Vec<char>>)
        ensures
            view_parts(final(members)@) == view_parts(old(members)@)
                + spec_order_request_members_3(*self),
    {
        let ghost pre = members@;
        {
            let mut part: Vec<char> = Vec::new();
            push_str_chars(&mut part, "\"stop_loss\":");
            match &self.stop_loss {
                Some(x) => {
                    x.push_json(&mut part);
                },
                None => {
                    push_str_chars(&mut part, "null");
                },
            }
            members.push(part);
        }
        proof {
            assert(view_parts(members@) =~~= view_parts(pre) + seq!["\"stop_loss\":"@ + (match self.stop_loss { Some(x) => spec_stop_loss_json(x), None => "null"@ })]);
        }
        let ghost pre = members@;
        {
            let mut part: Vec<char> = Vec::new();
            push_str_chars(&mut part, "\"position_intent\":");
            match &self.position_intent {
                Some(x) => {
                    part.push('"');
                    push_str_chars(&mut part, x.to_wire());
                    part.push('"');
                },
                None => {
                    push_str_chars(&mut part, "null");
                },
            }
            members.push(part);
        }
        proof {
            assert(view_parts(members@) =~~= view_parts(pre) + seq!["\"position_intent\":"@ + (match self.position_intent { Some(x) => quoted(spec_position_intent_wire(x)), None => "null"@ })]);
        }
        proof {
            assert(view_parts(members@) =~~= view_parts(old(members)@) + spec_order_request_members_3(*self));
        }
    }

    /// Appends the JSON body text.
    #[verifier::loop_isolation(false)]
    #[verifier::rlimit(100)]
    pub fn push_json(&self, out: &mut Vec<char>)
        ensures
            final(out)@ == old(out)@ + spec_order_request_json(*self),
    {
        let mut members: Vec<Vec<char>> = Vec::new();
        self.push_members_0(&mut members);
        self.push_members_1(&mut members);
        self.push_members_2(&mut members);
        self.push_members_3(&mut members);
        proof {
            assert(view_parts(members@) =~~= spec_order_request_members(*self));
        }
        crate::json::push_obj(out, &members);
    }

    /// The exact JSON body text.
    pub fn to_json(&self) -> (r: String)
        ensures
            r@ == spec_order_request_json(*self),
    {
        let mut out: Vec<char> = Vec::new();
        self.push_json(&mut out);
        chars_to_string(&out)
    }
}

/// A replace-order request body.
#[derive(Debug, Clone, PartialEq)]
pub struct ReplaceOrderByIdRequestBody {
    pub qty: NumberAsString,
    pub time_in_force: TimeInForce,
    pub limit_price: Money,
    pub stop_price: Money,
    pub trail: Money,
    pub client_order_id: String,
}

/// The JSON members of a [`ReplaceOrderByIdRequestBody`], in declaration order.
pub open spec fn spec_replace_order_request_members(p: ReplaceOrderByIdRequestBody) -> Seq<Seq<char>> {
    seq!["\"qty\":"@ + quoted(money_text(p.qty@))]
        + seq!["\"time_in_force\":"@ + quoted(spec_time_in_force_wire(p.time_in_force))]
        + seq!["\"limit_price\":"@ + quoted(money_text(p.limit_price@))]
        + seq!["\"stop_price\":"@ + quoted(money_text(p.stop_price@))]
        + seq!["\"trail\":"@ + quoted(money_text(p.trail@))]
        + seq!["\"client_order_id\":"@ + json_quote(p.client_order_id@)]
}

/// The exact JSON body text of a [`ReplaceOrderByIdRequestBody`].
pub open spec fn spec_replace_order_request_json(p: ReplaceOrderByIdRequestBody) -> Seq<char> {
    obj_text(spec_replace_order_request_members(p))
}

impl ReplaceOrderByIdRequestBody {
    /// Appends the JSON body text.
    #[verifier::loop_isolation(false)]
    #[verifier::rlimit(100)]
    pub fn push_json(&self, out: &mut Vec<char>)
        ensures
            final(out)@ == old(out)@ + spec_replace_order_request_json(*self),
    {
        let mut members: Vec<Vec<char>> = Vec::new();
        let ghost pre = members@;
        {
            let mut part: Vec<char> = Vec::new();
            push_str_chars(&mut part, "\"qty\":");
            part.push('"');
            let mc = self.qty.wire_chars();
            push_chars(&mut part, &mc);
            part.push('"');
            members.push(part);
        }
        proof {
            assert(view_parts(members@) =~~= view_parts(pre) + seq!["\"qty\":"@ + quoted(money_text(self.qty@))]);
        }
        let ghost pre = members@;
        {
            let mut part: Vec<char> = Vec::new();
            push_str_chars(&mut part, "\"time_in_force\":");
            part.push('"');
            push_str_chars(&mut part, self.time_in_force.to_wire());
            part.push('"');
            members.push(part);
        }
        proof {
            assert(view_parts(members@) =~~= view_parts(pre) + seq!["\"time_in_force\":"@ + quoted(spec_time_in_force_wire(self.time_in_force))]);
        }
        let ghost pre = members@;
        {
            let mut part: Vec<char> = Vec::new();
            push_str_chars(&mut part, "\"limit_price\":");
            part.push('"');
            let mc = self.limit_price.wire_chars();
            push_chars(&mut part, &mc);
            part.push('"');
            members.push(part);
        }
        proof {
            assert(view_parts(members@) =~~= view_parts(pre) + seq!["\"limit_price\":"@ + quoted(money_text(self.limit_price@))]);
        }
        let ghost pre = members@;
        {
            let mut part: Vec<char> = Vec::new();
            push_str_chars(&mut part, "\"stop_price\":");
            part.push('"');
            let mc = self.stop_price.wire_chars();
            push_chars(&mut part, &mc);
            part.push('"');
            members.push(part);
        }
        proof {
            assert(view_parts(members@) =~~= view_parts(pre) + seq!["\"stop_price\":"@ + quoted(money_text(self.stop_price@))]);
        }
        let ghost pre = members@;
        {
            let mut part: Vec<char> = Vec::new();
            push_str_chars(&mut part, "\"trail\":");
            part.push('"');
            let mc = self.trail.wire_chars();
            push_chars(&mut part, &mc);
            part.push('"');
            members.push(part);
        }
        proof {
            assert(view_parts(members@) =~~= view_parts(pre) + seq!["\"trail\":"@ + quoted(money_text(self.trail@))]);
        }
        let ghost pre = members@;
        {
            let mut part: Vec<char> = Vec::new();
            push_str_chars(&mut part, "\"client_order_id\":");
            push_json_string(&mut part, &self.client_order_id);
            members.push(part);
        }
        proof {
            assert(view_parts(members@) =~~= view_parts(pre) + seq!["\"client_order_id\":"@ + json_quote(self.client_order_id@)]);
        }
        proof {
            assert(view_parts(members@) =~~= seq!["\"qty\":"@ + quoted(money_text(self.qty@))]
            + seq!["\"time_in_force\":"@ + quoted(spec_time_in_force_wire(self.time_in_force))]
            + seq!["\"limit_price\":"@ + quoted(money_text(self.limit_price@))]
            + seq!["\"stop_price\":"@ + quoted(money_text(self.stop_price@))]
            + seq!["\"trail\":"@ + quoted(money_text(self.trail@))]
            + seq!["\"client_order_id\":"@ + json_quote(self.client_order_id@)]);
        }
        crate::json::push_obj(out, &members);
    }

    /// The exact JSON body text.
    pub fn to_json(&self) -> (r: String)
        ensures
            r@ == spec_replace_order_request_json(*self),
    {
        let mut out: Vec<char> = Vec::new();
        self.push_json(&mut out);
        chars_to_string(&out)
    }
}

/// Filters for the portfolio history.
#[derive(Debug, Clone, PartialEq)]
pub struct PortfolioHistoryQueryParameter {
    pub period: Option<HistoryPeriod>,
    pub timeframe: Option<HistoryTimeFrame>,
    pub intraday_reporting: Option<IntradayReporting>,
    pub start: Option<Timestamp>,
    pub pnl_reset: Option<PnlReset>,
    pub end: Option<Timestamp>,
    pub extended_hours: Option<String>,
    pub cashflow_types: Option<CashflowTypes>,
}

/// One run of the JSON members of a [`PortfolioHistoryQueryParameter`].
pub open spec fn spec_portfolio_history_query_members_0(p: PortfolioHistoryQueryParameter) -> Seq<Seq<char>> {
    (match p.period { Some(x) => seq!["\"period\":"@ + quoted(spec_history_period_wire(x))], None => Seq::<Seq<char>>::empty() })
        + (match p.timeframe { Some(x) => seq!["\"timeframe\":"@ + quoted(spec_history_timeframe_wire(x))], None => Seq::<Seq<char>>::empty() })
        + (match p.intraday_reporting { Some(x) => seq!["\"intraday_reporting\":"@ + quoted(spec_intraday_reporting_wire(x))], None => Seq::<Seq<char>>::empty() })
        + (match p.start { Some(x) => seq!["\"start\":"@ + quoted(timestamp_text(x))], None => Seq::<Seq<char>>::empty() })
        + (match p.pnl_reset { Some(x) => seq!["\"pnl_reset\":"@ + quoted(spec_pnl_reset_wire(x))], None => Seq::<Seq<char>>::empty() })
}

/// One run of the JSON members of a [`PortfolioHistoryQueryParameter`].
pub open spec fn spec_portfolio_history_query_members_1(p: PortfolioHistoryQueryParameter) -> Seq<Seq<char>> {
    (match p.end { Some(x) => seq!["\"end\":"@ + quoted(timestamp_text(x))], None => Seq::<Seq<char>>::empty() })
        + (match p.extended_hours { Some(x) => seq!["\"extended_hours\":"@ + json_quote(x@)], None => Seq::<Seq<char>>::empty() })
        + (match p.cashflow_types { Some(x) => seq!["\"cashflow_types\":"@ + spec_cashflow_types_json(x)], None => Seq::<Seq<char>>::empty() })
}

/// The JSON members of a [`PortfolioHistoryQueryParameter`], in declaration order.
pub open spec fn spec_portfolio_history_query_members(p: PortfolioHistoryQueryParameter) -> Seq<Seq<char>> {
    spec_portfolio_history_query_members_0(p) + spec_portfolio_history_query_members_1(p)
}

/// The exact JSON body text of a [`PortfolioHistoryQueryParameter`].
pub open spec fn spec_portfolio_history_query_json(p: PortfolioHistoryQueryParameter) -> Seq<char> {
    obj_text(spec_portfolio_history_query_members(p))
}

/// One run of the query pairs of a [`PortfolioHistoryQueryParameter`].
pub open spec fn spec_portfolio_history_query_pairs_0(p: PortfolioHistoryQueryParameter) -> Seq<(Seq<char>, Seq<char>)> {
    (match p.period { Some(x) => seq![("period"@, spec_history_period_wire(x))], None => Seq::<(Seq<char>, Seq<char>)>::empty() })
        + (match p.timeframe { Some(x) => seq![("timeframe"@, spec_history_timeframe_wire(x))], None => Seq::<(Seq<char>, Seq<char>)>::empty() })
        + (match p.intraday_reporting { Some(x) => seq![("intraday_reporting"@, spec_intraday_reporting_wire(x))], None => Seq::<(Seq<char>, Seq<char>)>::empty() })
        + (match p.start { Some(x) => seq![("start"@, timestamp_text(x))], None => Seq::<(Seq<char>, Seq<char>)>::empty() })
        + (match p.pnl_reset { Some(x) => seq![("pnl_reset"@, spec_pnl_reset_wire(x))], None => Seq::<(Seq<char>, Seq<char>)>::empty() })
}

/// One run of the query pairs of a [`PortfolioHistoryQueryParameter`].
pub open spec fn spec_portfolio_history_query_pairs_1(p: PortfolioHistoryQueryParameter) -> Seq<(Seq<char>, Seq<char>)> {
    (match p.end { Some(x) => seq![("end"@, timestamp_text(x))], None => Seq::<(Seq<char>, Seq<char>)>::empty() })
        + (match p.extended_hours { Some(x) => seq![("extended_hours"@, x@)], None => Seq::<(Seq<char>, Seq<char>)>::empty() })
        + (match p.cashflow_types { Some(x) => seq![("cashflow_types"@, spec_cashflow_types_wire(x))], None => Seq::<(Seq<char>, Seq<char>)>::empty() })
}

/// The query pairs of a [`PortfolioHistoryQueryParameter`], in declaration order; an
/// absent optional contributes no pair.
pub open spec fn spec_portfolio_history_query_pairs(p: PortfolioHistoryQueryParameter) -> Seq<(Seq<char>, Seq<char>)> {
    spec_portfolio_history_query_pairs_0(p) + spec_portfolio_history_query_pairs_1(p)
}

impl PortfolioHistoryQueryParameter {
    #[verifier::loop_isolation(false)]
    #[verifier::rlimit(100)]
    fn push_members_0(&self, members: &mut Vec<Vec<char>>)
        requires
            self.start matches Some(t) ==> t.wf(),
        ensures
            view_parts(final(members)@) == view_parts(old(members)@)
                + spec_portfolio_history_query_members_0(*self),
    {
        let ghost pre = members@;
        match &self.period {
            Some(x) => {
                let mut part: Vec<char> = Vec::new();
                push_str_chars(&mut part, "\"period\":");
                part.push('"');
                let pc = x.wire_chars();
                push_chars(&mut part, &pc);
                part.push('"');
                members.push(part);
            },
            None => {},
        }
        proof {
            assert(view_parts(members@) =~~= view_parts(pre) + (match self.period { Some(x) => seq!["\"period\":"@ + quoted(spec_history_period_wire(x))], None => Seq::<Seq<char>>::empty() }));
        }
        let ghost pre = members@;
        match &self.timeframe {
            Some(x) => {
                let mut part: Vec<char> = Vec::new();
                push_str_chars(&mut part, "\"timeframe\":");
                part.push('"');
                let tc = x.wire_chars();
                push_chars(&mut part, &tc);
                part.push('"');
                members.push(part);
            },
            None => {},
        }
        proof {
            assert(view_parts(members@) =~~= view_parts(pre) + (match self.timeframe { Some(x) => seq!["\"timeframe\":"@ + quoted(spec_history_timeframe_wire(x))], None => Seq::<Seq<char>>::empty() }));
        }
        let ghost pre = members@;
        match &self.intraday_reporting {
            Some(x) => {
                let mut part: Vec<char> = Vec::new();
                push_str_chars(&mut part, "\"intraday_reporting\":");
                part.push('"');
                push_str_chars(&mut part, x.to_wire());
                part.push('"');
                members.push(part);
            },
            None => {},
        }
        proof {
            assert(view_parts(members@) =~~= view_parts(pre) + (match self.intraday_reporting { Some(x) => seq!["\"intraday_reporting\":"@ + quoted(spec_intraday_reporting_wire(x))], None => Seq::<Seq<char>>::empty() }));
        }
        let ghost pre = members@;
        match &self.start {
            Some(x) => {
                let mut part: Vec<char> = Vec::new();
                push_str_chars(&mut part, "\"start\":");
                part.push('"');
                let tc = x.wire_chars();
                push_chars(&mut part, &tc);
                part.push('"');
                members.push(part);
            },
            None => {},
        }
        proof {
            assert(view_parts(members@) =~~= view_parts(pre) + (match self.start { Some(x) => seq!["\"start\":"@ + quoted(timestamp_text(x))], None => Seq::<Seq<char>>::empty() }));
        }
        let ghost pre = members@;
        match &self.pnl_reset {
            Some(x) => {
                let mut part: Vec<char> = Vec::new();
                push_str_chars(&mut part, "\"pnl_reset\":");
                part.push('"');
                push_str_chars(&mut part, x.to_wire());
                part.push('"');
                members.push(part);
            },
            None => {},
        }
        proof {
            assert(view_parts(members@) =~~= view_parts(pre) + (match self.pnl_reset { Some(x) => seq!["\"pnl_reset\":"@ + quoted(spec_pnl_reset_wire(x))], None => Seq::<Seq<char>>::empty() }));
        }
        proof {
            assert(view_parts(members@) =~~= view_parts(old(members)@) + spec_portfolio_history_query_members_0(*self));
        }
    }

    #[verifier::loop_isolation(false)]
    #[verifier::rlimit(100)]
    fn push_members_1(&self, members: &mut Vec<Vec<char>>)
        requires
            self.end matches Some(t) ==> t.wf(),
        ensures
            view_parts(final(members)@) == view_parts(old(members)@)
                + spec_portfolio_history_query_members_1(*self),
    {
        let ghost pre = members@;
        match &self.end {
            Some(x) => {
                let mut part: Vec<char> = Vec::new();
                push_str_chars(&mut part, "\"end\":");
                part.push('"');
                let tc = x.wire_chars();
                push_chars(&mut part, &tc);
                part.push('"');
                members.push(part);
            },
            None => {},
        }
        proof {
            assert(view_parts(members@) =~~= view_parts(pre) + (match self.end { Some(x) => seq!["\"end\":"@ + quoted(timestamp_text(x))], None => Seq::<Seq<char>>::empty() }));
        }
        let ghost pre = members@;
        match &self.extended_hours {
            Some(x) => {
                let mut part: Vec<char> = Vec::new();
                push_str_chars(&mut part, "\"extended_hours\":");
                push_json_string(&mut part, &x);
                members.push(part);
            },
            None => {},
        }
        proof {
            assert(view_parts(members@) =~~= view_parts(pre) + (match self.extended_hours { Some(x) => seq!["\"extended_hours\":"@ + json_quote(x@)], None => Seq::<Seq<char>>::empty() }));
        }
        let ghost pre = members@;
        match &self.cashflow_types {
            Some(x) => {
                let mut part: Vec<char> = Vec::new();
                push_str_chars(&mut part, "\"cashflow_types\":");
                x.push_json(&mut part);
                members.push(part);
            },
            None => {},
        }
        proof {
            assert(view_parts(members@) =~~= view_parts(pre) + (match self.cashflow_types { Some(x) => seq!["\"cashflow_types\":"@ + spec_cashflow_types_json(x)], None => Seq::<Seq<char>>::empty() }));
        }
        proof {
            assert(view_parts(members@) =~~= view_parts(old(members)@) + spec_portfolio_history_query_members_1(*self));
        }
    }

    /// Appends the JSON body text.
    #[verifier::loop_isolation(false)]
    #[verifier::rlimit(100)]
    pub fn push_json(&self, out: &mut Vec<char>)
        requires
            self.start matches Some(t) ==> t.wf(),
            self.end matches Some(t) ==> t.wf(),
        ensures
            final(out)@ == old(out)@ + spec_portfolio_history_query_json(*self),
    {
        let mut members: Vec<Vec<char>> = Vec::new();
        self.push_members_0(&mut members);
        self.push_members_1(&mut members);
        proof {
            assert(view_parts(members@) =~~= spec_portfolio_history_query_members(*self));
        }
        crate::json::push_obj(out, &members);
    }

    /// The exact JSON body text.
    pub fn to_json(&self) -> (r: String)
        requires
            self.start matches Some(t) ==> t.wf(),
            self.end matches Some(t) ==> t.wf(),
        ensures
            r@ == spec_portfolio_history_query_json(*self),
    {
        let mut out: Vec<char> = Vec::new();
        self.push_json(&mut out);
        chars_to_string(&out)
    }

    #[verifier::loop_isolation(false)]
    #[verifier::rlimit(100)]
    fn push_pairs_0(&self, pairs: &mut Vec<(String, String)>)
        requires
            self.start matches Some(t) ==> t.wf(),
        ensures
            view_pairs(final(pairs)@) == view_pairs(old(pairs)@)
                + spec_portfolio_history_query_pairs_0(*self),
    {
        let ghost pre = pairs@;
        match &self.period {
            Some(x) => {
                let mut val: Vec<char> = Vec::new();
                let pc = x.wire_chars();
                push_chars(&mut val, &pc);
                pairs.push((String::from_str("period"), chars_to_string(&val)));
            },
            None => {},
        }
        proof {
            assert(view_pairs(pairs@) =~~= view_pairs(pre) + (match self.period { Some(x) => seq![("period"@, spec_history_period_wire(x))], None => Seq::<(Seq<char>, Seq<char>)>::empty() }));
        }
        let ghost pre = pairs@;
        match &self.timeframe {
            Some(x) => {
                let mut val: Vec<char> = Vec::new();
                let tc = x.wire_chars();
                push_chars(&mut val, &tc);
                pairs.push((String::from_str("timeframe"), chars_to_string(&val)));
            },
            None => {},
        }
        proof {
            assert(view_pairs(pairs@) =~~= view_pairs(pre) + (match self.timeframe { Some(x) => seq![("timeframe"@, spec_history_timeframe_wire(x))], None => Seq::<(Seq<char>, Seq<char>)>::empty() }));
        }
        let ghost pre = pairs@;
        match &self.intraday_reporting {
            Some(x) => {
                let mut val: Vec<char> = Vec::new();
                push_str_chars(&mut val, x.to_wire());
                pairs.push((String::from_str("intraday_reporting"), chars_to_string(&val)));
            },
            None => {},
        }
        proof {
            assert(view_pairs(pairs@) =~~= view_pairs(pre) + (match self.intraday_reporting { Some(x) => seq![("intraday_reporting"@, spec_intraday_reporting_wire(x))], None => Seq::<(Seq<char>, Seq<char>)>::empty() }));
        }
        let ghost pre = pairs@;
        match &self.start {
            Some(x) => {
                let mut val: Vec<char> = Vec::new();
                let tc = x.wire_chars();
                push_chars(&mut val, &tc);
                pairs.push((String::from_str("start"), chars_to_string(&val)));
            },
            None => {},
        }
        proof {
            assert(view_pairs(pairs@) =~~= view_pairs(pre) + (match self.start { Some(x) => seq![("start"@, timestamp_text(x))], None => Seq::<(Seq<char>, Seq<char>)>::empty() }));
        }
        let ghost pre = pairs@;
        match &self.pnl_reset {
            Some(x) => {
                let mut val: Vec<char> = Vec::new();
                push_str_chars(&mut val, x.to_wire());
                pairs.push((String::from_str("pnl_reset"), chars_to_string(&val)));
            },
            None => {},
        }
        proof {
            assert(view_pairs(pairs@) =~~= view_pairs(pre) + (match self.pnl_reset { Some(x) => seq![("pnl_reset"@, spec_pnl_reset_wire(x))], None => Seq::<(Seq<char>, Seq<char>)>::empty() }));
        }
        proof {
            assert(view_pairs(pairs@) =~~= view_pairs(old(pairs)@) + spec_portfolio_history_query_pairs_0(*self));
        }
    }

    #[verifier::loop_isolation(false)]
    #[verifier::rlimit(100)]
    fn push_pairs_1(&self, pairs: &mut Vec<(String, String)>)
        requires
            self.end matches Some(t) ==> t.wf(),
        ensures
            view_pairs(final(pairs)@) == view_pairs(old(pairs)@)
                + spec_portfolio_history_query_pairs_1(*self),
    {
        let ghost pre = pairs@;
        match &self.end {
            Some(x) => {
                let mut val: Vec<char> = Vec::new();
                let tc = x.wire_chars();
                push_chars(&mut val, &tc);
                pairs.push((String::from_str("end"), chars_to_string(&val)));
            },
            None => {},
        }
        proof {
            assert(view_pairs(pairs@) =~~= view_pairs(pre) + (match self.end { Some(x) => seq![("end"@, timestamp_text(x))], None => Seq::<(Seq<char>, Seq<char>)>::empty() }));
        }
        let ghost pre = pairs@;
        match &self.extended_hours {
            Some(x) => {
                let mut val: Vec<char> = Vec::new();
                push_str_chars(&mut val, x.as_str());
                pairs.push((String::from_str("extended_hours"), chars_to_string(&val)));
            },
            None => {},
        }
        proof {
            assert(view_pairs(pairs@) =~~= view_pairs(pre) + (match self.extended_hours { Some(x) => seq![("extended_hours"@, x@)], None => Seq::<(Seq<char>, Seq<char>)>::empty() }));
        }
        let ghost pre = pairs@;
        match &self.cashflow_types {
            Some(x) => {
                let mut val: Vec<char> = Vec::new();
                x.push_wire(&mut val);
                pairs.push((String::from_str("cashflow_types"), chars_to_string(&val)));
            },
            None => {},
        }
        proof {
            assert(view_pairs(pairs@) =~~= view_pairs(pre) + (match self.cashflow_types { Some(x) => seq![("cashflow_types"@, spec_cashflow_types_wire(x))], None => Seq::<(Seq<char>, Seq<char>)>::empty() }));
        }
        proof {
            assert(view_pairs(pairs@) =~~= view_pairs(old(pairs)@) + spec_portfolio_history_query_pairs_1(*self));
        }
    }

    /// The query pairs, in declaration order, omitting absent
    /// optionals.
    #[verifier::loop_isolation(false)]
    #[verifier::rlimit(100)]
    pub fn query_pairs(&self) -> (r: Vec<(String, String)>)
        requires
            self.start matches Some(t) ==> t.wf(),
            self.end matches Some(t) ==> t.wf(),
        ensures
            view_pairs(r@) == spec_portfolio_history_query_pairs(*self),
    {
        let mut pairs: Vec<(String, String)> = Vec::new();
        self.push_pairs_0(&mut pairs);
        self.push_pairs_1(&mut pairs);
        proof {
            assert(view_pairs(pairs@) =~~= spec_portfolio_history_query_pairs(*self));
        }
        pairs
    }
}

/// A create-or-update watchlist body.
#[derive(Debug, Clone, PartialEq)]
pub struct WatchListReqBody {
    pub name: String,
    pub symbols: Vec<String>,
}

/// The JSON members of a [`WatchListReqBody`], in declaration order.
pub open spec fn spec_watch_list_req_members(p: WatchListReqBody) -> Seq<Seq<char>> {
    seq!["\"name\":"@ + json_quote(p.name@)]
        + seq!["\"symbols\":"@ + arr_text(json_quote_all(view_str_seq(p.symbols@)))]
}

/// The exact JSON body text of a [`WatchListReqBody`].
pub open spec fn spec_watch_list_req_json(p: WatchListReqBody) -> Seq<char> {
    obj_text(spec_watch_list_req_members(p))
}

impl WatchListReqBody {
    /// Appends the JSON body text.
    #[verifier::loop_isolation(false)]
    #[verifier::rlimit(100)]
    pub fn push_json(&self, out: &mut Vec<char>)
        ensures
            final(out)@ == old(out)@ + spec_watch_list_req_json(*self),
    {
        let mut members: Vec<Vec<char>> = Vec::new();
        let ghost pre = members@;
        {
            let mut part: Vec<char> = Vec::new();
            push_str_chars(&mut part, "\"name\":");
            push_json_string(&mut part, &self.name);
            members.push(part);
        }
        proof {
            assert(view_parts(members@) =~~= view_parts(pre) + seq!["\"name\":"@ + json_quote(self.name@)]);
        }
        let ghost pre = members@;
        {
            let mut part: Vec<char> = Vec::new();
            push_str_chars(&mut part, "\"symbols\":");
            push_str_arr(&mut part, &self.symbols);
            members.push(part);
        }
        proof {
            assert(view_parts(members@) =~~= view_parts(pre) + seq!["\"symbols\":"@ + arr_text(json_quote_all(view_str_seq(self.symbols@)))]);
        }
        proof {
            assert(view_parts(members@) =~~= seq!["\"name\":"@ + json_quote(self.name@)]
            + seq!["\"symbols\":"@ + arr_text(json_quote_all(view_str_seq(self.symbols@)))]);
        }
        crate::json::push_obj(out, &members);
    }

    /// The exact JSON body text.
    pub fn to_json(&self) -> (r: String)
        ensures
            r@ == spec_watch_list_req_json(*self),
    {
        let mut out: Vec<char> = Vec::new();
        self.push_json(&mut out);
        chars_to_string(&out)
    }
}

/// An add-asset-to-watchlist body.
#[derive(Debug, Clone, PartialEq)]
pub struct AddAssetReqBody {
    pub symbol: String,
}

/// The JSON members of a [`AddAssetReqBody`], in declaration order.
pub open spec fn spec_add_asset_req_members(p: AddAssetReqBody) -> Seq<Seq<char>> {
    seq!["\"symbol\":"@ + json_quote(p.symbol@)]
}

/// The exact JSON body text of a [`AddAssetReqBody`].
pub open spec fn spec_add_asset_req_json(p: AddAssetReqBody) -> Seq<char> {
    obj_text(spec_add_asset_req_members(p))
}

impl AddAssetReqBody {
    /// Appends the JSON body text.
    #[verifier::loop_isolation(false)]
    #[verifier::rlimit(100)]
    pub fn push_json(&self, out: &mut Vec<char>)
        ensures
            final(out)@ == old(out)@ + spec_add_asset_req_json(*self),
    {
        let mut members: Vec<Vec<char>> = Vec::new();
        let ghost pre = members@;
        {
            let mut part: Vec<char> = Vec::new();
            push_str_chars(&mut part, "\"symbol\":");
            push_json_string(&mut part, &self.symbol);
            members.push(part);
        }
        proof {
            assert(view_parts(members@) =~~= view_parts(pre) + seq!["\"symbol\":"@ + json_quote(self.symbol@)]);
        }
        proof {
            assert(view_parts(members@) =~~= seq!["\"symbol\":"@ + json_quote(self.symbol@)]);
        }
        crate::json::push_obj(out, &members);
    }

    /// The exact JSON body text.
    pub fn to_json(&self) -> (r: String)
        ensures
            r@ == spec_add_asset_req_json(*self),
    {
        let mut out: Vec<char> = Vec::new();
        self.push_json(&mut out);
        chars_to_string(&out)
    }
}

/// A crypto withdrawal body.
#[derive(Debug, Clone, PartialEq)]
pub struct WithdrawalReqBody {
    pub amount: Money,
    pub address: String,
    pub asset: String,
}

/// The JSON members of a [`WithdrawalReqBody`], in declaration order.
pub open spec fn spec_withdrawal_req_members(p: WithdrawalReqBody) -> Seq<Seq<char>> {
    seq!["\"amount\":"@ + quoted(money_text(p.amount@))]
        + seq!["\"address\":"@ + json_quote(p.address@)]
        + seq!["\"asset\":"@ + json_quote(p.asset@)]
}

/// The exact JSON body text of a [`WithdrawalReqBody`].
pub open spec fn spec_withdrawal_req_json(p: WithdrawalReqBody) -> Seq<char> {
    obj_text(spec_withdrawal_req_members(p))
}

impl WithdrawalReqBody {
    /// Appends the JSON body text.
    #[verifier::loop_isolation(false)]
    #[verifier::rlimit(100)]
    pub fn push_json(&self, out: &mut Vec<char>)
        ensures
            final(out)@ == old(out)@ + spec_withdrawal_req_json(*self),
    {
        let mut members: Vec<Vec<char>> = Vec::new();
        let ghost pre = members@;
        {
            let mut part: Vec<char> = Vec::new();
            push_str_chars(&mut part, "\"amount\":");
            part.push('"');
            let mc = self.amount.wire_chars();
            push_chars(&mut part, &mc);
            part.push('"');
            members.push(part);
        }
        proof {
            assert(view_parts(members@) =~~= view_parts(pre) + seq!["\"amount\":"@ + quoted(money_text(self.amount@))]);
        }
        let ghost pre = members@;
        {
            let mut part: Vec<char> = Vec::new();
            push_str_chars(&mut part, "\"address\":");
            push_json_string(&mut part, &self.address);
            members.push(part);
        }
        proof {
            assert(view_parts(members@) =~~= view_parts(pre) + seq!["\"address\":"@ + json_quote(self.address@)]);
        }
        let ghost pre = members@;
        {
            let mut part: Vec<char> = Vec::new();
            push_str_chars(&mut part, "\"asset\":");
            push_json_string(&mut part, &self.asset);
            members.push(part);
        }
        proof {
            assert(view_parts(members@) =~~= view_parts(pre) + seq!["\"asset\":"@ + json_quote(self.asset@)]);
        }
        proof {
            assert(view_parts(members@) =~~= seq!["\"amount\":"@ + quoted(money_text(self.amount@))]
            + seq!["\"address\":"@ + json_quote(self.address@)]
            + seq!["\"asset\":"@ + json_quote(self.asset@)]);
        }
        crate::json::push_obj(out, &members);
    }

    /// The exact JSON body text.
    pub fn to_json(&self) -> (r: String)
        ensures
            r@ == spec_withdrawal_req_json(*self),
    {
        let mut out: Vec<char> = Vec::new();
        self.push_json(&mut out);
        chars_to_string(&out)
    }
}

/// A new whitelisted-address body.
#[derive(Debug, Clone, PartialEq)]
pub struct WhitelistedAddressReqBody {
    pub address: String,
    pub asset: String,
}

/// The JSON members of a [`WhitelistedAddressReqBody`], in declaration order.
pub open spec fn spec_whitelisted_address_req_members(p: WhitelistedAddressReqBody) -> Seq<Seq<char>> {
    seq!["\"address\":"@ + json_quote(p.address@)]
        + seq!["\"asset\":"@ + json_quote(p.asset@)]
}

/// The exact JSON body text of a [`WhitelistedAddressReqBody`].
pub open spec fn spec_whitelisted_address_req_json(p: WhitelistedAddressReqBody) -> Seq<char> {
    obj_text(spec_whitelisted_address_req_members(p))
}

impl WhitelistedAddressReqBody {
    /// Appends the JSON body text.
    #[verifier::loop_isolation(false)]
    #[verifier::rlimit(100)]
    pub fn push_json(&self, out: &mut Vec<char>)
        ensures
            final(out)@ == old(out)@ + spec_whitelisted_address_req_json(*self),
    {
        let mut members: Vec<Vec<char>> = Vec::new();
        let ghost pre = members@;
        {
            let mut part: Vec<char> = Vec::new();
            push_str_chars(&mut part, "\"address\":");
            push_json_string(&mut part, &self.address);
            members.push(part);
        }
        proof {
            assert(view_parts(members@) =~~= view_parts(pre) + seq!["\"address\":"@ + json_quote(self.address@)]);
        }
        let ghost pre = members@;
        {
            let mut part: Vec<char> = Vec::new();
            push_str_chars(&mut part, "\"asset\":");
            push_json_string(&mut part, &self.asset);
            members.push(part);
        }
        proof {
            assert(view_parts(members@) =~~= view_parts(pre) + seq!["\"asset\":"@ + json_quote(self.asset@)]);
        }
        proof {
            assert(view_parts(members@) =~~= seq!["\"address\":"@ + json_quote(self.address@)]
            + seq!["\"asset\":"@ + json_quote(self.asset@)]);
        }
        crate::json::push_obj(out, &members);
    }

    /// The exact JSON body text.
    pub fn to_json(&self) -> (r: String)
        ensures
            r@ == spec_whitelisted_address_req_json(*self),
    {
        let mut out: Vec<char> = Vec::new();
        self.push_json(&mut out);
        chars_to_string(&out)
    }
}

/// Filters for listing funding wallets.
#[derive(Debug, Clone, PartialEq)]
pub struct FundingWalletsParameter {
    pub asset: Option<String>,
    pub network: Option<CryptonNetwork>,
}

/// The query pairs of a [`FundingWalletsParameter`], in declaration order; an
/// absent optional contributes no pair.
pub open spec fn spec_funding_wallets_pairs(p: FundingWalletsParameter) -> Seq<(Seq<char>, Seq<char>)> {
    (match p.asset { Some(x) => seq![("asset"@, x@)], None => Seq::<(Seq<char>, Seq<char>)>::empty() })
        + (match p.network { Some(x) => seq![("network"@, spec_crypton_network_wire(x))], None => Seq::<(Seq<char>, Seq<char>)>::empty() })
}

impl FundingWalletsParameter {
    /// The query pairs, in declaration order, omitting absent
    /// optionals.
    #[verifier::loop_isolation(false)]
    #[verifier::rlimit(100)]
    pub fn query_pairs(&self) -> (r: Vec<(String, String)>)
        ensures
            view_pairs(r@) == spec_funding_wallets_pairs(*self),
    {
        let mut pairs: Vec<(String, String)> = Vec::new();
        let ghost pre = pairs@;
        match &self.asset {
            Some(x) => {
                let mut val: Vec<char> = Vec::new();
                push_str_chars(&mut val, x.as_str());
                pairs.push((String::from_str("asset"), chars_to_string(&val)));
            },
            None => {},
        }
        proof {
            assert(view_pairs(pairs@) =~~= view_pairs(pre) + (match self.asset { Some(x) => seq![("asset"@, x@)], None => Seq::<(Seq<char>, Seq<char>)>::empty() }));
        }
        let ghost pre = pairs@;
        match &self.network {
            Some(x) => {
                let mut val: Vec<char> = Vec::new();
                push_str_chars(&mut val, x.to_wire());
                pairs.push((String::from_str("network"), chars_to_string(&val)));
            },
            None => {},
        }
        proof {
            assert(view_pairs(pairs@) =~~= view_pairs(pre) + (match self.network { Some(x) => seq![("network"@, spec_crypton_network_wire(x))], None => Seq::<(Seq<char>, Seq<char>)>::empty() }));
        }
        proof {
            assert(view_pairs(pairs@) =~~= (match self.asset { Some(x) => seq![("asset"@, x@)], None => Seq::<(Seq<char>, Seq<char>)>::empty() })
            + (match self.network { Some(x) => seq![("network"@, spec_crypton_network_wire(x))], None => Seq::<(Seq<char>, Seq<char>)>::empty() }));
        }
        pairs
    }
}

/// Filters for a network fee estimate.
#[derive(Debug, Clone, PartialEq)]
pub struct ReturnGasFeeParameter {
    pub asset: Option<String>,
    pub from_address: Option<String>,
    pub to_address: Option<String>,
    pub amount: Option<Money>,
}

/// The query pairs of a [`ReturnGasFeeParameter`], in declaration order; an
/// absent optional contributes no pair.
pub open spec fn spec_return_gas_fee_pairs(p: ReturnGasFeeParameter) -> Seq<(Seq<char>, Seq<char>)> {
    (match p.asset { Some(x) => seq![("asset"@, x@)], None => Seq::<(Seq<char>, Seq<char>)>::empty() })
        + (match p.from_address { Some(x) => seq![("from_address"@, x@)], None => Seq::<(Seq<char>, Seq<char>)>::empty() })
        + (match p.to_address { Some(x) => seq![("to_address"@, x@)], None => Seq::<(Seq<char>, Seq<char>)>::empty() })
        + (match p.amount { Some(x) => seq![("amount"@, money_text(x@))], None => Seq::<(Seq<char>, Seq<char>)>::empty() })
}

impl ReturnGasFeeParameter {
    /// The query pairs, in declaration order, omitting absent
    /// optionals.
    #[verifier::loop_isolation(false)]
    #[verifier::rlimit(100)]
    pub fn query_pairs(&self) -> (r: Vec<(String, String)>)
        ensures
            view_pairs(r@) == spec_return_gas_fee_pairs(*self),
    {
        let mut pairs: Vec<(String, String)> = Vec::new();
        let ghost pre = pairs@;
        match &self.asset {
            Some(x) => {
                let mut val: Vec<char> = Vec::new();
                push_str_chars(&mut val, x.as_str());
                pairs.push((String::from_str("asset"), chars_to_string(&val)));
            },
            None => {},
        }
        proof {
            assert(view_pairs(pairs@) =~~= view_pairs(pre) + (match self.asset { Some(x) => seq![("asset"@, x@)], None => Seq::<(Seq<char>, Seq<char>)>::empty() }));
        }
        let ghost pre = pairs@;
        match &self.from_address {
            Some(x) => {
                let mut val: Vec<char> = Vec::new();
                push_str_chars(&mut val, x.as_str());
                pairs.push((String::from_str("from_address"), chars_to_string(&val)));
            },
            None => {},
        }
        proof {
            assert(view_pairs(pairs@) =~~= view_pairs(pre) + (match self.from_address { Some(x) => seq![("from_address"@, x@)], None => Seq::<(Seq<char>, Seq<char>)>::empty() }));
        }
        let ghost pre = pairs@;
        match &self.to_address {
            Some(x) => {
                let mut val: Vec<char> = Vec::new();
                push_str_chars(&mut val, x.as_str());
                pairs.push((String::from_str("to_address"), chars_to_string(&val)));
            },
            None => {},
        }
        proof {
            assert(view_pairs(pairs@) =~~= view_pairs(pre) + (match self.to_address { Some(x) => seq![("to_address"@, x@)], None => Seq::<(Seq<char>, Seq<char>)>::empty() }));
        }
        let ghost pre = pairs@;
        match &self.amount {
            Some(x) => {
                let mut val: Vec<char> = Vec::new();
                let mc = x.wire_chars();
                push_chars(&mut val, &mc);
                pairs.push((String::from_str("amount"), chars_to_string(&val)));
            },
            None => {},
        }
        proof {
            assert(view_pairs(pairs@) =~~= view_pairs(pre) + (match self.amount { Some(x) => seq![("amount"@, money_text(x@))], None => Seq::<(Seq<char>, Seq<char>)>::empty() }));
        }
        proof {
            assert(view_pairs(pairs@) =~~= (match self.asset { Some(x) => seq![("asset"@, x@)], None => Seq::<(Seq<char>, Seq<char>)>::empty() })
            + (match self.from_address { Some(x) => seq![("from_address"@, x@)], None => Seq::<(Seq<char>, Seq<char>)>::empty() })
            + (match self.to_address { Some(x) => seq![("to_address"@, x@)], None => Seq::<(Seq<char>, Seq<char>)>::empty() })
            + (match self.amount { Some(x) => seq![("amount"@, money_text(x@))], None => Seq::<(Seq<char>, Seq<char>)>::empty() }));
        }
        pairs
    }
}

} // verus!
