//! The broker's enum-valued wire fields.
//!
//! Each enum carries its closed variant set, the variant-to-token mapping
//! the broker documents (the casing convention differs per field: upper
//! case, lower case, or snake case), and the reverse reading where the
//! broker sends the field back. Reading any undeclared token fails; the
//! one exception is the order class, where the broker sends an empty
//! string for a plain order, which reads as the [`OrderClass::Empty`]
//! sentinel.

use vstd::prelude::*;

use crate::text::str_eq;

verus! {

/// An asset's listing status.
#[derive(Debug, Clone, Copy, PartialEq, Eq)]
pub enum Status {
    Active,
    Inactive,
}

/// The wire token of each [`Status`] variant.
pub open spec fn spec_status_wire(v: Status) -> Seq<char> {
    match v {
        Status::Active => "active"@,
        Status::Inactive => "inactive"@,
    }
}

/// The [`Status`] variant a wire token denotes, if any.
pub open spec fn spec_status_from_wire(s: Seq<char>) -> Option<Status> {
    if s == "active"@ {
        Some(Status::Active)
    } else if s == "inactive"@ {
        Some(Status::Inactive)
    } else {
        None
    }
}

impl Status {
    /// The wire token of this variant.
    pub fn to_wire(&self) -> (r: &'static str)
        ensures
            r@ == spec_status_wire(*self),
    {
        match self {
            Status::Active => "active",
            Status::Inactive => "inactive",
        }
    }

    /// Reads a wire token; `None` for any undeclared token.
    pub fn from_wire(s: &str) -> (r: Option<Status>)
        ensures
            r == spec_status_from_wire(s@),
    {
        if str_eq(s, "active") {
            Some(Status::Active)
        } else if str_eq(s, "inactive") {
            Some(Status::Inactive)
        } else {
            None
        }
    }
}

/// Reading back the wire token of any variant gives that variant.
pub proof fn lemma_status_round_trip(v: Status)
    ensures
        spec_status_from_wire(spec_status_wire(v)) == Some(v),
{
    reveal_strlit("active");
    reveal_strlit("inactive");
    assert("active"@.len() == 6);
    assert("inactive"@.len() == 8);
    match v {
        Status::Active => {
            assert(spec_status_from_wire("active"@) == Some(Status::Active));
        },
        Status::Inactive => {
            assert(spec_status_from_wire("inactive"@) == Some(Status::Inactive));
        },
    }
}

/// The class an asset belongs to.
#[derive(Debug, Clone, Copy, PartialEq, Eq)]
pub enum AssetClass {
    UsEquity,
    UsOption,
    Crypto,
}

/// The wire token of each [`AssetClass`] variant.
pub open spec fn spec_asset_class_wire(v: AssetClass) -> Seq<char> {
    match v {
        AssetClass::UsEquity => "us_equity"@,
        AssetClass::UsOption => "us_option"@,
        AssetClass::Crypto => "crypto"@,
    }
}

/// The [`AssetClass`] variant a wire token denotes, if any.
pub open spec fn spec_asset_class_from_wire(s: Seq<char>) -> Option<AssetClass> {
    if s == "us_equity"@ {
        Some(AssetClass::UsEquity)
    } else if s == "us_option"@ {
        Some(AssetClass::UsOption)
    } else if s == "crypto"@ {
        Some(AssetClass::Crypto)
    } else {
        None
    }
}

impl AssetClass {
    /// The wire token of this variant.
    pub fn to_wire(&self) -> (r: &'static str)
        ensures
            r@ == spec_asset_class_wire(*self),
    {
        match self {
            AssetClass::UsEquity => "us_equity",
            AssetClass::UsOption => "us_option",
            AssetClass::Crypto => "crypto",
        }
    }

    /// Reads a wire token; `None` for any undeclared token.
    pub fn from_wire(s: &str) -> (r: Option<AssetClass>)
        ensures
            r == spec_asset_class_from_wire(s@),
    {
        if str_eq(s, "us_equity") {
            Some(AssetClass::UsEquity)
        } else if str_eq(s, "us_option") {
            Some(AssetClass::UsOption)
        } else if str_eq(s, "crypto") {
            Some(AssetClass::Crypto)
        } else {
            None
        }
    }
}

/// Reading back the wire token of any variant gives that variant.
pub proof fn lemma_asset_class_round_trip(v: AssetClass)
    ensures
        spec_asset_class_from_wire(spec_asset_class_wire(v)) == Some(v),
{
    reveal_strlit("us_equity");
    reveal_strlit("us_option");
    reveal_strlit("crypto");
    assert("us_equity"@.len() == 9);
    assert("us_option"@.len() == 9);
    assert("crypto"@.len() == 6);
    assert("us_equity"@[3] == 'e');
    assert("us_option"@[3] == 'o');
    match v {
        AssetClass::UsEquity => {
            assert(spec_asset_class_from_wire("us_equity"@) == Some(AssetClass::UsEquity));
        },
        AssetClass::UsOption => {
            assert(spec_asset_class_from_wire("us_option"@) == Some(AssetClass::UsOption));
        },
        AssetClass::Crypto => {
            assert(spec_asset_class_from_wire("crypto"@) == Some(AssetClass::Crypto));
        },
    }
}

/// The account currency.
#[derive(Debug, Clone, Copy, PartialEq, Eq)]
pub enum Currency {
    USD,
}

/// The wire token of each [`Currency`] variant.
pub open spec fn spec_currency_wire(v: Currency) -> Seq<char> {
    match v {
        Currency::USD => "USD"@,
    }
}

/// The [`Currency`] variant a wire token denotes, if any.
pub open spec fn spec_currency_from_wire(s: Seq<char>) -> Option<Currency> {
    if s == "USD"@ {
        Some(Currency::USD)
    } else {
        None
    }
}

impl Currency {
    /// The wire token of this variant.
    pub fn to_wire(&self) -> (r: &'static str)
        ensures
            r@ == spec_currency_wire(*self),
    {
        match self {
            Currency::USD => "USD",
        }
    }

    /// Reads a wire token; `None` for any undeclared token.
    pub fn from_wire(s: &str) -> (r: Option<Currency>)
        ensures
            r == spec_currency_from_wire(s@),
    {
        if str_eq(s, "USD") {
            Some(Currency::USD)
        } else {
            None
        }
    }
}

/// Reading back the wire token of any variant gives that variant.
pub proof fn lemma_currency_round_trip(v: Currency)
    ensures
        spec_currency_from_wire(spec_currency_wire(v)) == Some(v),
{
    reveal_strlit("USD");
    assert("USD"@.len() == 3);
    match v {
        Currency::USD => {
            assert(spec_currency_from_wire("USD"@) == Some(Currency::USD));
        },
    }
}

/// The exchange an asset is listed on.
#[derive(Debug, Clone, Copy, PartialEq, Eq)]
pub enum Exchange {
    NYSE,
    NASDAQ,
    AMEX,
    ARCA,
    BATS,
    IEXG,
    OTC,
    PINK,
    CBOE,
    CRYPTO,
}

/// The wire token of each [`Exchange`] variant.
pub open spec fn spec_exchange_wire(v: Exchange) -> Seq<char> {
    match v {
        Exchange::NYSE => "NYSE"@,
        Exchange::NASDAQ => "NASDAQ"@,
        Exchange::AMEX => "AMEX"@,
        Exchange::ARCA => "ARCA"@,
        Exchange::BATS => "BATS"@,
        Exchange::IEXG => "IEXG"@,
        Exchange::OTC => "OTC"@,
        Exchange::PINK => "PINK"@,
        Exchange::CBOE => "CBOE"@,
        Exchange::CRYPTO => "CRYPTO"@,
    }
}

/// The [`Exchange`] variant a wire token denotes, if any.
pub open spec fn spec_exchange_from_wire(s: Seq<char>) -> Option<Exchange> {
    if s == "NYSE"@ {
        Some(Exchange::NYSE)
    } else if s == "NASDAQ"@ {
        Some(Exchange::NASDAQ)
    } else if s == "AMEX"@ {
        Some(Exchange::AMEX)
    } else if s == "ARCA"@ {
        Some(Exchange::ARCA)
    } else if s == "BATS"@ {
        Some(Exchange::BATS)
    } else if s == "IEXG"@ {
        Some(Exchange::IEXG)
    } else if s == "OTC"@ {
        Some(Exchange::OTC)
    } else if s == "PINK"@ {
        Some(Exchange::PINK)
    } else if s == "CBOE"@ {
        Some(Exchange::CBOE)
    } else if s == "CRYPTO"@ {
        Some(Exchange::CRYPTO)
    } else {
        None
    }
}

impl Exchange {
    /// The wire token of this variant.
    pub fn to_wire(&self) -> (r: &'static str)
        ensures
            r@ == spec_exchange_wire(*self),
    {
        match self {
            Exchange::NYSE => "NYSE",
            Exchange::NASDAQ => "NASDAQ",
            Exchange::AMEX => "AMEX",
            Exchange::ARCA => "ARCA",
            Exchange::BATS => "BATS",
            Exchange::IEXG => "IEXG",
            Exchange::OTC => "OTC",
            Exchange::PINK => "PINK",
            Exchange::CBOE => "CBOE",
            Exchange::CRYPTO => "CRYPTO",
        }
    }

    /// Reads a wire token; `None` for any undeclared token.
    pub fn from_wire(s: &str) -> (r: Option<Exchange>)
        ensures
            r == spec_exchange_from_wire(s@),
    {
        if str_eq(s, "NYSE") {
            Some(Exchange::NYSE)
        } else if str_eq(s, "NASDAQ") {
            Some(Exchange::NASDAQ)
        } else if str_eq(s, "AMEX") {
            Some(Exchange::AMEX)
        } else if str_eq(s, "ARCA") {
            Some(Exchange::ARCA)
        } else if str_eq(s, "BATS") {
            Some(Exchange::BATS)
        } else if str_eq(s, "IEXG") {
            Some(Exchange::IEXG)
        } else if str_eq(s, "OTC") {
            Some(Exchange::OTC)
        } else if str_eq(s, "PINK") {
            Some(Exchange::PINK)
        } else if str_eq(s, "CBOE") {
            Some(Exchange::CBOE)
        } else if str_eq(s, "CRYPTO") {
            Some(Exchange::CRYPTO)
        } else {
            None
        }
    }
}

/// Reading back the wire token of any variant gives that variant.
pub proof fn lemma_exchange_round_trip(v: Exchange)
    ensures
        spec_exchange_from_wire(spec_exchange_wire(v)) == Some(v),
{
    reveal_strlit("NYSE");
    reveal_strlit("NASDAQ");
    reveal_strlit("AMEX");
    reveal_strlit("ARCA");
    reveal_strlit("BATS");
    reveal_strlit("IEXG");
    reveal_strlit("OTC");
    reveal_strlit("PINK");
    reveal_strlit("CBOE");
    reveal_strlit("CRYPTO");
    assert("NYSE"@.len() == 4);
    assert("NASDAQ"@.len() == 6);
    assert("AMEX"@.len() == 4);
    assert("ARCA"@.len() == 4);
    assert("BATS"@.len() == 4);
    assert("IEXG"@.len() == 4);
    assert("OTC"@.len() == 3);
    assert("PINK"@.len() == 4);
    assert("CBOE"@.len() == 4);
    assert("CRYPTO"@.len() == 6);
    assert("NYSE"@[0] == 'N');
    assert("AMEX"@[0] == 'A');
    assert("ARCA"@[0] == 'A');
    assert("BATS"@[0] == 'B');
    assert("IEXG"@[0] == 'I');
    assert("PINK"@[0] == 'P');
    assert("CBOE"@[0] == 'C');
    assert("NASDAQ"@[0] == 'N');
    assert("CRYPTO"@[0] == 'C');
    assert("AMEX"@[1] == 'M');
    assert("ARCA"@[1] == 'R');
    match v {
        Exchange::NYSE => {
            assert(spec_exchange_from_wire("NYSE"@) == Some(Exchange::NYSE));
        },
        Exchange::NASDAQ => {
            assert(spec_exchange_from_wire("NASDAQ"@) == Some(Exchange::NASDAQ));
        },
        Exchange::AMEX => {
            assert(spec_exchange_from_wire("AMEX"@) == Some(Exchange::AMEX));
        },
        Exchange::ARCA => {
            assert(spec_exchange_from_wire("ARCA"@) == Some(Exchange::ARCA));
        },
        Exchange::BATS => {
            assert(spec_exchange_from_wire("BATS"@) == Some(Exchange::BATS));
        },
        Exchange::IEXG => {
            assert(spec_exchange_from_wire("IEXG"@) == Some(Exchange::IEXG));
        },
        Exchange::OTC => {
            assert(spec_exchange_from_wire("OTC"@) == Some(Exchange::OTC));
        },
        Exchange::PINK => {
            assert(spec_exchange_from_wire("PINK"@) == Some(Exchange::PINK));
        },
        Exchange::CBOE => {
            assert(spec_exchange_from_wire("CBOE"@) == Some(Exchange::CBOE));
        },
        Exchange::CRYPTO => {
            assert(spec_exchange_from_wire("CRYPTO"@) == Some(Exchange::CRYPTO));
        },
    }
}

/// How an order prices itself.
#[derive(Debug, Clone, Copy, PartialEq, Eq)]
pub enum OrderType {
    Market,
    Limit,
    Stop,
    StopLimit,
    TrailingStop,
}

/// The wire token of each [`OrderType`] variant.
pub open spec fn spec_order_type_wire(v: OrderType) -> Seq<char> {
    match v {
        OrderType::Market => "market"@,
        OrderType::Limit => "limit"@,
        OrderType::Stop => "stop"@,
        OrderType::StopLimit => "stop_limit"@,
        OrderType::TrailingStop => "trailing_stop"@,
    }
}

/// The [`OrderType`] variant a wire token denotes, if any.
pub open spec fn spec_order_type_from_wire(s: Seq<char>) -> Option<OrderType> {
    if s == "market"@ {
        Some(OrderType::Market)
    } else if s == "limit"@ {
        Some(OrderType::Limit)
    } else if s == "stop"@ {
        Some(OrderType::Stop)
    } else if s == "stop_limit"@ {
        Some(OrderType::StopLimit)
    } else if s == "trailing_stop"@ {
        Some(OrderType::TrailingStop)
    } else {
        None
    }
}

impl OrderType {
    /// The wire token of this variant.
    pub fn to_wire(&self) -> (r: &'static str)
        ensures
            r@ == spec_order_type_wire(*self),
    {
        match self {
            OrderType::Market => "market",
            OrderType::Limit => "limit",
            OrderType::Stop => "stop",
            OrderType::StopLimit => "stop_limit",
            OrderType::TrailingStop => "trailing_stop",
        }
    }

    /// Reads a wire token; `None` for any undeclared token.
    pub fn from_wire(s: &str) -> (r: Option<OrderType>)
        ensures
            r == spec_order_type_from_wire(s@),
    {
        if str_eq(s, "market") {
            Some(OrderType::Market)
        } else if str_eq(s, "limit") {
            Some(OrderType::Limit)
        } else if str_eq(s, "stop") {
            Some(OrderType::Stop)
        } else if str_eq(s, "stop_limit") {
            Some(OrderType::StopLimit)
        } else if str_eq(s, "trailing_stop") {
            Some(OrderType::TrailingStop)
        } else {
            None
        }
    }
}

/// Reading back the wire token of any variant gives that variant.
pub proof fn lemma_order_type_round_trip(v: OrderType)
    ensures
        spec_order_type_from_wire(spec_order_type_wire(v)) == Some(v),
{
    reveal_strlit("market");
    reveal_strlit("limit");
    reveal_strlit("stop");
    reveal_strlit("stop_limit");
    reveal_strlit("trailing_stop");
    assert("market"@.len() == 6);
    assert("limit"@.len() == 5);
    assert("stop"@.len() == 4);
    assert("stop_limit"@.len() == 10);
    assert("trailing_stop"@.len() == 13);
    match v {
        OrderType::Market => {
            assert(spec_order_type_from_wire("market"@) == Some(OrderType::Market));
        },
        OrderType::Limit => {
            assert(spec_order_type_from_wire("limit"@) == Some(OrderType::Limit));
        },
        OrderType::Stop => {
            assert(spec_order_type_from_wire("stop"@) == Some(OrderType::Stop));
        },
        OrderType::StopLimit => {
            assert(spec_order_type_from_wire("stop_limit"@) == Some(OrderType::StopLimit));
        },
        OrderType::TrailingStop => {
            assert(spec_order_type_from_wire("trailing_stop"@) == Some(OrderType::TrailingStop));
        },
    }
}

/// Which side an order trades on.
#[derive(Debug, Clone, Copy, PartialEq, Eq)]
pub enum Side {
    Buy,
    Sell,
}

/// The wire token of each [`Side`] variant.
pub open spec fn spec_side_wire(v: Side) -> Seq<char> {
    match v {
        Side::Buy => "buy"@,
        Side::Sell => "sell"@,
    }
}

/// The [`Side`] variant a wire token denotes, if any.
pub open spec fn spec_side_from_wire(s: Seq<char>) -> Option<Side> {
    if s == "buy"@ {
        Some(Side::Buy)
    } else if s == "sell"@ {
        Some(Side::Sell)
    } else {
        None
    }
}

impl Side {
    /// The wire token of this variant.
    pub fn to_wire(&self) -> (r: &'static str)
        ensures
            r@ == spec_side_wire(*self),
    {
        match self {
            Side::Buy => "buy",
            Side::Sell => "sell",
        }
    }

    /// Reads a wire token; `None` for any undeclared token.
    pub fn from_wire(s: &str) -> (r: Option<Side>)
        ensures
            r == spec_side_from_wire(s@),
    {
        if str_eq(s, "buy") {
            Some(Side::Buy)
        } else if str_eq(s, "sell") {
            Some(Side::Sell)
        } else {
            None
        }
    }
}

/// Reading back the wire token of any variant gives that variant.
pub proof fn lemma_side_round_trip(v: Side)
    ensures
        spec_side_from_wire(spec_side_wire(v)) == Some(v),
{
    reveal_strlit("buy");
    reveal_strlit("sell");
    assert("buy"@.len() == 3);
    assert("sell"@.len() == 4);
    match v {
        Side::Buy => {
            assert(spec_side_from_wire("buy"@) == Some(Side::Buy));
        },
        Side::Sell => {
            assert(spec_side_from_wire("sell"@) == Some(Side::Sell));
        },
    }
}

/// How long an order stays alive.
#[derive(Debug, Clone, Copy, PartialEq, Eq)]
pub enum TimeInForce {
    DAY,
    GTC,
    OPG,
    CLS,
    IOC,
    FOK,
}

/// The wire token of each [`TimeInForce`] variant.
pub open spec fn spec_time_in_force_wire(v: TimeInForce) -> Seq<char> {
    match v {
        TimeInForce::DAY => "day"@,
        TimeInForce::GTC => "gtc"@,
        TimeInForce::OPG => "opg"@,
        TimeInForce::CLS => "cls"@,
        TimeInForce::IOC => "ioc"@,
        TimeInForce::FOK => "fok"@,
    }
}

/// The [`TimeInForce`] variant a wire token denotes, if any.
pub open spec fn spec_time_in_force_from_wire(s: Seq<char>) -> Option<TimeInForce> {
    if s == "day"@ {
        Some(TimeInForce::DAY)
    } else if s == "gtc"@ {
        Some(TimeInForce::GTC)
    } else if s == "opg"@ {
        Some(TimeInForce::OPG)
    } else if s == "cls"@ {
        Some(TimeInForce::CLS)
    } else if s == "ioc"@ {
        Some(TimeInForce::IOC)
    } else if s == "fok"@ {
        Some(TimeInForce::FOK)
    } else {
        None
    }
}

impl TimeInForce {
    /// The wire token of this variant.
    pub fn to_wire(&self) -> (r: &'static str)
        ensures
            r@ == spec_time_in_force_wire(*self),
    {
        match self {
            TimeInForce::DAY => "day",
            TimeInForce::GTC => "gtc",
            TimeInForce::OPG => "opg",
            TimeInForce::CLS => "cls",
            TimeInForce::IOC => "ioc",
            TimeInForce::FOK => "fok",
        }
    }

    /// Reads a wire token; `None` for any undeclared token.
    pub fn from_wire(s: &str) -> (r: Option<TimeInForce>)
        ensures
            r == spec_time_in_force_from_wire(s@),
    {
        if str_eq(s, "day") {
            Some(TimeInForce::DAY)
        } else if str_eq(s, "gtc") {
            Some(TimeInForce::GTC)
        } else if str_eq(s, "opg") {
            Some(TimeInForce::OPG)
        } else if str_eq(s, "cls") {
            Some(TimeInForce::CLS)
        } else if str_eq(s, "ioc") {
            Some(TimeInForce::IOC)
        } else if str_eq(s, "fok") {
            Some(TimeInForce::FOK)
        } else {
            None
        }
    }
}

/// Reading back the wire token of any variant gives that variant.
pub proof fn lemma_time_in_force_round_trip(v: TimeInForce)
    ensures
        spec_time_in_force_from_wire(spec_time_in_force_wire(v)) == Some(v),
{
    reveal_strlit("day");
    reveal_strlit("gtc");
    reveal_strlit("opg");
    reveal_strlit("cls");
    reveal_strlit("ioc");
    reveal_strlit("fok");
    assert("day"@.len() == 3);
    assert("gtc"@.len() == 3);
    assert("opg"@.len() == 3);
    assert("cls"@.len() == 3);
    assert("ioc"@.len() == 3);
    assert("fok"@.len() == 3);
    assert("day"@[0] == 'd');
    assert("gtc"@[0] == 'g');
    assert("opg"@[0] == 'o');
    assert("cls"@[0] == 'c');
    assert("ioc"@[0] == 'i');
    assert("fok"@[0] == 'f');
    match v {
        TimeInForce::DAY => {
            assert(spec_time_in_force_from_wire("day"@) == Some(TimeInForce::DAY));
        },
        TimeInForce::GTC => {
            assert(spec_time_in_force_from_wire("gtc"@) == Some(TimeInForce::GTC));
        },
        TimeInForce::OPG => {
            assert(spec_time_in_force_from_wire("opg"@) == Some(TimeInForce::OPG));
        },
        TimeInForce::CLS => {
            assert(spec_time_in_force_from_wire("cls"@) == Some(TimeInForce::CLS));
        },
        TimeInForce::IOC => {
            assert(spec_time_in_force_from_wire("ioc"@) == Some(TimeInForce::IOC));
        },
        TimeInForce::FOK => {
            assert(spec_time_in_force_from_wire("fok"@) == Some(TimeInForce::FOK));
        },
    }
}

/// An order's strategy class. The broker sends an empty string for a
/// plain order; that token reads as the [`OrderClass::Empty`] sentinel
/// rather than failing.
#[derive(Debug, Clone, Copy, PartialEq, Eq)]
pub enum OrderClass {
    Simple,
    Oco,
    Otc,
    Trigger,
    Bracket,
    Mleg,
    Empty,
}

/// The wire token of each [`OrderClass`] variant.
pub open spec fn spec_order_class_wire(v: OrderClass) -> Seq<char> {
    match v {
        OrderClass::Simple => "simple"@,
        OrderClass::Oco => "oco"@,
        OrderClass::Otc => "otc"@,
        OrderClass::Trigger => "trigger"@,
        OrderClass::Bracket => "bracket"@,
        OrderClass::Mleg => "mleg"@,
        OrderClass::Empty => "empty"@,
    }
}

/// The [`OrderClass`] variant a wire token denotes, if any.
pub open spec fn spec_order_class_from_wire(s: Seq<char>) -> Option<OrderClass> {
    if s == ""@ {
        Some(OrderClass::Empty)
    } else if s == "simple"@ {
        Some(OrderClass::Simple)
    } else if s == "oco"@ {
        Some(OrderClass::Oco)
    } else if s == "otc"@ {
        Some(OrderClass::Otc)
    } else if s == "trigger"@ {
        Some(OrderClass::Trigger)
    } else if s == "bracket"@ {
        Some(OrderClass::Bracket)
    } else if s == "mleg"@ {
        Some(OrderClass::Mleg)
    } else if s == "empty"@ {
        Some(OrderClass::Empty)
    } else {
        None
    }
}

impl OrderClass {
    /// The wire token of this variant.
    pub fn to_wire(&self) -> (r: &'static str)
        ensures
            r@ == spec_order_class_wire(*self),
    {
        match self {
            OrderClass::Simple => "simple",
            OrderClass::Oco => "oco",
            OrderClass::Otc => "otc",
            OrderClass::Trigger => "trigger",
            OrderClass::Bracket => "bracket",
            OrderClass::Mleg => "mleg",
            OrderClass::Empty => "empty",
        }
    }

    /// Reads a wire token; the empty string reads as the sentinel
    /// [`OrderClass::Empty`], and any undeclared token as `None`.
    pub fn from_wire(s: &str) -> (r: Option<OrderClass>)
        ensures
            r == spec_order_class_from_wire(s@),
    {
        if str_eq(s, "") {
            Some(OrderClass::Empty)
        } else if str_eq(s, "simple") {
            Some(OrderClass::Simple)
        } else if str_eq(s, "oco") {
            Some(OrderClass::Oco)
        } else if str_eq(s, "otc") {
            Some(OrderClass::Otc)
        } else if str_eq(s, "trigger") {
            Some(OrderClass::Trigger)
        } else if str_eq(s, "bracket") {
            Some(OrderClass::Bracket)
        } else if str_eq(s, "mleg") {
            Some(OrderClass::Mleg)
        } else if str_eq(s, "empty") {
            Some(OrderClass::Empty)
        } else {
            None
        }
    }
}

/// Reading back the wire token of any variant gives that variant.
pub proof fn lemma_order_class_round_trip(v: OrderClass)
    ensures
        spec_order_class_from_wire(spec_order_class_wire(v)) == Some(v),
{
    reveal_strlit("");
    reveal_strlit("simple");
    reveal_strlit("oco");
    reveal_strlit("otc");
    reveal_strlit("trigger");
    reveal_strlit("bracket");
    reveal_strlit("mleg");
    reveal_strlit("empty");
    assert(""@.len() == 0);
    assert("simple"@.len() == 6);
    assert("oco"@.len() == 3);
    assert("otc"@.len() == 3);
    assert("trigger"@.len() == 7);
    assert("bracket"@.len() == 7);
    assert("mleg"@.len() == 4);
    assert("empty"@.len() == 5);
    assert("oco"@[1] == 'c');
    assert("otc"@[1] == 't');
    assert("trigger"@[0] == 't');
    assert("bracket"@[0] == 'b');
    match v {
        OrderClass::Simple => {
            assert(spec_order_class_from_wire("simple"@) == Some(OrderClass::Simple));
        },
        OrderClass::Oco => {
            assert(spec_order_class_from_wire("oco"@) == Some(OrderClass::Oco));
        },
        OrderClass::Otc => {
            assert(spec_order_class_from_wire("otc"@) == Some(OrderClass::Otc));
        },
        OrderClass::Trigger => {
            assert(spec_order_class_from_wire("trigger"@) == Some(OrderClass::Trigger));
        },
        OrderClass::Bracket => {
            assert(spec_order_class_from_wire("bracket"@) == Some(OrderClass::Bracket));
        },
        OrderClass::Mleg => {
            assert(spec_order_class_from_wire("mleg"@) == Some(OrderClass::Mleg));
        },
        OrderClass::Empty => {
            assert(spec_order_class_from_wire("empty"@) == Some(OrderClass::Empty));
        },
    }
}

/// Where an order stands in its lifecycle.
#[derive(Debug, Clone, Copy, PartialEq, Eq)]
pub enum OrderStatus {
    New,
    PartiallyFilled,
    Filled,
    DoneForDay,
    Canceled,
    Expired,
    Replaced,
    PendingCancel,
    PendingReplace,
    Accepted,
    PendingNew,
    AcceptedForBidding,
    Stopped,
    Rejected,
    Suspended,
    Calculated,
}

/// The wire token of each [`OrderStatus`] variant.
pub open spec fn spec_order_status_wire(v: OrderStatus) -> Seq<char> {
    match v {
        OrderStatus::New => "new"@,
        OrderStatus::PartiallyFilled => "partially_filled"@,
        OrderStatus::Filled => "filled"@,
        OrderStatus::DoneForDay => "done_for_day"@,
        OrderStatus::Canceled => "canceled"@,
        OrderStatus::Expired => "expired"@,
        OrderStatus::Replaced => "replaced"@,
        OrderStatus::PendingCancel => "pending_cancel"@,
        OrderStatus::PendingReplace => "pending_replace"@,
        OrderStatus::Accepted => "accepted"@,
        OrderStatus::PendingNew => "pending_new"@,
        OrderStatus::AcceptedForBidding => "accepted_for_bidding"@,
        OrderStatus::Stopped => "stopped"@,
        OrderStatus::Rejected => "rejected"@,
        OrderStatus::Suspended => "suspended"@,
        OrderStatus::Calculated => "calculated"@,
    }
}

/// The [`OrderStatus`] variant a wire token denotes, if any.
pub open spec fn spec_order_status_from_wire(s: Seq<char>) -> Option<OrderStatus> {
    if s == "new"@ {
        Some(OrderStatus::New)
    } else if s == "partially_filled"@ {
        Some(OrderStatus::PartiallyFilled)
    } else if s == "filled"@ {
        Some(OrderStatus::Filled)
    } else if s == "done_for_day"@ {
        Some(OrderStatus::DoneForDay)
    } else if s == "canceled"@ {
        Some(OrderStatus::Canceled)
    } else if s == "expired"@ {
        Some(OrderStatus::Expired)
    } else if s == "replaced"@ {
        Some(OrderStatus::Replaced)
    } else if s == "pending_cancel"@ {
        Some(OrderStatus::PendingCancel)
    } else if s == "pending_replace"@ {
        Some(OrderStatus::PendingReplace)
    } else if s == "accepted"@ {
        Some(OrderStatus::Accepted)
    } else if s == "pending_new"@ {
        Some(OrderStatus::PendingNew)
    } else if s == "accepted_for_bidding"@ {
        Some(OrderStatus::AcceptedForBidding)
    } else if s == "stopped"@ {
        Some(OrderStatus::Stopped)
    } else if s == "rejected"@ {
        Some(OrderStatus::Rejected)
    } else if s == "suspended"@ {
        Some(OrderStatus::Suspended)
    } else if s == "calculated"@ {
        Some(OrderStatus::Calculated)
    } else {
        None
    }
}

impl OrderStatus {
    /// The wire token of this variant.
    pub fn to_wire(&self) -> (r: &'static str)
        ensures
            r@ == spec_order_status_wire(*self),
    {
        match self {
            OrderStatus::New => "new",
            OrderStatus::PartiallyFilled => "partially_filled",
            OrderStatus::Filled => "filled",
            OrderStatus::DoneForDay => "done_for_day",
            OrderStatus::Canceled => "canceled",
            OrderStatus::Expired => "expired",
            OrderStatus::Replaced => "replaced",
            OrderStatus::PendingCancel => "pending_cancel",
            OrderStatus::PendingReplace => "pending_replace",
            OrderStatus::Accepted => "accepted",
            OrderStatus::PendingNew => "pending_new",
            OrderStatus::AcceptedForBidding => "accepted_for_bidding",
            OrderStatus::Stopped => "stopped",
            OrderStatus::Rejected => "rejected",
            OrderStatus::Suspended => "suspended",
            OrderStatus::Calculated => "calculated",
        }
    }

    /// Reads a wire token; `None` for any undeclared token.
    pub fn from_wire(s: &str) -> (r: Option<OrderStatus>)
        ensures
            r == spec_order_status_from_wire(s@),
    {
        if str_eq(s, "new") {
            Some(OrderStatus::New)
        } else if str_eq(s, "partially_filled") {
            Some(OrderStatus::PartiallyFilled)
        } else if str_eq(s, "filled") {
            Some(OrderStatus::Filled)
        } else if str_eq(s, "done_for_day") {
            Some(OrderStatus::DoneForDay)
        } else if str_eq(s, "canceled") {
            Some(OrderStatus::Canceled)
        } else if str_eq(s, "expired") {
            Some(OrderStatus::Expired)
        } else if str_eq(s, "replaced") {
            Some(OrderStatus::Replaced)
        } else if str_eq(s, "pending_cancel") {
            Some(OrderStatus::PendingCancel)
        } else if str_eq(s, "pending_replace") {
            Some(OrderStatus::PendingReplace)
        } else if str_eq(s, "accepted") {
            Some(OrderStatus::Accepted)
        } else if str_eq(s, "pending_new") {
            Some(OrderStatus::PendingNew)
        } else if str_eq(s, "accepted_for_bidding") {
            Some(OrderStatus::AcceptedForBidding)
        } else if str_eq(s, "stopped") {
            Some(OrderStatus::Stopped)
        } else if str_eq(s, "rejected") {
            Some(OrderStatus::Rejected)
        } else if str_eq(s, "suspended") {
            Some(OrderStatus::Suspended)
        } else if str_eq(s, "calculated") {
            Some(OrderStatus::Calculated)
        } else {
            None
        }
    }
}

/// Reading back the wire token of any variant gives that variant.
pub proof fn lemma_order_status_round_trip(v: OrderStatus)
    ensures
        spec_order_status_from_wire(spec_order_status_wire(v)) == Some(v),
{
    reveal_strlit("new");
    reveal_strlit("partially_filled");
    reveal_strlit("filled");
    reveal_strlit("done_for_day");
    reveal_strlit("canceled");
    reveal_strlit("expired");
    reveal_strlit("replaced");
    reveal_strlit("pending_cancel");
    reveal_strlit("pending_replace");
    reveal_strlit("accepted");
    reveal_strlit("pending_new");
    reveal_strlit("accepted_for_bidding");
    reveal_strlit("stopped");
    reveal_strlit("rejected");
    reveal_strlit("suspended");
    reveal_strlit("calculated");
    assert("new"@.len() == 3);
    assert("partially_filled"@.len() == 16);
    assert("filled"@.len() == 6);
    assert("done_for_day"@.len() == 12);
    assert("canceled"@.len() == 8);
    assert("expired"@.len() == 7);
    assert("replaced"@.len() == 8);
    assert("pending_cancel"@.len() == 14);
    assert("pending_replace"@.len() == 15);
    assert("accepted"@.len() == 8);
    assert("pending_new"@.len() == 11);
    assert("accepted_for_bidding"@.len() == 20);
    assert("stopped"@.len() == 7);
    assert("rejected"@.len() == 8);
    assert("suspended"@.len() == 9);
    assert("calculated"@.len() == 10);
    assert("canceled"@[0] == 'c');
    assert("replaced"@[0] == 'r');
    assert("accepted"@[0] == 'a');
    assert("rejected"@[0] == 'r');
    assert("expired"@[0] == 'e');
    assert("stopped"@[0] == 's');
    assert("replaced"@[2] == 'p');
    assert("rejected"@[2] == 'j');
    match v {
        OrderStatus::New => {
            assert(spec_order_status_from_wire("new"@) == Some(OrderStatus::New));
        },
        OrderStatus::PartiallyFilled => {
            assert(spec_order_status_from_wire("partially_filled"@) == Some(OrderStatus::PartiallyFilled));
        },
        OrderStatus::Filled => {
            assert(spec_order_status_from_wire("filled"@) == Some(OrderStatus::Filled));
        },
        OrderStatus::DoneForDay => {
            assert(spec_order_status_from_wire("done_for_day"@) == Some(OrderStatus::DoneForDay));
        },
        OrderStatus::Canceled => {
            assert(spec_order_status_from_wire("canceled"@) == Some(OrderStatus::Canceled));
        },
        OrderStatus::Expired => {
            assert(spec_order_status_from_wire("expired"@) == Some(OrderStatus::Expired));
        },
        OrderStatus::Replaced => {
            assert(spec_order_status_from_wire("replaced"@) == Some(OrderStatus::Replaced));
        },
        OrderStatus::PendingCancel => {
            assert(spec_order_status_from_wire("pending_cancel"@) == Some(OrderStatus::PendingCancel));
        },
        OrderStatus::PendingReplace => {
            assert(spec_order_status_from_wire("pending_replace"@) == Some(OrderStatus::PendingReplace));
        },
        OrderStatus::Accepted => {
            assert(spec_order_status_from_wire("accepted"@) == Some(OrderStatus::Accepted));
        },
        OrderStatus::PendingNew => {
            assert(spec_order_status_from_wire("pending_new"@) == Some(OrderStatus::PendingNew));
        },
        OrderStatus::AcceptedForBidding => {
            assert(spec_order_status_from_wire("accepted_for_bidding"@) == Some(OrderStatus::AcceptedForBidding));
        },
        OrderStatus::Stopped => {
            assert(spec_order_status_from_wire("stopped"@) == Some(OrderStatus::Stopped));
        },
        OrderStatus::Rejected => {
            assert(spec_order_status_from_wire("rejected"@) == Some(OrderStatus::Rejected));
        },
        OrderStatus::Suspended => {
            assert(spec_order_status_from_wire("suspended"@) == Some(OrderStatus::Suspended));
        },
        OrderStatus::Calculated => {
            assert(spec_order_status_from_wire("calculated"@) == Some(OrderStatus::Calculated));
        },
    }
}

/// What a fill does to the position.
#[derive(Debug, Clone, Copy, PartialEq, Eq)]
pub enum PositionIntent {
    BuyToOpen,
    BuyToClose,
    SellToOpen,
    SellToClose,
}

/// The wire token of each [`PositionIntent`] variant.
pub open spec fn spec_position_intent_wire(v: PositionIntent) -> Seq<char> {
    match v {
        PositionIntent::BuyToOpen => "buy_to_open"@,
        PositionIntent::BuyToClose => "buy_to_close"@,
        PositionIntent::SellToOpen => "sell_to_open"@,
        PositionIntent::SellToClose => "sell_to_close"@,
    }
}

/// The [`PositionIntent`] variant a wire token denotes, if any.
pub open spec fn spec_position_intent_from_wire(s: Seq<char>) -> Option<PositionIntent> {
    if s == "buy_to_open"@ {
        Some(PositionIntent::BuyToOpen)
    } else if s == "buy_to_close"@ {
        Some(PositionIntent::BuyToClose)
    } else if s == "sell_to_open"@ {
        Some(PositionIntent::SellToOpen)
    } else if s == "sell_to_close"@ {
        Some(PositionIntent::SellToClose)
    } else {
        None
    }
}

impl PositionIntent {
    /// The wire token of this variant.
    pub fn to_wire(&self) -> (r: &'static str)
        ensures
            r@ == spec_position_intent_wire(*self),
    {
        match self {
            PositionIntent::BuyToOpen => "buy_to_open",
            PositionIntent::BuyToClose => "buy_to_close",
            PositionIntent::SellToOpen => "sell_to_open",
            PositionIntent::SellToClose => "sell_to_close",
        }
    }

    /// Reads a wire token; `None` for any undeclared token.
    pub fn from_wire(s: &str) -> (r: Option<PositionIntent>)
        ensures
            r == spec_position_intent_from_wire(s@),
    {
        if str_eq(s, "buy_to_open") {
            Some(PositionIntent::BuyToOpen)
        } else if str_eq(s, "buy_to_close") {
            Some(PositionIntent::BuyToClose)
        } else if str_eq(s, "sell_to_open") {
            Some(PositionIntent::SellToOpen)
        } else if str_eq(s, "sell_to_close") {
            Some(PositionIntent::SellToClose)
        } else {
            None
        }
    }
}

/// Reading back the wire token of any variant gives that variant.
pub proof fn lemma_position_intent_round_trip(v: PositionIntent)
    ensures
        spec_position_intent_from_wire(spec_position_intent_wire(v)) == Some(v),
{
    reveal_strlit("buy_to_open");
    reveal_strlit("buy_to_close");
    reveal_strlit("sell_to_open");
    reveal_strlit("sell_to_close");
    assert("buy_to_open"@.len() == 11);
    assert("buy_to_close"@.len() == 12);
    assert("sell_to_open"@.len() == 12);
    assert("sell_to_close"@.len() == 13);
    assert("buy_to_close"@[0] == 'b');
    assert("sell_to_open"@[0] == 's');
    match v {
        PositionIntent::BuyToOpen => {
            assert(spec_position_intent_from_wire("buy_to_open"@) == Some(PositionIntent::BuyToOpen));
        },
        PositionIntent::BuyToClose => {
            assert(spec_position_intent_from_wire("buy_to_close"@) == Some(PositionIntent::BuyToClose));
        },
        PositionIntent::SellToOpen => {
            assert(spec_position_intent_from_wire("sell_to_open"@) == Some(PositionIntent::SellToOpen));
        },
        PositionIntent::SellToClose => {
            assert(spec_position_intent_from_wire("sell_to_close"@) == Some(PositionIntent::SellToClose));
        },
    }
}

/// Where an account stands in its lifecycle.
#[derive(Debug, Clone, Copy, PartialEq, Eq)]
pub enum AccountStatus {
    Onboarding,
    SubmissionFailed,
    Submitted,
    AccountUpdated,
    ApprovalPending,
    Active,
    Rejected,
}

/// The wire token of each [`AccountStatus`] variant.
pub open spec fn spec_account_status_wire(v: AccountStatus) -> Seq<char> {
    match v {
        AccountStatus::Onboarding => "ONBOARDING"@,
        AccountStatus::SubmissionFailed => "SUBMISSIONFAILED"@,
        AccountStatus::Submitted => "SUBMITTED"@,
        AccountStatus::AccountUpdated => "ACCOUNTUPDATED"@,
        AccountStatus::ApprovalPending => "APPROVALPENDING"@,
        AccountStatus::Active => "ACTIVE"@,
        AccountStatus::Rejected => "REJECTED"@,
    }
}

/// The [`AccountStatus`] variant a wire token denotes, if any.
pub open spec fn spec_account_status_from_wire(s: Seq<char>) -> Option<AccountStatus> {
    if s == "ONBOARDING"@ {
        Some(AccountStatus::Onboarding)
    } else if s == "SUBMISSIONFAILED"@ {
        Some(AccountStatus::SubmissionFailed)
    } else if s == "SUBMITTED"@ {
        Some(AccountStatus::Submitted)
    } else if s == "ACCOUNTUPDATED"@ {
        Some(AccountStatus::AccountUpdated)
    } else if s == "APPROVALPENDING"@ {
        Some(AccountStatus::ApprovalPending)
    } else if s == "ACTIVE"@ {
        Some(AccountStatus::Active)
    } else if s == "REJECTED"@ {
        Some(AccountStatus::Rejected)
    } else {
        None
    }
}

impl AccountStatus {
    /// The wire token of this variant.
    pub fn to_wire(&self) -> (r: &'static str)
        ensures
            r@ == spec_account_status_wire(*self),
    {
        match self {
            AccountStatus::Onboarding => "ONBOARDING",
            AccountStatus::SubmissionFailed => "SUBMISSIONFAILED",
            AccountStatus::Submitted => "SUBMITTED",
            AccountStatus::AccountUpdated => "ACCOUNTUPDATED",
            AccountStatus::ApprovalPending => "APPROVALPENDING",
            AccountStatus::Active => "ACTIVE",
            AccountStatus::Rejected => "REJECTED",
        }
    }

    /// Reads a wire token; `None` for any undeclared token.
    pub fn from_wire(s: &str) -> (r: Option<AccountStatus>)
        ensures
            r == spec_account_status_from_wire(s@),
    {
        if str_eq(s, "ONBOARDING") {
            Some(AccountStatus::Onboarding)
        } else if str_eq(s, "SUBMISSIONFAILED") {
            Some(AccountStatus::SubmissionFailed)
        } else if str_eq(s, "SUBMITTED") {
            Some(AccountStatus::Submitted)
        } else if str_eq(s, "ACCOUNTUPDATED") {
            Some(AccountStatus::AccountUpdated)
        } else if str_eq(s, "APPROVALPENDING") {
            Some(AccountStatus::ApprovalPending)
        } else if str_eq(s, "ACTIVE") {
            Some(AccountStatus::Active)
        } else if str_eq(s, "REJECTED") {
            Some(AccountStatus::Rejected)
        } else {
            None
        }
    }
}

/// Reading back the wire token of any variant gives that variant.
pub proof fn lemma_account_status_round_trip(v: AccountStatus)
    ensures
        spec_account_status_from_wire(spec_account_status_wire(v)) == Some(v),
{
    reveal_strlit("ONBOARDING");
    reveal_strlit("SUBMISSIONFAILED");
    reveal_strlit("SUBMITTED");
    reveal_strlit("ACCOUNTUPDATED");
    reveal_strlit("APPROVALPENDING");
    reveal_strlit("ACTIVE");
    reveal_strlit("REJECTED");
    assert("ONBOARDING"@.len() == 10);
    assert("SUBMISSIONFAILED"@.len() == 16);
    assert("SUBMITTED"@.len() == 9);
    assert("ACCOUNTUPDATED"@.len() == 14);
    assert("APPROVALPENDING"@.len() == 15);
    assert("ACTIVE"@.len() == 6);
    assert("REJECTED"@.len() == 8);
    match v {
        AccountStatus::Onboarding => {
            assert(spec_account_status_from_wire("ONBOARDING"@) == Some(AccountStatus::Onboarding));
        },
        AccountStatus::SubmissionFailed => {
            assert(spec_account_status_from_wire("SUBMISSIONFAILED"@) == Some(AccountStatus::SubmissionFailed));
        },
        AccountStatus::Submitted => {
            assert(spec_account_status_from_wire("SUBMITTED"@) == Some(AccountStatus::Submitted));
        },
        AccountStatus::AccountUpdated => {
            assert(spec_account_status_from_wire("ACCOUNTUPDATED"@) == Some(AccountStatus::AccountUpdated));
        },
        AccountStatus::ApprovalPending => {
            assert(spec_account_status_from_wire("APPROVALPENDING"@) == Some(AccountStatus::ApprovalPending));
        },
        AccountStatus::Active => {
            assert(spec_account_status_from_wire("ACTIVE"@) == Some(AccountStatus::Active));
        },
        AccountStatus::Rejected => {
            assert(spec_account_status_from_wire("REJECTED"@) == Some(AccountStatus::Rejected));
        },
    }
}

/// Whether an option contract is a call or a put.
#[derive(Debug, Clone, Copy, PartialEq, Eq)]
pub enum OptionType {
    Call,
    Put,
}

/// The wire token of each [`OptionType`] variant.
pub open spec fn spec_option_type_wire(v: OptionType) -> Seq<char> {
    match v {
        OptionType::Call => "call"@,
        OptionType::Put => "put"@,
    }
}

/// The [`OptionType`] variant a wire token denotes, if any.
pub open spec fn spec_option_type_from_wire(s: Seq<char>) -> Option<OptionType> {
    if s == "call"@ {
        Some(OptionType::Call)
    } else if s == "put"@ {
        Some(OptionType::Put)
    } else {
        None
    }
}

impl OptionType {
    /// The wire token of this variant.
    pub fn to_wire(&self) -> (r: &'static str)
        ensures
            r@ == spec_option_type_wire(*self),
    {
        match self {
            OptionType::Call => "call",
            OptionType::Put => "put",
        }
    }

    /// Reads a wire token; `None` for any undeclared token.
    pub fn from_wire(s: &str) -> (r: Option<OptionType>)
        ensures
            r == spec_option_type_from_wire(s@),
    {
        if str_eq(s, "call") {
            Some(OptionType::Call)
        } else if str_eq(s, "put") {
            Some(OptionType::Put)
        } else {
            None
        }
    }
}

/// Reading back the wire token of any variant gives that variant.
pub proof fn lemma_option_type_round_trip(v: OptionType)
    ensures
        spec_option_type_from_wire(spec_option_type_wire(v)) == Some(v),
{
    reveal_strlit("call");
    reveal_strlit("put");
    assert("call"@.len() == 4);
    assert("put"@.len() == 3);
    match v {
        OptionType::Call => {
            assert(spec_option_type_from_wire("call"@) == Some(OptionType::Call));
        },
        OptionType::Put => {
            assert(spec_option_type_from_wire("put"@) == Some(OptionType::Put));
        },
    }
}

/// An option contract's exercise style.
#[derive(Debug, Clone, Copy, PartialEq, Eq)]
pub enum OptionStyle {
    American,
    European,
}

/// The wire token of each [`OptionStyle`] variant.
pub open spec fn spec_option_style_wire(v: OptionStyle) -> Seq<char> {
    match v {
        OptionStyle::American => "american"@,
        OptionStyle::European => "european"@,
    }
}

/// The [`OptionStyle`] variant a wire token denotes, if any.
pub open spec fn spec_option_style_from_wire(s: Seq<char>) -> Option<OptionStyle> {
    if s == "american"@ {
        Some(OptionStyle::American)
    } else if s == "european"@ {
        Some(OptionStyle::European)
    } else {
        None
    }
}

impl OptionStyle {
    /// The wire token of this variant.
    pub fn to_wire(&self) -> (r: &'static str)
        ensures
            r@ == spec_option_style_wire(*self),
    {
        match self {
            OptionStyle::American => "american",
            OptionStyle::European => "european",
        }
    }

    /// Reads a wire token; `None` for any undeclared token.
    pub fn from_wire(s: &str) -> (r: Option<OptionStyle>)
        ensures
            r == spec_option_style_from_wire(s@),
    {
        if str_eq(s, "american") {
            Some(OptionStyle::American)
        } else if str_eq(s, "european") {
            Some(OptionStyle::European)
        } else {
            None
        }
    }
}

/// Reading back the wire token of any variant gives that variant.
pub proof fn lemma_option_style_round_trip(v: OptionStyle)
    ensures
        spec_option_style_from_wire(spec_option_style_wire(v)) == Some(v),
{
    reveal_strlit("american");
    reveal_strlit("european");
    assert("american"@.len() == 8);
    assert("european"@.len() == 8);
    assert("american"@[0] == 'a');
    assert("european"@[0] == 'e');
    match v {
        OptionStyle::American => {
            assert(spec_option_style_from_wire("american"@) == Some(OptionStyle::American));
        },
        OptionStyle::European => {
            assert(spec_option_style_from_wire("european"@) == Some(OptionStyle::European));
        },
    }
}

/// What an option deliverable settles in.
#[derive(Debug, Clone, Copy, PartialEq, Eq)]
pub enum DeliverableType {
    Cash,
    Equity,
}

/// The wire token of each [`DeliverableType`] variant.
pub open spec fn spec_deliverable_type_wire(v: DeliverableType) -> Seq<char> {
    match v {
        DeliverableType::Cash => "cash"@,
        DeliverableType::Equity => "equity"@,
    }
}

/// The [`DeliverableType`] variant a wire token denotes, if any.
pub open spec fn spec_deliverable_type_from_wire(s: Seq<char>) -> Option<DeliverableType> {
    if s == "cash"@ {
        Some(DeliverableType::Cash)
    } else if s == "equity"@ {
        Some(DeliverableType::Equity)
    } else {
        None
    }
}

impl DeliverableType {
    /// The wire token of this variant.
    pub fn to_wire(&self) -> (r: &'static str)
        ensures
            r@ == spec_deliverable_type_wire(*self),
    {
        match self {
            DeliverableType::Cash => "cash",
            DeliverableType::Equity => "equity",
        }
    }

    /// Reads a wire token; `None` for any undeclared token.
    pub fn from_wire(s: &str) -> (r: Option<DeliverableType>)
        ensures
            r == spec_deliverable_type_from_wire(s@),
    {
        if str_eq(s, "cash") {
            Some(DeliverableType::Cash)
        } else if str_eq(s, "equity") {
            Some(DeliverableType::Equity)
        } else {
            None
        }
    }
}

/// Reading back the wire token of any variant gives that variant.
pub proof fn lemma_deliverable_type_round_trip(v: DeliverableType)
    ensures
        spec_deliverable_type_from_wire(spec_deliverable_type_wire(v)) == Some(v),
{
    reveal_strlit("cash");
    reveal_strlit("equity");
    assert("cash"@.len() == 4);
    assert("equity"@.len() == 6);
    match v {
        DeliverableType::Cash => {
            assert(spec_deliverable_type_from_wire("cash"@) == Some(DeliverableType::Cash));
        },
        DeliverableType::Equity => {
            assert(spec_deliverable_type_from_wire("equity"@) == Some(DeliverableType::Equity));
        },
    }
}

/// The clearing route of an option deliverable.
#[derive(Debug, Clone, Copy, PartialEq, Eq)]
pub enum DeliverableSettlementMethod {
    BTOB,
    CADF,
    CAFX,
    CCC,
}

/// The wire token of each [`DeliverableSettlementMethod`] variant.
pub open spec fn spec_deliverable_settlement_method_wire(v: DeliverableSettlementMethod) -> Seq<char> {
    match v {
        DeliverableSettlementMethod::BTOB => "BTOB"@,
        DeliverableSettlementMethod::CADF => "CADF"@,
        DeliverableSettlementMethod::CAFX => "CAFX"@,
        DeliverableSettlementMethod::CCC => "CCC"@,
    }
}

/// The [`DeliverableSettlementMethod`] variant a wire token denotes, if any.
pub open spec fn spec_deliverable_settlement_method_from_wire(s: Seq<char>) -> Option<DeliverableSettlementMethod> {
    if s == "BTOB"@ {
        Some(DeliverableSettlementMethod::BTOB)
    } else if s == "CADF"@ {
        Some(DeliverableSettlementMethod::CADF)
    } else if s == "CAFX"@ {
        Some(DeliverableSettlementMethod::CAFX)
    } else if s == "CCC"@ {
        Some(DeliverableSettlementMethod::CCC)
    } else {
        None
    }
}

impl DeliverableSettlementMethod {
    /// The wire token of this variant.
    pub fn to_wire(&self) -> (r: &'static str)
        ensures
            r@ == spec_deliverable_settlement_method_wire(*self),
    {
        match self {
            DeliverableSettlementMethod::BTOB => "BTOB",
            DeliverableSettlementMethod::CADF => "CADF",
            DeliverableSettlementMethod::CAFX => "CAFX",
            DeliverableSettlementMethod::CCC => "CCC",
        }
    }

    /// Reads a wire token; `None` for any undeclared token.
    pub fn from_wire(s: &str) -> (r: Option<DeliverableSettlementMethod>)
        ensures
            r == spec_deliverable_settlement_method_from_wire(s@),
    {
        if str_eq(s, "BTOB") {
            Some(DeliverableSettlementMethod::BTOB)
        } else if str_eq(s, "CADF") {
            Some(DeliverableSettlementMethod::CADF)
        } else if str_eq(s, "CAFX") {
            Some(DeliverableSettlementMethod::CAFX)
        } else if str_eq(s, "CCC") {
            Some(DeliverableSettlementMethod::CCC)
        } else {
            None
        }
    }
}

/// Reading back the wire token of any variant gives that variant.
pub proof fn lemma_deliverable_settlement_method_round_trip(v: DeliverableSettlementMethod)
    ensures
        spec_deliverable_settlement_method_from_wire(spec_deliverable_settlement_method_wire(v)) == Some(v),
{
    reveal_strlit("BTOB");
    reveal_strlit("CADF");
    reveal_strlit("CAFX");
    reveal_strlit("CCC");
    assert("BTOB"@.len() == 4);
    assert("CADF"@.len() == 4);
    assert("CAFX"@.len() == 4);
    assert("CCC"@.len() == 3);
    assert("BTOB"@[0] == 'B');
    assert("CADF"@[0] == 'C');
    assert("CAFX"@[0] == 'C');
    assert("CADF"@[2] == 'D');
    assert("CAFX"@[2] == 'F');
    match v {
        DeliverableSettlementMethod::BTOB => {
            assert(spec_deliverable_settlement_method_from_wire("BTOB"@) == Some(DeliverableSettlementMethod::BTOB));
        },
        DeliverableSettlementMethod::CADF => {
            assert(spec_deliverable_settlement_method_from_wire("CADF"@) == Some(DeliverableSettlementMethod::CADF));
        },
        DeliverableSettlementMethod::CAFX => {
            assert(spec_deliverable_settlement_method_from_wire("CAFX"@) == Some(DeliverableSettlementMethod::CAFX));
        },
        DeliverableSettlementMethod::CCC => {
            assert(spec_deliverable_settlement_method_from_wire("CCC"@) == Some(DeliverableSettlementMethod::CCC));
        },
    }
}

/// Which way a crypto transfer moves.
#[derive(Debug, Clone, Copy, PartialEq, Eq)]
pub enum CryptoDirection {
    Incoming,
    Outgoing,
}

/// The wire token of each [`CryptoDirection`] variant.
pub open spec fn spec_crypto_direction_wire(v: CryptoDirection) -> Seq<char> {
    match v {
        CryptoDirection::Incoming => "INCOMING"@,
        CryptoDirection::Outgoing => "OUTGOING"@,
    }
}

/// The [`CryptoDirection`] variant a wire token denotes, if any.
pub open spec fn spec_crypto_direction_from_wire(s: Seq<char>) -> Option<CryptoDirection> {
    if s == "INCOMING"@ {
        Some(CryptoDirection::Incoming)
    } else if s == "OUTGOING"@ {
        Some(CryptoDirection::Outgoing)
    } else {
        None
    }
}

impl CryptoDirection {
    /// The wire token of this variant.
    pub fn to_wire(&self) -> (r: &'static str)
        ensures
            r@ == spec_crypto_direction_wire(*self),
    {
        match self {
            CryptoDirection::Incoming => "INCOMING",
            CryptoDirection::Outgoing => "OUTGOING",
        }
    }

    /// Reads a wire token; `None` for any undeclared token.
    pub fn from_wire(s: &str) -> (r: Option<CryptoDirection>)
        ensures
            r == spec_crypto_direction_from_wire(s@),
    {
        if str_eq(s, "INCOMING") {
            Some(CryptoDirection::Incoming)
        } else if str_eq(s, "OUTGOING") {
            Some(CryptoDirection::Outgoing)
        } else {
            None
        }
    }
}

/// Reading back the wire token of any variant gives that variant.
pub proof fn lemma_crypto_direction_round_trip(v: CryptoDirection)
    ensures
        spec_crypto_direction_from_wire(spec_crypto_direction_wire(v)) == Some(v),
{
    reveal_strlit("INCOMING");
    reveal_strlit("OUTGOING");
    assert("INCOMING"@.len() == 8);
    assert("OUTGOING"@.len() == 8);
    assert("INCOMING"@[0] == 'I');
    assert("OUTGOING"@[0] == 'O');
    match v {
        CryptoDirection::Incoming => {
            assert(spec_crypto_direction_from_wire("INCOMING"@) == Some(CryptoDirection::Incoming));
        },
        CryptoDirection::Outgoing => {
            assert(spec_crypto_direction_from_wire("OUTGOING"@) == Some(CryptoDirection::Outgoing));
        },
    }
}

/// Where a crypto transfer stands.
#[derive(Debug, Clone, Copy, PartialEq, Eq)]
pub enum CryptoStatus {
    Processing,
    Failed,
    Complete,
}

/// The wire token of each [`CryptoStatus`] variant.
pub open spec fn spec_crypto_status_wire(v: CryptoStatus) -> Seq<char> {
    match v {
        CryptoStatus::Processing => "PROCESSING"@,
        CryptoStatus::Failed => "FAILED"@,
        CryptoStatus::Complete => "COMPLETE"@,
    }
}

/// The [`CryptoStatus`] variant a wire token denotes, if any.
pub open spec fn spec_crypto_status_from_wire(s: Seq<char>) -> Option<CryptoStatus> {
    if s == "PROCESSING"@ {
        Some(CryptoStatus::Processing)
    } else if s == "FAILED"@ {
        Some(CryptoStatus::Failed)
    } else if s == "COMPLETE"@ {
        Some(CryptoStatus::Complete)
    } else {
        None
    }
}

impl CryptoStatus {
    /// The wire token of this variant.
    pub fn to_wire(&self) -> (r: &'static str)
        ensures
            r@ == spec_crypto_status_wire(*self),
    {
        match self {
            CryptoStatus::Processing => "PROCESSING",
            CryptoStatus::Failed => "FAILED",
            CryptoStatus::Complete => "COMPLETE",
        }
    }

    /// Reads a wire token; `None` for any undeclared token.
    pub fn from_wire(s: &str) -> (r: Option<CryptoStatus>)
        ensures
            r == spec_crypto_status_from_wire(s@),
    {
        if str_eq(s, "PROCESSING") {
            Some(CryptoStatus::Processing)
        } else if str_eq(s, "FAILED") {
            Some(CryptoStatus::Failed)
        } else if str_eq(s, "COMPLETE") {
            Some(CryptoStatus::Complete)
        } else {
            None
        }
    }
}

/// Reading back the wire token of any variant gives that variant.
pub proof fn lemma_crypto_status_round_trip(v: CryptoStatus)
    ensures
        spec_crypto_status_from_wire(spec_crypto_status_wire(v)) == Some(v),
{
    reveal_strlit("PROCESSING");
    reveal_strlit("FAILED");
    reveal_strlit("COMPLETE");
    assert("PROCESSING"@.len() == 10);
    assert("FAILED"@.len() == 6);
    assert("COMPLETE"@.len() == 8);
    match v {
        CryptoStatus::Processing => {
            assert(spec_crypto_status_from_wire("PROCESSING"@) == Some(CryptoStatus::Processing));
        },
        CryptoStatus::Failed => {
            assert(spec_crypto_status_from_wire("FAILED"@) == Some(CryptoStatus::Failed));
        },
        CryptoStatus::Complete => {
            assert(spec_crypto_status_from_wire("COMPLETE"@) == Some(CryptoStatus::Complete));
        },
    }
}

/// Whether a whitelisted address has been approved.
#[derive(Debug, Clone, Copy, PartialEq, Eq)]
pub enum AddressStatus {
    Approved,
    Pending,
}

/// The wire token of each [`AddressStatus`] variant.
pub open spec fn spec_address_status_wire(v: AddressStatus) -> Seq<char> {
    match v {
        AddressStatus::Approved => "APPROVED"@,
        AddressStatus::Pending => "PENDING"@,
    }
}

/// The [`AddressStatus`] variant a wire token denotes, if any.
pub open spec fn spec_address_status_from_wire(s: Seq<char>) -> Option<AddressStatus> {
    if s == "APPROVED"@ {
        Some(AddressStatus::Approved)
    } else if s == "PENDING"@ {
        Some(AddressStatus::Pending)
    } else {
        None
    }
}

impl AddressStatus {
    /// The wire token of this variant.
    pub fn to_wire(&self) -> (r: &'static str)
        ensures
            r@ == spec_address_status_wire(*self),
    {
        match self {
            AddressStatus::Approved => "APPROVED",
            AddressStatus::Pending => "PENDING",
        }
    }

    /// Reads a wire token; `None` for any undeclared token.
    pub fn from_wire(s: &str) -> (r: Option<AddressStatus>)
        ensures
            r == spec_address_status_from_wire(s@),
    {
        if str_eq(s, "APPROVED") {
            Some(AddressStatus::Approved)
        } else if str_eq(s, "PENDING") {
            Some(AddressStatus::Pending)
        } else {
            None
        }
    }
}

/// Reading back the wire token of any variant gives that variant.
pub proof fn lemma_address_status_round_trip(v: AddressStatus)
    ensures
        spec_address_status_from_wire(spec_address_status_wire(v)) == Some(v),
{
    reveal_strlit("APPROVED");
    reveal_strlit("PENDING");
    assert("APPROVED"@.len() == 8);
    assert("PENDING"@.len() == 7);
    match v {
        AddressStatus::Approved => {
            assert(spec_address_status_from_wire("APPROVED"@) == Some(AddressStatus::Approved));
        },
        AddressStatus::Pending => {
            assert(spec_address_status_from_wire("PENDING"@) == Some(AddressStatus::Pending));
        },
    }
}

/// Which side a position is held on.
#[derive(Debug, Clone, Copy, PartialEq, Eq)]
pub enum PositionSide {
    Long,
    Short,
}

/// The wire token of each [`PositionSide`] variant.
pub open spec fn spec_position_side_wire(v: PositionSide) -> Seq<char> {
    match v {
        PositionSide::Long => "long"@,
        PositionSide::Short => "short"@,
    }
}

/// The [`PositionSide`] variant a wire token denotes, if any.
pub open spec fn spec_position_side_from_wire(s: Seq<char>) -> Option<PositionSide> {
    if s == "long"@ {
        Some(PositionSide::Long)
    } else if s == "short"@ {
        Some(PositionSide::Short)
    } else {
        None
    }
}

impl PositionSide {
    /// The wire token of this variant.
    pub fn to_wire(&self) -> (r: &'static str)
        ensures
            r@ == spec_position_side_wire(*self),
    {
        match self {
            PositionSide::Long => "long",
            PositionSide::Short => "short",
        }
    }

    /// Reads a wire token; `None` for any undeclared token.
    pub fn from_wire(s: &str) -> (r: Option<PositionSide>)
        ensures
            r == spec_position_side_from_wire(s@),
    {
        if str_eq(s, "long") {
            Some(PositionSide::Long)
        } else if str_eq(s, "short") {
            Some(PositionSide::Short)
        } else {
            None
        }
    }
}

/// Reading back the wire token of any variant gives that variant.
pub proof fn lemma_position_side_round_trip(v: PositionSide)
    ensures
        spec_position_side_from_wire(spec_position_side_wire(v)) == Some(v),
{
    reveal_strlit("long");
    reveal_strlit("short");
    assert("long"@.len() == 4);
    assert("short"@.len() == 5);
    match v {
        PositionSide::Long => {
            assert(spec_position_side_from_wire("long"@) == Some(PositionSide::Long));
        },
        PositionSide::Short => {
            assert(spec_position_side_from_wire("short"@) == Some(PositionSide::Short));
        },
    }
}

/// An option contract's listing status, as a query value.
#[derive(Debug, Clone, Copy, PartialEq, Eq)]
pub enum OptionStatus {
    Active,
    Inactive,
}

/// The wire token of each [`OptionStatus`] variant.
pub open spec fn spec_option_status_wire(v: OptionStatus) -> Seq<char> {
    match v {
        OptionStatus::Active => "active"@,
        OptionStatus::Inactive => "inactive"@,
    }
}

impl OptionStatus {
    /// The wire token of this variant.
    pub fn to_wire(&self) -> (r: &'static str)
        ensures
            r@ == spec_option_status_wire(*self),
    {
        match self {
            OptionStatus::Active => "active",
            OptionStatus::Inactive => "inactive",
        }
    }
}

/// The documented sentinel: the broker's empty string reads as
/// [`OrderClass::Empty`] instead of failing.
pub proof fn lemma_order_class_empty_sentinel()
    ensures
        spec_order_class_from_wire(""@) == Some(OrderClass::Empty),
{
    reveal_strlit("");
}

impl Default for Status {
    /// The default status is active.
    fn default() -> (r: Status)
        ensures
            r == Status::Active,
    {
        Status::Active
    }
}

impl Default for OptionStatus {
    /// The default filter lists active contracts.
    fn default() -> (r: OptionStatus)
        ensures
            r == OptionStatus::Active,
    {
        OptionStatus::Active
    }
}

} // verus!
