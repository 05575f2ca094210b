use alpaca_wire::dates::{Date, Timestamp};
use alpaca_wire::decimal::{Money, NumberAsString};
use alpaca_wire::enums::{
    AssetClass, Exchange, OptionStyle, OptionType, OrderClass, OrderType, PositionIntent, Side,
    TimeInForce,
};
use alpaca_wire::requests::{
    AllOrdersQueryParameter, AssetsQueryParameter, AssetsStatus, CalendarApiQueryParameter,
    CashflowTypes, ClosePositionParam, ComaSeparatedStrings, CorporateActionsDateType,
    CorporateActionsQueryParameter, DateType, DefaultBoolean, HistoryPeriod, HistoryTimeFrame,
    IntradayReporting, OptionContractsQueryParameter, OrderRequestBody, OrderStatus,
    OrdersDirection, PnlReset, PortfolioHistoryQueryParameter, ReplaceOrderByIdRequestBody,
    StopLoss, TakeProfit, WatchListReqBody,
};

fn csv(values: &[&str]) -> ComaSeparatedStrings {
    ComaSeparatedStrings {
        values: values.iter().map(|s| s.to_string()).collect(),
    }
}

fn money(token: &str) -> Money {
    Money::from_wire(token).unwrap()
}

#[test]
fn asset_query_parameter_serialization_test() {
    let parameter = AssetsQueryParameter {
        status: AssetsStatus::Active,
        asset_class: Some(AssetClass::UsEquity),
        exchange: Some(Exchange::NASDAQ),
        attributes: Some(csv(&["has_options", "ipo", "ptp_no_exception"])),
    };

    let serialized = parameter.to_json();
    let expected = r#"{"status":"Active","asset_class":"us_equity","exchange":"NASDAQ","attributes":"has_options,ipo,ptp_no_exception"}"#;
    assert_eq!(serialized, expected)
}

#[test]
fn test_calendar_api_query_parameter_serialize() {
    let parameters = CalendarApiQueryParameter {
        start: Some(Date { year: 2025, month: 1, day: 16 }),
        end: Some(Date { year: 2025, month: 1, day: 28 }),
        date_type: Some(DateType::Trading),
    };

    let parsed = parameters.to_json();
    assert_eq!(
        parsed,
        r#"{"start":"2025-01-16","end":"2025-01-28","date_type":"TRADING"}"#
    )
}

#[test]
fn test_corporate_query_parameter_serialization() {
    let parameter = &CorporateActionsQueryParameter {
        ca_types: csv(&["dividend", "merger"]),
        since: Date { year: 2025, month: 1, day: 30 },
        until: Date { year: 2025, month: 3, day: 30 },
        symbols: None,
        cusip: None,
        date_type: Some(CorporateActionsDateType::DeclarationDate),
    };
    let json = parameter.to_json();
    let expected = r#"{"ca_types":"dividend,merger","since":"2025-01-30","until":"2025-03-30","date_type":"declaration_date"}"#;
    assert_eq!(json, expected)
}

#[test]
fn test_option_contracts_query_parameter_serialize() {
    let parameter = OptionContractsQueryParameter {
        underlying_symbols: Some(csv(&["appl", "tsla"])),
        status: alpaca_wire::enums::OptionStatus::Active,
        show_deliverables: DefaultBoolean { value: true },
        expiration_date: None,
        expiration_date_gte: Some("2025-01-23".to_string()),
        expiration_date_lte: None,
        root_symbol: Some("AAPL".to_string()),
        _type: Some(OptionType::Call),
        style: Some(OptionStyle::American),
        strike_price_gte: Some(money("23.32")),
        strike_price_lte: None,
        page_token: Some("test-token".to_string()),
        limit: Some(100),
        ppind: None,
    };

    let json = parameter.to_json();

    assert_eq!(
        json,
        r#"{"underlying_symbols":"appl,tsla","show_deliverables":true,"status":"active","expiration_date_gte":"2025-01-23","root_symbol":"AAPL","type":"call","style":"american","strike_price_gte":23.32,"page_token":"test-token","limit":100}"#
    )
}

#[test]
fn order_request_serialization_test() {
    let order_request = OrderRequestBody {
        symbol: "AAPL".to_string(),
        qty: Some(NumberAsString::from_wire("43").unwrap()),
        notional: None,
        side: Side::Buy,
        _type: OrderType::Limit,
        time_in_force: TimeInForce::GTC,
        limit_price: Some(money("32")),
        stop_price: Some(money("43")),
        trail_price: None,
        trail_percent: None,
        extended_hours: Default::default(),
        client_order_id: None,
        order_class: Some(OrderClass::Simple),
        legs: vec![],
        take_profit: Some(TakeProfit { limit_price: money("30") }),
        stop_loss: Some(StopLoss {
            stop_price: money("20.43"),
            limit_price: money("23.23"),
        }),
        position_intent: Some(PositionIntent::BuyToClose),
    };

    let serialized = order_request.to_json();

    let expected = r#"{"symbol":"AAPL","qty":"43","side":"buy","type":"limit","time_in_force":"gtc","limit_price":"32","stop_price":"43","extended_hours":false,"client_order_id":null,"order_class":"simple","take_profit":{"limit_price":"30"},"stop_loss":{"stop_price":"20.43","limit_price":"23.23"},"position_intent":"buy_to_close"}"#;
    assert_eq!(serialized, expected);
}

#[test]
fn orders_parameter_serialization_test() {
    let orders_query = AllOrdersQueryParameter {
        status: Some(OrderStatus::Open),
        limit: Some(50),
        after: None,
        until: None,
        direction: Some(OrdersDirection::Desc),
        nested: Some(true),
        symbols: Some(csv(&["AAPL", "TSLA"])),
        side: None,
        asset_class: Some(csv(&["us_option", "crypto"])),
        before_order_id: None,
        after_order_id: None,
    };

    let serialized = orders_query.to_json();

    let expected = r#"{"status":"open","limit":50,"direction":"desc","nested":true,"symbols":"AAPL,TSLA","asset_class":"us_option,crypto"}"#;
    assert_eq!(serialized, expected);
}

#[test]
fn replace_order_by_id_request_body_serialization() {
    let body = ReplaceOrderByIdRequestBody {
        qty: NumberAsString::from_wire("4").unwrap(),
        time_in_force: TimeInForce::DAY,
        limit_price: money("100"),
        stop_price: money("90"),
        trail: money("10"),
        client_order_id: String::from("test_client_order_id"),
    };

    let serialized = body.to_json();
    let expected = r#"{"qty":"4","time_in_force":"day","limit_price":"100","stop_price":"90","trail":"10","client_order_id":"test_client_order_id"}"#;

    assert_eq!(serialized, expected)
}

#[test]
fn test_portfolio_history_query_parameter() {
    let start = Timestamp {
        date: Date { year: 2025, month: 1, day: 21 },
        hour: 5,
        minute: 32,
        second: 12,
        offset_neg: false,
        offset_hour: 0,
        offset_minute: 0,
    };
    let end = Timestamp {
        date: Date { year: 2025, month: 2, day: 21 },
        hour: 5,
        minute: 32,
        second: 12,
        offset_neg: false,
        offset_hour: 0,
        offset_minute: 0,
    };
    let query_params = PortfolioHistoryQueryParameter {
        period: Some(HistoryPeriod::Day(30)),
        timeframe: Some(HistoryTimeFrame::Minute(5)),
        intraday_reporting: Some(IntradayReporting::MarketHours),
        start: Some(start),
        pnl_reset: Some(PnlReset::PerDay),
        end: Some(end),
        extended_hours: Some("true".to_string()),
        cashflow_types: Some(CashflowTypes::All),
    };

    let serialized = query_params.to_json();
    let expected = r#"{"period":"30D","timeframe":"5Min","intraday_reporting":"market_hours","start":"2025-01-21T05:32:12Z","pnl_reset":"per_day","end":"2025-02-21T05:32:12Z","extended_hours":"true","cashflow_types":"ALL"}"#;

    assert_eq!(serialized, expected)
}

#[test]
fn test_close_postion_param_serialization() {
    let qty_ser = ClosePositionParam::Qty(money("5.3")).wire_token();
    assert_eq!(qty_ser, "5.3");

    let percentage_ser = ClosePositionParam::Percentage(money("54.2")).wire_token();
    assert_eq!(percentage_ser, "54.2")
}

#[test]
fn test_watch_list_req_body() {
    let request_body = WatchListReqBody {
        name: "test".to_string(),
        symbols: vec!["META".to_string(), "GOGL".to_string()],
    };

    let serialized = request_body.to_json();
    let expected = r#"{"name":"test","symbols":["META","GOGL"]}"#;
    assert_eq!(serialized, expected)
}

#[test]
fn history_period_and_timeframe_tokens() {
    assert_eq!(HistoryPeriod::Day(30).wire_token(), "30D");
    assert_eq!(HistoryPeriod::Week(2).wire_token(), "2W");
    assert_eq!(HistoryPeriod::Month(6).wire_token(), "6M");
    assert_eq!(HistoryPeriod::Year(1).wire_token(), "1A");
    assert_eq!(HistoryTimeFrame::Minute(5).wire_token(), "5Min");
    assert_eq!(HistoryTimeFrame::Hour(2).wire_token(), "2H");
    assert_eq!(HistoryTimeFrame::Day(1).wire_token(), "1D");
}

#[test]
fn comma_separated_strings_join() {
    let c = csv(&["has_options", "ipo", "ptp_no_exception"]);
    assert_eq!(c.joined(), "has_options,ipo,ptp_no_exception");
    assert_eq!(csv(&[]).joined(), "");
    assert_eq!(csv(&["one"]).joined(), "one");
}

#[test]
fn query_pairs_follow_declaration_order_and_skip_absent() {
    let orders_query = AllOrdersQueryParameter {
        status: Some(OrderStatus::Open),
        limit: Some(50),
        after: None,
        until: None,
        direction: Some(OrdersDirection::Desc),
        nested: Some(true),
        symbols: Some(csv(&["AAPL", "TSLA"])),
        side: None,
        asset_class: Some(csv(&["us_option", "crypto"])),
        before_order_id: None,
        after_order_id: None,
    };
    let pairs = orders_query.query_pairs();
    let expected: Vec<(String, String)> = vec![
        ("status".into(), "open".into()),
        ("limit".into(), "50".into()),
        ("direction".into(), "desc".into()),
        ("nested".into(), "true".into()),
        ("symbols".into(), "AAPL,TSLA".into()),
        ("asset_class".into(), "us_option,crypto".into()),
    ];
    assert_eq!(pairs, expected);
}

#[test]
fn json_strings_are_escaped() {
    let body = WatchListReqBody {
        name: "a \"quoted\"\nname\\".to_string(),
        symbols: vec![],
    };
    assert_eq!(
        body.to_json(),
        r#"{"name":"a \"quoted\"\nname\\","symbols":[]}"#
    );
}
