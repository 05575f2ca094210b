use alpaca_wire::account::account_from_json;
use alpaca_wire::assets::asset_from_json;
use alpaca_wire::dates::{Date, Timestamp, TimeOfDay};
use alpaca_wire::decimal::Money;
use alpaca_wire::decode::{get_money, DecodeError};
use alpaca_wire::enums::{
    AccountStatus, AssetClass, OrderClass, OrderStatus, PositionIntent, Side, Status,
    TimeInForce,
};
use alpaca_wire::error::{error_response_from_json, http_error, ApiError, ErrorResponse};
use alpaca_wire::http::{classify_response, decode_account_response, decode_order_response};
use alpaca_wire::json::parse_json;
use alpaca_wire::market::{market_calendar_from_json, market_clock_from_json};
use alpaca_wire::orders::order_from_json;
use alpaca_wire::portfolio::portfolio_history_from_json;

const ACCOUNT_BODY: &str = r#"{
    "id": "fff0e281-2a5a-4b97-8dcc-790a439a49b2",
    "admin_configurations": {},
    "user_configurations": null,
    "account_number": "PA39J45DA4AZ",
    "status": "ACTIVE",
    "crypto_status": "ACTIVE",
    "options_approved_level": 3,
    "options_trading_level": 3,
    "currency": "USD",
    "buying_power": "200000",
    "regt_buying_power": "200000",
    "daytrading_buying_power": "0",
    "effective_buying_power": "200000",
    "non_marginable_buying_power": "100000",
    "options_buying_power": "100000",
    "bod_dtbp": "0",
    "cash": "100000",
    "accrued_fees": "0",
    "portfolio_value": "100000",
    "pattern_day_trader": false,
    "trading_blocked": false,
    "transfers_blocked": false,
    "account_blocked": false,
    "created_at": "2024-10-31T15:46:03.666425Z",
    "trade_suspended_by_user": false,
    "multiplier": "2",
    "shorting_enabled": true,
    "equity": "100000",
    "last_equity": "100000",
    "long_market_value": "0",
    "short_market_value": "0",
    "position_market_value": "0",
    "initial_margin": "0",
    "maintenance_margin": "0",
    "last_maintenance_margin": "0",
    "sma": "100000",
    "daytrade_count": 0,
    "balance_asof": "2025-10-31",
    "crypto_tier": 1,
    "intraday_adjustments": "0",
    "pending_reg_taf_fees": "0"
}"#;

const ORDER_BODY: &str = r#"{
    "id": "bff50af3-8fb4-4a7e-8ffe-6527cdf6b453",
    "client_order_id": "1df8303c-e84c-402c-85db-819008f479de",
    "created_at": "2025-11-09T14:59:48.961029974Z",
    "updated_at": "2025-11-09T14:59:48.962700853Z",
    "submitted_at": "2025-11-09T14:59:48.961029974Z",
    "filled_at": null,
    "expired_at": null,
    "canceled_at": null,
    "failed_at": null,
    "replaced_at": null,
    "replaced_by": null,
    "replaces": null,
    "asset_id": "b0b6dd9d-8b9b-48a9-ba46-b9d54906e415",
    "symbol": "AAPL",
    "asset_class": "us_equity",
    "notional": null,
    "qty": "2",
    "filled_qty": "0",
    "filled_avg_price": null,
    "order_class": "",
    "order_type": "market",
    "type": "market",
    "side": "buy",
    "position_intent": "buy_to_open",
    "time_in_force": "day",
    "limit_price": null,
    "stop_price": null,
    "status": "accepted",
    "extended_hours": false,
    "legs": null,
    "trail_percent": null,
    "trail_price": null,
    "hwm": null,
    "subtag": null,
    "source": null,
    "expires_at": "2025-11-10T21:00:00Z"
}"#;

#[test]
fn money_decodes_string_int_and_float_tokens_alike() {
    let v = parse_json(r#"{"a": "43", "b": 43, "c": 43.0}"#).unwrap();
    let a = get_money(&v, "a").unwrap();
    let b = get_money(&v, "b").unwrap();
    let c = get_money(&v, "c").unwrap();
    assert_eq!(a, b);
    assert_eq!(b, c);
    assert_eq!(a.wire_token(), "43");
}

#[test]
fn money_normalizes_to_one_canonical_token() {
    for raw in ["20.43", "020.430", "-0.50", "0", "-0", "1000000"] {
        let m = Money::from_wire(raw).unwrap();
        let canon = m.wire_token();
        let again = Money::from_wire(&canon).unwrap();
        assert_eq!(again, m);
        assert_eq!(again.wire_token(), canon);
    }
    assert_eq!(Money::from_wire("20.430").unwrap().wire_token(), "20.43");
    assert_eq!(Money::from_wire("-0").unwrap().wire_token(), "0");
    assert!(Money::from_wire("abc").is_none());
    assert!(Money::from_wire("1.2.3").is_none());
    assert!(Money::from_wire("").is_none());
}

#[test]
fn enum_tokens_round_trip_and_reject_unknown() {
    for v in [
        OrderClass::Simple,
        OrderClass::Oco,
        OrderClass::Otc,
        OrderClass::Trigger,
        OrderClass::Bracket,
        OrderClass::Mleg,
        OrderClass::Empty,
    ] {
        assert_eq!(OrderClass::from_wire(v.to_wire()), Some(v));
    }
    assert_eq!(OrderClass::from_wire(""), Some(OrderClass::Empty));
    assert_eq!(OrderClass::from_wire("nope"), None);

    for v in [Side::Buy, Side::Sell] {
        assert_eq!(Side::from_wire(v.to_wire()), Some(v));
    }
    for v in [TimeInForce::DAY, TimeInForce::GTC, TimeInForce::FOK] {
        assert_eq!(TimeInForce::from_wire(v.to_wire()), Some(v));
    }
    for v in [AccountStatus::Active, AccountStatus::SubmissionFailed] {
        assert_eq!(AccountStatus::from_wire(v.to_wire()), Some(v));
    }
    for v in [
        OrderStatus::New,
        OrderStatus::PartiallyFilled,
        OrderStatus::AcceptedForBidding,
    ] {
        assert_eq!(OrderStatus::from_wire(v.to_wire()), Some(v));
    }
    assert_eq!(Status::from_wire("inactive"), Some(Status::Inactive));
    assert_eq!(Status::from_wire("ACTIVE"), None);
}

#[test]
fn order_with_empty_order_class_decodes_to_the_sentinel() {
    let v = parse_json(ORDER_BODY).unwrap();
    let order = order_from_json(&v).unwrap();
    assert_eq!(order.order_class, OrderClass::Empty);
    assert_eq!(order.position_intent, PositionIntent::BuyToOpen);
    assert_eq!(order.id, "bff50af3-8fb4-4a7e-8ffe-6527cdf6b453");
    assert_eq!(order.qty.as_ref().map(|q| q.wire_token()), Some("2".to_string()));
    assert_eq!(order.asset_class, AssetClass::UsEquity);
    assert!(order.legs.is_none());
    assert_eq!(order.created_at.unwrap().date, Date { year: 2025, month: 11, day: 9 });
}

#[test]
fn order_with_unknown_enum_token_fails_with_unknown_variant() {
    let bad = ORDER_BODY.replace("\"side\": \"buy\"", "\"side\": \"hold\"");
    let v = parse_json(&bad).unwrap();
    match order_from_json(&v) {
        Err(DecodeError::UnknownVariant { field, raw }) => {
            assert_eq!(field, "side");
            assert_eq!(raw, "hold");
        }
        other => panic!("expected an unknown-variant error, got {:?}", other),
    }
}

#[test]
fn nested_legs_decode_recursively() {
    let body = format!(
        "{}{}{}",
        &ORDER_BODY[..ORDER_BODY.rfind("\"legs\": null").unwrap()],
        format!("\"legs\": [{}]", ORDER_BODY),
        &ORDER_BODY[ORDER_BODY.rfind("\"legs\": null").unwrap() + "\"legs\": null".len()..],
    );
    let v = parse_json(&body).unwrap();
    let order = order_from_json(&v).unwrap();
    let legs = order.legs.unwrap();
    assert_eq!(legs.len(), 1);
    assert_eq!(legs[0].order_class, OrderClass::Empty);
    assert!(legs[0].legs.is_none());
}

#[test]
fn account_body_decodes() {
    let v = parse_json(ACCOUNT_BODY).unwrap();
    let account = account_from_json(&v).unwrap();
    assert_eq!(account.id, "fff0e281-2a5a-4b97-8dcc-790a439a49b2");
    assert_eq!(account.cash.wire_token(), "100000");
    assert_eq!(account.portfolio_value.wire_token(), "100000");
    assert_eq!(account.status, AccountStatus::Active);
    assert_eq!(account.multiplier, 2);
    assert_eq!(account.daytrade_count, 0);
    assert_eq!(account.balance_asof, Date { year: 2025, month: 10, day: 31 });
    assert_eq!(account.created_at.date, Date { year: 2024, month: 10, day: 31 });
    assert_eq!(account.pending_transfer_in, None);
}

#[test]
fn account_response_pipeline_classifies_statuses() {
    let ok = decode_account_response(200, ACCOUNT_BODY).unwrap();
    assert_eq!(ok.account_number, "PA39J45DA4AZ");

    match decode_account_response(404, "Account not found") {
        Err(ApiError::Http { error }) => {
            assert_eq!(
                error.display_string(),
                "code: 404, message: \"Account not found\""
            );
        }
        other => panic!("expected an HTTP error, got {:?}", other),
    }

    match decode_account_response(200, "not json at all") {
        Err(ApiError::BadBody { .. }) => {}
        other => panic!("expected a bad-body error, got {:?}", other),
    }
}

#[test]
fn order_response_pipeline_decodes_success() {
    let order = decode_order_response(200, ORDER_BODY).unwrap();
    assert_eq!(order.symbol, "AAPL");
    assert_eq!(order.status, OrderStatus::Accepted);
}

#[test]
fn error_body_surfaces_verbatim() {
    let v = parse_json(r#"{"code":40410000,"message":"asset not found for FAKE"}"#).unwrap();
    let e = error_response_from_json(&v).unwrap();
    assert_eq!(e.code(), 40410000);
    assert_eq!(
        e.display_string(),
        "code: 40410000, message: \"asset not found for FAKE\""
    );

    match http_error(404, r#"{"code":40410000,"message":"asset not found for FAKE"}"#) {
        ApiError::Http { error } => {
            assert_eq!(
                error.display_string(),
                "code: 40410000, message: \"asset not found for FAKE\""
            );
        }
        other => panic!("expected an HTTP error, got {:?}", other),
    }
}

#[test]
fn synthetic_error_from_non_json_body() {
    match http_error(500, "gateway fell over") {
        ApiError::Http { error } => {
            assert_eq!(error.code(), 500);
            assert_eq!(error.message(), "gateway fell over");
        }
        other => panic!("expected an HTTP error, got {:?}", other),
    }
    let built = ErrorResponse::new(404, "Account not found".to_string());
    assert_eq!(
        built.display_string(),
        "code: 404, message: \"Account not found\""
    );
}

#[test]
fn asset_body_decodes() {
    let body = r#"{
        "id": "9debbce9-2270-4e40-946a-bdea8ffc1ad3",
        "class": "us_equity",
        "exchange": "OTC",
        "symbol": "CKNHF",
        "name": "Clarkson Horace Plc Ordinary Shares",
        "status": "inactive",
        "tradable": false,
        "marginable": false,
        "maintenance_margin_requirement": 100,
        "margin_requirement_long": "100",
        "margin_requirement_short": "100",
        "shortable": false,
        "easy_to_borrow": false,
        "fractionable": false,
        "attributes": []
    }"#;
    let v = parse_json(body).unwrap();
    let asset = asset_from_json(&v).unwrap();
    assert!(asset.attributes.is_empty());
    assert_eq!(asset.status, Status::Inactive);
    assert_eq!(
        asset.margin_requirement_long.as_ref().map(|m| m.wire_token()),
        Some("100".to_string())
    );
    assert_eq!(asset.cusip, None);
}

#[test]
fn market_clock_and_calendar_decode() {
    let clock_body = r#"{
        "is_open": true,
        "next_close": "2025-11-14T16:00:00-05:00",
        "next_open": "2025-11-17T09:30:00-05:00",
        "timestamp": "2025-11-14T15:56:46.539081981-05:00"
    }"#;
    let clock = market_clock_from_json(&parse_json(clock_body).unwrap()).unwrap();
    assert!(clock.is_open);
    assert_eq!(clock.next_open.date, Date { year: 2025, month: 11, day: 17 });
    assert_eq!(clock.next_close.date, Date { year: 2025, month: 11, day: 14 });
    assert_eq!(clock.timestamp.hour, 15);
    assert!(clock.timestamp.offset_neg);
    assert_eq!(clock.timestamp.offset_hour, 5);

    let cal_body = r#"{
        "close": "16:00",
        "date": "1970-01-02",
        "open": "09:30",
        "session_close": "2000",
        "session_open": "0400",
        "settlement_date": "1970-01-09"
    }"#;
    let cal = market_calendar_from_json(&parse_json(cal_body).unwrap()).unwrap();
    assert_eq!(cal.date, Date { year: 1970, month: 1, day: 2 });
    assert_eq!(cal.open, TimeOfDay { hour: 9, minute: 30, second: 0 });
    assert_eq!(cal.close, TimeOfDay { hour: 16, minute: 0, second: 0 });
}

#[test]
fn portfolio_history_decodes() {
    let body = r#"{
        "timestamp": [0],
        "equity": [0],
        "profit_loss": [0],
        "profit_loss_pct": [0.001, 0.002],
        "base_value": 100000,
        "base_value_asof": "2023-10-20",
        "timeframe": "15Min",
        "cashflow": {}
    }"#;
    let h = portfolio_history_from_json(&parse_json(body).unwrap()).unwrap();
    assert_eq!(h.timestamp, vec![0]);
    assert_eq!(h.profit_loss_pct.len(), 2);
    assert_eq!(h.profit_loss_pct[0].wire_token(), "0.001");
    assert_eq!(h.base_value.wire_token(), "100000");
    assert_eq!(h.timeframe, "15Min");
    assert!(h.cashflow.unwrap().fee.is_none());
}

#[test]
fn dates_and_timestamps_parse_strictly() {
    assert_eq!(
        Date::from_wire("2025-01-16"),
        Some(Date { year: 2025, month: 1, day: 16 })
    );
    assert_eq!(Date::from_wire("2025-02-30"), None);
    assert_eq!(Date::from_wire("2024-02-29"), Some(Date { year: 2024, month: 2, day: 29 }));
    assert_eq!(Date::from_wire("2025-1-16"), None);

    let t = Timestamp::from_wire("2025-01-21T05:32:12Z").unwrap();
    assert_eq!(t.wire_token(), "2025-01-21T05:32:12Z");
    let off = Timestamp::from_wire("2025-11-15T22:34:58+01:00").unwrap();
    assert!(!off.offset_neg);
    assert_eq!(off.offset_hour, 1);
    assert!(Timestamp::from_wire("2025-01-21 05:32:12Z").is_none());
    assert!(Timestamp::from_wire("2025-01-21T05:32:12.").is_none());
}

#[test]
fn uuid_fields_are_validated_and_lowered() {
    let body = ORDER_BODY.replace(
        "bff50af3-8fb4-4a7e-8ffe-6527cdf6b453",
        "BFF50AF3-8FB4-4A7E-8FFE-6527CDF6B453",
    );
    let order = order_from_json(&parse_json(&body).unwrap()).unwrap();
    assert_eq!(order.id, "bff50af3-8fb4-4a7e-8ffe-6527cdf6b453");

    let bad = ORDER_BODY.replace(
        "bff50af3-8fb4-4a7e-8ffe-6527cdf6b453",
        "not-a-uuid",
    );
    assert!(order_from_json(&parse_json(&bad).unwrap()).is_err());
}

#[test]
fn missing_and_mistyped_members_fail_with_their_field() {
    let body = ORDER_BODY.replace("\"symbol\": \"AAPL\",", "");
    match order_from_json(&parse_json(&body).unwrap()) {
        Err(DecodeError::Missing { field }) => assert_eq!(field, "symbol"),
        other => panic!("expected a missing-field error, got {:?}", other),
    }

    let body = ORDER_BODY.replace("\"extended_hours\": false", "\"extended_hours\": \"no\"");
    match order_from_json(&parse_json(&body).unwrap()) {
        Err(DecodeError::WrongType { field }) => assert_eq!(field, "extended_hours"),
        other => panic!("expected a wrong-type error, got {:?}", other),
    }

    let body = ORDER_BODY.replace("\"qty\": \"2\"", "\"qty\": \"two\"");
    match order_from_json(&parse_json(&body).unwrap()) {
        Err(DecodeError::BadValue { field, raw }) => {
            assert_eq!(field, "qty");
            assert_eq!(raw, "two");
        }
        other => panic!("expected a bad-value error, got {:?}", other),
    }
}

#[test]
fn classification_error_carries_the_body_content() {
    match classify_response(404, r#"{"code":40410000,"message":"asset not found for FAKE"}"#) {
        Err(ApiError::Http { error }) => {
            assert_eq!(error.code(), 40410000);
            assert_eq!(
                error.display_string(),
                "code: 40410000, message: \"asset not found for FAKE\""
            );
        }
        other => panic!("expected an HTTP error, got {:?}", other),
    }

    match classify_response(500, "bad gateway") {
        Err(ApiError::Http { error }) => {
            assert_eq!(error.code(), 500);
            assert_eq!(error.message(), "bad gateway");
        }
        other => panic!("expected an HTTP error, got {:?}", other),
    }

    assert!(classify_response(207, "[]").is_ok());
    assert!(classify_response(204, "").is_ok());
}
