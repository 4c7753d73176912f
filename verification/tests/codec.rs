//! The wire codec: numeric normalisation, frame encoding, parsing, and
//! the error tables.

use alpaca::data::{encode_action, Action, AuthData, SubscriptionData};
use alpaca::entities::{decode_order, Exchange};
use alpaca::errors::{
    classify_history_status, classify_order_status, Error, HistoryError, OrderError, ProtocolError,
    RealtimeErrorCode,
};
use alpaca::json::{parse_json, JsonValue};
use alpaca::num::{format_decimal, parse_decimal, Decimal};
use alpaca::positions::close_position_params;
use alpaca::rest::{LIVE_TRADING_URL, PAPER_TRADING_URL};
use alpaca::streaming::{FrameQueue, MessageStream};
use alpaca::watchlist::{add_symbol_body, watchlist_body};
use alpaca::data::decode_market_message;

fn order_with_qty(qty: &str) -> String {
    let head = r#"{
        "id":"x","client_order_id":"y","created_at":"2021-11-08T20:51:49.909525Z",
        "updated_at":null,"submitted_at":null,"filled_at":null,"expired_at":null,
        "canceled_at":null,"failed_at":null,"replaced_at":null,"replaced_by":null,
        "replaces":null,"asset_id":"z","symbol":"BTI","asset_class":"us_equity",
        "notional":null,"qty":"#;
    let tail = r#","filled_qty":"0","filled_avg_price":null,"order_class":"simple",
        "type":"market","side":"buy","time_in_force":"day","limit_price":null,
        "stop_price":null,"status":"accepted","extended_hours":false,"legs":null,
        "trail_percent":null,"trail_price":null,"hwm":null}"#;
    format!("{}{}{}", head, qty, tail)
}

#[test]
fn numeric_normalization_round_trip() {
    // The same record with a quantity as the JSON string "30" and as the
    // JSON number 30 decodes to identical values.
    let as_string = parse_json(&order_with_qty(r#""30""#)).unwrap();
    let as_number = parse_json(&order_with_qty("30")).unwrap();
    let a = decode_order(&as_string).expect("string-shaped quantity decodes");
    let b = decode_order(&as_number).expect("number-shaped quantity decodes");
    assert_eq!(a.qty, b.qty);
    assert_eq!(a.qty, Some(Decimal { neg: false, units: 30, nanos: 0 }));

    // `null` for an optional quantity reads as absent, not as an error.
    let with_null = parse_json(&order_with_qty("null")).unwrap();
    let c = decode_order(&with_null).expect("null quantity decodes");
    assert_eq!(c.qty, None);
    assert_eq!(c.notional, None);
}

#[test]
fn decimal_parsing() {
    assert_eq!(
        parse_decimal("126.55"),
        Some(Decimal { neg: false, units: 126, nanos: 550_000_000 })
    );
    assert_eq!(parse_decimal("30"), Some(Decimal { neg: false, units: 30, nanos: 0 }));
    assert_eq!(
        parse_decimal("-0.000000001"),
        Some(Decimal { neg: true, units: 0, nanos: 1 })
    );
    assert_eq!(parse_decimal("-0"), Some(Decimal { neg: false, units: 0, nanos: 0 }));
    assert_eq!(parse_decimal(""), None);
    assert_eq!(parse_decimal("1."), None);
    assert_eq!(parse_decimal("1.0000000001"), None);
    assert_eq!(parse_decimal("abc"), None);
}

#[test]
fn decimal_formatting_round_trips() {
    let cases = [
        Decimal { neg: false, units: 0, nanos: 0 },
        Decimal { neg: false, units: 30, nanos: 0 },
        Decimal { neg: true, units: 126, nanos: 550_000_000 },
        Decimal { neg: true, units: 0, nanos: 1 },
        Decimal { neg: false, units: u64::MAX, nanos: 999_999_999 },
    ];
    for d in cases {
        let text = format_decimal(d);
        assert_eq!(parse_decimal(&text), Some(d), "{}", text);
    }
    assert_eq!(format_decimal(Decimal { neg: true, units: 3, nanos: 500_000_000 }), "-3.5");
    assert_eq!(format_decimal(Decimal { neg: false, units: 7, nanos: 0 }), "7");
}

#[test]
fn close_position_query() {
    let params = close_position_params(
        Some(Decimal { neg: false, units: 2, nanos: 500_000_000 }),
        None,
    );
    assert_eq!(params.len(), 1);
    assert_eq!(params[0].0, "qty");
    assert_eq!(params[0].1, "2.5");
}

#[test]
fn encode_auth_action() {
    let a = Action::Authenticate(AuthData {
        key: "PK123".to_string(),
        secret: "S\"ecret".to_string(),
    });
    let text = encode_action(&a);
    assert_eq!(text, r#"{"action":"auth","key":"PK123","secret":"S\"ecret"}"#);
    // The frame is one well-formed JSON document to the reference
    // implementation too, with the fields intact.
    let doc: serde_json::Value = serde_json::from_str(&text).unwrap();
    assert_eq!(doc["action"], "auth");
    assert_eq!(doc["secret"], "S\"ecret");
}

#[test]
fn encode_subscribe_action() {
    let a = Action::Subscribe(SubscriptionData {
        trades: Some(vec!["AAPL".to_string()]),
        quotes: Some(vec!["AMD".to_string(), "CLDR".to_string()]),
        bars: None,
    });
    let text = encode_action(&a);
    assert_eq!(
        text,
        r#"{"action":"subscribe","trades":["AAPL"],"quotes":["AMD","CLDR"],"bars":null}"#
    );
    let doc: serde_json::Value = serde_json::from_str(&text).unwrap();
    assert_eq!(doc["trades"][0], "AAPL");
    assert!(doc["bars"].is_null());
}

#[test]
fn handshake_frames_keep_their_order() {
    // Authenticate, then listen, without waiting for any acknowledgement:
    // both frames stand on the wire in that order.
    let mut q = FrameQueue::new();
    q.authenticate("k".to_string(), "s".to_string());
    q.listen(vec![MessageStream::TradeUpdates]);
    // Decoding an incoming acknowledgement touches no sender state.
    let ack = r#"{"stream":"authorization","data":{"action":"authenticate","status":"authorized"}}"#;
    assert!(alpaca::streaming::decode_stream_message(ack).is_ok());
    let frames = q.drain();
    assert_eq!(frames.len(), 2);
    assert_eq!(
        frames[0],
        r#"{"action":"authenticate","data":{"key_id":"k","secret_key":"s"}}"#
    );
    assert_eq!(
        frames[1],
        r#"{"action":"listen","data":{"streams":["trade_updates"]}}"#
    );
}

#[test]
fn unknown_discriminant_fails_loudly() {
    let r = decode_market_message(r#"{"T":"mystery","x":1}"#);
    assert_eq!(r, Err(Error::Protocol(ProtocolError::UnknownVariant)));
    let r = alpaca::streaming::decode_stream_message(r#"{"stream":"mystery"}"#);
    assert!(matches!(r, Err(Error::Protocol(ProtocolError::UnknownVariant))));
    let r = decode_market_message("not json at all");
    assert_eq!(r, Err(Error::Json));
    let r = decode_market_message(r#"{"T":"t","S":"AAPL"}"#);
    assert_eq!(r, Err(Error::Protocol(ProtocolError::MalformedFrame)));
}

#[test]
fn parser_agrees_with_reference() {
    let inputs = [
        r#"{"a":1,"b":[true,false,null],"c":"x\ny"}"#,
        r#"[1,2.5,-3e2,"s"]"#,
        r#"{"nested":{"deep":{"deeper":[{}]}}}"#,
        r#"  {  "spaced" : [ 1 , 2 ] }  "#,
        r#""just a string""#,
        r#"{"unterminated": "#,
        r#"{"trailing": 1,}"#,
        r#"[1 2]"#,
        "",
        "tru",
    ];
    for txt in inputs {
        let ours = parse_json(txt).is_some();
        let theirs = serde_json::from_str::<serde_json::Value>(txt).is_ok();
        assert_eq!(ours, theirs, "{:?}", txt);
    }
}

#[test]
fn market_batches() {
    // Control messages arrive in arrays of size one, data points in
    // longer arrays; the whole delivery decodes element-wise.
    let txt = r#"[{"T":"success","msg":"connected"}]"#;
    let batch = alpaca::data::decode_market_batch(txt).unwrap();
    assert_eq!(batch.len(), 1);
    let txt = r#"[
        {"T":"b","S":"SPY","o":1,"h":2,"l":0.5,"c":1.5,"v":10,"t":"2021-02-22T19:15:00Z"},
        {"T":"b","S":"QQQ","o":1,"h":2,"l":0.5,"c":1.5,"v":11,"t":"2021-02-22T19:15:00Z"}
    ]"#;
    let batch = alpaca::data::decode_market_batch(txt).unwrap();
    assert_eq!(batch.len(), 2);
    // One bad element fails the delivery with that element's error.
    let txt = r#"[{"T":"success","msg":"connected"},{"T":"mystery"}]"#;
    assert_eq!(
        alpaca::data::decode_market_batch(txt),
        Err(Error::Protocol(ProtocolError::UnknownVariant))
    );
    // A delivery that is not an array is malformed.
    assert_eq!(
        alpaca::data::decode_market_batch(r#"{"T":"success","msg":"x"}"#),
        Err(Error::Protocol(ProtocolError::MalformedFrame))
    );
}

#[test]
fn decode_a_snapshot() {
    let txt = r#"{
        "symbol": "AAPL",
        "latestTrade": {"i":1,"x":"V","p":120.5,"s":10,"t":"2021-02-22T15:51:44Z","c":[],"z":"C"},
        "latestQuote": {"ax":"Q","ap":120.6,"as":2,"bx":"U","bp":120.4,"bs":3,
                        "t":"2021-02-22T15:51:45Z","c":["R"],"z":"C"},
        "minuteBar": {"o":120,"h":121,"l":119,"c":120.5,"v":1000,"t":"2021-02-22T15:51:00Z"},
        "dailyBar": {"o":118,"h":122,"l":117,"c":120.5,"v":50000,"t":"2021-02-22T00:00:00Z"},
        "prevDailyBar": {"o":117,"h":119,"l":116,"c":118,"v":40000,"t":"2021-02-21T00:00:00Z"}
    }"#;
    let doc = parse_json(txt).unwrap();
    let snap = alpaca::data::decode_single_snapshot(&doc).expect("snapshot decodes");
    assert_eq!(snap.symbol, "AAPL");
    assert_eq!(
        snap.data.latest_trade.trade_price,
        Decimal { neg: false, units: 120, nanos: 500_000_000 }
    );
    assert_eq!(snap.data.prev_daily_bar.volume, 40000);
}

#[test]
fn duplicate_keys_take_the_first_binding() {
    let doc = parse_json(r#"{"a":1,"a":2}"#).unwrap();
    match doc.get("a") {
        Some(JsonValue::Num(n)) => assert_eq!(n, "1"),
        _ => panic!("expected the first binding"),
    }
}

#[test]
fn parser_reads_escapes() {
    let doc = parse_json(r#""a\"b\\c\nd\te""#).unwrap();
    match doc {
        JsonValue::Str(s) => assert_eq!(s, "a\"b\\c\nd\te"),
        _ => panic!("expected a string"),
    }
}

#[test]
fn exchange_codes() {
    assert_eq!(Exchange::from_wire("N"), Some(Exchange::NewYorkStockExchange));
    assert_eq!(Exchange::from_wire("V"), Some(Exchange::Iex));
    assert_eq!(Exchange::from_wire("?"), None);
}

#[test]
fn status_tables() {
    // History family: 400, 403, 404, 422, 429; anything else unexpected.
    assert_eq!(classify_history_status(200), Ok(()));
    assert_eq!(classify_history_status(400), Err(Error::History(HistoryError::BadRequest)));
    assert_eq!(classify_history_status(429), Err(Error::History(HistoryError::TooManyRequests)));
    assert_eq!(classify_history_status(418), Err(Error::Unexpected(418)));
    // Order family: 403, 404, 422, 500; success also on 204 and 207.
    assert_eq!(classify_order_status(204), Ok(()));
    assert_eq!(classify_order_status(207), Ok(()));
    assert_eq!(classify_order_status(403), Err(Error::Order(OrderError::Forbidden)));
    assert_eq!(classify_order_status(500), Err(Error::Order(OrderError::InternalError)));
    assert_eq!(classify_order_status(418), Err(Error::Unexpected(418)));
    // The realtime feed's own codes, wire number authoritative.
    assert_eq!(RealtimeErrorCode::from_code(406), Some(RealtimeErrorCode::ConnectionLimitExceeded));
    assert_eq!(RealtimeErrorCode::from_code(403), Some(RealtimeErrorCode::AlreadyAuthenticated));
    assert_eq!(RealtimeErrorCode::AlreadyAuthenticated.code(), 403);
    assert_eq!(RealtimeErrorCode::from_code(410), None);
}

#[test]
fn watchlist_bodies() {
    assert_eq!(
        watchlist_body("Monday List", &vec!["SPY".to_string(), "AMZN".to_string()]),
        r#"{"name":"Monday List","symbols":["SPY","AMZN"]}"#
    );
    assert_eq!(add_symbol_body("AAPL"), r#"{"symbol":"AAPL"}"#);
    let doc: serde_json::Value =
        serde_json::from_str(&watchlist_body("w", &vec![])).unwrap();
    assert_eq!(doc["symbols"].as_array().unwrap().len(), 0);
}

#[test]
fn environment_urls() {
    assert_eq!(LIVE_TRADING_URL, "https://api.alpaca.markets");
    assert_eq!(PAPER_TRADING_URL, "https://paper-api.alpaca.markets");
    assert_eq!(
        alpaca::watchlist::watchlists_url(PAPER_TRADING_URL),
        "https://paper-api.alpaca.markets/v2/watchlists"
    );
    assert_eq!(
        alpaca::assets::get_asset_url(LIVE_TRADING_URL, "AAPL"),
        "https://api.alpaca.markets//v2/assets/AAPL"
    );
}
