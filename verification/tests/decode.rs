//! Decoding the vendor's documented example payloads.

use alpaca::data::decode_market_message;
use alpaca::entities::{decode_asset, decode_order, decode_position, decode_watchlist};
use alpaca::json::{parse_json, JsonValue};
use alpaca::streaming::decode_stream_message;

const ORDER_JSON: &str = r#"{
    "id":"81859481-60e1-48d2-ba43-8279af711b9e",
    "client_order_id":"a50ffe4e-e631-446e-ad57-ba7fa5f1718c",
    "created_at":"2021-11-08T20:51:49.909525Z",
    "updated_at":"2021-11-08T20:51:49.909525Z",
    "submitted_at":"2021-11-08T20:51:49.903435Z",
    "filled_at":null,
    "expired_at":null,
    "canceled_at":null,
    "failed_at":null,
    "replaced_at":null,
    "replaced_by":null,
    "replaces":null,
    "asset_id":"d9b3d190-0046-4aba-b668-a9c8f9f6787d",
    "symbol":"BTI",
    "asset_class":"us_equity",
    "notional":null,
    "qty":"30",
    "filled_qty":"0",
    "filled_avg_price":null,
    "order_class":"simple",
    "order_type":"market",
    "type":"market",
    "side":"buy",
    "time_in_force":"day",
    "limit_price":null,
    "stop_price":null,
    "status":"accepted",
    "extended_hours":false,
    "legs":null,
    "trail_percent":null,
    "trail_price":null,
    "hwm":null
}"#;

#[test]
fn test_deserialize_trade() {
    let txt = r#"{
        "T": "t",
        "i": 96921,
        "S": "AAPL",
        "x": "D",
        "p": 126.55,
        "s": 1,
        "t": "2021-02-22T15:51:44.208Z",
        "c": [
          "@",
          "I"
        ],
        "z": "C"
      }"#;
    let deserialized = decode_market_message(txt);
    assert!(deserialized.is_ok());
}

#[test]
fn test_deserialize_quote() {
    let txt = r#"{
        "T": "q",
        "S": "AMD",
        "bx": "U",
        "bp": 87.66,
        "bs": 1,
        "ax": "Q",
        "ap": 87.68,
        "as": 4,
        "t": "2021-02-22T15:51:45.335689322Z",
        "c": [
          "R"
        ],
        "z": "C"
      }"#;
    let deserialized = decode_market_message(txt);
    assert!(deserialized.is_ok());
}

#[test]
fn test_deserialize_bar() {
    let txt = r#"{
        "T": "b",
        "S": "SPY",
        "o": 388.985,
        "h": 389.13,
        "l": 388.975,
        "c": 389.12,
        "v": 49378,
        "t": "2021-02-22T19:15:00Z"
      }"#;
    let deserialized = decode_market_message(txt);
    assert!(deserialized.is_ok());
}

#[test]
fn data_test_deserialize_order() {
    let doc = parse_json(ORDER_JSON).expect("order payload parses");
    let deserialized = decode_order(&doc);
    println!("{:?}", deserialized.is_some());
    assert!(deserialized.is_some());
}

#[test]
fn entities_test_deserialize_order() {
    let doc = parse_json(ORDER_JSON).expect("order payload parses");
    let deserialized = decode_order(&doc);
    println!("{:?}", deserialized.is_some());
    assert!(deserialized.is_some());
}

#[test]
fn test_deserialize_position() {
    let txt = r#"{
      "asset_id": "904837e3-3b76-47ec-b432-046db621571b",
      "symbol": "AAPL ",
      "exchange": "NASDAQ",
      "asset_class": "us_equity",
      "avg_entry_price": "100.0",
      "qty": "5",
      "side": "long",
      "market_value": "600.0",
      "cost_basis": "500.0",
      "unrealized_pl": "100.0",
      "unrealized_plpc": "0.20",
      "unrealized_intraday_pl": "10.0",
      "unrealized_intraday_plpc": "0.0084",
      "current_price": "120.0",
      "lastday_price": "119.0",
      "change_today": "0.0084"
    }"#;
    let doc = parse_json(txt).expect("position payload parses");
    let deserialized = decode_position(&doc);
    println!("{:?}", deserialized.is_some());
    assert!(deserialized.is_some());
}

#[test]
fn test_deserialize_asset() {
    let txt = r#"{
      "id": "904837e3-3b76-47ec-b432-046db621571b",
      "class": "us_equity",
      "exchange": "NASDAQ",
      "symbol": "AAPL",
      "status": "active",
      "tradable": true,
      "marginable": true,
      "shortable": true,
      "easy_to_borrow": true,
      "fractionable": true
    }"#;
    let doc = parse_json(txt).expect("asset payload parses");
    let deserialized = decode_asset(&doc);
    println!("{:?}", deserialized.is_some());
    assert!(deserialized.is_some());
}

#[test]
fn deserialize_watchlist() {
    let txt = r#"{
            "account_id": "1d5493c9-ea39-4377-aa94-340734c368ae",
            "assets": [
                {
                    "class": "us_equity",
                    "easy_to_borrow": true,
                    "exchange": "ARCA",
                    "id": "b28f4066-5c6d-479b-a2af-85dc1a8f16fb",
                    "marginable": true,
                    "shortable": true,
                    "status": "active",
                    "symbol": "SPY",
                    "tradable": true
                },
                {
                    "class": "us_equity",
                    "easy_to_borrow": false,
                    "exchange": "NASDAQ",
                    "id": "f801f835-bfe6-4a9d-a6b1-ccbb84bfd75f",
                    "marginable": true,
                    "shortable": false,
                    "status": "active",
                    "symbol": "AMZN",
                    "tradable": true
                }
            ],
            "created_at": "2019-10-30T07:54:42.981322Z",
            "id": "fb306e55-16d3-4118-8c3d-c1615fcd4c03",
            "name": "Monday List",
            "updated_at": "2019-10-30T07:54:42.981322Z"
        }"#;
    let doc = parse_json(txt).expect("watchlist payload parses");
    let rsp = decode_watchlist(&doc);
    println!("{:?}", rsp.is_some());
    assert!(rsp.is_some());
}

#[test]
fn deserialize_empty_watchlist() {
    let txt = r#"[
        {"id":"0b956f78-3c49-416f-aea9-9cfc944a9df4",
        "account_id":"823c5bc5-46f3-4f24-8d08-e0864d536f4e",
        "created_at":"2021-11-09T17:45:56.000167Z",
        "updated_at":"2021-11-09T17:45:56.000167Z",
        "name":"Primary Watchlist"
        }]"#;
    let doc = parse_json(txt).expect("watchlist array parses");
    let rsp = match &doc {
        JsonValue::Arr(items) => {
            let mut all = Vec::new();
            for item in items {
                all.push(decode_watchlist(item));
            }
            all
        },
        _ => panic!("expected an array of watchlists"),
    };
    println!("{:?}", rsp.iter().all(|w| w.is_some()));
    assert!(rsp.iter().all(|w| w.is_some()))
}

#[test]
fn deserialize_auth_response() {
    let text = r#"{"stream":"authorization","data":{"action":"authenticate","status":"authorized"}}"#;
    let deserialized = decode_stream_message(text);
    println!("{:?}", deserialized.is_ok());
    assert!(deserialized.is_ok());
}

#[test]
fn deserialize_order_response() {
    let text = r#"{
        "stream": "trade_updates",
        "data": {
            "event": "fill",
            "execution_id": "b0c17642-209c-4a21-9650-915a755dc4ce",
            "order": {
                "asset_class": "us_equity",
                "asset_id": "b6d1aa75-5c9c-4353-a305-9e2caa1925ab",
                "canceled_at": null,
                "client_order_id": "ad1a656c-c524-421b-a1ff-c84bb1b4ae38",
                "created_at": "2021-11-11T17:11:17.353294Z",
                "expired_at": null,
                "extended_hours": false,
                "failed_at": null,
                "filled_at": "2021-11-11T17:11:17.557793Z",
                "filled_avg_price": "333.16",
                "filled_qty": "1",
                "hwm": null,
                "id": "810f77c9-fd3f-4a10-a78c-046c611f26db",
                "legs": null,
                "limit_price": null,
                "notional": null,
                "order_class": "simple",
                "order_type": "market",
                "qty": "1",
                "replaced_at": null,
                "replaced_by": null,
                "replaces": null,
                "side": "buy",
                "status": "filled",
                "stop_price": null,
                "submitted_at": "2021-11-11T17:11:17.347956Z",
                "symbol": "MSFT",
                "time_in_force": "day",
                "trail_percent": null,
                "trail_price": null,
                "type": "market",
                "updated_at": "2021-11-11T17:11:17.594109Z"
            },
            "position_qty": "1",
            "price": "333.16",
            "qty": "1",
            "timestamp": "2021-11-11T17:11:17.557793708Z"
        }
    }"#;
    let deserialized = decode_stream_message(text);
    println!("{:?}", deserialized.is_ok());
    assert!(deserialized.is_ok());
}
