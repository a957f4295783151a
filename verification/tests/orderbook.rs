//! Tests of the `/market/orderbook` reply at both depths.

use kollider_api::api::{
    KeyPrice, MarginType, OrderBook, OrderBookLevel, OrderBookLevel2, OrderBookLevel3,
    OrderBookResp, OrderDetails, OrderSide, OrderType, SettlementType,
};
use kollider_api::json::{parse_json, NumStr};

fn parsed(s: &str) -> kollider_api::json::Json {
    parse_json(s).expect("test sample must be well-formed JSON")
}

const LEVEL2_SAMPLE: &str = r#"
{
    "book": {
        "asks": {
            "486950": 1016,
            "487195": 1071,
            "487440": 1126,
            "487680": 1181,
            "487925": 1236,
            "488170": 1291,
            "488415": 1346,
            "488725": 1161,
            "499360": 120,
            "515030": 9,
            "517200": 207,
            "517210": 371
        },
        "bids": {
            "400000": 3,
            "485140": 1401,
            "485380": 1346,
            "485625": 1291,
            "485870": 1236,
            "486110": 1181,
            "486355": 1126,
            "486595": 1071,
            "486840": 1016
        }
    },
    "level": "Level2",
    "seq_number": 8411464,
    "symbol": "BTCUSD.PERP"
}"#;

fn expected_level2() -> OrderBookResp {
    OrderBookResp {
        level: OrderBookLevel::Level2,
        seq_number: 8411464,
        symbol: "BTCUSD.PERP".to_owned(),
        book: OrderBook::Level2(OrderBookLevel2 {
            asks: vec![
                (KeyPrice(486950), 1016),
                (KeyPrice(487195), 1071),
                (KeyPrice(487440), 1126),
                (KeyPrice(487680), 1181),
                (KeyPrice(487925), 1236),
                (KeyPrice(488170), 1291),
                (KeyPrice(488415), 1346),
                (KeyPrice(488725), 1161),
                (KeyPrice(499360), 120),
                (KeyPrice(515030), 9),
                (KeyPrice(517200), 207),
                (KeyPrice(517210), 371),
            ],
            bids: vec![
                (KeyPrice(400000), 3),
                (KeyPrice(485140), 1401),
                (KeyPrice(485380), 1346),
                (KeyPrice(485625), 1291),
                (KeyPrice(485870), 1236),
                (KeyPrice(486110), 1181),
                (KeyPrice(486355), 1126),
                (KeyPrice(486595), 1071),
                (KeyPrice(486840), 1016),
            ],
        }),
    }
}

const LEVEL3_SAMPLE: &str = r#"
{
    "book": {
        "asks": [
            [
                486950,
                [
                    {
                        "advanced_order_type": null,
                        "ext_order_id": "07e10e56-bd45-4e3c-9981-688e6af7fc69",
                        "filled": 0,
                        "leverage": 100,
                        "margin_type": "Isolated",
                        "order_id": 9317213,
                        "order_type": "Limit",
                        "price": 486950,
                        "quantity": 1016,
                        "settlement_type": "Delayed",
                        "side": "Ask",
                        "symbol": "BTCUSD.PERP",
                        "timestamp": 0,
                        "trigger_price_type": null,
                        "uid": 1
                    }
                ]
            ],
            [
                487195,
                [
                    {
                        "advanced_order_type": null,
                        "ext_order_id": "07e10e56-bd45-4e3c-9981-688e6af7fc69",
                        "filled": 0,
                        "leverage": 100,
                        "margin_type": "Isolated",
                        "order_id": 9317212,
                        "order_type": "Limit",
                        "price": 487195,
                        "quantity": 1071,
                        "settlement_type": "Delayed",
                        "side": "Ask",
                        "symbol": "BTCUSD.PERP",
                        "timestamp": 0,
                        "trigger_price_type": null,
                        "uid": 1
                    }
                ]
            ]
        ],
        "bids": [
            [
                486840,
                [
                    {
                        "advanced_order_type": null,
                        "ext_order_id": "07e10e56-bd45-4e3c-9981-688e6af7fc69",
                        "filled": 0,
                        "leverage": 100,
                        "margin_type": "Isolated",
                        "order_id": 9317209,
                        "order_type": "Limit",
                        "price": 486840,
                        "quantity": 1016,
                        "settlement_type": "Delayed",
                        "side": "Bid",
                        "symbol": "BTCUSD.PERP",
                        "timestamp": 0,
                        "trigger_price_type": null,
                        "uid": 1
                    }
                ]
            ],
            [
                486595,
                [
                    {
                        "advanced_order_type": null,
                        "ext_order_id": "07e10e56-bd45-4e3c-9981-688e6af7fc69",
                        "filled": 0,
                        "leverage": 100,
                        "margin_type": "Isolated",
                        "order_id": 9317215,
                        "order_type": "Limit",
                        "price": 486595,
                        "quantity": 1071,
                        "settlement_type": "Delayed",
                        "side": "Bid",
                        "symbol": "BTCUSD.PERP",
                        "timestamp": 0,
                        "trigger_price_type": null,
                        "uid": 1
                    }
                ]
            ]
        ]
    },
    "level": "Level3",
    "seq_number": 8411404,
    "symbol": "BTCUSD.PERP"
}"#;

fn order(order_id: u64, price: u64, quantity: u64, side: OrderSide) -> OrderDetails {
    OrderDetails {
        ext_order_id: "07e10e56-bd45-4e3c-9981-688e6af7fc69".to_owned(),
        filled: NumStr("0".to_owned()),
        leverage: 100,
        margin_type: MarginType::Isolated,
        order_id,
        order_type: OrderType::Limit,
        price,
        quantity,
        settlement_type: SettlementType::Delayed,
        side,
        symbol: "BTCUSD.PERP".to_owned(),
        timestamp: 0,
        uid: 1,
    }
}

fn expected_level3() -> OrderBookResp {
    OrderBookResp {
        level: OrderBookLevel::Level3,
        seq_number: 8411404,
        symbol: "BTCUSD.PERP".to_owned(),
        book: OrderBook::Level3(OrderBookLevel3 {
            asks: vec![
                (486950, vec![order(9317213, 486950, 1016, OrderSide::Ask)]),
                (487195, vec![order(9317212, 487195, 1071, OrderSide::Ask)]),
            ],
            bids: vec![
                (486840, vec![order(9317209, 486840, 1016, OrderSide::Bid)]),
                (486595, vec![order(9317215, 486595, 1071, OrderSide::Bid)]),
            ],
        }),
    }
}

#[test]
fn market_test_orderbook_level_2() {
    let v = OrderBookResp::from_json(&parsed(LEVEL2_SAMPLE)).unwrap();
    assert_eq!(v, expected_level2());
}

#[test]
fn orderbook_test_orderbook_level_2() {
    let v = OrderBookResp::from_json(&parsed(LEVEL2_SAMPLE)).unwrap();
    assert_eq!(v, expected_level2());
}

#[test]
fn market_test_orderbook_level_3() {
    let v = OrderBookResp::from_json(&parsed(LEVEL3_SAMPLE)).unwrap();
    assert_eq!(v, expected_level3());
}

#[test]
fn orderbook_test_orderbook_level_3() {
    let v = OrderBookResp::from_json(&parsed(LEVEL3_SAMPLE)).unwrap();
    assert_eq!(v, expected_level3());
}

#[test]
fn orderbook_rejects_a_book_of_the_wrong_shape() {
    // a level-2 body under a level-3 tag does not fit
    let bad = LEVEL2_SAMPLE.replace("\"Level2\"", "\"Level3\"");
    assert!(OrderBookResp::from_json(&parsed(&bad)).is_none());
}
