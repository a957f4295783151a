//! Decode coverage of the inbound alphabet: each documented discriminant, a
//! representative frame, the exact typed value; plus resilience to frames
//! that are malformed or unknown.

use kollider_api::api::{MarginType, OrderSide, OrderType, SettlementType};
use kollider_api::data::{
    ChannelName, IndexValue, KolliderMsg, KolliderTaggedMsg, OpenOrder, OrderBookLevel2, Position,
    UpdateType,
};
use kollider_api::decode::{decode_msg, DecodeError};
use kollider_api::json::{Json, NumStr};

fn num(s: &str) -> NumStr {
    NumStr(s.to_owned())
}

#[test]
fn test_open_orders_msg() {
    let data = r#"
    {
        "data": {
            "open_orders": {
                "BTCUSD.PERP": [
                    {
                        "advanced_order_type": null,
                        "ext_order_id": "029893fe-dcd7-4c78-848c-ddf37468df94",
                        "filled": 0,
                        "leverage": 100,
                        "margin_type": "Isolated",
                        "order_id": 9951519,
                        "order_type": "Limit",
                        "price": 474500,
                        "quantity": 1,
                        "settlement_type": "Instant",
                        "side": "Ask",
                        "symbol": "BTCUSD.PERP",
                        "timestamp": 0,
                        "trigger_price_type": null,
                        "uid": 7051
                    }
                ]
            }
        },
        "seq": 647,
        "type": "open_orders"
    }
    "#;

    let v = decode_msg(data).unwrap();

    assert_eq!(
        v,
        KolliderMsg::Tagged(KolliderTaggedMsg::OpenOrders {
            open_orders: vec![("BTCUSD.PERP".to_owned(), vec![OpenOrder {
                ext_order_id: "029893fe-dcd7-4c78-848c-ddf37468df94".to_owned(),
                filled: 0,
                leverage: 100,
                margin_type: MarginType::Isolated,
                order_id: 9951519,
                order_type: OrderType::Limit,
                price: 474500,
                quantity: 1,
                settlement_type: SettlementType::Instant,
                side: OrderSide::Ask,
                symbol: "BTCUSD.PERP".to_owned(),
                timestamp: 0,
                uid: 7051,
            }])],
        })
    );
}

#[test]
fn test_fill_msg() {
    let data = r#"
    {
        "data": {
            "ext_order_id": "200f3530-473f-4ee6-8b56-c194c4ec8776",
            "is_maker": false,
            "is_selftrade": false,
            "leverage": 100,
            "margin_type": "Isolated",
            "order_id": 14792108,
            "partial": false,
            "price": 419005,
            "quantity": 1,
            "side": "Bid",
            "symbol": "BTCUSD.PERP",
            "user_id": 7051
        },
        "seq": 10379,
        "type": "fill"
    }
    "#;

    let v = decode_msg(data).unwrap();

    assert_eq!(
        v,
        KolliderMsg::Tagged(KolliderTaggedMsg::Fill {
            ext_order_id: "200f3530-473f-4ee6-8b56-c194c4ec8776".to_owned(),
            is_maker: false,
            is_selftrade: false,
            leverage: 100,
            margin_type: MarginType::Isolated,
            order_id: 14792108,
            partial: false,
            price: 419005,
            quantity: 1,
            side: OrderSide::Bid,
            symbol: "BTCUSD.PERP".to_owned(),
            user_id: 7051,
        })
    );
}

#[test]
fn test_trade_msg() {
    let data = r#"
    {
        "data": {
            "fees": "1.7899547738093817496211250000",
            "is_liquidation": false,
            "is_maker": false,
            "leverage": "1.00",
            "margin_type": "Isolated",
            "order_id": 14792108,
            "order_type": "Market",
            "price": "41900.5",
            "quantity": "1",
            "rpnl": "0",
            "settlement_type": "Delayed",
            "side": "Bid",
            "symbol": "BTCUSD.PERP",
            "timestamp": 1642633795546
        },
        "seq": 10380,
        "type": "trade"
    }
    "#;

    let v = decode_msg(data).unwrap();

    assert_eq!(
        v,
        KolliderMsg::Tagged(KolliderTaggedMsg::Trade {
            fees: num("1.7899547738093817496211250000"),
            is_liquidation: false,
            is_maker: false,
            leverage: num("1.00"),
            margin_type: MarginType::Isolated,
            order_id: 14792108,
            price: num("41900.5"),
            quantity: 1,
            rpnl: num("0"),
            settlement_type: SettlementType::Delayed,
            side: OrderSide::Bid,
            symbol: "BTCUSD.PERP".to_owned(),
            timestamp: 1642633795546,
        })
    );
}

#[test]
fn test_settlement_request_msg() {
    let data = r#"
    {
        "data": {
            "amount": "4766",
            "lnurl": "lnurl1dp68gurn8ghj7ctsdyhxkmmvd35kgetj9eu8j730wccj7mrfva58gmnfdenj7amfw35xgunpwaskchmjv4ch2etnwslhz0txxv6x2vfjvycz6d3ex5uj6dpkvv6j6c34vsuz6dfnx43rqvf5vgmrgvrpyqsrm9",
            "request_id": "f34e12a0-6959-46c5-b5d8-535b014b640a",
            "side": "Ask",
            "symbol": "BTCUSD.PERP"
        },
        "seq": 11053,
        "type": "settlement_request"
    }
    "#;

    let v = decode_msg(data).unwrap();

    assert_eq!(
        v,
        KolliderMsg::Tagged(KolliderTaggedMsg::SettlementRequest {
            amount: 4766,
            lnurl: "lnurl1dp68gurn8ghj7ctsdyhxkmmvd35kgetj9eu8j730wccj7mrfva58gmnfdenj7amfw35xgunpwaskchmjv4ch2etnwslhz0txxv6x2vfjvycz6d3ex5uj6dpkvv6j6c34vsuz6dfnx43rqvf5vgmrgvrpyqsrm9".to_owned(),
            request_id: "f34e12a0-6959-46c5-b5d8-535b014b640a".to_owned(),
            side: OrderSide::Ask,
            symbol: "BTCUSD.PERP".to_owned(),
        })
    );
}

#[test]
fn test_change_leverage_info_msg_01() {
    let data = r#"
    {
        "data": {
            "error": null,
            "liquidation_price": null,
            "order_margin": "1000.000",
            "position_margin": "0",
            "symbol": "BTCUSD.PERP"
        },
        "seq": 12441,
        "type": "change_leverage_info"
    }
    "#;

    let v = decode_msg(data).unwrap();

    assert_eq!(
        v,
        KolliderMsg::Tagged(KolliderTaggedMsg::ChangeLeverageInfo {
            error: None,
            liquidation_price: None,
            order_margin: num("1000.000"),
            position_margin: num("0"),
            symbol: "BTCUSD.PERP".to_owned(),
        })
    );
}

#[test]
fn test_change_leverage_success_msg() {
    let data = r#"
    {
        "data": {
            "symbol": "BTCUSD.PERP"
        },
        "seq": 12523,
        "type": "change_leverage_success"
    }
    "#;

    let v = decode_msg(data).unwrap();

    assert_eq!(
        v,
        KolliderMsg::Tagged(KolliderTaggedMsg::ChangeLeverageSuccess {
            symbol: "BTCUSD.PERP".to_owned(),
        })
    );
}

#[test]
fn decode_authenticate_control() {
    let v = decode_msg(r#"{"type":"authenticate","message":"success"}"#).unwrap();
    assert_eq!(
        v,
        KolliderMsg::Tagged(KolliderTaggedMsg::Authenticate { message: "success".to_owned() })
    );
}

#[test]
fn decode_error_and_success() {
    assert_eq!(
        decode_msg(r#"{"type":"error","data":"Order not found","seq":3}"#).unwrap(),
        KolliderMsg::Tagged(KolliderTaggedMsg::Error("Order not found".to_owned()))
    );
    assert_eq!(
        decode_msg(r#"{"type":"success","data":"Cancel","seq":4}"#).unwrap(),
        KolliderMsg::Tagged(KolliderTaggedMsg::Success("Cancel".to_owned()))
    );
}

#[test]
fn decode_index_values() {
    let data = r#"{"type":"index_values","data":{"denom":"USD","symbol":".BTCUSD","value":"41900.5"},"seq":9}"#;
    assert_eq!(
        decode_msg(data).unwrap(),
        KolliderMsg::Tagged(KolliderTaggedMsg::IndexValues(IndexValue {
            denom: "USD".to_owned(),
            symbol: ".BTCUSD".to_owned(),
            value: num("41900.5"),
        }))
    );
}

#[test]
fn decode_level2state() {
    let data = r#"{"type":"level2state","data":{"asks":{"486950":1016},"bids":{"400000":3},"seq_number":8411464,"symbol":"BTCUSD.PERP","update_type":"delta"},"seq":12}"#;
    assert_eq!(
        decode_msg(data).unwrap(),
        KolliderMsg::Tagged(KolliderTaggedMsg::OrderBookLevel2(OrderBookLevel2 {
            asks: vec![("486950".to_owned(), 1016)],
            bids: vec![("400000".to_owned(), 3)],
            seq_number: 8411464,
            symbol: "BTCUSD.PERP".to_owned(),
            update_type: UpdateType::Delta,
        }))
    );
}

#[test]
fn decode_received() {
    let data = r#"{"type":"received","data":{"uid":7051,"order_id":9640692,"price":485155,"quantity":1,"symbol":"BTCUSD.PERP","leverage":1,"order_type":"Limit","ext_order_id":"X","timestamp":1640100776000},"seq":20}"#;
    assert_eq!(
        decode_msg(data).unwrap(),
        KolliderMsg::Tagged(KolliderTaggedMsg::Received {
            uid: 7051,
            order_id: 9640692,
            price: 485155,
            quantity: 1,
            symbol: "BTCUSD.PERP".to_owned(),
            leverage: 1,
            order_type: OrderType::Limit,
            ext_order_id: "X".to_owned(),
            timestamp: 1640100776000,
        })
    );
}

#[test]
fn decode_balances() {
    let data = r#"{"type":"balances","data":{"cash":"100.5","cross_margin":"0","isolated_margin":{"BTCUSD.PERP":"10.1"},"order_margin":{"BTCUSD.PERP":"0.5"}},"seq":21}"#;
    assert_eq!(
        decode_msg(data).unwrap(),
        KolliderMsg::Tagged(KolliderTaggedMsg::Balances {
            cash: num("100.5"),
            cross_margin: num("0"),
            isolated_margin: vec![("BTCUSD.PERP".to_owned(), num("10.1"))],
            order_margin: vec![("BTCUSD.PERP".to_owned(), num("0.5"))],
        })
    );
}

#[test]
fn decode_open() {
    let data = r#"{"type":"open","data":{"order_id":9640692,"price":485155,"quantity":1,"symbol":"BTCUSD.PERP","leverage":1,"side":"Bid","margin_type":"Isolated","order_type":"Limit","settlement_type":"Delayed","ext_order_id":"X","timestamp":1640100776001,"filled":0},"seq":22}"#;
    assert_eq!(
        decode_msg(data).unwrap(),
        KolliderMsg::Tagged(KolliderTaggedMsg::Open {
            order_id: 9640692,
            price: 485155,
            quantity: 1,
            symbol: "BTCUSD.PERP".to_owned(),
            leverage: 1,
            side: OrderSide::Bid,
            margin_type: MarginType::Isolated,
            order_type: OrderType::Limit,
            settlement_type: SettlementType::Delayed,
            ext_order_id: "X".to_owned(),
            timestamp: 1640100776001,
            filled: 0,
        })
    );
}

#[test]
fn decode_positions() {
    let data = r#"{"type":"positions","data":{"positions":{"BTCUSD.PERP":{
        "adl_score":"0","bankruptcy_price":"0","entry_price":"13534.0","entry_time":null,
        "entry_value":"1","funding":"0","is_liquidating":false,"leverage":"1.00",
        "liq_price":"6788.3","mark_value":"1","open_order_ids":[1,2],"position_id":"p1",
        "quantity":"1","real_leverage":"1.01","rpnl":"0","side":"Bid",
        "symbol":"BTCUSD.PERP","timestamp":1604332066202,"uid":11,"upnl":"-6"}}},"seq":30}"#;
    assert_eq!(
        decode_msg(data).unwrap(),
        KolliderMsg::Tagged(KolliderTaggedMsg::Positions {
            positions: vec![("BTCUSD.PERP".to_owned(), Position {
                adl_score: num("0"),
                bankruptcy_price: num("0"),
                entry_price: num("13534.0"),
                entry_time: None,
                entry_value: num("1"),
                funding: num("0"),
                is_liquidating: false,
                leverage: num("1.00"),
                liq_price: num("6788.3"),
                mark_value: num("1"),
                open_order_ids: vec![1, 2],
                position_id: "p1".to_owned(),
                quantity: num("1"),
                real_leverage: num("1.01"),
                rpnl: num("0"),
                side: Some(OrderSide::Bid),
                symbol: "BTCUSD.PERP".to_owned(),
                timestamp: 1604332066202,
                uid: 11,
                upnl: num("-6"),
            })],
        })
    );
}

#[test]
fn decode_done_and_order_not_found() {
    assert_eq!(
        decode_msg(
            r#"{"type":"done","data":{"orde_type":"Limit","order_id":7,"reason":"Cancel","symbol":"BTCUSD.PERP","timestamp":5},"seq":31}"#
        )
        .unwrap(),
        KolliderMsg::Tagged(KolliderTaggedMsg::Done {
            orde_type: OrderType::Limit,
            order_id: 7,
            reason: "Cancel".to_owned(),
            symbol: "BTCUSD.PERP".to_owned(),
            timestamp: 5,
        })
    );
    assert_eq!(
        decode_msg(
            r#"{"type":"order_not_found","data":{"order_id":7,"symbol":"BTCUSD.PERP"},"seq":32}"#
        )
        .unwrap(),
        KolliderMsg::Tagged(KolliderTaggedMsg::OrderNotFound {
            order_id: 7,
            symbol: "BTCUSD.PERP".to_owned(),
        })
    );
}

#[test]
fn decode_withdrawal_limit_info() {
    let data = r#"{"type":"withdrawal_limit_info","data":{"daily_withdrawal_limits":{"BTC":100},"daily_withdrawal_volumes":{"BTC":7}},"seq":33}"#;
    assert_eq!(
        decode_msg(data).unwrap(),
        KolliderMsg::Tagged(KolliderTaggedMsg::WithdrawalLimitInfo {
            daily_withdrawal_limits: vec![("BTC".to_owned(), 100)],
            daily_withdrawal_volumes: vec![("BTC".to_owned(), 7)],
        })
    );
}

#[test]
fn unknown_discriminant_is_kept_whole() {
    let v = decode_msg(r#"{"type":"heartbeat","data":1,"seq":2}"#).unwrap();
    match v {
        KolliderMsg::Unknown(Json::Obj(entries)) => {
            assert_eq!(entries.len(), 3);
            assert_eq!(entries[0].0, "type");
        }
        other => panic!("expected an unknown frame, got {:?}", other),
    }
}

#[test]
fn object_without_type_is_kept_whole() {
    let v = decode_msg(r#"{"hello":"world"}"#).unwrap();
    assert!(matches!(v, KolliderMsg::Unknown(_)));
    let v2 = decode_msg("[1,2,3]").unwrap();
    assert!(matches!(v2, KolliderMsg::Unknown(_)));
}

#[test]
fn malformed_text_is_a_syntax_error() {
    assert_eq!(decode_msg("{oops"), Err(DecodeError::Syntax));
    assert_eq!(decode_msg(""), Err(DecodeError::Syntax));
    assert_eq!(decode_msg("{\"a\":01}"), Err(DecodeError::Syntax));
}

#[test]
fn bad_payload_is_a_payload_error() {
    // known discriminant, field of the wrong kind
    assert_eq!(
        decode_msg(r#"{"type":"trade","data":{"fees":"not-a-number"},"seq":1}"#),
        Err(DecodeError::Payload)
    );
    // known discriminant, no data at all
    assert_eq!(decode_msg(r#"{"type":"trade"}"#), Err(DecodeError::Payload));
}

#[test]
fn resilience_bad_frame_then_good_frame() {
    // a malformed frame does not poison anything: the next frame decodes
    assert!(decode_msg("{not json").is_err());
    assert_eq!(
        decode_msg(r#"{"type":"success","data":"Cancel","seq":5}"#).unwrap(),
        KolliderMsg::Tagged(KolliderTaggedMsg::Success("Cancel".to_owned()))
    );
}

#[test]
fn quoted_number_coercion_rejects_non_numeric() {
    // a numeric-looking string coerces; a non-numeric one is an error for
    // that message only
    assert!(decode_msg(
        r#"{"type":"index_values","data":{"denom":"USD","symbol":".BTCUSD","value":"abc"},"seq":9}"#
    )
    .is_err());
    assert!(decode_msg(
        r#"{"type":"index_values","data":{"denom":"USD","symbol":".BTCUSD","value":41900.5},"seq":9}"#
    )
    .is_ok());
}

#[test]
fn channel_name_parse_is_case_insensitive() {
    assert_eq!("Index_Values".parse::<ChannelName>(), Ok(ChannelName::IndexValues));
    assert_eq!("ticker".parse::<ChannelName>(), Ok(ChannelName::Ticker));
    assert!("nope".parse::<ChannelName>().is_err());
}

#[test]
fn json_string_escapes_roundtrip_on_decode() {
    let v = decode_msg(r#"{"type":"error","data":"a\"b\\c\ndA","seq":1}"#).unwrap();
    assert_eq!(
        v,
        KolliderMsg::Tagged(KolliderTaggedMsg::Error("a\"b\\c\ndA".to_owned()))
    );
}

#[test]
fn oversized_integers_are_a_payload_error() {
    // a 20-digit order id does not fit a u64
    assert_eq!(
        decode_msg(
            r#"{"type":"order_not_found","data":{"order_id":99999999999999999999,"symbol":"BTCUSD.PERP"},"seq":1}"#
        ),
        Err(DecodeError::Payload)
    );
    // the largest u64 still fits
    assert_eq!(
        decode_msg(
            r#"{"type":"order_not_found","data":{"order_id":18446744073709551615,"symbol":"BTCUSD.PERP"},"seq":1}"#
        )
        .unwrap(),
        KolliderMsg::Tagged(KolliderTaggedMsg::OrderNotFound {
            order_id: u64::MAX,
            symbol: "BTCUSD.PERP".to_owned(),
        })
    );
}

#[test]
fn unicode_escapes_decode() {
    let v = decode_msg(r#"{"type":"error","data":"aAé😀b","seq":1}"#).unwrap();
    assert_eq!(
        v,
        KolliderMsg::Tagged(KolliderTaggedMsg::Error("aA\u{e9}\u{1f600}b".to_owned()))
    );
    // a lone surrogate is malformed text
    assert_eq!(decode_msg(r#"{"type":"error","data":"\ud83d","seq":1}"#), Err(DecodeError::Syntax));
}
