//! Tests of the REST data types: decoding representative replies, and the
//! small parsing helpers.

use kollider_api::api::{
    AccountCreated, AccountInfo, DepositResp, ErrorType, HistoryItem, HistoryResp, IntervalSize,
    KeyPrice, KolliderError, MarginType, OrderBookLevel, OrderCreated, OrderPrediction, OrderSide,
    OrderType, PositionDetails, Product, SettlementType, Ticker, WithdrawalNetwork,
    WithdrawalResp, WithdrawalStatus,
};
use kollider_api::api_codec::{position_details_from_json, products_from_json};
use kollider_api::json::{parse_json, NumStr};

fn num(s: &str) -> NumStr {
    NumStr(s.to_owned())
}

fn parsed(s: &str) -> kollider_api::json::Json {
    parse_json(s).expect("test sample must be well-formed JSON")
}

#[test]
fn test_simple_error_deserialize() {
    let data = r#"
    {"error":"InvalidKey","msg":"Your API key is invalid."}
    "#;

    let v = KolliderError::from_json(&parsed(data)).unwrap();

    assert_eq!(
        v,
        KolliderError {
            error: ErrorType::Simple("InvalidKey".to_owned()),
            msg: "Your API key is invalid.".to_owned()
        }
    );
}

#[test]
fn test_general_error_deserialize() {
    let data = r#"
    {"error": { "GeneralError": "Unauthorized" },"msg":"A general error has occured."}
    "#;

    let v = KolliderError::from_json(&parsed(data)).unwrap();

    assert_eq!(
        v,
        KolliderError {
            error: ErrorType::Detailed { general_error: "Unauthorized".to_owned() },
            msg: "A general error has occured.".to_owned()
        }
    );
}

#[test]
fn test_lnuser_deserialize() {
    let data = r#"
    {
        "created_at": {
            "nanos_since_epoch": 513796000,
            "secs_since_epoch": 1639663512
        },
        "email": "28c27121-36d7-3ad5-87d6-8352b28e90a6-lnurl-auth@kollider.xyz",
        "lnauth_enabled": true,
        "user_type": "lnuser",
        "username": "28c27121-36d7-3ad5-87d6-8352b28e90a6",
        "validated_email": false
    }
    "#;

    let v = AccountInfo::from_json(&parsed(data)).unwrap();

    assert_eq!(
        v,
        AccountInfo {
            created_at: AccountCreated {
                nanos_since_epoch: 513796000,
                secs_since_epoch: 1639663512,
            },
            email: "28c27121-36d7-3ad5-87d6-8352b28e90a6-lnurl-auth@kollider.xyz".to_owned(),
            lnauth_enabled: true,
            user_type: "lnuser".to_owned(),
            username: "28c27121-36d7-3ad5-87d6-8352b28e90a6".to_owned(),
            validated_email: false,
        }
    );
}

#[test]
fn test_deposit_resp_ln() {
    let data = r#"
    {
        "payment_request": "lntb1u1pwz5w78pp5e8w8cr5c30xzws92v36sk45znhjn098rtc4pea6ertnmvu25ng3sdpywd6hyetyvf5hgueqv3jk6meqd9h8vmmfvdjsxqrrssy29mzkzjfq27u67evzu893heqex737dhcapvcuantkztg6pnk77nrm72y7z0rs47wzc09vcnugk2ve6sr2ewvcrtqnh3yttv847qqvqpvv398"
    }
    "#;

    let v = DepositResp::from_json(&parsed(data)).unwrap();

    assert_eq!(
        v,
        DepositResp::Lightning {
            payment_request: "lntb1u1pwz5w78pp5e8w8cr5c30xzws92v36sk45znhjn098rtc4pea6ertnmvu25ng3sdpywd6hyetyvf5hgueqv3jk6meqd9h8vmmfvdjsxqrrssy29mzkzjfq27u67evzu893heqex737dhcapvcuantkztg6pnk77nrm72y7z0rs47wzc09vcnugk2ve6sr2ewvcrtqnh3yttv847qqvqpvv398".to_owned(),
        }
    );
}

#[test]
fn test_deposit_resp_btc() {
    let data = r#"
    {
        "receive_address": "bc1qhwqkf2emlvng5p2c5pvm8py0lfjjkk7atmhfk0"
    }
    "#;

    let v = DepositResp::from_json(&parsed(data)).unwrap();

    assert_eq!(
        v,
        DepositResp::Bitcoin {
            receive_address: "bc1qhwqkf2emlvng5p2c5pvm8py0lfjjkk7atmhfk0".to_owned(),
        }
    );
}

#[test]
fn test_withdrawal_resp_ln() {
    let data = r#"
    {
        "WithdrawalSuccess": {
            "uid": 7051,
            "receipt": "Kollider Withdrawal",
            "amount": 100,
            "network": "Lightning",
            "status": "Complete",
            "txid": ""
        }
    }
    "#;

    let v = WithdrawalResp::from_json(&parsed(data)).unwrap();

    assert_eq!(
        v,
        WithdrawalResp::WithdrawalSuccess {
            uid: 7051,
            receipt: "Kollider Withdrawal".to_owned(),
            amount: 100,
            network: WithdrawalNetwork::Lightning,
            status: WithdrawalStatus::Complete,
            txid: "".to_owned(),
        }
    );
}

#[test]
fn test_withdrawal_resp_ln_fail() {
    let data = r#"
    {
        "WithdrawalRejection": {
            "uid": 7051,
            "reason": "Insufficient Funds",
            "amount": 100
        }
    }
    "#;

    let v = WithdrawalResp::from_json(&parsed(data)).unwrap();

    assert_eq!(
        v,
        WithdrawalResp::WithdrawalRejection {
            uid: 7051,
            reason: "Insufficient Funds".to_owned(),
            amount: 100,
        }
    );
}

#[test]
fn test_ticker_deserialize() {
    let data = r#"
    {
        "best_ask": "47949.5",
        "best_bid": "47938.5",
        "last_price": "46490.0",
        "last_quantity": 100,
        "last_side": "Bid",
        "symbol": "BTCUSD.PERP"
    }"#;

    let v = Ticker::from_json(&parsed(data)).unwrap();

    assert_eq!(
        v,
        Ticker {
            best_ask: num("47949.5"),
            best_bid: num("47938.5"),
            last_price: num("46490.0"),
            last_quantity: 100,
            last_side: OrderSide::Bid,
            symbol: "BTCUSD.PERP".to_owned(),
        }
    );
}

#[test]
fn products_test_product_deserialize() {
    let data = r#"
    {
        "BTCUSD.PERP": {
          "symbol": "BTCUSD.PERP",
          "contract_size": "1",
          "max_leverage": "100.00",
          "base_margin": "0.00500",
          "maintenance_margin": "0.00400",
          "is_inverse_priced": true,
          "price_dp": "1",
          "underlying_symbol": ".XTBUSD",
          "last_price": "130713",
          "tick_size": "0.5",
          "risk_limit": "100000000"
        },
        "LTCUSD.PERP": {
          "symbol": "LTCUSD.PERP",
          "contract_size": "1",
          "max_leverage": "25.00",
          "base_margin": "0.00500",
          "maintenance_margin": "0.00400",
          "is_inverse_priced": false,
          "price_dp": "1",
          "underlying_symbol": ".LTCUSD",
          "last_price": "546",
          "tick_size": "0.5",
          "risk_limit": "100000000"
        }
    }"#;

    let v = products_from_json(&parsed(data)).unwrap();

    assert_eq!(
        v,
        vec![
            ("BTCUSD.PERP".to_owned(), Product {
                symbol: "BTCUSD.PERP".to_owned(),
                contract_size: num("1"),
                max_leverage: num("100.00"),
                base_margin: num("0.00500"),
                maintenance_margin: num("0.00400"),
                is_inverse_priced: true,
                price_dp: num("1"),
                underlying_symbol: ".XTBUSD".to_owned(),
                last_price: num("130713"),
                tick_size: num("0.5"),
                risk_limit: num("100000000"),
            }),
            ("LTCUSD.PERP".to_owned(), Product {
                symbol: "LTCUSD.PERP".to_owned(),
                contract_size: num("1"),
                max_leverage: num("25.00"),
                base_margin: num("0.00500"),
                maintenance_margin: num("0.00400"),
                is_inverse_priced: false,
                price_dp: num("1"),
                underlying_symbol: ".LTCUSD".to_owned(),
                last_price: num("546"),
                tick_size: num("0.5"),
                risk_limit: num("100000000"),
            }),
        ]
    );
}

#[test]
fn history_test_product_deserialize() {
    let data = r#"
    {"data":[{"max":null,"mean":null,"min":null,"time":1639603374}],"symbol":"BTCUSD.PERP"}
    "#;

    let v = HistoryResp::from_json(&parsed(data)).unwrap();

    assert_eq!(
        v,
        HistoryResp {
            data: vec![HistoryItem { max: None, min: None, mean: None, time: 1639603374 }],
            symbol: "BTCUSD.PERP".to_owned(),
        }
    );
}

#[test]
fn test_order_created() {
    let data = r#"
    {
        "timestamp": 1640100776001,
        "order_id": 9640692,
        "ext_order_id": "9eccb2e0-ff3d-4d72-a52d-00f662e325a9",
        "uid": 7051,
        "symbol": "BTCUSD.PERP",
        "quantity": 1,
        "order_type": "Limit",
        "price": 485155,
        "leverage": 1
    }"#;

    let v = OrderCreated::from_json(&parsed(data)).unwrap();

    assert_eq!(
        v,
        OrderCreated {
            timestamp: 1640100776001,
            order_id: 9640692,
            ext_order_id: "9eccb2e0-ff3d-4d72-a52d-00f662e325a9".to_owned(),
            uid: 7051,
            symbol: "BTCUSD.PERP".to_owned(),
            quantity: 1,
            order_type: OrderType::Limit,
            price: 485155,
            leverage: 1,
        }
    );
}

#[test]
fn test_order_prediction() {
    let data = r#"
    {
        "uid": 7051,
        "ext_id": "8c8b8062-d14b-4b14-a05b-84c92a32f4d3",
        "margin_required": "2083.3333333333333333333300000",
        "value": "2083.3333333333333333333300000",
        "exchange_fee": "-0.5208333333333333333333325000",
        "estimated_liquidation_price": "240782.54326561324303988018849",
        "rejection_reason": "InstantLiquidation"
    }"#;

    let v = OrderPrediction::from_json(&parsed(data)).unwrap();

    assert_eq!(
        v,
        OrderPrediction {
            uid: 7051,
            ext_id: "8c8b8062-d14b-4b14-a05b-84c92a32f4d3".to_owned(),
            margin_required: num("2083.3333333333333333333300000"),
            value: num("2083.3333333333333333333300000"),
            exchange_fee: num("-0.5208333333333333333333325000"),
            estimated_liquidation_price: num("240782.54326561324303988018849"),
            rejection_reason: Some("InstantLiquidation".to_owned()),
        }
    );
}

#[test]
fn test_position_details() {
    let data = r#"
    {
        "BTCUSD.PERP": {
          "uid": 11,
          "timestamp": 1604332066202,
          "symbol": "BTCUSD.PERP",
          "upnl": "-6",
          "leverage": "1.00",
          "entry_price": "13534.0",
          "side": "Bid",
          "quantity": "1",
          "liq_price": "6788.3",
          "open_order_ids": []
        }
    }"#;

    let v = position_details_from_json(&parsed(data)).unwrap();

    assert_eq!(
        v,
        vec![("BTCUSD.PERP".to_owned(), PositionDetails {
            uid: 11,
            timestamp: 1604332066202,
            symbol: "BTCUSD.PERP".to_owned(),
            upnl: -6,
            leverage: num("1.00"),
            entry_price: num("13534.0"),
            side: OrderSide::Bid,
            quantity: num("1"),
            liq_price: num("6788.3"),
            open_order_ids: vec![],
        })]
    );
}

#[test]
fn order_book_level_ints() {
    assert_eq!(OrderBookLevel::from_int(2), Some(OrderBookLevel::Level2));
    assert_eq!(OrderBookLevel::from_int(3), Some(OrderBookLevel::Level3));
    assert_eq!(OrderBookLevel::from_int(4), None);
    assert_eq!(OrderBookLevel::Level2.to_int(), 2);
    assert_eq!(OrderBookLevel::Level3.to_int(), 3);
}

#[test]
fn order_side_inverse_and_parse() {
    assert_eq!(OrderSide::Ask.inverse(), OrderSide::Bid);
    assert_eq!(OrderSide::Bid.inverse(), OrderSide::Ask);
    assert_eq!("ASK".parse::<OrderSide>(), Ok(OrderSide::Ask));
    assert_eq!("bid".parse::<OrderSide>(), Ok(OrderSide::Bid));
    assert!("mid".parse::<OrderSide>().is_err());
}

#[test]
fn enum_parsing_matches_wire_names() {
    assert_eq!("Isolated".parse::<MarginType>(), Ok(MarginType::Isolated));
    assert!("cross".parse::<MarginType>().is_err());
    assert_eq!("limit".parse::<OrderType>(), Ok(OrderType::Limit));
    assert_eq!("Market".parse::<OrderType>(), Ok(OrderType::Market));
    assert_eq!("Instant".parse::<SettlementType>(), Ok(SettlementType::Instant));
    assert_eq!("delayed".parse::<SettlementType>(), Ok(SettlementType::Delayed));
    assert_eq!("5m".parse::<IntervalSize>(), Ok(IntervalSize::FiveMin));
    assert_eq!("1d".parse::<IntervalSize>(), Ok(IntervalSize::OneDay));
    assert_eq!(IntervalSize::FifteenMin.as_str(), "15m");
    assert!("2h".parse::<IntervalSize>().is_err());
}

#[test]
fn key_price_parses_quoted_integers() {
    assert_eq!(KeyPrice::parse_str("486950"), Some(KeyPrice(486950)));
    assert_eq!(KeyPrice::parse_str(""), None);
    assert_eq!(KeyPrice::parse_str("12a"), None);
    assert_eq!(KeyPrice::parse_str("18446744073709551615"), Some(KeyPrice(u64::MAX)));
    assert_eq!(KeyPrice::parse_str("18446744073709551616"), None);
}
