//! Golden-string tests of the outbound frame texts: every variant produces
//! exactly the documented flat field set and discriminant literal.

use kollider_api::api::{
    DepositBody, LnTag, BtcTag, MarginType, OrderBody, OrderSide, OrderType, SettlementType,
    WithdrawalBody,
};
use kollider_api::data::{
    AuthenticateTag, CancelOrderTag, ChannelName, ErrorTag, FetchBalancesTag, FetchOpenOrdersTag,
    FetchPositionsTag, GetTickerTag, KolliderMsg, OrderTag, SubscribeTag, TradableProductsTag,
    UnsubscribeTag,
};
use kollider_api::encode::encode_msg;

#[test]
fn encode_cancel_order_golden() {
    let m = KolliderMsg::CancelOrder {
        _type: CancelOrderTag::Tag,
        order_id: 42,
        symbol: "BTCUSD.PERP".to_owned(),
        settlement_type: SettlementType::Delayed,
    };
    assert_eq!(
        encode_msg(&m),
        r#"{"type":"cancel_order","order_id":42,"symbol":"BTCUSD.PERP","settlement_type":"Delayed"}"#
    );
}

#[test]
fn encode_subscribe_golden() {
    let m = KolliderMsg::Subscribe {
        _type: SubscribeTag::Tag,
        symbols: vec!["BTCUSD.PERP".to_owned(), ".XTBUSD".to_owned()],
        channels: vec![ChannelName::IndexValues, ChannelName::Ticker],
    };
    assert_eq!(
        encode_msg(&m),
        r#"{"type":"subscribe","symbols":["BTCUSD.PERP",".XTBUSD"],"channels":["index_values","ticker"]}"#
    );
}

#[test]
fn encode_unsubscribe_golden() {
    let m = KolliderMsg::Unsubscribe {
        _type: UnsubscribeTag::Tag,
        symbols: vec![],
        channels: vec![ChannelName::OrderBookLevel2],
    };
    assert_eq!(
        encode_msg(&m),
        r#"{"type":"unsubscribe","symbols":[],"channels":["orderbook_level2"]}"#
    );
}

#[test]
fn encode_authenticate_golden() {
    let m = KolliderMsg::UserAuth {
        _type: AuthenticateTag::Tag,
        token: "apikey".to_owned(),
        passphrase: "phrase".to_owned(),
        signature: "c2ln".to_owned(),
        timestamp: "1640000000".to_owned(),
    };
    assert_eq!(
        encode_msg(&m),
        r#"{"type":"authenticate","token":"apikey","passphrase":"phrase","signature":"c2ln","timestamp":"1640000000"}"#
    );
}

#[test]
fn encode_error_golden() {
    let m = KolliderMsg::Error { _type: ErrorTag::Tag, message: "oops".to_owned() };
    assert_eq!(encode_msg(&m), r#"{"type":"error","message":"oops"}"#);
}

#[test]
fn encode_order_golden() {
    let m = KolliderMsg::Order {
        _type: OrderTag::Tag,
        price: 485155,
        quantity: 1,
        symbol: "BTCUSD.PERP".to_owned(),
        leverage: 1,
        side: OrderSide::Bid,
        margin_type: MarginType::Isolated,
        order_type: OrderType::Limit,
        settlement_type: SettlementType::Delayed,
        ext_order_id: "X".to_owned(),
    };
    assert_eq!(
        encode_msg(&m),
        r#"{"type":"order","price":485155,"quantity":1,"symbol":"BTCUSD.PERP","leverage":1,"side":"Bid","margin_type":"Isolated","order_type":"Limit","settlement_type":"Delayed","ext_order_id":"X"}"#
    );
}

#[test]
fn encode_parameterless_queries_golden() {
    assert_eq!(
        encode_msg(&KolliderMsg::FetchOpenOrders { _type: FetchOpenOrdersTag::Tag }),
        r#"{"type":"fetch_open_orders"}"#
    );
    assert_eq!(
        encode_msg(&KolliderMsg::FetchPositions { _type: FetchPositionsTag::Tag }),
        r#"{"type":"fetch_positions"}"#
    );
    assert_eq!(
        encode_msg(&KolliderMsg::FetchBalances { _type: FetchBalancesTag::Tag }),
        r#"{"type":"fetch_balances"}"#
    );
    assert_eq!(
        encode_msg(&KolliderMsg::TradableProducts { _type: TradableProductsTag::Tag }),
        r#"{"type":"fetch_tradable_products"}"#
    );
}

#[test]
fn encode_get_ticker_golden() {
    let m = KolliderMsg::GetTicker { _type: GetTickerTag::Tag, symbol: "BTCUSD.PERP".to_owned() };
    assert_eq!(encode_msg(&m), r#"{"type":"get_ticker","symbol":"BTCUSD.PERP"}"#);
}

#[test]
fn encode_escapes_string_fields() {
    let m = KolliderMsg::Error { _type: ErrorTag::Tag, message: "a\"b\\c\nd".to_owned() };
    assert_eq!(encode_msg(&m), "{\"type\":\"error\",\"message\":\"a\\\"b\\\\c\\nd\"}");
}

#[test]
fn test_order_body() {
    let data = OrderBody {
        symbol: "BTCUSD.PERP".to_owned(),
        quantity: 10,
        leverage: 100,
        side: OrderSide::Bid,
        margin_type: MarginType::Isolated,
        order_type: OrderType::Limit,
        settlement_type: SettlementType::Delayed,
        price: 100,
    };

    let v: String = data.to_json();

    assert_eq!(
        v,
        r#"{"price":100,"order_type":"Limit","side":"Bid","quantity":10,"symbol":"BTCUSD.PERP","leverage":100,"margin_type":"Isolated","settlement_type":"Delayed"}"#
    );
}

#[test]
fn test_deposit_body_ln() {
    let data = DepositBody::Lighting(142);

    let v: String = data.to_json();

    assert_eq!(v, r#"{"type":"Ln","amount":142}"#);
}

#[test]
fn test_deposit_body_btc() {
    let data = DepositBody::Bitcoin;

    let v: String = data.to_json();

    assert_eq!(v, r#"{"type":"BTC"}"#);
}

#[test]
fn test_withdrawal_body_ln() {
    let data = WithdrawalBody::Lighting {
        _type: LnTag::Ln,
        payment_request: "lntb1u1pwz5w78pp5e8w8cr5c30xzws92v36sk45znhjn098rtc4pea6ertnmvu25ng3sdpywd6hyetyvf5hgueqv3jk6meqd9h8vmmfvdjsxqrrssy29mzkzjfq27u67evzu893heqex737dhcapvcuantkztg6pnk77nrm72y7z0rs47wzc09vcnugk2ve6sr2ewvcrtqnh3yttv847qqvqpvv398".to_owned(),
        amount: 100,
    };

    let v: String = data.to_json();

    assert_eq!(
        v,
        r#"{"type":"Ln","payment_request":"lntb1u1pwz5w78pp5e8w8cr5c30xzws92v36sk45znhjn098rtc4pea6ertnmvu25ng3sdpywd6hyetyvf5hgueqv3jk6meqd9h8vmmfvdjsxqrrssy29mzkzjfq27u67evzu893heqex737dhcapvcuantkztg6pnk77nrm72y7z0rs47wzc09vcnugk2ve6sr2ewvcrtqnh3yttv847qqvqpvv398","amount":100}"#
    );
}

#[test]
fn test_withdrawal_body_btc() {
    let data = WithdrawalBody::Bitcoin {
        _type: BtcTag::BTC,
        receive_address: "bc1qhwqkf2emlvng5p2c5pvm8py0lfjjkk7atmhfk0".to_owned(),
        amount: 100,
    };

    let v: String = data.to_json();

    assert_eq!(
        v,
        r#"{"type":"BTC","receive_address":"bc1qhwqkf2emlvng5p2c5pvm8py0lfjjkk7atmhfk0","amount":100}"#
    );
}
