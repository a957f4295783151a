//! Scenario tests of the session engine: the handshake hold-back, one-shot
//! correlation, timeouts, and the order and cancel lifecycles.

use kollider_api::api::{MarginType, OrderBody, OrderSide, OrderType, SettlementType};
use kollider_api::data::{ChannelName, KolliderMsg, KolliderTaggedMsg};
use kollider_api::decode::decode_msg;
use kollider_api::encode::encode_msg;
use kollider_api::oneshot::{
    Error, OneshotReply, SessionEngine, SessionState, SubscriptionState, WebsocketAction,
};

fn auth_ok() -> KolliderMsg {
    decode_msg(r#"{"type":"authenticate","message":"success"}"#).unwrap()
}

#[test]
fn handshake_holds_and_flushes() {
    let mut engine = SessionEngine::new();
    assert_eq!(engine.state, SessionState::AwaitingAuth);

    // nothing but the authenticate message may go out before the handshake
    let sub = engine.subscribe(
        vec!["BTCUSD.PERP".to_owned()],
        vec![ChannelName::IndexValues],
    );
    assert!(sub.is_none(), "a subscribe before auth must be held, not sent");
    let call = engine.fetch_balances(0);
    assert!(call.is_none(), "a call before auth must not be accepted");

    // an unrelated message in this state is discarded
    let step = engine.on_message(decode_msg(r#"{"type":"success","data":"x","seq":1}"#).unwrap());
    assert!(step.send.is_empty() && step.auth_result.is_none());
    assert_eq!(engine.state, SessionState::AwaitingAuth);

    // the confirmation flushes the held queue, in order
    let step = engine.on_message(auth_ok());
    assert_eq!(step.auth_result, Some(true));
    assert_eq!(engine.state, SessionState::Ready);
    assert_eq!(step.send.len(), 1);
    assert_eq!(
        encode_msg(&step.send[0]),
        r#"{"type":"subscribe","symbols":["BTCUSD.PERP"],"channels":["index_values"]}"#
    );

    // after the handshake, sends pass at once
    let sub2 = engine.subscribe(vec![".XTBUSD".to_owned()], vec![ChannelName::Ticker]);
    assert!(sub2.is_some());
}

#[test]
fn handshake_failure_closes_the_session() {
    let mut engine = SessionEngine::new();
    let step =
        engine.on_message(decode_msg(r#"{"type":"authenticate","message":"bad key"}"#).unwrap());
    assert_eq!(step.auth_result, Some(false));
    assert_eq!(engine.state, SessionState::Closed);
    // a closed session accepts nothing
    assert!(engine.fetch_balances(0).is_none());
    assert!(engine
        .subscribe(vec!["BTCUSD.PERP".to_owned()], vec![ChannelName::Ticker])
        .is_none());
}

#[test]
fn oneshot_correlation_skips_unrelated_pushes() {
    let mut engine = SessionEngine::new();
    engine.on_message(auth_ok());

    let sent = engine.fetch_balances(100);
    assert_eq!(encode_msg(&sent.unwrap()), r#"{"type":"fetch_balances"}"#);
    assert_eq!(engine.state, SessionState::AwaitingReply);

    // an unrelated push arrives first: the call stays pending, the push is
    // handed through unchanged for the listeners
    let unrelated = decode_msg(
        r#"{"type":"index_values","data":{"denom":"USD","symbol":".BTCUSD","value":"41900.5"},"seq":9}"#,
    )
    .unwrap();
    let step = engine.on_message(unrelated);
    assert!(step.resolution.is_none());
    assert!(matches!(step.push, Some(KolliderTaggedMsg::IndexValues(_))));
    assert_eq!(engine.state, SessionState::AwaitingReply);

    // the awaited reply resolves the call
    let reply = decode_msg(
        r#"{"type":"balances","data":{"cash":"100.5","cross_margin":"0","isolated_margin":{},"order_margin":{}},"seq":10}"#,
    )
    .unwrap();
    let step = engine.on_message(reply);
    assert_eq!(engine.state, SessionState::Ready);
    match step.resolution {
        Some(Ok(OneshotReply::Balances(b))) => {
            assert_eq!(b.cash.0, "100.5");
            assert_eq!(b.cross_margin.0, "0");
            assert!(b.isolated_margin.is_empty());
        }
        other => panic!("expected resolved balances, got {:?}", other),
    }
}

#[test]
fn oneshot_timeout_is_not_early() {
    let mut engine = SessionEngine::new();
    engine.on_message(auth_ok());
    engine.fetch_positions(100).unwrap();

    // before the deadline, nothing resolves
    assert!(engine.on_tick(100).is_none());
    assert!(engine.on_tick(159).is_none());
    assert_eq!(engine.state, SessionState::AwaitingReply);

    // at the deadline, the call resolves with no response and the session is
    // usable again
    let res = engine.on_tick(160);
    assert!(matches!(res, Some(Err(Error::NoResponse))));
    assert_eq!(engine.state, SessionState::Ready);
    assert!(engine.fetch_positions(161).is_some());
}

#[test]
fn stream_end_fails_the_pending_call() {
    let mut engine = SessionEngine::new();
    engine.on_message(auth_ok());
    engine.fetch_balances(0).unwrap();
    let res = engine.on_stream_end();
    assert!(matches!(res, Some(Err(Error::NoResponse))));
    assert_eq!(engine.state, SessionState::Closed);
}

#[test]
fn order_lifecycle_scenario() {
    let mut engine = SessionEngine::new();
    engine.on_message(auth_ok());

    let body = OrderBody {
        price: 485155,
        order_type: OrderType::Limit,
        side: OrderSide::Bid,
        quantity: 1,
        symbol: "BTCUSD.PERP".to_owned(),
        leverage: 1,
        margin_type: MarginType::Isolated,
        settlement_type: SettlementType::Delayed,
    };
    let sent = engine.open_order(&body, "X".to_owned(), 0).unwrap();
    assert_eq!(
        encode_msg(&sent),
        r#"{"type":"order","price":485155,"quantity":1,"symbol":"BTCUSD.PERP","leverage":1,"side":"Bid","margin_type":"Isolated","order_type":"Limit","settlement_type":"Delayed","ext_order_id":"X"}"#
    );

    let open = decode_msg(
        r#"{"type":"open","data":{"order_id":9640692,"price":485155,"quantity":1,"symbol":"BTCUSD.PERP","leverage":1,"side":"Bid","margin_type":"Isolated","order_type":"Limit","settlement_type":"Delayed","ext_order_id":"X","timestamp":1640100776001,"filled":0},"seq":22}"#,
    )
    .unwrap();
    let step = engine.on_message(open);
    match step.resolution {
        Some(Ok(OneshotReply::OrderOpened(created))) => {
            assert_eq!(created.order_id, 9640692);
            assert_eq!(created.ext_order_id, "X");
            assert_eq!(created.price, 485155);
            assert_eq!(created.quantity, 1);
            assert_eq!(created.timestamp, 1640100776001);
        }
        other => panic!("expected a created order, got {:?}", other),
    }
    assert_eq!(engine.state, SessionState::Ready);
}

#[test]
fn order_rejection_scenario() {
    let mut engine = SessionEngine::new();
    engine.on_message(auth_ok());
    let body = OrderBody {
        price: 1,
        order_type: OrderType::Limit,
        side: OrderSide::Bid,
        quantity: 1,
        symbol: "BTCUSD.PERP".to_owned(),
        leverage: 1,
        margin_type: MarginType::Isolated,
        settlement_type: SettlementType::Delayed,
    };
    engine.open_order(&body, "Y".to_owned(), 0).unwrap();
    let done = decode_msg(
        r#"{"type":"done","data":{"orde_type":"Limit","order_id":77,"reason":"InstantLiquidation","symbol":"BTCUSD.PERP","timestamp":5},"seq":23}"#,
    )
    .unwrap();
    let step = engine.on_message(done);
    match step.resolution {
        Some(Err(Error::OrderError(id, reason))) => {
            assert_eq!(id, 77);
            assert_eq!(reason, "InstantLiquidation");
        }
        other => panic!("expected an order rejection, got {:?}", other),
    }
}

#[test]
fn cancel_rejected_scenario() {
    let mut engine = SessionEngine::new();
    engine.on_message(auth_ok());

    let sent = engine.cancel_order(7, "BTCUSD.PERP".to_owned(), 0).unwrap();
    assert_eq!(
        encode_msg(&sent),
        r#"{"type":"cancel_order","order_id":7,"symbol":"BTCUSD.PERP","settlement_type":"Delayed"}"#
    );

    let reply = decode_msg(r#"{"type":"error","data":"Order not found"}"#).unwrap();
    let step = engine.on_message(reply);
    match step.resolution {
        Some(Err(Error::CancelError(id, reason))) => {
            assert_eq!(id, 7);
            assert_eq!(reason, "Order not found");
        }
        other => panic!("expected a cancel failure, got {:?}", other),
    }
    // the session stays usable afterwards
    assert_eq!(engine.state, SessionState::Ready);
    assert!(engine.cancel_order(8, "BTCUSD.PERP".to_owned(), 1).is_some());
}

#[test]
fn cancel_success_scenario() {
    let mut engine = SessionEngine::new();
    engine.on_message(auth_ok());
    engine.cancel_order(9, "BTCUSD.PERP".to_owned(), 0).unwrap();
    let reply = decode_msg(r#"{"type":"success","data":"Cancel","seq":2}"#).unwrap();
    let step = engine.on_message(reply);
    assert!(matches!(step.resolution, Some(Ok(OneshotReply::Cancelled))));
}

#[test]
fn unknown_frames_do_not_disturb_a_pending_call() {
    let mut engine = SessionEngine::new();
    engine.on_message(auth_ok());
    engine.fetch_balances(0).unwrap();

    // a well-formed but unrecognized frame flows past the pending call
    let unknown = decode_msg(r#"{"type":"heartbeat","seq":1}"#).unwrap();
    assert!(matches!(unknown, KolliderMsg::Unknown(_)));
    let step = engine.on_message(unknown);
    assert!(step.resolution.is_none());
    assert_eq!(engine.state, SessionState::AwaitingReply);

    // and the real reply still resolves
    let reply = decode_msg(
        r#"{"type":"balances","data":{"cash":"1","cross_margin":"2","isolated_margin":{},"order_margin":{}},"seq":3}"#,
    )
    .unwrap();
    let step = engine.on_message(reply);
    assert!(matches!(step.resolution, Some(Ok(OneshotReply::Balances(_)))));
}

#[test]
fn websocket_action_builds_the_right_frames() {
    let m = WebsocketAction::CancelOrder {
        order_id: 42,
        symbol: "BTCUSD.PERP".to_owned(),
        settlement_type: SettlementType::Delayed,
    }
    .to_message();
    assert_eq!(
        encode_msg(&m),
        r#"{"type":"cancel_order","order_id":42,"symbol":"BTCUSD.PERP","settlement_type":"Delayed"}"#
    );

    let m = WebsocketAction::Order {
        price: 100,
        quantity: 2,
        symbol: "BTCUSD.PERP".to_owned(),
        leverage: 100,
        side: OrderSide::Ask,
        margin_type: MarginType::Isolated,
        order_type: OrderType::Market,
        settlement_type: SettlementType::Instant,
    }
    .to_message();
    let first_ext = match m {
        KolliderMsg::Order { ref ext_order_id, price, quantity, .. } => {
            assert_eq!(ext_order_id.chars().count(), 36);
            assert_eq!(price, 100);
            assert_eq!(quantity, 2);
            ext_order_id.clone()
        }
        other => panic!("expected an order frame, got {:?}", other),
    };
    // a second order draws a fresh correlation token
    let m2 = WebsocketAction::Order {
        price: 100,
        quantity: 2,
        symbol: "BTCUSD.PERP".to_owned(),
        leverage: 100,
        side: OrderSide::Ask,
        margin_type: MarginType::Isolated,
        order_type: OrderType::Market,
        settlement_type: SettlementType::Instant,
    }
    .to_message();
    match m2 {
        KolliderMsg::Order { ref ext_order_id, .. } => assert_ne!(*ext_order_id, first_ext),
        other => panic!("expected an order frame, got {:?}", other),
    }

    assert_eq!(
        encode_msg(&WebsocketAction::FetchBalances.to_message()),
        r#"{"type":"fetch_balances"}"#
    );
    assert_eq!(
        encode_msg(&WebsocketAction::GetTicker { symbol: "BTCUSD.PERP".to_owned() }.to_message()),
        r#"{"type":"get_ticker","symbol":"BTCUSD.PERP"}"#
    );
}

#[test]
fn subscription_state_tracks_pairs() {
    let mut subs = SubscriptionState::new();
    subs.subscribe(
        &vec!["BTCUSD.PERP".to_owned(), ".XTBUSD".to_owned()],
        &vec![ChannelName::IndexValues, ChannelName::Ticker],
    );
    assert!(subs.contains("BTCUSD.PERP", ChannelName::IndexValues));
    assert!(subs.contains(".XTBUSD", ChannelName::Ticker));
    assert!(!subs.contains("BTCUSD.PERP", ChannelName::Matches));

    subs.unsubscribe(&vec!["BTCUSD.PERP".to_owned()], &vec![ChannelName::Ticker]);
    assert!(subs.contains("BTCUSD.PERP", ChannelName::IndexValues));
    assert!(!subs.contains("BTCUSD.PERP", ChannelName::Ticker));
    assert!(subs.contains(".XTBUSD", ChannelName::Ticker));
}
