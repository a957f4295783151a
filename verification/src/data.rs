//! The WebSocket wire message model.
//!
//! Outbound requests and inbound replies/pushes are tagged JSON objects.
//! [`KolliderMsg`] is the union of both directions, as one type, so a single
//! channel can carry the whole conversation; the inbound-only domain messages
//! live under [`KolliderTaggedMsg`].  Every variant has a mathematical view
//! (`...V`) over character sequences, which the codec contracts speak of.

use vstd::prelude::*;
use crate::api::{MarginType, OrderSide, OrderType, SettlementType, Symbol};
use crate::json::{Json, JsonV, NumStr};
use crate::text::{lower_of, str_eq, to_lowercase};

verus! {

/// Discriminant tag of a subscribe request.
#[derive(Debug, PartialEq, Eq, Structural, Clone, Copy)]
pub enum SubscribeTag {
    Tag,
}

/// Discriminant tag of an unsubscribe request.
#[derive(Debug, PartialEq, Eq, Structural, Clone, Copy)]
pub enum UnsubscribeTag {
    Tag,
}

/// Discriminant tag of the authentication message.
#[derive(Debug, PartialEq, Eq, Structural, Clone, Copy)]
pub enum AuthenticateTag {
    Tag,
}

/// Discriminant tag of a new-order request.
#[derive(Debug, PartialEq, Eq, Structural, Clone, Copy)]
pub enum OrderTag {
    Tag,
}

/// Discriminant tag of a cancel-order request.
#[derive(Debug, PartialEq, Eq, Structural, Clone, Copy)]
pub enum CancelOrderTag {
    Tag,
}

/// Discriminant tag of an open-orders query.
#[derive(Debug, PartialEq, Eq, Structural, Clone, Copy)]
pub enum FetchOpenOrdersTag {
    Tag,
}

/// Discriminant tag of a positions query.
#[derive(Debug, PartialEq, Eq, Structural, Clone, Copy)]
pub enum FetchPositionsTag {
    Tag,
}

/// Discriminant tag of a balances query.
#[derive(Debug, PartialEq, Eq, Structural, Clone, Copy)]
pub enum FetchBalancesTag {
    Tag,
}

/// Discriminant tag of a ticker query.
#[derive(Debug, PartialEq, Eq, Structural, Clone, Copy)]
pub enum GetTickerTag {
    Tag,
}

/// Discriminant tag of a tradable-products query.
#[derive(Debug, PartialEq, Eq, Structural, Clone, Copy)]
pub enum TradableProductsTag {
    Tag,
}

/// Discriminant tag of an outbound error note.
#[derive(Debug, PartialEq, Eq, Structural, Clone, Copy)]
pub enum ErrorTag {
    Tag,
}

/// A subscription channel of the push stream.
#[derive(Debug, PartialEq, Eq, Structural, Clone, Copy, Hash)]
pub enum ChannelName {
    IndexValues,
    OrderBookLevel1,
    OrderBookLevel2,
    OrderBookLevel3,
    Ticker,
    Matches,
}

/// Error for a channel name that the exchange does not know.
#[derive(Debug, Clone, PartialEq, Eq)]
pub struct UnknownChannelName(pub String);

impl ChannelName {
    /// Wire name of the channel.
    pub open spec fn spec_wire_name(&self) -> Seq<char> {
        match self {
            ChannelName::IndexValues => "index_values"@,
            ChannelName::OrderBookLevel1 => "orderbook_level1"@,
            ChannelName::OrderBookLevel2 => "orderbook_level2"@,
            ChannelName::OrderBookLevel3 => "orderbook_level3"@,
            ChannelName::Ticker => "ticker"@,
            ChannelName::Matches => "matches"@,
        }
    }

    /// Wire name of the channel.
    pub fn wire_name(&self) -> (r: &'static str)
        ensures
            r@ == self.spec_wire_name(),
    {
        match self {
            ChannelName::IndexValues => "index_values",
            ChannelName::OrderBookLevel1 => "orderbook_level1",
            ChannelName::OrderBookLevel2 => "orderbook_level2",
            ChannelName::OrderBookLevel3 => "orderbook_level3",
            ChannelName::Ticker => "ticker",
            ChannelName::Matches => "matches",
        }
    }

    /// Case-insensitive channel name; anything else is unknown.
    pub fn parse_str(s: &str) -> (r: Result<ChannelName, UnknownChannelName>)
        ensures
            match r {
                Ok(c) => lower_of(s@) == c.spec_wire_name(),
                Err(e) => e.0@ == s@ && lower_of(s@) != "index_values"@ && lower_of(s@)
                    != "orderbook_level1"@ && lower_of(s@) != "orderbook_level2"@ && lower_of(s@)
                    != "orderbook_level3"@ && lower_of(s@) != "ticker"@ && lower_of(s@)
                    != "matches"@,
            },
    {
        let low = to_lowercase(s);
        if str_eq(low.as_str(), "index_values") {
            Ok(ChannelName::IndexValues)
        } else if str_eq(low.as_str(), "orderbook_level1") {
            Ok(ChannelName::OrderBookLevel1)
        } else if str_eq(low.as_str(), "orderbook_level2") {
            Ok(ChannelName::OrderBookLevel2)
        } else if str_eq(low.as_str(), "orderbook_level3") {
            Ok(ChannelName::OrderBookLevel3)
        } else if str_eq(low.as_str(), "ticker") {
            Ok(ChannelName::Ticker)
        } else if str_eq(low.as_str(), "matches") {
            Ok(ChannelName::Matches)
        } else {
            Err(UnknownChannelName(s.to_owned()))
        }
    }
}

impl core::str::FromStr for ChannelName {
    type Err = UnknownChannelName;

    fn from_str(s: &str) -> Result<Self, Self::Err> {
        ChannelName::parse_str(s)
    }
}

/// Whether an order book frame is a delta or a full snapshot.
#[derive(Debug, PartialEq, Eq, Structural, Clone, Copy)]
pub enum UpdateType {
    Delta,
    Snapshot,
}

/// One index value push.
#[derive(Debug, Clone, PartialEq)]
pub struct IndexValue {
    pub denom: String,
    pub symbol: Symbol,
    pub value: NumStr,
}

/// View of [`IndexValue`].
pub struct IndexValueV {
    pub denom: Seq<char>,
    pub symbol: Seq<char>,
    pub value: Seq<char>,
}

impl View for IndexValue {
    type V = IndexValueV;

    open spec fn view(&self) -> IndexValueV {
        IndexValueV { denom: self.denom@, symbol: self.symbol@, value: self.value@ }
    }
}

/// A level-2 order book push: price level to size.
#[derive(Debug, Clone, PartialEq)]
pub struct OrderBookLevel2 {
    pub asks: Vec<(String, u64)>,
    pub bids: Vec<(String, u64)>,
    pub seq_number: u64,
    pub symbol: Symbol,
    pub update_type: UpdateType,
}

/// View of [`OrderBookLevel2`].
pub struct OrderBookLevel2V {
    pub asks: Seq<(Seq<char>, u64)>,
    pub bids: Seq<(Seq<char>, u64)>,
    pub seq_number: u64,
    pub symbol: Seq<char>,
    pub update_type: UpdateType,
}

/// Views of a price-level list.
pub open spec fn levels_view(v: Seq<(String, u64)>) -> Seq<(Seq<char>, u64)> {
    Seq::new(v.len(), |i: int| (v[i].0@, v[i].1))
}

impl View for OrderBookLevel2 {
    type V = OrderBookLevel2V;

    open spec fn view(&self) -> OrderBookLevel2V {
        OrderBookLevel2V {
            asks: levels_view(self.asks@),
            bids: levels_view(self.bids@),
            seq_number: self.seq_number,
            symbol: self.symbol@,
            update_type: self.update_type,
        }
    }
}

/// One resting order in an open-orders reply.
#[derive(Debug, Clone, PartialEq)]
pub struct OpenOrder {
    pub ext_order_id: String,
    pub filled: u64,
    pub leverage: u64,
    pub margin_type: MarginType,
    pub order_id: u64,
    pub order_type: OrderType,
    pub price: u64,
    pub quantity: u64,
    pub settlement_type: SettlementType,
    pub side: OrderSide,
    pub symbol: Symbol,
    pub timestamp: u64,
    pub uid: u64,
}

/// View of [`OpenOrder`].
pub struct OpenOrderV {
    pub ext_order_id: Seq<char>,
    pub filled: u64,
    pub leverage: u64,
    pub margin_type: MarginType,
    pub order_id: u64,
    pub order_type: OrderType,
    pub price: u64,
    pub quantity: u64,
    pub settlement_type: SettlementType,
    pub side: OrderSide,
    pub symbol: Seq<char>,
    pub timestamp: u64,
    pub uid: u64,
}

impl View for OpenOrder {
    type V = OpenOrderV;

    open spec fn view(&self) -> OpenOrderV {
        OpenOrderV {
            ext_order_id: self.ext_order_id@,
            filled: self.filled,
            leverage: self.leverage,
            margin_type: self.margin_type,
            order_id: self.order_id,
            order_type: self.order_type,
            price: self.price,
            quantity: self.quantity,
            settlement_type: self.settlement_type,
            side: self.side,
            symbol: self.symbol@,
            timestamp: self.timestamp,
            uid: self.uid,
        }
    }
}

/// One position in a positions reply.
#[derive(Debug, Clone, PartialEq)]
pub struct Position {
    pub adl_score: NumStr,
    pub bankruptcy_price: NumStr,
    pub entry_price: NumStr,
    pub entry_time: Option<u64>,
    pub entry_value: NumStr,
    pub funding: NumStr,
    pub is_liquidating: bool,
    pub leverage: NumStr,
    pub liq_price: NumStr,
    pub mark_value: NumStr,
    pub open_order_ids: Vec<u64>,
    pub position_id: String,
    pub quantity: NumStr,
    pub real_leverage: NumStr,
    pub rpnl: NumStr,
    pub side: Option<OrderSide>,
    pub symbol: Symbol,
    pub timestamp: u64,
    pub uid: u64,
    pub upnl: NumStr,
}

/// View of [`Position`].
pub struct PositionV {
    pub adl_score: Seq<char>,
    pub bankruptcy_price: Seq<char>,
    pub entry_price: Seq<char>,
    pub entry_time: Option<u64>,
    pub entry_value: Seq<char>,
    pub funding: Seq<char>,
    pub is_liquidating: bool,
    pub leverage: Seq<char>,
    pub liq_price: Seq<char>,
    pub mark_value: Seq<char>,
    pub open_order_ids: Seq<u64>,
    pub position_id: Seq<char>,
    pub quantity: Seq<char>,
    pub real_leverage: Seq<char>,
    pub rpnl: Seq<char>,
    pub side: Option<OrderSide>,
    pub symbol: Seq<char>,
    pub timestamp: u64,
    pub uid: u64,
    pub upnl: Seq<char>,
}

impl View for Position {
    type V = PositionV;

    open spec fn view(&self) -> PositionV {
        PositionV {
            adl_score: self.adl_score@,
            bankruptcy_price: self.bankruptcy_price@,
            entry_price: self.entry_price@,
            entry_time: self.entry_time,
            entry_value: self.entry_value@,
            funding: self.funding@,
            is_liquidating: self.is_liquidating,
            leverage: self.leverage@,
            liq_price: self.liq_price@,
            mark_value: self.mark_value@,
            open_order_ids: self.open_order_ids@,
            position_id: self.position_id@,
            quantity: self.quantity@,
            real_leverage: self.real_leverage@,
            rpnl: self.rpnl@,
            side: self.side,
            symbol: self.symbol@,
            timestamp: self.timestamp,
            uid: self.uid,
            upnl: self.upnl@,
        }
    }
}

/// Views of a `symbol: numeric` mapping.
pub open spec fn num_entries_view(v: Seq<(String, NumStr)>) -> Seq<(Seq<char>, Seq<char>)> {
    Seq::new(v.len(), |i: int| (v[i].0@, v[i].1@))
}

/// Views of a `symbol: count` mapping.
pub open spec fn u64_entries_view(v: Seq<(String, u64)>) -> Seq<(Seq<char>, u64)> {
    Seq::new(v.len(), |i: int| (v[i].0@, v[i].1))
}

/// Views of a list of open orders.
pub open spec fn open_orders_view(v: Seq<OpenOrder>) -> Seq<OpenOrderV> {
    Seq::new(v.len(), |i: int| v[i]@)
}

/// Views of a `symbol: orders` mapping.
pub open spec fn open_order_entries_view(v: Seq<(String, Vec<OpenOrder>)>) -> Seq<
    (Seq<char>, Seq<OpenOrderV>),
> {
    Seq::new(v.len(), |i: int| (v[i].0@, open_orders_view(v[i].1@)))
}

/// Views of a `symbol: position` mapping.
pub open spec fn position_entries_view(v: Seq<(String, Position)>) -> Seq<(Seq<char>, PositionV)> {
    Seq::new(v.len(), |i: int| (v[i].0@, v[i].1@))
}

/// Views of a symbol list.
pub open spec fn strs_view(v: Seq<String>) -> Seq<Seq<char>> {
    Seq::new(v.len(), |i: int| v[i]@)
}

/// An inbound domain message, keyed on the wire by its `type` discriminant
/// with the payload under `data`.
#[derive(Debug, Clone, PartialEq)]
pub enum KolliderTaggedMsg {
    IndexValues(IndexValue),
    Error(String),
    Success(String),
    OrderBookLevel2(OrderBookLevel2),
    Authenticate { message: String },
    Received {
        uid: u64,
        order_id: u64,
        price: u64,
        quantity: u64,
        symbol: Symbol,
        leverage: u64,
        order_type: OrderType,
        ext_order_id: String,
        timestamp: u64,
    },
    Balances {
        cash: NumStr,
        cross_margin: NumStr,
        isolated_margin: Vec<(Symbol, NumStr)>,
        order_margin: Vec<(Symbol, NumStr)>,
    },
    Open {
        order_id: u64,
        price: u64,
        quantity: u64,
        symbol: Symbol,
        leverage: u64,
        side: OrderSide,
        margin_type: MarginType,
        order_type: OrderType,
        settlement_type: SettlementType,
        ext_order_id: String,
        timestamp: u64,
        filled: u64,
    },
    AdvancedOrders,
    OpenOrders { open_orders: Vec<(Symbol, Vec<OpenOrder>)> },
    Positions { positions: Vec<(Symbol, Position)> },
    WithdrawalLimitInfo {
        daily_withdrawal_limits: Vec<(String, u64)>,
        daily_withdrawal_volumes: Vec<(String, u64)>,
    },
    Done { orde_type: OrderType, order_id: u64, reason: String, symbol: Symbol, timestamp: u64 },
    OrderNotFound { order_id: u64, symbol: Symbol },
    Fill {
        ext_order_id: String,
        is_maker: bool,
        is_selftrade: bool,
        leverage: u64,
        margin_type: MarginType,
        order_id: u64,
        partial: bool,
        price: u64,
        quantity: u64,
        side: OrderSide,
        symbol: String,
        user_id: u64,
    },
    Trade {
        fees: NumStr,
        is_liquidation: bool,
        is_maker: bool,
        leverage: NumStr,
        margin_type: MarginType,
        order_id: u64,
        price: NumStr,
        quantity: u64,
        rpnl: NumStr,
        settlement_type: SettlementType,
        side: OrderSide,
        symbol: String,
        timestamp: u64,
    },
    SettlementRequest {
        amount: u64,
        lnurl: String,
        request_id: String,
        side: OrderSide,
        symbol: Symbol,
    },
    ChangeLeverageInfo {
        error: Option<String>,
        liquidation_price: Option<NumStr>,
        order_margin: NumStr,
        position_margin: NumStr,
        symbol: Symbol,
    },
    ChangeLeverageSuccess { symbol: Symbol },
}

/// View of [`KolliderTaggedMsg`].
pub enum KolliderTaggedMsgV {
    IndexValues(IndexValueV),
    Error(Seq<char>),
    Success(Seq<char>),
    OrderBookLevel2(OrderBookLevel2V),
    Authenticate { message: Seq<char> },
    Received {
        uid: u64,
        order_id: u64,
        price: u64,
        quantity: u64,
        symbol: Seq<char>,
        leverage: u64,
        order_type: OrderType,
        ext_order_id: Seq<char>,
        timestamp: u64,
    },
    Balances {
        cash: Seq<char>,
        cross_margin: Seq<char>,
        isolated_margin: Seq<(Seq<char>, Seq<char>)>,
        order_margin: Seq<(Seq<char>, Seq<char>)>,
    },
    Open {
        order_id: u64,
        price: u64,
        quantity: u64,
        symbol: Seq<char>,
        leverage: u64,
        side: OrderSide,
        margin_type: MarginType,
        order_type: OrderType,
        settlement_type: SettlementType,
        ext_order_id: Seq<char>,
        timestamp: u64,
        filled: u64,
    },
    AdvancedOrders,
    OpenOrders { open_orders: Seq<(Seq<char>, Seq<OpenOrderV>)> },
    Positions { positions: Seq<(Seq<char>, PositionV)> },
    WithdrawalLimitInfo {
        daily_withdrawal_limits: Seq<(Seq<char>, u64)>,
        daily_withdrawal_volumes: Seq<(Seq<char>, u64)>,
    },
    Done {
        orde_type: OrderType,
        order_id: u64,
        reason: Seq<char>,
        symbol: Seq<char>,
        timestamp: u64,
    },
    OrderNotFound { order_id: u64, symbol: Seq<char> },
    Fill {
        ext_order_id: Seq<char>,
        is_maker: bool,
        is_selftrade: bool,
        leverage: u64,
        margin_type: MarginType,
        order_id: u64,
        partial: bool,
        price: u64,
        quantity: u64,
        side: OrderSide,
        symbol: Seq<char>,
        user_id: u64,
    },
    Trade {
        fees: Seq<char>,
        is_liquidation: bool,
        is_maker: bool,
        leverage: Seq<char>,
        margin_type: MarginType,
        order_id: u64,
        price: Seq<char>,
        quantity: u64,
        rpnl: Seq<char>,
        settlement_type: SettlementType,
        side: OrderSide,
        symbol: Seq<char>,
        timestamp: u64,
    },
    SettlementRequest {
        amount: u64,
        lnurl: Seq<char>,
        request_id: Seq<char>,
        side: OrderSide,
        symbol: Seq<char>,
    },
    ChangeLeverageInfo {
        error: Option<Seq<char>>,
        liquidation_price: Option<Seq<char>>,
        order_margin: Seq<char>,
        position_margin: Seq<char>,
        symbol: Seq<char>,
    },
    ChangeLeverageSuccess { symbol: Seq<char> },
}

/// View of an optional text field.
pub open spec fn opt_str_view(v: Option<String>) -> Option<Seq<char>> {
    match v {
        Some(s) => Some(s@),
        None => None,
    }
}

/// View of an optional numeric field.
pub open spec fn opt_num_view(v: Option<NumStr>) -> Option<Seq<char>> {
    match v {
        Some(s) => Some(s@),
        None => None,
    }
}

impl View for KolliderTaggedMsg {
    type V = KolliderTaggedMsgV;

    open spec fn view(&self) -> KolliderTaggedMsgV {
        match *self {
            KolliderTaggedMsg::IndexValues(iv) => KolliderTaggedMsgV::IndexValues(iv@),
            KolliderTaggedMsg::Error(m) => KolliderTaggedMsgV::Error(m@),
            KolliderTaggedMsg::Success(m) => KolliderTaggedMsgV::Success(m@),
            KolliderTaggedMsg::OrderBookLevel2(b) => KolliderTaggedMsgV::OrderBookLevel2(b@),
            KolliderTaggedMsg::Authenticate { message } => KolliderTaggedMsgV::Authenticate {
                message: message@,
            },
            KolliderTaggedMsg::Received {
                uid,
                order_id,
                price,
                quantity,
                symbol,
                leverage,
                order_type,
                ext_order_id,
                timestamp,
            } => KolliderTaggedMsgV::Received {
                uid,
                order_id,
                price,
                quantity,
                symbol: symbol@,
                leverage,
                order_type,
                ext_order_id: ext_order_id@,
                timestamp,
            },
            KolliderTaggedMsg::Balances { cash, cross_margin, isolated_margin, order_margin } =>
                KolliderTaggedMsgV::Balances {
                cash: cash@,
                cross_margin: cross_margin@,
                isolated_margin: num_entries_view(isolated_margin@),
                order_margin: num_entries_view(order_margin@),
            },
            KolliderTaggedMsg::Open {
                order_id,
                price,
                quantity,
                symbol,
                leverage,
                side,
                margin_type,
                order_type,
                settlement_type,
                ext_order_id,
                timestamp,
                filled,
            } => KolliderTaggedMsgV::Open {
                order_id,
                price,
                quantity,
                symbol: symbol@,
                leverage,
                side,
                margin_type,
                order_type,
                settlement_type,
                ext_order_id: ext_order_id@,
                timestamp,
                filled,
            },
            KolliderTaggedMsg::AdvancedOrders => KolliderTaggedMsgV::AdvancedOrders,
            KolliderTaggedMsg::OpenOrders { open_orders } => KolliderTaggedMsgV::OpenOrders {
                open_orders: open_order_entries_view(open_orders@),
            },
            KolliderTaggedMsg::Positions { positions } => KolliderTaggedMsgV::Positions {
                positions: position_entries_view(positions@),
            },
            KolliderTaggedMsg::WithdrawalLimitInfo {
                daily_withdrawal_limits,
                daily_withdrawal_volumes,
            } => KolliderTaggedMsgV::WithdrawalLimitInfo {
                daily_withdrawal_limits: u64_entries_view(daily_withdrawal_limits@),
                daily_withdrawal_volumes: u64_entries_view(daily_withdrawal_volumes@),
            },
            KolliderTaggedMsg::Done { orde_type, order_id, reason, symbol, timestamp } =>
                KolliderTaggedMsgV::Done {
                orde_type,
                order_id,
                reason: reason@,
                symbol: symbol@,
                timestamp,
            },
            KolliderTaggedMsg::OrderNotFound { order_id, symbol } =>
                KolliderTaggedMsgV::OrderNotFound { order_id, symbol: symbol@ },
            KolliderTaggedMsg::Fill {
                ext_order_id,
                is_maker,
                is_selftrade,
                leverage,
                margin_type,
                order_id,
                partial,
                price,
                quantity,
                side,
                symbol,
                user_id,
            } => KolliderTaggedMsgV::Fill {
                ext_order_id: ext_order_id@,
                is_maker,
                is_selftrade,
                leverage,
                margin_type,
                order_id,
                partial,
                price,
                quantity,
                side,
                symbol: symbol@,
                user_id,
            },
            KolliderTaggedMsg::Trade {
                fees,
                is_liquidation,
                is_maker,
                leverage,
                margin_type,
                order_id,
                price,
                quantity,
                rpnl,
                settlement_type,
                side,
                symbol,
                timestamp,
            } => KolliderTaggedMsgV::Trade {
                fees: fees@,
                is_liquidation,
                is_maker,
                leverage: leverage@,
                margin_type,
                order_id,
                price: price@,
                quantity,
                rpnl: rpnl@,
                settlement_type,
                side,
                symbol: symbol@,
                timestamp,
            },
            KolliderTaggedMsg::SettlementRequest { amount, lnurl, request_id, side, symbol } =>
                KolliderTaggedMsgV::SettlementRequest {
                amount,
                lnurl: lnurl@,
                request_id: request_id@,
                side,
                symbol: symbol@,
            },
            KolliderTaggedMsg::ChangeLeverageInfo {
                error,
                liquidation_price,
                order_margin,
                position_margin,
                symbol,
            } => KolliderTaggedMsgV::ChangeLeverageInfo {
                error: opt_str_view(error),
                liquidation_price: opt_num_view(liquidation_price),
                order_margin: order_margin@,
                position_margin: position_margin@,
                symbol: symbol@,
            },
            KolliderTaggedMsg::ChangeLeverageSuccess { symbol } =>
                KolliderTaggedMsgV::ChangeLeverageSuccess { symbol: symbol@ },
        }
    }
}

/// A message of the WebSocket channel, in either direction.
///
/// The outbound variants each serialize to a flat JSON object whose `type`
/// field is a string literal unique to the variant.  Inbound domain traffic
/// arrives as [`KolliderTaggedMsg`]; a well-formed frame that matches no known
/// shape is kept whole under `Unknown`.
#[derive(Debug, PartialEq)]
pub enum KolliderMsg {
    Subscribe { _type: SubscribeTag, symbols: Vec<Symbol>, channels: Vec<ChannelName> },
    Unsubscribe { _type: UnsubscribeTag, symbols: Vec<Symbol>, channels: Vec<ChannelName> },
    UserAuth {
        _type: AuthenticateTag,
        /// API key.
        token: String,
        /// API passphrase.
        passphrase: String,
        /// BASE64(HMAC_SHA256(timestamp + "authentication", API_SECRET)).
        signature: String,
        /// Decimal Unix timestamp, the same value the signature covers.
        timestamp: String,
    },
    Error { _type: ErrorTag, message: String },
    Order {
        _type: OrderTag,
        price: u64,
        quantity: u64,
        symbol: Symbol,
        leverage: u64,
        side: OrderSide,
        margin_type: MarginType,
        order_type: OrderType,
        settlement_type: SettlementType,
        ext_order_id: String,
    },
    CancelOrder { _type: CancelOrderTag, order_id: u64, symbol: String, settlement_type: SettlementType },
    FetchOpenOrders { _type: FetchOpenOrdersTag },
    FetchPositions { _type: FetchPositionsTag },
    FetchBalances { _type: FetchBalancesTag },
    GetTicker { _type: GetTickerTag, symbol: String },
    TradableProducts { _type: TradableProductsTag },
    Tagged(KolliderTaggedMsg),
    Unknown(Json),
}

/// View of [`KolliderMsg`].
pub enum KolliderMsgV {
    Subscribe { symbols: Seq<Seq<char>>, channels: Seq<ChannelName> },
    Unsubscribe { symbols: Seq<Seq<char>>, channels: Seq<ChannelName> },
    UserAuth {
        token: Seq<char>,
        passphrase: Seq<char>,
        signature: Seq<char>,
        timestamp: Seq<char>,
    },
    Error { message: Seq<char> },
    Order {
        price: u64,
        quantity: u64,
        symbol: Seq<char>,
        leverage: u64,
        side: OrderSide,
        margin_type: MarginType,
        order_type: OrderType,
        settlement_type: SettlementType,
        ext_order_id: Seq<char>,
    },
    CancelOrder { order_id: u64, symbol: Seq<char>, settlement_type: SettlementType },
    FetchOpenOrders,
    FetchPositions,
    FetchBalances,
    GetTicker { symbol: Seq<char> },
    TradableProducts,
    Tagged(KolliderTaggedMsgV),
    Unknown(JsonV),
}

impl View for KolliderMsg {
    type V = KolliderMsgV;

    open spec fn view(&self) -> KolliderMsgV {
        match *self {
            KolliderMsg::Subscribe { _type, symbols, channels } => KolliderMsgV::Subscribe {
                symbols: strs_view(symbols@),
                channels: channels@,
            },
            KolliderMsg::Unsubscribe { _type, symbols, channels } => KolliderMsgV::Unsubscribe {
                symbols: strs_view(symbols@),
                channels: channels@,
            },
            KolliderMsg::UserAuth { _type, token, passphrase, signature, timestamp } =>
                KolliderMsgV::UserAuth {
                token: token@,
                passphrase: passphrase@,
                signature: signature@,
                timestamp: timestamp@,
            },
            KolliderMsg::Error { _type, message } => KolliderMsgV::Error { message: message@ },
            KolliderMsg::Order {
                _type,
                price,
                quantity,
                symbol,
                leverage,
                side,
                margin_type,
                order_type,
                settlement_type,
                ext_order_id,
            } => KolliderMsgV::Order {
                price,
                quantity,
                symbol: symbol@,
                leverage,
                side,
                margin_type,
                order_type,
                settlement_type,
                ext_order_id: ext_order_id@,
            },
            KolliderMsg::CancelOrder { _type, order_id, symbol, settlement_type } =>
                KolliderMsgV::CancelOrder {
                order_id,
                symbol: symbol@,
                settlement_type,
            },
            KolliderMsg::FetchOpenOrders { _type } => KolliderMsgV::FetchOpenOrders,
            KolliderMsg::FetchPositions { _type } => KolliderMsgV::FetchPositions,
            KolliderMsg::FetchBalances { _type } => KolliderMsgV::FetchBalances,
            KolliderMsg::GetTicker { _type, symbol } => KolliderMsgV::GetTicker {
                symbol: symbol@,
            },
            KolliderMsg::TradableProducts { _type } => KolliderMsgV::TradableProducts,
            KolliderMsg::Tagged(t) => KolliderMsgV::Tagged(t@),
            KolliderMsg::Unknown(j) => KolliderMsgV::Unknown(j@),
        }
    }
}

impl KolliderMsg {
    /// True of the request variants that this client sends to the exchange.
    pub open spec fn spec_is_outbound(&self) -> bool {
        !(*self is Tagged) && !(*self is Unknown)
    }

    /// True of the request variants that this client sends to the exchange.
    pub fn is_outbound(&self) -> (r: bool)
        ensures
            r == self.spec_is_outbound(),
    {
        match self {
            KolliderMsg::Tagged(_) => false,
            KolliderMsg::Unknown(_) => false,
            _ => true,
        }
    }
}

} // verus!
