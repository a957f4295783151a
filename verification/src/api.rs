//! Data types of the exchange's REST interface, and the enumerations shared
//! with the WebSocket wire model.
//!
//! Numeric fields that the exchange quotes as strings (prices, leverages,
//! margins) are kept as [`NumStr`] literals: exact text, no floating point.

use vstd::prelude::*;
use crate::json::NumStr;
use crate::text::{lower_of, str_eq, to_lowercase};

verus! {

/// Symbol of a tradable product or an index, e.g. `BTCUSD.PERP` or `.XTBUSD`.
pub type Symbol = String;

/// Margin scheme of an order.
#[derive(Debug, PartialEq, Eq, Structural, Clone, Copy, Hash)]
pub enum MarginType {
    Isolated,
}

/// Error for a margin type name that the exchange does not know.
#[derive(Debug, Clone, PartialEq, Eq)]
pub struct UnknownMarginType(pub String);

impl MarginType {
    /// Case-insensitive name of a margin type; anything but `isolated` is unknown.
    pub fn parse_str(s: &str) -> (r: Result<MarginType, UnknownMarginType>)
        ensures
            match r {
                Ok(m) => lower_of(s@) == "isolated"@ && m == MarginType::Isolated,
                Err(e) => lower_of(s@) != "isolated"@ && e.0@ == s@,
            },
    {
        let low = to_lowercase(s);
        if str_eq(low.as_str(), "isolated") {
            Ok(MarginType::Isolated)
        } else {
            Err(UnknownMarginType(s.to_owned()))
        }
    }
}

impl core::str::FromStr for MarginType {
    type Err = UnknownMarginType;

    fn from_str(s: &str) -> Result<Self, Self::Err> {
        MarginType::parse_str(s)
    }
}

/// Execution style of an order.
#[derive(Debug, PartialEq, Eq, Structural, Clone, Copy, Hash)]
pub enum OrderType {
    Limit,
    Market,
}

/// Error for an order type name that the exchange does not know.
#[derive(Debug, Clone, PartialEq, Eq)]
pub struct UnknownOrderType(pub String);

impl OrderType {
    /// Case-insensitive name of an order type: `limit` or `market`.
    pub fn parse_str(s: &str) -> (r: Result<OrderType, UnknownOrderType>)
        ensures
            match r {
                Ok(m) => (lower_of(s@) == "limit"@ && m == OrderType::Limit) || (lower_of(s@)
                    == "market"@ && m == OrderType::Market),
                Err(e) => lower_of(s@) != "limit"@ && lower_of(s@) != "market"@ && e.0@ == s@,
            },
    {
        let low = to_lowercase(s);
        if str_eq(low.as_str(), "limit") {
            Ok(OrderType::Limit)
        } else if str_eq(low.as_str(), "market") {
            Ok(OrderType::Market)
        } else {
            Err(UnknownOrderType(s.to_owned()))
        }
    }
}

impl core::str::FromStr for OrderType {
    type Err = UnknownOrderType;

    fn from_str(s: &str) -> Result<Self, Self::Err> {
        OrderType::parse_str(s)
    }
}

/// Settlement style of an order.
#[derive(Debug, PartialEq, Eq, Structural, Clone, Copy, Hash)]
pub enum SettlementType {
    Instant,
    Delayed,
}

/// Error for a settlement type name that the exchange does not know.
#[derive(Debug, Clone, PartialEq, Eq)]
pub struct UnknownSettlementType(pub String);

impl SettlementType {
    /// Case-insensitive name of a settlement type: `instant` or `delayed`.
    pub fn parse_str(s: &str) -> (r: Result<SettlementType, UnknownSettlementType>)
        ensures
            match r {
                Ok(m) => (lower_of(s@) == "instant"@ && m == SettlementType::Instant) || (lower_of(
                    s@,
                ) == "delayed"@ && m == SettlementType::Delayed),
                Err(e) => lower_of(s@) != "instant"@ && lower_of(s@) != "delayed"@ && e.0@ == s@,
            },
    {
        let low = to_lowercase(s);
        if str_eq(low.as_str(), "instant") {
            Ok(SettlementType::Instant)
        } else if str_eq(low.as_str(), "delayed") {
            Ok(SettlementType::Delayed)
        } else {
            Err(UnknownSettlementType(s.to_owned()))
        }
    }
}

impl core::str::FromStr for SettlementType {
    type Err = UnknownSettlementType;

    fn from_str(s: &str) -> Result<Self, Self::Err> {
        SettlementType::parse_str(s)
    }
}

/// Side of an order or a trade.
#[derive(Debug, PartialEq, Eq, Structural, Clone, Copy, Hash)]
pub enum OrderSide {
    Ask,
    Bid,
}

/// Error for a side name that the exchange does not know.
#[derive(Debug, Clone, PartialEq, Eq)]
pub struct UnknownOrderSide(pub String);

impl OrderSide {
    /// The opposite side.
    pub fn inverse(&self) -> (r: Self)
        ensures
            r == if *self is Ask {
                OrderSide::Bid
            } else {
                OrderSide::Ask
            },
    {
        match self {
            OrderSide::Ask => OrderSide::Bid,
            OrderSide::Bid => OrderSide::Ask,
        }
    }

    /// Case-insensitive name of a side: `ask` or `bid`.
    pub fn parse_str(s: &str) -> (r: Result<OrderSide, UnknownOrderSide>)
        ensures
            match r {
                Ok(m) => (lower_of(s@) == "ask"@ && m == OrderSide::Ask) || (lower_of(s@) == "bid"@
                    && m == OrderSide::Bid),
                Err(e) => lower_of(s@) != "ask"@ && lower_of(s@) != "bid"@ && e.0@ == s@,
            },
    {
        let low = to_lowercase(s);
        if str_eq(low.as_str(), "ask") {
            Ok(OrderSide::Ask)
        } else if str_eq(low.as_str(), "bid") {
            Ok(OrderSide::Bid)
        } else {
            Err(UnknownOrderSide(s.to_owned()))
        }
    }
}

impl core::str::FromStr for OrderSide {
    type Err = UnknownOrderSide;

    fn from_str(s: &str) -> Result<Self, Self::Err> {
        OrderSide::parse_str(s)
    }
}

/// Order book depth selector of the `/market/orderbook` endpoint.
#[derive(Debug, PartialEq, Eq, Structural, Clone, Copy, Hash)]
pub enum OrderBookLevel {
    Level2,
    Level3,
}

impl OrderBookLevel {
    /// Numeric level 2 or 3 selects the matching book depth; anything else is unknown.
    pub fn from_int(i: u64) -> (r: Option<OrderBookLevel>)
        ensures
            r == if i == 2 {
                Some(OrderBookLevel::Level2)
            } else if i == 3 {
                Some(OrderBookLevel::Level3)
            } else {
                None::<OrderBookLevel>
            },
    {
        match i {
            2 => Some(OrderBookLevel::Level2),
            3 => Some(OrderBookLevel::Level3),
            _ => None,
        }
    }

    pub fn to_int(&self) -> (r: u64)
        ensures
            r == if self is Level2 {
                2u64
            } else {
                3u64
            },
    {
        match self {
            OrderBookLevel::Level2 => 2,
            OrderBookLevel::Level3 => 3,
        }
    }
}

/// An order book price key, sent by the exchange as a quoted decimal integer.
#[derive(Debug, PartialEq, Eq, Structural, Clone, Copy, Hash)]
pub struct KeyPrice(pub u64);

impl KeyPrice {
    /// Reads a quoted price key: the whole string must be decimal digits that
    /// fit a `u64`.
    pub fn parse_str(s: &str) -> (r: Option<KeyPrice>)
        ensures
            match r {
                Some(k) => crate::text::all_digits(s@) && s@.len() > 0 && k.0 == crate::text::dec_val(
                    s@,
                ),
                None => !crate::text::all_digits(s@) || s@.len() == 0 || crate::text::dec_val(s@)
                    > u64::MAX,
            },
    {
        let n = s.unicode_len();
        proof {
            assert(s@.subrange(0, n as int) =~= s@);
        }
        match crate::text::parse_u64(s, 0, n) {
            Some(v) => Some(KeyPrice(v)),
            None => None,
        }
    }
}

/// Time interval between historic price points.
#[derive(Debug, PartialEq, Eq, Structural, Clone, Copy, Hash)]
pub enum IntervalSize {
    FiveMin,
    FifteenMin,
    OneHour,
    OneDay,
}

/// Error for an interval code that the exchange does not know.
#[derive(Debug, Clone, PartialEq, Eq)]
pub struct UnknownInterval(pub String);

impl IntervalSize {
    /// Wire code of the interval: `5m`, `15m`, `1h` or `1d`.
    pub fn as_str(&self) -> (r: &'static str)
        ensures
            r@ == self.spec_code(),
    {
        match self {
            IntervalSize::FiveMin => "5m",
            IntervalSize::FifteenMin => "15m",
            IntervalSize::OneHour => "1h",
            IntervalSize::OneDay => "1d",
        }
    }

    pub open spec fn spec_code(&self) -> Seq<char> {
        match self {
            IntervalSize::FiveMin => "5m"@,
            IntervalSize::FifteenMin => "15m"@,
            IntervalSize::OneHour => "1h"@,
            IntervalSize::OneDay => "1d"@,
        }
    }

    /// Exact interval code; anything else is unknown.
    pub fn parse_str(s: &str) -> (r: Result<IntervalSize, UnknownInterval>)
        ensures
            match r {
                Ok(m) => s@ == m.spec_code(),
                Err(e) => s@ != "5m"@ && s@ != "15m"@ && s@ != "1h"@ && s@ != "1d"@ && e.0@ == s@,
            },
    {
        if str_eq(s, "5m") {
            Ok(IntervalSize::FiveMin)
        } else if str_eq(s, "15m") {
            Ok(IntervalSize::FifteenMin)
        } else if str_eq(s, "1h") {
            Ok(IntervalSize::OneHour)
        } else if str_eq(s, "1d") {
            Ok(IntervalSize::OneDay)
        } else {
            Err(UnknownInterval(s.to_owned()))
        }
    }
}

impl core::str::FromStr for IntervalSize {
    type Err = UnknownInterval;

    fn from_str(s: &str) -> Result<Self, Self::Err> {
        IntervalSize::parse_str(s)
    }
}

/// Body of a new-order request.
#[derive(Debug, Clone, PartialEq)]
pub struct OrderBody {
    pub price: u64,
    pub order_type: OrderType,
    pub side: OrderSide,
    pub quantity: u64,
    pub symbol: Symbol,
    pub leverage: u64,
    pub margin_type: MarginType,
    pub settlement_type: SettlementType,
}

/// Reply of the exchange to an accepted new order.
#[derive(Debug, Clone, PartialEq)]
pub struct OrderCreated {
    pub timestamp: u64,
    pub order_id: u64,
    pub ext_order_id: String,
    pub uid: u64,
    pub symbol: String,
    pub quantity: u64,
    pub order_type: OrderType,
    pub price: u64,
    pub leverage: u64,
}

/// View of [`OrderCreated`].
pub struct OrderCreatedV {
    pub timestamp: u64,
    pub order_id: u64,
    pub ext_order_id: Seq<char>,
    pub uid: u64,
    pub symbol: Seq<char>,
    pub quantity: u64,
    pub order_type: OrderType,
    pub price: u64,
    pub leverage: u64,
}

impl View for OrderCreated {
    type V = OrderCreatedV;

    open spec fn view(&self) -> OrderCreatedV {
        OrderCreatedV {
            timestamp: self.timestamp,
            order_id: self.order_id,
            ext_order_id: self.ext_order_id@,
            uid: self.uid,
            symbol: self.symbol@,
            quantity: self.quantity,
            order_type: self.order_type,
            price: self.price,
            leverage: self.leverage,
        }
    }
}

/// Pre-flight answer of the order prediction endpoint.
#[derive(Debug, Clone, PartialEq)]
pub struct OrderPrediction {
    pub uid: u64,
    pub ext_id: String,
    pub margin_required: NumStr,
    pub value: NumStr,
    pub exchange_fee: NumStr,
    pub estimated_liquidation_price: NumStr,
    pub rejection_reason: Option<String>,
}

/// A position as the REST interface reports it.
#[derive(Debug, Clone, PartialEq)]
pub struct PositionDetails {
    pub uid: u64,
    pub timestamp: u64,
    pub symbol: Symbol,
    pub upnl: i64,
    pub leverage: NumStr,
    pub entry_price: NumStr,
    pub side: OrderSide,
    pub quantity: NumStr,
    pub liq_price: NumStr,
    pub open_order_ids: Vec<String>,
}

/// A resting order as the order book endpoints report it.
#[derive(Debug, Clone, PartialEq)]
pub struct OrderDetails {
    pub ext_order_id: String,
    pub filled: NumStr,
    pub leverage: u64,
    pub margin_type: MarginType,
    pub order_id: u64,
    pub order_type: OrderType,
    pub price: u64,
    pub quantity: u64,
    pub settlement_type: SettlementType,
    pub side: OrderSide,
    pub symbol: Symbol,
    pub timestamp: u64,
    pub uid: u64,
}

/// A fill of a user order, with the order it belongs to.
#[derive(Debug, Clone, PartialEq)]
pub struct FillDetails {
    pub order: OrderDetails,
    pub remaining: u64,
    pub partial: bool,
    pub is_maker: bool,
    pub is_liquidation: bool,
    pub is_selftrade: bool,
}

/// Request body of a wallet deposit.
#[derive(Debug, Clone, PartialEq)]
pub enum DepositBody {
    Lighting(u64),
    Bitcoin,
}

/// Reply of a wallet deposit request.
#[derive(Debug, Clone, PartialEq)]
pub enum DepositResp {
    Lightning { payment_request: String },
    Bitcoin { receive_address: String },
}

/// Tag of a Lightning withdrawal body.
#[derive(Debug, PartialEq, Eq, Structural, Clone, Copy)]
pub enum LnTag {
    Ln,
}

/// Tag of an on-chain withdrawal body.
#[derive(Debug, PartialEq, Eq, Structural, Clone, Copy)]
pub enum BtcTag {
    BTC,
}

/// Request body of a wallet withdrawal.
#[derive(Debug, Clone, PartialEq)]
pub enum WithdrawalBody {
    Lighting { _type: LnTag, payment_request: String, amount: u64 },
    Bitcoin { _type: BtcTag, receive_address: String, amount: u64 },
}

/// Network over which a withdrawal travels.
#[derive(Debug, PartialEq, Eq, Structural, Clone, Copy)]
pub enum WithdrawalNetwork {
    Lightning,
    Bitcoin,
}

/// Terminal state of a withdrawal.
#[derive(Debug, PartialEq, Eq, Structural, Clone, Copy)]
pub enum WithdrawalStatus {
    Complete,
}

/// Reply of a wallet withdrawal request.
#[derive(Debug, Clone, PartialEq)]
pub enum WithdrawalResp {
    WithdrawalSuccess {
        uid: u64,
        receipt: String,
        amount: u64,
        network: WithdrawalNetwork,
        status: WithdrawalStatus,
        txid: String,
    },
    WithdrawalRejection { uid: u64, reason: String, amount: u64 },
}

/// Account description of the `/user/account` endpoint.
#[derive(Debug, Clone, PartialEq)]
pub struct AccountInfo {
    pub created_at: AccountCreated,
    pub email: String,
    pub lnauth_enabled: bool,
    pub user_type: String,
    pub username: String,
    pub validated_email: bool,
}

/// Creation time of an account.
#[derive(Debug, PartialEq, Eq, Structural, Clone, Copy)]
pub struct AccountCreated {
    pub nanos_since_epoch: u64,
    pub secs_since_epoch: u64,
}

/// Error report of the REST interface.
#[derive(Debug, Clone, PartialEq)]
pub struct KolliderError {
    pub error: ErrorType,
    pub msg: String,
}

/// Shape of a REST error: a bare code or a wrapped general error.
#[derive(Debug, Clone, PartialEq)]
pub enum ErrorType {
    Simple(String),
    Detailed { general_error: String },
}

impl KolliderError {
    /// The report as one line of text, as a caller would log it.
    pub fn message(&self) -> (r: String)
        ensures
            match self.error {
                ErrorType::Simple(code) => r@ == "Kollider error "@ + code@ + ": "@ + self.msg@,
                ErrorType::Detailed { general_error } => r@ == "Kollider general error "@
                    + general_error@ + ": "@ + self.msg@,
            },
    {
        let mut out = String::new();
        match &self.error {
            ErrorType::Simple(code) => {
                out.append("Kollider error ");
                out.append(code.as_str());
            },
            ErrorType::Detailed { general_error } => {
                out.append("Kollider general error ");
                out.append(general_error.as_str());
            },
        }
        out.append(": ");
        out.append(self.msg.as_str());
        out
    }
}

/// A REST reply: either the expected value or an error report.
#[derive(Debug, Clone, PartialEq)]
pub enum KolliderResult<T> {
    Failure(KolliderError),
    Success(T),
}

impl<T> KolliderResult<T> {
    /// The same outcome as a plain `Result`.
    pub fn into_result(self) -> (r: Result<T, KolliderError>)
        ensures
            match r {
                Ok(v) => self is Success && self->Success_0 == v,
                Err(e) => self is Failure && self->Failure_0 == e,
            },
    {
        match self {
            KolliderResult::Failure(e) => Err(e),
            KolliderResult::Success(v) => Ok(v),
        }
    }
}

/// One tradable product of the `/market/products` endpoint.
#[derive(Debug, Clone, PartialEq)]
pub struct Product {
    pub symbol: Symbol,
    pub contract_size: NumStr,
    pub max_leverage: NumStr,
    pub base_margin: NumStr,
    pub maintenance_margin: NumStr,
    pub is_inverse_priced: bool,
    pub price_dp: NumStr,
    pub underlying_symbol: Symbol,
    pub last_price: NumStr,
    pub tick_size: NumStr,
    pub risk_limit: NumStr,
}

/// Market snapshot of the `/market/ticker` endpoint.
#[derive(Debug, Clone, PartialEq)]
pub struct Ticker {
    pub best_ask: NumStr,
    pub best_bid: NumStr,
    pub last_price: NumStr,
    pub last_quantity: u64,
    pub last_side: OrderSide,
    pub symbol: Symbol,
}

/// Reply of the `/market/historic_index_prices` endpoint.
#[derive(Debug, Clone, PartialEq)]
pub struct HistoryResp {
    pub data: Vec<HistoryItem>,
    pub symbol: Symbol,
}

/// One historic price point.
#[derive(Debug, Clone, PartialEq)]
pub struct HistoryItem {
    pub max: Option<NumStr>,
    pub min: Option<NumStr>,
    pub mean: Option<NumStr>,
    pub time: u64,
}

} // verus!

verus! {

/// A level-2 REST order book: price key to aggregate size.
#[derive(Debug, Clone, PartialEq)]
pub struct OrderBookLevel2 {
    pub asks: Vec<(KeyPrice, u64)>,
    pub bids: Vec<(KeyPrice, u64)>,
}

/// A level-3 REST order book: price level to the resting orders at it.
#[derive(Debug, Clone, PartialEq)]
pub struct OrderBookLevel3 {
    pub asks: Vec<(u64, Vec<OrderDetails>)>,
    pub bids: Vec<(u64, Vec<OrderDetails>)>,
}

/// The book of an order book reply, at the requested depth.
#[derive(Debug, Clone, PartialEq)]
pub enum OrderBook {
    Level2(OrderBookLevel2),
    Level3(OrderBookLevel3),
}

/// Reply of the `/market/orderbook` endpoint.  The shape of `book` depends on
/// the `level` field, so the decoder reads the level first and then the book
/// in the matching shape.
#[derive(Debug, Clone, PartialEq)]
pub struct OrderBookResp {
    pub level: OrderBookLevel,
    pub seq_number: u64,
    pub symbol: Symbol,
    pub book: OrderBook,
}

} // verus!
