//! The session correlator: one-shot request/response calls over the push
//! stream.
//!
//! A session drives `authenticate -> send request -> await matching reply ->
//! timeout` over the asynchronous transport.  The engine here is the whole
//! decision logic of that protocol, as a state machine over plain values: the
//! caller (the transport loop) feeds it inbound messages, clock ticks and the
//! stream's end, and performs the sends it hands back.
//!
//! At most one one-shot call is in flight at a time; its reply is recognized
//! by shape, by a per-operation matcher ([`try_match`]).  Messages submitted
//! before the handshake concludes are held back and flushed, in order, the
//! moment the server confirms authentication; nothing else goes out before
//! then.  Every call resolves: with its reply, with a typed
//! rejection, or — on the deadline or the stream's end — with
//! [`Error::NoResponse`].

use vstd::prelude::*;
use crate::api::{OrderBody, OrderCreated, OrderCreatedV, SettlementType, Symbol};
use crate::auth::AuthError;
use crate::data::{
    CancelOrderTag, ChannelName, FetchBalancesTag, FetchOpenOrdersTag, FetchPositionsTag,
    GetTickerTag, KolliderMsg, KolliderMsgV, KolliderTaggedMsg, KolliderTaggedMsgV, OpenOrder,
    OrderTag, Position, SubscribeTag, TradableProductsTag, UnsubscribeTag,
};
use crate::json::NumStr;

verus! {

/// Account balances, unwrapped to plain per-symbol numeric values.
#[derive(Debug, Clone, PartialEq)]
pub struct Balances {
    pub cash: NumStr,
    pub cross_margin: NumStr,
    pub isolated_margin: Vec<(Symbol, NumStr)>,
    pub order_margin: Vec<(Symbol, NumStr)>,
}

/// View of [`Balances`].
pub struct BalancesV {
    pub cash: Seq<char>,
    pub cross_margin: Seq<char>,
    pub isolated_margin: Seq<(Seq<char>, Seq<char>)>,
    pub order_margin: Seq<(Seq<char>, Seq<char>)>,
}

impl View for Balances {
    type V = BalancesV;

    open spec fn view(&self) -> BalancesV {
        BalancesV {
            cash: self.cash@,
            cross_margin: self.cross_margin@,
            isolated_margin: crate::data::num_entries_view(self.isolated_margin@),
            order_margin: crate::data::num_entries_view(self.order_margin@),
        }
    }
}

/// A failed one-shot call.
#[derive(Debug, Clone, PartialEq)]
pub enum Error {
    /// The credentials could not be used.
    Auth(AuthError),
    /// No matching reply arrived before the deadline or the stream ended.
    NoResponse,
    /// The exchange rejected the order: order id and reason.
    OrderError(u64, String),
    /// The exchange refused the cancellation: order id and reason.
    CancelError(u64, String),
}

/// View of [`Error`].
pub enum ErrorV {
    Auth(AuthError),
    NoResponse,
    OrderError(u64, Seq<char>),
    CancelError(u64, Seq<char>),
}

impl View for Error {
    type V = ErrorV;

    open spec fn view(&self) -> ErrorV {
        match self {
            Error::Auth(e) => ErrorV::Auth(*e),
            Error::NoResponse => ErrorV::NoResponse,
            Error::OrderError(id, r) => ErrorV::OrderError(*id, r@),
            Error::CancelError(id, r) => ErrorV::CancelError(*id, r@),
        }
    }
}

/// The value a resolved one-shot call hands back.
#[derive(Debug, Clone, PartialEq)]
pub enum OneshotReply {
    Balances(Balances),
    Positions(Vec<(Symbol, Position)>),
    OpenOrders(Vec<(Symbol, Vec<OpenOrder>)>),
    OrderOpened(OrderCreated),
    Cancelled,
}

/// View of [`OneshotReply`].
pub enum OneshotReplyV {
    Balances(BalancesV),
    Positions(Seq<(Seq<char>, crate::data::PositionV)>),
    OpenOrders(Seq<(Seq<char>, Seq<crate::data::OpenOrderV>)>),
    OrderOpened(OrderCreatedV),
    Cancelled,
}

impl View for OneshotReply {
    type V = OneshotReplyV;

    open spec fn view(&self) -> OneshotReplyV {
        match self {
            OneshotReply::Balances(b) => OneshotReplyV::Balances(b@),
            OneshotReply::Positions(p) => OneshotReplyV::Positions(
                crate::data::position_entries_view(p@),
            ),
            OneshotReply::OpenOrders(o) => OneshotReplyV::OpenOrders(
                crate::data::open_order_entries_view(o@),
            ),
            OneshotReply::OrderOpened(c) => OneshotReplyV::OrderOpened(c@),
            OneshotReply::Cancelled => OneshotReplyV::Cancelled,
        }
    }
}

/// View of an optional resolution.
pub open spec fn resolution_view(r: Option<Result<OneshotReply, Error>>) -> Option<
    Result<OneshotReplyV, ErrorV>,
> {
    match r {
        None => None,
        Some(Ok(v)) => Some(Ok(v@)),
        Some(Err(e)) => Some(Err(e@)),
    }
}

/// One in-flight one-shot operation: what was asked, so that the matching
/// reply — and only it — resolves the call.
#[derive(Debug, Clone, PartialEq)]
pub enum PendingRequest {
    FetchBalances,
    FetchPositions,
    FetchOpenOrders,
    PlaceOrder {
        price: u64,
        quantity: u64,
        symbol: Symbol,
        leverage: u64,
        side: crate::api::OrderSide,
        margin_type: crate::api::MarginType,
        order_type: crate::api::OrderType,
        settlement_type: SettlementType,
        ext_order_id: String,
    },
    CancelOrder { order_id: u64, symbol: Symbol, settlement_type: SettlementType },
}

/// View of [`PendingRequest`].
pub enum PendingRequestV {
    FetchBalances,
    FetchPositions,
    FetchOpenOrders,
    PlaceOrder {
        price: u64,
        quantity: u64,
        symbol: Seq<char>,
        leverage: u64,
        side: crate::api::OrderSide,
        margin_type: crate::api::MarginType,
        order_type: crate::api::OrderType,
        settlement_type: SettlementType,
        ext_order_id: Seq<char>,
    },
    CancelOrder { order_id: u64, symbol: Seq<char>, settlement_type: SettlementType },
}

impl View for PendingRequest {
    type V = PendingRequestV;

    open spec fn view(&self) -> PendingRequestV {
        match self {
            PendingRequest::FetchBalances => PendingRequestV::FetchBalances,
            PendingRequest::FetchPositions => PendingRequestV::FetchPositions,
            PendingRequest::FetchOpenOrders => PendingRequestV::FetchOpenOrders,
            PendingRequest::PlaceOrder {
                price,
                quantity,
                symbol,
                leverage,
                side,
                margin_type,
                order_type,
                settlement_type,
                ext_order_id,
            } => PendingRequestV::PlaceOrder {
                price: *price,
                quantity: *quantity,
                symbol: symbol@,
                leverage: *leverage,
                side: *side,
                margin_type: *margin_type,
                order_type: *order_type,
                settlement_type: *settlement_type,
                ext_order_id: ext_order_id@,
            },
            PendingRequest::CancelOrder { order_id, symbol, settlement_type } =>
                PendingRequestV::CancelOrder {
                order_id: *order_id,
                symbol: symbol@,
                settlement_type: *settlement_type,
            },
        }
    }
}

/// The outbound frame a pending request sends.
pub open spec fn request_view(req: PendingRequestV) -> KolliderMsgV {
    match req {
        PendingRequestV::FetchBalances => KolliderMsgV::FetchBalances,
        PendingRequestV::FetchPositions => KolliderMsgV::FetchPositions,
        PendingRequestV::FetchOpenOrders => KolliderMsgV::FetchOpenOrders,
        PendingRequestV::PlaceOrder {
            price,
            quantity,
            symbol,
            leverage,
            side,
            margin_type,
            order_type,
            settlement_type,
            ext_order_id,
        } => KolliderMsgV::Order {
            price,
            quantity,
            symbol,
            leverage,
            side,
            margin_type,
            order_type,
            settlement_type,
            ext_order_id,
        },
        PendingRequestV::CancelOrder { order_id, symbol, settlement_type } =>
            KolliderMsgV::CancelOrder { order_id, symbol, settlement_type },
    }
}

impl PendingRequest {
    /// The outbound frame this request sends.
    pub fn to_message(&self) -> (m: KolliderMsg)
        ensures
            m@ == request_view(self@),
            m.spec_is_outbound(),
    {
        match self {
            PendingRequest::FetchBalances => KolliderMsg::FetchBalances {
                _type: FetchBalancesTag::Tag,
            },
            PendingRequest::FetchPositions => KolliderMsg::FetchPositions {
                _type: FetchPositionsTag::Tag,
            },
            PendingRequest::FetchOpenOrders => KolliderMsg::FetchOpenOrders {
                _type: FetchOpenOrdersTag::Tag,
            },
            PendingRequest::PlaceOrder {
                price,
                quantity,
                symbol,
                leverage,
                side,
                margin_type,
                order_type,
                settlement_type,
                ext_order_id,
            } => KolliderMsg::Order {
                _type: OrderTag::Tag,
                price: *price,
                quantity: *quantity,
                symbol: symbol.clone(),
                leverage: *leverage,
                side: *side,
                margin_type: *margin_type,
                order_type: *order_type,
                settlement_type: *settlement_type,
                ext_order_id: ext_order_id.clone(),
            },
            PendingRequest::CancelOrder { order_id, symbol, settlement_type } =>
                KolliderMsg::CancelOrder {
                _type: CancelOrderTag::Tag,
                order_id: *order_id,
                symbol: symbol.clone(),
                settlement_type: *settlement_type,
            },
        }
    }
}

/// What a matcher says of one inbound message.
#[derive(Debug, PartialEq)]
pub enum MatchOutcome {
    /// The message resolves the pending call.
    Matched(Result<OneshotReply, Error>),
    /// Not for this call; the message is handed back untouched.
    Unmatched(KolliderTaggedMsg),
}

/// View of [`MatchOutcome`].
pub enum MatchOutcomeV {
    Matched(Result<OneshotReplyV, ErrorV>),
    Unmatched(KolliderTaggedMsgV),
}

impl View for MatchOutcome {
    type V = MatchOutcomeV;

    open spec fn view(&self) -> MatchOutcomeV {
        match self {
            MatchOutcome::Matched(Ok(v)) => MatchOutcomeV::Matched(Ok(v@)),
            MatchOutcome::Matched(Err(e)) => MatchOutcomeV::Matched(Err(e@)),
            MatchOutcome::Unmatched(m) => MatchOutcomeV::Unmatched(m@),
        }
    }
}

/// The matcher of each operation, at the specification level.
///
/// A balances, positions or open-orders call is resolved by the message of
/// the same shape.  An order placement is resolved by `Open` (success: the
/// created-order record combines the reply's identifiers) or by `Done` (a
/// typed rejection carrying the exchange's reason).  A cancellation is
/// resolved by `Success` or by `Error` (a typed failure naming the order).
/// Everything else is not for the call and flows past it unchanged.
pub open spec fn sp_try_match(req: PendingRequestV, m: KolliderTaggedMsgV) -> MatchOutcomeV {
    match req {
        PendingRequestV::FetchBalances => match m {
            KolliderTaggedMsgV::Balances { cash, cross_margin, isolated_margin, order_margin } =>
                MatchOutcomeV::Matched(
                Ok(
                    OneshotReplyV::Balances(
                        BalancesV { cash, cross_margin, isolated_margin, order_margin },
                    ),
                ),
            ),
            _ => MatchOutcomeV::Unmatched(m),
        },
        PendingRequestV::FetchPositions => match m {
            KolliderTaggedMsgV::Positions { positions } => MatchOutcomeV::Matched(
                Ok(OneshotReplyV::Positions(positions)),
            ),
            _ => MatchOutcomeV::Unmatched(m),
        },
        PendingRequestV::FetchOpenOrders => match m {
            KolliderTaggedMsgV::OpenOrders { open_orders } => MatchOutcomeV::Matched(
                Ok(OneshotReplyV::OpenOrders(open_orders)),
            ),
            _ => MatchOutcomeV::Unmatched(m),
        },
        PendingRequestV::PlaceOrder { .. } => match m {
            KolliderTaggedMsgV::Open {
                order_id,
                price,
                quantity,
                symbol,
                leverage,
                order_type,
                ext_order_id,
                timestamp,
                ..
            } => MatchOutcomeV::Matched(
                Ok(
                    OneshotReplyV::OrderOpened(
                        OrderCreatedV {
                            timestamp,
                            order_id,
                            ext_order_id,
                            uid: order_id,
                            symbol,
                            quantity,
                            order_type,
                            price,
                            leverage,
                        },
                    ),
                ),
            ),
            KolliderTaggedMsgV::Done { order_id, reason, .. } => MatchOutcomeV::Matched(
                Err(ErrorV::OrderError(order_id, reason)),
            ),
            _ => MatchOutcomeV::Unmatched(m),
        },
        PendingRequestV::CancelOrder { order_id, .. } => match m {
            KolliderTaggedMsgV::Success(_) => MatchOutcomeV::Matched(Ok(OneshotReplyV::Cancelled)),
            KolliderTaggedMsgV::Error(reason) => MatchOutcomeV::Matched(
                Err(ErrorV::CancelError(order_id, reason)),
            ),
            _ => MatchOutcomeV::Unmatched(m),
        },
    }
}

/// Applies the pending request's matcher to one inbound message.
pub fn try_match(req: &PendingRequest, msg: KolliderTaggedMsg) -> (r: MatchOutcome)
    ensures
        r@ == sp_try_match(req@, msg@),
{
    match req {
        PendingRequest::FetchBalances => match msg {
            KolliderTaggedMsg::Balances { cash, cross_margin, isolated_margin, order_margin } =>
                MatchOutcome::Matched(
                Ok(
                    OneshotReply::Balances(
                        Balances { cash, cross_margin, isolated_margin, order_margin },
                    ),
                ),
            ),
            other => MatchOutcome::Unmatched(other),
        },
        PendingRequest::FetchPositions => match msg {
            KolliderTaggedMsg::Positions { positions } => MatchOutcome::Matched(
                Ok(OneshotReply::Positions(positions)),
            ),
            other => MatchOutcome::Unmatched(other),
        },
        PendingRequest::FetchOpenOrders => match msg {
            KolliderTaggedMsg::OpenOrders { open_orders } => MatchOutcome::Matched(
                Ok(OneshotReply::OpenOrders(open_orders)),
            ),
            other => MatchOutcome::Unmatched(other),
        },
        PendingRequest::PlaceOrder { .. } => match msg {
            KolliderTaggedMsg::Open {
                order_id,
                price,
                quantity,
                symbol,
                leverage,
                order_type,
                ext_order_id,
                timestamp,
                ..
            } => MatchOutcome::Matched(
                Ok(
                    OneshotReply::OrderOpened(
                        OrderCreated {
                            timestamp,
                            order_id,
                            ext_order_id,
                            uid: order_id,
                            symbol,
                            quantity,
                            order_type,
                            price,
                            leverage,
                        },
                    ),
                ),
            ),
            KolliderTaggedMsg::Done { order_id, reason, .. } => MatchOutcome::Matched(
                Err(Error::OrderError(order_id, reason)),
            ),
            other => MatchOutcome::Unmatched(other),
        },
        PendingRequest::CancelOrder { order_id, .. } => match msg {
            KolliderTaggedMsg::Success(_) => MatchOutcome::Matched(Ok(OneshotReply::Cancelled)),
            KolliderTaggedMsg::Error(reason) => MatchOutcome::Matched(
                Err(Error::CancelError(*order_id, reason)),
            ),
            other => MatchOutcome::Unmatched(other),
        },
    }
}

/// A matcher either claims a message for its call or hands it back exactly
/// as it arrived: an interleaved unrelated push is never consumed, never
/// altered, and never resolves the call.
pub proof fn lemma_matcher_passes_unrelated_through(req: PendingRequestV, m: KolliderTaggedMsgV)
    ensures
        match sp_try_match(req, m) {
            MatchOutcomeV::Unmatched(m2) => m2 == m,
            MatchOutcomeV::Matched(_) => true,
        },
{
}

/// Lifecycle of a session.
#[derive(Debug, PartialEq, Eq, Structural, Clone, Copy)]
pub enum SessionState {
    /// The authentication message is out; its confirmation has not arrived.
    AwaitingAuth,
    /// Authenticated and idle.
    Ready,
    /// One one-shot call is in flight.
    AwaitingReply,
    /// The stream ended or the handshake failed; the session is unusable.
    Closed,
}

/// What one step of the engine asks the caller to do.
pub struct StepResult {
    /// Frames to write to the transport, in order.
    pub send: Vec<KolliderMsg>,
    /// The pending call's resolution, if this step resolved it.
    pub resolution: Option<Result<OneshotReply, Error>>,
    /// The handshake's verdict, if this step concluded it.
    pub auth_result: Option<bool>,
    /// A domain message no call claimed: for the subscription listeners.
    pub push: Option<KolliderTaggedMsg>,
}

/// Views of an outbound queue.
pub open spec fn msgs_view(v: Seq<KolliderMsg>) -> Seq<KolliderMsgV> {
    Seq::new(v.len(), |i: int| v[i]@)
}

/// View of an optional unclaimed message.
pub open spec fn push_view(v: Option<KolliderTaggedMsg>) -> Option<KolliderTaggedMsgV> {
    match v {
        Some(m) => Some(m@),
        None => None,
    }
}

/// Deadline of a one-shot call, in seconds.
pub const TIMEOUT_SECS: u64 = 60;

/// The session correlator.
///
/// The caller owns the transport; the engine owns every protocol decision.
/// Feed it each decoded inbound message ([`Self::on_message`]), the clock
/// ([`Self::on_tick`]) and the stream's end ([`Self::on_stream_end`]); write
/// out whatever it asks to send.
pub struct SessionEngine {
    /// Where the session stands.
    pub state: SessionState,
    /// The call in flight, when `state` is `AwaitingReply`.
    pub pending: Option<PendingRequest>,
    /// When the call in flight resolves with no response, in Unix seconds.
    pub deadline: u64,
    /// Outbound messages held back until the handshake concludes.
    pub queued: Vec<KolliderMsg>,
}

impl SessionEngine {
    /// A call is in flight exactly in `AwaitingReply`.
    pub open spec fn wf(&self) -> bool {
        self.state is AwaitingReply <==> self.pending is Some
    }

    /// A fresh engine: the authentication message has been sent, nothing else
    /// may pass yet.
    pub fn new() -> (r: SessionEngine)
        ensures
            r.wf(),
            r.state is AwaitingAuth,
            r.pending is None,
            r.queued@.len() == 0,
    {
        SessionEngine { state: SessionState::AwaitingAuth, pending: None, deadline: 0, queued: Vec::new() }
    }

    /// Hands an outbound message to the handshake hold-back: sent at once
    /// when the session is authenticated, held in order while the handshake
    /// is out, dropped when the session is closed.
    pub fn send_or_hold(&mut self, msg: KolliderMsg) -> (r: Option<KolliderMsg>)
        requires
            old(self).wf(),
        ensures
            final(self).wf(),
            final(self).state == old(self).state,
            final(self).pending == old(self).pending,
            final(self).deadline == old(self).deadline,
            (old(self).state is Ready || old(self).state is AwaitingReply) ==> (match r {
                Some(m) => m@ == msg@ && final(self).queued == old(self).queued,
                None => false,
            }),
            old(self).state is AwaitingAuth ==> r is None && msgs_view(final(self).queued@)
                == msgs_view(old(self).queued@).push(msg@),
            old(self).state is Closed ==> r is None && final(self).queued == old(self).queued,
    {
        match self.state {
            SessionState::Ready | SessionState::AwaitingReply => Some(msg),
            SessionState::AwaitingAuth => {
                self.queued.push(msg);
                proof {
                    assert(msgs_view(self.queued@) =~= msgs_view(old(self).queued@).push(msg@));
                }
                None
            },
            SessionState::Closed => None,
        }
    }

    /// Builds a subscribe request and hands it to the handshake hold-back.
    pub fn subscribe(&mut self, symbols: Vec<Symbol>, channels: Vec<ChannelName>) -> (r: Option<
        KolliderMsg,
    >)
        requires
            old(self).wf(),
        ensures
            final(self).wf(),
            final(self).state == old(self).state,
            ({
                let mv = KolliderMsgV::Subscribe {
                    symbols: crate::data::strs_view(symbols@),
                    channels: channels@,
                };
                &&& ((old(self).state is Ready || old(self).state is AwaitingReply) ==> (match r {
                    Some(m) => m@ == mv && final(self).queued == old(self).queued,
                    None => false,
                }))
                &&& (old(self).state is AwaitingAuth ==> r is None && msgs_view(
                    final(self).queued@,
                ) == msgs_view(old(self).queued@).push(mv))
                &&& (old(self).state is Closed ==> r is None && final(self).queued == old(
                    self,
                ).queued)
            }),
    {
        let msg = KolliderMsg::Subscribe { _type: SubscribeTag::Tag, symbols, channels };
        self.send_or_hold(msg)
    }

    /// Builds an unsubscribe request and hands it to the handshake hold-back.
    pub fn unsubscribe(&mut self, symbols: Vec<Symbol>, channels: Vec<ChannelName>) -> (r: Option<
        KolliderMsg,
    >)
        requires
            old(self).wf(),
        ensures
            final(self).wf(),
            final(self).state == old(self).state,
            ({
                let mv = KolliderMsgV::Unsubscribe {
                    symbols: crate::data::strs_view(symbols@),
                    channels: channels@,
                };
                &&& ((old(self).state is Ready || old(self).state is AwaitingReply) ==> (match r {
                    Some(m) => m@ == mv && final(self).queued == old(self).queued,
                    None => false,
                }))
                &&& (old(self).state is AwaitingAuth ==> r is None && msgs_view(
                    final(self).queued@,
                ) == msgs_view(old(self).queued@).push(mv))
                &&& (old(self).state is Closed ==> r is None && final(self).queued == old(
                    self,
                ).queued)
            }),
    {
        let msg = KolliderMsg::Unsubscribe { _type: UnsubscribeTag::Tag, symbols, channels };
        self.send_or_hold(msg)
    }

    /// Issues a one-shot call: accepted only when the session is `Ready`
    /// (one call at a time), arming the 60-second deadline.
    pub fn submit(&mut self, req: PendingRequest, now: u64) -> (r: Option<KolliderMsg>)
        requires
            old(self).wf(),
            now <= u64::MAX - TIMEOUT_SECS,
        ensures
            final(self).wf(),
            final(self).queued == old(self).queued,
            old(self).state is Ready ==> (match r {
                Some(m) => m@ == request_view(req@) && final(self).state is AwaitingReply
                    && final(self).pending == Some(req) && final(self).deadline == now
                    + TIMEOUT_SECS,
                None => false,
            }),
            !(old(self).state is Ready) ==> r is None && *final(self) == *old(self),
    {
        match self.state {
            SessionState::Ready => {
                let msg = req.to_message();
                self.pending = Some(req);
                self.deadline = now + TIMEOUT_SECS;
                self.state = SessionState::AwaitingReply;
                Some(msg)
            },
            _ => None,
        }
    }

    /// Issues a balances query.
    pub fn fetch_balances(&mut self, now: u64) -> (r: Option<KolliderMsg>)
        requires
            old(self).wf(),
            now <= u64::MAX - TIMEOUT_SECS,
        ensures
            final(self).wf(),
            old(self).state is Ready ==> (match r {
                Some(m) => m@ is FetchBalances && final(self).state is AwaitingReply && final(self).pending == Some(PendingRequest::FetchBalances) && final(self).deadline == now
                    + TIMEOUT_SECS,
                None => false,
            }),
            !(old(self).state is Ready) ==> r is None && *final(self) == *old(self),
    {
        self.submit(PendingRequest::FetchBalances, now)
    }

    /// Issues a positions query.
    pub fn fetch_positions(&mut self, now: u64) -> (r: Option<KolliderMsg>)
        requires
            old(self).wf(),
            now <= u64::MAX - TIMEOUT_SECS,
        ensures
            final(self).wf(),
            old(self).state is Ready ==> (match r {
                Some(m) => m@ is FetchPositions && final(self).state is AwaitingReply && final(self).pending == Some(PendingRequest::FetchPositions) && final(self).deadline == now
                    + TIMEOUT_SECS,
                None => false,
            }),
            !(old(self).state is Ready) ==> r is None && *final(self) == *old(self),
    {
        self.submit(PendingRequest::FetchPositions, now)
    }

    /// Issues an order placement; `ext_order_id` is the client-generated
    /// correlation token echoed by the server in related events.
    pub fn open_order(&mut self, body: &OrderBody, ext_order_id: String, now: u64) -> (r: Option<
        KolliderMsg,
    >)
        requires
            old(self).wf(),
            now <= u64::MAX - TIMEOUT_SECS,
        ensures
            final(self).wf(),
            old(self).state is Ready ==> (match r {
                Some(m) => m@ matches KolliderMsgV::Order {
                    price,
                    quantity,
                    symbol,
                    leverage,
                    side,
                    margin_type,
                    order_type,
                    settlement_type,
                    ext_order_id: e,
                } && price == body.price && quantity == body.quantity && symbol == body.symbol@
                    && leverage == body.leverage && side == body.side && margin_type
                    == body.margin_type && order_type == body.order_type && settlement_type
                    == body.settlement_type && e == ext_order_id@ && final(self).state
                    is AwaitingReply && final(self).pending == Some(
                    PendingRequest::PlaceOrder {
                        price: body.price,
                        quantity: body.quantity,
                        symbol: body.symbol,
                        leverage: body.leverage,
                        side: body.side,
                        margin_type: body.margin_type,
                        order_type: body.order_type,
                        settlement_type: body.settlement_type,
                        ext_order_id: ext_order_id,
                    },
                ) && final(self).deadline == now + TIMEOUT_SECS,
                None => false,
            }),
            !(old(self).state is Ready) ==> r is None && *final(self) == *old(self),
    {
        self.submit(
            PendingRequest::PlaceOrder {
                price: body.price,
                quantity: body.quantity,
                symbol: body.symbol.clone(),
                leverage: body.leverage,
                side: body.side,
                margin_type: body.margin_type,
                order_type: body.order_type,
                settlement_type: body.settlement_type,
                ext_order_id,
            },
            now,
        )
    }

    /// Issues a cancellation for an order, with the delayed settlement the
    /// cancel endpoint expects.
    pub fn cancel_order(&mut self, order_id: u64, symbol: String, now: u64) -> (r: Option<
        KolliderMsg,
    >)
        requires
            old(self).wf(),
            now <= u64::MAX - TIMEOUT_SECS,
        ensures
            final(self).wf(),
            old(self).state is Ready ==> (match r {
                Some(m) => m@ == (KolliderMsgV::CancelOrder {
                    order_id,
                    symbol: symbol@,
                    settlement_type: SettlementType::Delayed,
                }) && final(self).state is AwaitingReply && final(self).pending == Some(
                    PendingRequest::CancelOrder {
                        order_id,
                        symbol,
                        settlement_type: SettlementType::Delayed,
                    },
                ) && final(self).deadline == now + TIMEOUT_SECS,
                None => false,
            }),
            !(old(self).state is Ready) ==> r is None && *final(self) == *old(self),
    {
        self.submit(
            PendingRequest::CancelOrder {
                order_id,
                symbol,
                settlement_type: SettlementType::Delayed,
            },
            now,
        )
    }

    /// Feeds one decoded inbound message to the engine.
    ///
    /// While the handshake is out, only its confirmation means anything: on
    /// `authenticate`/`success` the held queue is flushed, in order; on any
    /// other verdict the session closes; everything else is discarded.  When
    /// a call is in flight, its matcher sees every message in arrival order:
    /// a match resolves the call, anything else is handed to the listeners
    /// unchanged.  When idle, domain messages go to the listeners.
    pub fn on_message(&mut self, msg: KolliderMsg) -> (r: StepResult)
        requires
            old(self).wf(),
        ensures
            final(self).wf(),
            final(self).deadline == old(self).deadline,
            // before the handshake concludes, nothing but the flush is ever sent
            old(self).state is AwaitingAuth ==> r.resolution is None && r.push is None && (match (
                msg@,
                r.auth_result,
            ) {
                (KolliderMsgV::Tagged(KolliderTaggedMsgV::Authenticate { message }), Some(true)) =>
                    message == "success"@ && final(self).state is Ready && msgs_view(r.send@)
                        == msgs_view(old(self).queued@) && final(self).queued@.len() == 0,
                (KolliderMsgV::Tagged(KolliderTaggedMsgV::Authenticate { message }), Some(false)) =>
                    message != "success"@ && final(self).state is Closed && r.send@.len() == 0,
                (_, None) => !(msg@ matches KolliderMsgV::Tagged(
                    KolliderTaggedMsgV::Authenticate { .. },
                )) && *final(self) == *old(self) && r.send@.len() == 0,
                _ => false,
            }),
            // idle: domain traffic flows to the listeners
            old(self).state is Ready ==> *final(self) == *old(self) && r.send@.len() == 0
                && r.resolution is None && r.auth_result is None && (match msg@ {
                KolliderMsgV::Tagged(t) => push_view(r.push) == Some(t),
                _ => r.push is None,
            }),
            // one call in flight: its matcher sees every message
            old(self).state is AwaitingReply ==> r.send@.len() == 0 && r.auth_result is None && (
            match msg@ {
                KolliderMsgV::Tagged(t) => (match sp_try_match(old(self).pending->0@, t) {
                    MatchOutcomeV::Matched(res) => resolution_view(r.resolution) == Some(res)
                        && r.push is None && final(self).state is Ready && final(self).pending
                        is None && final(self).queued == old(self).queued,
                    MatchOutcomeV::Unmatched(t2) => push_view(r.push) == Some(t2) && r.resolution
                        is None && *final(self) == *old(self),
                }),
                _ => r.resolution is None && r.push is None && *final(self) == *old(self),
            }),
            old(self).state is Closed ==> *final(self) == *old(self) && r.send@.len() == 0
                && r.resolution is None && r.auth_result is None && r.push is None,
    {
        match self.state {
            SessionState::AwaitingAuth => {
                match msg {
                    KolliderMsg::Tagged(KolliderTaggedMsg::Authenticate { message }) => {
                        if crate::text::str_eq(message.as_str(), "success") {
                            self.state = SessionState::Ready;
                            let send = self.queued.split_off(0);
                            proof {
                                assert(msgs_view(send@) =~= msgs_view(old(self).queued@));
                                assert(self.queued@ =~= Seq::<KolliderMsg>::empty());
                            }
                            StepResult { send, resolution: None, auth_result: Some(true), push: None }
                        } else {
                            self.state = SessionState::Closed;
                            StepResult {
                                send: Vec::new(),
                                resolution: None,
                                auth_result: Some(false),
                                push: None,
                            }
                        }
                    },
                    _ => StepResult { send: Vec::new(), resolution: None, auth_result: None, push: None },
                }
            },
            SessionState::Ready => {
                match msg {
                    KolliderMsg::Tagged(t) => StepResult {
                        send: Vec::new(),
                        resolution: None,
                        auth_result: None,
                        push: Some(t),
                    },
                    _ => StepResult { send: Vec::new(), resolution: None, auth_result: None, push: None },
                }
            },
            SessionState::AwaitingReply => {
                match msg {
                    KolliderMsg::Tagged(t) => {
                        let req = match &self.pending {
                            Some(req) => req,
                            None => {
                                return StepResult {
                                    send: Vec::new(),
                                    resolution: None,
                                    auth_result: None,
                                    push: None,
                                };
                            },
                        };
                        match try_match(req, t) {
                            MatchOutcome::Matched(res) => {
                                self.state = SessionState::Ready;
                                self.pending = None;
                                StepResult {
                                    send: Vec::new(),
                                    resolution: Some(res),
                                    auth_result: None,
                                    push: None,
                                }
                            },
                            MatchOutcome::Unmatched(t2) => StepResult {
                                send: Vec::new(),
                                resolution: None,
                                auth_result: None,
                                push: Some(t2),
                            },
                        }
                    },
                    _ => StepResult { send: Vec::new(), resolution: None, auth_result: None, push: None },
                }
            },
            SessionState::Closed => StepResult {
                send: Vec::new(),
                resolution: None,
                auth_result: None,
                push: None,
            },
        }
    }

    /// Feeds the clock: a call in flight resolves with no response when — and
    /// only when — its deadline has passed.
    pub fn on_tick(&mut self, now: u64) -> (r: Option<Result<OneshotReply, Error>>)
        requires
            old(self).wf(),
        ensures
            final(self).wf(),
            final(self).queued == old(self).queued,
            final(self).deadline == old(self).deadline,
            old(self).state is AwaitingReply && now >= old(self).deadline ==> resolution_view(r)
                == Some(Err::<OneshotReplyV, ErrorV>(ErrorV::NoResponse)) && final(self).state
                is Ready && final(self).pending is None,
            !(old(self).state is AwaitingReply && now >= old(self).deadline) ==> r is None
                && *final(self) == *old(self),
    {
        match self.state {
            SessionState::AwaitingReply => {
                if now >= self.deadline {
                    self.state = SessionState::Ready;
                    self.pending = None;
                    Some(Err(Error::NoResponse))
                } else {
                    None
                }
            },
            _ => None,
        }
    }

    /// Feeds the stream's end: the session closes, and a call in flight
    /// resolves with no response.
    pub fn on_stream_end(&mut self) -> (r: Option<Result<OneshotReply, Error>>)
        requires
            old(self).wf(),
        ensures
            final(self).wf(),
            final(self).state is Closed,
            final(self).pending is None,
            old(self).state is AwaitingReply ==> resolution_view(r) == Some(
                Err::<OneshotReplyV, ErrorV>(ErrorV::NoResponse),
            ),
            !(old(self).state is AwaitingReply) ==> r is None,
    {
        let was_waiting = match self.state {
            SessionState::AwaitingReply => true,
            _ => false,
        };
        self.state = SessionState::Closed;
        self.pending = None;
        if was_waiting {
            Some(Err(Error::NoResponse))
        } else {
            None
        }
    }
}

/// One interactive command of the WebSocket shell, and the frame it sends.
#[derive(Debug, Clone, PartialEq)]
pub enum WebsocketAction {
    Order {
        price: u64,
        quantity: u64,
        symbol: Symbol,
        leverage: u64,
        side: crate::api::OrderSide,
        margin_type: crate::api::MarginType,
        order_type: crate::api::OrderType,
        settlement_type: SettlementType,
    },
    CancelOrder { order_id: u64, symbol: String, settlement_type: SettlementType },
    FetchOpenOrders,
    FetchPositions,
    FetchBalances,
    GetTicker { symbol: String },
    TradableProducts,
}

impl WebsocketAction {
    /// The outbound frame of the command.  A new order gets a fresh random
    /// external order id, 36 characters long.
    pub fn to_message(self) -> (m: KolliderMsg)
        ensures
            m.spec_is_outbound(),
            match self {
                WebsocketAction::Order {
                    price,
                    quantity,
                    symbol,
                    leverage,
                    side,
                    margin_type,
                    order_type,
                    settlement_type,
                } => m@ matches KolliderMsgV::Order {
                    price: p2,
                    quantity: q2,
                    symbol: s2,
                    leverage: l2,
                    side: sd2,
                    margin_type: mt2,
                    order_type: ot2,
                    settlement_type: st2,
                    ext_order_id: e2,
                } && p2 == price && q2 == quantity && s2 == symbol@ && l2 == leverage && sd2 == side
                    && mt2 == margin_type && ot2 == order_type && st2 == settlement_type
                    && e2.len() == 36,
                WebsocketAction::CancelOrder { order_id, symbol, settlement_type } => m@ == (
                KolliderMsgV::CancelOrder { order_id, symbol: symbol@, settlement_type }),
                WebsocketAction::FetchOpenOrders => m@ is FetchOpenOrders,
                WebsocketAction::FetchPositions => m@ is FetchPositions,
                WebsocketAction::FetchBalances => m@ is FetchBalances,
                WebsocketAction::GetTicker { symbol } => m@ == (KolliderMsgV::GetTicker {
                    symbol: symbol@,
                }),
                WebsocketAction::TradableProducts => m@ is TradableProducts,
            },
    {
        match self {
            WebsocketAction::Order {
                price,
                quantity,
                symbol,
                leverage,
                side,
                margin_type,
                order_type,
                settlement_type,
            } => KolliderMsg::Order {
                _type: OrderTag::Tag,
                price,
                quantity,
                symbol,
                leverage,
                side,
                margin_type,
                order_type,
                settlement_type,
                ext_order_id: crate::auth::gen_ext_order_id(),
            },
            WebsocketAction::CancelOrder { order_id, symbol, settlement_type } =>
                KolliderMsg::CancelOrder {
                _type: CancelOrderTag::Tag,
                order_id,
                symbol,
                settlement_type,
            },
            WebsocketAction::FetchOpenOrders => KolliderMsg::FetchOpenOrders {
                _type: FetchOpenOrdersTag::Tag,
            },
            WebsocketAction::FetchPositions => KolliderMsg::FetchPositions {
                _type: FetchPositionsTag::Tag,
            },
            WebsocketAction::FetchBalances => KolliderMsg::FetchBalances {
                _type: FetchBalancesTag::Tag,
            },
            WebsocketAction::GetTicker { symbol } => KolliderMsg::GetTicker {
                _type: GetTickerTag::Tag,
                symbol,
            },
            WebsocketAction::TradableProducts => KolliderMsg::TradableProducts {
                _type: TradableProductsTag::Tag,
            },
        }
    }
}

} // verus!

verus! {

/// Views of a subscription pair list.
pub open spec fn pairs_view(v: Seq<(String, ChannelName)>) -> Seq<(Seq<char>, ChannelName)> {
    Seq::new(v.len(), |i: int| (v[i].0@, v[i].1))
}

/// One symbol paired with every channel of a list.
pub open spec fn pair_row(s: Seq<char>, channels: Seq<ChannelName>) -> Seq<(Seq<char>, ChannelName)>
    decreases channels.len(),
{
    if channels.len() == 0 {
        Seq::empty()
    } else {
        pair_row(s, channels.drop_last()).push((s, channels.last()))
    }
}

/// Every symbol of a list paired with every channel of a list.
pub open spec fn cross_pairs(symbols: Seq<Seq<char>>, channels: Seq<ChannelName>) -> Seq<
    (Seq<char>, ChannelName),
>
    decreases symbols.len(),
{
    if symbols.len() == 0 {
        Seq::empty()
    } else {
        cross_pairs(symbols.drop_last(), channels) + pair_row(symbols.last(), channels)
    }
}

/// True when some listed symbol equals `s`.
pub open spec fn has_str(ss: Seq<Seq<char>>, s: Seq<char>) -> bool {
    exists|i: int| 0 <= i < ss.len() && ss[i] == s
}

/// True when some listed channel equals `c`.
pub open spec fn has_channel(cs: Seq<ChannelName>, c: ChannelName) -> bool {
    exists|i: int| 0 <= i < cs.len() && cs[i] == c
}

/// The pair list without the pairs named by a symbol and channel list.
pub open spec fn remove_cross(
    pairs: Seq<(Seq<char>, ChannelName)>,
    symbols: Seq<Seq<char>>,
    channels: Seq<ChannelName>,
) -> Seq<(Seq<char>, ChannelName)>
    decreases pairs.len(),
{
    if pairs.len() == 0 {
        Seq::empty()
    } else {
        remove_cross(pairs.drop_last(), symbols, channels) + (if has_str(symbols, pairs.last().0)
            && has_channel(channels, pairs.last().1) {
            Seq::<(Seq<char>, ChannelName)>::empty()
        } else {
            seq![pairs.last()]
        })
    }
}

/// The (symbol, channel) pairs this client believes it is subscribed to.
/// Grows and shrinks with the subscribe and unsubscribe requests; consulted
/// for routing and documentation only, the exchange keeps no acknowledgment.
#[derive(Debug, Clone, PartialEq)]
pub struct SubscriptionState {
    pub pairs: Vec<(Symbol, ChannelName)>,
}

impl SubscriptionState {
    /// No subscriptions.
    pub fn new() -> (r: SubscriptionState)
        ensures
            r.pairs@.len() == 0,
    {
        SubscriptionState { pairs: Vec::new() }
    }

    /// Records a subscribe request: every listed symbol is paired with every
    /// listed channel, after what was already there.
    pub fn subscribe(&mut self, symbols: &Vec<Symbol>, channels: &Vec<ChannelName>)
        ensures
            pairs_view(final(self).pairs@) == pairs_view(old(self).pairs@) + cross_pairs(
                crate::data::strs_view(symbols@),
                channels@,
            ),
    {
        let ghost sv = crate::data::strs_view(symbols@);
        let mut i: usize = 0;
        while i < symbols.len()
            invariant
                i <= symbols@.len(),
                sv == crate::data::strs_view(symbols@),
                sv.len() == symbols@.len(),
                pairs_view(self.pairs@) == pairs_view(old(self).pairs@) + cross_pairs(
                    sv.subrange(0, i as int),
                    channels@,
                ),
            decreases symbols@.len() - i,
        {
            let ghost before_row = pairs_view(self.pairs@);
            let mut k: usize = 0;
            while k < channels.len()
                invariant
                    k <= channels@.len(),
                    i < symbols@.len(),
                    pairs_view(self.pairs@) == before_row + pair_row(
                        symbols@[i as int]@,
                        channels@.subrange(0, k as int),
                    ),
                decreases channels@.len() - k,
            {
                let ghost prev_pairs = self.pairs@;
                self.pairs.push((symbols[i].clone(), channels[k]));
                proof {
                    let ghost sym = symbols@[i as int]@;
                    let ghost cs1 = channels@.subrange(0, k + 1);
                    assert(cs1.drop_last() =~= channels@.subrange(0, k as int));
                    assert(cs1.last() == channels@[k as int]);
                    assert(pair_row(sym, cs1) == pair_row(
                        sym,
                        channels@.subrange(0, k as int),
                    ).push((sym, channels@[k as int])));
                    assert(self.pairs@ == prev_pairs.push(
                        (symbols@[i as int], channels@[k as int]),
                    ));
                    assert(pairs_view(self.pairs@) =~= pairs_view(prev_pairs).push(
                        (sym, channels@[k as int]),
                    ));
                    assert(pairs_view(self.pairs@) =~= before_row + pair_row(sym, cs1));
                }
                k = k + 1;
            }
            proof {
                assert(channels@.subrange(0, channels@.len() as int) =~= channels@);
                assert(sv.subrange(0, i + 1).drop_last() =~= sv.subrange(0, i as int));
                assert(sv.subrange(0, i + 1).last() == symbols@[i as int]@);
                assert(pairs_view(self.pairs@) =~= pairs_view(old(self).pairs@) + cross_pairs(
                    sv.subrange(0, i + 1),
                    channels@,
                ));
            }
            i = i + 1;
        }
        proof {
            assert(sv.subrange(0, sv.len() as int) =~= sv);
        }
    }

    /// Records an unsubscribe request: every pair naming a listed symbol and
    /// a listed channel leaves; order is otherwise kept.
    pub fn unsubscribe(&mut self, symbols: &Vec<Symbol>, channels: &Vec<ChannelName>)
        ensures
            pairs_view(final(self).pairs@) == remove_cross(
                pairs_view(old(self).pairs@),
                crate::data::strs_view(symbols@),
                channels@,
            ),
    {
        let ghost sv = crate::data::strs_view(symbols@);
        let ghost pv = pairs_view(old(self).pairs@);
        let mut kept: Vec<(Symbol, ChannelName)> = Vec::new();
        let mut i: usize = 0;
        proof {
            assert(pairs_view(kept@) =~= Seq::<(Seq<char>, ChannelName)>::empty());
        }
        while i < self.pairs.len()
            invariant
                i <= self.pairs@.len(),
                sv == crate::data::strs_view(symbols@),
                pv == pairs_view(self.pairs@),
                pairs_view(kept@) == remove_cross(pv.subrange(0, i as int), sv, channels@),
            decreases self.pairs@.len() - i,
        {
            let sym_listed = contains_symbol(symbols, self.pairs[i].0.as_str());
            let chan_listed = contains_channel(channels, self.pairs[i].1);
            if !(sym_listed && chan_listed) {
                kept.push((self.pairs[i].0.clone(), self.pairs[i].1));
            }
            proof {
                assert(pv.subrange(0, i + 1).drop_last() =~= pv.subrange(0, i as int));
                assert(pv.subrange(0, i + 1).last() == pv[i as int]);
                assert(pairs_view(kept@) =~= remove_cross(pv.subrange(0, i + 1), sv, channels@));
            }
            i = i + 1;
        }
        proof {
            assert(pv.subrange(0, pv.len() as int) =~= pv);
        }
        self.pairs = kept;
    }

    /// True when the pair stands in the state.
    pub fn contains(&self, symbol: &str, channel: ChannelName) -> (r: bool)
        ensures
            r == exists|i: int|
                0 <= i < pairs_view(self.pairs@).len() && pairs_view(self.pairs@)[i] == (
                symbol@,
                channel,
            ),
    {
        let mut i: usize = 0;
        while i < self.pairs.len()
            invariant
                i <= self.pairs@.len(),
                forall|k: int|
                    0 <= k < i ==> pairs_view(self.pairs@)[k] != (symbol@, channel),
            decreases self.pairs@.len() - i,
        {
            if crate::text::str_eq(self.pairs[i].0.as_str(), symbol) && self.pairs[i].1
                == channel {
                proof {
                    assert(pairs_view(self.pairs@)[i as int] == (symbol@, channel));
                }
                return true;
            }
            i = i + 1;
        }
        false
    }
}

fn contains_symbol(symbols: &Vec<Symbol>, s: &str) -> (r: bool)
    ensures
        r == has_str(crate::data::strs_view(symbols@), s@),
{
    let mut i: usize = 0;
    while i < symbols.len()
        invariant
            i <= symbols@.len(),
            forall|k: int| 0 <= k < i ==> crate::data::strs_view(symbols@)[k] != s@,
        decreases symbols@.len() - i,
    {
        if crate::text::str_eq(symbols[i].as_str(), s) {
            proof {
                assert(crate::data::strs_view(symbols@)[i as int] == s@);
            }
            return true;
        }
        i = i + 1;
    }
    false
}

fn contains_channel(channels: &Vec<ChannelName>, c: ChannelName) -> (r: bool)
    ensures
        r == has_channel(channels@, c),
{
    let mut i: usize = 0;
    while i < channels.len()
        invariant
            i <= channels@.len(),
            forall|k: int| 0 <= k < i ==> channels@[k] != c,
        decreases channels@.len() - i,
    {
        if channels[i] == c {
            return true;
        }
        i = i + 1;
    }
    false
}

} // verus!
