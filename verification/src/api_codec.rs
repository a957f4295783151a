//! JSON codecs of the REST data types: request bodies rendered to their
//! exact wire text, response bodies read from parsed JSON.
//!
//! The same coercion rules as the WebSocket decoder apply: numeric values
//! quoted as strings are accepted when they are one whole numeric literal.

use vstd::prelude::*;
use crate::api::{
    AccountCreated, AccountInfo, DepositBody, DepositResp, ErrorType, HistoryItem, HistoryResp,
    KolliderError, OrderBody, OrderCreated, OrderPrediction, PositionDetails, Product, Symbol,
    Ticker, WithdrawalBody, WithdrawalNetwork, WithdrawalResp, WithdrawalStatus,
};
use crate::decode::{
    sp_get, sp_get_bool, sp_get_num, sp_get_opt_num, sp_get_opt_str, sp_get_order_type,
    sp_get_settlement, sp_get_side, sp_get_str, sp_get_u64, get_bool, get_json, get_num,
    get_opt_num, get_opt_string, get_order_type, get_settlement, get_side, get_string, get_u64,
};
use crate::encode::{jstr, order_type_json, margin_json, settlement_json, side_json};
use crate::json::{entry_views_of, Json, JsonV};
use crate::text::{all_digits, dec_str, dec_val, str_eq};

verus! {

/// The exact body text of a new-order request.
pub open spec fn order_body_text(b: OrderBody) -> Seq<char> {
    "{\"price\":"@ + dec_str(b.price as nat) + ",\"order_type\":"@ + order_type_json(b.order_type)
        + ",\"side\":"@ + side_json(b.side) + ",\"quantity\":"@ + dec_str(b.quantity as nat)
        + ",\"symbol\":"@ + jstr(b.symbol@) + ",\"leverage\":"@ + dec_str(b.leverage as nat)
        + ",\"margin_type\":"@ + margin_json(b.margin_type) + ",\"settlement_type\":"@
        + settlement_json(b.settlement_type) + "}"@
}

impl OrderBody {
    /// Renders the body as the order endpoints expect it.
    pub fn to_json(&self) -> (r: String)
        ensures
            r@ == order_body_text(*self),
    {
        let mut out = String::new();
        out.append("{\"price\":");
        crate::text::append_u64(&mut out, self.price);
        out.append(",\"order_type\":");
        crate::encode::append_order_type(&mut out, &self.order_type);
        out.append(",\"side\":");
        crate::encode::append_side(&mut out, &self.side);
        out.append(",\"quantity\":");
        crate::text::append_u64(&mut out, self.quantity);
        out.append(",\"symbol\":");
        crate::encode::append_json_string(&mut out, self.symbol.as_str());
        out.append(",\"leverage\":");
        crate::text::append_u64(&mut out, self.leverage);
        out.append(",\"margin_type\":");
        crate::encode::append_margin(&mut out, &self.margin_type);
        out.append(",\"settlement_type\":");
        crate::encode::append_settlement(&mut out, &self.settlement_type);
        out.append("}");
        proof {
            assert(out@ =~= order_body_text(*self));
        }
        out
    }
}

/// The exact body text of a deposit request.
pub open spec fn deposit_body_text(b: DepositBody) -> Seq<char> {
    match b {
        DepositBody::Lighting(amount) => "{\"type\":\"Ln\",\"amount\":"@ + dec_str(amount as nat)
            + "}"@,
        DepositBody::Bitcoin => "{\"type\":\"BTC\"}"@,
    }
}

impl DepositBody {
    /// Renders the body as the wallet deposit endpoint expects it.
    pub fn to_json(&self) -> (r: String)
        ensures
            r@ == deposit_body_text(*self),
    {
        let mut out = String::new();
        match self {
            DepositBody::Lighting(amount) => {
                out.append("{\"type\":\"Ln\",\"amount\":");
                crate::text::append_u64(&mut out, *amount);
                out.append("}");
            },
            DepositBody::Bitcoin => {
                out.append("{\"type\":\"BTC\"}");
            },
        }
        proof {
            assert(out@ =~= deposit_body_text(*self));
        }
        out
    }
}

/// The exact body text of a withdrawal request.
pub open spec fn withdrawal_body_text(b: WithdrawalBody) -> Seq<char> {
    match b {
        WithdrawalBody::Lighting { _type, payment_request, amount } =>
            "{\"type\":\"Ln\",\"payment_request\":"@ + jstr(payment_request@) + ",\"amount\":"@
            + dec_str(amount as nat) + "}"@,
        WithdrawalBody::Bitcoin { _type, receive_address, amount } =>
            "{\"type\":\"BTC\",\"receive_address\":"@ + jstr(receive_address@) + ",\"amount\":"@
            + dec_str(amount as nat) + "}"@,
    }
}

impl WithdrawalBody {
    /// Renders the body as the wallet withdrawal endpoint expects it.
    pub fn to_json(&self) -> (r: String)
        ensures
            r@ == withdrawal_body_text(*self),
    {
        let mut out = String::new();
        match self {
            WithdrawalBody::Lighting { _type, payment_request, amount } => {
                out.append("{\"type\":\"Ln\",\"payment_request\":");
                crate::encode::append_json_string(&mut out, payment_request.as_str());
                out.append(",\"amount\":");
                crate::text::append_u64(&mut out, *amount);
                out.append("}");
            },
            WithdrawalBody::Bitcoin { _type, receive_address, amount } => {
                out.append("{\"type\":\"BTC\",\"receive_address\":");
                crate::encode::append_json_string(&mut out, receive_address.as_str());
                out.append(",\"amount\":");
                crate::text::append_u64(&mut out, *amount);
                out.append("}");
            },
        }
        proof {
            assert(out@ =~= withdrawal_body_text(*self));
        }
        out
    }
}

/// Value of a signed digit-only literal that fits an `i64`.
pub open spec fn digits_i64_of(t: Seq<char>) -> Option<i64> {
    if t.len() > 0 && t[0] == '-' {
        let d = t.subrange(1, t.len() as int);
        if d.len() > 0 && all_digits(d) && dec_val(d) <= 0x8000000000000000 {
            Some((-(dec_val(d) as int)) as i64)
        } else {
            None
        }
    } else {
        if t.len() > 0 && all_digits(t) && dec_val(t) <= i64::MAX {
            Some(dec_val(t) as i64)
        } else {
            None
        }
    }
}

/// Signed integer field, with the quoted-string coercion.
pub open spec fn sp_get_i64_flex(e: Seq<(Seq<char>, JsonV)>, key: Seq<char>) -> Option<i64> {
    match sp_get(e, key) {
        Some(JsonV::Num(t)) => digits_i64_of(t),
        Some(JsonV::Str(t)) => digits_i64_of(t),
        _ => None,
    }
}

fn i64_of_digits(t: &str) -> (r: Option<i64>)
    ensures
        r == digits_i64_of(t@),
{
    let n = t.unicode_len();
    if n > 0 && t.get_char(0) == '-' {
        proof {
            assert(t@.subrange(1, n as int).len() == n - 1);
        }
        match crate::text::parse_u64(t, 1, n) {
            Some(v) => {
                if v <= 0x7fff_ffff_ffff_ffffu64 {
                    Some(-(v as i64))
                } else if v == 0x8000_0000_0000_0000u64 {
                    Some(i64::MIN)
                } else {
                    None
                }
            },
            None => None,
        }
    } else {
        proof {
            assert(t@.subrange(0, n as int) =~= t@);
        }
        match crate::text::parse_u64(t, 0, n) {
            Some(v) => {
                if v <= 0x7fff_ffff_ffff_ffffu64 {
                    Some(v as i64)
                } else {
                    None
                }
            },
            None => None,
        }
    }
}

/// Signed integer field, with the quoted-string coercion.
pub fn get_i64_flex(entries: &Vec<(String, Json)>, key: &str) -> (r: Option<i64>)
    ensures
        r == sp_get_i64_flex(entry_views_of(entries@), key@),
{
    match get_json(entries, key) {
        Some(Json::Num(t)) => i64_of_digits(t.as_str()),
        Some(Json::Str(t)) => i64_of_digits(t.as_str()),
        _ => None,
    }
}

/// Elements of a string array, scanning from `i`.
pub open spec fn sp_str_list_from(items: Seq<JsonV>, i: int) -> Option<Seq<Seq<char>>>
    decreases items.len() - i,
    when 0 <= i
{
    if i >= items.len() {
        Some(Seq::empty())
    } else {
        match items[i] {
            JsonV::Str(s) => match sp_str_list_from(items, i + 1) {
                Some(rest) => Some(seq![s] + rest),
                None => None,
            },
            _ => None,
        }
    }
}

fn str_list_from(items: &Vec<Json>, i: usize) -> (r: Option<Vec<String>>)
    requires
        i <= items@.len(),
    ensures
        match (r, sp_str_list_from(crate::json::views_of(items@), i as int)) {
            (Some(v), Some(sv)) => crate::data::strs_view(v@) == sv,
            (None, None) => true,
            _ => false,
        },
    decreases items@.len() - i,
{
    if i >= items.len() {
        let out: Vec<String> = Vec::new();
        proof {
            assert(crate::data::strs_view(out@) =~= Seq::<Seq<char>>::empty());
        }
        return Some(out);
    }
    let s: String = match &items[i] {
        Json::Str(s) => s.clone(),
        _ => {
            return None;
        },
    };
    match str_list_from(items, i + 1) {
        Some(mut rest) => {
            let ghost sv0 = s@;
            rest.insert(0, s);
            proof {
                let ghost jv = crate::json::views_of(items@);
                assert(crate::data::strs_view(rest@) =~= seq![sv0] + sp_str_list_from(
                    jv,
                    i + 1,
                ).unwrap());
            }
            Some(rest)
        },
        None => None,
    }
}

/// A string array field.
pub open spec fn sp_get_str_list(e: Seq<(Seq<char>, JsonV)>, key: Seq<char>) -> Option<
    Seq<Seq<char>>,
> {
    match sp_get(e, key) {
        Some(JsonV::Arr(items)) => sp_str_list_from(items, 0),
        _ => None,
    }
}

/// A string array field.
pub fn get_str_list(entries: &Vec<(String, Json)>, key: &str) -> (r: Option<Vec<String>>)
    ensures
        match (r, sp_get_str_list(entry_views_of(entries@), key@)) {
            (Some(v), Some(sv)) => crate::data::strs_view(v@) == sv,
            (None, None) => true,
            _ => false,
        },
{
    match get_json(entries, key) {
        Some(Json::Arr(items)) => {
            proof {
                crate::json::lemma_arr_view(*items);
            }
            str_list_from(items, 0)
        },
        _ => None,
    }
}

/// A REST error report: a bare code under `error`, or a wrapped
/// `GeneralError`, with the human-readable `msg`.
pub open spec fn sp_kollider_error(j: JsonV) -> Option<(Seq<char>, bool, Seq<char>)> {
    match j {
        JsonV::Obj(e) => match (sp_get(e, "error"@), sp_get_str(e, "msg"@)) {
            (Some(JsonV::Str(code)), Some(msg)) => Some((code, false, msg)),
            (Some(JsonV::Obj(inner)), Some(msg)) => match sp_get_str(inner, "GeneralError"@) {
                Some(code) => Some((code, true, msg)),
                None => None,
            },
            _ => None,
        },
        _ => None,
    }
}

impl KolliderError {
    /// Reads an error report.
    pub fn from_json(j: &Json) -> (r: Option<KolliderError>)
        ensures
            match (r, sp_kollider_error(j@)) {
                (Some(v), Some((code, detailed, msg))) => v.msg@ == msg && (match v.error {
                    ErrorType::Simple(c) => !detailed && c@ == code,
                    ErrorType::Detailed { general_error } => detailed && general_error@ == code,
                }),
                (None, None) => true,
                _ => false,
            },
    {
        let entries = match j {
            Json::Obj(e) => e,
            _ => {
                return None;
            },
        };
        proof {
            crate::json::lemma_obj_view(*entries);
        }
        let msg = match get_string(entries, "msg") {
            Some(m) => m,
            None => {
                return None;
            },
        };
        match get_json(entries, "error") {
            Some(Json::Str(code)) => Some(
                KolliderError { error: ErrorType::Simple(code.clone()), msg },
            ),
            Some(Json::Obj(inner)) => {
                proof {
                    crate::json::lemma_obj_view(*inner);
                }
                match get_string(inner, "GeneralError") {
                    Some(code) => Some(
                        KolliderError { error: ErrorType::Detailed { general_error: code }, msg },
                    ),
                    None => None,
                }
            },
            _ => None,
        }
    }
}

/// The verdict of a REST cancel reply: the reason `Cancel` is success; any
/// other reason is a refusal carrying the order id, the symbol and the reason.
pub open spec fn cancel_outcome_view(
    order_id: u64,
    symbol: Seq<char>,
    reason: Seq<char>,
) -> Result<(), (u64, Seq<char>, Seq<char>)> {
    if reason == "Cancel"@ {
        Ok(())
    } else {
        Err((order_id, symbol, reason))
    }
}

/// Decides a REST cancel reply.
pub fn cancel_outcome(order_id: u64, symbol: &str, reason: String) -> (r: Result<
    (),
    (u64, String, String),
>)
    ensures
        match r {
            Ok(u) => cancel_outcome_view(order_id, symbol@, reason@) is Ok,
            Err(e) => cancel_outcome_view(order_id, symbol@, reason@) == Err::<
                (),
                (u64, Seq<char>, Seq<char>),
            >((e.0, e.1@, e.2@)) && e.0 == order_id && e.1@ == symbol@,
        },
{
    if str_eq(reason.as_str(), "Cancel") {
        Ok(())
    } else {
        Err((order_id, symbol.to_owned(), reason))
    }
}

/// Whether a ticker object is well-formed.
pub open spec fn sp_ticker_ok(j: JsonV) -> bool {
    j matches JsonV::Obj(e) && sp_get_num(e, "best_ask"@) is Some && sp_get_num(e, "best_bid"@)
        is Some && sp_get_num(e, "last_price"@) is Some && sp_get_u64(e, "last_quantity"@) is Some
        && sp_get_side(e, "last_side"@) is Some && sp_get_str(e, "symbol"@) is Some
}

impl Ticker {
    /// Reads a market ticker.
    pub fn from_json(j: &Json) -> (r: Option<Ticker>)
        ensures
            match r {
                Some(v) => j@ matches JsonV::Obj(e) && sp_get_num(e, "best_ask"@) == Some(
                    v.best_ask@,
                ) && sp_get_num(e, "best_bid"@) == Some(v.best_bid@) && sp_get_num(
                    e,
                    "last_price"@,
                ) == Some(v.last_price@) && sp_get_u64(e, "last_quantity"@) == Some(
                    v.last_quantity,
                ) && sp_get_side(e, "last_side"@) == Some(v.last_side) && sp_get_str(e, "symbol"@)
                    == Some(v.symbol@),
                None => !sp_ticker_ok(j@),
            },
    {
        let entries = match j {
            Json::Obj(e) => e,
            _ => {
                return None;
            },
        };
        proof {
            crate::json::lemma_obj_view(*entries);
        }
        let best_ask = match get_num(entries, "best_ask") {
            Some(v) => v,
            None => {
                return None;
            },
        };
        let best_bid = match get_num(entries, "best_bid") {
            Some(v) => v,
            None => {
                return None;
            },
        };
        let last_price = match get_num(entries, "last_price") {
            Some(v) => v,
            None => {
                return None;
            },
        };
        let last_quantity = match get_u64(entries, "last_quantity") {
            Some(v) => v,
            None => {
                return None;
            },
        };
        let last_side = match get_side(entries, "last_side") {
            Some(v) => v,
            None => {
                return None;
            },
        };
        let symbol = match get_string(entries, "symbol") {
            Some(v) => v,
            None => {
                return None;
            },
        };
        Some(Ticker { best_ask, best_bid, last_price, last_quantity, last_side, symbol })
    }
}

/// Whether a created-order reply is well-formed.
pub open spec fn sp_order_created_ok(j: JsonV) -> bool {
    j matches JsonV::Obj(e) && sp_get_u64(e, "timestamp"@) is Some && sp_get_u64(e, "order_id"@)
        is Some && sp_get_str(e, "ext_order_id"@) is Some && sp_get_u64(e, "uid"@) is Some
        && sp_get_str(e, "symbol"@) is Some && sp_get_u64(e, "quantity"@) is Some
        && sp_get_order_type(e, "order_type"@) is Some && sp_get_u64(e, "price"@) is Some
        && sp_get_u64(e, "leverage"@) is Some
}

impl OrderCreated {
    /// Reads a created-order reply.
    pub fn from_json(j: &Json) -> (r: Option<OrderCreated>)
        ensures
            match r {
                Some(v) => j@ matches JsonV::Obj(e) && sp_get_u64(e, "timestamp"@) == Some(
                    v.timestamp,
                ) && sp_get_u64(e, "order_id"@) == Some(v.order_id) && sp_get_str(
                    e,
                    "ext_order_id"@,
                ) == Some(v.ext_order_id@) && sp_get_u64(e, "uid"@) == Some(v.uid) && sp_get_str(
                    e,
                    "symbol"@,
                ) == Some(v.symbol@) && sp_get_u64(e, "quantity"@) == Some(v.quantity)
                    && sp_get_order_type(e, "order_type"@) == Some(v.order_type) && sp_get_u64(
                    e,
                    "price"@,
                ) == Some(v.price) && sp_get_u64(e, "leverage"@) == Some(v.leverage),
                None => !sp_order_created_ok(j@),
            },
    {
        let entries = match j {
            Json::Obj(e) => e,
            _ => {
                return None;
            },
        };
        proof {
            crate::json::lemma_obj_view(*entries);
        }
        let timestamp = match get_u64(entries, "timestamp") {
            Some(v) => v,
            None => {
                return None;
            },
        };
        let order_id = match get_u64(entries, "order_id") {
            Some(v) => v,
            None => {
                return None;
            },
        };
        let ext_order_id = match get_string(entries, "ext_order_id") {
            Some(v) => v,
            None => {
                return None;
            },
        };
        let uid = match get_u64(entries, "uid") {
            Some(v) => v,
            None => {
                return None;
            },
        };
        let symbol = match get_string(entries, "symbol") {
            Some(v) => v,
            None => {
                return None;
            },
        };
        let quantity = match get_u64(entries, "quantity") {
            Some(v) => v,
            None => {
                return None;
            },
        };
        let order_type = match get_order_type(entries, "order_type") {
            Some(v) => v,
            None => {
                return None;
            },
        };
        let price = match get_u64(entries, "price") {
            Some(v) => v,
            None => {
                return None;
            },
        };
        let leverage = match get_u64(entries, "leverage") {
            Some(v) => v,
            None => {
                return None;
            },
        };
        Some(
            OrderCreated {
                timestamp,
                order_id,
                ext_order_id,
                uid,
                symbol,
                quantity,
                order_type,
                price,
                leverage,
            },
        )
    }
}

/// Whether an order-prediction reply is well-formed.
pub open spec fn sp_order_prediction_ok(j: JsonV) -> bool {
    j matches JsonV::Obj(e) && sp_get_u64(e, "uid"@) is Some && sp_get_str(e, "ext_id"@) is Some
        && sp_get_num(e, "margin_required"@) is Some && sp_get_num(e, "value"@) is Some
        && sp_get_num(e, "exchange_fee"@) is Some && sp_get_num(e, "estimated_liquidation_price"@)
        is Some && sp_get_opt_str(e, "rejection_reason"@) is Some
}

impl OrderPrediction {
    /// Reads an order-prediction reply.
    pub fn from_json(j: &Json) -> (r: Option<OrderPrediction>)
        ensures
            match r {
                Some(v) => j@ matches JsonV::Obj(e) && sp_get_u64(e, "uid"@) == Some(v.uid)
                    && sp_get_str(e, "ext_id"@) == Some(v.ext_id@) && sp_get_num(
                    e,
                    "margin_required"@,
                ) == Some(v.margin_required@) && sp_get_num(e, "value"@) == Some(v.value@)
                    && sp_get_num(e, "exchange_fee"@) == Some(v.exchange_fee@) && sp_get_num(
                    e,
                    "estimated_liquidation_price"@,
                ) == Some(v.estimated_liquidation_price@) && sp_get_opt_str(e, "rejection_reason"@)
                    == Some(crate::data::opt_str_view(v.rejection_reason)),
                None => !sp_order_prediction_ok(j@),
            },
    {
        let entries = match j {
            Json::Obj(e) => e,
            _ => {
                return None;
            },
        };
        proof {
            crate::json::lemma_obj_view(*entries);
        }
        let uid = match get_u64(entries, "uid") {
            Some(v) => v,
            None => {
                return None;
            },
        };
        let ext_id = match get_string(entries, "ext_id") {
            Some(v) => v,
            None => {
                return None;
            },
        };
        let margin_required = match get_num(entries, "margin_required") {
            Some(v) => v,
            None => {
                return None;
            },
        };
        let value = match get_num(entries, "value") {
            Some(v) => v,
            None => {
                return None;
            },
        };
        let exchange_fee = match get_num(entries, "exchange_fee") {
            Some(v) => v,
            None => {
                return None;
            },
        };
        let estimated_liquidation_price = match get_num(entries, "estimated_liquidation_price") {
            Some(v) => v,
            None => {
                return None;
            },
        };
        let rejection_reason = match get_opt_string(entries, "rejection_reason") {
            Some(v) => v,
            None => {
                return None;
            },
        };
        Some(
            OrderPrediction {
                uid,
                ext_id,
                margin_required,
                value,
                exchange_fee,
                estimated_liquidation_price,
                rejection_reason,
            },
        )
    }
}

/// How a decoded REST position relates to its source object.
pub open spec fn sp_position_details_matches(j: JsonV, v: PositionDetails) -> bool {
    j matches JsonV::Obj(e) && sp_get_u64(e, "uid"@) == Some(v.uid) && sp_get_u64(e, "timestamp"@)
        == Some(v.timestamp) && sp_get_str(e, "symbol"@) == Some(v.symbol@) && sp_get_i64_flex(
        e,
        "upnl"@,
    ) == Some(v.upnl) && sp_get_num(e, "leverage"@) == Some(v.leverage@) && sp_get_num(
        e,
        "entry_price"@,
    ) == Some(v.entry_price@) && sp_get_side(e, "side"@) == Some(v.side) && sp_get_num(
        e,
        "quantity"@,
    ) == Some(v.quantity@) && sp_get_num(e, "liq_price"@) == Some(v.liq_price@)
        && sp_get_str_list(e, "open_order_ids"@) == Some(
        crate::data::strs_view(v.open_order_ids@),
    )
}

/// Whether a REST position object is well-formed.
pub open spec fn sp_position_details_ok(j: JsonV) -> bool {
    j matches JsonV::Obj(e) && sp_get_u64(e, "uid"@) is Some && sp_get_u64(e, "timestamp"@)
        is Some && sp_get_str(e, "symbol"@) is Some && sp_get_i64_flex(e, "upnl"@) is Some
        && sp_get_num(e, "leverage"@) is Some && sp_get_num(e, "entry_price"@) is Some
        && sp_get_side(e, "side"@) is Some && sp_get_num(e, "quantity"@) is Some && sp_get_num(
        e,
        "liq_price"@,
    ) is Some && sp_get_str_list(e, "open_order_ids"@) is Some
}

impl PositionDetails {
    /// Reads a REST position object.
    pub fn from_json(j: &Json) -> (r: Option<PositionDetails>)
        ensures
            match r {
                Some(v) => sp_position_details_matches(j@, v),
                None => !sp_position_details_ok(j@),
            },
    {
        let entries = match j {
            Json::Obj(e) => e,
            _ => {
                return None;
            },
        };
        proof {
            crate::json::lemma_obj_view(*entries);
        }
        let uid = match get_u64(entries, "uid") {
            Some(v) => v,
            None => {
                return None;
            },
        };
        let timestamp = match get_u64(entries, "timestamp") {
            Some(v) => v,
            None => {
                return None;
            },
        };
        let symbol = match get_string(entries, "symbol") {
            Some(v) => v,
            None => {
                return None;
            },
        };
        let upnl = match get_i64_flex(entries, "upnl") {
            Some(v) => v,
            None => {
                return None;
            },
        };
        let leverage = match get_num(entries, "leverage") {
            Some(v) => v,
            None => {
                return None;
            },
        };
        let entry_price = match get_num(entries, "entry_price") {
            Some(v) => v,
            None => {
                return None;
            },
        };
        let side = match get_side(entries, "side") {
            Some(v) => v,
            None => {
                return None;
            },
        };
        let quantity = match get_num(entries, "quantity") {
            Some(v) => v,
            None => {
                return None;
            },
        };
        let liq_price = match get_num(entries, "liq_price") {
            Some(v) => v,
            None => {
                return None;
            },
        };
        let open_order_ids = match get_str_list(entries, "open_order_ids") {
            Some(v) => v,
            None => {
                return None;
            },
        };
        Some(
            PositionDetails {
                uid,
                timestamp,
                symbol,
                upnl,
                leverage,
                entry_price,
                side,
                quantity,
                liq_price,
                open_order_ids,
            },
        )
    }
}

/// Whether a deposit reply is well-formed, and which variant it is.
pub open spec fn sp_deposit_resp(j: JsonV) -> Option<(bool, Seq<char>)> {
    match j {
        JsonV::Obj(e) => match sp_get_str(e, "payment_request"@) {
            Some(pr) => Some((true, pr)),
            None => match sp_get_str(e, "receive_address"@) {
                Some(addr) => Some((false, addr)),
                None => None,
            },
        },
        _ => None,
    }
}

impl DepositResp {
    /// Reads a deposit reply: a Lightning payment request, else an on-chain
    /// receive address.
    pub fn from_json(j: &Json) -> (r: Option<DepositResp>)
        ensures
            match (r, sp_deposit_resp(j@)) {
                (Some(DepositResp::Lightning { payment_request }), Some((ln, s))) => ln
                    && payment_request@ == s,
                (Some(DepositResp::Bitcoin { receive_address }), Some((ln, s))) => !ln
                    && receive_address@ == s,
                (None, None) => true,
                _ => false,
            },
    {
        let entries = match j {
            Json::Obj(e) => e,
            _ => {
                return None;
            },
        };
        proof {
            crate::json::lemma_obj_view(*entries);
        }
        match get_string(entries, "payment_request") {
            Some(payment_request) => Some(DepositResp::Lightning { payment_request }),
            None => match get_string(entries, "receive_address") {
                Some(receive_address) => Some(DepositResp::Bitcoin { receive_address }),
                None => None,
            },
        }
    }
}

/// Whether a withdrawal-success body is well-formed.
pub open spec fn sp_withdrawal_success_ok(j: JsonV) -> bool {
    j matches JsonV::Obj(e) && sp_get_u64(e, "uid"@) is Some && sp_get_str(e, "receipt"@) is Some
        && sp_get_u64(e, "amount"@) is Some && sp_get_network(e, "network"@) is Some
        && sp_get_status(e, "status"@) is Some && sp_get_str(e, "txid"@) is Some
}

pub open spec fn sp_get_network(e: Seq<(Seq<char>, JsonV)>, key: Seq<char>) -> Option<
    WithdrawalNetwork,
> {
    match sp_get(e, key) {
        Some(JsonV::Str(s)) => if s == "Lightning"@ {
            Some(WithdrawalNetwork::Lightning)
        } else if s == "Bitcoin"@ {
            Some(WithdrawalNetwork::Bitcoin)
        } else {
            None
        },
        _ => None,
    }
}

pub open spec fn sp_get_status(e: Seq<(Seq<char>, JsonV)>, key: Seq<char>) -> Option<
    WithdrawalStatus,
> {
    match sp_get(e, key) {
        Some(JsonV::Str(s)) => if s == "Complete"@ {
            Some(WithdrawalStatus::Complete)
        } else {
            None
        },
        _ => None,
    }
}

/// Whether a withdrawal-rejection body is well-formed.
pub open spec fn sp_withdrawal_rejection_ok(j: JsonV) -> bool {
    j matches JsonV::Obj(e) && sp_get_u64(e, "uid"@) is Some && sp_get_str(e, "reason"@) is Some
        && sp_get_u64(e, "amount"@) is Some
}

/// Whether a withdrawal reply is well-formed: a `WithdrawalSuccess` object
/// (tried first), else a `WithdrawalRejection` object.
pub open spec fn sp_withdrawal_resp_ok(j: JsonV) -> bool {
    j matches JsonV::Obj(e) && (match sp_get(e, "WithdrawalSuccess"@) {
        Some(JsonV::Obj(d)) => sp_withdrawal_success_ok(JsonV::Obj(d)),
        _ => match sp_get(e, "WithdrawalRejection"@) {
            Some(JsonV::Obj(d)) => sp_withdrawal_rejection_ok(JsonV::Obj(d)),
            _ => false,
        },
    })
}

impl WithdrawalResp {
    /// Reads a withdrawal reply: a `WithdrawalSuccess` or a
    /// `WithdrawalRejection` wrapper.
    pub fn from_json(j: &Json) -> (r: Option<WithdrawalResp>)
        ensures
            match r {
                Some(WithdrawalResp::WithdrawalSuccess {
                    uid,
                    receipt,
                    amount,
                    network,
                    status,
                    txid,
                }) => j@ matches JsonV::Obj(e) && sp_get(e, "WithdrawalSuccess"@) matches Some(
                    inner,
                ) && inner matches JsonV::Obj(d) && sp_get_u64(d, "uid"@) == Some(uid)
                    && sp_get_str(d, "receipt"@) == Some(receipt@) && sp_get_u64(d, "amount"@)
                    == Some(amount) && sp_get_network(d, "network"@) == Some(network)
                    && sp_get_status(d, "status"@) == Some(status) && sp_get_str(d, "txid"@)
                    == Some(txid@),
                Some(WithdrawalResp::WithdrawalRejection { uid, reason, amount }) => j@
                    matches JsonV::Obj(e) && sp_get(e, "WithdrawalRejection"@) matches Some(inner)
                    && inner matches JsonV::Obj(d) && sp_get_u64(d, "uid"@) == Some(uid)
                    && sp_get_str(d, "reason"@) == Some(reason@) && sp_get_u64(d, "amount"@)
                    == Some(amount),
                None => !sp_withdrawal_resp_ok(j@),
            },
    {
        let entries = match j {
            Json::Obj(e) => e,
            _ => {
                return None;
            },
        };
        proof {
            crate::json::lemma_obj_view(*entries);
        }
        match get_json(entries, "WithdrawalSuccess") {
            Some(Json::Obj(d)) => {
                proof {
                    crate::json::lemma_obj_view(*d);
                }
                let uid = match get_u64(d, "uid") {
                    Some(v) => v,
                    None => {
                        return None;
                    },
                };
                let receipt = match get_string(d, "receipt") {
                    Some(v) => v,
                    None => {
                        return None;
                    },
                };
                let amount = match get_u64(d, "amount") {
                    Some(v) => v,
                    None => {
                        return None;
                    },
                };
                let network = match get_string(d, "network") {
                    Some(s) => {
                        if str_eq(s.as_str(), "Lightning") {
                            WithdrawalNetwork::Lightning
                        } else if str_eq(s.as_str(), "Bitcoin") {
                            WithdrawalNetwork::Bitcoin
                        } else {
                            return None;
                        }
                    },
                    None => {
                        return None;
                    },
                };
                let status = match get_string(d, "status") {
                    Some(s) => {
                        if str_eq(s.as_str(), "Complete") {
                            WithdrawalStatus::Complete
                        } else {
                            return None;
                        }
                    },
                    None => {
                        return None;
                    },
                };
                let txid = match get_string(d, "txid") {
                    Some(v) => v,
                    None => {
                        return None;
                    },
                };
                Some(
                    WithdrawalResp::WithdrawalSuccess {
                        uid,
                        receipt,
                        amount,
                        network,
                        status,
                        txid,
                    },
                )
            },
            _ => {
                match get_json(entries, "WithdrawalRejection") {
                    Some(Json::Obj(d)) => {
                        proof {
                            crate::json::lemma_obj_view(*d);
                        }
                        let uid = match get_u64(d, "uid") {
                            Some(v) => v,
                            None => {
                                return None;
                            },
                        };
                        let reason = match get_string(d, "reason") {
                            Some(v) => v,
                            None => {
                                return None;
                            },
                        };
                        let amount = match get_u64(d, "amount") {
                            Some(v) => v,
                            None => {
                                return None;
                            },
                        };
                        Some(WithdrawalResp::WithdrawalRejection { uid, reason, amount })
                    },
                    _ => None,
                }
            },
        }
    }
}

/// Whether an account description is well-formed.
pub open spec fn sp_account_info_ok(j: JsonV) -> bool {
    j matches JsonV::Obj(e) && (sp_get(e, "created_at"@) matches Some(c) && c matches JsonV::Obj(
        d,
    ) && sp_get_u64(d, "nanos_since_epoch"@) is Some && sp_get_u64(d, "secs_since_epoch"@)
        is Some) && sp_get_str(e, "email"@) is Some && sp_get_bool(e, "lnauth_enabled"@) is Some
        && sp_get_str(e, "user_type"@) is Some && sp_get_str(e, "username"@) is Some
        && sp_get_bool(e, "validated_email"@) is Some
}

impl AccountInfo {
    /// Reads an account description.
    pub fn from_json(j: &Json) -> (r: Option<AccountInfo>)
        ensures
            match r {
                Some(v) => j@ matches JsonV::Obj(e) && (sp_get(e, "created_at"@) matches Some(c)
                    && c matches JsonV::Obj(d) && sp_get_u64(d, "nanos_since_epoch"@) == Some(
                    v.created_at.nanos_since_epoch,
                ) && sp_get_u64(d, "secs_since_epoch"@) == Some(v.created_at.secs_since_epoch))
                    && sp_get_str(e, "email"@) == Some(v.email@) && sp_get_bool(
                    e,
                    "lnauth_enabled"@,
                ) == Some(v.lnauth_enabled) && sp_get_str(e, "user_type"@) == Some(v.user_type@)
                    && sp_get_str(e, "username"@) == Some(v.username@) && sp_get_bool(
                    e,
                    "validated_email"@,
                ) == Some(v.validated_email),
                None => !sp_account_info_ok(j@),
            },
    {
        let entries = match j {
            Json::Obj(e) => e,
            _ => {
                return None;
            },
        };
        proof {
            crate::json::lemma_obj_view(*entries);
        }
        let created_at = match get_json(entries, "created_at") {
            Some(Json::Obj(d)) => {
                proof {
                    crate::json::lemma_obj_view(*d);
                }
                let nanos_since_epoch = match get_u64(d, "nanos_since_epoch") {
                    Some(v) => v,
                    None => {
                        return None;
                    },
                };
                let secs_since_epoch = match get_u64(d, "secs_since_epoch") {
                    Some(v) => v,
                    None => {
                        return None;
                    },
                };
                AccountCreated { nanos_since_epoch, secs_since_epoch }
            },
            _ => {
                return None;
            },
        };
        let email = match get_string(entries, "email") {
            Some(v) => v,
            None => {
                return None;
            },
        };
        let lnauth_enabled = match get_bool(entries, "lnauth_enabled") {
            Some(v) => v,
            None => {
                return None;
            },
        };
        let user_type = match get_string(entries, "user_type") {
            Some(v) => v,
            None => {
                return None;
            },
        };
        let username = match get_string(entries, "username") {
            Some(v) => v,
            None => {
                return None;
            },
        };
        let validated_email = match get_bool(entries, "validated_email") {
            Some(v) => v,
            None => {
                return None;
            },
        };
        Some(AccountInfo { created_at, email, lnauth_enabled, user_type, username, validated_email })
    }
}

/// How a decoded product relates to its source object.
pub open spec fn sp_product_matches(j: JsonV, v: Product) -> bool {
    j matches JsonV::Obj(e) && sp_get_str(e, "symbol"@) == Some(v.symbol@) && sp_get_num(
        e,
        "contract_size"@,
    ) == Some(v.contract_size@) && sp_get_num(e, "max_leverage"@) == Some(v.max_leverage@)
        && sp_get_num(e, "base_margin"@) == Some(v.base_margin@) && sp_get_num(
        e,
        "maintenance_margin"@,
    ) == Some(v.maintenance_margin@) && sp_get_bool(e, "is_inverse_priced"@) == Some(
        v.is_inverse_priced,
    ) && sp_get_num(e, "price_dp"@) == Some(v.price_dp@) && sp_get_str(e, "underlying_symbol"@)
        == Some(v.underlying_symbol@) && sp_get_num(e, "last_price"@) == Some(v.last_price@)
        && sp_get_num(e, "tick_size"@) == Some(v.tick_size@) && sp_get_num(e, "risk_limit"@)
        == Some(v.risk_limit@)
}

/// Whether a product object is well-formed.
pub open spec fn sp_product_ok(j: JsonV) -> bool {
    j matches JsonV::Obj(e) && sp_get_str(e, "symbol"@) is Some && sp_get_num(e, "contract_size"@)
        is Some && sp_get_num(e, "max_leverage"@) is Some && sp_get_num(e, "base_margin"@) is Some
        && sp_get_num(e, "maintenance_margin"@) is Some && sp_get_bool(e, "is_inverse_priced"@)
        is Some && sp_get_num(e, "price_dp"@) is Some && sp_get_str(e, "underlying_symbol"@)
        is Some && sp_get_num(e, "last_price"@) is Some && sp_get_num(e, "tick_size"@) is Some
        && sp_get_num(e, "risk_limit"@) is Some
}

impl Product {
    /// Reads one tradable product.
    pub fn from_json(j: &Json) -> (r: Option<Product>)
        ensures
            match r {
                Some(v) => sp_product_matches(j@, v),
                None => !sp_product_ok(j@),
            },
    {
        let entries = match j {
            Json::Obj(e) => e,
            _ => {
                return None;
            },
        };
        proof {
            crate::json::lemma_obj_view(*entries);
        }
        let symbol = match get_string(entries, "symbol") {
            Some(v) => v,
            None => {
                return None;
            },
        };
        let contract_size = match get_num(entries, "contract_size") {
            Some(v) => v,
            None => {
                return None;
            },
        };
        let max_leverage = match get_num(entries, "max_leverage") {
            Some(v) => v,
            None => {
                return None;
            },
        };
        let base_margin = match get_num(entries, "base_margin") {
            Some(v) => v,
            None => {
                return None;
            },
        };
        let maintenance_margin = match get_num(entries, "maintenance_margin") {
            Some(v) => v,
            None => {
                return None;
            },
        };
        let is_inverse_priced = match get_bool(entries, "is_inverse_priced") {
            Some(v) => v,
            None => {
                return None;
            },
        };
        let price_dp = match get_num(entries, "price_dp") {
            Some(v) => v,
            None => {
                return None;
            },
        };
        let underlying_symbol = match get_string(entries, "underlying_symbol") {
            Some(v) => v,
            None => {
                return None;
            },
        };
        let last_price = match get_num(entries, "last_price") {
            Some(v) => v,
            None => {
                return None;
            },
        };
        let tick_size = match get_num(entries, "tick_size") {
            Some(v) => v,
            None => {
                return None;
            },
        };
        let risk_limit = match get_num(entries, "risk_limit") {
            Some(v) => v,
            None => {
                return None;
            },
        };
        Some(
            Product {
                symbol,
                contract_size,
                max_leverage,
                base_margin,
                maintenance_margin,
                is_inverse_priced,
                price_dp,
                underlying_symbol,
                last_price,
                tick_size,
                risk_limit,
            },
        )
    }
}

/// How a decoded history item relates to its source object.
pub open spec fn sp_history_item_matches(j: JsonV, v: HistoryItem) -> bool {
    j matches JsonV::Obj(e) && sp_get_opt_num(e, "max"@) == Some(crate::data::opt_num_view(v.max))
        && sp_get_opt_num(e, "min"@) == Some(crate::data::opt_num_view(v.min)) && sp_get_opt_num(
        e,
        "mean"@,
    ) == Some(crate::data::opt_num_view(v.mean)) && sp_get_u64(e, "time"@) == Some(v.time)
}

/// Whether a history item is well-formed.
pub open spec fn sp_history_item_ok(j: JsonV) -> bool {
    j matches JsonV::Obj(e) && sp_get_opt_num(e, "max"@) is Some && sp_get_opt_num(e, "min"@)
        is Some && sp_get_opt_num(e, "mean"@) is Some && sp_get_u64(e, "time"@) is Some
}

impl HistoryItem {
    /// Reads one historic price point.
    pub fn from_json(j: &Json) -> (r: Option<HistoryItem>)
        ensures
            match r {
                Some(v) => sp_history_item_matches(j@, v),
                None => !sp_history_item_ok(j@),
            },
    {
        let entries = match j {
            Json::Obj(e) => e,
            _ => {
                return None;
            },
        };
        proof {
            crate::json::lemma_obj_view(*entries);
        }
        let max = match get_opt_num(entries, "max") {
            Some(v) => v,
            None => {
                return None;
            },
        };
        let min = match get_opt_num(entries, "min") {
            Some(v) => v,
            None => {
                return None;
            },
        };
        let mean = match get_opt_num(entries, "mean") {
            Some(v) => v,
            None => {
                return None;
            },
        };
        let time = match get_u64(entries, "time") {
            Some(v) => v,
            None => {
                return None;
            },
        };
        Some(HistoryItem { max, min, mean, time })
    }
}

/// Whether a history reply is well-formed.
pub open spec fn sp_history_resp_ok(j: JsonV) -> bool {
    j matches JsonV::Obj(e) && sp_get_str(e, "symbol"@) is Some && (sp_get(e, "data"@)
        matches Some(d) && d matches JsonV::Arr(items) && (forall|k: int|
        0 <= k < items.len() ==> sp_history_item_ok(#[trigger] items[k])))
}

impl HistoryResp {
    /// Reads a history reply: the items in order, with the symbol.
    pub fn from_json(j: &Json) -> (r: Option<HistoryResp>)
        ensures
            match r {
                Some(v) => j@ matches JsonV::Obj(e) && (sp_get(e, "data"@) matches Some(d) && d
                    matches JsonV::Arr(items) && v.data@.len() == items.len() && (forall|k: int|
                    0 <= k < items.len() ==> sp_history_item_matches(
                        #[trigger] items[k],
                        v.data@[k],
                    )) && sp_get_str(e, "symbol"@) == Some(v.symbol@)),
                None => !sp_history_resp_ok(j@),
            },
    {
        let entries = match j {
            Json::Obj(e) => e,
            _ => {
                return None;
            },
        };
        proof {
            crate::json::lemma_obj_view(*entries);
        }
        let symbol = match get_string(entries, "symbol") {
            Some(v) => v,
            None => {
                return None;
            },
        };
        let items = match get_json(entries, "data") {
            Some(Json::Arr(items)) => items,
            _ => {
                return None;
            },
        };
        proof {
            crate::json::lemma_arr_view(*items);
        }
        let ghost iv = crate::json::views_of(items@);
        let mut data: Vec<HistoryItem> = Vec::new();
        let mut i: usize = 0;
        while i < items.len()
            invariant
                i <= items@.len(),
                iv == crate::json::views_of(items@),
                data@.len() == i,
                j@ matches JsonV::Obj(e2) && sp_get(e2, "data"@) == Some(JsonV::Arr(iv)),
                forall|k: int| 0 <= k < i ==> sp_history_item_matches(#[trigger] iv[k], data@[k]),
            decreases items@.len() - i,
        {
            match HistoryItem::from_json(&items[i]) {
                Some(item) => {
                    data.push(item);
                },
                None => {
                    proof {
                        let ghost e2 = j@->Obj_0;
                        let ghost its = sp_get(e2, "data"@)->0->Arr_0;
                        assert(its == iv);
                        assert(0 <= i < its.len() && !sp_history_item_ok(its[i as int]));
                        assert(!sp_history_resp_ok(j@));
                    }
                    return None;
                },
            }
            i = i + 1;
        }
        Some(HistoryResp { data, symbol })
    }
}

/// Whether a `symbol: product` object is well-formed.
pub open spec fn sp_products_ok(j: JsonV) -> bool {
    j matches JsonV::Obj(e) && (forall|k: int|
        0 <= k < e.len() ==> sp_product_ok((#[trigger] e[k]).1))
}

/// Reads a `symbol: product` object, e.g. the `/market/products` reply: the
/// entries in wire order, each product pinned to its source object.
pub fn products_from_json(j: &Json) -> (r: Option<Vec<(Symbol, Product)>>)
    ensures
        match r {
            Some(v) => j@ matches JsonV::Obj(e) && v@.len() == e.len() && (forall|k: int|
                0 <= k < e.len() ==> (#[trigger] v@[k]).0@ == e[k].0 && sp_product_matches(
                    e[k].1,
                    v@[k].1,
                )),
            None => !sp_products_ok(j@),
        },
{
    let entries = match j {
        Json::Obj(e) => e,
        _ => {
            return None;
        },
    };
    proof {
        crate::json::lemma_obj_view(*entries);
    }
    let ghost ev = entry_views_of(entries@);
    let mut out: Vec<(Symbol, Product)> = Vec::new();
    let mut i: usize = 0;
    while i < entries.len()
        invariant
            i <= entries@.len(),
            ev == entry_views_of(entries@),
            j@ == JsonV::Obj(ev),
            out@.len() == i,
            forall|k: int|
                0 <= k < i ==> (#[trigger] out@[k]).0@ == ev[k].0 && sp_product_matches(
                    ev[k].1,
                    out@[k].1,
                ),
        decreases entries@.len() - i,
    {
        match Product::from_json(&entries[i].1) {
            Some(p) => {
                out.push((entries[i].0.clone(), p));
            },
            None => {
                proof {
                    let ghost e2 = j@->Obj_0;
                    assert(e2 == ev);
                    assert(!sp_product_ok(e2[i as int].1));
                }
                return None;
            },
        }
        i = i + 1;
    }
    Some(out)
}

/// Whether a `symbol: position` object is well-formed.
pub open spec fn sp_position_details_map_ok(j: JsonV) -> bool {
    j matches JsonV::Obj(e) && (forall|k: int|
        0 <= k < e.len() ==> sp_position_details_ok((#[trigger] e[k]).1))
}

/// Reads a `symbol: position` object, e.g. the `/positions` reply: the
/// entries in wire order, each position pinned to its source object.
pub fn position_details_from_json(j: &Json) -> (r: Option<Vec<(Symbol, PositionDetails)>>)
    ensures
        match r {
            Some(v) => j@ matches JsonV::Obj(e) && v@.len() == e.len() && (forall|k: int|
                0 <= k < e.len() ==> (#[trigger] v@[k]).0@ == e[k].0
                    && sp_position_details_matches(e[k].1, v@[k].1)),
            None => !sp_position_details_map_ok(j@),
        },
{
    let entries = match j {
        Json::Obj(e) => e,
        _ => {
            return None;
        },
    };
    proof {
        crate::json::lemma_obj_view(*entries);
    }
    let ghost ev = entry_views_of(entries@);
    let mut out: Vec<(Symbol, PositionDetails)> = Vec::new();
    let mut i: usize = 0;
    while i < entries.len()
        invariant
            i <= entries@.len(),
            ev == entry_views_of(entries@),
            j@ == JsonV::Obj(ev),
            out@.len() == i,
            forall|k: int|
                0 <= k < i ==> (#[trigger] out@[k]).0@ == ev[k].0 && sp_position_details_matches(
                    ev[k].1,
                    out@[k].1,
                ),
        decreases entries@.len() - i,
    {
        match PositionDetails::from_json(&entries[i].1) {
            Some(p) => {
                out.push((entries[i].0.clone(), p));
            },
            None => {
                proof {
                    let ghost e2 = j@->Obj_0;
                    assert(e2 == ev);
                    assert(!sp_position_details_ok(e2[i as int].1));
                }
                return None;
            },
        }
        i = i + 1;
    }
    Some(out)
}

} // verus!

use crate::api::{OrderBook, OrderBookLevel, OrderBookLevel2, OrderBookLevel3, OrderBookResp, OrderDetails};
use crate::api::KeyPrice;
use crate::decode::{digits_u64_of, get_margin};

verus! {

/// How one decoded resting order relates to its source object.
pub open spec fn sp_order_details_matches(j: JsonV, v: OrderDetails) -> bool {
    j matches JsonV::Obj(e) && sp_get_str(e, "ext_order_id"@) == Some(v.ext_order_id@)
        && sp_get_num(e, "filled"@) == Some(v.filled@) && sp_get_u64(e, "leverage"@) == Some(
        v.leverage,
    ) && crate::decode::sp_get_margin(e, "margin_type"@) == Some(v.margin_type) && sp_get_u64(
        e,
        "order_id"@,
    ) == Some(v.order_id) && sp_get_order_type(e, "order_type"@) == Some(v.order_type)
        && sp_get_u64(e, "price"@) == Some(v.price) && sp_get_u64(e, "quantity"@) == Some(
        v.quantity,
    ) && sp_get_settlement(e, "settlement_type"@) == Some(v.settlement_type)
        && crate::decode::sp_get_side(e, "side"@) == Some(v.side) && sp_get_str(e, "symbol"@)
        == Some(v.symbol@) && sp_get_u64(e, "timestamp"@) == Some(v.timestamp) && sp_get_u64(
        e,
        "uid"@,
    ) == Some(v.uid)
}

/// Whether one resting order of a level-3 book is well-formed.
pub open spec fn sp_order_details_ok(j: JsonV) -> bool {
    j matches JsonV::Obj(e) && sp_get_str(e, "ext_order_id"@) is Some && sp_get_num(e, "filled"@)
        is Some && sp_get_u64(e, "leverage"@) is Some && crate::decode::sp_get_margin(
        e,
        "margin_type"@,
    ) is Some && sp_get_u64(e, "order_id"@) is Some && sp_get_order_type(e, "order_type"@) is Some
        && sp_get_u64(e, "price"@) is Some && sp_get_u64(e, "quantity"@) is Some
        && sp_get_settlement(e, "settlement_type"@) is Some && crate::decode::sp_get_side(
        e,
        "side"@,
    ) is Some && sp_get_str(e, "symbol"@) is Some && sp_get_u64(e, "timestamp"@) is Some
        && sp_get_u64(e, "uid"@) is Some
}

impl OrderDetails {
    /// Reads one resting order of an order book or order listing.
    pub fn from_json(j: &Json) -> (r: Option<OrderDetails>)
        ensures
            match r {
                Some(v) => sp_order_details_matches(j@, v),
                None => !sp_order_details_ok(j@),
            },
    {
        let entries = match j {
            Json::Obj(e) => e,
            _ => {
                return None;
            },
        };
        proof {
            crate::json::lemma_obj_view(*entries);
        }
        let ext_order_id = match get_string(entries, "ext_order_id") {
            Some(v) => v,
            None => {
                return None;
            },
        };
        let filled = match get_num(entries, "filled") {
            Some(v) => v,
            None => {
                return None;
            },
        };
        let leverage = match get_u64(entries, "leverage") {
            Some(v) => v,
            None => {
                return None;
            },
        };
        let margin_type = match get_margin(entries, "margin_type") {
            Some(v) => v,
            None => {
                return None;
            },
        };
        let order_id = match get_u64(entries, "order_id") {
            Some(v) => v,
            None => {
                return None;
            },
        };
        let order_type = match get_order_type(entries, "order_type") {
            Some(v) => v,
            None => {
                return None;
            },
        };
        let price = match get_u64(entries, "price") {
            Some(v) => v,
            None => {
                return None;
            },
        };
        let quantity = match get_u64(entries, "quantity") {
            Some(v) => v,
            None => {
                return None;
            },
        };
        let settlement_type = match get_settlement(entries, "settlement_type") {
            Some(v) => v,
            None => {
                return None;
            },
        };
        let side = match get_side(entries, "side") {
            Some(v) => v,
            None => {
                return None;
            },
        };
        let symbol = match get_string(entries, "symbol") {
            Some(v) => v,
            None => {
                return None;
            },
        };
        let timestamp = match get_u64(entries, "timestamp") {
            Some(v) => v,
            None => {
                return None;
            },
        };
        let uid = match get_u64(entries, "uid") {
            Some(v) => v,
            None => {
                return None;
            },
        };
        Some(
            OrderDetails {
                ext_order_id,
                filled,
                leverage,
                margin_type,
                order_id,
                order_type,
                price,
                quantity,
                settlement_type,
                side,
                symbol,
                timestamp,
                uid,
            },
        )
    }
}

/// Entries of a `price-key: size` object, scanning from `i`: both the quoted
/// key and the value must be decimal integers.
pub open spec fn sp_kp_entries_from(o: Seq<(Seq<char>, JsonV)>, i: int) -> Option<
    Seq<(u64, u64)>,
>
    decreases o.len() - i,
    when 0 <= i
{
    if i >= o.len() {
        Some(Seq::empty())
    } else {
        match (digits_u64_of(o[i].0), o[i].1) {
            (Some(k), JsonV::Num(t)) => match digits_u64_of(t) {
                Some(v) => match sp_kp_entries_from(o, i + 1) {
                    Some(rest) => Some(seq![(k, v)] + rest),
                    None => None,
                },
                None => None,
            },
            _ => None,
        }
    }
}

/// Views of a key-price level list.
pub open spec fn kp_levels_view(v: Seq<(KeyPrice, u64)>) -> Seq<(u64, u64)> {
    Seq::new(v.len(), |i: int| (v[i].0.0, v[i].1))
}

fn kp_entries_from(entries: &Vec<(String, Json)>, i: usize) -> (r: Option<Vec<(KeyPrice, u64)>>)
    requires
        i <= entries@.len(),
    ensures
        match (r, sp_kp_entries_from(entry_views_of(entries@), i as int)) {
            (Some(v), Some(sv)) => kp_levels_view(v@) == sv,
            (None, None) => true,
            _ => false,
        },
    decreases entries@.len() - i,
{
    if i >= entries.len() {
        let out: Vec<(KeyPrice, u64)> = Vec::new();
        proof {
            assert(kp_levels_view(out@) =~= Seq::<(u64, u64)>::empty());
        }
        return Some(out);
    }
    let key = match KeyPrice::parse_str(entries[i].0.as_str()) {
        Some(k) => k,
        None => {
            return None;
        },
    };
    let val: u64 = match &entries[i].1 {
        Json::Num(t) => {
            let n = t.unicode_len();
            proof {
                assert(t@.subrange(0, n as int) =~= t@);
            }
            match crate::text::parse_u64(t.as_str(), 0, n) {
                Some(v) => v,
                None => {
                    return None;
                },
            }
        },
        _ => {
            return None;
        },
    };
    match kp_entries_from(entries, i + 1) {
        Some(mut rest) => {
            rest.insert(0, (key, val));
            proof {
                let ghost ev = entry_views_of(entries@);
                assert(kp_levels_view(rest@) =~= seq![(key.0, val)] + sp_kp_entries_from(
                    ev,
                    i + 1,
                ).unwrap());
            }
            Some(rest)
        },
        None => None,
    }
}

/// How a decoded level-2 book relates to its source object.
pub open spec fn sp_level2_book_matches(j: JsonV, v: OrderBookLevel2) -> bool {
    j matches JsonV::Obj(e) && (sp_get(e, "asks"@) matches Some(a) && a matches JsonV::Obj(ao)
        && sp_kp_entries_from(ao, 0) == Some(kp_levels_view(v.asks@))) && (sp_get(e, "bids"@)
        matches Some(b) && b matches JsonV::Obj(bo) && sp_kp_entries_from(bo, 0) == Some(
        kp_levels_view(v.bids@),
    ))
}

/// Whether a level-2 REST book is well-formed.
pub open spec fn sp_level2_book_ok(j: JsonV) -> bool {
    j matches JsonV::Obj(e) && (sp_get(e, "asks"@) matches Some(a) && a matches JsonV::Obj(ao)
        && sp_kp_entries_from(ao, 0) is Some) && (sp_get(e, "bids"@) matches Some(b) && b
        matches JsonV::Obj(bo) && sp_kp_entries_from(bo, 0) is Some)
}

impl OrderBookLevel2 {
    /// Reads a level-2 REST book: quoted price keys to aggregate sizes.
    pub fn from_json(j: &Json) -> (r: Option<OrderBookLevel2>)
        ensures
            match r {
                Some(v) => sp_level2_book_matches(j@, v),
                None => !sp_level2_book_ok(j@),
            },
    {
        let entries = match j {
            Json::Obj(e) => e,
            _ => {
                return None;
            },
        };
        proof {
            crate::json::lemma_obj_view(*entries);
        }
        let asks = match get_json(entries, "asks") {
            Some(Json::Obj(o)) => {
                proof {
                    crate::json::lemma_obj_view(*o);
                }
                match kp_entries_from(o, 0) {
                    Some(v) => v,
                    None => {
                        return None;
                    },
                }
            },
            _ => {
                return None;
            },
        };
        let bids = match get_json(entries, "bids") {
            Some(Json::Obj(o)) => {
                proof {
                    crate::json::lemma_obj_view(*o);
                }
                match kp_entries_from(o, 0) {
                    Some(v) => v,
                    None => {
                        return None;
                    },
                }
            },
            _ => {
                return None;
            },
        };
        Some(OrderBookLevel2 { asks, bids })
    }
}

/// Whether every element from `i` on is a well-formed price level: a
/// two-element array of the price and the resting orders.
pub open spec fn sp_l3_levels_ok(items: Seq<JsonV>, i: int) -> bool
    decreases items.len() - i,
    when 0 <= i
{
    if i >= items.len() {
        true
    } else {
        (items[i] matches JsonV::Arr(pair) && pair.len() == 2 && (pair[0] matches JsonV::Num(t)
            && digits_u64_of(t) is Some) && (pair[1] matches JsonV::Arr(orders) && (forall|k: int|
            0 <= k < orders.len() ==> sp_order_details_ok(#[trigger] orders[k]))))
            && sp_l3_levels_ok(items, i + 1)
    }
}

/// The decoded orders correspond to the array's objects from `i` on, in
/// order.
pub open spec fn sp_l3_orders_match(items: Seq<JsonV>, i: int, v: Seq<OrderDetails>) -> bool
    decreases items.len() - i,
    when 0 <= i
{
    if i >= items.len() {
        v.len() == 0
    } else {
        v.len() > 0 && sp_order_details_matches(items[i], v[0]) && sp_l3_orders_match(
            items,
            i + 1,
            v.drop_first(),
        )
    }
}

fn l3_orders_from(items: &Vec<Json>, i: usize) -> (r: Option<Vec<OrderDetails>>)
    requires
        i <= items@.len(),
    ensures
        match r {
            Some(v) => sp_l3_orders_match(crate::json::views_of(items@), i as int, v@),
            None => !(forall|k: int|
                i <= k < items@.len() ==> sp_order_details_ok(
                    #[trigger] crate::json::views_of(items@)[k],
                )),
        },
    decreases items@.len() - i,
{
    if i >= items.len() {
        let out: Vec<OrderDetails> = Vec::new();
        return Some(out);
    }
    match OrderDetails::from_json(&items[i]) {
        Some(o) => match l3_orders_from(items, i + 1) {
            Some(mut rest) => {
                let ghost ov = o;
                let ghost prev = rest@;
                rest.insert(0, o);
                proof {
                    assert(rest@.drop_first() =~= prev);
                    assert(rest@[0] == ov);
                }
                Some(rest)
            },
            None => None,
        },
        None => {
            proof {
                assert(!sp_order_details_ok(crate::json::views_of(items@)[i as int]));
            }
            None
        },
    }
}


/// How one decoded price level relates to its source pair: a two-element
/// array of the price and the resting orders.
pub open spec fn sp_l3_level_matches(j: JsonV, lv: (u64, Vec<OrderDetails>)) -> bool {
    j matches JsonV::Arr(pair) && pair.len() == 2 && (pair[0] matches JsonV::Num(t)
        && digits_u64_of(t) == Some(lv.0)) && (pair[1] matches JsonV::Arr(orders)
        && sp_l3_orders_match(orders, 0, lv.1@))
}

/// The decoded levels correspond to the array's pairs from `i` on, in order.
pub open spec fn sp_l3_levels_match(
    items: Seq<JsonV>,
    i: int,
    v: Seq<(u64, Vec<OrderDetails>)>,
) -> bool
    decreases items.len() - i,
    when 0 <= i
{
    if i >= items.len() {
        v.len() == 0
    } else {
        v.len() > 0 && sp_l3_level_matches(items[i], v[0]) && sp_l3_levels_match(
            items,
            i + 1,
            v.drop_first(),
        )
    }
}

fn l3_levels_from(items: &Vec<Json>, i: usize) -> (r: Option<Vec<(u64, Vec<OrderDetails>)>>)
    requires
        i <= items@.len(),
    ensures
        match r {
            Some(v) => sp_l3_levels_match(crate::json::views_of(items@), i as int, v@),
            None => !sp_l3_levels_ok(crate::json::views_of(items@), i as int),
        },
    decreases items@.len() - i,
{
    if i >= items.len() {
        let out: Vec<(u64, Vec<OrderDetails>)> = Vec::new();
        return Some(out);
    }
    let pair = match &items[i] {
        Json::Arr(pair) => pair,
        _ => {
            return None;
        },
    };
    proof {
        crate::json::lemma_arr_view(*pair);
    }
    if pair.len() != 2 {
        return None;
    }
    let price: u64 = match &pair[0] {
        Json::Num(t) => {
            let n = t.unicode_len();
            proof {
                assert(t@.subrange(0, n as int) =~= t@);
            }
            match crate::text::parse_u64(t.as_str(), 0, n) {
                Some(v) => v,
                None => {
                    return None;
                },
            }
        },
        _ => {
            return None;
        },
    };
    let orders = match &pair[1] {
        Json::Arr(orders) => {
            proof {
                crate::json::lemma_arr_view(*orders);
            }
            match l3_orders_from(orders, 0) {
                Some(v) => v,
                None => {
                    proof {
                        let ghost ov = crate::json::views_of(orders@);
                        let ghost pv = crate::json::views_of(pair@);
                        assert(pv[1] == JsonV::Arr(ov));
                        assert(crate::json::views_of(items@)[i as int] == JsonV::Arr(pv));
                        assert(!(forall|k: int|
                            0 <= k < ov.len() ==> sp_order_details_ok(#[trigger] ov[k])));
                        let ghost k0 = choose|k: int|
                            0 <= k < ov.len() && !sp_order_details_ok(#[trigger] ov[k]);
                        let ghost o2 = pv[1]->Arr_0;
                        assert(o2 == ov);
                        assert(0 <= k0 < o2.len() && !sp_order_details_ok(o2[k0]));
                        assert(!sp_l3_levels_ok(crate::json::views_of(items@), i as int));
                    }
                    return None;
                },
            }
        },
        _ => {
            return None;
        },
    };
    match l3_levels_from(items, i + 1) {
        Some(mut rest) => {
            let ghost level = (price, orders);
            let ghost prev = rest@;
            rest.insert(0, (price, orders));
            proof {
                assert(rest@.drop_first() =~= prev);
                assert(rest@[0] == level);
            }
            Some(rest)
        },
        None => None,
    }
}

/// Whether a level-3 REST book is well-formed.
pub open spec fn sp_level3_book_ok(j: JsonV) -> bool {
    j matches JsonV::Obj(e) && (sp_get(e, "asks"@) matches Some(a) && a matches JsonV::Arr(ai)
        && sp_l3_levels_ok(ai, 0)) && (sp_get(e, "bids"@) matches Some(b) && b matches JsonV::Arr(
        bi,
    ) && sp_l3_levels_ok(bi, 0))
}

/// How a decoded level-3 book relates to its source object.
pub open spec fn sp_level3_book_matches(j: JsonV, v: OrderBookLevel3) -> bool {
    j matches JsonV::Obj(e) && (sp_get(e, "asks"@) matches Some(a) && a matches JsonV::Arr(ai)
        && sp_l3_levels_match(ai, 0, v.asks@)) && (sp_get(e, "bids"@) matches Some(b) && b
        matches JsonV::Arr(bi) && sp_l3_levels_match(bi, 0, v.bids@))
}

impl OrderBookLevel3 {
    /// Reads a level-3 REST book: `[price, [orders]]` pairs per side.
    pub fn from_json(j: &Json) -> (r: Option<OrderBookLevel3>)
        ensures
            match r {
                Some(v) => sp_level3_book_matches(j@, v),
                None => !sp_level3_book_ok(j@),
            },
    {
        let entries = match j {
            Json::Obj(e) => e,
            _ => {
                return None;
            },
        };
        proof {
            crate::json::lemma_obj_view(*entries);
        }
        let asks = match get_json(entries, "asks") {
            Some(Json::Arr(items)) => {
                proof {
                    crate::json::lemma_arr_view(*items);
                }
                match l3_levels_from(items, 0) {
                    Some(v) => v,
                    None => {
                        return None;
                    },
                }
            },
            _ => {
                return None;
            },
        };
        let bids = match get_json(entries, "bids") {
            Some(Json::Arr(items)) => {
                proof {
                    crate::json::lemma_arr_view(*items);
                }
                match l3_levels_from(items, 0) {
                    Some(v) => v,
                    None => {
                        return None;
                    },
                }
            },
            _ => {
                return None;
            },
        };
        Some(OrderBookLevel3 { asks, bids })
    }
}

/// Whether an order book reply is well-formed: the `level` field names a
/// known depth and the `book` fits that shape.
pub open spec fn sp_orderbook_resp_ok(j: JsonV) -> bool {
    j matches JsonV::Obj(e) && sp_get_u64(e, "seq_number"@) is Some && sp_get_str(e, "symbol"@)
        is Some && (match sp_get_str(e, "level"@) {
        Some(l) => sp_get(e, "book"@) matches Some(b) && ((l == "Level2"@ && sp_level2_book_ok(b))
            || (l == "Level3"@ && sp_level3_book_ok(b))),
        None => false,
    })
}

impl OrderBookResp {
    /// Reads an order book reply: the `level` field decides the shape of the
    /// `book`.
    pub fn from_json(j: &Json) -> (r: Option<OrderBookResp>)
        ensures
            match r {
                Some(v) => j@ matches JsonV::Obj(e) && sp_get_u64(e, "seq_number"@) == Some(
                    v.seq_number,
                ) && sp_get_str(e, "symbol"@) == Some(v.symbol@) && (sp_get(e, "book"@)
                    matches Some(b) && (match v.level {
                    OrderBookLevel::Level2 => sp_get_str(e, "level"@) == Some("Level2"@) && (
                    v.book matches OrderBook::Level2(b2) && sp_level2_book_matches(b, b2)),
                    OrderBookLevel::Level3 => sp_get_str(e, "level"@) == Some("Level3"@) && (
                    v.book matches OrderBook::Level3(b3) && sp_level3_book_matches(b, b3)),
                })),
                None => !sp_orderbook_resp_ok(j@),
            },
    {
        let entries = match j {
            Json::Obj(e) => e,
            _ => {
                return None;
            },
        };
        proof {
            crate::json::lemma_obj_view(*entries);
        }
        let seq_number = match get_u64(entries, "seq_number") {
            Some(v) => v,
            None => {
                return None;
            },
        };
        let symbol = match get_string(entries, "symbol") {
            Some(v) => v,
            None => {
                return None;
            },
        };
        let level = match get_string(entries, "level") {
            Some(s) => {
                if str_eq(s.as_str(), "Level2") {
                    OrderBookLevel::Level2
                } else if str_eq(s.as_str(), "Level3") {
                    OrderBookLevel::Level3
                } else {
                    return None;
                }
            },
            None => {
                return None;
            },
        };
        let book_json = match get_json(entries, "book") {
            Some(b) => b,
            None => {
                return None;
            },
        };
        proof {
            reveal_strlit("Level2");
            reveal_strlit("Level3");
            assert("Level2"@.len() == 6 && "Level3"@.len() == 6);
            assert("Level2"@[5] == '2' && "Level3"@[5] == '3');
        }
        let book = match level {
            OrderBookLevel::Level2 => match OrderBookLevel2::from_json(book_json) {
                Some(b) => OrderBook::Level2(b),
                None => {
                    return None;
                },
            },
            OrderBookLevel::Level3 => match OrderBookLevel3::from_json(book_json) {
                Some(b) => OrderBook::Level3(b),
                None => {
                    return None;
                },
            },
        };
        Some(OrderBookResp { level, seq_number, symbol, book })
    }
}

} // verus!

use crate::api::FillDetails;

verus! {

/// A list of resting orders, as the order listing endpoints return it.
pub fn order_details_list_from_json(j: &Json) -> (r: Option<Vec<OrderDetails>>)
    ensures
        match r {
            Some(v) => j@ matches JsonV::Arr(items) && sp_l3_orders_match(items, 0, v@),
            None => !(j@ matches JsonV::Arr(items) && (forall|k: int|
                0 <= k < items.len() ==> sp_order_details_ok(#[trigger] items[k]))),
        },
{
    match j {
        Json::Arr(items) => {
            proof {
                crate::json::lemma_arr_view(*items);
            }
            let r = l3_orders_from(items, 0);
            proof {
                assert(j@->Arr_0 == crate::json::views_of(items@));
            }
            r
        },
        _ => None,
    }
}

/// Whether a `symbol: [order]` object is well-formed.
pub open spec fn sp_order_details_map_ok(j: JsonV) -> bool {
    j matches JsonV::Obj(e) && (forall|k: int|
        0 <= k < e.len() ==> ((#[trigger] e[k]).1 matches JsonV::Arr(items) && (forall|m: int|
            0 <= m < items.len() ==> sp_order_details_ok(#[trigger] items[m]))))
}

/// Reads a `symbol: [order]` object, e.g. the `/orders/open` reply: the
/// entries in wire order, each order pinned to its source object.
pub fn order_details_map_from_json(j: &Json) -> (r: Option<Vec<(Symbol, Vec<OrderDetails>)>>)
    ensures
        match r {
            Some(v) => j@ matches JsonV::Obj(e) && v@.len() == e.len() && (forall|k: int|
                0 <= k < e.len() ==> (#[trigger] v@[k]).0@ == e[k].0 && (e[k].1
                    matches JsonV::Arr(items) && sp_l3_orders_match(items, 0, v@[k].1@))),
            None => !sp_order_details_map_ok(j@),
        },
{
    let entries = match j {
        Json::Obj(e) => e,
        _ => {
            return None;
        },
    };
    proof {
        crate::json::lemma_obj_view(*entries);
    }
    let ghost ev = entry_views_of(entries@);
    let mut out: Vec<(Symbol, Vec<OrderDetails>)> = Vec::new();
    let mut i: usize = 0;
    while i < entries.len()
        invariant
            i <= entries@.len(),
            ev == entry_views_of(entries@),
            j@ == JsonV::Obj(ev),
            out@.len() == i,
            forall|k: int|
                0 <= k < i ==> (#[trigger] out@[k]).0@ == ev[k].0 && (ev[k].1
                    matches JsonV::Arr(items) && sp_l3_orders_match(items, 0, out@[k].1@)),
        decreases entries@.len() - i,
    {
        let list: Vec<OrderDetails> = match &entries[i].1 {
            Json::Arr(items) => {
                proof {
                    crate::json::lemma_arr_view(*items);
                }
                match l3_orders_from(items, 0) {
                    Some(v) => v,
                    None => {
                        proof {
                            let ghost e2 = j@->Obj_0;
                            assert(e2 == ev);
                            let ghost iv = crate::json::views_of(items@);
                            assert(e2[i as int].1 == JsonV::Arr(iv));
                            assert(!(forall|m: int|
                                0 <= m < iv.len() ==> sp_order_details_ok(#[trigger] iv[m])));
                            let ghost m0 = choose|m: int|
                                0 <= m < iv.len() && !sp_order_details_ok(#[trigger] iv[m]);
                            let ghost i2 = e2[i as int].1->Arr_0;
                            assert(i2 == iv);
                            assert(0 <= m0 < i2.len() && !sp_order_details_ok(i2[m0]));
                            assert(!sp_order_details_map_ok(j@));
                        }
                        return None;
                    },
                }
            },
            _ => {
                proof {
                    let ghost e2 = j@->Obj_0;
                    assert(e2 == ev);
                    assert(!(e2[i as int].1 is Arr));
                    assert(!sp_order_details_map_ok(j@));
                }
                return None;
            },
        };
        out.push((entries[i].0.clone(), list));
        i = i + 1;
    }
    Some(out)
}

/// How a decoded fill relates to its source object: the order's own fields
/// plus the fill-specific ones.
pub open spec fn sp_fill_details_matches(j: JsonV, v: FillDetails) -> bool {
    sp_order_details_matches(j, v.order) && (j matches JsonV::Obj(e) && sp_get_u64(
        e,
        "remaining"@,
    ) == Some(v.remaining) && sp_get_bool(e, "partial"@) == Some(v.partial) && sp_get_bool(
        e,
        "is_maker"@,
    ) == Some(v.is_maker) && sp_get_bool(e, "is_liquidation"@) == Some(v.is_liquidation)
        && sp_get_bool(e, "is_selftrade"@) == Some(v.is_selftrade))
}

/// Whether a fill object is well-formed.
pub open spec fn sp_fill_details_ok(j: JsonV) -> bool {
    sp_order_details_ok(j) && (j matches JsonV::Obj(e) && sp_get_u64(e, "remaining"@) is Some
        && sp_get_bool(e, "partial"@) is Some && sp_get_bool(e, "is_maker"@) is Some
        && sp_get_bool(e, "is_liquidation"@) is Some && sp_get_bool(e, "is_selftrade"@) is Some)
}

impl FillDetails {
    /// Reads one fill of a user order.
    pub fn from_json(j: &Json) -> (r: Option<FillDetails>)
        ensures
            match r {
                Some(v) => sp_fill_details_matches(j@, v),
                None => !sp_fill_details_ok(j@),
            },
    {
        let order = match OrderDetails::from_json(j) {
            Some(o) => o,
            None => {
                return None;
            },
        };
        let entries = match j {
            Json::Obj(e) => e,
            _ => {
                return None;
            },
        };
        proof {
            crate::json::lemma_obj_view(*entries);
        }
        let remaining = match get_u64(entries, "remaining") {
            Some(v) => v,
            None => {
                return None;
            },
        };
        let partial = match get_bool(entries, "partial") {
            Some(v) => v,
            None => {
                return None;
            },
        };
        let is_maker = match get_bool(entries, "is_maker") {
            Some(v) => v,
            None => {
                return None;
            },
        };
        let is_liquidation = match get_bool(entries, "is_liquidation") {
            Some(v) => v,
            None => {
                return None;
            },
        };
        let is_selftrade = match get_bool(entries, "is_selftrade") {
            Some(v) => v,
            None => {
                return None;
            },
        };
        Some(FillDetails { order, remaining, partial, is_maker, is_liquidation, is_selftrade })
    }
}

/// A list of fills, as the `/user/fills` endpoint returns it.
pub fn fill_details_list_from_json(j: &Json) -> (r: Option<Vec<FillDetails>>)
    ensures
        match r {
            Some(v) => j@ matches JsonV::Arr(items) && v@.len() == items.len() && (forall|k: int|
                0 <= k < items.len() ==> sp_fill_details_matches(#[trigger] items[k], v@[k])),
            None => !(j@ matches JsonV::Arr(items) && (forall|k: int|
                0 <= k < items.len() ==> sp_fill_details_ok(#[trigger] items[k]))),
        },
{
    let items = match j {
        Json::Arr(items) => items,
        _ => {
            return None;
        },
    };
    proof {
        crate::json::lemma_arr_view(*items);
    }
    let ghost iv = crate::json::views_of(items@);
    let mut out: Vec<FillDetails> = Vec::new();
    let mut i: usize = 0;
    while i < items.len()
        invariant
            i <= items@.len(),
            iv == crate::json::views_of(items@),
            j@ == JsonV::Arr(iv),
            out@.len() == i,
            forall|k: int| 0 <= k < i ==> sp_fill_details_matches(#[trigger] iv[k], out@[k]),
        decreases items@.len() - i,
    {
        match FillDetails::from_json(&items[i]) {
            Some(f) => {
                out.push(f);
            },
            None => {
                proof {
                    let ghost i2 = j@->Arr_0;
                    assert(i2 == iv);
                    assert(0 <= i < i2.len() && !sp_fill_details_ok(i2[i as int]));
                }
                return None;
            },
        }
        i = i + 1;
    }
    Some(out)
}

} // verus!

verus! {

/// Reads and decides a REST cancel reply in one step: the reply must carry a
/// `reason` string; the reason `Cancel` is success, anything else a refusal
/// naming the order, the symbol and the reason.
pub fn rest_cancel_verdict(j: &Json, order_id: u64, symbol: &str) -> (r: Option<
    Result<(), (u64, String, String)>,
>)
    ensures
        match r {
            Some(v) => j@ matches JsonV::Obj(e) && (sp_get_str(e, "reason"@) matches Some(reason)
                && (match v {
                Ok(u) => cancel_outcome_view(order_id, symbol@, reason) is Ok,
                Err(t) => cancel_outcome_view(order_id, symbol@, reason) == Err::<
                    (),
                    (u64, Seq<char>, Seq<char>),
                >((t.0, t.1@, t.2@)) && t.0 == order_id && t.1@ == symbol@,
            })),
            None => !(j@ matches JsonV::Obj(e) && sp_get_str(e, "reason"@) is Some),
        },
{
    let entries = match j {
        Json::Obj(e) => e,
        _ => {
            return None;
        },
    };
    proof {
        crate::json::lemma_obj_view(*entries);
    }
    match get_string(entries, "reason") {
        Some(reason) => Some(cancel_outcome(order_id, symbol, reason)),
        None => None,
    }
}

} // verus!
