//! Serialization of outbound messages.
//!
//! Every outbound [`KolliderMsg`] variant becomes one flat JSON object whose
//! `type` field is a string literal unique to the variant.  The exact text is
//! given by [`encode_spec`]; [`encode_msg`] is proved to produce it.

use vstd::prelude::*;
use crate::api::{MarginType, OrderSide, OrderType, SettlementType};
use crate::data::{ChannelName, KolliderMsg, KolliderMsgV, strs_view};
use crate::text::{dec_str, digit_char};

verus! {

/// Escaped form of one character inside a JSON string literal.
pub open spec fn esc1(c: char) -> Seq<char> {
    if c == '"' {
        seq!['\\', '"']
    } else if c == '\\' {
        seq!['\\', '\\']
    } else if c == '\n' {
        seq!['\\', 'n']
    } else if c == '\r' {
        seq!['\\', 'r']
    } else if c == '\t' {
        seq!['\\', 't']
    } else if c as int == 8 {
        seq!['\\', 'b']
    } else if c as int == 12 {
        seq!['\\', 'f']
    } else if (c as int) < 0x20 {
        seq!['\\', 'u', '0', '0', hex_char((c as int) / 16), hex_char((c as int) % 16)]
    } else {
        seq![c]
    }
}

pub open spec fn hex_char(d: int) -> char
    recommends
        0 <= d < 16,
{
    if d < 10 {
        digit_char(d)
    } else {
        (d + 87) as char
    }
}

/// Escaped form of a whole string's contents.
pub open spec fn esc(s: Seq<char>) -> Seq<char>
    decreases s.len(),
{
    if s.len() == 0 {
        Seq::empty()
    } else {
        esc(s.drop_last()) + esc1(s.last())
    }
}

/// A JSON string literal: quotes around the escaped contents.
pub open spec fn jstr(s: Seq<char>) -> Seq<char> {
    seq!['"'] + esc(s) + seq!['"']
}

/// Comma-joined parts.
pub open spec fn join_comma(parts: Seq<Seq<char>>) -> Seq<char>
    decreases parts.len(),
{
    if parts.len() == 0 {
        Seq::empty()
    } else {
        join_comma(parts.drop_last()) + (if parts.len() == 1 {
            Seq::<char>::empty()
        } else {
            seq![',']
        }) + parts.last()
    }
}

/// A JSON array of string literals.
pub open spec fn str_array(ss: Seq<Seq<char>>) -> Seq<char> {
    seq!['['] + join_comma(Seq::new(ss.len(), |i: int| jstr(ss[i]))) + seq![']']
}

/// A JSON array of channel names.
pub open spec fn channel_array(cs: Seq<ChannelName>) -> Seq<char> {
    seq!['['] + join_comma(Seq::new(cs.len(), |i: int| jstr(cs[i].spec_wire_name()))) + seq![']']
}

pub open spec fn side_json(s: OrderSide) -> Seq<char> {
    if s is Ask {
        "\"Ask\""@
    } else {
        "\"Bid\""@
    }
}

pub open spec fn margin_json(m: MarginType) -> Seq<char> {
    "\"Isolated\""@
}

pub open spec fn order_type_json(t: OrderType) -> Seq<char> {
    if t is Limit {
        "\"Limit\""@
    } else {
        "\"Market\""@
    }
}

pub open spec fn settlement_json(t: SettlementType) -> Seq<char> {
    if t is Instant {
        "\"Instant\""@
    } else {
        "\"Delayed\""@
    }
}

/// The exact frame text of each outbound variant.  The two inbound-only
/// variants have no outbound form and encode to nothing.
pub open spec fn encode_spec(m: KolliderMsgV) -> Seq<char> {
    match m {
        KolliderMsgV::Subscribe { symbols, channels } => "{\"type\":\"subscribe\",\"symbols\":"@
            + str_array(symbols) + ",\"channels\":"@ + channel_array(channels) + "}"@,
        KolliderMsgV::Unsubscribe { symbols, channels } =>
            "{\"type\":\"unsubscribe\",\"symbols\":"@ + str_array(symbols) + ",\"channels\":"@
            + channel_array(channels) + "}"@,
        KolliderMsgV::UserAuth { token, passphrase, signature, timestamp } =>
            "{\"type\":\"authenticate\",\"token\":"@ + jstr(token) + ",\"passphrase\":"@ + jstr(
            passphrase,
        ) + ",\"signature\":"@ + jstr(signature) + ",\"timestamp\":"@ + jstr(timestamp) + "}"@,
        KolliderMsgV::Error { message } => "{\"type\":\"error\",\"message\":"@ + jstr(message)
            + "}"@,
        KolliderMsgV::Order {
            price,
            quantity,
            symbol,
            leverage,
            side,
            margin_type,
            order_type,
            settlement_type,
            ext_order_id,
        } => "{\"type\":\"order\",\"price\":"@ + dec_str(price as nat) + ",\"quantity\":"@
            + dec_str(quantity as nat) + ",\"symbol\":"@ + jstr(symbol) + ",\"leverage\":"@
            + dec_str(leverage as nat) + ",\"side\":"@ + side_json(side) + ",\"margin_type\":"@
            + margin_json(margin_type) + ",\"order_type\":"@ + order_type_json(order_type)
            + ",\"settlement_type\":"@ + settlement_json(settlement_type) + ",\"ext_order_id\":"@
            + jstr(ext_order_id) + "}"@,
        KolliderMsgV::CancelOrder { order_id, symbol, settlement_type } =>
            "{\"type\":\"cancel_order\",\"order_id\":"@ + dec_str(order_id as nat)
            + ",\"symbol\":"@ + jstr(symbol) + ",\"settlement_type\":"@ + settlement_json(
            settlement_type,
        ) + "}"@,
        KolliderMsgV::FetchOpenOrders => "{\"type\":\"fetch_open_orders\"}"@,
        KolliderMsgV::FetchPositions => "{\"type\":\"fetch_positions\"}"@,
        KolliderMsgV::FetchBalances => "{\"type\":\"fetch_balances\"}"@,
        KolliderMsgV::GetTicker { symbol } => "{\"type\":\"get_ticker\",\"symbol\":"@ + jstr(
            symbol,
        ) + "}"@,
        KolliderMsgV::TradableProducts => "{\"type\":\"fetch_tradable_products\"}"@,
        KolliderMsgV::Tagged(_) => Seq::empty(),
        KolliderMsgV::Unknown(_) => Seq::empty(),
    }
}

fn hex_char_of(d: u64) -> (c: char)
    requires
        d < 16,
    ensures
        c == hex_char(d as int),
{
    if d < 10 {
        crate::text::digit_of(d)
    } else {
        let b: u8 = d as u8 + 87;
        let c = b as char;
        proof {
            assert(c as int == d + 87);
            assert(hex_char(d as int) as int == d + 87);
        }
        c
    }
}

/// Appends `jstr(s@)`: the string as a JSON literal, escaped.
pub(crate) fn append_json_string(out: &mut String, s: &str)
    ensures
        final(out)@ == old(out)@ + jstr(s@),
{
    out.push('"');
    let n = s.unicode_len();
    let mut i: usize = 0;
    while i < n
        invariant
            i <= n,
            n == s@.len(),
            out@ == old(out)@ + seq!['"'] + esc(s@.subrange(0, i as int)),
        decreases n - i,
    {
        let c = s.get_char(i);
        if c == '"' {
            out.push('\\');
            out.push('"');
        } else if c == '\\' {
            out.push('\\');
            out.push('\\');
        } else if c == '\n' {
            out.push('\\');
            out.push('n');
        } else if c == '\r' {
            out.push('\\');
            out.push('r');
        } else if c == '\t' {
            out.push('\\');
            out.push('t');
        } else if (c as u32) == 8 {
            out.push('\\');
            out.push('b');
        } else if (c as u32) == 12 {
            out.push('\\');
            out.push('f');
        } else if (c as u32) < 0x20 {
            out.push('\\');
            out.push('u');
            out.push('0');
            out.push('0');
            let v = c as u32;
            out.push(hex_char_of((v / 16) as u64));
            out.push(hex_char_of((v % 16) as u64));
        } else {
            out.push(c);
        }
        proof {
            assert(s@.subrange(0, i + 1).drop_last() =~= s@.subrange(0, i as int));
            assert(s@.subrange(0, i + 1).last() == c);
            assert(out@ =~= old(out)@ + seq!['"'] + esc(s@.subrange(0, i + 1)));
        }
        i = i + 1;
    }
    out.push('"');
    proof {
        assert(s@.subrange(0, n as int) =~= s@);
        assert(out@ =~= old(out)@ + jstr(s@));
    }
}

/// Appends `str_array(strs_view(symbols@))`: the symbols as a JSON array.
fn append_symbol_array(out: &mut String, symbols: &Vec<String>)
    ensures
        final(out)@ == old(out)@ + str_array(strs_view(symbols@)),
{
    let ghost parts = Seq::new(
        strs_view(symbols@).len(),
        |i: int| jstr(strs_view(symbols@)[i]),
    );
    out.push('[');
    let mut k: usize = 0;
    while k < symbols.len()
        invariant
            k <= symbols@.len(),
            parts == Seq::new(strs_view(symbols@).len(), |i: int| jstr(strs_view(symbols@)[i])),
            parts.len() == symbols@.len(),
            out@ == old(out)@ + seq!['['] + join_comma(parts.subrange(0, k as int)),
        decreases symbols@.len() - k,
    {
        if k > 0 {
            out.push(',');
        }
        append_json_string(out, symbols[k].as_str());
        proof {
            assert(parts.subrange(0, k + 1).drop_last() =~= parts.subrange(0, k as int));
            assert(parts.subrange(0, k + 1).last() == jstr(symbols@[k as int]@));
            assert(out@ =~= old(out)@ + seq!['['] + join_comma(parts.subrange(0, k + 1)));
        }
        k = k + 1;
    }
    out.push(']');
    proof {
        assert(parts.subrange(0, symbols@.len() as int) =~= parts);
        assert(out@ =~= old(out)@ + str_array(strs_view(symbols@)));
    }
}

/// Appends `channel_array(channels@)`: the channel names as a JSON array.
fn append_channel_array(out: &mut String, channels: &Vec<ChannelName>)
    ensures
        final(out)@ == old(out)@ + channel_array(channels@),
{
    let ghost parts = Seq::new(channels@.len(), |i: int| jstr(channels@[i].spec_wire_name()));
    out.push('[');
    let mut k: usize = 0;
    while k < channels.len()
        invariant
            k <= channels@.len(),
            parts == Seq::new(channels@.len(), |i: int| jstr(channels@[i].spec_wire_name())),
            parts.len() == channels@.len(),
            out@ == old(out)@ + seq!['['] + join_comma(parts.subrange(0, k as int)),
        decreases channels@.len() - k,
    {
        if k > 0 {
            out.push(',');
        }
        let name = channels[k].wire_name();
        append_json_string(out, name);
        proof {
            assert(parts.subrange(0, k + 1).drop_last() =~= parts.subrange(0, k as int));
            assert(parts.subrange(0, k + 1).last() == jstr(channels@[k as int].spec_wire_name()));
            assert(out@ =~= old(out)@ + seq!['['] + join_comma(parts.subrange(0, k + 1)));
        }
        k = k + 1;
    }
    out.push(']');
    proof {
        assert(parts.subrange(0, channels@.len() as int) =~= parts);
        assert(out@ =~= old(out)@ + channel_array(channels@));
    }
}

pub(crate) fn append_side(out: &mut String, s: &OrderSide)
    ensures
        final(out)@ == old(out)@ + side_json(*s),
{
    match s {
        OrderSide::Ask => out.append("\"Ask\""),
        OrderSide::Bid => out.append("\"Bid\""),
    }
}

pub(crate) fn append_margin(out: &mut String, m: &MarginType)
    ensures
        final(out)@ == old(out)@ + margin_json(*m),
{
    match m {
        MarginType::Isolated => out.append("\"Isolated\""),
    }
}

pub(crate) fn append_order_type(out: &mut String, t: &OrderType)
    ensures
        final(out)@ == old(out)@ + order_type_json(*t),
{
    match t {
        OrderType::Limit => out.append("\"Limit\""),
        OrderType::Market => out.append("\"Market\""),
    }
}

pub(crate) fn append_settlement(out: &mut String, t: &SettlementType)
    ensures
        final(out)@ == old(out)@ + settlement_json(*t),
{
    match t {
        SettlementType::Instant => out.append("\"Instant\""),
        SettlementType::Delayed => out.append("\"Delayed\""),
    }
}

/// Serializes an outbound message to its exact frame text.
pub fn encode_msg(m: &KolliderMsg) -> (r: String)
    requires
        m.spec_is_outbound(),
    ensures
        r@ == encode_spec(m@),
{
    let mut out = String::new();
    match m {
        KolliderMsg::Subscribe { _type, symbols, channels } => {
            out.append("{\"type\":\"subscribe\",\"symbols\":");
            append_symbol_array(&mut out, symbols);
            out.append(",\"channels\":");
            append_channel_array(&mut out, channels);
            out.append("}");
        },
        KolliderMsg::Unsubscribe { _type, symbols, channels } => {
            out.append("{\"type\":\"unsubscribe\",\"symbols\":");
            append_symbol_array(&mut out, symbols);
            out.append(",\"channels\":");
            append_channel_array(&mut out, channels);
            out.append("}");
        },
        KolliderMsg::UserAuth { _type, token, passphrase, signature, timestamp } => {
            out.append("{\"type\":\"authenticate\",\"token\":");
            append_json_string(&mut out, token.as_str());
            out.append(",\"passphrase\":");
            append_json_string(&mut out, passphrase.as_str());
            out.append(",\"signature\":");
            append_json_string(&mut out, signature.as_str());
            out.append(",\"timestamp\":");
            append_json_string(&mut out, timestamp.as_str());
            out.append("}");
        },
        KolliderMsg::Error { _type, message } => {
            out.append("{\"type\":\"error\",\"message\":");
            append_json_string(&mut out, message.as_str());
            out.append("}");
        },
        KolliderMsg::Order {
            _type,
            price,
            quantity,
            symbol,
            leverage,
            side,
            margin_type,
            order_type,
            settlement_type,
            ext_order_id,
        } => {
            out.append("{\"type\":\"order\",\"price\":");
            crate::text::append_u64(&mut out, *price);
            out.append(",\"quantity\":");
            crate::text::append_u64(&mut out, *quantity);
            out.append(",\"symbol\":");
            append_json_string(&mut out, symbol.as_str());
            out.append(",\"leverage\":");
            crate::text::append_u64(&mut out, *leverage);
            out.append(",\"side\":");
            append_side(&mut out, side);
            out.append(",\"margin_type\":");
            append_margin(&mut out, margin_type);
            out.append(",\"order_type\":");
            append_order_type(&mut out, order_type);
            out.append(",\"settlement_type\":");
            append_settlement(&mut out, settlement_type);
            out.append(",\"ext_order_id\":");
            append_json_string(&mut out, ext_order_id.as_str());
            out.append("}");
        },
        KolliderMsg::CancelOrder { _type, order_id, symbol, settlement_type } => {
            out.append("{\"type\":\"cancel_order\",\"order_id\":");
            crate::text::append_u64(&mut out, *order_id);
            out.append(",\"symbol\":");
            append_json_string(&mut out, symbol.as_str());
            out.append(",\"settlement_type\":");
            append_settlement(&mut out, settlement_type);
            out.append("}");
        },
        KolliderMsg::FetchOpenOrders { _type } => {
            out.append("{\"type\":\"fetch_open_orders\"}");
        },
        KolliderMsg::FetchPositions { _type } => {
            out.append("{\"type\":\"fetch_positions\"}");
        },
        KolliderMsg::FetchBalances { _type } => {
            out.append("{\"type\":\"fetch_balances\"}");
        },
        KolliderMsg::GetTicker { _type, symbol } => {
            out.append("{\"type\":\"get_ticker\",\"symbol\":");
            append_json_string(&mut out, symbol.as_str());
            out.append("}");
        },
        KolliderMsg::TradableProducts { _type } => {
            out.append("{\"type\":\"fetch_tradable_products\"}");
        },
        KolliderMsg::Tagged(_) => {},
        KolliderMsg::Unknown(_) => {},
    }
    proof {
        assert(out@ =~= encode_spec(m@));
    }
    out
}

/// The `type` literal of each outbound variant.
pub open spec fn discriminant_of(m: KolliderMsgV) -> Seq<char> {
    match m {
        KolliderMsgV::Subscribe { .. } => "subscribe"@,
        KolliderMsgV::Unsubscribe { .. } => "unsubscribe"@,
        KolliderMsgV::UserAuth { .. } => "authenticate"@,
        KolliderMsgV::Error { .. } => "error"@,
        KolliderMsgV::Order { .. } => "order"@,
        KolliderMsgV::CancelOrder { .. } => "cancel_order"@,
        KolliderMsgV::FetchOpenOrders => "fetch_open_orders"@,
        KolliderMsgV::FetchPositions => "fetch_positions"@,
        KolliderMsgV::FetchBalances => "fetch_balances"@,
        KolliderMsgV::GetTicker { .. } => "get_ticker"@,
        KolliderMsgV::TradableProducts => "fetch_tradable_products"@,
        KolliderMsgV::Tagged(_) => Seq::empty(),
        KolliderMsgV::Unknown(_) => Seq::empty(),
    }
}

pub open spec fn spec_is_outbound_v(m: KolliderMsgV) -> bool {
    !(m is Tagged) && !(m is Unknown)
}

/// Two outbound variants share a discriminant only when they are the same
/// variant: the `type` literal routes an outbound frame unambiguously.
pub proof fn lemma_outbound_discriminants_unique(m1: KolliderMsgV, m2: KolliderMsgV)
    requires
        spec_is_outbound_v(m1),
        spec_is_outbound_v(m2),
        discriminant_of(m1) == discriminant_of(m2),
    ensures
        (m1 is Subscribe <==> m2 is Subscribe),
        (m1 is Unsubscribe <==> m2 is Unsubscribe),
        (m1 is UserAuth <==> m2 is UserAuth),
        (m1 is Error <==> m2 is Error),
        (m1 is Order <==> m2 is Order),
        (m1 is CancelOrder <==> m2 is CancelOrder),
        (m1 is FetchOpenOrders <==> m2 is FetchOpenOrders),
        (m1 is FetchPositions <==> m2 is FetchPositions),
        (m1 is FetchBalances <==> m2 is FetchBalances),
        (m1 is GetTicker <==> m2 is GetTicker),
        (m1 is TradableProducts <==> m2 is TradableProducts),
{
    reveal_strlit("subscribe");
    reveal_strlit("unsubscribe");
    reveal_strlit("authenticate");
    reveal_strlit("error");
    reveal_strlit("order");
    reveal_strlit("cancel_order");
    reveal_strlit("fetch_open_orders");
    reveal_strlit("fetch_positions");
    reveal_strlit("fetch_balances");
    reveal_strlit("get_ticker");
    reveal_strlit("fetch_tradable_products");
    assert("subscribe"@.len() == 9);
    assert("unsubscribe"@.len() == 11);
    assert("authenticate"@.len() == 12);
    assert("error"@.len() == 5);
    assert("order"@.len() == 5);
    assert("cancel_order"@.len() == 12);
    assert("fetch_open_orders"@.len() == 17);
    assert("fetch_positions"@.len() == 15);
    assert("fetch_balances"@.len() == 14);
    assert("get_ticker"@.len() == 10);
    assert("fetch_tradable_products"@.len() == 23);
    assert("error"@[0] == 'e' && "order"@[0] == 'o');
    assert("authenticate"@[0] == 'a' && "cancel_order"@[0] == 'c');
}

} // verus!
