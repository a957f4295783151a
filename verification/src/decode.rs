//! Decoding of inbound frames.
//!
//! The inbound alphabet is untagged at the top level but tagged within: the
//! decoder first tries the bare authentication control shape, then each domain
//! variant by its `type`/`data` envelope, and finally keeps a well-formed but
//! unrecognized frame whole as [`KolliderMsg::Unknown`].  Text that is not
//! JSON at all is a [`DecodeError::Syntax`]; a known discriminant whose
//! payload does not fit its schema is a [`DecodeError::Payload`].  Numeric
//! fields that the exchange quotes as strings are coerced: a quoted value is
//! accepted exactly when it is one whole numeric literal.

use vstd::prelude::*;
use crate::api::{MarginType, OrderSide, OrderType, SettlementType};
use crate::json::{is_num_text, Json, JsonV, NumStr};
use crate::text::{all_digits, dec_val, str_eq};

verus! {

/// Why an inbound frame was rejected.
#[derive(Debug, PartialEq, Eq, Structural, Clone, Copy)]
pub enum DecodeError {
    /// The text is not well-formed JSON.
    Syntax,
    /// The frame names a known discriminant but its payload does not fit.
    Payload,
}

/// First value under `key`, scanning from `i`.
pub open spec fn sp_lookup(e: Seq<(Seq<char>, JsonV)>, key: Seq<char>, i: int) -> Option<JsonV>
    decreases e.len() - i,
    when 0 <= i
{
    if i >= e.len() {
        None
    } else if e[i].0 == key {
        Some(e[i].1)
    } else {
        sp_lookup(e, key, i + 1)
    }
}

/// First value under `key`.
pub open spec fn sp_get(e: Seq<(Seq<char>, JsonV)>, key: Seq<char>) -> Option<JsonV> {
    sp_lookup(e, key, 0)
}

/// String field.
pub open spec fn sp_get_str(e: Seq<(Seq<char>, JsonV)>, key: Seq<char>) -> Option<Seq<char>> {
    match sp_get(e, key) {
        Some(JsonV::Str(s)) => Some(s),
        _ => None,
    }
}

/// Value of a digit-only literal that fits a `u64`.
pub open spec fn digits_u64_of(t: Seq<char>) -> Option<u64> {
    if t.len() > 0 && all_digits(t) && dec_val(t) <= u64::MAX {
        Some(dec_val(t) as u64)
    } else {
        None
    }
}

/// Unsigned integer field: a plain JSON number of digits only.
pub open spec fn sp_get_u64(e: Seq<(Seq<char>, JsonV)>, key: Seq<char>) -> Option<u64> {
    match sp_get(e, key) {
        Some(JsonV::Num(t)) => digits_u64_of(t),
        _ => None,
    }
}

/// Unsigned integer field, with the quoted-string coercion.
pub open spec fn sp_get_u64_flex(e: Seq<(Seq<char>, JsonV)>, key: Seq<char>) -> Option<u64> {
    match sp_get(e, key) {
        Some(JsonV::Num(t)) => digits_u64_of(t),
        Some(JsonV::Str(t)) => digits_u64_of(t),
        _ => None,
    }
}

/// Numeric field kept as literal text: a JSON number, or a quoted string that
/// is one whole numeric literal.
pub open spec fn sp_num_of(j: JsonV) -> Option<Seq<char>> {
    match j {
        JsonV::Num(t) => Some(t),
        JsonV::Str(t) => if is_num_text(t) {
            Some(t)
        } else {
            None
        },
        _ => None,
    }
}

pub open spec fn sp_get_num(e: Seq<(Seq<char>, JsonV)>, key: Seq<char>) -> Option<Seq<char>> {
    match sp_get(e, key) {
        Some(j) => sp_num_of(j),
        None => None,
    }
}

pub open spec fn sp_get_bool(e: Seq<(Seq<char>, JsonV)>, key: Seq<char>) -> Option<bool> {
    match sp_get(e, key) {
        Some(JsonV::Bool(b)) => Some(b),
        _ => None,
    }
}

pub open spec fn sp_side_of(j: JsonV) -> Option<OrderSide> {
    match j {
        JsonV::Str(s) => if s == "Ask"@ {
            Some(OrderSide::Ask)
        } else if s == "Bid"@ {
            Some(OrderSide::Bid)
        } else {
            None
        },
        _ => None,
    }
}

pub open spec fn sp_get_side(e: Seq<(Seq<char>, JsonV)>, key: Seq<char>) -> Option<OrderSide> {
    match sp_get(e, key) {
        Some(j) => sp_side_of(j),
        None => None,
    }
}

pub open spec fn sp_get_margin(e: Seq<(Seq<char>, JsonV)>, key: Seq<char>) -> Option<MarginType> {
    match sp_get(e, key) {
        Some(JsonV::Str(s)) => if s == "Isolated"@ {
            Some(MarginType::Isolated)
        } else {
            None
        },
        _ => None,
    }
}

pub open spec fn sp_get_order_type(e: Seq<(Seq<char>, JsonV)>, key: Seq<char>) -> Option<
    OrderType,
> {
    match sp_get(e, key) {
        Some(JsonV::Str(s)) => if s == "Limit"@ {
            Some(OrderType::Limit)
        } else if s == "Market"@ {
            Some(OrderType::Market)
        } else {
            None
        },
        _ => None,
    }
}

pub open spec fn sp_get_settlement(e: Seq<(Seq<char>, JsonV)>, key: Seq<char>) -> Option<
    SettlementType,
> {
    match sp_get(e, key) {
        Some(JsonV::Str(s)) => if s == "Instant"@ {
            Some(SettlementType::Instant)
        } else if s == "Delayed"@ {
            Some(SettlementType::Delayed)
        } else {
            None
        },
        _ => None,
    }
}

/// Optional string field: absent or `null` is `None`; a non-string value is
/// an error (outer `None`).
pub open spec fn sp_get_opt_str(e: Seq<(Seq<char>, JsonV)>, key: Seq<char>) -> Option<
    Option<Seq<char>>,
> {
    match sp_get(e, key) {
        None => Some(None),
        Some(JsonV::Null) => Some(None),
        Some(JsonV::Str(s)) => Some(Some(s)),
        Some(_) => None,
    }
}

/// Optional unsigned integer field.
pub open spec fn sp_get_opt_u64(e: Seq<(Seq<char>, JsonV)>, key: Seq<char>) -> Option<
    Option<u64>,
> {
    match sp_get(e, key) {
        None => Some(None),
        Some(JsonV::Null) => Some(None),
        Some(JsonV::Num(t)) => match digits_u64_of(t) {
            Some(v) => Some(Some(v)),
            None => None,
        },
        Some(_) => None,
    }
}

/// Optional numeric-text field, with the quoted-string coercion.
pub open spec fn sp_get_opt_num(e: Seq<(Seq<char>, JsonV)>, key: Seq<char>) -> Option<
    Option<Seq<char>>,
> {
    match sp_get(e, key) {
        None => Some(None),
        Some(JsonV::Null) => Some(None),
        Some(j) => match sp_num_of(j) {
            Some(t) => Some(Some(t)),
            None => None,
        },
    }
}

/// Optional side field.
pub open spec fn sp_get_opt_side(e: Seq<(Seq<char>, JsonV)>, key: Seq<char>) -> Option<
    Option<OrderSide>,
> {
    match sp_get(e, key) {
        None => Some(None),
        Some(JsonV::Null) => Some(None),
        Some(j) => match sp_side_of(j) {
            Some(v) => Some(Some(v)),
            None => None,
        },
    }
}

fn lookup_from<'a>(entries: &'a Vec<(String, Json)>, key: &str, i: usize) -> (r: Option<&'a Json>)
    requires
        i <= entries@.len(),
    ensures
        match r {
            Some(j) => sp_lookup(crate::json::entry_views_of(entries@), key@, i as int) == Some(
                j@,
            ),
            None => sp_lookup(crate::json::entry_views_of(entries@), key@, i as int) is None,
        },
    decreases entries@.len() - i,
{
    if i >= entries.len() {
        None
    } else if str_eq(entries[i].0.as_str(), key) {
        Some(&entries[i].1)
    } else {
        lookup_from(entries, key, i + 1)
    }
}

/// First value under `key` in a parsed object.
pub fn get_json<'a>(entries: &'a Vec<(String, Json)>, key: &str) -> (r: Option<&'a Json>)
    ensures
        match r {
            Some(j) => sp_get(crate::json::entry_views_of(entries@), key@) == Some(j@),
            None => sp_get(crate::json::entry_views_of(entries@), key@) is None,
        },
{
    lookup_from(entries, key, 0)
}

/// String field, owned.
pub fn get_string(entries: &Vec<(String, Json)>, key: &str) -> (r: Option<String>)
    ensures
        match r {
            Some(s) => sp_get_str(crate::json::entry_views_of(entries@), key@) == Some(s@),
            None => sp_get_str(crate::json::entry_views_of(entries@), key@) is None,
        },
{
    match get_json(entries, key) {
        Some(Json::Str(s)) => Some(s.clone()),
        _ => None,
    }
}

fn u64_of_digits(t: &str) -> (r: Option<u64>)
    ensures
        r == digits_u64_of(t@),
{
    let n = t.unicode_len();
    proof {
        assert(t@.subrange(0, n as int) =~= t@);
    }
    crate::text::parse_u64(t, 0, n)
}

/// Unsigned integer field: a plain JSON number of digits only.
pub fn get_u64(entries: &Vec<(String, Json)>, key: &str) -> (r: Option<u64>)
    ensures
        r == sp_get_u64(crate::json::entry_views_of(entries@), key@),
{
    match get_json(entries, key) {
        Some(Json::Num(t)) => u64_of_digits(t.as_str()),
        _ => None,
    }
}

/// Unsigned integer field, with the quoted-string coercion.
pub fn get_u64_flex(entries: &Vec<(String, Json)>, key: &str) -> (r: Option<u64>)
    ensures
        r == sp_get_u64_flex(crate::json::entry_views_of(entries@), key@),
{
    match get_json(entries, key) {
        Some(Json::Num(t)) => u64_of_digits(t.as_str()),
        Some(Json::Str(t)) => u64_of_digits(t.as_str()),
        _ => None,
    }
}

/// Numeric field kept as its literal text.
pub fn get_num(entries: &Vec<(String, Json)>, key: &str) -> (r: Option<NumStr>)
    ensures
        match r {
            Some(v) => sp_get_num(crate::json::entry_views_of(entries@), key@) == Some(v@),
            None => sp_get_num(crate::json::entry_views_of(entries@), key@) is None,
        },
{
    match get_json(entries, key) {
        Some(Json::Num(t)) => Some(NumStr(t.clone())),
        Some(Json::Str(t)) => {
            if crate::json::is_numeric_str(t.as_str()) {
                Some(NumStr(t.clone()))
            } else {
                None
            }
        },
        _ => None,
    }
}

pub fn get_bool(entries: &Vec<(String, Json)>, key: &str) -> (r: Option<bool>)
    ensures
        r == sp_get_bool(crate::json::entry_views_of(entries@), key@),
{
    match get_json(entries, key) {
        Some(Json::Bool(b)) => Some(*b),
        _ => None,
    }
}

pub fn get_side(entries: &Vec<(String, Json)>, key: &str) -> (r: Option<OrderSide>)
    ensures
        r == sp_get_side(crate::json::entry_views_of(entries@), key@),
{
    match get_json(entries, key) {
        Some(Json::Str(s)) => {
            if str_eq(s.as_str(), "Ask") {
                Some(OrderSide::Ask)
            } else if str_eq(s.as_str(), "Bid") {
                Some(OrderSide::Bid)
            } else {
                None
            }
        },
        _ => None,
    }
}

pub fn get_margin(entries: &Vec<(String, Json)>, key: &str) -> (r: Option<MarginType>)
    ensures
        r == sp_get_margin(crate::json::entry_views_of(entries@), key@),
{
    match get_json(entries, key) {
        Some(Json::Str(s)) => {
            if str_eq(s.as_str(), "Isolated") {
                Some(MarginType::Isolated)
            } else {
                None
            }
        },
        _ => None,
    }
}

pub fn get_order_type(entries: &Vec<(String, Json)>, key: &str) -> (r: Option<OrderType>)
    ensures
        r == sp_get_order_type(crate::json::entry_views_of(entries@), key@),
{
    match get_json(entries, key) {
        Some(Json::Str(s)) => {
            if str_eq(s.as_str(), "Limit") {
                Some(OrderType::Limit)
            } else if str_eq(s.as_str(), "Market") {
                Some(OrderType::Market)
            } else {
                None
            }
        },
        _ => None,
    }
}

pub fn get_settlement(entries: &Vec<(String, Json)>, key: &str) -> (r: Option<SettlementType>)
    ensures
        r == sp_get_settlement(crate::json::entry_views_of(entries@), key@),
{
    match get_json(entries, key) {
        Some(Json::Str(s)) => {
            if str_eq(s.as_str(), "Instant") {
                Some(SettlementType::Instant)
            } else if str_eq(s.as_str(), "Delayed") {
                Some(SettlementType::Delayed)
            } else {
                None
            }
        },
        _ => None,
    }
}

/// Optional string field.
pub fn get_opt_string(entries: &Vec<(String, Json)>, key: &str) -> (r: Option<Option<String>>)
    ensures
        match r {
            Some(v) => sp_get_opt_str(crate::json::entry_views_of(entries@), key@) == Some(
                crate::data::opt_str_view(v),
            ),
            None => sp_get_opt_str(crate::json::entry_views_of(entries@), key@) is None,
        },
{
    match get_json(entries, key) {
        None => Some(None),
        Some(Json::Null) => Some(None),
        Some(Json::Str(s)) => Some(Some(s.clone())),
        Some(_) => None,
    }
}

/// Optional unsigned integer field.
pub fn get_opt_u64(entries: &Vec<(String, Json)>, key: &str) -> (r: Option<Option<u64>>)
    ensures
        r == sp_get_opt_u64(crate::json::entry_views_of(entries@), key@),
{
    match get_json(entries, key) {
        None => Some(None),
        Some(Json::Null) => Some(None),
        Some(Json::Num(t)) => match u64_of_digits(t.as_str()) {
            Some(v) => Some(Some(v)),
            None => None,
        },
        Some(_) => None,
    }
}

/// Optional numeric-text field.
pub fn get_opt_num(entries: &Vec<(String, Json)>, key: &str) -> (r: Option<Option<NumStr>>)
    ensures
        match r {
            Some(v) => sp_get_opt_num(crate::json::entry_views_of(entries@), key@) == Some(
                crate::data::opt_num_view(v),
            ),
            None => sp_get_opt_num(crate::json::entry_views_of(entries@), key@) is None,
        },
{
    match get_json(entries, key) {
        None => Some(None),
        Some(Json::Null) => Some(None),
        Some(Json::Num(t)) => Some(Some(NumStr(t.clone()))),
        Some(Json::Str(t)) => {
            if crate::json::is_numeric_str(t.as_str()) {
                Some(Some(NumStr(t.clone())))
            } else {
                None
            }
        },
        Some(_) => None,
    }
}

/// Entries of a `symbol: numeric` object, scanning from `i`.
pub open spec fn sp_num_entries_from(o: Seq<(Seq<char>, JsonV)>, i: int) -> Option<
    Seq<(Seq<char>, Seq<char>)>,
>
    decreases o.len() - i,
    when 0 <= i
{
    if i >= o.len() {
        Some(Seq::empty())
    } else {
        match sp_num_of(o[i].1) {
            Some(t) => match sp_num_entries_from(o, i + 1) {
                Some(rest) => Some(seq![(o[i].0, t)] + rest),
                None => None,
            },
            None => None,
        }
    }
}

/// Entries of a `symbol: count` object, scanning from `i`.
pub open spec fn sp_u64_entries_from(o: Seq<(Seq<char>, JsonV)>, i: int) -> Option<
    Seq<(Seq<char>, u64)>,
>
    decreases o.len() - i,
    when 0 <= i
{
    if i >= o.len() {
        Some(Seq::empty())
    } else {
        match o[i].1 {
            JsonV::Num(t) => match digits_u64_of(t) {
                Some(v) => match sp_u64_entries_from(o, i + 1) {
                    Some(rest) => Some(seq![(o[i].0, v)] + rest),
                    None => None,
                },
                None => None,
            },
            _ => None,
        }
    }
}

/// Elements of an integer array, scanning from `i`.
pub open spec fn sp_u64_list_from(items: Seq<JsonV>, i: int) -> Option<Seq<u64>>
    decreases items.len() - i,
    when 0 <= i
{
    if i >= items.len() {
        Some(Seq::empty())
    } else {
        match items[i] {
            JsonV::Num(t) => match digits_u64_of(t) {
                Some(v) => match sp_u64_list_from(items, i + 1) {
                    Some(rest) => Some(seq![v] + rest),
                    None => None,
                },
                None => None,
            },
            _ => None,
        }
    }
}

fn num_of(j: &Json) -> (r: Option<NumStr>)
    ensures
        match r {
            Some(v) => sp_num_of(j@) == Some(v@),
            None => sp_num_of(j@) is None,
        },
{
    match j {
        Json::Num(t) => Some(NumStr(t.clone())),
        Json::Str(t) => {
            if crate::json::is_numeric_str(t.as_str()) {
                Some(NumStr(t.clone()))
            } else {
                None
            }
        },
        _ => None,
    }
}

fn num_entries_from(entries: &Vec<(String, Json)>, i: usize) -> (r: Option<Vec<(String, NumStr)>>)
    requires
        i <= entries@.len(),
    ensures
        match (r, sp_num_entries_from(crate::json::entry_views_of(entries@), i as int)) {
            (Some(v), Some(sv)) => crate::data::num_entries_view(v@) == sv,
            (None, None) => true,
            _ => false,
        },
    decreases entries@.len() - i,
{
    if i >= entries.len() {
        let out: Vec<(String, NumStr)> = Vec::new();
        proof {
            assert(crate::data::num_entries_view(out@) =~= Seq::<(Seq<char>, Seq<char>)>::empty());
        }
        return Some(out);
    }
    match num_of(&entries[i].1) {
        Some(t) => match num_entries_from(entries, i + 1) {
            Some(mut rest) => {
                let ghost tv = t@;
                rest.insert(0, (entries[i].0.clone(), t));
                proof {
                    let ghost ev = crate::json::entry_views_of(entries@);
                    assert(crate::data::num_entries_view(rest@) =~= seq![(ev[i as int].0, tv)]
                        + sp_num_entries_from(ev, i + 1).unwrap());
                }
                Some(rest)
            },
            None => None,
        },
        None => None,
    }
}

fn u64_entries_from(entries: &Vec<(String, Json)>, i: usize) -> (r: Option<Vec<(String, u64)>>)
    requires
        i <= entries@.len(),
    ensures
        match (r, sp_u64_entries_from(crate::json::entry_views_of(entries@), i as int)) {
            (Some(v), Some(sv)) => crate::data::u64_entries_view(v@) == sv,
            (None, None) => true,
            _ => false,
        },
    decreases entries@.len() - i,
{
    if i >= entries.len() {
        let out: Vec<(String, u64)> = Vec::new();
        proof {
            assert(crate::data::u64_entries_view(out@) =~= Seq::<(Seq<char>, u64)>::empty());
        }
        return Some(out);
    }
    let v: u64 = match &entries[i].1 {
        Json::Num(t) => match u64_of_digits(t.as_str()) {
            Some(v) => v,
            None => {
                return None;
            },
        },
        _ => {
            return None;
        },
    };
    match u64_entries_from(entries, i + 1) {
        Some(mut rest) => {
            rest.insert(0, (entries[i].0.clone(), v));
            proof {
                let ghost ev = crate::json::entry_views_of(entries@);
                assert(crate::data::u64_entries_view(rest@) =~= seq![(ev[i as int].0, v)]
                    + sp_u64_entries_from(ev, i + 1).unwrap());
            }
            Some(rest)
        },
        None => None,
    }
}

fn u64_list_from(items: &Vec<Json>, i: usize) -> (r: Option<Vec<u64>>)
    requires
        i <= items@.len(),
    ensures
        match (r, sp_u64_list_from(crate::json::views_of(items@), i as int)) {
            (Some(v), Some(sv)) => v@ == sv,
            (None, None) => true,
            _ => false,
        },
    decreases items@.len() - i,
{
    if i >= items.len() {
        let out: Vec<u64> = Vec::new();
        proof {
            assert(out@ =~= Seq::<u64>::empty());
        }
        return Some(out);
    }
    let v: u64 = match &items[i] {
        Json::Num(t) => match u64_of_digits(t.as_str()) {
            Some(v) => v,
            None => {
                return None;
            },
        },
        _ => {
            return None;
        },
    };
    match u64_list_from(items, i + 1) {
        Some(mut rest) => {
            rest.insert(0, v);
            proof {
                let ghost jv = crate::json::views_of(items@);
                assert(rest@ =~= seq![v] + sp_u64_list_from(jv, i + 1).unwrap());
            }
            Some(rest)
        },
        None => None,
    }
}

/// A `symbol: numeric` object field.
pub fn get_num_entries(entries: &Vec<(String, Json)>, key: &str) -> (r: Option<
    Vec<(String, NumStr)>,
>)
    ensures
        match (r, sp_get_num_entries(crate::json::entry_views_of(entries@), key@)) {
            (Some(v), Some(sv)) => crate::data::num_entries_view(v@) == sv,
            (None, None) => true,
            _ => false,
        },
{
    match get_json(entries, key) {
        Some(Json::Obj(o)) => {
            proof {
                crate::json::lemma_obj_view(*o);
            }
            num_entries_from(o, 0)
        },
        _ => None,
    }
}

/// A `symbol: numeric` object field, at the specification level.
pub open spec fn sp_get_num_entries(e: Seq<(Seq<char>, JsonV)>, key: Seq<char>) -> Option<
    Seq<(Seq<char>, Seq<char>)>,
> {
    match sp_get(e, key) {
        Some(JsonV::Obj(o)) => sp_num_entries_from(o, 0),
        _ => None,
    }
}

/// A `symbol: count` object field.
pub fn get_u64_entries(entries: &Vec<(String, Json)>, key: &str) -> (r: Option<Vec<(String, u64)>>)
    ensures
        match (r, sp_get_u64_entries(crate::json::entry_views_of(entries@), key@)) {
            (Some(v), Some(sv)) => crate::data::u64_entries_view(v@) == sv,
            (None, None) => true,
            _ => false,
        },
{
    match get_json(entries, key) {
        Some(Json::Obj(o)) => {
            proof {
                crate::json::lemma_obj_view(*o);
            }
            u64_entries_from(o, 0)
        },
        _ => None,
    }
}

/// A `symbol: count` object field, at the specification level.
pub open spec fn sp_get_u64_entries(e: Seq<(Seq<char>, JsonV)>, key: Seq<char>) -> Option<
    Seq<(Seq<char>, u64)>,
> {
    match sp_get(e, key) {
        Some(JsonV::Obj(o)) => sp_u64_entries_from(o, 0),
        _ => None,
    }
}

/// An integer array field.
pub fn get_u64_list(entries: &Vec<(String, Json)>, key: &str) -> (r: Option<Vec<u64>>)
    ensures
        match (r, sp_get_u64_list(crate::json::entry_views_of(entries@), key@)) {
            (Some(v), Some(sv)) => v@ == sv,
            (None, None) => true,
            _ => false,
        },
{
    match get_json(entries, key) {
        Some(Json::Arr(items)) => {
            proof {
                crate::json::lemma_arr_view(*items);
            }
            u64_list_from(items, 0)
        },
        _ => None,
    }
}

/// An integer array field, at the specification level.
pub open spec fn sp_get_u64_list(e: Seq<(Seq<char>, JsonV)>, key: Seq<char>) -> Option<Seq<u64>> {
    match sp_get(e, key) {
        Some(JsonV::Arr(items)) => sp_u64_list_from(items, 0),
        _ => None,
    }
}

/// Optional side field.
pub fn get_opt_side(entries: &Vec<(String, Json)>, key: &str) -> (r: Option<Option<OrderSide>>)
    ensures
        r == sp_get_opt_side(crate::json::entry_views_of(entries@), key@),
{
    match get_json(entries, key) {
        None => Some(None),
        Some(Json::Null) => Some(None),
        Some(Json::Str(s)) => {
            if str_eq(s.as_str(), "Ask") {
                Some(Some(OrderSide::Ask))
            } else if str_eq(s.as_str(), "Bid") {
                Some(Some(OrderSide::Bid))
            } else {
                None
            }
        },
        Some(_) => None,
    }
}

} // verus!

use crate::data::{
    IndexValue, IndexValueV, KolliderTaggedMsg, KolliderTaggedMsgV, OpenOrder, OpenOrderV,
    OrderBookLevel2, OrderBookLevel2V, Position, PositionV, UpdateType,
};
use crate::json::entry_views_of;

verus! {

/// Payload of an `index_values` frame.
pub open spec fn sp_index_value(j: JsonV) -> Option<IndexValueV> {
    match j {
        JsonV::Obj(e) => if sp_get_str(e, "denom"@) is Some && sp_get_str(e, "symbol"@) is Some
            && sp_get_num(e, "value"@) is Some {
            Some(
                IndexValueV {
                    denom: sp_get_str(e, "denom"@)->0,
                    symbol: sp_get_str(e, "symbol"@)->0,
                    value: sp_get_num(e, "value"@)->0,
                },
            )
        } else {
            None
        },
        _ => None,
    }
}

fn decode_index_value(d: &Json) -> (r: Option<IndexValue>)
    ensures
        match (r, sp_index_value(d@)) {
            (Some(v), Some(sv)) => v@ == sv,
            (None, None) => true,
            _ => false,
        },
{
    let entries = match d {
        Json::Obj(e) => e,
        _ => {
            return None;
        },
    };
    proof {
        crate::json::lemma_obj_view(*entries);
    }
    let denom = match get_string(entries, "denom") {
        Some(v) => v,
        None => {
            return None;
        },
    };
    let symbol = match get_string(entries, "symbol") {
        Some(v) => v,
        None => {
            return None;
        },
    };
    let value = match get_num(entries, "value") {
        Some(v) => v,
        None => {
            return None;
        },
    };
    Some(IndexValue { denom, symbol, value })
}

/// Payload of a `level2state` frame.
pub open spec fn sp_level2(j: JsonV) -> Option<OrderBookLevel2V> {
    match j {
        JsonV::Obj(e) => {
            let ut = match sp_get_str(e, "update_type"@) {
                Some(s) => if s == "delta"@ {
                    Some(UpdateType::Delta)
                } else if s == "snapshot"@ {
                    Some(UpdateType::Snapshot)
                } else {
                    None
                },
                None => None,
            };
            if sp_get_u64_entries(e, "asks"@) is Some && sp_get_u64_entries(e, "bids"@) is Some
                && sp_get_u64(e, "seq_number"@) is Some && sp_get_str(e, "symbol"@) is Some
                && ut is Some {
                Some(
                    OrderBookLevel2V {
                        asks: sp_get_u64_entries(e, "asks"@)->0,
                        bids: sp_get_u64_entries(e, "bids"@)->0,
                        seq_number: sp_get_u64(e, "seq_number"@)->0,
                        symbol: sp_get_str(e, "symbol"@)->0,
                        update_type: ut->0,
                    },
                )
            } else {
                None
            }
        },
        _ => None,
    }
}

fn decode_level2(d: &Json) -> (r: Option<OrderBookLevel2>)
    ensures
        match (r, sp_level2(d@)) {
            (Some(v), Some(sv)) => v@ == sv,
            (None, None) => true,
            _ => false,
        },
{
    let entries = match d {
        Json::Obj(e) => e,
        _ => {
            return None;
        },
    };
    proof {
        crate::json::lemma_obj_view(*entries);
    }
    let asks = match get_u64_entries(entries, "asks") {
        Some(v) => v,
        None => {
            return None;
        },
    };
    let bids = match get_u64_entries(entries, "bids") {
        Some(v) => v,
        None => {
            return None;
        },
    };
    let seq_number = match get_u64(entries, "seq_number") {
        Some(v) => v,
        None => {
            return None;
        },
    };
    let symbol = match get_string(entries, "symbol") {
        Some(v) => v,
        None => {
            return None;
        },
    };
    let update_type = match get_string(entries, "update_type") {
        Some(s) => {
            if str_eq(s.as_str(), "delta") {
                UpdateType::Delta
            } else if str_eq(s.as_str(), "snapshot") {
                UpdateType::Snapshot
            } else {
                return None;
            }
        },
        None => {
            return None;
        },
    };
    Some(OrderBookLevel2 { asks, bids, seq_number, symbol, update_type })
}

/// Payload of a `received` frame.
pub open spec fn sp_received(j: JsonV) -> Option<KolliderTaggedMsgV> {
    match j {
        JsonV::Obj(e) => if sp_get_u64(e, "uid"@) is Some && sp_get_u64(e, "order_id"@) is Some
            && sp_get_u64(e, "price"@) is Some && sp_get_u64(e, "quantity"@) is Some && sp_get_str(
            e,
            "symbol"@,
        ) is Some && sp_get_u64(e, "leverage"@) is Some && sp_get_order_type(e, "order_type"@)
            is Some && sp_get_str(e, "ext_order_id"@) is Some && sp_get_u64(e, "timestamp"@)
            is Some {
            Some(
                KolliderTaggedMsgV::Received {
                    uid: sp_get_u64(e, "uid"@)->0,
                    order_id: sp_get_u64(e, "order_id"@)->0,
                    price: sp_get_u64(e, "price"@)->0,
                    quantity: sp_get_u64(e, "quantity"@)->0,
                    symbol: sp_get_str(e, "symbol"@)->0,
                    leverage: sp_get_u64(e, "leverage"@)->0,
                    order_type: sp_get_order_type(e, "order_type"@)->0,
                    ext_order_id: sp_get_str(e, "ext_order_id"@)->0,
                    timestamp: sp_get_u64(e, "timestamp"@)->0,
                },
            )
        } else {
            None
        },
        _ => None,
    }
}

fn decode_received(d: &Json) -> (r: Option<KolliderTaggedMsg>)
    ensures
        match (r, sp_received(d@)) {
            (Some(v), Some(sv)) => v@ == sv,
            (None, None) => true,
            _ => false,
        },
{
    let entries = match d {
        Json::Obj(e) => e,
        _ => {
            return None;
        },
    };
    proof {
        crate::json::lemma_obj_view(*entries);
    }
    let uid = match get_u64(entries, "uid") {
        Some(v) => v,
        None => {
            return None;
        },
    };
    let order_id = match get_u64(entries, "order_id") {
        Some(v) => v,
        None => {
            return None;
        },
    };
    let price = match get_u64(entries, "price") {
        Some(v) => v,
        None => {
            return None;
        },
    };
    let quantity = match get_u64(entries, "quantity") {
        Some(v) => v,
        None => {
            return None;
        },
    };
    let symbol = match get_string(entries, "symbol") {
        Some(v) => v,
        None => {
            return None;
        },
    };
    let leverage = match get_u64(entries, "leverage") {
        Some(v) => v,
        None => {
            return None;
        },
    };
    let order_type = match get_order_type(entries, "order_type") {
        Some(v) => v,
        None => {
            return None;
        },
    };
    let ext_order_id = match get_string(entries, "ext_order_id") {
        Some(v) => v,
        None => {
            return None;
        },
    };
    let timestamp = match get_u64(entries, "timestamp") {
        Some(v) => v,
        None => {
            return None;
        },
    };
    Some(
        KolliderTaggedMsg::Received {
            uid,
            order_id,
            price,
            quantity,
            symbol,
            leverage,
            order_type,
            ext_order_id,
            timestamp,
        },
    )
}

/// Payload of a `balances` frame.
pub open spec fn sp_balances(j: JsonV) -> Option<KolliderTaggedMsgV> {
    match j {
        JsonV::Obj(e) => if sp_get_num(e, "cash"@) is Some && sp_get_num(e, "cross_margin"@)
            is Some && sp_get_num_entries(e, "isolated_margin"@) is Some && sp_get_num_entries(
            e,
            "order_margin"@,
        ) is Some {
            Some(
                KolliderTaggedMsgV::Balances {
                    cash: sp_get_num(e, "cash"@)->0,
                    cross_margin: sp_get_num(e, "cross_margin"@)->0,
                    isolated_margin: sp_get_num_entries(e, "isolated_margin"@)->0,
                    order_margin: sp_get_num_entries(e, "order_margin"@)->0,
                },
            )
        } else {
            None
        },
        _ => None,
    }
}

fn decode_balances(d: &Json) -> (r: Option<KolliderTaggedMsg>)
    ensures
        match (r, sp_balances(d@)) {
            (Some(v), Some(sv)) => v@ == sv,
            (None, None) => true,
            _ => false,
        },
{
    let entries = match d {
        Json::Obj(e) => e,
        _ => {
            return None;
        },
    };
    proof {
        crate::json::lemma_obj_view(*entries);
    }
    let cash = match get_num(entries, "cash") {
        Some(v) => v,
        None => {
            return None;
        },
    };
    let cross_margin = match get_num(entries, "cross_margin") {
        Some(v) => v,
        None => {
            return None;
        },
    };
    let isolated_margin = match get_num_entries(entries, "isolated_margin") {
        Some(v) => v,
        None => {
            return None;
        },
    };
    let order_margin = match get_num_entries(entries, "order_margin") {
        Some(v) => v,
        None => {
            return None;
        },
    };
    Some(KolliderTaggedMsg::Balances { cash, cross_margin, isolated_margin, order_margin })
}

/// Payload of an `open` frame.
pub open spec fn sp_open(j: JsonV) -> Option<KolliderTaggedMsgV> {
    match j {
        JsonV::Obj(e) => if sp_get_u64(e, "order_id"@) is Some && sp_get_u64(e, "price"@) is Some
            && sp_get_u64(e, "quantity"@) is Some && sp_get_str(e, "symbol"@) is Some && sp_get_u64(
            e,
            "leverage"@,
        ) is Some && sp_get_side(e, "side"@) is Some && sp_get_margin(e, "margin_type"@) is Some
            && sp_get_order_type(e, "order_type"@) is Some && sp_get_settlement(
            e,
            "settlement_type"@,
        ) is Some && sp_get_str(e, "ext_order_id"@) is Some && sp_get_u64(e, "timestamp"@) is Some
            && sp_get_u64(e, "filled"@) is Some {
            Some(
                KolliderTaggedMsgV::Open {
                    order_id: sp_get_u64(e, "order_id"@)->0,
                    price: sp_get_u64(e, "price"@)->0,
                    quantity: sp_get_u64(e, "quantity"@)->0,
                    symbol: sp_get_str(e, "symbol"@)->0,
                    leverage: sp_get_u64(e, "leverage"@)->0,
                    side: sp_get_side(e, "side"@)->0,
                    margin_type: sp_get_margin(e, "margin_type"@)->0,
                    order_type: sp_get_order_type(e, "order_type"@)->0,
                    settlement_type: sp_get_settlement(e, "settlement_type"@)->0,
                    ext_order_id: sp_get_str(e, "ext_order_id"@)->0,
                    timestamp: sp_get_u64(e, "timestamp"@)->0,
                    filled: sp_get_u64(e, "filled"@)->0,
                },
            )
        } else {
            None
        },
        _ => None,
    }
}

fn decode_open(d: &Json) -> (r: Option<KolliderTaggedMsg>)
    ensures
        match (r, sp_open(d@)) {
            (Some(v), Some(sv)) => v@ == sv,
            (None, None) => true,
            _ => false,
        },
{
    let entries = match d {
        Json::Obj(e) => e,
        _ => {
            return None;
        },
    };
    proof {
        crate::json::lemma_obj_view(*entries);
    }
    let order_id = match get_u64(entries, "order_id") {
        Some(v) => v,
        None => {
            return None;
        },
    };
    let price = match get_u64(entries, "price") {
        Some(v) => v,
        None => {
            return None;
        },
    };
    let quantity = match get_u64(entries, "quantity") {
        Some(v) => v,
        None => {
            return None;
        },
    };
    let symbol = match get_string(entries, "symbol") {
        Some(v) => v,
        None => {
            return None;
        },
    };
    let leverage = match get_u64(entries, "leverage") {
        Some(v) => v,
        None => {
            return None;
        },
    };
    let side = match get_side(entries, "side") {
        Some(v) => v,
        None => {
            return None;
        },
    };
    let margin_type = match get_margin(entries, "margin_type") {
        Some(v) => v,
        None => {
            return None;
        },
    };
    let order_type = match get_order_type(entries, "order_type") {
        Some(v) => v,
        None => {
            return None;
        },
    };
    let settlement_type = match get_settlement(entries, "settlement_type") {
        Some(v) => v,
        None => {
            return None;
        },
    };
    let ext_order_id = match get_string(entries, "ext_order_id") {
        Some(v) => v,
        None => {
            return None;
        },
    };
    let timestamp = match get_u64(entries, "timestamp") {
        Some(v) => v,
        None => {
            return None;
        },
    };
    let filled = match get_u64(entries, "filled") {
        Some(v) => v,
        None => {
            return None;
        },
    };
    Some(
        KolliderTaggedMsg::Open {
            order_id,
            price,
            quantity,
            symbol,
            leverage,
            side,
            margin_type,
            order_type,
            settlement_type,
            ext_order_id,
            timestamp,
            filled,
        },
    )
}

} // verus!

verus! {

/// One resting order inside an `open_orders` reply.
pub open spec fn sp_open_order(j: JsonV) -> Option<OpenOrderV> {
    match j {
        JsonV::Obj(e) => if sp_get_str(e, "ext_order_id"@) is Some && sp_get_u64(e, "filled"@)
            is Some && sp_get_u64(e, "leverage"@) is Some && sp_get_margin(e, "margin_type"@)
            is Some && sp_get_u64(e, "order_id"@) is Some && sp_get_order_type(e, "order_type"@)
            is Some && sp_get_u64(e, "price"@) is Some && sp_get_u64(e, "quantity"@) is Some
            && sp_get_settlement(e, "settlement_type"@) is Some && sp_get_side(e, "side"@) is Some
            && sp_get_str(e, "symbol"@) is Some && sp_get_u64(e, "timestamp"@) is Some
            && sp_get_u64(e, "uid"@) is Some {
            Some(
                OpenOrderV {
                    ext_order_id: sp_get_str(e, "ext_order_id"@)->0,
                    filled: sp_get_u64(e, "filled"@)->0,
                    leverage: sp_get_u64(e, "leverage"@)->0,
                    margin_type: sp_get_margin(e, "margin_type"@)->0,
                    order_id: sp_get_u64(e, "order_id"@)->0,
                    order_type: sp_get_order_type(e, "order_type"@)->0,
                    price: sp_get_u64(e, "price"@)->0,
                    quantity: sp_get_u64(e, "quantity"@)->0,
                    settlement_type: sp_get_settlement(e, "settlement_type"@)->0,
                    side: sp_get_side(e, "side"@)->0,
                    symbol: sp_get_str(e, "symbol"@)->0,
                    timestamp: sp_get_u64(e, "timestamp"@)->0,
                    uid: sp_get_u64(e, "uid"@)->0,
                },
            )
        } else {
            None
        },
        _ => None,
    }
}

fn decode_open_order(d: &Json) -> (r: Option<OpenOrder>)
    ensures
        match (r, sp_open_order(d@)) {
            (Some(v), Some(sv)) => v@ == sv,
            (None, None) => true,
            _ => false,
        },
{
    let entries = match d {
        Json::Obj(e) => e,
        _ => {
            return None;
        },
    };
    proof {
        crate::json::lemma_obj_view(*entries);
    }
    let ext_order_id = match get_string(entries, "ext_order_id") {
        Some(v) => v,
        None => {
            return None;
        },
    };
    let filled = match get_u64(entries, "filled") {
        Some(v) => v,
        None => {
            return None;
        },
    };
    let leverage = match get_u64(entries, "leverage") {
        Some(v) => v,
        None => {
            return None;
        },
    };
    let margin_type = match get_margin(entries, "margin_type") {
        Some(v) => v,
        None => {
            return None;
        },
    };
    let order_id = match get_u64(entries, "order_id") {
        Some(v) => v,
        None => {
            return None;
        },
    };
    let order_type = match get_order_type(entries, "order_type") {
        Some(v) => v,
        None => {
            return None;
        },
    };
    let price = match get_u64(entries, "price") {
        Some(v) => v,
        None => {
            return None;
        },
    };
    let quantity = match get_u64(entries, "quantity") {
        Some(v) => v,
        None => {
            return None;
        },
    };
    let settlement_type = match get_settlement(entries, "settlement_type") {
        Some(v) => v,
        None => {
            return None;
        },
    };
    let side = match get_side(entries, "side") {
        Some(v) => v,
        None => {
            return None;
        },
    };
    let symbol = match get_string(entries, "symbol") {
        Some(v) => v,
        None => {
            return None;
        },
    };
    let timestamp = match get_u64(entries, "timestamp") {
        Some(v) => v,
        None => {
            return None;
        },
    };
    let uid = match get_u64(entries, "uid") {
        Some(v) => v,
        None => {
            return None;
        },
    };
    Some(
        OpenOrder {
            ext_order_id,
            filled,
            leverage,
            margin_type,
            order_id,
            order_type,
            price,
            quantity,
            settlement_type,
            side,
            symbol,
            timestamp,
            uid,
        },
    )
}

/// Elements of an order array, scanning from `i`.
pub open spec fn sp_oo_list_from(items: Seq<JsonV>, i: int) -> Option<Seq<OpenOrderV>>
    decreases items.len() - i,
    when 0 <= i
{
    if i >= items.len() {
        Some(Seq::empty())
    } else {
        match sp_open_order(items[i]) {
            Some(o) => match sp_oo_list_from(items, i + 1) {
                Some(rest) => Some(seq![o] + rest),
                None => None,
            },
            None => None,
        }
    }
}

fn oo_list_from(items: &Vec<Json>, i: usize) -> (r: Option<Vec<OpenOrder>>)
    requires
        i <= items@.len(),
    ensures
        match (r, sp_oo_list_from(crate::json::views_of(items@), i as int)) {
            (Some(v), Some(sv)) => crate::data::open_orders_view(v@) == sv,
            (None, None) => true,
            _ => false,
        },
    decreases items@.len() - i,
{
    if i >= items.len() {
        let out: Vec<OpenOrder> = Vec::new();
        proof {
            assert(crate::data::open_orders_view(out@) =~= Seq::<OpenOrderV>::empty());
        }
        return Some(out);
    }
    match decode_open_order(&items[i]) {
        Some(o) => match oo_list_from(items, i + 1) {
            Some(mut rest) => {
                let ghost ov = o@;
                rest.insert(0, o);
                proof {
                    let ghost jv = crate::json::views_of(items@);
                    assert(crate::data::open_orders_view(rest@) =~= seq![ov] + sp_oo_list_from(
                        jv,
                        i + 1,
                    ).unwrap());
                }
                Some(rest)
            },
            None => None,
        },
        None => None,
    }
}

/// Entries of a `symbol: [order]` object, scanning from `i`.
pub open spec fn sp_oo_entries_from(o: Seq<(Seq<char>, JsonV)>, i: int) -> Option<
    Seq<(Seq<char>, Seq<OpenOrderV>)>,
>
    decreases o.len() - i,
    when 0 <= i
{
    if i >= o.len() {
        Some(Seq::empty())
    } else {
        match o[i].1 {
            JsonV::Arr(items) => match sp_oo_list_from(items, 0) {
                Some(list) => match sp_oo_entries_from(o, i + 1) {
                    Some(rest) => Some(seq![(o[i].0, list)] + rest),
                    None => None,
                },
                None => None,
            },
            _ => None,
        }
    }
}

fn oo_entries_from(entries: &Vec<(String, Json)>, i: usize) -> (r: Option<
    Vec<(String, Vec<OpenOrder>)>,
>)
    requires
        i <= entries@.len(),
    ensures
        match (r, sp_oo_entries_from(crate::json::entry_views_of(entries@), i as int)) {
            (Some(v), Some(sv)) => crate::data::open_order_entries_view(v@) == sv,
            (None, None) => true,
            _ => false,
        },
    decreases entries@.len() - i,
{
    if i >= entries.len() {
        let out: Vec<(String, Vec<OpenOrder>)> = Vec::new();
        proof {
            assert(crate::data::open_order_entries_view(out@) =~= Seq::<
                (Seq<char>, Seq<OpenOrderV>),
            >::empty());
        }
        return Some(out);
    }
    let list: Vec<OpenOrder> = match &entries[i].1 {
        Json::Arr(items) => {
            proof {
                crate::json::lemma_arr_view(*items);
            }
            match oo_list_from(items, 0) {
                Some(v) => v,
                None => {
                    return None;
                },
            }
        },
        _ => {
            return None;
        },
    };
    match oo_entries_from(entries, i + 1) {
        Some(mut rest) => {
            let ghost lv = crate::data::open_orders_view(list@);
            rest.insert(0, (entries[i].0.clone(), list));
            proof {
                let ghost ev = crate::json::entry_views_of(entries@);
                assert(crate::data::open_order_entries_view(rest@) =~= seq![(ev[i as int].0, lv)]
                    + sp_oo_entries_from(ev, i + 1).unwrap());
            }
            Some(rest)
        },
        None => None,
    }
}

/// One position inside a `positions` reply.
pub open spec fn sp_position(j: JsonV) -> Option<PositionV> {
    match j {
        JsonV::Obj(e) => if sp_get_num(e, "adl_score"@) is Some && sp_get_num(
            e,
            "bankruptcy_price"@,
        ) is Some && sp_get_num(e, "entry_price"@) is Some && sp_get_opt_u64(e, "entry_time"@)
            is Some && sp_get_num(e, "entry_value"@) is Some && sp_get_num(e, "funding"@) is Some
            && sp_get_bool(e, "is_liquidating"@) is Some && sp_get_num(e, "leverage"@) is Some
            && sp_get_num(e, "liq_price"@) is Some && sp_get_num(e, "mark_value"@) is Some
            && sp_get_u64_list(e, "open_order_ids"@) is Some && sp_get_str(e, "position_id"@)
            is Some && sp_get_num(e, "quantity"@) is Some && sp_get_num(e, "real_leverage"@)
            is Some && sp_get_num(e, "rpnl"@) is Some && sp_get_opt_side(e, "side"@) is Some
            && sp_get_str(e, "symbol"@) is Some && sp_get_u64(e, "timestamp"@) is Some
            && sp_get_u64(e, "uid"@) is Some && sp_get_num(e, "upnl"@) is Some {
            Some(
                PositionV {
                    adl_score: sp_get_num(e, "adl_score"@)->0,
                    bankruptcy_price: sp_get_num(e, "bankruptcy_price"@)->0,
                    entry_price: sp_get_num(e, "entry_price"@)->0,
                    entry_time: sp_get_opt_u64(e, "entry_time"@)->0,
                    entry_value: sp_get_num(e, "entry_value"@)->0,
                    funding: sp_get_num(e, "funding"@)->0,
                    is_liquidating: sp_get_bool(e, "is_liquidating"@)->0,
                    leverage: sp_get_num(e, "leverage"@)->0,
                    liq_price: sp_get_num(e, "liq_price"@)->0,
                    mark_value: sp_get_num(e, "mark_value"@)->0,
                    open_order_ids: sp_get_u64_list(e, "open_order_ids"@)->0,
                    position_id: sp_get_str(e, "position_id"@)->0,
                    quantity: sp_get_num(e, "quantity"@)->0,
                    real_leverage: sp_get_num(e, "real_leverage"@)->0,
                    rpnl: sp_get_num(e, "rpnl"@)->0,
                    side: sp_get_opt_side(e, "side"@)->0,
                    symbol: sp_get_str(e, "symbol"@)->0,
                    timestamp: sp_get_u64(e, "timestamp"@)->0,
                    uid: sp_get_u64(e, "uid"@)->0,
                    upnl: sp_get_num(e, "upnl"@)->0,
                },
            )
        } else {
            None
        },
        _ => None,
    }
}

fn decode_position(d: &Json) -> (r: Option<Position>)
    ensures
        match (r, sp_position(d@)) {
            (Some(v), Some(sv)) => v@ == sv,
            (None, None) => true,
            _ => false,
        },
{
    let entries = match d {
        Json::Obj(e) => e,
        _ => {
            return None;
        },
    };
    proof {
        crate::json::lemma_obj_view(*entries);
    }
    let adl_score = match get_num(entries, "adl_score") {
        Some(v) => v,
        None => {
            return None;
        },
    };
    let bankruptcy_price = match get_num(entries, "bankruptcy_price") {
        Some(v) => v,
        None => {
            return None;
        },
    };
    let entry_price = match get_num(entries, "entry_price") {
        Some(v) => v,
        None => {
            return None;
        },
    };
    let entry_time = match get_opt_u64(entries, "entry_time") {
        Some(v) => v,
        None => {
            return None;
        },
    };
    let entry_value = match get_num(entries, "entry_value") {
        Some(v) => v,
        None => {
            return None;
        },
    };
    let funding = match get_num(entries, "funding") {
        Some(v) => v,
        None => {
            return None;
        },
    };
    let is_liquidating = match get_bool(entries, "is_liquidating") {
        Some(v) => v,
        None => {
            return None;
        },
    };
    let leverage = match get_num(entries, "leverage") {
        Some(v) => v,
        None => {
            return None;
        },
    };
    let liq_price = match get_num(entries, "liq_price") {
        Some(v) => v,
        None => {
            return None;
        },
    };
    let mark_value = match get_num(entries, "mark_value") {
        Some(v) => v,
        None => {
            return None;
        },
    };
    let open_order_ids = match get_u64_list(entries, "open_order_ids") {
        Some(v) => v,
        None => {
            return None;
        },
    };
    let position_id = match get_string(entries, "position_id") {
        Some(v) => v,
        None => {
            return None;
        },
    };
    let quantity = match get_num(entries, "quantity") {
        Some(v) => v,
        None => {
            return None;
        },
    };
    let real_leverage = match get_num(entries, "real_leverage") {
        Some(v) => v,
        None => {
            return None;
        },
    };
    let rpnl = match get_num(entries, "rpnl") {
        Some(v) => v,
        None => {
            return None;
        },
    };
    let side = match get_opt_side(entries, "side") {
        Some(v) => v,
        None => {
            return None;
        },
    };
    let symbol = match get_string(entries, "symbol") {
        Some(v) => v,
        None => {
            return None;
        },
    };
    let timestamp = match get_u64(entries, "timestamp") {
        Some(v) => v,
        None => {
            return None;
        },
    };
    let uid = match get_u64(entries, "uid") {
        Some(v) => v,
        None => {
            return None;
        },
    };
    let upnl = match get_num(entries, "upnl") {
        Some(v) => v,
        None => {
            return None;
        },
    };
    Some(
        Position {
            adl_score,
            bankruptcy_price,
            entry_price,
            entry_time,
            entry_value,
            funding,
            is_liquidating,
            leverage,
            liq_price,
            mark_value,
            open_order_ids,
            position_id,
            quantity,
            real_leverage,
            rpnl,
            side,
            symbol,
            timestamp,
            uid,
            upnl,
        },
    )
}

/// Entries of a `symbol: position` object, scanning from `i`.
pub open spec fn sp_pos_entries_from(o: Seq<(Seq<char>, JsonV)>, i: int) -> Option<
    Seq<(Seq<char>, PositionV)>,
>
    decreases o.len() - i,
    when 0 <= i
{
    if i >= o.len() {
        Some(Seq::empty())
    } else {
        match sp_position(o[i].1) {
            Some(p) => match sp_pos_entries_from(o, i + 1) {
                Some(rest) => Some(seq![(o[i].0, p)] + rest),
                None => None,
            },
            None => None,
        }
    }
}

fn pos_entries_from(entries: &Vec<(String, Json)>, i: usize) -> (r: Option<
    Vec<(String, Position)>,
>)
    requires
        i <= entries@.len(),
    ensures
        match (r, sp_pos_entries_from(crate::json::entry_views_of(entries@), i as int)) {
            (Some(v), Some(sv)) => crate::data::position_entries_view(v@) == sv,
            (None, None) => true,
            _ => false,
        },
    decreases entries@.len() - i,
{
    if i >= entries.len() {
        let out: Vec<(String, Position)> = Vec::new();
        proof {
            assert(crate::data::position_entries_view(out@) =~= Seq::<
                (Seq<char>, PositionV),
            >::empty());
        }
        return Some(out);
    }
    match decode_position(&entries[i].1) {
        Some(p) => match pos_entries_from(entries, i + 1) {
            Some(mut rest) => {
                let ghost pv = p@;
                rest.insert(0, (entries[i].0.clone(), p));
                proof {
                    let ghost ev = crate::json::entry_views_of(entries@);
                    assert(crate::data::position_entries_view(rest@) =~= seq![(ev[i as int].0, pv)]
                        + sp_pos_entries_from(ev, i + 1).unwrap());
                }
                Some(rest)
            },
            None => None,
        },
        None => None,
    }
}

} // verus!

verus! {

/// Payload of a `done` frame.
pub open spec fn sp_done(j: JsonV) -> Option<KolliderTaggedMsgV> {
    match j {
        JsonV::Obj(e) => if sp_get_order_type(e, "orde_type"@) is Some && sp_get_u64(
            e,
            "order_id"@,
        ) is Some && sp_get_str(e, "reason"@) is Some && sp_get_str(e, "symbol"@) is Some
            && sp_get_u64(e, "timestamp"@) is Some {
            Some(
                KolliderTaggedMsgV::Done {
                    orde_type: sp_get_order_type(e, "orde_type"@)->0,
                    order_id: sp_get_u64(e, "order_id"@)->0,
                    reason: sp_get_str(e, "reason"@)->0,
                    symbol: sp_get_str(e, "symbol"@)->0,
                    timestamp: sp_get_u64(e, "timestamp"@)->0,
                },
            )
        } else {
            None
        },
        _ => None,
    }
}

fn decode_done(d: &Json) -> (r: Option<KolliderTaggedMsg>)
    ensures
        match (r, sp_done(d@)) {
            (Some(v), Some(sv)) => v@ == sv,
            (None, None) => true,
            _ => false,
        },
{
    let entries = match d {
        Json::Obj(e) => e,
        _ => {
            return None;
        },
    };
    proof {
        crate::json::lemma_obj_view(*entries);
    }
    let orde_type = match get_order_type(entries, "orde_type") {
        Some(v) => v,
        None => {
            return None;
        },
    };
    let order_id = match get_u64(entries, "order_id") {
        Some(v) => v,
        None => {
            return None;
        },
    };
    let reason = match get_string(entries, "reason") {
        Some(v) => v,
        None => {
            return None;
        },
    };
    let symbol = match get_string(entries, "symbol") {
        Some(v) => v,
        None => {
            return None;
        },
    };
    let timestamp = match get_u64(entries, "timestamp") {
        Some(v) => v,
        None => {
            return None;
        },
    };
    Some(KolliderTaggedMsg::Done { orde_type, order_id, reason, symbol, timestamp })
}

/// Payload of an `order_not_found` frame.
pub open spec fn sp_order_not_found(j: JsonV) -> Option<KolliderTaggedMsgV> {
    match j {
        JsonV::Obj(e) => if sp_get_u64(e, "order_id"@) is Some && sp_get_str(e, "symbol"@)
            is Some {
            Some(
                KolliderTaggedMsgV::OrderNotFound {
                    order_id: sp_get_u64(e, "order_id"@)->0,
                    symbol: sp_get_str(e, "symbol"@)->0,
                },
            )
        } else {
            None
        },
        _ => None,
    }
}

fn decode_order_not_found(d: &Json) -> (r: Option<KolliderTaggedMsg>)
    ensures
        match (r, sp_order_not_found(d@)) {
            (Some(v), Some(sv)) => v@ == sv,
            (None, None) => true,
            _ => false,
        },
{
    let entries = match d {
        Json::Obj(e) => e,
        _ => {
            return None;
        },
    };
    proof {
        crate::json::lemma_obj_view(*entries);
    }
    let order_id = match get_u64(entries, "order_id") {
        Some(v) => v,
        None => {
            return None;
        },
    };
    let symbol = match get_string(entries, "symbol") {
        Some(v) => v,
        None => {
            return None;
        },
    };
    Some(KolliderTaggedMsg::OrderNotFound { order_id, symbol })
}

/// Payload of a `fill` frame.
pub open spec fn sp_fill(j: JsonV) -> Option<KolliderTaggedMsgV> {
    match j {
        JsonV::Obj(e) => if sp_get_str(e, "ext_order_id"@) is Some && sp_get_bool(e, "is_maker"@)
            is Some && sp_get_bool(e, "is_selftrade"@) is Some && sp_get_u64(e, "leverage"@)
            is Some && sp_get_margin(e, "margin_type"@) is Some && sp_get_u64(e, "order_id"@)
            is Some && sp_get_bool(e, "partial"@) is Some && sp_get_u64(e, "price"@) is Some
            && sp_get_u64(e, "quantity"@) is Some && sp_get_side(e, "side"@) is Some && sp_get_str(
            e,
            "symbol"@,
        ) is Some && sp_get_u64(e, "user_id"@) is Some {
            Some(
                KolliderTaggedMsgV::Fill {
                    ext_order_id: sp_get_str(e, "ext_order_id"@)->0,
                    is_maker: sp_get_bool(e, "is_maker"@)->0,
                    is_selftrade: sp_get_bool(e, "is_selftrade"@)->0,
                    leverage: sp_get_u64(e, "leverage"@)->0,
                    margin_type: sp_get_margin(e, "margin_type"@)->0,
                    order_id: sp_get_u64(e, "order_id"@)->0,
                    partial: sp_get_bool(e, "partial"@)->0,
                    price: sp_get_u64(e, "price"@)->0,
                    quantity: sp_get_u64(e, "quantity"@)->0,
                    side: sp_get_side(e, "side"@)->0,
                    symbol: sp_get_str(e, "symbol"@)->0,
                    user_id: sp_get_u64(e, "user_id"@)->0,
                },
            )
        } else {
            None
        },
        _ => None,
    }
}

fn decode_fill(d: &Json) -> (r: Option<KolliderTaggedMsg>)
    ensures
        match (r, sp_fill(d@)) {
            (Some(v), Some(sv)) => v@ == sv,
            (None, None) => true,
            _ => false,
        },
{
    let entries = match d {
        Json::Obj(e) => e,
        _ => {
            return None;
        },
    };
    proof {
        crate::json::lemma_obj_view(*entries);
    }
    let ext_order_id = match get_string(entries, "ext_order_id") {
        Some(v) => v,
        None => {
            return None;
        },
    };
    let is_maker = match get_bool(entries, "is_maker") {
        Some(v) => v,
        None => {
            return None;
        },
    };
    let is_selftrade = match get_bool(entries, "is_selftrade") {
        Some(v) => v,
        None => {
            return None;
        },
    };
    let leverage = match get_u64(entries, "leverage") {
        Some(v) => v,
        None => {
            return None;
        },
    };
    let margin_type = match get_margin(entries, "margin_type") {
        Some(v) => v,
        None => {
            return None;
        },
    };
    let order_id = match get_u64(entries, "order_id") {
        Some(v) => v,
        None => {
            return None;
        },
    };
    let partial = match get_bool(entries, "partial") {
        Some(v) => v,
        None => {
            return None;
        },
    };
    let price = match get_u64(entries, "price") {
        Some(v) => v,
        None => {
            return None;
        },
    };
    let quantity = match get_u64(entries, "quantity") {
        Some(v) => v,
        None => {
            return None;
        },
    };
    let side = match get_side(entries, "side") {
        Some(v) => v,
        None => {
            return None;
        },
    };
    let symbol = match get_string(entries, "symbol") {
        Some(v) => v,
        None => {
            return None;
        },
    };
    let user_id = match get_u64(entries, "user_id") {
        Some(v) => v,
        None => {
            return None;
        },
    };
    Some(
        KolliderTaggedMsg::Fill {
            ext_order_id,
            is_maker,
            is_selftrade,
            leverage,
            margin_type,
            order_id,
            partial,
            price,
            quantity,
            side,
            symbol,
            user_id,
        },
    )
}

/// Payload of a `trade` frame.
pub open spec fn sp_trade(j: JsonV) -> Option<KolliderTaggedMsgV> {
    match j {
        JsonV::Obj(e) => if sp_get_num(e, "fees"@) is Some && sp_get_bool(e, "is_liquidation"@)
            is Some && sp_get_bool(e, "is_maker"@) is Some && sp_get_num(e, "leverage"@) is Some
            && sp_get_margin(e, "margin_type"@) is Some && sp_get_u64(e, "order_id"@) is Some
            && sp_get_num(e, "price"@) is Some && sp_get_u64_flex(e, "quantity"@) is Some
            && sp_get_num(e, "rpnl"@) is Some && sp_get_settlement(e, "settlement_type"@) is Some
            && sp_get_side(e, "side"@) is Some && sp_get_str(e, "symbol"@) is Some && sp_get_u64(
            e,
            "timestamp"@,
        ) is Some {
            Some(
                KolliderTaggedMsgV::Trade {
                    fees: sp_get_num(e, "fees"@)->0,
                    is_liquidation: sp_get_bool(e, "is_liquidation"@)->0,
                    is_maker: sp_get_bool(e, "is_maker"@)->0,
                    leverage: sp_get_num(e, "leverage"@)->0,
                    margin_type: sp_get_margin(e, "margin_type"@)->0,
                    order_id: sp_get_u64(e, "order_id"@)->0,
                    price: sp_get_num(e, "price"@)->0,
                    quantity: sp_get_u64_flex(e, "quantity"@)->0,
                    rpnl: sp_get_num(e, "rpnl"@)->0,
                    settlement_type: sp_get_settlement(e, "settlement_type"@)->0,
                    side: sp_get_side(e, "side"@)->0,
                    symbol: sp_get_str(e, "symbol"@)->0,
                    timestamp: sp_get_u64(e, "timestamp"@)->0,
                },
            )
        } else {
            None
        },
        _ => None,
    }
}

fn decode_trade(d: &Json) -> (r: Option<KolliderTaggedMsg>)
    ensures
        match (r, sp_trade(d@)) {
            (Some(v), Some(sv)) => v@ == sv,
            (None, None) => true,
            _ => false,
        },
{
    let entries = match d {
        Json::Obj(e) => e,
        _ => {
            return None;
        },
    };
    proof {
        crate::json::lemma_obj_view(*entries);
    }
    let fees = match get_num(entries, "fees") {
        Some(v) => v,
        None => {
            return None;
        },
    };
    let is_liquidation = match get_bool(entries, "is_liquidation") {
        Some(v) => v,
        None => {
            return None;
        },
    };
    let is_maker = match get_bool(entries, "is_maker") {
        Some(v) => v,
        None => {
            return None;
        },
    };
    let leverage = match get_num(entries, "leverage") {
        Some(v) => v,
        None => {
            return None;
        },
    };
    let margin_type = match get_margin(entries, "margin_type") {
        Some(v) => v,
        None => {
            return None;
        },
    };
    let order_id = match get_u64(entries, "order_id") {
        Some(v) => v,
        None => {
            return None;
        },
    };
    let price = match get_num(entries, "price") {
        Some(v) => v,
        None => {
            return None;
        },
    };
    let quantity = match get_u64_flex(entries, "quantity") {
        Some(v) => v,
        None => {
            return None;
        },
    };
    let rpnl = match get_num(entries, "rpnl") {
        Some(v) => v,
        None => {
            return None;
        },
    };
    let settlement_type = match get_settlement(entries, "settlement_type") {
        Some(v) => v,
        None => {
            return None;
        },
    };
    let side = match get_side(entries, "side") {
        Some(v) => v,
        None => {
            return None;
        },
    };
    let symbol = match get_string(entries, "symbol") {
        Some(v) => v,
        None => {
            return None;
        },
    };
    let timestamp = match get_u64(entries, "timestamp") {
        Some(v) => v,
        None => {
            return None;
        },
    };
    Some(
        KolliderTaggedMsg::Trade {
            fees,
            is_liquidation,
            is_maker,
            leverage,
            margin_type,
            order_id,
            price,
            quantity,
            rpnl,
            settlement_type,
            side,
            symbol,
            timestamp,
        },
    )
}

/// Payload of a `settlement_request` frame.
pub open spec fn sp_settlement_request(j: JsonV) -> Option<KolliderTaggedMsgV> {
    match j {
        JsonV::Obj(e) => if sp_get_u64_flex(e, "amount"@) is Some && sp_get_str(e, "lnurl"@)
            is Some && sp_get_str(e, "request_id"@) is Some && sp_get_side(e, "side"@) is Some
            && sp_get_str(e, "symbol"@) is Some {
            Some(
                KolliderTaggedMsgV::SettlementRequest {
                    amount: sp_get_u64_flex(e, "amount"@)->0,
                    lnurl: sp_get_str(e, "lnurl"@)->0,
                    request_id: sp_get_str(e, "request_id"@)->0,
                    side: sp_get_side(e, "side"@)->0,
                    symbol: sp_get_str(e, "symbol"@)->0,
                },
            )
        } else {
            None
        },
        _ => None,
    }
}

fn decode_settlement_request(d: &Json) -> (r: Option<KolliderTaggedMsg>)
    ensures
        match (r, sp_settlement_request(d@)) {
            (Some(v), Some(sv)) => v@ == sv,
            (None, None) => true,
            _ => false,
        },
{
    let entries = match d {
        Json::Obj(e) => e,
        _ => {
            return None;
        },
    };
    proof {
        crate::json::lemma_obj_view(*entries);
    }
    let amount = match get_u64_flex(entries, "amount") {
        Some(v) => v,
        None => {
            return None;
        },
    };
    let lnurl = match get_string(entries, "lnurl") {
        Some(v) => v,
        None => {
            return None;
        },
    };
    let request_id = match get_string(entries, "request_id") {
        Some(v) => v,
        None => {
            return None;
        },
    };
    let side = match get_side(entries, "side") {
        Some(v) => v,
        None => {
            return None;
        },
    };
    let symbol = match get_string(entries, "symbol") {
        Some(v) => v,
        None => {
            return None;
        },
    };
    Some(KolliderTaggedMsg::SettlementRequest { amount, lnurl, request_id, side, symbol })
}

/// Payload of a `change_leverage_info` frame.
pub open spec fn sp_change_leverage_info(j: JsonV) -> Option<KolliderTaggedMsgV> {
    match j {
        JsonV::Obj(e) => if sp_get_opt_str(e, "error"@) is Some && sp_get_opt_num(
            e,
            "liquidation_price"@,
        ) is Some && sp_get_num(e, "order_margin"@) is Some && sp_get_num(e, "position_margin"@)
            is Some && sp_get_str(e, "symbol"@) is Some {
            Some(
                KolliderTaggedMsgV::ChangeLeverageInfo {
                    error: sp_get_opt_str(e, "error"@)->0,
                    liquidation_price: sp_get_opt_num(e, "liquidation_price"@)->0,
                    order_margin: sp_get_num(e, "order_margin"@)->0,
                    position_margin: sp_get_num(e, "position_margin"@)->0,
                    symbol: sp_get_str(e, "symbol"@)->0,
                },
            )
        } else {
            None
        },
        _ => None,
    }
}

fn decode_change_leverage_info(d: &Json) -> (r: Option<KolliderTaggedMsg>)
    ensures
        match (r, sp_change_leverage_info(d@)) {
            (Some(v), Some(sv)) => v@ == sv,
            (None, None) => true,
            _ => false,
        },
{
    let entries = match d {
        Json::Obj(e) => e,
        _ => {
            return None;
        },
    };
    proof {
        crate::json::lemma_obj_view(*entries);
    }
    let error = match get_opt_string(entries, "error") {
        Some(v) => v,
        None => {
            return None;
        },
    };
    let liquidation_price = match get_opt_num(entries, "liquidation_price") {
        Some(v) => v,
        None => {
            return None;
        },
    };
    let order_margin = match get_num(entries, "order_margin") {
        Some(v) => v,
        None => {
            return None;
        },
    };
    let position_margin = match get_num(entries, "position_margin") {
        Some(v) => v,
        None => {
            return None;
        },
    };
    let symbol = match get_string(entries, "symbol") {
        Some(v) => v,
        None => {
            return None;
        },
    };
    Some(
        KolliderTaggedMsg::ChangeLeverageInfo {
            error,
            liquidation_price,
            order_margin,
            position_margin,
            symbol,
        },
    )
}

} // verus!

verus! {

/// Routing of a parsed object: `None` when the frame matches no known shape
/// (it stays whole as an unknown frame), `Some(Err(..))` when a known
/// discriminant carries an ill-formed payload, `Some(Ok(..))` otherwise.
///
/// The bare authentication control shape (a top-level `message`, no `data`
/// envelope) is tried before the enveloped domain shapes.
pub open spec fn sp_try_obj(e: Seq<(Seq<char>, JsonV)>) -> Option<
    Result<KolliderTaggedMsgV, DecodeError>,
> {
    match sp_get_str(e, "type"@) {
        Some(t) => if t == "authenticate"@ {
            match sp_get_str(e, "message"@) {
                Some(m) => Some(Ok(KolliderTaggedMsgV::Authenticate { message: m })),
                None => match sp_get(e, "data"@) {
                    Some(JsonV::Obj(d)) => match sp_get_str(d, "message"@) {
                        Some(m) => Some(Ok(KolliderTaggedMsgV::Authenticate { message: m })),
                        None => Some(Err(DecodeError::Payload)),
                    },
                    _ => Some(Err(DecodeError::Payload)),
                },
            }
        } else if t == "error"@ {
            match sp_get(e, "data"@) {
                Some(JsonV::Str(s)) => Some(Ok(KolliderTaggedMsgV::Error(s))),
                _ => Some(Err(DecodeError::Payload)),
            }
        } else if t == "success"@ {
            match sp_get(e, "data"@) {
                Some(JsonV::Str(s)) => Some(Ok(KolliderTaggedMsgV::Success(s))),
                _ => Some(Err(DecodeError::Payload)),
            }
        } else if t == "index_values"@ {
            match sp_get(e, "data"@) {
                Some(d) => match sp_index_value(d) {
                    Some(v) => Some(Ok(KolliderTaggedMsgV::IndexValues(v))),
                    None => Some(Err(DecodeError::Payload)),
                },
                None => Some(Err(DecodeError::Payload)),
            }
        } else if t == "level2state"@ {
            match sp_get(e, "data"@) {
                Some(d) => match sp_level2(d) {
                    Some(v) => Some(Ok(KolliderTaggedMsgV::OrderBookLevel2(v))),
                    None => Some(Err(DecodeError::Payload)),
                },
                None => Some(Err(DecodeError::Payload)),
            }
        } else if t == "received"@ {
            match sp_get(e, "data"@) {
                Some(d) => match sp_received(d) {
                    Some(v) => Some(Ok(v)),
                    None => Some(Err(DecodeError::Payload)),
                },
                None => Some(Err(DecodeError::Payload)),
            }
        } else if t == "balances"@ {
            match sp_get(e, "data"@) {
                Some(d) => match sp_balances(d) {
                    Some(v) => Some(Ok(v)),
                    None => Some(Err(DecodeError::Payload)),
                },
                None => Some(Err(DecodeError::Payload)),
            }
        } else if t == "open"@ {
            match sp_get(e, "data"@) {
                Some(d) => match sp_open(d) {
                    Some(v) => Some(Ok(v)),
                    None => Some(Err(DecodeError::Payload)),
                },
                None => Some(Err(DecodeError::Payload)),
            }
        } else if t == "user_advanced_orders"@ {
            match sp_get(e, "data"@) {
                Some(JsonV::Obj(_)) => Some(Ok(KolliderTaggedMsgV::AdvancedOrders)),
                _ => Some(Err(DecodeError::Payload)),
            }
        } else if t == "open_orders"@ {
            match sp_get(e, "data"@) {
                Some(JsonV::Obj(d)) => match sp_get(d, "open_orders"@) {
                    Some(JsonV::Obj(o)) => match sp_oo_entries_from(o, 0) {
                        Some(m) => Some(Ok(KolliderTaggedMsgV::OpenOrders { open_orders: m })),
                        None => Some(Err(DecodeError::Payload)),
                    },
                    _ => Some(Err(DecodeError::Payload)),
                },
                _ => Some(Err(DecodeError::Payload)),
            }
        } else if t == "positions"@ {
            match sp_get(e, "data"@) {
                Some(JsonV::Obj(d)) => match sp_get(d, "positions"@) {
                    Some(JsonV::Obj(o)) => match sp_pos_entries_from(o, 0) {
                        Some(m) => Some(Ok(KolliderTaggedMsgV::Positions { positions: m })),
                        None => Some(Err(DecodeError::Payload)),
                    },
                    _ => Some(Err(DecodeError::Payload)),
                },
                _ => Some(Err(DecodeError::Payload)),
            }
        } else if t == "withdrawal_limit_info"@ {
            match sp_get(e, "data"@) {
                Some(JsonV::Obj(d)) => if sp_get_u64_entries(d, "daily_withdrawal_limits"@)
                    is Some && sp_get_u64_entries(d, "daily_withdrawal_volumes"@) is Some {
                    Some(
                        Ok(
                            KolliderTaggedMsgV::WithdrawalLimitInfo {
                                daily_withdrawal_limits: sp_get_u64_entries(
                                    d,
                                    "daily_withdrawal_limits"@,
                                )->0,
                                daily_withdrawal_volumes: sp_get_u64_entries(
                                    d,
                                    "daily_withdrawal_volumes"@,
                                )->0,
                            },
                        ),
                    )
                } else {
                    Some(Err(DecodeError::Payload))
                },
                _ => Some(Err(DecodeError::Payload)),
            }
        } else if t == "done"@ {
            match sp_get(e, "data"@) {
                Some(d) => match sp_done(d) {
                    Some(v) => Some(Ok(v)),
                    None => Some(Err(DecodeError::Payload)),
                },
                None => Some(Err(DecodeError::Payload)),
            }
        } else if t == "order_not_found"@ {
            match sp_get(e, "data"@) {
                Some(d) => match sp_order_not_found(d) {
                    Some(v) => Some(Ok(v)),
                    None => Some(Err(DecodeError::Payload)),
                },
                None => Some(Err(DecodeError::Payload)),
            }
        } else if t == "fill"@ {
            match sp_get(e, "data"@) {
                Some(d) => match sp_fill(d) {
                    Some(v) => Some(Ok(v)),
                    None => Some(Err(DecodeError::Payload)),
                },
                None => Some(Err(DecodeError::Payload)),
            }
        } else if t == "trade"@ {
            match sp_get(e, "data"@) {
                Some(d) => match sp_trade(d) {
                    Some(v) => Some(Ok(v)),
                    None => Some(Err(DecodeError::Payload)),
                },
                None => Some(Err(DecodeError::Payload)),
            }
        } else if t == "settlement_request"@ {
            match sp_get(e, "data"@) {
                Some(d) => match sp_settlement_request(d) {
                    Some(v) => Some(Ok(v)),
                    None => Some(Err(DecodeError::Payload)),
                },
                None => Some(Err(DecodeError::Payload)),
            }
        } else if t == "change_leverage_info"@ {
            match sp_get(e, "data"@) {
                Some(d) => match sp_change_leverage_info(d) {
                    Some(v) => Some(Ok(v)),
                    None => Some(Err(DecodeError::Payload)),
                },
                None => Some(Err(DecodeError::Payload)),
            }
        } else if t == "change_leverage_success"@ {
            match sp_get(e, "data"@) {
                Some(JsonV::Obj(d)) => match sp_get_str(d, "symbol"@) {
                    Some(sym) => Some(
                        Ok(KolliderTaggedMsgV::ChangeLeverageSuccess { symbol: sym }),
                    ),
                    None => Some(Err(DecodeError::Payload)),
                },
                _ => Some(Err(DecodeError::Payload)),
            }
        } else {
            None
        },
        None => None,
    }
}

fn try_decode_obj(entries: &Vec<(String, Json)>) -> (r: Option<
    Result<KolliderTaggedMsg, DecodeError>,
>)
    ensures
        match (r, sp_try_obj(entry_views_of(entries@))) {
            (Some(Ok(m)), Some(Ok(mv))) => m@ == mv,
            (Some(Err(a)), Some(Err(b))) => a == b,
            (None, None) => true,
            _ => false,
        },
{
    let t = match get_string(entries, "type") {
        Some(t) => t,
        None => {
            return None;
        },
    };
    if str_eq(t.as_str(), "authenticate") {
        match get_string(entries, "message") {
            Some(m) => Some(Ok(KolliderTaggedMsg::Authenticate { message: m })),
            None => match get_json(entries, "data") {
                Some(Json::Obj(d)) => {
                    proof {
                        crate::json::lemma_obj_view(*d);
                    }
                    match get_string(d, "message") {
                        Some(m) => Some(Ok(KolliderTaggedMsg::Authenticate { message: m })),
                        None => Some(Err(DecodeError::Payload)),
                    }
                },
                _ => Some(Err(DecodeError::Payload)),
            },
        }
    } else if str_eq(t.as_str(), "error") {
        match get_json(entries, "data") {
            Some(Json::Str(s)) => Some(Ok(KolliderTaggedMsg::Error(s.clone()))),
            _ => Some(Err(DecodeError::Payload)),
        }
    } else if str_eq(t.as_str(), "success") {
        match get_json(entries, "data") {
            Some(Json::Str(s)) => Some(Ok(KolliderTaggedMsg::Success(s.clone()))),
            _ => Some(Err(DecodeError::Payload)),
        }
    } else if str_eq(t.as_str(), "index_values") {
        match get_json(entries, "data") {
            Some(d) => match decode_index_value(d) {
                Some(v) => Some(Ok(KolliderTaggedMsg::IndexValues(v))),
                None => Some(Err(DecodeError::Payload)),
            },
            None => Some(Err(DecodeError::Payload)),
        }
    } else if str_eq(t.as_str(), "level2state") {
        match get_json(entries, "data") {
            Some(d) => match decode_level2(d) {
                Some(v) => Some(Ok(KolliderTaggedMsg::OrderBookLevel2(v))),
                None => Some(Err(DecodeError::Payload)),
            },
            None => Some(Err(DecodeError::Payload)),
        }
    } else if str_eq(t.as_str(), "received") {
        match get_json(entries, "data") {
            Some(d) => match decode_received(d) {
                Some(v) => Some(Ok(v)),
                None => Some(Err(DecodeError::Payload)),
            },
            None => Some(Err(DecodeError::Payload)),
        }
    } else if str_eq(t.as_str(), "balances") {
        match get_json(entries, "data") {
            Some(d) => match decode_balances(d) {
                Some(v) => Some(Ok(v)),
                None => Some(Err(DecodeError::Payload)),
            },
            None => Some(Err(DecodeError::Payload)),
        }
    } else if str_eq(t.as_str(), "open") {
        match get_json(entries, "data") {
            Some(d) => match decode_open(d) {
                Some(v) => Some(Ok(v)),
                None => Some(Err(DecodeError::Payload)),
            },
            None => Some(Err(DecodeError::Payload)),
        }
    } else if str_eq(t.as_str(), "user_advanced_orders") {
        match get_json(entries, "data") {
            Some(Json::Obj(_)) => Some(Ok(KolliderTaggedMsg::AdvancedOrders)),
            _ => Some(Err(DecodeError::Payload)),
        }
    } else if str_eq(t.as_str(), "open_orders") {
        match get_json(entries, "data") {
            Some(Json::Obj(d)) => {
                proof {
                    crate::json::lemma_obj_view(*d);
                }
                match get_json(d, "open_orders") {
                    Some(Json::Obj(o)) => {
                        proof {
                            crate::json::lemma_obj_view(*o);
                        }
                        match oo_entries_from(o, 0) {
                            Some(m) => Some(Ok(KolliderTaggedMsg::OpenOrders { open_orders: m })),
                            None => Some(Err(DecodeError::Payload)),
                        }
                    },
                    _ => Some(Err(DecodeError::Payload)),
                }
            },
            _ => Some(Err(DecodeError::Payload)),
        }
    } else if str_eq(t.as_str(), "positions") {
        match get_json(entries, "data") {
            Some(Json::Obj(d)) => {
                proof {
                    crate::json::lemma_obj_view(*d);
                }
                match get_json(d, "positions") {
                    Some(Json::Obj(o)) => {
                        proof {
                            crate::json::lemma_obj_view(*o);
                        }
                        match pos_entries_from(o, 0) {
                            Some(m) => Some(Ok(KolliderTaggedMsg::Positions { positions: m })),
                            None => Some(Err(DecodeError::Payload)),
                        }
                    },
                    _ => Some(Err(DecodeError::Payload)),
                }
            },
            _ => Some(Err(DecodeError::Payload)),
        }
    } else if str_eq(t.as_str(), "withdrawal_limit_info") {
        match get_json(entries, "data") {
            Some(Json::Obj(d)) => {
                proof {
                    crate::json::lemma_obj_view(*d);
                }
                let limits = get_u64_entries(d, "daily_withdrawal_limits");
                let volumes = get_u64_entries(d, "daily_withdrawal_volumes");
                match (limits, volumes) {
                    (Some(daily_withdrawal_limits), Some(daily_withdrawal_volumes)) => Some(
                        Ok(
                            KolliderTaggedMsg::WithdrawalLimitInfo {
                                daily_withdrawal_limits,
                                daily_withdrawal_volumes,
                            },
                        ),
                    ),
                    _ => Some(Err(DecodeError::Payload)),
                }
            },
            _ => Some(Err(DecodeError::Payload)),
        }
    } else if str_eq(t.as_str(), "done") {
        match get_json(entries, "data") {
            Some(d) => match decode_done(d) {
                Some(v) => Some(Ok(v)),
                None => Some(Err(DecodeError::Payload)),
            },
            None => Some(Err(DecodeError::Payload)),
        }
    } else if str_eq(t.as_str(), "order_not_found") {
        match get_json(entries, "data") {
            Some(d) => match decode_order_not_found(d) {
                Some(v) => Some(Ok(v)),
                None => Some(Err(DecodeError::Payload)),
            },
            None => Some(Err(DecodeError::Payload)),
        }
    } else if str_eq(t.as_str(), "fill") {
        match get_json(entries, "data") {
            Some(d) => match decode_fill(d) {
                Some(v) => Some(Ok(v)),
                None => Some(Err(DecodeError::Payload)),
            },
            None => Some(Err(DecodeError::Payload)),
        }
    } else if str_eq(t.as_str(), "trade") {
        match get_json(entries, "data") {
            Some(d) => match decode_trade(d) {
                Some(v) => Some(Ok(v)),
                None => Some(Err(DecodeError::Payload)),
            },
            None => Some(Err(DecodeError::Payload)),
        }
    } else if str_eq(t.as_str(), "settlement_request") {
        match get_json(entries, "data") {
            Some(d) => match decode_settlement_request(d) {
                Some(v) => Some(Ok(v)),
                None => Some(Err(DecodeError::Payload)),
            },
            None => Some(Err(DecodeError::Payload)),
        }
    } else if str_eq(t.as_str(), "change_leverage_info") {
        match get_json(entries, "data") {
            Some(d) => match decode_change_leverage_info(d) {
                Some(v) => Some(Ok(v)),
                None => Some(Err(DecodeError::Payload)),
            },
            None => Some(Err(DecodeError::Payload)),
        }
    } else if str_eq(t.as_str(), "change_leverage_success") {
        match get_json(entries, "data") {
            Some(Json::Obj(d)) => {
                proof {
                    crate::json::lemma_obj_view(*d);
                }
                match get_string(d, "symbol") {
                    Some(symbol) => Some(Ok(KolliderTaggedMsg::ChangeLeverageSuccess { symbol })),
                    None => Some(Err(DecodeError::Payload)),
                }
            },
            _ => Some(Err(DecodeError::Payload)),
        }
    } else {
        None
    }
}

/// What decoding a parsed frame yields: a domain message, an unknown frame
/// kept whole, or a payload error.
pub open spec fn sp_decode_value(jv: JsonV) -> Result<crate::data::KolliderMsgV, DecodeError> {
    match jv {
        JsonV::Obj(e) => match sp_try_obj(e) {
            Some(Ok(t)) => Ok(crate::data::KolliderMsgV::Tagged(t)),
            Some(Err(x)) => Err(x),
            None => Ok(crate::data::KolliderMsgV::Unknown(jv)),
        },
        _ => Ok(crate::data::KolliderMsgV::Unknown(jv)),
    }
}

/// What decoding a whole frame text yields.
pub open spec fn spec_decode_msg(s: Seq<char>) -> Result<crate::data::KolliderMsgV, DecodeError> {
    match crate::json::spec_parse(s) {
        Some(jv) => sp_decode_value(jv),
        None => Err(DecodeError::Syntax),
    }
}

/// Decodes one inbound text frame.
///
/// Never panics and never tears the session down: text that is not JSON or a
/// known discriminant with an ill-formed payload yield an error for this one
/// frame; a well-formed frame of unknown shape is kept whole as
/// [`KolliderMsg::Unknown`].
pub fn decode_msg(s: &str) -> (r: Result<crate::data::KolliderMsg, DecodeError>)
    ensures
        match (r, spec_decode_msg(s@)) {
            (Ok(m), Ok(mv)) => m@ == mv,
            (Err(a), Err(b)) => a == b,
            _ => false,
        },
{
    let j = match crate::json::parse_json(s) {
        Some(j) => j,
        None => {
            return Err(DecodeError::Syntax);
        },
    };
    let verdict = match &j {
        Json::Obj(entries) => {
            proof {
                crate::json::lemma_obj_view(*entries);
            }
            try_decode_obj(entries)
        },
        _ => None,
    };
    match verdict {
        Some(Ok(t)) => Ok(crate::data::KolliderMsg::Tagged(t)),
        Some(Err(x)) => Err(x),
        None => Ok(crate::data::KolliderMsg::Unknown(j)),
    }
}

} // verus!
