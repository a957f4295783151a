//! A small JSON value model with a verified parser.
//!
//! The exchange speaks JSON text frames.  `Json` is the executable value
//! model; `JsonV` is its mathematical view.  Numbers are kept as their raw
//! literal text so that no precision is lost and no floating point is needed;
//! typed readers coerce them where a schema asks for an integer.
//!
//! The grammar is written once as the family of `spec_*` functions below;
//! the executable parser mirrors them and is proved to return exactly what
//! the specification says.  Recursion is bounded by a fuel argument: a parse
//! step always consumes a character within two calls, so `2 * len + 4` fuel
//! can never run out on any input.

use vstd::prelude::*;

verus! {

broadcast use vstd::std_specs::vec::group_vec_axioms;

/// Mathematical view of a JSON value.
pub enum JsonV {
    Null,
    Bool(bool),
    /// Raw numeric literal text, e.g. `-12.5e3`.
    Num(Seq<char>),
    /// Unescaped string contents.
    Str(Seq<char>),
    Arr(Seq<JsonV>),
    Obj(Seq<(Seq<char>, JsonV)>),
}

/// A JSON value: the unit of everything the wire layer reads and writes.
#[derive(Debug, PartialEq)]
pub enum Json {
    Null,
    Bool(bool),
    /// Raw numeric literal text, e.g. `-12.5e3`.
    Num(String),
    /// Unescaped string contents.
    Str(String),
    Arr(Vec<Json>),
    Obj(Vec<(String, Json)>),
}

pub open spec fn json_view(j: Json) -> JsonV
    decreases j,
{
    match j {
        Json::Null => JsonV::Null,
        Json::Bool(b) => JsonV::Bool(b),
        Json::Num(s) => JsonV::Num(s@),
        Json::Str(s) => JsonV::Str(s@),
        Json::Arr(items) => JsonV::Arr(
            Seq::new(
                items@.len(),
                |i: int|
                    if 0 <= i < items@.len() {
                        json_view(items@[i])
                    } else {
                        JsonV::Null
                    },
            ),
        ),
        Json::Obj(entries) => JsonV::Obj(
            Seq::new(
                entries@.len(),
                |i: int|
                    if 0 <= i < entries@.len() {
                        (entries@[i].0@, json_view(entries@[i].1))
                    } else {
                        (Seq::empty(), JsonV::Null)
                    },
            ),
        ),
    }
}

impl View for Json {
    type V = JsonV;

    open spec fn view(&self) -> JsonV {
        json_view(*self)
    }
}

/// A numeric wire value kept as its raw literal text, so that no precision is
/// lost and no floating point enters the library.
#[derive(Debug, Clone, PartialEq, Eq)]
pub struct NumStr(pub String);

impl View for NumStr {
    type V = Seq<char>;

    open spec fn view(&self) -> Seq<char> {
        self.0@
    }
}

/// True when `t` is one whole well-formed numeric literal.
pub open spec fn is_num_text(t: Seq<char>) -> bool {
    spec_number_end(t, 0) == Some(t.len() as int)
}

/// Checks that a string is one whole numeric literal.
pub fn is_numeric_str(t: &str) -> (r: bool)
    ensures
        r == is_num_text(t@),
{
    let n = t.unicode_len();
    if n == 0 {
        return false;
    }
    match parse_number(t, n, 0) {
        Some((_, e)) => e == n,
        None => false,
    }
}

/// JSON whitespace.
pub open spec fn is_ws(c: char) -> bool {
    c == ' ' || c == '\t' || c == '\n' || c == '\r'
}

/// Index of the first non-whitespace character at or after `i`.
pub open spec fn spec_skip_ws(s: Seq<char>, i: int) -> int
    decreases s.len() - i,
{
    if 0 <= i && i < s.len() && is_ws(s[i]) {
        spec_skip_ws(s, i + 1)
    } else {
        i
    }
}

pub open spec fn hex_val(c: char) -> int {
    if '0' <= c && c <= '9' {
        c as int - 48
    } else if 'a' <= c && c <= 'f' {
        c as int - 87
    } else if 'A' <= c && c <= 'F' {
        c as int - 55
    } else {
        -1
    }
}

/// Value of the four hex digits at `i`; meaningful only when they are valid.
pub open spec fn spec_hex4(s: Seq<char>, i: int) -> int {
    hex_val(s[i]) * 4096 + hex_val(s[i + 1]) * 256 + hex_val(s[i + 2]) * 16 + hex_val(s[i + 3])
}

pub open spec fn hex4_ok(s: Seq<char>, i: int) -> bool {
    &&& i + 4 <= s.len()
    &&& hex_val(s[i]) >= 0
    &&& hex_val(s[i + 1]) >= 0
    &&& hex_val(s[i + 2]) >= 0
    &&& hex_val(s[i + 3]) >= 0
}

/// Contents of a string literal read from the character after the opening
/// quote, together with the index one past the closing quote.
pub open spec fn spec_str_body(s: Seq<char>, i: int) -> Option<(Seq<char>, int)>
    decreases s.len() - i,
    when 0 <= i
{
    if i >= s.len() {
        None
    } else {
        let c = s[i];
        if c == '"' {
            Some((Seq::empty(), i + 1))
        } else if c == '\\' {
            if i + 1 >= s.len() {
                None
            } else {
                let e = s[i + 1];
                if e == 'u' {
                    if !hex4_ok(s, i + 2) {
                        None
                    } else {
                        let v = spec_hex4(s, i + 2);
                        if 0xD800 <= v && v < 0xDC00 {
                            // high surrogate: a low surrogate escape must follow
                            if i + 12 <= s.len() && s[i + 6] == '\\' && s[i + 7] == 'u' && hex4_ok(
                                s,
                                i + 8,
                            ) && 0xDC00 <= spec_hex4(s, i + 8) && spec_hex4(s, i + 8) < 0xE000 {
                                let w = spec_hex4(s, i + 8);
                                let code = 0x10000 + (v - 0xD800) * 0x400 + (w - 0xDC00);
                                match spec_str_body(s, i + 12) {
                                    Some((rest, end)) => Some(
                                        (seq![code as char] + rest, end),
                                    ),
                                    None => None,
                                }
                            } else {
                                None
                            }
                        } else if 0xDC00 <= v && v < 0xE000 {
                            // lone low surrogate
                            None
                        } else {
                            match spec_str_body(s, i + 6) {
                                Some((rest, end)) => Some((seq![v as char] + rest, end)),
                                None => None,
                            }
                        }
                    }
                } else {
                    let unescaped: char = if e == '"' {
                        '"'
                    } else if e == '\\' {
                        '\\'
                    } else if e == '/' {
                        '/'
                    } else if e == 'n' {
                        '\n'
                    } else if e == 't' {
                        '\t'
                    } else if e == 'r' {
                        '\r'
                    } else if e == 'b' {
                        8 as char
                    } else if e == 'f' {
                        12 as char
                    } else {
                        ' '
                    };
                    if e == '"' || e == '\\' || e == '/' || e == 'n' || e == 't' || e == 'r' || e
                        == 'b' || e == 'f' {
                        match spec_str_body(s, i + 2) {
                            Some((rest, end)) => Some((seq![unescaped] + rest, end)),
                            None => None,
                        }
                    } else {
                        None
                    }
                }
            }
        } else if (c as int) < 0x20 {
            // raw control characters are not allowed inside strings
            None
        } else {
            match spec_str_body(s, i + 1) {
                Some((rest, end)) => Some((seq![c] + rest, end)),
                None => None,
            }
        }
    }
}

/// Index of the first non-digit character at or after `i`.
pub open spec fn spec_skip_digits(s: Seq<char>, i: int) -> int
    decreases s.len() - i,
{
    if 0 <= i && i < s.len() && crate::text::is_digit(s[i]) {
        spec_skip_digits(s, i + 1)
    } else {
        i
    }
}

/// End of the numeric literal starting at `i`, or `None` when the text at `i`
/// is not a well-formed JSON number.
pub open spec fn spec_number_end(s: Seq<char>, i: int) -> Option<int> {
    let j = if 0 <= i && i < s.len() && s[i] == '-' {
        i + 1
    } else {
        i
    };
    if j >= s.len() || !crate::text::is_digit(s[j]) {
        None
    } else {
        let k = if s[j] == '0' {
            j + 1
        } else {
            spec_skip_digits(s, j)
        };
        let k2 = if k < s.len() && s[k] == '.' {
            if k + 1 < s.len() && crate::text::is_digit(s[k + 1]) {
                spec_skip_digits(s, k + 1)
            } else {
                -1
            }
        } else {
            k
        };
        if k2 < 0 {
            None
        } else {
            let k3 = if k2 < s.len() && (s[k2] == 'e' || s[k2] == 'E') {
                let e0 = if k2 + 1 < s.len() && (s[k2 + 1] == '+' || s[k2 + 1] == '-') {
                    k2 + 2
                } else {
                    k2 + 1
                };
                if e0 < s.len() && crate::text::is_digit(s[e0]) {
                    spec_skip_digits(s, e0)
                } else {
                    -1
                }
            } else {
                k2
            };
            if k3 < 0 {
                None
            } else {
                Some(k3)
            }
        }
    }
}

/// A JSON value starting at `i` (after skipping whitespace), and the index
/// just past it.
pub open spec fn spec_value(s: Seq<char>, i: int, fuel: nat) -> Option<(JsonV, int)>
    decreases fuel,
{
    if fuel == 0 {
        None
    } else {
        let j = spec_skip_ws(s, i);
        if j >= s.len() || j < 0 {
            None
        } else {
            let c = s[j];
            if c == '{' {
                match spec_members(s, j + 1, (fuel - 1) as nat) {
                    Some((entries, end)) => Some((JsonV::Obj(entries), end)),
                    None => None,
                }
            } else if c == '[' {
                match spec_items(s, j + 1, (fuel - 1) as nat) {
                    Some((items, end)) => Some((JsonV::Arr(items), end)),
                    None => None,
                }
            } else if c == '"' {
                match spec_str_body(s, j + 1) {
                    Some((content, end)) => Some((JsonV::Str(content), end)),
                    None => None,
                }
            } else if c == 't' {
                if j + 4 <= s.len() && s[j + 1] == 'r' && s[j + 2] == 'u' && s[j + 3] == 'e' {
                    Some((JsonV::Bool(true), j + 4))
                } else {
                    None
                }
            } else if c == 'f' {
                if j + 5 <= s.len() && s[j + 1] == 'a' && s[j + 2] == 'l' && s[j + 3] == 's' && s[j
                    + 4] == 'e' {
                    Some((JsonV::Bool(false), j + 5))
                } else {
                    None
                }
            } else if c == 'n' {
                if j + 4 <= s.len() && s[j + 1] == 'u' && s[j + 2] == 'l' && s[j + 3] == 'l' {
                    Some((JsonV::Null, j + 4))
                } else {
                    None
                }
            } else if c == '-' || crate::text::is_digit(c) {
                match spec_number_end(s, j) {
                    Some(end) => Some((JsonV::Num(s.subrange(j, end)), end)),
                    None => None,
                }
            } else {
                None
            }
        }
    }
}

/// Array elements after the opening bracket: an immediate `]` or the first
/// value followed by `spec_items_more`.
pub open spec fn spec_items(s: Seq<char>, i: int, fuel: nat) -> Option<(Seq<JsonV>, int)>
    decreases fuel,
{
    if fuel == 0 {
        None
    } else {
        let j = spec_skip_ws(s, i);
        if j >= s.len() || j < 0 {
            None
        } else if s[j] == ']' {
            Some((Seq::empty(), j + 1))
        } else {
            match spec_value(s, j, (fuel - 1) as nat) {
                Some((v, k)) => match spec_items_more(s, k, (fuel - 1) as nat) {
                    Some((rest, end)) => Some((seq![v] + rest, end)),
                    None => None,
                },
                None => None,
            }
        }
    }
}

/// Continuation of an array after a parsed element: `,` value ... or `]`.
pub open spec fn spec_items_more(s: Seq<char>, i: int, fuel: nat) -> Option<(Seq<JsonV>, int)>
    decreases fuel,
{
    if fuel == 0 {
        None
    } else {
        let j = spec_skip_ws(s, i);
        if j >= s.len() || j < 0 {
            None
        } else if s[j] == ']' {
            Some((Seq::empty(), j + 1))
        } else if s[j] == ',' {
            match spec_value(s, j + 1, (fuel - 1) as nat) {
                Some((v, k)) => match spec_items_more(s, k, (fuel - 1) as nat) {
                    Some((rest, end)) => Some((seq![v] + rest, end)),
                    None => None,
                },
                None => None,
            }
        } else {
            None
        }
    }
}

/// Object members after the opening brace: an immediate `}` or the first
/// `"key": value` pair followed by `spec_members_more`.
pub open spec fn spec_members(s: Seq<char>, i: int, fuel: nat) -> Option<
    (Seq<(Seq<char>, JsonV)>, int),
>
    decreases fuel,
{
    if fuel == 0 {
        None
    } else {
        let j = spec_skip_ws(s, i);
        if j >= s.len() || j < 0 {
            None
        } else if s[j] == '}' {
            Some((Seq::empty(), j + 1))
        } else if s[j] == '"' {
            spec_member(s, j, (fuel - 1) as nat)
        } else {
            None
        }
    }
}

/// One `"key": value` pair at `i` (which must hold the opening quote),
/// followed by the rest of the object.
pub open spec fn spec_member(s: Seq<char>, i: int, fuel: nat) -> Option<
    (Seq<(Seq<char>, JsonV)>, int),
>
    decreases fuel,
{
    if fuel == 0 {
        None
    } else {
        match spec_str_body(s, i + 1) {
            Some((key, kend)) => {
                let j = spec_skip_ws(s, kend);
                if j >= s.len() || j < 0 || s[j] != ':' {
                    None
                } else {
                    match spec_value(s, j + 1, (fuel - 1) as nat) {
                        Some((v, vend)) => match spec_members_more(s, vend, (fuel - 1) as nat) {
                            Some((rest, end)) => Some((seq![(key, v)] + rest, end)),
                            None => None,
                        },
                        None => None,
                    }
                }
            },
            None => None,
        }
    }
}

/// Continuation of an object after a parsed member: `,` member ... or `}`.
pub open spec fn spec_members_more(s: Seq<char>, i: int, fuel: nat) -> Option<
    (Seq<(Seq<char>, JsonV)>, int),
>
    decreases fuel,
{
    if fuel == 0 {
        None
    } else {
        let j = spec_skip_ws(s, i);
        if j >= s.len() || j < 0 {
            None
        } else if s[j] == '}' {
            Some((Seq::empty(), j + 1))
        } else if s[j] == ',' {
            let j2 = spec_skip_ws(s, j + 1);
            if j2 >= s.len() || j2 < 0 || s[j2] != '"' {
                None
            } else {
                spec_member(s, j2, (fuel - 1) as nat)
            }
        } else {
            None
        }
    }
}

/// Fuel that always suffices: a parse step consumes a character at least
/// every second call.
pub open spec fn spec_fuel(s: Seq<char>) -> nat {
    (2 * s.len() + 4) as nat
}

/// What parsing a whole text yields: one value and nothing but whitespace
/// after it.
pub open spec fn spec_parse(s: Seq<char>) -> Option<JsonV> {
    match spec_value(s, 0, spec_fuel(s)) {
        Some((v, end)) => if spec_skip_ws(s, end) == s.len() {
            Some(v)
        } else {
            None
        },
        None => None,
    }
}

/// The views of a sequence of parsed values.
pub open spec fn views_of(v: Seq<Json>) -> Seq<JsonV> {
    Seq::new(
        v.len(),
        |i: int|
            if 0 <= i < v.len() {
                json_view(v[i])
            } else {
                JsonV::Null
            },
    )
}

/// The views of a sequence of parsed object members.
pub open spec fn entry_views_of(v: Seq<(String, Json)>) -> Seq<(Seq<char>, JsonV)> {
    Seq::new(
        v.len(),
        |i: int|
            if 0 <= i < v.len() {
                (v[i].0@, json_view(v[i].1))
            } else {
                (Seq::empty(), JsonV::Null)
            },
    )
}

/// An object value's view is the member views, pointwise.
pub proof fn lemma_obj_view(entries: Vec<(String, Json)>)
    ensures
        json_view(Json::Obj(entries)) == JsonV::Obj(entry_views_of(entries@)),
{
    let a = json_view(Json::Obj(entries))->Obj_0;
    assert(a =~= entry_views_of(entries@));
}

/// An array value's view is the element views, pointwise.
pub proof fn lemma_arr_view(items: Vec<Json>)
    ensures
        json_view(Json::Arr(items)) == JsonV::Arr(views_of(items@)),
{
    let a = json_view(Json::Arr(items))->Arr_0;
    assert(a =~= views_of(items@));
}

fn skip_ws(s: &str, n: usize, i: usize) -> (r: usize)
    requires
        i <= n,
        n == s@.len(),
    ensures
        r == spec_skip_ws(s@, i as int),
        i <= r <= n,
    decreases n - i,
{
    if i < n {
        let c = s.get_char(i);
        if c == ' ' || c == '\t' || c == '\n' || c == '\r' {
            return skip_ws(s, n, i + 1);
        }
    }
    i
}

fn skip_digits(s: &str, n: usize, i: usize) -> (r: usize)
    requires
        i <= n,
        n == s@.len(),
    ensures
        r == spec_skip_digits(s@, i as int),
        i <= r <= n,
    decreases n - i,
{
    if i < n {
        let c = s.get_char(i);
        if '0' <= c && c <= '9' {
            return skip_digits(s, n, i + 1);
        }
    }
    i
}

fn hex_digit(c: char) -> (r: Option<u32>)
    ensures
        match r {
            Some(v) => hex_val(c) == v as int,
            None => hex_val(c) < 0,
        },
{
    if '0' <= c && c <= '9' {
        Some(c as u32 - 48)
    } else if 'a' <= c && c <= 'f' {
        Some(c as u32 - 87)
    } else if 'A' <= c && c <= 'F' {
        Some(c as u32 - 55)
    } else {
        None
    }
}

fn parse_hex4(s: &str, n: usize, i: usize) -> (r: Option<u32>)
    requires
        i <= n,
        n == s@.len(),
    ensures
        match r {
            Some(v) => hex4_ok(s@, i as int) && v as int == spec_hex4(s@, i as int) && v < 0x10000,
            None => !hex4_ok(s@, i as int),
        },
{
    if n - i < 4 {
        return None;
    }
    let h0 = hex_digit(s.get_char(i));
    let h1 = hex_digit(s.get_char(i + 1));
    let h2 = hex_digit(s.get_char(i + 2));
    let h3 = hex_digit(s.get_char(i + 3));
    match (h0, h1, h2, h3) {
        (Some(a), Some(b), Some(c), Some(d)) => Some(a * 4096 + b * 256 + c * 16 + d),
        _ => None,
    }
}

fn parse_str_body(s: &str, n: usize, i: usize) -> (r: Option<(String, usize)>)
    requires
        i <= n,
        n == s@.len(),
    ensures
        match (r, spec_str_body(s@, i as int)) {
            (Some((v, e)), Some((sv, se))) => v@ == sv && e as int == se && e <= n,
            (None, None) => true,
            _ => false,
        },
    decreases n - i,
{
    if i >= n {
        return None;
    }
    let c = s.get_char(i);
    if c == '"' {
        let out = String::new();
        proof {
            assert(out@ =~= Seq::<char>::empty());
        }
        return Some((out, i + 1));
    }
    if c == '\\' {
        if i + 1 >= n {
            return None;
        }
        let e = s.get_char(i + 1);
        if e == 'u' {
            let h = parse_hex4(s, n, i + 2);
            match h {
                None => None,
                Some(v) => {
                    if 0xD800 <= v && v < 0xDC00 {
                        if n - i >= 12 && s.get_char(i + 6) == '\\' && s.get_char(i + 7) == 'u' {
                            match parse_hex4(s, n, i + 8) {
                                Some(w) if 0xDC00 <= w && w < 0xE000 => {
                                    let code: u32 = 0x10000 + (v - 0xD800) * 0x400 + (w - 0xDC00);
                                    let ch = char::from_u32(code).unwrap();
                                    match parse_str_body(s, n, i + 12) {
                                        Some((rest, end)) => {
                                            let mut out = String::new();
                                            out.push(ch);
                                            out.append(rest.as_str());
                                            proof {
                                                assert(out@ =~= seq![ch] + rest@);
                                            }
                                            Some((out, end))
                                        },
                                        None => None,
                                    }
                                },
                                _ => None,
                            }
                        } else {
                            None
                        }
                    } else if 0xDC00 <= v && v < 0xE000 {
                        None
                    } else {
                        let ch = char::from_u32(v).unwrap();
                        match parse_str_body(s, n, i + 6) {
                            Some((rest, end)) => {
                                let mut out = String::new();
                                out.push(ch);
                                out.append(rest.as_str());
                                proof {
                                    assert(out@ =~= seq![ch] + rest@);
                                }
                                Some((out, end))
                            },
                            None => None,
                        }
                    }
                },
            }
        } else {
            let unescaped: char = if e == '"' {
                '"'
            } else if e == '\\' {
                '\\'
            } else if e == '/' {
                '/'
            } else if e == 'n' {
                '\n'
            } else if e == 't' {
                '\t'
            } else if e == 'r' {
                '\r'
            } else if e == 'b' {
                8u8 as char
            } else if e == 'f' {
                12u8 as char
            } else {
                ' '
            };
            if e == '"' || e == '\\' || e == '/' || e == 'n' || e == 't' || e == 'r' || e == 'b'
                || e == 'f' {
                match parse_str_body(s, n, i + 2) {
                    Some((rest, end)) => {
                        let mut out = String::new();
                        out.push(unescaped);
                        out.append(rest.as_str());
                        proof {
                            assert(out@ =~= seq![unescaped] + rest@);
                        }
                        Some((out, end))
                    },
                    None => None,
                }
            } else {
                None
            }
        }
    } else if (c as u32) < 0x20 {
        None
    } else {
        match parse_str_body(s, n, i + 1) {
            Some((rest, end)) => {
                let mut out = String::new();
                out.push(c);
                out.append(rest.as_str());
                proof {
                    assert(out@ =~= seq![c] + rest@);
                }
                Some((out, end))
            },
            None => None,
        }
    }
}

fn parse_number(s: &str, n: usize, i: usize) -> (r: Option<(String, usize)>)
    requires
        i < n,
        n == s@.len(),
    ensures
        match (r, spec_number_end(s@, i as int)) {
            (Some((t, e)), Some(se)) => e as int == se && t@ == s@.subrange(i as int, se) && e
                <= n,
            (None, None) => true,
            _ => false,
        },
{
    let j: usize = if s.get_char(i) == '-' {
        i + 1
    } else {
        i
    };
    if j >= n {
        return None;
    }
    let c = s.get_char(j);
    if !('0' <= c && c <= '9') {
        return None;
    }
    let k: usize = if c == '0' {
        j + 1
    } else {
        skip_digits(s, n, j)
    };
    let k2: usize = if k < n && s.get_char(k) == '.' {
        if k + 1 < n {
            let d = s.get_char(k + 1);
            if '0' <= d && d <= '9' {
                skip_digits(s, n, k + 1)
            } else {
                return None;
            }
        } else {
            return None;
        }
    } else {
        k
    };
    let k3: usize = if k2 < n {
        let ec = s.get_char(k2);
        if ec == 'e' || ec == 'E' {
            let e0: usize = if k2 + 1 < n {
                let sc = s.get_char(k2 + 1);
                if sc == '+' || sc == '-' {
                    k2 + 2
                } else {
                    k2 + 1
                }
            } else {
                k2 + 1
            };
            if e0 < n {
                let d = s.get_char(e0);
                if '0' <= d && d <= '9' {
                    skip_digits(s, n, e0)
                } else {
                    return None;
                }
            } else {
                return None;
            }
        } else {
            k2
        }
    } else {
        k2
    };
    let t = s.substring_char(i, k3).to_owned();
    Some((t, k3))
}

fn parse_value(s: &str, n: usize, i: usize, fuel: u128) -> (r: Option<(Json, usize)>)
    requires
        i <= n,
        n == s@.len(),
    ensures
        match (r, spec_value(s@, i as int, fuel as nat)) {
            (Some((v, e)), Some((sv, se))) => v@ == sv && e as int == se && e <= n,
            (None, None) => true,
            _ => false,
        },
    decreases fuel,
{
    if fuel == 0 {
        return None;
    }
    let j = skip_ws(s, n, i);
    if j >= n {
        return None;
    }
    let c = s.get_char(j);
    if c == '{' {
        match parse_members(s, n, j + 1, fuel - 1) {
            Some((entries, end)) => {
                proof {
                    lemma_obj_view(entries);
                }
                Some((Json::Obj(entries), end))
            },
            None => None,
        }
    } else if c == '[' {
        match parse_items(s, n, j + 1, fuel - 1) {
            Some((items, end)) => {
                proof {
                    lemma_arr_view(items);
                }
                Some((Json::Arr(items), end))
            },
            None => None,
        }
    } else if c == '"' {
        match parse_str_body(s, n, j + 1) {
            Some((content, end)) => Some((Json::Str(content), end)),
            None => None,
        }
    } else if c == 't' {
        if n - j >= 4 && s.get_char(j + 1) == 'r' && s.get_char(j + 2) == 'u' && s.get_char(j + 3)
            == 'e' {
            Some((Json::Bool(true), j + 4))
        } else {
            None
        }
    } else if c == 'f' {
        if n - j >= 5 && s.get_char(j + 1) == 'a' && s.get_char(j + 2) == 'l' && s.get_char(j + 3)
            == 's' && s.get_char(j + 4) == 'e' {
            Some((Json::Bool(false), j + 5))
        } else {
            None
        }
    } else if c == 'n' {
        if n - j >= 4 && s.get_char(j + 1) == 'u' && s.get_char(j + 2) == 'l' && s.get_char(j + 3)
            == 'l' {
            Some((Json::Null, j + 4))
        } else {
            None
        }
    } else if c == '-' || ('0' <= c && c <= '9') {
        match parse_number(s, n, j) {
            Some((t, end)) => Some((Json::Num(t), end)),
            None => None,
        }
    } else {
        None
    }
}

fn parse_items(s: &str, n: usize, i: usize, fuel: u128) -> (r: Option<(Vec<Json>, usize)>)
    requires
        i <= n,
        n == s@.len(),
    ensures
        match (r, spec_items(s@, i as int, fuel as nat)) {
            (Some((v, e)), Some((sv, se))) => views_of(v@) == sv && e as int == se && e <= n,
            (None, None) => true,
            _ => false,
        },
    decreases fuel,
{
    if fuel == 0 {
        return None;
    }
    let j = skip_ws(s, n, i);
    if j >= n {
        return None;
    }
    if s.get_char(j) == ']' {
        let out: Vec<Json> = Vec::new();
        proof {
            assert(views_of(out@) =~= Seq::<JsonV>::empty());
        }
        return Some((out, j + 1));
    }
    match parse_value(s, n, j, fuel - 1) {
        Some((v, k)) => match parse_items_more(s, n, k, fuel - 1) {
            Some((mut rest, end)) => {
                rest.insert(0, v);
                proof {
                    let ghost spv = spec_value(s@, j as int, (fuel - 1) as nat);
                    let ghost spr = spec_items_more(s@, spv.unwrap().1, (fuel - 1) as nat);
                    assert(views_of(rest@) =~= seq![spv.unwrap().0] + spr.unwrap().0);
                }
                Some((rest, end))
            },
            None => None,
        },
        None => None,
    }
}

fn parse_items_more(s: &str, n: usize, i: usize, fuel: u128) -> (r: Option<(Vec<Json>, usize)>)
    requires
        i <= n,
        n == s@.len(),
    ensures
        match (r, spec_items_more(s@, i as int, fuel as nat)) {
            (Some((v, e)), Some((sv, se))) => views_of(v@) == sv && e as int == se && e <= n,
            (None, None) => true,
            _ => false,
        },
    decreases fuel,
{
    if fuel == 0 {
        return None;
    }
    let j = skip_ws(s, n, i);
    if j >= n {
        return None;
    }
    let c = s.get_char(j);
    if c == ']' {
        let out: Vec<Json> = Vec::new();
        proof {
            assert(views_of(out@) =~= Seq::<JsonV>::empty());
        }
        return Some((out, j + 1));
    }
    if c != ',' {
        return None;
    }
    match parse_value(s, n, j + 1, fuel - 1) {
        Some((v, k)) => match parse_items_more(s, n, k, fuel - 1) {
            Some((mut rest, end)) => {
                rest.insert(0, v);
                proof {
                    let ghost spv = spec_value(s@, j + 1, (fuel - 1) as nat);
                    let ghost spr = spec_items_more(s@, spv.unwrap().1, (fuel - 1) as nat);
                    assert(views_of(rest@) =~= seq![spv.unwrap().0] + spr.unwrap().0);
                }
                Some((rest, end))
            },
            None => None,
        },
        None => None,
    }
}

fn parse_members(s: &str, n: usize, i: usize, fuel: u128) -> (r: Option<
    (Vec<(String, Json)>, usize),
>)
    requires
        i <= n,
        n == s@.len(),
    ensures
        match (r, spec_members(s@, i as int, fuel as nat)) {
            (Some((v, e)), Some((sv, se))) => entry_views_of(v@) == sv && e as int == se && e <= n,
            (None, None) => true,
            _ => false,
        },
    decreases fuel,
{
    if fuel == 0 {
        return None;
    }
    let j = skip_ws(s, n, i);
    if j >= n {
        return None;
    }
    let c = s.get_char(j);
    if c == '}' {
        let out: Vec<(String, Json)> = Vec::new();
        proof {
            assert(entry_views_of(out@) =~= Seq::<(Seq<char>, JsonV)>::empty());
        }
        return Some((out, j + 1));
    }
    if c != '"' {
        return None;
    }
    parse_member(s, n, j, fuel - 1)
}

fn parse_member(s: &str, n: usize, i: usize, fuel: u128) -> (r: Option<
    (Vec<(String, Json)>, usize),
>)
    requires
        i < n,
        n == s@.len(),
    ensures
        match (r, spec_member(s@, i as int, fuel as nat)) {
            (Some((v, e)), Some((sv, se))) => entry_views_of(v@) == sv && e as int == se && e <= n,
            (None, None) => true,
            _ => false,
        },
    decreases fuel,
{
    if fuel == 0 {
        return None;
    }
    match parse_str_body(s, n, i + 1) {
        Some((key, kend)) => {
            let j = skip_ws(s, n, kend);
            if j >= n {
                return None;
            }
            if s.get_char(j) != ':' {
                return None;
            }
            match parse_value(s, n, j + 1, fuel - 1) {
                Some((v, vend)) => match parse_members_more(s, n, vend, fuel - 1) {
                    Some((mut rest, end)) => {
                        let ghost key_view = key@;
                        rest.insert(0, (key, v));
                        proof {
                            let ghost spv = spec_value(s@, j + 1, (fuel - 1) as nat);
                            let ghost spr = spec_members_more(
                                s@,
                                spv.unwrap().1,
                                (fuel - 1) as nat,
                            );
                            assert(entry_views_of(rest@) =~= seq![(key_view, spv.unwrap().0)]
                                + spr.unwrap().0);
                        }
                        Some((rest, end))
                    },
                    None => None,
                },
                None => None,
            }
        },
        None => None,
    }
}

fn parse_members_more(s: &str, n: usize, i: usize, fuel: u128) -> (r: Option<
    (Vec<(String, Json)>, usize),
>)
    requires
        i <= n,
        n == s@.len(),
    ensures
        match (r, spec_members_more(s@, i as int, fuel as nat)) {
            (Some((v, e)), Some((sv, se))) => entry_views_of(v@) == sv && e as int == se && e <= n,
            (None, None) => true,
            _ => false,
        },
    decreases fuel,
{
    if fuel == 0 {
        return None;
    }
    let j = skip_ws(s, n, i);
    if j >= n {
        return None;
    }
    let c = s.get_char(j);
    if c == '}' {
        let out: Vec<(String, Json)> = Vec::new();
        proof {
            assert(entry_views_of(out@) =~= Seq::<(Seq<char>, JsonV)>::empty());
        }
        return Some((out, j + 1));
    }
    if c != ',' {
        return None;
    }
    let j2 = skip_ws(s, n, j + 1);
    if j2 >= n {
        return None;
    }
    if s.get_char(j2) != '"' {
        return None;
    }
    parse_member(s, n, j2, fuel - 1)
}

/// Parses a whole JSON text: one value with only whitespace around it.
pub fn parse_json(s: &str) -> (r: Option<Json>)
    ensures
        match (r, spec_parse(s@)) {
            (Some(j), Some(jv)) => j@ == jv,
            (None, None) => true,
            _ => false,
        },
{
    let n = s.unicode_len();
    let fuel: u128 = 2 * (n as u128) + 4;
    proof {
        assert(fuel as nat == spec_fuel(s@));
    }
    match parse_value(s, n, 0, fuel) {
        Some((v, end)) => {
            let rest = skip_ws(s, n, end);
            if rest == n {
                Some(v)
            } else {
                None
            }
        },
        None => None,
    }
}

} // verus!
