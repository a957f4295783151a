//! Authentication: credentials and the HMAC signer.
//!
//! One signing scheme serves both transports: the signature is
//! `BASE64(HMAC_SHA256(payload, secret))`, where the payload is the decimal
//! Unix timestamp followed by the HTTP method and route (REST) or by the
//! literal `authentication` (WebSocket), followed by the whitespace-stripped
//! JSON body when one is sent.  The timestamp that is signed is by
//! construction the very value transmitted to the server.

use vstd::prelude::*;
use crate::data::{AuthenticateTag, KolliderMsg, KolliderMsgV};
use crate::text::dec_str;

verus! {

/// What `base64::encode` returns for the given bytes (standard alphabet,
/// padded).
pub uninterp spec fn b64_of(data: Seq<u8>) -> Seq<char>;

/// What `base64::decode` accepts and returns: the decoded bytes, or nothing
/// when the text is not valid standard base64.
pub uninterp spec fn b64_decode_of(s: Seq<char>) -> Option<Seq<u8>>;

/// What `Hmac<Sha256>` computes over a key and a message's UTF-8 bytes.
pub uninterp spec fn hmac_sha256_of(key: Seq<u8>, msg: Seq<char>) -> Seq<u8>;

/// Relies on `base64::encode` (standard alphabet, padded): the result is a
/// function of the input bytes alone.
#[verifier::external_body]
fn b64_encode(data: &[u8]) -> (r: String)
    ensures
        r@ == b64_of(data@),
{
    base64::encode(data)
}

/// Relies on `base64::decode` (standard alphabet, padded): the result is a
/// function of the input text alone, and decoding fails exactly on text that
/// is not valid base64.
#[verifier::external_body]
fn b64_decode(s: &str) -> (r: Option<Vec<u8>>)
    ensures
        match r {
            Some(v) => b64_decode_of(s@) == Some(v@),
            None => b64_decode_of(s@) is None,
        },
{
    match base64::decode(s) {
        Ok(v) => Some(v),
        Err(_) => None,
    }
}

/// Relies on `Hmac::<Sha256>::new_from_slice`, `Mac::update` and
/// `Mac::finalize`: the digest is a function of key and message alone, and
/// `new_from_slice` accepts keys of any length for an HMAC (its source
/// returns `Ok` unconditionally), so the computation cannot fail.
#[verifier::external_body]
fn hmac_sha256(key: &[u8], msg: &str) -> (r: Vec<u8>)
    ensures
        r@ == hmac_sha256_of(key@, msg@),
{
    let mut mac = <hmac::Hmac<sha2::Sha256> as hmac::Mac>::new_from_slice(key).unwrap();
    hmac::Mac::update(&mut mac, msg.as_bytes());
    hmac::Mac::finalize(mac).into_bytes().to_vec()
}

/// Relies on `chrono::Utc::now` and `DateTime::timestamp`: seconds since the
/// Unix epoch.  The value depends on the clock, so nothing is promised of it.
#[verifier::external_body]
pub(crate) fn now_unix_seconds() -> i64 {
    chrono::Utc::now().timestamp()
}

/// Relies on `uuid::Uuid::new_v4` and its `to_string`: a random v4 UUID in
/// the hyphenated form, which is always 36 characters.  The value is random,
/// so nothing more is promised of it.
#[verifier::external_body]
pub(crate) fn gen_ext_order_id() -> (r: String)
    ensures
        r@.len() == 36,
{
    uuid::Uuid::new_v4().to_string()
}

/// Why credentials could not be built or used.
#[derive(Debug, PartialEq, Eq, Structural, Clone, Copy)]
pub enum AuthError {
    /// The API secret is not valid base64.
    ApiSecretDecode,
    /// The decoded secret was rejected by the MAC construction.
    ApiSecretLength,
}

/// Credentials of one account: API key, decoded API secret, passphrase.
/// Immutable once built; never logged.
#[derive(Debug, Clone, PartialEq)]
pub struct KolliderAuth {
    pub api_key: String,
    pub api_secret: Vec<u8>,
    pub password: String,
}

impl KolliderAuth {
    /// Builds credentials, decoding the base64 API secret once.  Fails
    /// exactly when the secret is not valid base64.
    pub fn new(api_key: &str, api_secret: &str, password: &str) -> (r: Result<
        KolliderAuth,
        AuthError,
    >)
        ensures
            match r {
                Ok(a) => b64_decode_of(api_secret@) == Some(a.api_secret@) && a.api_key@ == api_key@
                    && a.password@ == password@,
                Err(e) => b64_decode_of(api_secret@) is None && e == AuthError::ApiSecretDecode,
            },
    {
        match b64_decode(api_secret) {
            Some(secret) => Ok(
                KolliderAuth {
                    api_key: api_key.to_owned(),
                    api_secret: secret,
                    password: password.to_owned(),
                },
            ),
            None => Err(AuthError::ApiSecretDecode),
        }
    }
}

/// The payload the WebSocket authentication signature covers.
pub open spec fn ws_auth_payload(timestamp: u64) -> Seq<char> {
    dec_str(timestamp as nat) + "authentication"@
}

/// View of the WebSocket authentication message for given key, passphrase,
/// decoded secret and timestamp.
pub open spec fn user_auth_view_raw(
    token: Seq<char>,
    passphrase: Seq<char>,
    secret: Seq<u8>,
    timestamp: u64,
) -> KolliderMsgV {
    KolliderMsgV::UserAuth {
        token: token,
        passphrase: passphrase,
        signature: b64_of(hmac_sha256_of(secret, ws_auth_payload(timestamp))),
        timestamp: dec_str(timestamp as nat),
    }
}

/// View of the WebSocket authentication message for given credentials and
/// timestamp.
pub open spec fn user_auth_view(a: KolliderAuth, timestamp: u64) -> KolliderMsgV {
    user_auth_view_raw(a.api_key@, a.password@, a.api_secret@, timestamp)
}

/// The WebSocket authentication message: the signature covers exactly the
/// timestamp that the message transmits.
pub fn user_auth_msg(auth: &KolliderAuth, timestamp: u64) -> (r: KolliderMsg)
    ensures
        r@ == user_auth_view(*auth, timestamp),
        r.spec_is_outbound(),
{
    let mut ts = String::new();
    crate::text::append_u64(&mut ts, timestamp);
    let mut payload = ts.clone();
    payload.append("authentication");
    let digest = hmac_sha256(auth.api_secret.as_slice(), payload.as_str());
    let signature = b64_encode(digest.as_slice());
    KolliderMsg::UserAuth {
        _type: AuthenticateTag::Tag,
        token: auth.api_key.clone(),
        passphrase: auth.password.clone(),
        signature,
        timestamp: ts,
    }
}

/// Builds the WebSocket authentication message from raw credentials, signing
/// with the clock's current timestamp.  Fails exactly when the secret is not
/// valid base64.
pub fn make_user_auth(api_secret: &str, api_key: &str, passphrase: &str) -> (r: Result<
    KolliderMsg,
    AuthError,
>)
    ensures
        match r {
            Ok(m) => b64_decode_of(api_secret@) is Some && (exists|ts: u64|
                m@ == user_auth_view_raw(
                    api_key@,
                    passphrase@,
                    b64_decode_of(api_secret@)->0,
                    ts,
                )),
            Err(e) => b64_decode_of(api_secret@) is None && e == AuthError::ApiSecretDecode,
        },
{
    let auth = match KolliderAuth::new(api_key, api_secret, passphrase) {
        Ok(a) => a,
        Err(e) => {
            return Err(e);
        },
    };
    let now = now_unix_seconds();
    let ts: u64 = if now < 0 {
        0
    } else {
        now as u64
    };
    let msg = user_auth_msg(&auth, ts);
    proof {
        assert(msg@ == user_auth_view_raw(
            api_key@,
            passphrase@,
            b64_decode_of(api_secret@)->0,
            ts,
        ));
    }
    Ok(msg)
}

/// The whitespace characters stripped from a JSON body before signing.
pub open spec fn is_strip_ws(c: char) -> bool {
    c == ' ' || c == '\t' || c == '\n' || c == '\r'
}

/// The body with all whitespace characters removed.
pub open spec fn strip_ws(s: Seq<char>) -> Seq<char>
    decreases s.len(),
{
    if s.len() == 0 {
        Seq::empty()
    } else {
        strip_ws(s.drop_last()) + (if is_strip_ws(s.last()) {
            Seq::<char>::empty()
        } else {
            seq![s.last()]
        })
    }
}

/// The payload a REST request signature covers.
pub open spec fn rest_auth_payload(
    timestamp: u64,
    method: Seq<char>,
    route: Seq<char>,
    body: Option<Seq<char>>,
) -> Seq<char> {
    dec_str(timestamp as nat) + method + route + (match body {
        Some(b) => strip_ws(b),
        None => Seq::empty(),
    })
}

/// Signs one REST request: BASE64(HMAC_SHA256(timestamp + method + route +
/// whitespace-stripped body, secret)).
pub fn rest_signature(
    auth: &KolliderAuth,
    timestamp: u64,
    method: &str,
    route: &str,
    body: Option<&String>,
) -> (r: String)
    ensures
        r@ == b64_of(
            hmac_sha256_of(
                auth.api_secret@,
                rest_auth_payload(
                    timestamp,
                    method@,
                    route@,
                    match body {
                        Some(b) => Some(b@),
                        None => None,
                    },
                ),
            ),
        ),
{
    let mut payload = String::new();
    crate::text::append_u64(&mut payload, timestamp);
    payload.append(method);
    payload.append(route);
    match body {
        Some(b) => {
            append_stripped(&mut payload, b.as_str());
        },
        None => {},
    }
    let digest = hmac_sha256(auth.api_secret.as_slice(), payload.as_str());
    b64_encode(digest.as_slice())
}

/// Appends `s` with all whitespace characters removed.
fn append_stripped(out: &mut String, s: &str)
    ensures
        final(out)@ == old(out)@ + strip_ws(s@),
{
    let n = s.unicode_len();
    let mut i: usize = 0;
    while i < n
        invariant
            i <= n,
            n == s@.len(),
            out@ == old(out)@ + strip_ws(s@.subrange(0, i as int)),
        decreases n - i,
    {
        let c = s.get_char(i);
        if !(c == ' ' || c == '\t' || c == '\n' || c == '\r') {
            out.push(c);
        }
        proof {
            assert(s@.subrange(0, i + 1).drop_last() =~= s@.subrange(0, i as int));
            assert(s@.subrange(0, i + 1).last() == c);
            assert(out@ =~= old(out)@ + strip_ws(s@.subrange(0, i + 1)));
        }
        i = i + 1;
    }
    proof {
        assert(s@.subrange(0, n as int) =~= s@);
    }
}

} // verus!
