//! Tests of credential handling and the HMAC signer, against independently
//! computed reference values.

use kollider_api::auth::{make_user_auth, rest_signature, AuthError, KolliderAuth};
use kollider_api::data::KolliderMsg;
use kollider_api::encode::encode_msg;

// base64("secretkey")
const SECRET_B64: &str = "c2VjcmV0a2V5";

#[test]
fn credentials_decode_the_secret_once() {
    let auth = KolliderAuth::new("key", SECRET_B64, "pass").unwrap();
    assert_eq!(auth.api_key, "key");
    assert_eq!(auth.api_secret, b"secretkey".to_vec());
    assert_eq!(auth.password, "pass");
}

#[test]
fn credentials_reject_bad_base64() {
    assert_eq!(
        KolliderAuth::new("key", "!!!not-base64!!!", "pass"),
        Err(AuthError::ApiSecretDecode)
    );
}

#[test]
fn ws_signature_covers_the_transmitted_timestamp() {
    // HMAC_SHA256("1640000000" + "authentication", "secretkey"), base64-coded
    let auth = KolliderAuth::new("key", SECRET_B64, "pass").unwrap();
    let msg = kollider_api::auth::user_auth_msg(&auth, 1640000000);
    match msg {
        KolliderMsg::UserAuth { ref token, ref passphrase, ref signature, ref timestamp, .. } => {
            assert_eq!(token, "key");
            assert_eq!(passphrase, "pass");
            assert_eq!(timestamp, "1640000000");
            assert_eq!(signature, "SA7+RnCjw9qvdD+kbHvxRSSswjB8wRR6YYPQueH7V/0=");
        }
        other => panic!("expected an authentication message, got {:?}", other),
    }
    assert_eq!(
        encode_msg(&kollider_api::auth::user_auth_msg(&auth, 1640000000)),
        r#"{"type":"authenticate","token":"key","passphrase":"pass","signature":"SA7+RnCjw9qvdD+kbHvxRSSswjB8wRR6YYPQueH7V/0=","timestamp":"1640000000"}"#
    );
}

#[test]
fn make_user_auth_fails_fast_on_a_bad_secret() {
    assert!(matches!(
        make_user_auth("***", "key", "pass"),
        Err(AuthError::ApiSecretDecode)
    ));
    // with a good secret it builds an authentication frame
    let msg = make_user_auth(SECRET_B64, "key", "pass").unwrap();
    assert!(matches!(msg, KolliderMsg::UserAuth { .. }));
}

#[test]
fn rest_signature_reference_values() {
    let auth = KolliderAuth::new("key", SECRET_B64, "pass").unwrap();
    // HMAC_SHA256("1640000000" + "GET" + "/positions", "secretkey")
    assert_eq!(
        rest_signature(&auth, 1640000000, "GET", "/positions", None),
        "q0XU+IrrYLrFj3DcMdxgehumkm5+5vogfTQT8w1Wka0="
    );
    // the body is whitespace-stripped before signing
    let body = "{\"price\": 100}".to_owned();
    assert_eq!(
        rest_signature(&auth, 1640000000, "POST", "/orders", Some(&body)),
        "k16prGh7Synm0ixlEBGO7ZskuhHcVvasZXxCNoQjGSg="
    );
}
