use jito_sdk_rust::error::index_list_display;
use jito_sdk_rust::json::{JsonNumber, JsonValue};
use jito_sdk_rust::sdk::{random_tip_account_from_response, tip_account_from};
use jito_sdk_rust::text::{i64_to_decimal, str_ends_with, u64_to_decimal};
use jito_sdk_rust::{check_response_and_return, JitoJsonRpcSDK, JitoRpcErrorObject, PrettyJsonValue, SdkError};
use reqwest::StatusCode;

fn text(s: &str) -> JsonValue {
    JsonValue::Text(s.to_string())
}

fn object(entries: Vec<(&str, JsonValue)>) -> JsonValue {
    JsonValue::Object(entries.into_iter().map(|(k, v)| (k.to_string(), v)).collect())
}

fn num(i: i64) -> JsonValue {
    if i >= 0 {
        JsonValue::Number(JsonNumber::PosInt(i as u64))
    } else {
        JsonValue::Number(JsonNumber::NegInt(i))
    }
}

#[test]
fn answer_without_error_is_returned() {
    let body = object(vec![("jsonrpc", text("2.0")), ("result", text("sig")), ("id", num(1))]);
    let r = check_response_and_return(StatusCode::OK, body);
    let expected = object(vec![("jsonrpc", text("2.0")), ("result", text("sig")), ("id", num(1))]);
    assert_eq!(r.unwrap(), expected);
}

#[test]
fn answer_with_error_object_is_an_rpc_error() {
    let body = object(vec![(
        "error",
        object(vec![("code", num(-32602)), ("message", text("Invalid params"))]),
    )]);
    match check_response_and_return(StatusCode::BAD_REQUEST, body) {
        Err(JitoRpcErrorObject::RpcError { code, message, http_status }) => {
            assert_eq!(code, -32602);
            assert_eq!(message, "Invalid params");
            assert_eq!(http_status, StatusCode::BAD_REQUEST);
        }
        other => panic!("unexpected {:?}", other),
    }
}

#[test]
fn error_object_defaults() {
    let body = object(vec![("error", object(vec![("code", JsonValue::Number(JsonNumber::Float("1.5".to_string())))]))]);
    match check_response_and_return(StatusCode::OK, body) {
        Err(JitoRpcErrorObject::RpcError { code, message, .. }) => {
            assert_eq!(code, 0);
            assert_eq!(message, "Unknown error");
        }
        other => panic!("unexpected {:?}", other),
    }
    let big = object(vec![("error", object(vec![("code", JsonValue::Number(JsonNumber::PosInt(u64::MAX)))]))]);
    match check_response_and_return(StatusCode::OK, big) {
        Err(JitoRpcErrorObject::RpcError { code, .. }) => assert_eq!(code, 0),
        other => panic!("unexpected {:?}", other),
    }
}

#[test]
fn error_member_that_is_not_an_object_is_ignored() {
    let body = object(vec![("error", text("oops"))]);
    let r = check_response_and_return(StatusCode::OK, body);
    assert_eq!(r.unwrap(), object(vec![("error", text("oops"))]));
    let r = check_response_and_return(StatusCode::OK, JsonValue::Null);
    assert_eq!(r.unwrap(), JsonValue::Null);
}

#[test]
fn rpc_error_display_text() {
    let e = JitoRpcErrorObject::RpcError {
        code: -32602,
        message: "bad".to_string(),
        http_status: StatusCode::BAD_REQUEST,
    };
    assert_eq!(e.to_display_string(), "RPC Error -32602: bad (http status 400 Bad Request)");
    assert_eq!(
        SdkError::Request(e.clone()).message(),
        "Request error: RPC Error -32602: bad (http status 400 Bad Request)"
    );
    assert_eq!(
        SdkError::SendBundle(e).message(),
        "Failed to send bundle: RPC Error -32602: bad (http status 400 Bad Request)"
    );
}

#[test]
fn sdk_error_messages() {
    assert_eq!(
        SdkError::TipAccountsNotArray.message(),
        "Failed to parse 'result' as an array of tip accounts"
    );
    assert_eq!(SdkError::NoTipAccounts.message(), "No tip accounts available");
    assert_eq!(SdkError::NoTipAccountChosen.message(), "Failed to choose random tip account");
    assert_eq!(SdkError::TipAccountNotString.message(), "Failed to parse tip account as string");
    assert_eq!(
        SdkError::EmptyTransactionBundle.message(),
        "Transaction bundle is empty: expected at least one transaction to send"
    );
    assert_eq!(SdkError::EmptyBundle.message(), "Bundle must contain at least one transaction");
    assert_eq!(SdkError::TooManyTransactions.message(), "Bundle can contain at most 5 transactions");
    assert_eq!(
        SdkError::InvalidBundleFormat.message(),
        "Invalid bundle format: expected an array of transactions"
    );
    assert_eq!(
        SdkError::SerializationFailed(vec![0, 2, 13]).message(),
        "Failed to serialize transactions at indices: [0, 2, 13]"
    );
}

#[test]
fn index_lists_render_like_debug() {
    for v in [vec![], vec![7usize], vec![1, 20, 300], vec![usize::MAX]] {
        assert_eq!(index_list_display(&v), format!("{:?}", v));
    }
}

#[test]
fn decimal_rendering() {
    for i in [0i64, 7, 10, 42, -1, -32602, i64::MAX, i64::MIN] {
        assert_eq!(i64_to_decimal(i), i.to_string());
    }
    for n in [0u64, 9, 100, u64::MAX] {
        assert_eq!(u64_to_decimal(n), n.to_string());
    }
}

#[test]
fn suffix_test() {
    assert!(str_ends_with("abc/api/v1", "/api/v1"));
    assert!(!str_ends_with("v1", "/api/v1"));
    assert!(str_ends_with("héllo", "llo"));
    assert!(str_ends_with("x", ""));
}

#[test]
fn tip_account_not_array() {
    let r = random_tip_account_from_response(&object(vec![("result", text("x"))]));
    assert!(matches!(r, Err(SdkError::TipAccountsNotArray)));
    let r = random_tip_account_from_response(&object(vec![]));
    assert!(matches!(r, Err(SdkError::TipAccountsNotArray)));
}

#[test]
fn tip_account_empty_list() {
    let r = random_tip_account_from_response(&object(vec![("result", JsonValue::Array(vec![]))]));
    assert!(matches!(r, Err(SdkError::NoTipAccounts)));
}

#[test]
fn tip_account_drawn_from_list() {
    let accounts = ["96gYZGLnJYVFmbjzopPSU6QiEV5fGqZNyN9nmNhvrZU5", "HFqU5x63VTqvQss8hp11i4wVV8bD44PvwucfZ2bU7gRe"];
    let resp = object(vec![("result", JsonValue::Array(accounts.iter().map(|a| text(a)).collect()))]);
    for _ in 0..20 {
        let a = random_tip_account_from_response(&resp).unwrap();
        assert!(accounts.contains(&a.as_str()));
    }
    let one = object(vec![("result", JsonValue::Array(vec![text("only")]))]);
    assert_eq!(random_tip_account_from_response(&one).unwrap(), "only");
}

#[test]
fn tip_account_not_string() {
    let resp = object(vec![("result", JsonValue::Array(vec![num(3)]))]);
    assert!(matches!(random_tip_account_from_response(&resp), Err(SdkError::TipAccountNotString)));
    assert!(matches!(tip_account_from(&JsonValue::Null), Err(SdkError::TipAccountNotString)));
    assert_eq!(tip_account_from(&text("acc")).unwrap(), "acc");
}

#[test]
fn lookup_takes_first_entry() {
    let o = object(vec![("k", num(1)), ("k", num(2))]);
    assert_eq!(o.get("k"), Some(&num(1)));
    assert_eq!(text("k").get("k"), None);
    assert_eq!(num(-5).as_i64(), Some(-5));
    assert_eq!(JsonValue::Bool(true).as_bool(), Some(true));
    assert!(o.is_object());
}

#[test]
fn prettify_keeps_value() {
    let p = JitoJsonRpcSDK::prettify(text("v"));
    assert_eq!(p.0, text("v"));
    let q: PrettyJsonValue = PrettyJsonValue::from(num(4));
    assert_eq!(q.0, num(4));
}

#[test]
fn http_error_display_text() {
    let err = reqwest::Client::new().get("not a url").build().unwrap_err();
    let expected = format!("HTTP Error: {}", err);
    let e = JitoRpcErrorObject::from(err);
    assert!(matches!(e, JitoRpcErrorObject::HttpError(_)));
    assert_eq!(e.to_display_string(), expected);
    assert_eq!(SdkError::Request(e).message(), format!("Request error: {}", expected));
}

#[test]
fn deep_copy_is_equal() {
    let v = object(vec![
        ("a", JsonValue::Array(vec![num(1), num(-2), JsonValue::Null])),
        ("b", object(vec![("c", text("d")), ("e", JsonValue::Number(JsonNumber::Float("2.5".into())))])),
    ]);
    assert_eq!(v.deep_copy(), v);
    assert_eq!(v.clone(), v);
}

#[test]
fn clones_keep_everything() {
    let e = JitoRpcErrorObject::RpcError {
        code: 7,
        message: "m".to_string(),
        http_status: StatusCode::NOT_FOUND,
    };
    assert_eq!(e.clone().to_display_string(), "RPC Error 7: m (http status 404 Not Found)");
    let s = JitoJsonRpcSDK::new_with_base_url("https://a.b", Some("k".to_string()));
    let t = s.clone();
    assert_eq!(t.base_url(), "https://a.b");
    assert_eq!(t.jito_auth_uuid(), Some("k"));
}
