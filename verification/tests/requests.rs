use jito_sdk_rust::json::{JsonNumber, JsonValue};
use jito_sdk_rust::request::{endpoint_with_uuid, RpcRequest};
use jito_sdk_rust::sdk::is_accepted_base_url;
use jito_sdk_rust::{JitoJsonRpcSDK, SdkError};

const BASE: &str = "https://mainnet.block-engine.jito.wtf";

fn text(s: &str) -> JsonValue {
    JsonValue::Text(s.to_string())
}

fn object(entries: Vec<(&str, JsonValue)>) -> JsonValue {
    JsonValue::Object(entries.into_iter().map(|(k, v)| (k.to_string(), v)).collect())
}

fn envelope(method: &str, params: JsonValue) -> JsonValue {
    object(vec![
        ("jsonrpc", text("2.0")),
        ("id", JsonValue::Number(JsonNumber::PosInt(1))),
        ("method", text(method)),
        ("params", params),
    ])
}

fn encoding() -> JsonValue {
    object(vec![("encoding", text("base64"))])
}

fn texts(items: &[&str]) -> JsonValue {
    JsonValue::Array(items.iter().map(|s| text(s)).collect())
}

fn sdk(uuid: Option<&str>) -> JitoJsonRpcSDK {
    JitoJsonRpcSDK::new_with_base_url(BASE, uuid.map(|u| u.to_string()))
}

fn check(req: &RpcRequest, url: &str, body: JsonValue) {
    assert_eq!(req.url, url);
    assert_eq!(req.body, body);
}

#[test]
fn base_url_acceptance() {
    assert!(is_accepted_base_url(BASE));
    assert!(is_accepted_base_url("http://localhost:1234"));
    assert!(!is_accepted_base_url("https://mainnet.block-engine.jito.wtf/api/v1"));
    assert!(!is_accepted_base_url("https://mainnet.block-engine.jito.wtf/"));
    assert!(!is_accepted_base_url("/"));
    assert!(is_accepted_base_url(""));
    assert!(is_accepted_base_url("https://x/api/v2"));
}

#[test]
fn handle_keeps_configuration() {
    let s = sdk(Some("key-1"));
    assert_eq!(s.base_url(), BASE);
    assert_eq!(s.jito_auth_uuid(), Some("key-1"));
    let t = s.clone();
    assert_eq!(t.base_url(), BASE);
    assert_eq!(sdk(None).jito_auth_uuid(), None);
}

#[test]
fn endpoint_query() {
    assert_eq!(endpoint_with_uuid("/api/v1/bundles", None), "/api/v1/bundles");
    assert_eq!(endpoint_with_uuid("/api/v1/bundles", Some("abc")), "/api/v1/bundles?uuid=abc");
}

#[test]
fn tip_accounts_request_without_key() {
    let req = sdk(None).get_tip_accounts_request();
    check(
        &req,
        "https://mainnet.block-engine.jito.wtf/api/v1/bundles",
        envelope("getTipAccounts", JsonValue::Array(vec![])),
    );
}

#[test]
fn tip_accounts_request_with_key() {
    let req = sdk(Some("my-uuid")).get_tip_accounts_request();
    assert_eq!(req.url, "https://mainnet.block-engine.jito.wtf/api/v1/bundles?uuid=my-uuid");
}

#[test]
fn bundle_statuses_request() {
    let req = sdk(Some("k")).get_bundle_statuses_request(vec!["b1".to_string(), "b2".to_string()]);
    check(
        &req,
        "https://mainnet.block-engine.jito.wtf/api/v1/getBundleStatuses?uuid=k",
        envelope("getBundleStatuses", JsonValue::Array(vec![texts(&["b1", "b2"])])),
    );
}

#[test]
fn in_flight_bundle_statuses_request() {
    let req = sdk(None).get_in_flight_bundle_statuses_request(vec!["b1".to_string()]);
    check(
        &req,
        "https://mainnet.block-engine.jito.wtf/api/v1/getInflightBundleStatuses",
        envelope("getInflightBundleStatuses", JsonValue::Array(vec![texts(&["b1"])])),
    );
}

#[test]
fn send_bundle_base64_rejects_empty() {
    let r = sdk(None).send_bundle_base64_request(vec![]);
    assert!(matches!(r, Err(SdkError::EmptyTransactionBundle)));
}

#[test]
fn send_bundle_base64_request_body() {
    let req = sdk(Some("u")).send_bundle_base64_request(vec!["AAA=".to_string()]).unwrap();
    check(
        &req,
        "https://mainnet.block-engine.jito.wtf/api/v1/bundles?uuid=u",
        envelope("sendBundle", JsonValue::Array(vec![texts(&["AAA="]), encoding()])),
    );
}

#[test]
fn send_bundle_rejects_non_arrays() {
    let s = sdk(None);
    assert!(matches!(s.send_bundle_request(None, None), Err(SdkError::InvalidBundleFormat)));
    assert!(matches!(
        s.send_bundle_request(Some(text("tx")), None),
        Err(SdkError::InvalidBundleFormat)
    ));
    assert!(matches!(
        s.send_bundle_request(Some(object(vec![])), None),
        Err(SdkError::InvalidBundleFormat)
    ));
}

#[test]
fn send_bundle_rejects_empty_and_oversized() {
    let s = sdk(None);
    assert!(matches!(
        s.send_bundle_request(Some(JsonValue::Array(vec![])), None),
        Err(SdkError::EmptyBundle)
    ));
    let six = texts(&["a", "b", "c", "d", "e", "f"]);
    assert!(matches!(s.send_bundle_request(Some(six), None), Err(SdkError::TooManyTransactions)));
}

#[test]
fn send_bundle_wraps_transaction_list() {
    let req = sdk(Some("own")).send_bundle_request(Some(texts(&["t1"])), Some("given")).unwrap();
    check(
        &req,
        "https://mainnet.block-engine.jito.wtf/api/v1/bundles?uuid=given",
        envelope("sendBundle", JsonValue::Array(vec![texts(&["t1"]), encoding()])),
    );
    let five = texts(&["a", "b", "c", "d", "e"]);
    let req = sdk(None).send_bundle_request(Some(five), None).unwrap();
    check(
        &req,
        "https://mainnet.block-engine.jito.wtf/api/v1/bundles",
        envelope(
            "sendBundle",
            JsonValue::Array(vec![texts(&["a", "b", "c", "d", "e"]), encoding()]),
        ),
    );
}

#[test]
fn send_bundle_keeps_two_element_array() {
    let pair = JsonValue::Array(vec![texts(&["t1", "t2"]), encoding()]);
    let req = sdk(None).send_bundle_request(Some(pair), None).unwrap();
    check(
        &req,
        "https://mainnet.block-engine.jito.wtf/api/v1/bundles",
        envelope("sendBundle", JsonValue::Array(vec![texts(&["t1", "t2"]), encoding()])),
    );
}

#[test]
fn send_txn_request_from_options() {
    let params = object(vec![("tx", text("c2lnbmVk")), ("skipPreflight", JsonValue::Bool(true))]);
    let req = sdk(Some("ignored")).send_txn_request(Some(params), false);
    check(
        &req,
        "https://mainnet.block-engine.jito.wtf/api/v1/transactions",
        envelope(
            "sendTransaction",
            JsonValue::Array(vec![
                text("c2lnbmVk"),
                object(vec![("encoding", text("base64")), ("skipPreflight", JsonValue::Bool(true))]),
            ]),
        ),
    );
}

#[test]
fn send_txn_request_defaults() {
    let params = object(vec![("tx", JsonValue::Number(JsonNumber::PosInt(5)))]);
    let req = sdk(None).send_txn_request(Some(params), true);
    check(
        &req,
        "https://mainnet.block-engine.jito.wtf/api/v1/transactions?bundleOnly=true",
        envelope(
            "sendTransaction",
            JsonValue::Array(vec![
                text(""),
                object(vec![("encoding", text("base64")), ("skipPreflight", JsonValue::Bool(false))]),
            ]),
        ),
    );
}

#[test]
fn send_txn_request_without_options() {
    let req = sdk(None).send_txn_request(Some(texts(&["x"])), false);
    check(
        &req,
        "https://mainnet.block-engine.jito.wtf/api/v1/transactions",
        envelope("sendTransaction", JsonValue::Array(vec![])),
    );
    let req = sdk(None).send_txn_request(None, false);
    assert_eq!(req.body, envelope("sendTransaction", JsonValue::Array(vec![])));
}

#[test]
fn envelope_members_read_back() {
    let req = sdk(None).send_txn_request(None, false);
    assert_eq!(req.body.get("jsonrpc").and_then(|v| v.as_str()), Some("2.0"));
    assert_eq!(req.body.get("id").and_then(|v| v.as_i64()), Some(1));
    assert_eq!(req.body.get("method").and_then(|v| v.as_str()), Some("sendTransaction"));
    assert_eq!(req.body.get("params"), Some(&JsonValue::Array(vec![])));
    assert_eq!(req.body.get("missing"), None);
}

#[test]
fn send_bundle_agrees_with_base64_call() {
    let s = sdk(Some("key"));
    let a = s.send_bundle_request(Some(texts(&["x", "y", "z"])), Some("key")).unwrap();
    let b = s.send_bundle_base64_request(vec!["x".into(), "y".into(), "z".into()]).unwrap();
    assert_eq!(a.url, b.url);
    assert_eq!(a.body, b.body);
}
