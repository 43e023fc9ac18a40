use base64::engine::general_purpose;
use base64::Engine;
use jito_sdk_rust::json::{JsonNumber, JsonValue};
use jito_sdk_rust::solana_types::{convert_transactions_to_base64, encode_serialized_transactions};
use jito_sdk_rust::{JitoJsonRpcSDK, SdkError};
use solana_transaction::Transaction;

fn text(s: &str) -> JsonValue {
    JsonValue::Text(s.to_string())
}

#[test]
fn base64_of_serialized_forms() {
    let serialized = vec![
        Some(b"Man".to_vec()),
        Some(b"Ma".to_vec()),
        Some(b"M".to_vec()),
        Some(vec![]),
        Some(vec![0xfb, 0xff, 0xbf, 0x00]),
    ];
    let r = encode_serialized_transactions(&serialized).unwrap();
    assert_eq!(r, vec!["TWFu", "TWE=", "TQ==", "", "+/+/AA=="]);
}

#[test]
fn failed_positions_are_listed() {
    let serialized = vec![None, Some(b"Man".to_vec()), None, Some(vec![1])];
    match encode_serialized_transactions(&serialized) {
        Err(SdkError::SerializationFailed(ix)) => assert_eq!(ix, vec![0, 2]),
        other => panic!("unexpected {:?}", other),
    }
}

#[test]
fn transactions_are_serialized_then_encoded() {
    let txs = vec![Transaction::default(), Transaction::default()];
    let encoded = convert_transactions_to_base64(&txs).unwrap();
    let expected = general_purpose::STANDARD.encode(bincode::serialize(&txs[0]).unwrap());
    assert_eq!(encoded, vec![expected.clone(), expected.clone()]);
    assert_ne!(expected, "");
    assert!(convert_transactions_to_base64(&[]).unwrap().is_empty());
}

#[test]
fn bundle_of_transactions_request() {
    let sdk = JitoJsonRpcSDK::new_with_base_url("https://block.engine", Some("u1".to_string()));
    let tx = Transaction::default();
    let expected = general_purpose::STANDARD.encode(bincode::serialize(&tx).unwrap());
    let req = sdk.send_bundle_of_transactions_request(&[tx.clone()]).unwrap();
    let same = sdk.send_bundle_base64_request(convert_transactions_to_base64(&[tx]).unwrap()).unwrap();
    assert_eq!(req.url, same.url);
    assert_eq!(req.body, same.body);
    assert_eq!(req.url, "https://block.engine/api/v1/bundles?uuid=u1");
    let body = JsonValue::Object(vec![
        ("jsonrpc".to_string(), text("2.0")),
        ("id".to_string(), JsonValue::Number(JsonNumber::PosInt(1))),
        ("method".to_string(), text("sendBundle")),
        (
            "params".to_string(),
            JsonValue::Array(vec![
                JsonValue::Array(vec![text(&expected)]),
                JsonValue::Object(vec![("encoding".to_string(), text("base64"))]),
            ]),
        ),
    ]);
    assert_eq!(req.body, body);
}
