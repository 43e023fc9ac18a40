# jito_sdk_rust

A client for the JSON-RPC interface of Jito's block engine (tip accounts,
bundles, bundle statuses, transactions), split into a verified core and a
thin asynchronous shell.

- `src/` is verified with Verus:
  - `json.rs`: JSON documents (`JsonValue`) and their model (`JsonModel`),
    member lookup and the typed accessors the calls use.
  - `text.rs`: suffix tests, concatenation, decimal rendering.
  - `request.rs`: the JSON-RPC 2.0 envelope, endpoints with the `uuid` query.
  - `sdk.rs`: the handle `JitoJsonRpcSDK`, the request of every call, the
    checking of answers (`check_response_and_return`) and the drawing of a
    tip account.
  - `solana_types.rs`: bincode serialization and base64 text of signed
    transactions, and the bundle request built from them.
  - `error.rs`: `JitoRpcErrorObject`, `SdkError` and their texts.
  - `laws.rs`: properties that relate the calls.
- `app/` posts the requests with reqwest, converts between `JsonValue` and
  `serde_json::Value`, and offers the asynchronous calls through the
  `JitoRpc` trait.
- `tests/` runs the library on concrete values.
