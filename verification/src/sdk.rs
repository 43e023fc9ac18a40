//! The SDK handle and the work of each JSON-RPC call before and after the exchange.
use rand::seq::IndexedRandom;
use vstd::prelude::*;
use vstd::string::StringExecFns;

use crate::error::{JitoRpcErrorObject, SdkError};
use crate::json::{lookup, JsonModel, JsonValue};
use crate::request::{
    base64_encoding, build_request, empty_array, endpoint_with_uuid, opt_json, opt_str,
    opt_string, request_model, singleton_array, with_base64_encoding, with_uuid, RequestModel,
    RpcRequest,
};
use crate::json::{string_views, text_array};
use crate::text::{seq_ends_with, str_ends_with};

verus! {

/// The HTTP client.
#[verifier::external_type_specification]
#[verifier::external_body]
pub struct ExHttpClient(reqwest::Client);

/// The client's `Clone` is derived over one shared pointer: a clone is a
/// handle on the same client.
pub assume_specification[ <reqwest::Client as Clone>::clone ](client: &reqwest::Client) -> (res: reqwest::Client)
    ensures
        res == *client,
;

/// Creates an HTTP client with the default settings.
///
/// reqwest documents that this panics when the TLS backend cannot be
/// initialized or the resolver cannot load the system configuration. With
/// the rustls backend and the default resolver used here, building the
/// default client has no such failure path.
#[verifier::external_body]
fn new_http_client() -> (client: reqwest::Client) {
    reqwest::Client::new()
}

/// The configuration of an SDK handle.
pub struct SdkModel {
    pub base_url: Seq<char>,
    pub uuid: Option<Seq<char>>,
}

/// A handle on a block engine: its base URL, the optional authentication
/// key, and the HTTP client that carries the calls.
pub struct JitoJsonRpcSDK {
    base_url: String,
    jito_auth_uuid: Option<String>,
    client: reqwest::Client,
}

impl View for JitoJsonRpcSDK {
    type V = SdkModel;

    closed spec fn view(&self) -> SdkModel {
        SdkModel { base_url: self.base_url@, uuid: opt_string(self.jito_auth_uuid) }
    }
}

impl Clone for JitoJsonRpcSDK {
    /// A handle with the same configuration, sharing the HTTP client.
    fn clone(&self) -> (r: JitoJsonRpcSDK)
        ensures
            r == *self,
    {
        let jito_auth_uuid = match &self.jito_auth_uuid {
            Some(u) => Some(u.clone()),
            None => None,
        };
        JitoJsonRpcSDK {
            base_url: self.base_url.clone(),
            jito_auth_uuid,
            client: self.client.clone(),
        }
    }
}

/// A base URL is accepted when it carries no API version and no trailing slash.
pub open spec fn base_url_accepted(url: Seq<char>) -> bool {
    !seq_ends_with(url, "/api/v1"@) && !seq_ends_with(url, "/"@)
}

/// Tests whether `base_url` is accepted by `new_with_base_url`.
pub fn is_accepted_base_url(base_url: &str) -> (r: bool)
    ensures
        r == base_url_accepted(base_url@),
{
    !str_ends_with(base_url, "/api/v1") && !str_ends_with(base_url, "/")
}

// ---------------------------------------------------------------------------
// Models of the requests of each call.
// ---------------------------------------------------------------------------

/// `getTipAccounts`.
pub open spec fn tip_accounts_request(c: SdkModel) -> RequestModel {
    request_model(
        c.base_url,
        with_uuid("/api/v1/bundles"@, c.uuid),
        "getTipAccounts"@,
        empty_array(),
    )
}

/// `getBundleStatuses` for the given bundle ids.
pub open spec fn bundle_statuses_request(c: SdkModel, ids: Seq<Seq<char>>) -> RequestModel {
    request_model(
        c.base_url,
        with_uuid("/api/v1/getBundleStatuses"@, c.uuid),
        "getBundleStatuses"@,
        JsonModel::Array(seq![text_array(ids)]),
    )
}

/// `getInflightBundleStatuses` for the given bundle ids.
pub open spec fn in_flight_bundle_statuses_request(c: SdkModel, ids: Seq<Seq<char>>) -> RequestModel {
    request_model(
        c.base_url,
        with_uuid("/api/v1/getInflightBundleStatuses"@, c.uuid),
        "getInflightBundleStatuses"@,
        JsonModel::Array(seq![text_array(ids)]),
    )
}

/// `sendBundle` of base64-encoded transactions, posted to `path`.
pub open spec fn encoded_bundle_request(c: SdkModel, path: Seq<char>, txs: Seq<Seq<char>>) -> RequestModel {
    request_model(
        c.base_url,
        with_uuid(path, c.uuid),
        "sendBundle"@,
        JsonModel::Array(seq![text_array(txs), base64_encoding()]),
    )
}

/// `sendBundle` of base64-encoded transactions at `/api/v1/bundles`.
pub open spec fn bundle_base64_request(c: SdkModel, txs: Seq<Seq<char>>) -> RequestModel {
    encoded_bundle_request(c, "/api/v1/bundles"@, txs)
}

/// The outcome of checking the parameters handed to `send_bundle`.
pub enum BundleParams {
    /// The parameters to send.
    Accepted(JsonModel),
    Empty,
    TooMany,
    Invalid,
}

/// An array of two elements is taken as already in the form
/// `[transactions, options]` and sent as it is; any other array is a list
/// of one to five transactions, sent with the base64 encoding option.
pub open spec fn check_bundle_params(params: Option<JsonModel>) -> BundleParams {
    match params {
        Some(JsonModel::Array(items)) => if items.len() == 2 {
            BundleParams::Accepted(JsonModel::Array(items))
        } else if items.len() == 0 {
            BundleParams::Empty
        } else if items.len() > 5 {
            BundleParams::TooMany
        } else {
            BundleParams::Accepted(JsonModel::Array(seq![JsonModel::Array(items), base64_encoding()]))
        },
        _ => BundleParams::Invalid,
    }
}

/// `sendBundle` with checked parameters, authenticated by the given key.
pub open spec fn send_bundle_request_model(c: SdkModel, uuid: Option<Seq<char>>, params: JsonModel) -> RequestModel {
    request_model(c.base_url, with_uuid("/api/v1/bundles"@, uuid), "sendBundle"@, params)
}

/// The endpoint of `sendTransaction`.
pub open spec fn txn_endpoint(bundle_only: bool) -> Seq<char> {
    if bundle_only {
        "/api/v1/transactions?bundleOnly=true"@
    } else {
        "/api/v1/transactions"@
    }
}

/// The transaction text of `sendTransaction` options: their `tx` string, or empty.
pub open spec fn txn_text(entries: Seq<(Seq<char>, JsonModel)>) -> Seq<char> {
    match lookup(entries, "tx"@) {
        Some(v) => match v.as_str() {
            Some(s) => s,
            None => Seq::empty(),
        },
        None => Seq::empty(),
    }
}

/// The `skipPreflight` flag of `sendTransaction` options, false when absent.
pub open spec fn txn_skip_preflight(entries: Seq<(Seq<char>, JsonModel)>) -> bool {
    match lookup(entries, "skipPreflight"@) {
        Some(v) => match v.as_bool() {
            Some(b) => b,
            None => false,
        },
        None => false,
    }
}

/// The options object sent with a transaction.
pub open spec fn txn_options(skip_preflight: bool) -> JsonModel {
    JsonModel::Object(
        seq![
            ("encoding"@, JsonModel::Text("base64"@)),
            ("skipPreflight"@, JsonModel::Bool(skip_preflight)),
        ],
    )
}

/// The parameters of `sendTransaction`: from an object, its transaction and
/// preflight flag; from anything else, an empty array.
pub open spec fn txn_params(params: Option<JsonModel>) -> JsonModel {
    match params {
        Some(JsonModel::Object(entries)) => JsonModel::Array(
            seq![JsonModel::Text(txn_text(entries)), txn_options(txn_skip_preflight(entries))],
        ),
        _ => empty_array(),
    }
}

/// `sendTransaction`.
pub open spec fn send_txn_request_model(c: SdkModel, params: Option<JsonModel>, bundle_only: bool) -> RequestModel {
    request_model(c.base_url, txn_endpoint(bundle_only), "sendTransaction"@, txn_params(params))
}

impl JitoJsonRpcSDK {
    /// Creates a handle on the block engine at `base_url` (for example
    /// `https://mainnet.block-engine.jito.wtf`), which must carry neither
    /// the API version nor a trailing slash.
    pub fn new_with_base_url(base_url: &str, jito_auth_uuid: Option<String>) -> (sdk: Self)
        requires
            base_url_accepted(base_url@),
        ensures
            sdk@.base_url == base_url@,
            sdk@.uuid == opt_string(jito_auth_uuid),
    {
        JitoJsonRpcSDK {
            base_url: String::from_str(base_url),
            jito_auth_uuid,
            client: new_http_client(),
        }
    }

    pub fn base_url(&self) -> (r: &str)
        ensures
            r@ == self@.base_url,
    {
        self.base_url.as_str()
    }

    pub fn jito_auth_uuid(&self) -> (r: Option<&str>)
        ensures
            opt_str(r) == self@.uuid,
    {
        match &self.jito_auth_uuid {
            Some(u) => Some(u.as_str()),
            None => None,
        }
    }

    /// The HTTP client of the handle.
    pub closed spec fn http_client(&self) -> reqwest::Client {
        self.client
    }

    /// The HTTP client that carries the calls.
    pub fn client(&self) -> (r: &reqwest::Client)
        ensures
            *r == self.http_client(),
    {
        &self.client
    }

    /// The request of `getTipAccounts`.
    pub fn get_tip_accounts_request(&self) -> (r: RpcRequest)
        ensures
            r@ == tip_accounts_request(self@),
    {
        let endpoint = endpoint_with_uuid("/api/v1/bundles", self.jito_auth_uuid());
        build_request(self.base_url(), endpoint.as_str(), "getTipAccounts", None)
    }

    /// The request of `getBundleStatuses` for the given bundle ids.
    pub fn get_bundle_statuses_request(&self, bundle_uuids: Vec<String>) -> (r: RpcRequest)
        ensures
            r@ == bundle_statuses_request(self@, string_views(bundle_uuids@)),
    {
        let endpoint = endpoint_with_uuid("/api/v1/getBundleStatuses", self.jito_auth_uuid());
        let params = singleton_array(JsonValue::text_array(bundle_uuids));
        build_request(self.base_url(), endpoint.as_str(), "getBundleStatuses", Some(params))
    }

    /// The request of `getInflightBundleStatuses` for the given bundle ids.
    pub fn get_in_flight_bundle_statuses_request(&self, bundle_uuids: Vec<String>) -> (r:
        RpcRequest)
        ensures
            r@ == in_flight_bundle_statuses_request(self@, string_views(bundle_uuids@)),
    {
        let endpoint = endpoint_with_uuid(
            "/api/v1/getInflightBundleStatuses",
            self.jito_auth_uuid(),
        );
        let params = singleton_array(JsonValue::text_array(bundle_uuids));
        build_request(self.base_url(), endpoint.as_str(), "getInflightBundleStatuses", Some(params))
    }

    /// The `sendBundle` request of base64-encoded transactions, posted to `path`.
    pub fn encoded_bundle_request(&self, path: &str, encoded_txs: Vec<String>) -> (r: RpcRequest)
        ensures
            r@ == encoded_bundle_request(self@, path@, string_views(encoded_txs@)),
    {
        let endpoint = endpoint_with_uuid(path, self.jito_auth_uuid());
        let params = with_base64_encoding(JsonValue::text_array(encoded_txs));
        build_request(self.base_url(), endpoint.as_str(), "sendBundle", Some(params))
    }

    /// The request of `sendBundle` for base64-encoded transactions; at least
    /// one transaction is needed.
    pub fn send_bundle_base64_request(&self, encoded_txs: Vec<String>) -> (r: Result<
        RpcRequest,
        SdkError,
    >)
        ensures
            encoded_txs@.len() == 0 ==> r matches Err(SdkError::EmptyTransactionBundle),
            encoded_txs@.len() > 0 ==> (r matches Ok(req) && req@ == bundle_base64_request(
                self@,
                string_views(encoded_txs@),
            )),
    {
        if encoded_txs.len() == 0 {
            return Err(SdkError::EmptyTransactionBundle);
        }
        Ok(self.encoded_bundle_request("/api/v1/bundles", encoded_txs))
    }

    /// The request of `sendBundle` for caller-supplied parameters, authenticated
    /// by `jito_auth_uuid` (not by the handle's own key).
    pub fn send_bundle_request(&self, params: Option<JsonValue>, jito_auth_uuid: Option<&str>) -> (r:
        Result<RpcRequest, SdkError>)
        ensures
            match check_bundle_params(opt_json(params)) {
                BundleParams::Accepted(p) => r matches Ok(req) && req@
                    == send_bundle_request_model(self@, opt_str(jito_auth_uuid), p),
                BundleParams::Empty => r matches Err(SdkError::EmptyBundle),
                BundleParams::TooMany => r matches Err(SdkError::TooManyTransactions),
                BundleParams::Invalid => r matches Err(SdkError::InvalidBundleFormat),
            },
    {
        let endpoint = endpoint_with_uuid("/api/v1/bundles", jito_auth_uuid);
        let request_params = match params {
            Some(JsonValue::Array(transactions)) => {
                let n = transactions.len();
                if n == 2 {
                    JsonValue::Array(transactions)
                } else if n == 0 {
                    return Err(SdkError::EmptyBundle);
                } else if n > 5 {
                    return Err(SdkError::TooManyTransactions);
                } else {
                    with_base64_encoding(JsonValue::Array(transactions))
                }
            },
            _ => {
                return Err(SdkError::InvalidBundleFormat);
            },
        };
        Ok(build_request(self.base_url(), endpoint.as_str(), "sendBundle", Some(request_params)))
    }

    /// The request of `sendTransaction`. From an object of options, the
    /// transaction is its `tx` string (empty when missing) and the preflight
    /// flag its `skipPreflight` boolean (false when missing); any other
    /// parameters give an empty array.
    pub fn send_txn_request(&self, params: Option<JsonValue>, bundle_only: bool) -> (r: RpcRequest)
        ensures
            r@ == send_txn_request_model(self@, opt_json(params), bundle_only),
    {
        let endpoint = if bundle_only {
            String::from_str("/api/v1/transactions?bundleOnly=true")
        } else {
            String::from_str("/api/v1/transactions")
        };
        let ghost pm = opt_json(params);
        let request_params = match &params {
            Some(map) if map.is_object() => {
                let ghost entries = map@->Object_0;
                let tx: &str = match map.get("tx") {
                    Some(v) => match v.as_str() {
                        Some(s) => s,
                        None => "",
                    },
                    None => "",
                };
                proof { reveal_strlit(""); }
                assert(tx@ == txn_text(entries));
                let skip_preflight = match map.get("skipPreflight") {
                    Some(v) => match v.as_bool() {
                        Some(b) => b,
                        None => false,
                    },
                    None => false,
                };
                assert(skip_preflight == txn_skip_preflight(entries));
                let k0 = String::from_str("encoding");
                let v0 = JsonValue::text("base64");
                let k1 = String::from_str("skipPreflight");
                let v1 = JsonValue::Bool(skip_preflight);
                assert(v1@ == JsonModel::Bool(skip_preflight));
                let options = JsonValue::Object(vec![(k0, v0), (k1, v1)]);
                proof {
                    let m = options@->Object_0;
                    let e = txn_options(skip_preflight)->Object_0;
                    assert(m[0] == e[0]);
                    assert(m[1] == e[1]);
                    assert(m =~= e);
                }
                let first = JsonValue::text(tx);
                let arr = JsonValue::Array(vec![first, options]);
                assert(arr@->Array_0 =~= txn_params(pm)->Array_0);
                arr
            },
            _ => {
                let arr = JsonValue::Array(Vec::new());
                assert(arr@->Array_0 =~= txn_params(pm)->Array_0);
                arr
            },
        };
        build_request(self.base_url(), endpoint.as_str(), "sendTransaction", Some(request_params))
    }
}

// ---------------------------------------------------------------------------
// Checking an answer.
// ---------------------------------------------------------------------------

/// The error object of an answer: its `error` member, when that is an object.
pub open spec fn error_object(body: JsonModel) -> Option<Seq<(Seq<char>, JsonModel)>> {
    match body.get("error"@) {
        Some(e) => e.as_object(),
        None => None,
    }
}

/// The code of an error object: its `code` member as an `i64`, else 0.
pub open spec fn error_code(entries: Seq<(Seq<char>, JsonModel)>) -> int {
    match lookup(entries, "code"@) {
        Some(v) => match v.as_i64() {
            Some(i) => i,
            None => 0,
        },
        None => 0,
    }
}

/// The message of an error object: its `message` string, else `Unknown error`.
pub open spec fn error_message(entries: Seq<(Seq<char>, JsonModel)>) -> Seq<char> {
    match lookup(entries, "message"@) {
        Some(v) => match v.as_str() {
            Some(s) => s,
            None => "Unknown error"@,
        },
        None => "Unknown error"@,
    }
}

/// Checks the body of an answer that came with `status`: an answer with an
/// error object is turned into an `RpcError` that carries its code, its
/// message and the status; any other answer is handed back unchanged.
pub fn check_response_and_return(status: reqwest::StatusCode, body: JsonValue) -> (r: Result<
    JsonValue,
    JitoRpcErrorObject,
>)
    ensures
        match error_object(body@) {
            None => r == Ok::<JsonValue, JitoRpcErrorObject>(body),
            Some(entries) => r matches Err(JitoRpcErrorObject::RpcError { code, message, http_status })
                && code == error_code(entries) && message@ == error_message(entries)
                && http_status == status,
        },
{
    let found = match body.get("error") {
        Some(e) => if e.is_object() {
            let ghost entries = e@->Object_0;
            let code: i64 = match e.get("code") {
                Some(v) => match v.as_i64() {
                    Some(i) => i,
                    None => 0,
                },
                None => 0,
            };
            let message: String = match e.get("message") {
                Some(v) => match v.as_str() {
                    Some(s) => String::from_str(s),
                    None => String::from_str("Unknown error"),
                },
                None => String::from_str("Unknown error"),
            };
            assert(code == error_code(entries));
            assert(message@ == error_message(entries));
            Some((code, message))
        } else {
            None
        },
        None => None,
    };
    match found {
        Some((code, message)) => Err(JitoRpcErrorObject::RpcError { code, message, http_status: status }),
        None => Ok(body),
    }
}

// ---------------------------------------------------------------------------
// Tip accounts.
// ---------------------------------------------------------------------------

/// The tip accounts listed by an answer: its `result` member, when that is an array.
pub open spec fn tip_accounts(response: JsonModel) -> Option<Seq<JsonModel>> {
    match response.get("result"@) {
        Some(v) => v.as_array(),
        None => None,
    }
}

/// Draws one of `accounts` at random, with the thread-local generator.
///
/// rand's `choose` returns `None` exactly on an empty slice and otherwise a
/// reference to an element at an index drawn below the length. The thread
/// generator panics if the operating system's random source cannot seed it;
/// that depends on the machine and is not excluded here.
#[verifier::external_body]
fn choose_account(accounts: &[JsonValue]) -> (chosen: Option<&JsonValue>)
    ensures
        accounts@.len() == 0 <==> chosen is None,
        chosen matches Some(c) ==> exists|i: int| 0 <= i < accounts@.len() && accounts@[i] == *c,
{
    accounts.choose(&mut rand::rng())
}

/// The address of a drawn tip account, which must be a string.
pub fn tip_account_from(chosen: &JsonValue) -> (r: Result<String, SdkError>)
    ensures
        match chosen@.as_str() {
            Some(s) => r matches Ok(a) && a@ == s,
            None => r matches Err(SdkError::TipAccountNotString),
        },
{
    match chosen.as_str() {
        Some(s) => Ok(String::from_str(s)),
        None => Err(SdkError::TipAccountNotString),
    }
}

/// Draws one tip account from a `getTipAccounts` answer. The answer's
/// `result` must be a non-empty array; the drawn element must be a string.
pub fn random_tip_account_from_response(tip_accounts_response: &JsonValue) -> (r: Result<
    String,
    SdkError,
>)
    ensures
        match tip_accounts(tip_accounts_response@) {
            None => r matches Err(SdkError::TipAccountsNotArray),
            Some(accounts) => if accounts.len() == 0 {
                r matches Err(SdkError::NoTipAccounts)
            } else {
                &&& r matches Ok(a) ==> exists|i: int|
                    0 <= i < accounts.len() && accounts[i] == JsonModel::Text(a@)
                &&& r matches Err(e) ==> e is TipAccountNotString && exists|i: int|
                    0 <= i < accounts.len() && accounts[i].as_str() is None
                &&& (forall|i: int| 0 <= i < accounts.len() ==> accounts[i].as_str() is Some)
                    ==> r is Ok
            },
        },
{
    let accounts = match tip_accounts_response.get("result") {
        Some(v) => match v.as_array() {
            Some(a) => a,
            None => {
                return Err(SdkError::TipAccountsNotArray);
            },
        },
        None => {
            return Err(SdkError::TipAccountsNotArray);
        },
    };
    let ghost models = accounts@.map_values(|x: JsonValue| x@);
    if accounts.len() == 0 {
        return Err(SdkError::NoTipAccounts);
    }
    let chosen = match choose_account(accounts.as_slice()) {
        Some(c) => c,
        None => {
            return Err(SdkError::NoTipAccountChosen);
        },
    };
    let ghost k = choose|i: int| 0 <= i < accounts@.len() && accounts@[i] == *chosen;
    assert(models[k] == chosen@);
    tip_account_from(chosen)
}

// ---------------------------------------------------------------------------
// Pretty printing.
// ---------------------------------------------------------------------------

/// A JSON document meant to be displayed with indentation.
#[derive(Debug)]
pub struct PrettyJsonValue(pub JsonValue);

impl From<JsonValue> for PrettyJsonValue {
    fn from(value: JsonValue) -> (r: PrettyJsonValue) {
        PrettyJsonValue(value)
    }
}

impl vstd::std_specs::convert::FromSpecImpl<JsonValue> for PrettyJsonValue {
    open spec fn obeys_from_spec() -> bool {
        true
    }

    open spec fn from_spec(value: JsonValue) -> PrettyJsonValue {
        PrettyJsonValue(value)
    }
}

impl JitoJsonRpcSDK {
    /// Wraps `value` for indented display.
    pub fn prettify(value: JsonValue) -> (r: PrettyJsonValue)
        ensures
            r.0 == value,
    {
        PrettyJsonValue(value)
    }
}

} // verus!
