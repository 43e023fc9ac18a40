//! JSON-RPC requests: endpoints, the request envelope and the parameters of each call.
use vstd::prelude::*;
use vstd::string::StringExecFns;

use crate::json::{JsonModel, JsonValue};
use crate::text::concat;

verus! {

/// A request ready to be posted: the full URL and the JSON body.
pub struct RpcRequest {
    pub url: String,
    pub body: JsonValue,
}

/// The model of a request.
pub struct RequestModel {
    pub url: Seq<char>,
    pub body: JsonModel,
}

impl View for RpcRequest {
    type V = RequestModel;

    open spec fn view(&self) -> RequestModel {
        RequestModel { url: self.url@, body: self.body@ }
    }
}

/// The JSON-RPC 2.0 envelope of a call with id 1.
pub open spec fn rpc_envelope(method: Seq<char>, params: JsonModel) -> JsonModel {
    JsonModel::Object(
        seq![
            ("jsonrpc"@, JsonModel::Text("2.0"@)),
            ("id"@, JsonModel::Int(1)),
            ("method"@, JsonModel::Text(method)),
            ("params"@, params),
        ],
    )
}

/// The request posted to `base_url` followed by `endpoint`.
pub open spec fn request_model(
    base_url: Seq<char>,
    endpoint: Seq<char>,
    method: Seq<char>,
    params: JsonModel,
) -> RequestModel {
    RequestModel { url: base_url + endpoint, body: rpc_envelope(method, params) }
}

/// The empty JSON array.
pub open spec fn empty_array() -> JsonModel {
    JsonModel::Array(Seq::empty())
}

/// The parameters sent: the given ones, or an empty array.
pub open spec fn params_or_empty(params: Option<JsonModel>) -> JsonModel {
    match params {
        Some(p) => p,
        None => empty_array(),
    }
}

/// The model of optional parameters.
pub open spec fn opt_json(params: Option<JsonValue>) -> Option<JsonModel> {
    match params {
        Some(p) => Some(p@),
        None => None,
    }
}

/// `path`, followed by the query `?uuid=` and the key when there is one.
pub open spec fn with_uuid(path: Seq<char>, uuid: Option<Seq<char>>) -> Seq<char> {
    match uuid {
        Some(u) => path + "?uuid="@ + u,
        None => path,
    }
}

/// The model of an optional string slice.
pub open spec fn opt_str(s: Option<&str>) -> Option<Seq<char>> {
    match s {
        Some(x) => Some(x@),
        None => None,
    }
}

/// The model of an optional string.
pub open spec fn opt_string(s: Option<String>) -> Option<Seq<char>> {
    match s {
        Some(x) => Some(x@),
        None => None,
    }
}

/// Appends the authentication key, when there is one, to `path` as the query `uuid`.
pub fn endpoint_with_uuid(path: &str, uuid: Option<&str>) -> (r: String)
    ensures
        r@ == with_uuid(path@, opt_str(uuid)),
{
    match uuid {
        Some(u) => {
            let mut s = String::from_str(path);
            s.append("?uuid=");
            s.append(u);
            s
        },
        None => String::from_str(path),
    }
}

/// Builds the request for `method` with `params` (an empty array when there are none),
/// posted to `base_url` followed by `endpoint`.
pub fn build_request(base_url: &str, endpoint: &str, method: &str, params: Option<JsonValue>) -> (r:
    RpcRequest)
    ensures
        r@ == request_model(base_url@, endpoint@, method@, params_or_empty(opt_json(params))),
{
    let url = concat(base_url, endpoint);
    let ghost p = params_or_empty(opt_json(params));
    let params_value = match params {
        Some(p) => p,
        None => {
            let empty = JsonValue::Array(Vec::new());
            assert(empty@->Array_0 =~= Seq::<JsonModel>::empty());
            empty
        },
    };
    assert(params_value@ == p);
    let k0 = String::from_str("jsonrpc");
    let v0 = JsonValue::text("2.0");
    let k1 = String::from_str("id");
    let v1 = JsonValue::Number(crate::json::JsonNumber::PosInt(1));
    assert(v1@ == JsonModel::Int(1));
    let k2 = String::from_str("method");
    let v2 = JsonValue::text(method);
    let k3 = String::from_str("params");
    let entries = vec![(k0, v0), (k1, v1), (k2, v2), (k3, params_value)];
    let body = JsonValue::Object(entries);
    proof {
        let m = body@->Object_0;
        let e = rpc_envelope(method@, p)->Object_0;
        assert(m[0] == e[0]);
        assert(m[1] == e[1]);
        assert(m[2] == e[2]);
        assert(m[3] == e[3]);
        assert(m =~= e);
    }
    RpcRequest { url, body }
}

/// The JSON object `{"encoding": "base64"}`.
pub open spec fn base64_encoding() -> JsonModel {
    JsonModel::Object(seq![("encoding"@, JsonModel::Text("base64"@))])
}

/// Builds `{"encoding": "base64"}`.
pub fn base64_encoding_value() -> (r: JsonValue)
    ensures
        r@ == base64_encoding(),
{
    let r = JsonValue::Object(vec![(String::from_str("encoding"), JsonValue::text("base64"))]);
    assert(r@->Object_0 =~= base64_encoding()->Object_0);
    r
}

/// Builds the two-element array of `first` and `{"encoding": "base64"}`.
pub fn with_base64_encoding(first: JsonValue) -> (r: JsonValue)
    ensures
        r@ == JsonModel::Array(seq![first@, base64_encoding()]),
{
    let ghost f = first@;
    let r = JsonValue::Array(vec![first, base64_encoding_value()]);
    assert(r@->Array_0 =~= seq![f, base64_encoding()]);
    r
}

/// Builds the one-element array of `only`.
pub fn singleton_array(only: JsonValue) -> (r: JsonValue)
    ensures
        r@ == JsonModel::Array(seq![only@]),
{
    let ghost o = only@;
    let r = JsonValue::Array(vec![only]);
    assert(r@->Array_0 =~= seq![o]);
    r
}

} // verus!
