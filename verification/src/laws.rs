//! Properties that relate the SDK's calls to one another.
use vstd::prelude::*;

use crate::json::{lemma_lookup_first, text_array, JsonModel};
use crate::request::{base64_encoding, rpc_envelope, with_uuid};
use crate::sdk::{
    check_bundle_params, encoded_bundle_request, send_bundle_request_model, BundleParams, SdkModel,
};
use crate::request::RequestModel;
use crate::sdk::{
    bundle_statuses_request, in_flight_bundle_statuses_request, send_txn_request_model,
    tip_accounts_request,
};
use crate::json::lookup;
use crate::sdk::{bundle_base64_request, error_code, error_message, error_object, tip_accounts};
use crate::solana_types::{base64_standard, bundle_of_transactions_outcome};
use crate::request::RpcRequest;
use crate::error::SdkError;
use crate::sdk::JitoJsonRpcSDK;
use crate::solana_types::failed_indices;

verus! {

/// Every request body answers `jsonrpc` with `"2.0"`, `id` with 1, `method`
/// with the method called and `params` with the parameters sent.
pub proof fn law_envelope_members(method: Seq<char>, params: JsonModel)
    ensures
        rpc_envelope(method, params).get("jsonrpc"@) == Some(JsonModel::Text("2.0"@)),
        rpc_envelope(method, params).get("id"@) == Some(JsonModel::Int(1)),
        rpc_envelope(method, params).get("method"@) == Some(JsonModel::Text(method)),
        rpc_envelope(method, params).get("params"@) == Some(params),
{
    reveal_strlit("jsonrpc");
    reveal_strlit("id");
    reveal_strlit("method");
    reveal_strlit("params");
    let e = rpc_envelope(method, params)->Object_0;
    assert("jsonrpc"@.len() == 7 && "id"@.len() == 2);
    assert("jsonrpc"@[0] == 'j' && "method"@[0] == 'm' && "params"@[0] == 'p');
    assert(e[0].0 != "id"@);
    assert(e[0].0 != "method"@);
    assert(e[0].0 != "params"@);
    assert(e[1].0 != "method"@);
    assert(e[1].0 != "params"@);
    assert(e[2].0 != "params"@);
    lemma_lookup_first(e, "jsonrpc"@, 0);
    lemma_lookup_first(e, "id"@, 1);
    lemma_lookup_first(e, "method"@, 2);
    lemma_lookup_first(e, "params"@, 3);
}

/// Handing `send_bundle` a list of one, three, four or five base64
/// transactions, with the handle's own key, gives the same request as
/// `send_bundle_base64` with those transactions.
pub proof fn law_send_bundle_agrees_with_base64(c: SdkModel, txs: Seq<Seq<char>>)
    requires
        1 <= txs.len() <= 5,
        txs.len() != 2,
    ensures
        check_bundle_params(Some(text_array(txs))) matches BundleParams::Accepted(p)
            && send_bundle_request_model(c, c.uuid, p) == encoded_bundle_request(
            c,
            "/api/v1/bundles"@,
            txs,
        ),
{
}

/// A two-element array handed to `send_bundle` is sent exactly as given.
pub proof fn law_send_bundle_pair_unchanged(items: Seq<JsonModel>)
    requires
        items.len() == 2,
    ensures
        check_bundle_params(Some(JsonModel::Array(items))) == BundleParams::Accepted(
            JsonModel::Array(items),
        ),
{
}

/// A list of one to five transactions other than two is sent wrapped with
/// the base64 encoding option.
pub proof fn law_send_bundle_wraps_lists(items: Seq<JsonModel>)
    requires
        1 <= items.len() <= 5,
        items.len() != 2,
    ensures
        check_bundle_params(Some(JsonModel::Array(items))) == BundleParams::Accepted(
            JsonModel::Array(seq![JsonModel::Array(items), base64_encoding()]),
        ),
{
}

/// Without a key the endpoint is the bare path; with one, the path is kept
/// and the query `?uuid=` and the key follow it.
pub proof fn law_uuid_query(path: Seq<char>, uuid: Option<Seq<char>>)
    ensures
        uuid is None ==> with_uuid(path, uuid) == path,
        uuid matches Some(u) ==> with_uuid(path, uuid).subrange(0, path.len() as int) == path
            && with_uuid(path, uuid).subrange(path.len() as int, with_uuid(path, uuid).len() as int)
            == "?uuid="@ + u,
{
    if let Some(u) = uuid {
        let w = with_uuid(path, uuid);
        assert(w.subrange(0, path.len() as int) =~= path);
        assert(w.subrange(path.len() as int, w.len() as int) =~= "?uuid="@ + u);
    }
}

/// The positions listed as not serialized are, in increasing order, exactly
/// those of the transactions that bincode could not serialize.
pub proof fn law_failed_indices_exact(s: Seq<Option<Seq<u8>>>)
    requires
        s.len() <= usize::MAX,
    ensures
        forall|k: int|
            0 <= k < failed_indices(s).len() ==> (#[trigger] failed_indices(s)[k] as int) < s.len()
                && s[failed_indices(s)[k] as int] is None,
        forall|k: int, l: int|
            0 <= k < l < failed_indices(s).len() ==> failed_indices(s)[k] < failed_indices(s)[l],
        forall|i: int|
            0 <= i < s.len() && #[trigger] s[i] is None ==> failed_indices(s).contains(i as usize),
    decreases s.len(),
{
    if s.len() > 0 {
        let p = s.drop_last();
        law_failed_indices_exact(p);
        let f = failed_indices(s);
        let fp = failed_indices(p);
        assert forall|k: int| 0 <= k < f.len() implies (#[trigger] f[k] as int) < s.len() && s[f[k] as int] is None by {
            if k < fp.len() {
                assert(f[k] == fp[k]);
                assert(p[fp[k] as int] == s[fp[k] as int]);
            }
        }
        assert forall|i: int| 0 <= i < s.len() && #[trigger] s[i] is None implies f.contains(i as usize) by {
            if i < s.len() - 1 {
                assert(p[i] == s[i]);
                let k = choose|k: int| 0 <= k < fp.len() && fp[k] == i as usize;
                assert(f[k] == fp[k]);
            } else {
                assert(f[f.len() - 1] == i as usize);
            }
        }
    }
}

/// A JSON-RPC 2.0 call with id 1, posted to `url`, written out member by member.
pub open spec fn jsonrpc_post(url: Seq<char>, method: Seq<char>, params: JsonModel) -> RequestModel {
    RequestModel {
        url: url,
        body: JsonModel::Object(
            seq![
                ("jsonrpc"@, JsonModel::Text("2.0"@)),
                ("id"@, JsonModel::Int(1)),
                ("method"@, JsonModel::Text(method)),
                ("params"@, params),
            ],
        ),
    }
}

/// `path` on the engine at `base`, with the query `?uuid=` and `key` exactly when a key is given.
pub open spec fn keyed_url(base: Seq<char>, path: Seq<char>, key: Option<Seq<char>>) -> Seq<char> {
    match key {
        Some(k) => base + path + "?uuid="@ + k,
        None => base + path,
    }
}

/// The strings of `items` as JSON strings, in order.
pub open spec fn json_strings(items: Seq<Seq<char>>) -> JsonModel {
    JsonModel::Array(Seq::new(items.len(), |i: int| JsonModel::Text(items[i])))
}

proof fn lemma_json_strings(items: Seq<Seq<char>>)
    ensures
        text_array(items) == json_strings(items),
{
    assert(text_array(items)->Array_0 =~= json_strings(items)->Array_0);
}

/// `getTipAccounts` posts an empty parameter list to `/api/v1/bundles`,
/// carrying the handle's key when it has one.
pub proof fn law_tip_accounts_request(c: SdkModel)
    ensures
        tip_accounts_request(c) == jsonrpc_post(
            keyed_url(c.base_url, "/api/v1/bundles"@, c.uuid),
            "getTipAccounts"@,
            JsonModel::Array(Seq::empty()),
        ),
{
    assert(empty_model() =~= JsonModel::Array(Seq::empty())->Array_0);
    if let Some(k) = c.uuid {
        assert(c.base_url + ("/api/v1/bundles"@ + "?uuid="@ + k) =~= c.base_url + "/api/v1/bundles"@
            + "?uuid="@ + k);
    }
}

spec fn empty_model() -> Seq<JsonModel> {
    Seq::empty()
}

/// `getBundleStatuses` posts `[ids]` to `/api/v1/getBundleStatuses`, with
/// `?uuid=` and the handle's key exactly when it has one.
pub proof fn law_bundle_statuses_request(c: SdkModel, ids: Seq<Seq<char>>)
    ensures
        bundle_statuses_request(c, ids) == jsonrpc_post(
            keyed_url(c.base_url, "/api/v1/getBundleStatuses"@, c.uuid),
            "getBundleStatuses"@,
            JsonModel::Array(seq![json_strings(ids)]),
        ),
        c.uuid is None ==> bundle_statuses_request(c, ids).url == c.base_url
            + "/api/v1/getBundleStatuses"@,
{
    lemma_json_strings(ids);
    if let Some(k) = c.uuid {
        assert(c.base_url + ("/api/v1/getBundleStatuses"@ + "?uuid="@ + k) =~= c.base_url
            + "/api/v1/getBundleStatuses"@ + "?uuid="@ + k);
    }
}

/// `getInflightBundleStatuses` posts `[ids]` to
/// `/api/v1/getInflightBundleStatuses`; a handle with key `k` adds `?uuid=k`.
pub proof fn law_in_flight_bundle_statuses_request(c: SdkModel, ids: Seq<Seq<char>>)
    ensures
        in_flight_bundle_statuses_request(c, ids) == jsonrpc_post(
            keyed_url(c.base_url, "/api/v1/getInflightBundleStatuses"@, c.uuid),
            "getInflightBundleStatuses"@,
            JsonModel::Array(seq![json_strings(ids)]),
        ),
        c.uuid matches Some(k) ==> in_flight_bundle_statuses_request(c, ids).url == c.base_url
            + "/api/v1/getInflightBundleStatuses?uuid="@ + k,
{
    lemma_json_strings(ids);
    if let Some(k) = c.uuid {
        reveal_strlit("/api/v1/getInflightBundleStatuses");
        reveal_strlit("?uuid=");
        reveal_strlit("/api/v1/getInflightBundleStatuses?uuid=");
        assert("/api/v1/getInflightBundleStatuses"@ + "?uuid="@
            =~= "/api/v1/getInflightBundleStatuses?uuid="@);
        assert(c.base_url + ("/api/v1/getInflightBundleStatuses"@ + "?uuid="@ + k) =~= c.base_url
            + "/api/v1/getInflightBundleStatuses"@ + "?uuid="@ + k);
        assert(c.base_url + "/api/v1/getInflightBundleStatuses"@ + "?uuid="@ + k =~= c.base_url
            + "/api/v1/getInflightBundleStatuses?uuid="@ + k);
    }
}

/// A bundle of base64 transactions, of any length, is posted as
/// `[txs, {"encoding": "base64"}]` with method `sendBundle`, carrying the handle's key.
pub proof fn law_encoded_bundle_request(c: SdkModel, path: Seq<char>, txs: Seq<Seq<char>>)
    ensures
        encoded_bundle_request(c, path, txs) == jsonrpc_post(
            keyed_url(c.base_url, path, c.uuid),
            "sendBundle"@,
            JsonModel::Array(
                seq![
                    json_strings(txs),
                    JsonModel::Object(seq![("encoding"@, JsonModel::Text("base64"@))]),
                ],
            ),
        ),
{
    lemma_json_strings(txs);
    if let Some(k) = c.uuid {
        assert(c.base_url + (path + "?uuid="@ + k) =~= c.base_url + path + "?uuid="@ + k);
    }
}

/// `send_bundle` authenticates with the key given to the call alone,
/// whatever key the handle holds.
pub proof fn law_send_bundle_url(c: SdkModel, key: Option<Seq<char>>, params: JsonModel)
    ensures
        send_bundle_request_model(c, key, params) == jsonrpc_post(
            keyed_url(c.base_url, "/api/v1/bundles"@, key),
            "sendBundle"@,
            params,
        ),
{
    if let Some(k) = key {
        assert(c.base_url + ("/api/v1/bundles"@ + "?uuid="@ + k) =~= c.base_url + "/api/v1/bundles"@
            + "?uuid="@ + k);
    }
}

/// What `send_bundle` makes of its parameters: a two-element array is sent
/// as it is; an array of one, three, four or five elements is sent as
/// `[array, {"encoding": "base64"}]`; an empty array, an array of more than
/// five, or anything else that is not an array is refused.
pub proof fn law_send_bundle_params(params: Option<JsonModel>)
    ensures
        match params {
            Some(JsonModel::Array(items)) => if items.len() == 2 {
                check_bundle_params(params) == BundleParams::Accepted(JsonModel::Array(items))
            } else if items.len() == 0 {
                check_bundle_params(params) == BundleParams::Empty
            } else if items.len() > 5 {
                check_bundle_params(params) == BundleParams::TooMany
            } else {
                check_bundle_params(params) == BundleParams::Accepted(
                    JsonModel::Array(
                        seq![
                            JsonModel::Array(items),
                            JsonModel::Object(seq![("encoding"@, JsonModel::Text("base64"@))]),
                        ],
                    ),
                )
            },
            _ => check_bundle_params(params) == BundleParams::Invalid,
        },
{
}

/// `sendTransaction` is posted to `/api/v1/transactions`, with the query
/// `?bundleOnly=true` exactly when asked for, and never with a key.
/// From an options object whose `tx` is the string `t` and whose
/// `skipPreflight` is the boolean `b`, it sends `[t, {"encoding": "base64",
/// "skipPreflight": b}]`.
pub proof fn law_send_txn_request(
    c: SdkModel,
    entries: Seq<(Seq<char>, JsonModel)>,
    t: Seq<char>,
    b: bool,
    bundle_only: bool,
)
    requires
        lookup(entries, "tx"@) == Some(JsonModel::Text(t)),
        lookup(entries, "skipPreflight"@) == Some(JsonModel::Bool(b)),
    ensures
        send_txn_request_model(c, Some(JsonModel::Object(entries)), bundle_only) == jsonrpc_post(
            if bundle_only {
                c.base_url + "/api/v1/transactions?bundleOnly=true"@
            } else {
                c.base_url + "/api/v1/transactions"@
            },
            "sendTransaction"@,
            JsonModel::Array(
                seq![
                    JsonModel::Text(t),
                    JsonModel::Object(
                        seq![
                            ("encoding"@, JsonModel::Text("base64"@)),
                            ("skipPreflight"@, JsonModel::Bool(b)),
                        ],
                    ),
                ],
            ),
        ),
{
}

/// Without a `tx` string the transaction sent is empty, and without a
/// boolean `skipPreflight` the flag sent is false; parameters that are not
/// an object give an empty parameter list.
pub proof fn law_send_txn_defaults(c: SdkModel, params: Option<JsonModel>, bundle_only: bool)
    ensures
        match params {
            Some(JsonModel::Object(entries)) => {
                let sent = send_txn_request_model(c, params, bundle_only).body->Object_0[3].1;
                &&& (match lookup(entries, "tx"@) {
                    Some(JsonModel::Text(t)) => sent->Array_0[0] == JsonModel::Text(t),
                    _ => sent->Array_0[0] == JsonModel::Text(Seq::empty()),
                })
                &&& (match lookup(entries, "skipPreflight"@) {
                    Some(JsonModel::Bool(b)) => sent->Array_0[1]->Object_0[1] == (
                        "skipPreflight"@,
                        JsonModel::Bool(b),
                    ),
                    _ => sent->Array_0[1]->Object_0[1] == ("skipPreflight"@, JsonModel::Bool(false)),
                })
            },
            _ => send_txn_request_model(c, params, bundle_only).body->Object_0[3].1
                == JsonModel::Array(Seq::empty()),
        },
{
    let sent = send_txn_request_model(c, params, bundle_only).body->Object_0[3].1;
    if !(params matches Some(JsonModel::Object(_))) {
        assert(sent->Array_0 =~= Seq::<JsonModel>::empty());
    }
}

/// `send_bundle_base64` posts `[txs, {"encoding": "base64"}]` to
/// `/api/v1/bundles`, carrying the handle's key when it has one.
pub proof fn law_bundle_base64_request(c: SdkModel, txs: Seq<Seq<char>>)
    ensures
        bundle_base64_request(c, txs) == jsonrpc_post(
            keyed_url(c.base_url, "/api/v1/bundles"@, c.uuid),
            "sendBundle"@,
            JsonModel::Array(
                seq![
                    json_strings(txs),
                    JsonModel::Object(seq![("encoding"@, JsonModel::Text("base64"@))]),
                ],
            ),
        ),
{
    law_encoded_bundle_request(c, "/api/v1/bundles"@, txs);
}

/// When every transaction serializes, the bundle of signed transactions is
/// posted to `/api/v1/bundles` as the list of the base64 texts of their
/// bincode forms, in order, followed by `{"encoding": "base64"}`; when one
/// does not, nothing is posted.
pub proof fn law_bundle_of_transactions(
    sdk: JitoJsonRpcSDK,
    m: Seq<Option<Seq<u8>>>,
    r: Result<RpcRequest, SdkError>,
)
    requires
        bundle_of_transactions_outcome(sdk, m, r),
    ensures
        (forall|i: int| 0 <= i < m.len() ==> m[i] is Some) ==> (r matches Ok(req) && req@
            == jsonrpc_post(
            keyed_url(sdk@.base_url, "/api/v1/bundles"@, sdk@.uuid),
            "sendBundle"@,
            JsonModel::Array(
                seq![
                    json_strings(Seq::new(m.len(), |i: int| base64_standard(m[i]->0))),
                    JsonModel::Object(seq![("encoding"@, JsonModel::Text("base64"@))]),
                ],
            ),
        )),
        (exists|i: int| 0 <= i < m.len() && m[i] is None) ==> r is Err,
{
    crate::solana_types::lemma_failed_indices_empty(m);
    let texts = m.map_values(|b: Option<Seq<u8>>| base64_standard(b->0));
    assert(texts =~= Seq::new(m.len(), |i: int| base64_standard(m[i]->0)));
    law_bundle_base64_request(sdk@, texts);
}

/// An answer's error is the `error` member when that is an object; its code
/// is the `code` member when that is an integer that fits in `i64`, else 0;
/// its message is the `message` string, else `Unknown error`.
pub proof fn law_error_answer(
    body: JsonModel,
    entries: Seq<(Seq<char>, JsonModel)>,
    code: int,
    message: Seq<char>,
)
    ensures
        body.get("error"@) == Some(JsonModel::Object(entries)) ==> error_object(body) == Some(
            entries,
        ),
        (body.get("error"@) is None || body.get("error"@) matches Some(JsonModel::Text(_))
            || body.get("error"@) matches Some(JsonModel::Array(_))) ==> error_object(body) is None,
        lookup(entries, "code"@) == Some(JsonModel::Int(code)) && i64::MIN <= code <= i64::MAX
            ==> error_code(entries) == code,
        lookup(entries, "code"@) == Some(JsonModel::Int(code)) && !(i64::MIN <= code <= i64::MAX)
            ==> error_code(entries) == 0,
        !(lookup(entries, "code"@) matches Some(JsonModel::Int(_))) ==> error_code(entries) == 0,
        lookup(entries, "message"@) == Some(JsonModel::Text(message)) ==> error_message(entries)
            == message,
        !(lookup(entries, "message"@) matches Some(JsonModel::Text(_))) ==> error_message(entries)
            == "Unknown error"@,
{
}

/// The tip accounts of an answer are its `result` member when that is an
/// array, and there are none otherwise.
pub proof fn law_tip_accounts(response: JsonModel)
    ensures
        response.get("result"@) matches Some(JsonModel::Array(a)) ==> tip_accounts(response)
            == Some(a),
        !(response.get("result"@) matches Some(JsonModel::Array(_))) ==> tip_accounts(response) is None,
{
}

} // verus!
