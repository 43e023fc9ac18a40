//! Errors of the SDK and their display texts.
use std::sync::Arc;
use vstd::prelude::*;
use vstd::string::StringExecFns;

use crate::text::{concat, i64_to_decimal, int_decimal, nat_decimal, u64_to_decimal};

verus! {

/// An error raised by the HTTP client.
#[verifier::external_type_specification]
#[verifier::external_body]
pub struct ExHttpClientError(reqwest::Error);

/// An HTTP status code.
#[verifier::external_type_specification]
#[verifier::external_body]
pub struct ExHttpStatusCode(reqwest::StatusCode);

/// The status code is `Copy`, and its `Clone` is derived: a clone is the same code.
pub assume_specification[ <reqwest::StatusCode as Clone>::clone ](status: &reqwest::StatusCode) -> (res: reqwest::StatusCode)
    ensures
        res == *status,
;

/// The error of a JSON-RPC call: the HTTP exchange failed, or the server
/// answered with a JSON-RPC error object.
#[derive(Debug)]
pub enum JitoRpcErrorObject {
    HttpError(Arc<reqwest::Error>),
    RpcError { code: i64, message: String, http_status: reqwest::StatusCode },
}

/// std's `Arc::clone`: another pointer to the same error.
#[verifier::external_body]
fn share_http_error(err: &Arc<reqwest::Error>) -> (r: Arc<reqwest::Error>)
    ensures
        r == *err,
{
    Arc::clone(err)
}

impl Clone for JitoRpcErrorObject {
    fn clone(&self) -> (r: JitoRpcErrorObject)
        ensures
            r == *self,
    {
        match self {
            JitoRpcErrorObject::HttpError(err) => JitoRpcErrorObject::HttpError(share_http_error(err)),
            JitoRpcErrorObject::RpcError { code, message, http_status } => JitoRpcErrorObject::RpcError {
                code: *code,
                message: message.clone(),
                http_status: http_status.clone(),
            },
        }
    }
}

impl JitoRpcErrorObject {
    /// Wraps an error of the HTTP client.
    pub fn from_http_error(err: reqwest::Error) -> (r: JitoRpcErrorObject)
        ensures
            wraps_http_error(r, err),
    {
        JitoRpcErrorObject::HttpError(Arc::new(err))
    }
}

/// `r` is the HTTP failure that carries `err`.
pub open spec fn wraps_http_error(r: JitoRpcErrorObject, err: reqwest::Error) -> bool {
    r matches JitoRpcErrorObject::HttpError(a) && *a == err
}

/// The error that wraps `err`.
pub open spec fn http_error_object(err: reqwest::Error) -> JitoRpcErrorObject {
    choose|r: JitoRpcErrorObject| #[trigger] wraps_http_error(r, err)
}

impl From<reqwest::Error> for JitoRpcErrorObject {
    fn from(err: reqwest::Error) -> (r: JitoRpcErrorObject)
        ensures
            wraps_http_error(r, err),
    {
        let r = JitoRpcErrorObject::from_http_error(err);
        assert(r == http_error_object(err));
        r
    }
}

impl vstd::std_specs::convert::FromSpecImpl<reqwest::Error> for JitoRpcErrorObject {
    open spec fn obeys_from_spec() -> bool {
        true
    }

    open spec fn from_spec(err: reqwest::Error) -> JitoRpcErrorObject {
        http_error_object(err)
    }
}

/// The text that `Display` gives an error of the HTTP client: a function of
/// the error alone (its kind, its status when it has one, and its URL when it has one).
pub uninterp spec fn http_error_text(err: reqwest::Error) -> Seq<char>;

/// The text that `Display` gives a status code: its number and its
/// canonical reason phrase (or `<unknown status code>`), a function of the code alone.
pub uninterp spec fn status_text(status: reqwest::StatusCode) -> Seq<char>;

/// reqwest's `Display` of an error, as a `String`.
#[verifier::external_body]
fn http_error_display(err: &reqwest::Error) -> (text: String)
    ensures
        text@ == http_error_text(*err),
{
    err.to_string()
}

/// http's `Display` of a status code, as a `String`.
#[verifier::external_body]
fn status_display(status: &reqwest::StatusCode) -> (text: String)
    ensures
        text@ == status_text(*status),
{
    status.to_string()
}

/// The display text of a JSON-RPC error answer, given the display text of its HTTP status.
pub open spec fn rpc_error_text(code: int, message: Seq<char>, status_text: Seq<char>) -> Seq<char> {
    "RPC Error "@ + int_decimal(code) + ": "@ + message + " (http status "@ + status_text + ")"@
}

/// The text that an error displays.
pub open spec fn display_text(e: JitoRpcErrorObject) -> Seq<char> {
    match e {
        JitoRpcErrorObject::HttpError(err) => "HTTP Error: "@ + http_error_text(*err),
        JitoRpcErrorObject::RpcError { code, message, http_status } => rpc_error_text(
            code as int,
            message@,
            status_text(http_status),
        ),
    }
}

/// Renders a JSON-RPC error answer from its parts.
pub fn rpc_error_display(code: i64, message: &str, status_text: &str) -> (s: String)
    ensures
        s@ == rpc_error_text(code as int, message@, status_text@),
{
    let mut s = String::from_str("RPC Error ");
    let digits = i64_to_decimal(code);
    s.append(digits.as_str());
    s.append(": ");
    s.append(message);
    s.append(" (http status ");
    s.append(status_text);
    s.append(")");
    s
}

impl JitoRpcErrorObject {
    /// The text that the error displays.
    pub fn to_display_string(&self) -> (s: String)
        ensures
            s@ == display_text(*self),
    {
        match self {
            JitoRpcErrorObject::HttpError(err) => {
                let inner = http_error_display(&**err);
                let s = concat("HTTP Error: ", inner.as_str());
                assert(s@ == "HTTP Error: "@ + inner@);
                s
            },
            JitoRpcErrorObject::RpcError { code, message, http_status } => {
                let status = status_display(http_status);
                let s = rpc_error_display(*code, message.as_str(), status.as_str());
                s
            },
        }
    }
}

/// The failures of the SDK's calls, each with the text that the call reports.
#[derive(Debug)]
pub enum SdkError {
    /// The answer's `result` is not an array.
    TipAccountsNotArray,
    /// The answer lists no tip account.
    NoTipAccounts,
    /// No tip account could be drawn.
    NoTipAccountChosen,
    /// The drawn tip account is not a string.
    TipAccountNotString,
    /// `send_bundle_base64` was given no transaction.
    EmptyTransactionBundle,
    /// `send_bundle` was given an empty array.
    EmptyBundle,
    /// `send_bundle` was given more than five transactions.
    TooManyTransactions,
    /// `send_bundle` was given something other than an array.
    InvalidBundleFormat,
    /// The transactions at these positions could not be serialized.
    SerializationFailed(Vec<usize>),
    /// A request failed.
    Request(JitoRpcErrorObject),
    /// Sending a bundle failed.
    SendBundle(JitoRpcErrorObject),
}

/// The elements of `items` in decimal, separated by `", "`.
pub open spec fn decimal_list(items: Seq<usize>) -> Seq<char>
    decreases items.len(),
{
    if items.len() == 0 {
        Seq::empty()
    } else if items.len() == 1 {
        nat_decimal(items[0] as nat)
    } else {
        decimal_list(items.drop_last()) + ", "@ + nat_decimal(items.last() as nat)
    }
}

/// The debug text of a list of positions, such as `[0, 2]`.
pub open spec fn index_list_text(items: Seq<usize>) -> Seq<char> {
    "["@ + decimal_list(items) + "]"@
}

/// Renders a list of positions as its debug text.
pub fn index_list_display(items: &Vec<usize>) -> (s: String)
    ensures
        s@ == index_list_text(items@),
{
    let mut inner = String::from_str("");
    proof { reveal_strlit(""); }
    let mut i: usize = 0;
    while i < items.len()
        invariant
            i <= items@.len(),
            inner@ == decimal_list(items@.subrange(0, i as int)),
        decreases items@.len() - i,
    {
        let d = u64_to_decimal(items[i] as u64);
        if i > 0 {
            inner.append(", ");
        }
        inner.append(d.as_str());
        proof {
            let next = items@.subrange(0, i + 1);
            assert(next.drop_last() =~= items@.subrange(0, i as int));
            assert(next.last() == items@[i as int]);
        }
        i = i + 1;
    }
    assert(items@.subrange(0, items@.len() as int) =~= items@);
    let mut s = String::from_str("[");
    s.append(inner.as_str());
    s.append("]");
    s
}

/// The text that each failure reports.
pub open spec fn sdk_error_text(e: SdkError) -> Seq<char> {
    match e {
        SdkError::TipAccountsNotArray => "Failed to parse 'result' as an array of tip accounts"@,
        SdkError::NoTipAccounts => "No tip accounts available"@,
        SdkError::NoTipAccountChosen => "Failed to choose random tip account"@,
        SdkError::TipAccountNotString => "Failed to parse tip account as string"@,
        SdkError::EmptyTransactionBundle =>
            "Transaction bundle is empty: expected at least one transaction to send"@,
        SdkError::EmptyBundle => "Bundle must contain at least one transaction"@,
        SdkError::TooManyTransactions => "Bundle can contain at most 5 transactions"@,
        SdkError::InvalidBundleFormat =>
            "Invalid bundle format: expected an array of transactions"@,
        SdkError::SerializationFailed(indices) => "Failed to serialize transactions at indices: "@
            + index_list_text(indices@),
        SdkError::Request(inner) => "Request error: "@ + display_text(inner),
        SdkError::SendBundle(inner) => "Failed to send bundle: "@ + display_text(inner),
    }
}

impl SdkError {
    /// The text that the failure reports.
    pub fn message(&self) -> (s: String)
        ensures
            s@ == sdk_error_text(*self),
    {
        match self {
            SdkError::TipAccountsNotArray => String::from_str(
                "Failed to parse 'result' as an array of tip accounts",
            ),
            SdkError::NoTipAccounts => String::from_str("No tip accounts available"),
            SdkError::NoTipAccountChosen => String::from_str("Failed to choose random tip account"),
            SdkError::TipAccountNotString => String::from_str(
                "Failed to parse tip account as string",
            ),
            SdkError::EmptyTransactionBundle => String::from_str(
                "Transaction bundle is empty: expected at least one transaction to send",
            ),
            SdkError::EmptyBundle => String::from_str(
                "Bundle must contain at least one transaction",
            ),
            SdkError::TooManyTransactions => String::from_str(
                "Bundle can contain at most 5 transactions",
            ),
            SdkError::InvalidBundleFormat => String::from_str(
                "Invalid bundle format: expected an array of transactions",
            ),
            SdkError::SerializationFailed(indices) => {
                let list = index_list_display(indices);
                concat("Failed to serialize transactions at indices: ", list.as_str())
            },
            SdkError::Request(inner) => {
                let t = inner.to_display_string();
                concat("Request error: ", t.as_str())
            },
            SdkError::SendBundle(inner) => {
                let t = inner.to_display_string();
                concat("Failed to send bundle: ", t.as_str())
            },
        }
    }
}

} // verus!
