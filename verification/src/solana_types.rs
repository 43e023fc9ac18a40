//! Bundles of signed Solana transactions: serialization, base64 text and the request.
use base64::engine::general_purpose;
use base64::Engine;
use solana_transaction::Transaction;
use vstd::prelude::*;

use crate::error::SdkError;
use crate::request::RpcRequest;
use crate::sdk::{bundle_base64_request, JitoJsonRpcSDK};

verus! {

/// A signed Solana transaction.
#[verifier::external_type_specification]
#[verifier::external_body]
pub struct ExTransaction(solana_transaction::Transaction);

/// The standard base64 alphabet (RFC 4648, table 1).
pub open spec fn base64_alphabet() -> Seq<char> {
    seq![
        'A', 'B', 'C', 'D', 'E', 'F', 'G', 'H', 'I', 'J', 'K', 'L', 'M',
        'N', 'O', 'P', 'Q', 'R', 'S', 'T', 'U', 'V', 'W', 'X', 'Y', 'Z',
        'a', 'b', 'c', 'd', 'e', 'f', 'g', 'h', 'i', 'j', 'k', 'l', 'm',
        'n', 'o', 'p', 'q', 'r', 's', 't', 'u', 'v', 'w', 'x', 'y', 'z',
        '0', '1', '2', '3', '4', '5', '6', '7', '8', '9', '+', '/',
    ]
}

/// Standard base64 with `=` padding: each group of three bytes becomes four
/// characters of six bits each; a final group of one or two bytes is
/// completed with zero bits and padded to four characters.
pub open spec fn base64_standard(bytes: Seq<u8>) -> Seq<char>
    decreases bytes.len(),
{
    let a = base64_alphabet();
    if bytes.len() == 0 {
        Seq::empty()
    } else if bytes.len() == 1 {
        let b0 = bytes[0] as int;
        seq![a[b0 / 4], a[(b0 % 4) * 16], '=', '=']
    } else if bytes.len() == 2 {
        let b0 = bytes[0] as int;
        let b1 = bytes[1] as int;
        seq![a[b0 / 4], a[(b0 % 4) * 16 + b1 / 16], a[(b1 % 16) * 4], '=']
    } else {
        let b0 = bytes[0] as int;
        let b1 = bytes[1] as int;
        let b2 = bytes[2] as int;
        seq![a[b0 / 4], a[(b0 % 4) * 16 + b1 / 16], a[(b1 % 16) * 4 + b2 / 64], a[b2 % 64]]
            + base64_standard(bytes.subrange(3, bytes.len() as int))
    }
}

/// The length of the padded base64 text of `n` bytes.
pub open spec fn base64_length(n: nat) -> nat {
    if n % 3 == 0 {
        (n / 3) * 4
    } else {
        (n / 3) * 4 + 4
    }
}

/// The base64 text of `n` bytes is four characters for every started group of three.
pub proof fn lemma_base64_length(bytes: Seq<u8>)
    ensures
        base64_standard(bytes).len() == base64_length(bytes.len()),
    decreases bytes.len(),
{
    if bytes.len() >= 3 {
        lemma_base64_length(bytes.subrange(3, bytes.len() as int));
    }
}

/// Encodes `bytes` with the standard base64 engine (standard alphabet, with padding).
///
/// The engine computes the text's length with a checked multiplication and
/// panics when it overflows, so the length must fit.
#[verifier::external_body]
fn encode_base64(bytes: &[u8]) -> (text: String)
    requires
        base64_length(bytes@.len()) <= usize::MAX,
    ensures
        text@ == base64_standard(bytes@),
{
    general_purpose::STANDARD.encode(bytes)
}

/// The bytes that bincode's `serialize` gives a transaction, or `None` when
/// it reports an error: a function of the transaction alone.
pub uninterp spec fn bincode_bytes(tx: Transaction) -> Option<Seq<u8>>;

/// Serializes a transaction with bincode; `None` when bincode reports an error.
/// A byte vector never holds more than `isize::MAX` bytes.
#[verifier::external_body]
fn serialize_transaction(tx: &Transaction) -> (bytes: Option<Vec<u8>>)
    ensures
        bytes is None <==> bincode_bytes(*tx) is None,
        bytes matches Some(b) ==> bincode_bytes(*tx) == Some(b@) && b@.len() <= isize::MAX,
{
    bincode::serialize(tx).ok()
}

/// The model of the serialized forms.
pub open spec fn serialized_model(s: Seq<Option<Vec<u8>>>) -> Seq<Option<Seq<u8>>> {
    s.map_values(
        |o: Option<Vec<u8>>|
            match o {
                Some(b) => Some(b@),
                None => None,
            },
    )
}

/// The positions, in increasing order, of the transactions that could not be serialized.
pub open spec fn failed_indices(s: Seq<Option<Seq<u8>>>) -> Seq<usize>
    decreases s.len(),
{
    if s.len() == 0 {
        Seq::empty()
    } else if s.last() is None {
        failed_indices(s.drop_last()).push((s.len() - 1) as usize)
    } else {
        failed_indices(s.drop_last())
    }
}

/// No position is listed exactly when every transaction was serialized.
pub proof fn lemma_failed_indices_empty(s: Seq<Option<Seq<u8>>>)
    ensures
        failed_indices(s).len() == 0 <==> forall|i: int| 0 <= i < s.len() ==> s[i] is Some,
    decreases s.len(),
{
    if s.len() > 0 {
        lemma_failed_indices_empty(s.drop_last());
        if failed_indices(s).len() == 0 {
            assert forall|i: int| 0 <= i < s.len() implies s[i] is Some by {
                if i < s.len() - 1 {
                    assert(s.drop_last()[i] == s[i]);
                }
            }
        }
    }
}

/// `r` is what encoding the serialized forms `m` gives: the list of failed
/// positions when there is one, else the base64 text of each, in order.
pub open spec fn encoding_outcome(m: Seq<Option<Seq<u8>>>, r: Result<Vec<String>, SdkError>) -> bool {
    if failed_indices(m).len() > 0 {
        r matches Err(SdkError::SerializationFailed(ix)) && ix@ == failed_indices(m)
    } else {
        r matches Ok(texts) && texts@.len() == m.len() && forall|i: int|
            0 <= i < m.len() ==> #[trigger] texts@[i]@ == base64_standard(m[i]->0)
    }
}

/// The base64 texts of the serialized transactions, or the positions of
/// those that could not be serialized.
pub fn encode_serialized_transactions(serialized: &Vec<Option<Vec<u8>>>) -> (r: Result<
    Vec<String>,
    SdkError,
>)
    requires
        forall|i: int|
            0 <= i < serialized@.len() ==> (#[trigger] serialized@[i] matches Some(b) ==> b@.len()
                <= isize::MAX),
    ensures
        encoding_outcome(serialized_model(serialized@), r),
{
    let ghost m = serialized_model(serialized@);
    let mut failed: Vec<usize> = Vec::new();
    let mut i: usize = 0;
    while i < serialized.len()
        invariant
            i <= serialized@.len(),
            m == serialized_model(serialized@),
            failed@ == failed_indices(m.subrange(0, i as int)),
        decreases serialized@.len() - i,
    {
        proof {
            let next = m.subrange(0, i + 1);
            assert(next.drop_last() =~= m.subrange(0, i as int));
        }
        if serialized[i].is_none() {
            failed.push(i);
        }
        i = i + 1;
    }
    assert(m.subrange(0, m.len() as int) =~= m);
    if failed.len() > 0 {
        return Err(SdkError::SerializationFailed(failed));
    }
    proof {
        lemma_failed_indices_empty(m);
    }
    let mut texts: Vec<String> = Vec::new();
    let mut j: usize = 0;
    while j < serialized.len()
        invariant
            j <= serialized@.len(),
            m == serialized_model(serialized@),
            forall|k: int| 0 <= k < m.len() ==> m[k] is Some,
            forall|k: int|
                0 <= k < serialized@.len() ==> (#[trigger] serialized@[k] matches Some(b) ==> b@.len()
                    <= isize::MAX),
            texts@.len() == j,
            forall|k: int| 0 <= k < j ==> #[trigger] texts@[k]@ == base64_standard(m[k]->0),
        decreases serialized@.len() - j,
    {
        assert(m[j as int] is Some);
        match &serialized[j] {
            Some(bytes) => {
                assert(bytes@.len() <= isize::MAX);
                assert(base64_length(bytes@.len()) <= usize::MAX) by {
                    assert(usize::MAX == 2 * isize::MAX + 1);
                }
                let text = encode_base64(bytes.as_slice());
                texts.push(text);
            },
            None => {},
        }
        j = j + 1;
    }
    Ok(texts)
}

/// The bincode forms of the transactions, in order.
pub open spec fn bincode_forms(transactions: Seq<Transaction>) -> Seq<Option<Seq<u8>>> {
    transactions.map_values(|t: Transaction| bincode_bytes(t))
}

/// Serializes each transaction with bincode and encodes the bytes in base64.
pub fn convert_transactions_to_base64(transactions: &[Transaction]) -> (r: Result<
    Vec<String>,
    SdkError,
>)
    ensures
        encoding_outcome(bincode_forms(transactions@), r),
{
    let mut serialized: Vec<Option<Vec<u8>>> = Vec::new();
    let mut i: usize = 0;
    while i < transactions.len()
        invariant
            i <= transactions@.len(),
            serialized@.len() == i,
            forall|k: int|
                0 <= k < serialized@.len() ==> (#[trigger] serialized@[k] matches Some(b) ==> b@.len()
                    <= isize::MAX),
            forall|k: int|
                0 <= k < i ==> (#[trigger] serialized@[k] is None <==> bincode_bytes(
                    transactions@[k],
                ) is None) && (serialized@[k] matches Some(b) ==> bincode_bytes(transactions@[k])
                    == Some(b@)),
        decreases transactions@.len() - i,
    {
        let bytes = serialize_transaction(&transactions[i]);
        serialized.push(bytes);
        i = i + 1;
    }
    assert forall|k: int| 0 <= k < transactions@.len() implies serialized_model(serialized@)[k]
        == bincode_forms(transactions@)[k] by {
        assert(serialized@[k] is None <==> bincode_bytes(transactions@[k]) is None);
    }
    assert(serialized_model(serialized@) =~= bincode_forms(transactions@));
    encode_serialized_transactions(&serialized)
}

/// `r` is the request of `sendBundle` for transactions whose bincode forms are `m`.
pub open spec fn bundle_of_transactions_outcome(
    sdk: JitoJsonRpcSDK,
    m: Seq<Option<Seq<u8>>>,
    r: Result<RpcRequest, SdkError>,
) -> bool {
    if failed_indices(m).len() > 0 {
        r matches Err(SdkError::SerializationFailed(ix)) && ix@ == failed_indices(m)
    } else {
        r matches Ok(req) && req@ == bundle_base64_request(
            sdk@,
            m.map_values(|b: Option<Seq<u8>>| base64_standard(b->0)),
        )
    }
}

impl JitoJsonRpcSDK {
    /// The request of `sendBundle` for signed transactions, serialized with
    /// bincode and encoded in base64, posted to the bundles endpoint.
    pub fn send_bundle_of_transactions_request(&self, transactions: &[Transaction]) -> (r: Result<
        RpcRequest,
        SdkError,
    >)
        ensures
            bundle_of_transactions_outcome(*self, bincode_forms(transactions@), r),
    {
        let encoded = convert_transactions_to_base64(transactions);
        let ghost m = bincode_forms(transactions@);
        match encoded {
            Ok(txlist_encoded) => {
                let ghost texts = txlist_encoded@;
                let r = self.encoded_bundle_request("/api/v1/bundles", txlist_encoded);
                proof {
                    let views = crate::json::string_views(texts);
                    let expected = m.map_values(|b: Option<Seq<u8>>| base64_standard(b->0));
                    assert(views =~= expected);
                }
                let res: Result<RpcRequest, SdkError> = Ok(r);
                assert(bundle_of_transactions_outcome(*self, m, res));
                res
            },
            Err(e) => {
                let res: Result<RpcRequest, SdkError> = Err(e);
                assert(bundle_of_transactions_outcome(*self, m, res));
                res
            },
        }
    }
}

} // verus!
