//! Request signing: a lowercase hex HMAC-SHA256 of the canonical query string,
//! keyed by the secret key, appended as the last parameter `signature`.
use vstd::prelude::*;
use vstd::string::StringExecFns;
use vstd::utf8::encode_utf8;
use hmac::Mac;
use crate::encode::{is_lower_hex_char, lemma_lower_hex_shape, lower_hex, to_lower_hex};
use crate::deposit_address::DepositAddressQuery;
use crate::withdraw::{WithdrawHistoryQuery, WithdrawHistoryRequest, WithdrawQuery, WithdrawRequest};

verus! {

/// The HMAC-SHA256 tag of `msg` under `key`.
pub uninterp spec fn hmac_sha256_of(key: Seq<u8>, msg: Seq<u8>) -> Seq<u8>;

/// Relies on hmac's `Hmac<Sha256>` over sha2's `Sha256`: `new_from_slice`
/// accepts a key of any length, and `finalize` gives the 32-byte tag of the
/// message under the key.
#[verifier::external_body]
fn hmac_sha256(key: &[u8], msg: &[u8]) -> (r: Vec<u8>)
    ensures
        r@ == hmac_sha256_of(key@, msg@),
        r@.len() == 32,
{
    let mut mac = <hmac::Hmac<sha2::Sha256> as Mac>::new_from_slice(key)
        .expect("HMAC takes keys of any length");
    mac.update(msg);
    mac.finalize().into_bytes().to_vec()
}

/// The signature of `query` under `secret_key`: lowercase hex of the
/// HMAC-SHA256 of the query's UTF-8 bytes keyed by the key's UTF-8 bytes.
pub open spec fn signature_of(secret_key: Seq<char>, query: Seq<char>) -> Seq<char> {
    lower_hex(hmac_sha256_of(encode_utf8(secret_key), encode_utf8(query)))
}

/// `query` with the parameter `signature` appended last.
pub open spec fn signed_query(secret_key: Seq<char>, query: Seq<char>) -> Seq<char> {
    query + "&signature="@ + signature_of(secret_key, query)
}

/// The signature of `query` under `secret_key`.
pub fn signature(secret_key: &str, query: &str) -> (r: String)
    ensures
        r@ == signature_of(secret_key@, query@),
        r@.len() == 64,
        forall|i: int| 0 <= i < r@.len() ==> is_lower_hex_char(#[trigger] r@[i]),
{
    let tag = hmac_sha256(secret_key.as_bytes(), query.as_bytes());
    proof {
        lemma_lower_hex_shape(tag@);
    }
    to_lower_hex(tag.as_slice())
}

/// `query` signed under `secret_key`.
pub fn sign_query(secret_key: &str, query: &str) -> (r: String)
    ensures
        r@ == signed_query(secret_key@, query@),
{
    let sig = signature(secret_key, query);
    let mut out = String::from_str(query);
    out.append("&signature=");
    out.append(sig.as_str());
    out
}

/// The key pair of an account: the API key goes in a header, the secret key
/// signs queries.
#[derive(Clone, Debug)]
pub struct Credentials {
    pub api_key: String,
    pub secret_key: String,
}

impl Credentials {
    pub fn new(api_key: String, secret_key: String) -> (r: Credentials)
        ensures
            r.api_key == api_key,
            r.secret_key == secret_key,
    {
        Credentials { api_key, secret_key }
    }

    /// The signed deposit-address query, stamped with `now`, the current
    /// time in milliseconds since the epoch.
    pub fn signed_deposit_address_query(&self, coin: String, network: Option<String>, now: i64) -> (r: String)
        ensures
            r@ == signed_query(
                self.secret_key@,
                DepositAddressQuery::spec_new(coin, network, now).canonical(),
            ),
    {
        let q = DepositAddressQuery::new(coin, network, now);
        let s = q.to_query_string();
        sign_query(self.secret_key.as_str(), s.as_str())
    }

    /// The signed withdrawal query, stamped with `now`, the current time in
    /// milliseconds since the epoch.
    pub fn signed_withdraw_query(&self, request: WithdrawRequest, now: i64) -> (r: String)
        ensures
            r@ == signed_query(self.secret_key@, WithdrawQuery::spec_new(request, now).canonical()),
    {
        let q = WithdrawQuery::new(request, now);
        let s = q.to_query_string();
        sign_query(self.secret_key.as_str(), s.as_str())
    }

    /// The signed withdrawal-history query, stamped with `now`, the current
    /// time in milliseconds since the epoch, its defaults filled in for that
    /// time before it is signed.
    pub fn signed_withdraw_history_query(&self, request: &WithdrawHistoryRequest, now: i64) -> (r: String)
        ensures
            r@ == signed_query(
                self.secret_key@,
                WithdrawHistoryQuery::spec_new(*request, now).canonical(),
            ),
    {
        let q = WithdrawHistoryQuery::new(request, now);
        let s = q.to_query_string();
        sign_query(self.secret_key.as_str(), s.as_str())
    }
}

/// The signed query is a function of the secret key and the canonical
/// string alone: with both unchanged, so is the signature.
pub proof fn lemma_signature_stable(k1: Seq<char>, q1: Seq<char>, k2: Seq<char>, q2: Seq<char>)
    requires
        k1 == k2,
        q1 == q2,
    ensures
        signature_of(k1, q1) == signature_of(k2, q2),
        signed_query(k1, q1) == signed_query(k2, q2),
{
}

} // verus!
