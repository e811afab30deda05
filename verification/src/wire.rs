//! The wire format: JSON encoding and decoding, and URL joining.
//!
//! The outside calls into `serde_json` and `url` stand here, each behind a
//! trusted item; everything around them is verified.

use vstd::prelude::*;

verus! {

/// The JSON string literal that `serde_json` produces for `s`: the characters
/// between (and including) the surrounding double quotes, with the escapes
/// that JSON requires. Determined by the characters of `s` alone.
pub uninterp spec fn json_quoted(s: Seq<char>) -> Seq<char>;

/// The string value of field `key` when `text` parses as a JSON object that
/// carries `key` with a string value; `None` when `text` is not valid JSON,
/// not an object, lacks the field, or holds it with a non-string value.
/// Determined by the arguments alone.
pub uninterp spec fn json_string_field(text: Seq<char>, key: Seq<char>) -> Option<Seq<char>>;

/// Relies on `serde_json::to_string` applied to a string slice: it returns
/// the JSON string literal for `s`, quoted and escaped, and never fails on a
/// string. The result depends on the characters of `s` alone.
#[verifier::external_body]
fn json_encode_str(s: &str) -> (r: String)
    ensures
        r@ == json_quoted(s@),
{
    match serde_json::to_string(s) {
        Ok(r) => r,
        Err(_) => String::new(),
    }
}

/// Relies on `serde_json::from_str::<serde_json::Value>` to parse `text`,
/// and on `serde_json::Value::get` and `serde_json::Value::as_str` to read
/// field `key` as a string: together they return exactly the string value of
/// that field of a JSON object, and `None` in every other case. The outcome
/// depends on the arguments alone.
#[verifier::external_body]
pub(crate) fn json_field_as_string(text: &str, key: &str) -> (r: Option<String>)
    ensures
        match r {
            Some(s) => json_string_field(text@, key@) == Some(s@),
            None => json_string_field(text@, key@) is None,
        },
{
    match serde_json::from_str::<serde_json::Value>(text) {
        Ok(v) => match v.get(key) {
            Some(f) => f.as_str().map(|x| x.to_owned()),
            None => None,
        },
        Err(_) => None,
    }
}

/// The fixed base endpoint of the service.
pub open spec fn spec_default_base_url() -> Seq<char> {
    "https://aethokit.onrender.com/api/"@
}

/// Relies on `url::Url::parse` and `url::Url::join`: parsing the fixed base
/// endpoint succeeds and serializes back to itself, and joining a plain
/// relative segment onto a base whose path ends in `/` appends the segment,
/// as the documentation of `Url::join` shows for a base with a trailing
/// slash. Neither call fails on the inputs admitted here.
#[verifier::external_body]
pub(crate) fn join_url(base: &str, path: &str) -> (r: String)
    requires
        base@ == spec_default_base_url(),
        path@ == "get-gas-address"@ || path@ == "sponsor-tx"@,
    ensures
        r@ == base@ + path@,
{
    match url::Url::parse(base) {
        Ok(u) => match u.join(path) {
            Ok(j) => String::from(j),
            Err(_) => String::new(),
        },
        Err(_) => String::new(),
    }
}

/// Request body for submitting a transaction for sponsorship.
#[derive(Debug, Clone)]
pub struct SponsorTxRequest {
    /// Serialized transaction string
    pub transaction: String,
    /// Optional RPC endpoint or network name
    pub rpc_or_network: Option<String>,
}

/// The exact JSON body sent when submitting a transaction: the transaction
/// string under `transaction`, and the hint under `rpcOrNetwork` only when
/// one is set (the field is absent, not null, otherwise).
pub open spec fn spec_sponsor_tx_body(tx: Seq<char>, hint: Option<Seq<char>>) -> Seq<char> {
    match hint {
        Option::None => "{\"transaction\":"@ + json_quoted(tx) + "}"@,
        Option::Some(h) => "{\"transaction\":"@ + json_quoted(tx) + ",\"rpcOrNetwork\":"@
            + json_quoted(h) + "}"@,
    }
}

/// Serialize a [`SponsorTxRequest`] to the exact JSON text that goes on the
/// wire.
pub fn encode_sponsor_tx_request(req: &SponsorTxRequest) -> (r: String)
    ensures
        r@ == spec_sponsor_tx_body(req.transaction@, req.rpc_or_network.deep_view()),
{
    let mut out = String::from_str("{\"transaction\":");
    let quoted_tx = json_encode_str(req.transaction.as_str());
    out.append(quoted_tx.as_str());
    match &req.rpc_or_network {
        Option::Some(h) => {
            out.append(",\"rpcOrNetwork\":");
            let quoted_hint = json_encode_str(h.as_str());
            out.append(quoted_hint.as_str());
        },
        Option::None => {},
    }
    out.append("}");
    proof {
        assert(out@ =~= spec_sponsor_tx_body(
            req.transaction@,
            req.rpc_or_network.deep_view(),
        ));
    }
    out
}

} // verus!
