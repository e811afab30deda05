//! The client: configuration, request plans, and response classification.

use vstd::prelude::*;

use crate::error::AethokitError;
use crate::text::is_blank;
use crate::text::str_is_blank;
use crate::wire::SponsorTxRequest;
use crate::wire::encode_sponsor_tx_request;
use crate::wire::json_string_field;
use crate::wire::join_url;
use crate::wire::spec_default_base_url;
use crate::wire::spec_sponsor_tx_body;

verus! {

/// Configuration handed to [`Aethokit::new`].
#[derive(Debug, Clone)]
pub struct AethokitConfig {
    /// The credential sent on every request; must not be blank.
    pub gas_key: String,
    /// Optional RPC endpoint or network name, passed through to the service.
    pub rpc_or_network: Option<String>,
}

/// The HTTP method of a request plan.
#[derive(Clone, Copy, Debug, PartialEq, Eq)]
pub enum HttpMethod {
    Get,
    Post,
}

/// Everything a transport needs to perform one request: the method, the
/// absolute URL, the two headers that every request carries, and the JSON
/// body when there is one.
#[derive(Debug, Clone)]
pub struct RequestPlan {
    /// The HTTP method.
    pub method: HttpMethod,
    /// The absolute URL: the base endpoint with the operation's path joined on.
    pub url: String,
    /// The value of the `accept` header; always `application/json`.
    pub header_accept: String,
    /// The value of the `x-gas-key` header; always the configured credential.
    pub header_x_gas_key: String,
    /// The JSON body text, when the operation sends one.
    pub body: Option<String>,
}

/// Client for the Aethokit Gas Sponsorship API.
///
/// It holds the configuration and builds request plans; a transport outside
/// the library performs them and hands the status and body text back to
/// [`classify_response`] and its two instances.
#[derive(Debug, Clone)]
pub struct Aethokit {
    gas_key: String,
    base_url: String,
    rpc_or_network: Option<String>,
}

impl Aethokit {
    /// The client is well formed: a non-blank credential and the fixed base
    /// endpoint.
    pub closed spec fn wf(self) -> bool {
        &&& !is_blank(self.gas_key@)
        &&& self.base_url@ == spec_default_base_url()
    }

    /// The configured credential, as the contracts speak of it.
    pub closed spec fn spec_gas_key(self) -> Seq<char> {
        self.gas_key@
    }

    /// The configured hint, as the contracts speak of it.
    pub closed spec fn spec_rpc_or_network(self) -> Option<Seq<char>> {
        self.rpc_or_network.deep_view()
    }

    /// Initialize the SDK.
    ///
    /// Fails with `MissingGasKey` when the credential is empty or
    /// all-whitespace, and succeeds on every other configuration; no network
    /// traffic happens here.
    pub fn new(config: AethokitConfig) -> (r: Result<Aethokit, AethokitError>)
        ensures
            r is Err <==> is_blank(config.gas_key@),
            r matches Err(e) ==> e is MissingGasKey,
            r matches Ok(c) ==> c.wf() && c.spec_gas_key() == config.gas_key@
                && c.spec_rpc_or_network() == config.rpc_or_network.deep_view(),
    {
        if str_is_blank(config.gas_key.as_str()) {
            return Err(AethokitError::MissingGasKey);
        }
        Ok(Aethokit {
            gas_key: config.gas_key,
            base_url: default_base_url(),
            rpc_or_network: config.rpc_or_network,
        })
    }

    /// Build the plan that every operation goes through: join the path onto
    /// the base endpoint, attach the `accept` and `x-gas-key` headers, and
    /// carry the body when there is one. This is the single place where the
    /// authentication header is put on a request.
    pub fn make_request_plan(&self, path: &str, method: HttpMethod, body: Option<String>) -> (p:
        RequestPlan)
        requires
            self.wf(),
            path@ == "get-gas-address"@ || path@ == "sponsor-tx"@,
        ensures
            p.method == method,
            p.url@ == spec_default_base_url() + path@,
            p.header_accept@ == "application/json"@,
            p.header_x_gas_key@ == self.spec_gas_key(),
            p.body == body,
    {
        let url = join_url(self.base_url.as_str(), path);
        RequestPlan {
            method,
            url,
            header_accept: String::from_str("application/json"),
            header_x_gas_key: self.gas_key.clone(),
            body,
        }
    }

    /// The plan for retrieving the gas address of the gas tank associated
    /// with the credential: a GET of `get-gas-address` with no body.
    pub fn get_gas_address_plan(&self) -> (p: RequestPlan)
        requires
            self.wf(),
        ensures
            p.method == HttpMethod::Get,
            p.url@ == spec_default_base_url() + "get-gas-address"@,
            p.header_accept@ == "application/json"@,
            p.header_x_gas_key@ == self.spec_gas_key(),
            p.body is None,
    {
        self.make_request_plan("get-gas-address", HttpMethod::Get, None)
    }

    /// The plan for submitting a transaction for sponsorship: a POST of
    /// `sponsor-tx` whose body carries the transaction and, only when one is
    /// configured, the RPC-or-network hint.
    pub fn sponsor_tx_plan(&self, tx: String) -> (p: RequestPlan)
        requires
            self.wf(),
        ensures
            p.method == HttpMethod::Post,
            p.url@ == spec_default_base_url() + "sponsor-tx"@,
            p.header_accept@ == "application/json"@,
            p.header_x_gas_key@ == self.spec_gas_key(),
            p.body matches Some(b) && b@ == spec_sponsor_tx_body(
                tx@,
                self.spec_rpc_or_network(),
            ),
    {
        let hint = match &self.rpc_or_network {
            Option::Some(h) => Some(h.clone()),
            Option::None => None,
        };
        let tx_req = SponsorTxRequest { transaction: tx, rpc_or_network: hint };
        let body = encode_sponsor_tx_request(&tx_req);
        self.make_request_plan("sponsor-tx", HttpMethod::Post, Some(body))
    }
}

/// The fixed base endpoint as a `String`.
fn default_base_url() -> (r: String)
    ensures
        r@ == spec_default_base_url(),
{
    String::from_str("https://aethokit.onrender.com/api/")
}

/// Whether `status` counts as success: the 2xx range.
pub open spec fn is_success_status(status: u16) -> bool {
    200 <= status < 300
}

/// Classify a response, shared by both operations: a non-2xx status is
/// `UnexpectedStatus` with the status and the body verbatim, whatever the
/// body holds; a 2xx status is decoded, and yields the string under `key`
/// when the body is a JSON object carrying it, and `Serde` with the body
/// otherwise.
pub fn classify_response(status: u16, body: String, key: &str) -> (r: Result<
    String,
    AethokitError,
>)
    ensures
        !is_success_status(status) ==> (r matches Err(e) && e matches
            (AethokitError::UnexpectedStatus { status: st, body: b }) && st == status && b@
            == body@),
        is_success_status(status) && json_string_field(body@, key@) is Some ==> (r matches Ok(s)
            && Some(s@) == json_string_field(body@, key@)),
        is_success_status(status) && json_string_field(body@, key@) is None ==> (r matches Err(e)
            && e matches AethokitError::Serde(b) && b@ == body@),
{
    if !(200 <= status && status < 300) {
        return Err(AethokitError::UnexpectedStatus { status, body });
    }
    match crate::wire::json_field_as_string(body.as_str(), key) {
        Some(s) => Ok(s),
        None => Err(AethokitError::Serde(body)),
    }
}

/// Classify the response of the gas-address operation: on 2xx the value of
/// `gasAddress`, the other cases as in [`classify_response`].
pub fn decode_gas_address_response(status: u16, body: String) -> (r: Result<
    String,
    AethokitError,
>)
    ensures
        !is_success_status(status) ==> (r matches Err(e) && e matches
            (AethokitError::UnexpectedStatus { status: st, body: b }) && st == status && b@
            == body@),
        is_success_status(status) && json_string_field(body@, "gasAddress"@) is Some ==> (r matches
            Ok(s) && Some(s@) == json_string_field(body@, "gasAddress"@)),
        is_success_status(status) && json_string_field(body@, "gasAddress"@) is None ==> (r matches
            Err(e) && e matches AethokitError::Serde(b) && b@ == body@),
{
    classify_response(status, body, "gasAddress")
}

/// Classify the response of the sponsor-transaction operation: on 2xx the
/// value of `hash`, the other cases as in [`classify_response`].
pub fn decode_sponsor_tx_response(status: u16, body: String) -> (r: Result<String, AethokitError>)
    ensures
        !is_success_status(status) ==> (r matches Err(e) && e matches
            (AethokitError::UnexpectedStatus { status: st, body: b }) && st == status && b@
            == body@),
        is_success_status(status) && json_string_field(body@, "hash"@) is Some ==> (r matches Ok(s)
            && Some(s@) == json_string_field(body@, "hash"@)),
        is_success_status(status) && json_string_field(body@, "hash"@) is None ==> (r matches Err(e)
            && e matches AethokitError::Serde(b) && b@ == body@),
{
    classify_response(status, body, "hash")
}

} // verus!
