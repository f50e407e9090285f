//! Response shaping for the HTTP side of the bridge.
//!
//! The HTTP layer itself stays outside the library; these functions decide
//! everything it answers with: the static info document of the root
//! endpoint, the health endpoint's two possible statuses, the success and
//! failure envelopes of the proxy endpoint, and the decoding of a
//! parameter list out of a request body or query argument.

use vstd::prelude::*;

verus! {

use crate::bridge::{BridgeError, RpcResponse};
use crate::jsonio::{
    array_of,
    field_of,
    get_field,
    parse_value,
    parsed_doc,
    value_text,
    value_to_text,
};
use vstd::string::StringExecFns;

/// The static JSON document the root endpoint serves.
pub fn info_document() -> (r: String)
    ensures
        r@ == (
        "{\"success\":true,\"info\":{\"note\":\"Atomicals ElectrumX Digital Object Proxy Online\",\"usageInfo\":{\"note\":\"The service offers both POST and GET requests for proxying requests to ElectrumX. To handle larger broadcast transaction payloads use the POST method instead of GET.\",\"POST\":\"POST /proxy/:method with string encoded array in the field \\\\\\\"params\\\\\\\" in the request body. \",\"GET\":\"GET /proxy/:method?params=[\\\\\\\"value1\\\\\\\"] with string encoded array in the query argument \\\\\\\"params\\\\\\\" in the URL.\"},\"healthCheck\":\"GET /proxy/health\",\"github\":\"https://github.com/atomicals/electrumx-proxy\",\"license\":\"MIT\"}}")@,
{
    String::from_str(
        "{\"success\":true,\"info\":{\"note\":\"Atomicals ElectrumX Digital Object Proxy Online\",\"usageInfo\":{\"note\":\"The service offers both POST and GET requests for proxying requests to ElectrumX. To handle larger broadcast transaction payloads use the POST method instead of GET.\",\"POST\":\"POST /proxy/:method with string encoded array in the field \\\\\\\"params\\\\\\\" in the request body. \",\"GET\":\"GET /proxy/:method?params=[\\\\\\\"value1\\\\\\\"] with string encoded array in the query argument \\\\\\\"params\\\\\\\" in the URL.\"},\"healthCheck\":\"GET /proxy/health\",\"github\":\"https://github.com/atomicals/electrumx-proxy\",\"license\":\"MIT\"}}",
    )
}

/// The health endpoint's whole behavior: 200 with the healthy text when
/// the probe call succeeded, 503 with the unreachable text when it failed,
/// and no other status in any state.
pub fn health_response(healthy: bool) -> (r: (u16, &'static str))
    ensures
        (r.0 == 200) <==> healthy,
        (r.0 == 503) <==> !healthy,
        healthy ==> r.1@ == "ElectrumX is healthy"@,
        !healthy ==> r.1@ == "ElectrumX is unreachable"@,
{
    if healthy {
        (200, "ElectrumX is healthy")
    } else {
        (503, "ElectrumX is unreachable")
    }
}

/// The label naming each failure kind inside the error envelope.
pub open spec fn error_label(e: BridgeError) -> Seq<char> {
    match e {
        BridgeError::Connect => "connect failure"@,
        BridgeError::Write => "write failure"@,
        BridgeError::Read => "read failure"@,
        BridgeError::Timeout => "read timeout"@,
        BridgeError::Parse => "malformed response"@,
    }
}

fn error_label_text(e: BridgeError) -> (r: &'static str)
    ensures
        r@ == error_label(e),
{
    match e {
        BridgeError::Connect => "connect failure",
        BridgeError::Write => "write failure",
        BridgeError::Read => "read failure",
        BridgeError::Timeout => "read timeout",
        BridgeError::Parse => "malformed response",
    }
}

/// The proxy endpoint's success envelope: exactly the backend's result
/// value — its serialized text, or `null` when the response carried none —
/// wrapped as `{"success":true,"response":<result>}`. Serializing a value
/// cannot fail, so neither can this.
pub fn proxy_success_body(resp: &RpcResponse) -> (r: String)
    ensures
        resp.result is None ==> r@ == "{\"success\":true,\"response\":"@ + "null"@ + "}"@,
        resp.result matches Some(v) ==> r@ == "{\"success\":true,\"response\":"@ + value_text(v)
            + "}"@,
{
    let mut out = String::from_str("{\"success\":true,\"response\":");
    match &resp.result {
        Some(v) => {
            let t = value_to_text(v);
            out.append(t.as_str());
        },
        None => {
            out.append("null");
        },
    }
    out.append("}");
    out
}

/// The proxy endpoint's failure envelope,
/// `{"success":false,"error":"<label>"}`: a bridge failure becomes a
/// structured answer, never an aborted request.
pub fn proxy_failure_body(e: BridgeError) -> (r: String)
    ensures
        r@ == "{\"success\":false,\"error\":\""@ + error_label(e) + "\"}"@,
{
    let mut out = String::from_str("{\"success\":false,\"error\":\"");
    out.append(error_label_text(e));
    out.append("\"}");
    out
}

/// The proxy endpoint's status: 200 for a decoded response, 504 when the
/// backend stayed silent past the deadline, 502 for every other bridge
/// failure — and nothing else.
pub fn proxy_status(outcome: &Result<RpcResponse, BridgeError>) -> (s: u16)
    ensures
        (s == 200) <==> outcome is Ok,
        (s == 504) <==> outcome == Err::<RpcResponse, BridgeError>(BridgeError::Timeout),
        (s == 502) <==> (outcome is Err && !(outcome
            == Err::<RpcResponse, BridgeError>(BridgeError::Timeout))),
        s == 200 || s == 502 || s == 504,
{
    match outcome {
        Ok(_) => 200,
        Err(BridgeError::Timeout) => 504,
        Err(_) => 502,
    }
}

/// The parameter list a query text decodes to, if it parses as a JSON
/// array.
pub open spec fn query_params_spec(text: Seq<char>) -> Option<Seq<serde_json::Value>> {
    match parsed_doc(text) {
        Some(doc) => array_of(doc),
        None => None,
    }
}

/// The parameter list a request body decodes to, if it parses as an object
/// whose `params` field is an array.
pub open spec fn body_params_spec(text: Seq<char>) -> Option<Seq<serde_json::Value>> {
    match parsed_doc(text) {
        Some(doc) => match field_of(doc, "params"@) {
            Some(f) => array_of(f),
            None => None,
        },
        None => None,
    }
}

/// A copy of the elements behind an array borrow of a parsed document.
fn clone_params(arr: &Vec<serde_json::Value>) -> (r: Vec<serde_json::Value>)
    ensures
        r@ == arr@,
{
    let r = arr.clone();
    proof {
        assert forall|i: int| 0 <= i < arr@.len() implies r@[i] == arr@[i] by {
            assert(cloned::<serde_json::Value>(arr@[i], r@[i]));
        }
        assert(r@ =~= arr@);
    }
    r
}

/// The parameter list of a call, taken from a text that must be a JSON
/// array, as the query argument of a GET carries it. The call returns the
/// array's elements exactly when the text parses as an array; anything
/// else is a parse failure.
pub fn params_from_query(text: &str) -> (r: Result<Vec<serde_json::Value>, BridgeError>)
    ensures
        r is Ok <==> query_params_spec(text@) is Some,
        r matches Ok(ps) ==> Some(ps@) == query_params_spec(text@),
        r is Err ==> r == Err::<Vec<serde_json::Value>, BridgeError>(BridgeError::Parse),
{
    match parse_value(text) {
        Ok(v) => {
            match v.as_array() {
                Some(arr) => Ok(clone_params(arr)),
                None => Err(BridgeError::Parse),
            }
        },
        Err(_) => Err(BridgeError::Parse),
    }
}

/// The parameter list of a call, taken from a request body of the shape
/// `{"params":[...]}`, as a POST carries it. The call returns the array's
/// elements exactly when the body parses as an object whose `params` field
/// is an array; anything else is a parse failure.
pub fn params_from_body(text: &str) -> (r: Result<Vec<serde_json::Value>, BridgeError>)
    ensures
        r is Ok <==> body_params_spec(text@) is Some,
        r matches Ok(ps) ==> Some(ps@) == body_params_spec(text@),
        r is Err ==> r == Err::<Vec<serde_json::Value>, BridgeError>(BridgeError::Parse),
{
    match parse_value(text) {
        Ok(v) => {
            match get_field(&v, "params") {
                Some(f) => {
                    match f.as_array() {
                        Some(arr) => Ok(clone_params(arr)),
                        None => Err(BridgeError::Parse),
                    }
                },
                None => Err(BridgeError::Parse),
            }
        },
        Err(_) => Err(BridgeError::Parse),
    }
}

/// Where a call's parameters come from, decided the same way for every
/// request: a non-empty body is decoded as the POST shape, otherwise a
/// present query argument as the GET shape, and with neither the list is
/// empty.
pub fn request_params(body: &str, query: Option<&String>) -> (r: Result<
    Vec<serde_json::Value>,
    BridgeError,
>)
    ensures
        body@.len() > 0 ==> {
            &&& (r is Ok <==> body_params_spec(body@) is Some)
            &&& (r matches Ok(ps) ==> Some(ps@) == body_params_spec(body@))
        },
        query matches Some(q) ==> (body@.len() == 0 ==> {
            &&& (r is Ok <==> query_params_spec(q@) is Some)
            &&& (r matches Ok(ps) ==> Some(ps@) == query_params_spec(q@))
        }),
        body@.len() == 0 && query is None ==> (r matches Ok(ps) && ps@ == Seq::<
            serde_json::Value,
        >::empty()),
        r is Err ==> r == Err::<Vec<serde_json::Value>, BridgeError>(BridgeError::Parse),
{
    if !body.is_empty() {
        params_from_body(body)
    } else {
        match query {
            Some(text) => params_from_query(text.as_str()),
            None => Ok(Vec::new()),
        }
    }
}

/// The health endpoint's fixed probe call: the version method with no
/// parameters.
pub fn health_probe() -> (r: (&'static str, Vec<serde_json::Value>))
    ensures
        r.0@ == "server.version"@,
        r.1@ == Seq::<serde_json::Value>::empty(),
{
    ("server.version", Vec::new())
}

} // verus!
