//! The bridge's wire protocol: the canonical invoke payload, the status
//! tagging of every broadcast message, and the exact JSON text of the
//! envelopes the host sends back to connected views.

use vstd::prelude::*;

use crate::text::{append_json_string, dec_string, spec_dec_digits, spec_json_string};

verus! {

/// One invocation as the view submits it: a command name, its arguments
/// already serialized as JSON text, and the two correlation tokens that
/// name the view-side success and error handlers.
pub struct InvokePayload {
    pub command: String,
    pub args_json: String,
    pub callback: String,
    pub error: String,
}

impl InvokePayload {
    /// The correlation id of this payload: success token then error token.
    pub open spec fn spec_id(&self) -> Seq<char> {
        crate::spec_correlation_id(self.callback@, self.error@)
    }
}

/// The tag carried by every broadcast reply so each client can tell a
/// pending acknowledgment from a terminal result, and discard messages
/// not addressed to it.
#[derive(Clone, Copy, PartialEq, Eq, Structural, Debug)]
pub enum RpcStatus {
    Processing,
    Success,
    Error,
    Invalid,
}

impl RpcStatus {
    /// A status is terminal when a client that sees it stops waiting:
    /// everything but `Processing`.
    pub open spec fn is_terminal(&self) -> bool {
        !(*self is Processing)
    }
}

/// The name under which a status appears on the wire.
pub open spec fn spec_status_text(s: RpcStatus) -> Seq<char> {
    match s {
        RpcStatus::Processing => "Processing"@,
        RpcStatus::Success => "Success"@,
        RpcStatus::Error => "Error"@,
        RpcStatus::Invalid => "Invalid"@,
    }
}

/// The wire name of a status.
pub fn status_text(s: RpcStatus) -> (r: &'static str)
    ensures
        r@ == spec_status_text(s),
{
    match s {
        RpcStatus::Processing => "Processing",
        RpcStatus::Success => "Success",
        RpcStatus::Error => "Error",
        RpcStatus::Invalid => "Invalid",
    }
}

/// A status together with an associated value, the value given as the
/// JSON text it will occupy in the envelope.
pub struct RpcResult {
    pub status: RpcStatus,
    pub data_json: String,
}

/// The result of one dispatched invocation: the host either succeeded or
/// failed, and hands back a value serialized as JSON text.
pub enum InvokeResult {
    Success(String),
    Error(String),
}

impl InvokeResult {
    /// The terminal status a result is tagged with on the wire.
    pub open spec fn spec_status(&self) -> RpcStatus {
        match self {
            InvokeResult::Success(_) => RpcStatus::Success,
            InvokeResult::Error(_) => RpcStatus::Error,
        }
    }

    /// The JSON text of the associated value.
    pub open spec fn spec_data(&self) -> Seq<char> {
        match self {
            InvokeResult::Success(d) => d@,
            InvokeResult::Error(d) => d@,
        }
    }
}

/// The JSON object for a status/value pair:
/// `{"status":"<name>","data":<value>}`.
pub open spec fn spec_rpc_result_json(status: RpcStatus, data_json: Seq<char>) -> Seq<char> {
    "{\"status\":\""@ + spec_status_text(status) + "\",\"data\":"@ + data_json + "}"@
}

/// Appends the JSON object for a status/value pair to `out`.
fn append_rpc_result_json(out: &mut String, status: RpcStatus, data_json: &str)
    ensures
        final(out)@ == old(out)@ + spec_rpc_result_json(status, data_json@),
{
    out.append("{\"status\":\"");
    out.append(status_text(status));
    out.append("\",\"data\":");
    out.append(data_json);
    out.append("}");
    assert(final(out)@ =~= old(out)@ + spec_rpc_result_json(status, data_json@));
}

/// The JSON object for a status/value pair, on its own.
pub fn rpc_result_json(r: &RpcResult) -> (s: String)
    ensures
        s@ == spec_rpc_result_json(r.status, r.data_json@),
{
    let mut out = String::new();
    append_rpc_result_json(&mut out, r.status, r.data_json.as_str());
    assert(out@ =~= spec_rpc_result_json(r.status, r.data_json@));
    out
}

/// The complete broadcast reply for one invocation: a JSON-RPC shaped
/// envelope whose id is the invocation's correlation id and whose result
/// is the tagged status/value pair.
pub open spec fn spec_response_envelope(
    id: Seq<char>,
    status: RpcStatus,
    data_json: Seq<char>,
) -> Seq<char> {
    "{\"jsonrpc\":\"2.0\",\"id\":"@ + spec_json_string(id) + ",\"result\":"@
        + spec_rpc_result_json(status, data_json) + "}"@
}

/// Builds the broadcast envelope that answers the invocation whose
/// correlation tokens are `callback` and `error`, once the host produced
/// `result`. The envelope's status is `Success` exactly when the host
/// succeeded, its id is the concatenation of the two tokens, and its data
/// is the host's value; every connected client can therefore match it
/// against its own id and dispatch to exactly one of its two handlers.
pub fn response_envelope(callback: &str, error: &str, result: &InvokeResult) -> (r: String)
    ensures
        r@ == spec_response_envelope(
            crate::spec_correlation_id(callback@, error@),
            result.spec_status(),
            result.spec_data(),
        ),
        result.spec_status().is_terminal(),
{
    let id = crate::correlation_id(callback, error);
    let mut out = String::new();
    out.append("{\"jsonrpc\":\"2.0\",\"id\":");
    append_json_string(&mut out, id.as_str());
    out.append(",\"result\":");
    match result {
        InvokeResult::Success(d) => {
            append_rpc_result_json(&mut out, RpcStatus::Success, d.as_str());
        }
        InvokeResult::Error(d) => {
            append_rpc_result_json(&mut out, RpcStatus::Error, d.as_str());
        }
    }
    out.append("}");
    assert(out@ =~= spec_response_envelope(
        crate::spec_correlation_id(callback@, error@),
        result.spec_status(),
        result.spec_data(),
    ));
    out
}

/// The JSON object broadcast for one host-initiated event:
/// `{"event_name":<name>,"window_label":<label or null>,"payload":<value>}`.
pub open spec fn spec_event_envelope(
    name: Seq<char>,
    label: Option<Seq<char>>,
    payload_json: Seq<char>,
) -> Seq<char> {
    "{\"event_name\":"@ + spec_json_string(name) + ",\"window_label\":"@ + (match label {
        Some(l) => spec_json_string(l),
        None => "null"@,
    }) + ",\"payload\":"@ + payload_json + "}"@
}

/// Builds the event envelope for an event named `name`, addressed to the
/// view named by `label` or to every view when `label` is `None`, with
/// the event's value already serialized as JSON text.
pub fn event_envelope(name: &str, label: Option<&str>, payload_json: &str) -> (r: String)
    ensures
        r@ == spec_event_envelope(
            name@,
            match label {
                Some(l) => Some(l@),
                None => None,
            },
            payload_json@,
        ),
{
    let mut out = String::new();
    out.append("{\"event_name\":");
    append_json_string(&mut out, name);
    out.append(",\"window_label\":");
    match label {
        Some(l) => {
            append_json_string(&mut out, l);
        }
        None => {
            out.append("null");
        }
    }
    out.append(",\"payload\":");
    out.append(payload_json);
    out.append("}");
    assert(out@ =~= spec_event_envelope(
        name@,
        match label {
            Some(l) => Some(l@),
            None => None,
        },
        payload_json@,
    ));
    out
}

/// The address the injected script connects to, `ws://localhost:<port>`.
pub open spec fn spec_ws_url(port: u16) -> Seq<char> {
    "ws://localhost:"@ + spec_dec_digits(port as nat)
}

/// Builds the socket address for the bridge's port.
pub fn ws_url(port: u16) -> (r: String)
    ensures
        r@ == spec_ws_url(port),
{
    let mut out = String::new();
    out.append("ws://localhost:");
    let digits = dec_string(port as u64);
    out.append(digits.as_str());
    assert(out@ =~= spec_ws_url(port));
    out
}

} // verus!
