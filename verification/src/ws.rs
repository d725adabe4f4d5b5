//! The broadcast binding's listener decision: what one inbound `invoke`
//! message makes the bridge do, before any socket is written.

use vstd::prelude::*;

use crate::protocol::{InvokePayload, RpcResult, RpcStatus};

verus! {

/// What the listener decided for one inbound message: `submit` carries
/// the payload to hand to the host dispatcher when, and only when, the
/// target view resolved; `reply` is the acknowledgment sent back over the
/// socket either way.
pub struct WsDecision {
    pub submit: Option<InvokePayload>,
    pub reply: RpcResult,
}

/// Decides one inbound invocation of the broadcast binding, given whether
/// the host's registry resolved the target view. A resolved view has its
/// payload submitted and the client told `Processing` (result pending); an
/// unknown view is never submitted and is answered with a terminal
/// `Invalid` carrying a diagnostic, so no client is left waiting.
pub fn handle_invoke(view_resolved: bool, payload: InvokePayload) -> (r: WsDecision)
    ensures
        view_resolved ==> r.submit == Some(payload) && r.reply.status == RpcStatus::Processing
            && r.reply.data_json@ == "null"@,
        !view_resolved ==> r.submit is None && r.reply.status == RpcStatus::Invalid
            && r.reply.data_json@ == "\"Malformed request\""@,
        r.submit is Some <==> view_resolved,
{
    if view_resolved {
        WsDecision {
            submit: Some(payload),
            reply: RpcResult { status: RpcStatus::Processing, data_json: "null".to_owned() },
        }
    } else {
        WsDecision {
            submit: None,
            reply: RpcResult {
                status: RpcStatus::Invalid,
                data_json: "\"Malformed request\"".to_owned(),
            },
        }
    }
}

} // verus!
