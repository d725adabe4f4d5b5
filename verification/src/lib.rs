//! A verified core for a WebSocket/HTTP RPC bridge between a sandboxed
//! web view and a native host process: origin gating, request/response
//! correlation, and the wire envelopes both sides exchange.

use vstd::prelude::*;

pub mod bridge;
pub mod client;
pub mod http;
pub mod origin;
pub mod pending;
pub mod protocol;
pub mod text;
pub mod ws;

verus! {

/// The correlation id of an invocation: the success token followed by
/// the error token. A later result carrying this id is routed back to
/// exactly the caller that supplied the two tokens.
pub open spec fn spec_correlation_id(callback: Seq<char>, error: Seq<char>) -> Seq<char> {
    callback + error
}

/// Builds the correlation id for a pair of callback tokens.
pub fn correlation_id(callback: &str, error: &str) -> (r: String)
    ensures
        r@ == spec_correlation_id(callback@, error@),
{
    let mut id = callback.to_owned();
    id.append(error);
    id
}

} // verus!
