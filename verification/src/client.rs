//! The view-side half of the protocol, as the injected script behaves:
//! matching broadcast envelopes against the client's own correlation id,
//! dispatching to exactly one terminal handler, and filtering event
//! envelopes by name and target view.

use vstd::prelude::*;

use crate::protocol::{InvokeResult, RpcStatus};
use crate::spec_correlation_id;
use crate::text::str_eq;

verus! {

/// What a client does with one broadcast envelope: nothing (a foreign id,
/// or a non-terminal acknowledgment), or one call of its success or error
/// handler, after which it closes its socket.
#[derive(Clone, Copy, PartialEq, Eq, Structural, Debug)]
pub enum ClientAction {
    Ignore,
    CallSuccess,
    CallError,
}

/// The dispatch rule of the injected script: an envelope is acted on only
/// when its id is the client's own; `Success` then calls the success
/// handler, `Error` and `Invalid` call the error handler, and `Processing`
/// is waited out.
pub open spec fn spec_client_dispatch(
    my_id: Seq<char>,
    msg_id: Seq<char>,
    status: RpcStatus,
) -> ClientAction {
    if msg_id != my_id {
        ClientAction::Ignore
    } else {
        match status {
            RpcStatus::Success => ClientAction::CallSuccess,
            RpcStatus::Error => ClientAction::CallError,
            RpcStatus::Invalid => ClientAction::CallError,
            RpcStatus::Processing => ClientAction::Ignore,
        }
    }
}

/// Dispatches one broadcast envelope against the client's own id.
pub fn client_dispatch(my_id: &str, msg_id: &str, status: RpcStatus) -> (r: ClientAction)
    ensures
        r == spec_client_dispatch(my_id@, msg_id@, status),
{
    if !str_eq(msg_id, my_id) {
        ClientAction::Ignore
    } else {
        match status {
            RpcStatus::Success => ClientAction::CallSuccess,
            RpcStatus::Error => ClientAction::CallError,
            RpcStatus::Invalid => ClientAction::CallError,
            RpcStatus::Processing => ClientAction::Ignore,
        }
    }
}

/// For one invocation and the one result the host returns for it, the
/// owning client takes exactly one terminal action — its success handler
/// exactly when the host succeeded, its error handler exactly when it
/// failed, never both and never neither — and a client waiting under any
/// other id takes none.
pub proof fn lemma_exactly_one_terminal_callback(
    callback: Seq<char>,
    error: Seq<char>,
    result: InvokeResult,
    other_id: Seq<char>,
)
    ensures
        ({
            let id = spec_correlation_id(callback, error);
            let act = spec_client_dispatch(id, id, result.spec_status());
            &&& act == ClientAction::CallSuccess <==> result is Success
            &&& act == ClientAction::CallError <==> result is Error
            &&& act != ClientAction::Ignore
        }),
        other_id != spec_correlation_id(callback, error)
            ==> spec_client_dispatch(
            other_id,
            spec_correlation_id(callback, error),
            result.spec_status(),
        ) == ClientAction::Ignore,
{
}

/// The filter rule of the event-subscription primitive: a subscription
/// for `sub_name` on view `my_view` accepts an envelope exactly when the
/// envelope's event name matches and its target view is either absent
/// (a broadcast to all views) or names `my_view` itself.
pub open spec fn spec_event_matches(
    env_name: Seq<char>,
    env_label: Option<Seq<char>>,
    sub_name: Seq<char>,
    my_view: Seq<char>,
) -> bool {
    env_name == sub_name && (env_label is None || env_label == Some(my_view))
}

/// Filters one event envelope against a subscription.
pub fn event_matches(
    env_name: &str,
    env_label: Option<&String>,
    sub_name: &str,
    my_view: &str,
) -> (r: bool)
    ensures
        r == spec_event_matches(
            env_name@,
            match env_label {
                Some(l) => Some(l@),
                None => None,
            },
            sub_name@,
            my_view@,
        ),
{
    if !str_eq(env_name, sub_name) {
        false
    } else {
        match env_label {
            None => true,
            Some(l) => str_eq(l.as_str(), my_view),
        }
    }
}

/// A subscription never accepts an envelope addressed to a different
/// named view, whatever its event name.
pub proof fn lemma_foreign_view_never_delivered(
    env_name: Seq<char>,
    label: Seq<char>,
    sub_name: Seq<char>,
    my_view: Seq<char>,
)
    requires
        label != my_view,
    ensures
        !spec_event_matches(env_name, Some(label), sub_name, my_view),
{
}

} // verus!
