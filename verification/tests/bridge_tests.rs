use awesome_rpc::bridge::AwesomeRpc;
use awesome_rpc::client::{client_dispatch, event_matches, ClientAction};
use awesome_rpc::protocol::{InvokePayload, RpcStatus};
use awesome_rpc::ws::handle_invoke;

fn payload() -> InvokePayload {
    InvokePayload {
        command: "my_command".to_string(),
        args_json: "64".to_string(),
        callback: "cb1".to_string(),
        error: "err1".to_string(),
    }
}

#[test]
fn resolved_view_is_submitted_and_acknowledged_processing() {
    let decision = handle_invoke(true, payload());
    let submitted = decision.submit.expect("resolved view must be submitted");
    assert_eq!(submitted.command, "my_command");
    assert_eq!(submitted.callback, "cb1");
    assert_eq!(decision.reply.status, RpcStatus::Processing);
    assert_eq!(decision.reply.data_json, "null");
}

#[test]
fn unknown_view_is_invalid_and_never_submitted() {
    let decision = handle_invoke(false, payload());
    assert!(decision.submit.is_none());
    assert_eq!(decision.reply.status, RpcStatus::Invalid);
    assert_eq!(decision.reply.data_json, "\"Malformed request\"");
}

#[test]
fn owner_gets_exactly_one_terminal_callback() {
    // The owning client of id "cb1err1" sees its own envelope.
    assert_eq!(client_dispatch("cb1err1", "cb1err1", RpcStatus::Success), ClientAction::CallSuccess);
    assert_eq!(client_dispatch("cb1err1", "cb1err1", RpcStatus::Error), ClientAction::CallError);
    assert_eq!(client_dispatch("cb1err1", "cb1err1", RpcStatus::Invalid), ClientAction::CallError);
    // A pending acknowledgment is not terminal.
    assert_eq!(client_dispatch("cb1err1", "cb1err1", RpcStatus::Processing), ClientAction::Ignore);
    // A client waiting under another id ignores the envelope entirely.
    assert_eq!(client_dispatch("cb2err2", "cb1err1", RpcStatus::Success), ClientAction::Ignore);
    assert_eq!(client_dispatch("cb2err2", "cb1err1", RpcStatus::Error), ClientAction::Ignore);
}

#[test]
fn event_subscription_filters_by_name_and_view() {
    let main = "main".to_string();
    let other = "other".to_string();
    // Broadcast to all views: delivered to a matching subscription.
    assert!(event_matches("tick", None, "tick", "main"));
    // Addressed to this view: delivered.
    assert!(event_matches("tick", Some(&main), "tick", "main"));
    // Addressed to a different named view: never delivered.
    assert!(!event_matches("tick", Some(&other), "tick", "main"));
    // A different event name: never delivered, targeted or not.
    assert!(!event_matches("tock", None, "tick", "main"));
    assert!(!event_matches("tock", Some(&main), "tick", "main"));
}

#[test]
fn with_port_keeps_port_and_allowlist() {
    let rpc = AwesomeRpc::with_port(45017, vec!["https://app.local".to_string()]);
    assert_eq!(rpc.port, 45017);
    assert!(rpc.allowed_origins.is_allowed("https://app.local"));
    assert!(!rpc.allowed_origins.is_allowed("https://evil.example"));
}

#[test]
fn initialization_script_splices_the_port_at_both_sockets() {
    let rpc = AwesomeRpc::with_port(45017, vec![]);
    let script = rpc.initialization_script();
    assert_eq!(script.matches("ws://localhost:45017").count(), 2);
    assert!(script.contains("__TAURI_POST_MESSAGE__"));
    assert!(script.contains("AwesomeEvent"));
    assert!(script.contains("const rpcMethodId = message.callback + message.error;"));
}

#[test]
fn listen_address_binds_all_interfaces_on_the_port() {
    let rpc = AwesomeRpc::with_port(45017, vec![]);
    assert_eq!(rpc.listen_address(), "0.0.0.0:45017");
}

#[test]
fn broadcast_invocation_round_trip_reaches_one_handler() {
    // The view submits the payload; the listener acknowledges Processing.
    let decision = handle_invoke(true, payload());
    let submitted = decision.submit.unwrap();
    assert_eq!(decision.reply.status, RpcStatus::Processing);

    // The host's dispatcher later hands the result to the responder, which
    // broadcasts one envelope under the payload's correlation id.
    let envelope = awesome_rpc::protocol::response_envelope(
        &submitted.callback,
        &submitted.error,
        &awesome_rpc::protocol::InvokeResult::Success("\"executed\"".to_string()),
    );
    let v: serde_json::Value = serde_json::from_str(&envelope).unwrap();
    let msg_id = v.get("id").unwrap().as_str().unwrap();
    let status = match v.get("result").unwrap().get("status").unwrap().as_str().unwrap() {
        "Processing" => RpcStatus::Processing,
        "Success" => RpcStatus::Success,
        "Error" => RpcStatus::Error,
        _ => RpcStatus::Invalid,
    };

    // Every connected client filters: the owner takes its success handler,
    // any other client ignores the envelope.
    let my_id = awesome_rpc::correlation_id("cb1", "err1");
    assert_eq!(client_dispatch(&my_id, msg_id, status), ClientAction::CallSuccess);
    assert_eq!(client_dispatch("cb9err9", msg_id, status), ClientAction::Ignore);
}

#[test]
fn new_picks_some_port_and_keeps_the_allowlist() {
    if let Some(rpc) = AwesomeRpc::new(vec!["https://app.local".to_string()]) {
        assert!(rpc.allowed_origins.is_allowed("https://app.local"));
        let script = rpc.initialization_script();
        assert!(script.contains(&format!("ws://localhost:{}", rpc.port)));
    }
}
