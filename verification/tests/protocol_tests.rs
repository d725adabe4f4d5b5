use awesome_rpc::correlation_id;
use awesome_rpc::protocol::{
    event_envelope, response_envelope, rpc_result_json, status_text, ws_url, InvokeResult,
    RpcResult, RpcStatus,
};
use awesome_rpc::text::{dec_string, json_string};

#[test]
fn correlation_id_concatenates_the_two_tokens() {
    assert_eq!(correlation_id("cb1", "err1"), "cb1err1");
    assert_eq!(correlation_id("", "e"), "e");
    assert_eq!(correlation_id("c", ""), "c");
    assert_eq!(correlation_id("", ""), "");
}

#[test]
fn dec_string_renders_decimal() {
    assert_eq!(dec_string(0), "0");
    assert_eq!(dec_string(7), "7");
    assert_eq!(dec_string(45017), "45017");
    assert_eq!(dec_string(10), "10");
    assert_eq!(dec_string(u64::MAX), "18446744073709551615");
}

#[test]
fn json_string_escapes_specials() {
    assert_eq!(json_string("plain"), "\"plain\"");
    assert_eq!(json_string("a\"b"), "\"a\\\"b\"");
    assert_eq!(json_string("a\\b"), "\"a\\\\b\"");
    assert_eq!(json_string("a\nb\tc\rd"), "\"a\\nb\\tc\\rd\"");
    assert_eq!(json_string("\u{1}\u{1f}"), "\"\\u0001\\u001f\"");
    assert_eq!(json_string(""), "\"\"");
}

#[test]
fn json_string_round_trips_through_a_json_parser() {
    for s in ["hello", "with \"quotes\" and \\slashes\\", "line\nbreak", "unicode \u{263a}"] {
        let text = json_string(s);
        let parsed: serde_json::Value = serde_json::from_str(&text).unwrap();
        assert_eq!(parsed.as_str(), Some(s));
    }
}

#[test]
fn status_names_match_the_wire_protocol() {
    assert_eq!(status_text(RpcStatus::Processing), "Processing");
    assert_eq!(status_text(RpcStatus::Success), "Success");
    assert_eq!(status_text(RpcStatus::Error), "Error");
    assert_eq!(status_text(RpcStatus::Invalid), "Invalid");
}

#[test]
fn rpc_result_json_is_the_tagged_object() {
    let r = RpcResult { status: RpcStatus::Processing, data_json: "null".to_string() };
    assert_eq!(rpc_result_json(&r), "{\"status\":\"Processing\",\"data\":null}");
    let r = RpcResult {
        status: RpcStatus::Invalid,
        data_json: "\"Malformed request\"".to_string(),
    };
    assert_eq!(
        rpc_result_json(&r),
        "{\"status\":\"Invalid\",\"data\":\"Malformed request\"}"
    );
}

#[test]
fn success_envelope_carries_id_status_and_data() {
    let text = response_envelope("cb1", "err1", &InvokeResult::Success("\"executed\"".to_string()));
    let v: serde_json::Value = serde_json::from_str(&text).unwrap();
    assert_eq!(v.get("jsonrpc").unwrap().as_str(), Some("2.0"));
    assert_eq!(v.get("id").unwrap().as_str(), Some("cb1err1"));
    let result = v.get("result").unwrap();
    assert_eq!(result.get("status").unwrap().as_str(), Some("Success"));
    assert_eq!(result.get("data").unwrap().as_str(), Some("executed"));
}

#[test]
fn error_envelope_carries_error_status() {
    let text = response_envelope("cb1", "err1", &InvokeResult::Error("\"bad args\"".to_string()));
    let v: serde_json::Value = serde_json::from_str(&text).unwrap();
    assert_eq!(v.get("id").unwrap().as_str(), Some("cb1err1"));
    let result = v.get("result").unwrap();
    assert_eq!(result.get("status").unwrap().as_str(), Some("Error"));
    assert_eq!(result.get("data").unwrap().as_str(), Some("bad args"));
}

#[test]
fn event_envelope_broadcast_has_null_label() {
    let text = event_envelope("tick", None, "5");
    let v: serde_json::Value = serde_json::from_str(&text).unwrap();
    assert_eq!(v.get("event_name").unwrap().as_str(), Some("tick"));
    assert!(v.get("window_label").unwrap().is_null());
    assert_eq!(v.get("payload").unwrap().as_i64(), Some(5));
}

#[test]
fn event_envelope_targeted_names_the_view() {
    let text = event_envelope("tick", Some("main"), "{\"n\":1}");
    let v: serde_json::Value = serde_json::from_str(&text).unwrap();
    assert_eq!(v.get("event_name").unwrap().as_str(), Some("tick"));
    assert_eq!(v.get("window_label").unwrap().as_str(), Some("main"));
    assert_eq!(v.get("payload").unwrap().get("n").unwrap().as_i64(), Some(1));
}

#[test]
fn ws_url_names_localhost_and_port() {
    assert_eq!(ws_url(45017), "ws://localhost:45017");
    assert_eq!(ws_url(1), "ws://localhost:1");
}
