use preset_relay::preset::{Header, Preset};
use preset_relay::registry::Registry;
use preset_relay::relay::{
    complete_relay, data_envelope, derive_key, plan_relay, InboundRequest, RelayResult,
    TransportOutcome,
};

fn inbound(method: &str, target: &str, body: &[u8]) -> InboundRequest {
    InboundRequest { method: method.to_string(), target: target.to_string(), body: body.to_vec() }
}

#[test]
fn key_is_the_query_string() {
    assert_eq!(derive_key("/api/fetch?k=1"), "k=1");
    assert_eq!(derive_key("/api/fetch?a=1&b=2?c"), "a=1&b=2?c");
    assert_eq!(derive_key("/api/fetch"), "");
    assert_eq!(derive_key("/api/fetch?"), "");
    assert_eq!(derive_key(""), "");
}

#[test]
fn pass_through_without_preset() {
    let r = Registry::new();
    let req = inbound("PUT", "/api/fetch?nothing=here", b"payload");
    let out = plan_relay(&r, &req);
    assert_eq!(out.url, "/api/fetch?nothing=here");
    assert_eq!(out.method, "PUT");
    assert!(out.headers.is_empty());
    assert_eq!(out.body, b"payload".to_vec());
    let result = complete_relay(TransportOutcome::Received("hello".to_string()));
    assert_eq!(result.status(), 200);
    assert_eq!(result.response_body(), "{\"data\":\"hello\"}");
}

#[test]
fn preset_directed_relay() {
    let mut r = Registry::new();
    r.save(Preset::new(
        "k=1",
        "http://upstream.test/x",
        "DELETE",
        vec![Header::new("X-Tag", "v")],
        "ignored",
    ));
    let req = inbound("POST", "/somewhere/else?k=1", b"{\"in\":1}");
    let out = plan_relay(&r, &req);
    assert_eq!(out.url, "http://upstream.test/x");
    assert_eq!(out.headers.len(), 1);
    assert_eq!(out.headers[0].name, "X-Tag");
    assert_eq!(out.headers[0].value, "v");
    assert_eq!(out.body, b"{\"in\":1}".to_vec());
    assert_eq!(out.method, "POST");
}

#[test]
fn connection_error_is_server_error() {
    let result = complete_relay(TransportOutcome::SendFailed("connection refused".to_string()));
    match &result {
        RelayResult::Failure { status, message } => {
            assert_eq!(*status, 500);
            assert_eq!(message, "Request failed: connection refused");
        }
        RelayResult::Success { .. } => panic!("a transport failure must not succeed"),
    }
    assert_eq!(result.status(), 500);
    assert_eq!(result.response_body(), "Request failed: connection refused");
}

#[test]
fn unreadable_body_is_server_error() {
    let result = complete_relay(TransportOutcome::ReadFailed("invalid utf-8".to_string()));
    assert_eq!(result.status(), 500);
    assert_eq!(result.response_body(), "Failed to read response body: invalid utf-8");
}

#[test]
fn downstream_error_body_still_relayed() {
    let result = complete_relay(TransportOutcome::Received("{\"error\":\"gone\"}".to_string()));
    match &result {
        RelayResult::Success { status, content_type, data } => {
            assert_eq!(*status, 200);
            assert_eq!(content_type, "application/json");
            assert_eq!(data, "{\"error\":\"gone\"}");
        }
        RelayResult::Failure { .. } => panic!("a received response is a success"),
    }
}

#[test]
fn envelope_escapes_the_body() {
    assert_eq!(data_envelope("a\"b"), "{\"data\":\"a\\\"b\"}");
    assert_eq!(data_envelope(""), "{\"data\":\"\"}");
    assert_eq!(data_envelope("line\nnext"), "{\"data\":\"line\\nnext\"}");
}
