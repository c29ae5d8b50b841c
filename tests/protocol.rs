use ovs_unixctl::{encode_request, receive, Client, Error, FailureKind, Received, Request, Response};

fn reply(result: Option<&str>, error: Option<&str>, id: Option<usize>) -> Received {
    Received::Message(Response {
        result: result.map(|s| s.to_string()),
        error: error.map(|s| s.to_string()),
        id,
    })
}

fn params(items: &[&str]) -> Vec<String> {
    items.iter().map(|s| s.to_string()).collect()
}

#[test]
fn ids_count_up_from_one() {
    let mut client = Client::new();
    assert_eq!(client.next_id(), 1);
    let mut ids = Vec::new();
    for _ in 0..5 {
        ids.push(client.build_request("ping", &params(&[])).id);
    }
    assert_eq!(ids, vec![1, 2, 3, 4, 5]);
    assert_eq!(client.next_id(), 6);
    assert!(client.can_issue());
}

#[test]
fn build_request_keeps_method_and_params() {
    let mut client = Client::new();
    let req = client.build_request("bond/show", &params(&["bond0", "x"]));
    assert_eq!(req.method, "bond/show");
    assert_eq!(req.params, params(&["bond0", "x"]));
    assert_eq!(req.id, 1);
}

#[test]
fn null_id_is_protocol_error() {
    let client = Client::new();
    let req = Request { method: "ping".to_string(), params: vec![], id: 1 };
    for received in [
        reply(Some("pong"), None, None),
        reply(None, Some("failed"), None),
        reply(None, None, None),
    ] {
        match client.send_request(&req, received) {
            Err(Error::Protocol(msg)) => assert_eq!(msg, "id not found in response"),
            other => panic!("unexpected {:?}", other),
        }
    }
}

#[test]
fn mismatched_id_is_protocol_error() {
    let mut client = Client::new();
    let req = client.build_request("ping", &params(&[]));
    match client.call_params(&req, reply(Some("pong"), None, Some(2))) {
        Err(Error::Protocol(msg)) => assert_eq!(msg, "request and response ids do not match"),
        other => panic!("unexpected {:?}", other),
    }
    // The next request carries the next id; the stray reply is not matched to it.
    let next = client.build_request("ping", &params(&[]));
    assert_eq!(next.id, 2);
}

#[test]
fn matching_reply_gives_result() {
    let mut client = Client::new();
    let req = client.build_request("ping", &params(&["hello world"]));
    let r = client.call_params(&req, reply(Some("pong"), None, Some(1))).unwrap();
    assert_eq!(r, Some("pong".to_string()));
    let req = client.build_request("ping", &params(&["hello world"]));
    let r = client.call_params(&req, reply(None, None, Some(2))).unwrap();
    assert_eq!(r, None);
}

#[test]
fn remote_error_is_command_error() {
    let mut client = Client::new();
    let req = client.build_request("bond/show", &params(&["bond0", "bond1"]));
    match client.call_params(&req, reply(None, Some("no such bond"), Some(1))) {
        Err(Error::Command { cmd, params, error }) => {
            assert_eq!(cmd, "bond/show");
            assert_eq!(params, "bond0, bond1");
            assert_eq!(error, "no such bond");
        }
        other => panic!("unexpected {:?}", other),
    }
}

#[test]
fn empty_remote_error_is_not_a_failure() {
    let mut client = Client::new();
    let req = client.build_request("version", &params(&[]));
    let r = client.call_params(&req, reply(Some("ok"), Some(""), Some(1))).unwrap();
    assert_eq!(r, Some("ok".to_string()));
}

#[test]
fn silence_until_deadline_is_timeout() {
    assert!(matches!(receive(Received::Ended), Err(Error::Timeout)));
    let failed = Received::Failed { kind: FailureKind::TimedOut, detail: "timed out".to_string() };
    assert!(matches!(receive(failed), Err(Error::Timeout)));
}

#[test]
fn peer_closing_mid_message_is_socket_error() {
    let eof = Received::Failed {
        kind: FailureKind::Eof,
        detail: "EOF while parsing an object".to_string(),
    };
    match receive(eof) {
        Err(Error::Socket(d)) => assert_eq!(d, "EOF while parsing an object"),
        other => panic!("unexpected {:?}", other),
    }
    let io = Received::Failed { kind: FailureKind::Io, detail: "broken pipe".to_string() };
    assert!(matches!(receive(io), Err(Error::Socket(_))));
}

#[test]
fn malformed_reply_is_serialize_error() {
    let syntax = Received::Failed { kind: FailureKind::Syntax, detail: "expected value".to_string() };
    assert!(matches!(receive(syntax), Err(Error::Serialize(_))));
    let data = Received::Failed { kind: FailureKind::Data, detail: "invalid type".to_string() };
    assert!(matches!(receive(data), Err(Error::Serialize(_))));
}

#[test]
fn receive_failure_reaches_call() {
    let mut client = Client::new();
    let req = client.build_request("ping", &params(&[]));
    assert!(matches!(client.call_params(&req, Received::Ended), Err(Error::Timeout)));
}

#[test]
fn request_wire_text() {
    let req = Request { method: "bond/show".to_string(), params: params(&["bond0"]), id: 7 };
    assert_eq!(encode_request(&req), r#"{"method":"bond/show","params":["bond0"],"id":7}"#);
    let req = Request { method: "version".to_string(), params: vec![], id: 120 };
    assert_eq!(encode_request(&req), r#"{"method":"version","params":[],"id":120}"#);
    let req = Request { method: "a".to_string(), params: params(&["x", "y z"]), id: 0 };
    assert_eq!(encode_request(&req), r#"{"method":"a","params":["x","y z"],"id":0}"#);
}

#[test]
fn request_wire_text_escapes_strings() {
    let req = Request {
        method: "say\"hi\"".to_string(),
        params: params(&["line\nbreak", "back\\slash"]),
        id: 1,
    };
    assert_eq!(
        encode_request(&req),
        r#"{"method":"say\"hi\"","params":["line\nbreak","back\\slash"],"id":1}"#
    );
}

#[test]
fn request_wire_text_decodes_as_json() {
    let req = Request { method: "ping".to_string(), params: params(&["hello world"]), id: 42 };
    let v: serde_json::Value = serde_json::from_str(&encode_request(&req)).unwrap();
    assert_eq!(v["method"], "ping");
    assert_eq!(v["params"][0], "hello world");
    assert_eq!(v["id"], 42);
}
