use speak_notes::control::{
    compact_document, control_outcome, is_success, probe_outcome, probe_verdict, ControlOp,
    Method, ProbeReply, Reply, SessionError,
};
use speak_notes::endpoint::{checked_address, SERVER_URL, WS_URL};
use speak_notes::text::{decimal, join};

#[test]
fn success_is_two_hundred_to_two_ninety_nine() {
    assert!(!is_success(0));
    assert!(!is_success(199));
    assert!(is_success(200));
    assert!(is_success(204));
    assert!(is_success(299));
    assert!(!is_success(300));
    assert!(!is_success(404));
    assert!(!is_success(500));
    assert!(!is_success(u16::MAX));
}

#[test]
fn requests_of_the_three_operations() {
    assert_eq!(ControlOp::Probe.method(), Method::Get);
    assert_eq!(ControlOp::Start.method(), Method::Post);
    assert_eq!(ControlOp::Stop.method(), Method::Post);
    assert_eq!(ControlOp::Probe.path(), "/api/status");
    assert_eq!(ControlOp::Start.path(), "/api/start");
    assert_eq!(ControlOp::Stop.path(), "/api/stop");
    assert_eq!(ControlOp::Probe.address(), "http://localhost:3000/api/status");
    assert_eq!(ControlOp::Start.address(), "http://localhost:3000/api/start");
    assert_eq!(ControlOp::Stop.address(), "http://localhost:3000/api/stop");
}

#[test]
fn origins() {
    assert_eq!(SERVER_URL, "http://localhost:3000");
    assert_eq!(WS_URL, "ws://localhost:3000");
}

#[test]
fn stream_address_is_written_as_a_url() {
    assert_eq!(checked_address(WS_URL), Some("ws://localhost:3000/".to_string()));
    assert_eq!(
        checked_address("WS://LocalHost:3000/a b"),
        Some("ws://localhost:3000/a%20b".to_string())
    );
}

#[test]
fn text_that_is_no_url_has_no_address() {
    assert_eq!(checked_address("//localhost:3000"), None);
    assert_eq!(checked_address("/api/status"), None);
    assert_eq!(checked_address(""), None);
    assert_eq!(checked_address("ws://"), None);
}

#[test]
fn decimal_numerals() {
    assert_eq!(decimal(0), "0");
    assert_eq!(decimal(7), "7");
    assert_eq!(decimal(10), "10");
    assert_eq!(decimal(404), "404");
    assert_eq!(decimal(500), "500");
    assert_eq!(decimal(1234), "1234");
    assert_eq!(decimal(65535), "65535");
    assert_eq!(decimal(60009), "60009");
}

#[test]
fn join_puts_one_text_after_the_other() {
    assert_eq!(join("ab", "cd"), "abcd");
    assert_eq!(join("", "x"), "x");
    assert_eq!(join("x", ""), "x");
}

#[test]
fn control_reply_with_success_status_is_ok() {
    assert_eq!(control_outcome(&Reply::Status(200)), Ok(()));
    assert_eq!(control_outcome(&Reply::Status(204)), Ok(()));
    assert_eq!(control_outcome(&Reply::Status(299)), Ok(()));
}

#[test]
fn control_reply_with_other_status_is_control_error() {
    assert_eq!(control_outcome(&Reply::Status(500)), Err(SessionError::Control { status: 500 }));
    assert_eq!(control_outcome(&Reply::Status(199)), Err(SessionError::Control { status: 199 }));
    assert_eq!(control_outcome(&Reply::Status(300)), Err(SessionError::Control { status: 300 }));
    assert_eq!(control_outcome(&Reply::Status(404)), Err(SessionError::Control { status: 404 }));
}

#[test]
fn control_without_answer_is_transport_error() {
    assert_eq!(
        control_outcome(&Reply::Unreachable("connection refused".to_string())),
        Err(SessionError::Transport("connection refused".to_string()))
    );
}

#[test]
fn error_messages() {
    assert_eq!(SessionError::Transport("no route".to_string()).message(), "no route");
    assert_eq!(SessionError::Control { status: 500 }.message(), "Server returned error: 500");
    assert_eq!(SessionError::Control { status: 42 }.message(), "Server returned error: 42");
    assert_eq!(SessionError::StreamClosed.message(), "stream closed by the service");
}

#[test]
fn duplicate_of_an_error_is_equal() {
    let errors = vec![
        SessionError::Transport("t".to_string()),
        SessionError::Control { status: 503 },
        SessionError::StreamClosed,
    ];
    for e in &errors {
        assert_eq!(&e.duplicate(), e);
    }
}

#[test]
fn probe_descriptor_is_the_compact_body() {
    let reply = ProbeReply::Answer { status: 200, body: b"{\"ok\":true}".to_vec() };
    assert_eq!(probe_outcome(&reply), Ok("{\"ok\":true}".to_string()));
    let spaced = ProbeReply::Answer {
        status: 200,
        body: b" { \"status\" : \"running\" ,\n \"clients\" : [ 1 , 2 ] } ".to_vec(),
    };
    assert_eq!(
        probe_outcome(&spaced),
        Ok("{\"clients\":[1,2],\"status\":\"running\"}".to_string())
    );
}

#[test]
fn probe_accepts_any_json_document() {
    let reply = ProbeReply::Answer { status: 201, body: b" \"up\" ".to_vec() };
    assert_eq!(probe_outcome(&reply), Ok("\"up\"".to_string()));
}

#[test]
fn probe_with_other_status_is_transport_error() {
    let reply = ProbeReply::Answer { status: 503, body: b"{\"ok\":false}".to_vec() };
    assert_eq!(
        probe_outcome(&reply),
        Err(SessionError::Transport("Server returned error: 503".to_string()))
    );
    let reply = ProbeReply::Answer { status: 404, body: b"not json".to_vec() };
    assert_eq!(
        probe_outcome(&reply),
        Err(SessionError::Transport("Server returned error: 404".to_string()))
    );
}

#[test]
fn probe_with_unreadable_body_is_transport_error() {
    let reply = ProbeReply::Answer { status: 200, body: b"<html>".to_vec() };
    assert_eq!(
        probe_outcome(&reply),
        Err(SessionError::Transport("status reply is not JSON".to_string()))
    );
    let empty = ProbeReply::Answer { status: 200, body: Vec::new() };
    assert_eq!(
        probe_outcome(&empty),
        Err(SessionError::Transport("status reply is not JSON".to_string()))
    );
    let not_utf8 = ProbeReply::Answer { status: 200, body: vec![b'"', 0xff, b'"'] };
    assert_eq!(
        probe_outcome(&not_utf8),
        Err(SessionError::Transport("status reply is not JSON".to_string()))
    );
}

#[test]
fn probe_without_answer_is_transport_error() {
    assert_eq!(
        probe_outcome(&ProbeReply::Unreachable("dns".to_string())),
        Err(SessionError::Transport("dns".to_string()))
    );
}

#[test]
fn probe_verdict_from_status_and_document() {
    assert_eq!(probe_verdict(200, Some("{}".to_string())), Ok("{}".to_string()));
    assert_eq!(
        probe_verdict(200, None),
        Err(SessionError::Transport("status reply is not JSON".to_string()))
    );
    assert_eq!(
        probe_verdict(500, Some("{}".to_string())),
        Err(SessionError::Transport("Server returned error: 500".to_string()))
    );
    assert_eq!(
        probe_verdict(302, None),
        Err(SessionError::Transport("Server returned error: 302".to_string()))
    );
}

#[test]
fn compact_document_of_a_body() {
    assert_eq!(compact_document(b"[ 1, 2 ,3 ]"), Some("[1,2,3]".to_string()));
    assert_eq!(compact_document(b"{ }"), Some("{}".to_string()));
    assert_eq!(compact_document(b"{"), None);
    assert_eq!(compact_document(b"1 2"), None);
}
