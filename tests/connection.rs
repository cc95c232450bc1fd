use chromeoxid::{
    classify_envelope, decimal_text, decode_frame, encode_call, CallId, Connection, ConnectionError,
    DecodeError, EncodeError, EventMessage, FlushPoll, Message, MethodCall, PollItem, Received,
    Response, TransportError,
};

fn navigate(conn: &mut Connection) -> CallId {
    conn.submit_command(
        "Page.navigate".to_string(),
        None,
        r#"{"url":"https://example.com"}"#.to_string(),
    )
}

/// Runs the outbound half of one poll cycle against a transport that is always ready,
/// returning the frame buffered in it, if any.
fn send_cycle(conn: &mut Connection) -> Option<String> {
    if conn.flush_outstanding() {
        conn.on_flush(FlushPoll::Flushed).unwrap();
    }
    let frame = conn.start_send_next().unwrap();
    conn.on_send_ready(true);
    frame
}

#[test]
fn fresh_connection_ids_start_at_zero() {
    let mut conn = Connection::new();
    assert_eq!(navigate(&mut conn), CallId(0));
    assert_eq!(navigate(&mut conn), CallId(1));
}

#[test]
fn ids_strictly_increase() {
    let mut conn = Connection::new();
    let mut last: Option<usize> = None;
    for _ in 0..50 {
        let id = navigate(&mut conn).value();
        if let Some(prev) = last {
            assert!(id > prev);
        }
        last = Some(id);
    }
    assert_eq!(last, Some(49));
}

#[test]
fn first_submission_becomes_one_frame() {
    let mut conn = Connection::new();
    navigate(&mut conn);
    let frame = conn.start_send_next().unwrap();
    assert_eq!(
        frame.as_deref(),
        Some(r#"{"id":0,"method":"Page.navigate","params":{"url":"https://example.com"}}"#)
    );
    assert!(conn.has_in_flight());
    navigate(&mut conn);
    assert_eq!(conn.start_send_next().unwrap(), None);
}

#[test]
fn frames_leave_in_submission_order() {
    let mut conn = Connection::new();
    for m in ["A.a", "B.b", "C.c"] {
        conn.submit_command(m.to_string(), None, "{}".to_string());
    }
    let mut seen = Vec::new();
    for _ in 0..10 {
        if let Some(f) = send_cycle(&mut conn) {
            seen.push(f);
        }
    }
    assert_eq!(
        seen,
        vec![
            r#"{"id":0,"method":"A.a","params":{}}"#.to_string(),
            r#"{"id":1,"method":"B.b","params":{}}"#.to_string(),
            r#"{"id":2,"method":"C.c","params":{}}"#.to_string(),
        ]
    );
}

#[test]
fn one_unflushed_frame_at_a_time() {
    let mut conn = Connection::new();
    navigate(&mut conn);
    navigate(&mut conn);
    assert!(conn.start_send_next().unwrap().is_some());
    conn.on_send_ready(true);
    assert!(conn.flush_outstanding());
    assert!(!conn.has_in_flight());
    assert_eq!(conn.start_send_next().unwrap(), None);
    assert!(conn.on_flush(FlushPoll::NotReady).is_ok());
    assert!(conn.flush_outstanding());
    assert_eq!(conn.start_send_next().unwrap(), None);
    conn.on_flush(FlushPoll::Flushed).unwrap();
    assert!(!conn.flush_outstanding());
    let f = conn.start_send_next().unwrap().unwrap();
    assert!(f.starts_with(r#"{"id":1,"#));
}

#[test]
fn not_ready_transport_keeps_call_in_flight() {
    let mut conn = Connection::new();
    navigate(&mut conn);
    assert!(conn.start_send_next().unwrap().is_some());
    conn.on_send_ready(false);
    assert!(conn.has_in_flight());
    assert!(!conn.flush_outstanding());
}

#[test]
fn flush_failure_is_surfaced_and_flag_kept() {
    let mut conn = Connection::new();
    navigate(&mut conn);
    conn.start_send_next().unwrap();
    conn.on_send_ready(true);
    let e = TransportError { message: "broken pipe".to_string() };
    assert_eq!(conn.on_flush(FlushPoll::Failed(e.clone())), Err(ConnectionError::Transport(e)));
    assert!(conn.flush_outstanding());
}

#[test]
fn buffer_failure_drops_the_call() {
    let mut conn = Connection::new();
    navigate(&mut conn);
    navigate(&mut conn);
    conn.start_send_next().unwrap();
    let e = TransportError { message: "closed".to_string() };
    assert_eq!(conn.on_buffer_failed(e.clone()), ConnectionError::Transport(e));
    assert!(!conn.has_in_flight());
    let f = conn.start_send_next().unwrap().unwrap();
    assert!(f.starts_with(r#"{"id":1,"#));
}

#[test]
fn invalid_params_fail_encoding_and_are_dropped() {
    let mut conn = Connection::new();
    conn.submit_command("Bad.call".to_string(), None, "{not json".to_string());
    navigate(&mut conn);
    assert_eq!(
        conn.start_send_next(),
        Err(ConnectionError::Encode(EncodeError::InvalidParams))
    );
    assert!(!conn.has_in_flight());
    let f = conn.start_send_next().unwrap().unwrap();
    assert!(f.starts_with(r#"{"id":1,"method":"Page.navigate""#));
}

#[test]
fn session_id_is_written_when_present() {
    let call = MethodCall {
        id: CallId(7),
        method: "Runtime.evaluate".to_string(),
        session_id: Some("S1".to_string()),
        params: r#"{"expression":"1"}"#.to_string(),
    };
    assert_eq!(
        encode_call(&call).unwrap(),
        r#"{"id":7,"method":"Runtime.evaluate","sessionId":"S1","params":{"expression":"1"}}"#
    );
}

#[test]
fn method_names_are_escaped() {
    let call = MethodCall {
        id: CallId(1),
        method: "a\"b".to_string(),
        session_id: None,
        params: "null".to_string(),
    };
    assert_eq!(encode_call(&call).unwrap(), r#"{"id":1,"method":"a\"b","params":null}"#);
}

#[test]
fn encoded_call_round_trips() {
    let call = MethodCall {
        id: CallId(123456),
        method: "Page.navigate".to_string(),
        session_id: Some("abc".to_string()),
        params: r#"{"url":"https://example.com"}"#.to_string(),
    };
    let frame = encode_call(&call).unwrap();
    let v: serde_json::Value = serde_json::from_str(&frame).unwrap();
    assert_eq!(v["id"].as_u64(), Some(123456));
    assert_eq!(v["method"].as_str(), Some("Page.navigate"));
    assert_eq!(v["sessionId"].as_str(), Some("abc"));
    assert_eq!(v["params"].to_string(), call.params);
}

#[test]
fn decimal_text_writes_digits() {
    assert_eq!(decimal_text(0), "0");
    assert_eq!(decimal_text(1234), "1234");
    assert_eq!(decimal_text(usize::MAX), usize::MAX.to_string());
}

#[test]
fn event_frame_is_decoded() {
    let mut conn = Connection::new();
    let frame = br#"{"method":"Page.loadEventFired","params":{}}"#.to_vec();
    assert_eq!(
        conn.on_receive(Received::Frame(frame)),
        PollItem::Item(Ok(Message::Event(EventMessage {
            method: "Page.loadEventFired".to_string(),
            params: "{}".to_string(),
        })))
    );
}

#[test]
fn response_frame_is_decoded() {
    assert_eq!(
        decode_frame(br#"{"id":3,"result":{"a":1}}"#),
        Ok(Message::Response(Response {
            id: CallId(3),
            result: Some(r#"{"a":1}"#.to_string()),
            error: None,
        }))
    );
    assert_eq!(
        decode_frame(br#"{"id":4,"error":{"code":-32000,"message":"x"}}"#),
        Ok(Message::Response(Response {
            id: CallId(4),
            result: None,
            error: Some(r#"{"code":-32000,"message":"x"}"#.to_string()),
        }))
    );
}

#[test]
fn malformed_frame_gives_one_error_and_polling_continues() {
    let mut conn = Connection::new();
    assert_eq!(
        conn.on_receive(Received::Frame(b"{oops".to_vec())),
        PollItem::Item(Err(ConnectionError::Decode(DecodeError::Malformed)))
    );
    assert_eq!(conn.on_receive(Received::NotReady), PollItem::Pending);
    let frame = br#"{"method":"Page.loadEventFired","params":{}}"#.to_vec();
    assert!(matches!(conn.on_receive(Received::Frame(frame)), PollItem::Item(Ok(_))));
}

#[test]
fn json_that_is_no_envelope_is_rejected() {
    assert_eq!(decode_frame(br#"{"foo":1}"#), Err(DecodeError::NotAnEnvelope));
    assert_eq!(decode_frame(br#"{"method":"X.y"}"#), Err(DecodeError::NotAnEnvelope));
    assert_eq!(decode_frame(b"[1,2]"), Err(DecodeError::NotAnEnvelope));
}

#[test]
fn end_of_stream_terminates() {
    let mut conn = Connection::new();
    assert_eq!(conn.on_receive(Received::EndOfStream), PollItem::Terminated);
}

#[test]
fn read_error_gives_one_error_item() {
    let mut conn = Connection::new();
    let e = TransportError { message: "reset".to_string() };
    assert_eq!(
        conn.on_receive(Received::Failed(e.clone())),
        PollItem::Item(Err(ConnectionError::Transport(e)))
    );
    assert_eq!(conn.on_receive(Received::NotReady), PollItem::Pending);
}

#[test]
fn classify_prefers_response_over_event() {
    assert_eq!(
        classify_envelope(Some(5), Some("M.m".to_string()), Some("{}".to_string()), None, None),
        Ok(Message::Response(Response { id: CallId(5), result: None, error: None }))
    );
    assert_eq!(
        classify_envelope(None, Some("M.m".to_string()), Some("[]".to_string()), None, None),
        Ok(Message::Event(EventMessage { method: "M.m".to_string(), params: "[]".to_string() }))
    );
    assert_eq!(classify_envelope(None, None, None, None, None), Err(DecodeError::NotAnEnvelope));
}

#[test]
fn termination_is_final() {
    let mut conn = Connection::new();
    assert!(!conn.terminated());
    assert_eq!(conn.on_receive(Received::EndOfStream), PollItem::Terminated);
    assert!(conn.terminated());
    let frame = br#"{"method":"Page.loadEventFired","params":{}}"#.to_vec();
    assert_eq!(conn.on_receive(Received::Frame(frame)), PollItem::Terminated);
    assert_eq!(conn.on_receive(Received::NotReady), PollItem::Terminated);
}

#[test]
fn members_of_other_types_are_ignored() {
    assert_eq!(
        decode_frame(br#"{"id":"7","method":3,"params":{}}"#),
        Err(DecodeError::NotAnEnvelope)
    );
    assert_eq!(
        decode_frame(br#"{"id":-1,"method":"E.v","params":[1]}"#),
        Ok(Message::Event(EventMessage { method: "E.v".to_string(), params: "[1]".to_string() }))
    );
}

#[test]
fn control_characters_are_escaped() {
    let call = MethodCall {
        id: CallId(2),
        method: "t\u{1}\n\\/".to_string(),
        session_id: Some("\u{1f}\té".to_string()),
        params: "{}".to_string(),
    };
    assert_eq!(
        encode_call(&call).unwrap(),
        "{\"id\":2,\"method\":\"t\\u0001\\n\\\\/\",\"sessionId\":\"\\u001f\\té\",\"params\":{}}"
    );
}
