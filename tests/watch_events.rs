use kube_client_core::error::{ClientError, ErrorResponse, IoKind, ReadFailure};
use kube_client_core::watch::{
    chunk_error_kind, decode_watch_frames, frame_error_item, line_frame, line_item, watch_step, FrameError,
    WatchFrame,
};
use kube_core::WatchEvent;
use serde_json::Value;

fn frame(line: &str) -> WatchFrame<WatchEvent<Value>> {
    let parsed = serde_json::from_str::<WatchEvent<Value>>(line);
    let api = serde_json::from_str::<Value>(line).ok().and_then(|v| {
        Some(ErrorResponse {
            status: v.get("status")?.as_str()?.to_string(),
            code: v.get("code")?.as_u64()? as u16,
            message: v.get("message").and_then(Value::as_str).unwrap_or("").to_string(),
            reason: v.get("reason").and_then(Value::as_str).unwrap_or("").to_string(),
        })
    });
    line_frame(line.to_string(), parsed, api)
}

fn failure(kind: IoKind) -> ReadFailure {
    ReadFailure { kind, message: "read failed".to_string() }
}

fn three_lines() -> Vec<WatchFrame<WatchEvent<Value>>> {
    vec![
        frame(r#"{"type":"ADDED","object":{"name":"a"}}"#),
        frame(r#"{"type":"MODIFIED","object":{"name":"b"}}"#),
        frame(r#"{"type":"DELETED","object":{"name":"c"}}"#),
    ]
}

#[test]
fn three_events_in_order() {
    let items = decode_watch_frames(three_lines());
    assert_eq!(items.len(), 3);
    match &items[0] {
        Ok(WatchEvent::Added(v)) => assert_eq!(v["name"], "a"),
        _ => panic!("first item is not ADDED"),
    }
    match &items[1] {
        Ok(WatchEvent::Modified(v)) => assert_eq!(v["name"], "b"),
        _ => panic!("second item is not MODIFIED"),
    }
    match &items[2] {
        Ok(WatchEvent::Deleted(v)) => assert_eq!(v["name"], "c"),
        _ => panic!("third item is not DELETED"),
    }
}

#[test]
fn truncated_last_line_ends_quietly() {
    let mut frames = three_lines();
    let last = frame(r#"{"type":"ADDED","object":{"name":"#);
    assert!(matches!(last, WatchFrame::Line { eof: true, .. }));
    frames.push(last);
    let items = decode_watch_frames(frames);
    assert_eq!(items.len(), 3);
    assert!(items.iter().all(|i| i.is_ok()));
}

#[test]
fn malformed_line_is_a_decode_error() {
    let f = frame(r#"{"type":"SOMETHING","object":{}}"#);
    assert!(matches!(f, WatchFrame::Line { eof: false, .. }));
    let later = frame(r#"{"type":"ADDED","object":{"name":"next"}}"#);
    let items = decode_watch_frames(vec![f, later]);
    assert_eq!(items.len(), 2);
    match &items[0] {
        Err(ClientError::SerdeError { text, .. }) => assert_eq!(text, r#"{"type":"SOMETHING","object":{}}"#),
        _ => panic!("expected a decode error"),
    }
    assert!(matches!(items[1], Ok(WatchEvent::Added(_))));
}

#[test]
fn error_response_line_is_an_api_error() {
    let mut frames = three_lines();
    frames.push(frame(r#"{"status":"Failure","code":410,"message":"too old","reason":"Expired"}"#));
    frames.push(frame(r#"{"type":"ADDED","object":{"name":"late"}}"#));
    let items = decode_watch_frames(frames);
    assert_eq!(items.len(), 4);
    match &items[3] {
        Err(ClientError::Api(e)) => {
            assert_eq!(e.code, 410);
            assert_eq!(e.status, "Failure");
            assert_eq!(e.message, "too old");
            assert_eq!(e.reason, "Expired");
        }
        _ => panic!("expected an API error"),
    }
}

#[test]
fn timeout_and_eof_end_the_sequence_silently() {
    for kind in [IoKind::TimedOut, IoKind::UnexpectedEof] {
        let mut frames = three_lines();
        frames.push(WatchFrame::Failed(FrameError::Io(failure(kind))));
        frames.push(frame(r#"{"type":"ADDED","object":{"name":"late"}}"#));
        let items = decode_watch_frames(frames);
        assert_eq!(items.len(), 3);
        assert!(items.iter().all(|i| i.is_ok()));
    }
}

#[test]
fn other_read_failure_ends_with_an_error() {
    let mut frames = three_lines();
    frames.push(WatchFrame::Failed(FrameError::Io(failure(IoKind::Other))));
    frames.push(frame(r#"{"type":"ADDED","object":{"name":"late"}}"#));
    let items = decode_watch_frames(frames);
    assert_eq!(items.len(), 4);
    match &items[3] {
        Err(ClientError::ReadEvents(f)) => assert_eq!(*f, failure(IoKind::Other)),
        _ => panic!("expected a read error"),
    }
}

#[test]
fn overlong_line_is_a_terminal_error() {
    let frames: Vec<WatchFrame<WatchEvent<Value>>> = vec![WatchFrame::Failed(FrameError::MaxLineLengthExceeded)];
    let items = decode_watch_frames(frames);
    assert_eq!(items.len(), 1);
    assert!(matches!(items[0], Err(ClientError::LinesCodecMaxLineLengthExceeded)));
    assert!(matches!(
        frame_error_item(FrameError::MaxLineLengthExceeded),
        Some(ClientError::LinesCodecMaxLineLengthExceeded)
    ));
    assert!(frame_error_item(FrameError::Io(failure(IoKind::TimedOut))).is_none());
}

#[test]
fn empty_body_yields_nothing() {
    let frames: Vec<WatchFrame<WatchEvent<Value>>> = Vec::new();
    assert!(decode_watch_frames(frames).is_empty());
}

#[test]
fn line_item_choices() {
    let err = serde_json::from_str::<Value>("{").unwrap_err();
    assert!(line_item::<u8>("{".to_string(), Err(err), true, None).is_none());
    let err = serde_json::from_str::<Value>("}").unwrap_err();
    let api = ErrorResponse { status: "Failure".into(), code: 500, message: String::new(), reason: String::new() };
    assert!(matches!(line_item::<u8>("}".to_string(), Err(err), false, Some(api)), Some(Err(ClientError::Api(_)))));
    assert!(matches!(line_item::<u8>("7".to_string(), Ok(7), false, None), Some(Ok(7))));
}

#[test]
fn watch_step_reports_the_end() {
    let (item, ends) = watch_step(frame(r#"{"type":"ADDED","object":{}}"#));
    assert!(matches!(item, Some(Ok(WatchEvent::Added(_)))));
    assert!(!ends);
    let (item, ends) = watch_step(frame(r#"{"status":"Failure","code":500}"#));
    assert!(matches!(item, Some(Err(ClientError::Api(_)))));
    assert!(ends);
    let (item, ends) = watch_step(frame(r#"{"type":"ADDED""#));
    assert!(item.is_none());
    assert!(!ends);
    let (item, ends) = watch_step(WatchFrame::<u8>::Failed(FrameError::Io(failure(IoKind::TimedOut))));
    assert!(item.is_none());
    assert!(ends);
}

#[test]
fn chunk_eof_is_recognised() {
    assert_eq!(
        chunk_error_kind("error reading a body from connection: unexpected EOF during chunk size line"),
        IoKind::UnexpectedEof
    );
    assert_eq!(chunk_error_kind("unexpected EOF during chunk"), IoKind::UnexpectedEof);
    assert_eq!(chunk_error_kind("connection reset by peer"), IoKind::Other);
    assert_eq!(chunk_error_kind("unexpected EOF during chun"), IoKind::Other);
    assert_eq!(chunk_error_kind(""), IoKind::Other);
}
