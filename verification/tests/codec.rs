use websocket_bridge::message::{decode, encode, CloseFrame, WebSocketMessage, WireClose, WireMessage};

fn round_trip(message: WebSocketMessage) -> Option<WebSocketMessage> {
    decode(encode(message))
}

#[test]
fn text_round_trips() {
    match round_trip(WebSocketMessage::Text(String::from("héllo ✓"))) {
        Some(WebSocketMessage::Text(text)) => assert_eq!(text, "héllo ✓"),
        _ => panic!("a text message was expected"),
    }
}

#[test]
fn empty_text_round_trips() {
    match round_trip(WebSocketMessage::Text(String::new())) {
        Some(WebSocketMessage::Text(text)) => assert_eq!(text, ""),
        _ => panic!("a text message was expected"),
    }
}

#[test]
fn binary_round_trips() {
    match round_trip(WebSocketMessage::Binary(vec![0, 1, 2, 255])) {
        Some(WebSocketMessage::Binary(data)) => assert_eq!(data, vec![0, 1, 2, 255]),
        _ => panic!("a binary message was expected"),
    }
}

#[test]
fn ping_round_trips() {
    match round_trip(WebSocketMessage::Ping(vec![7, 8])) {
        Some(WebSocketMessage::Ping(data)) => assert_eq!(data, vec![7, 8]),
        _ => panic!("a ping was expected"),
    }
}

#[test]
fn pong_round_trips() {
    match round_trip(WebSocketMessage::Pong(vec![])) {
        Some(WebSocketMessage::Pong(data)) => assert_eq!(data, Vec::<u8>::new()),
        _ => panic!("a pong was expected"),
    }
}

#[test]
fn close_round_trips_with_code_and_reason() {
    let message = WebSocketMessage::Close(Some(CloseFrame { code: 1000, reason: String::from("done") }));
    match round_trip(message) {
        Some(WebSocketMessage::Close(Some(frame))) => {
            assert_eq!(frame.code, 1000);
            assert_eq!(frame.reason, "done");
        }
        _ => panic!("a close message was expected"),
    }
}

#[test]
fn close_keeps_an_unassigned_code() {
    let message = WebSocketMessage::Close(Some(CloseFrame { code: 0, reason: String::new() }));
    match round_trip(message) {
        Some(WebSocketMessage::Close(Some(frame))) => {
            assert_eq!(frame.code, 0);
            assert_eq!(frame.reason, "");
        }
        _ => panic!("a close message was expected"),
    }
}

#[test]
fn close_without_frame_round_trips() {
    assert!(matches!(round_trip(WebSocketMessage::Close(None)), Some(WebSocketMessage::Close(None))));
}

#[test]
fn encode_keeps_kind_and_payload() {
    match encode(WebSocketMessage::Ping(vec![1, 2, 3])) {
        WireMessage::Ping(data) => assert_eq!(data, vec![1, 2, 3]),
        _ => panic!("a ping was expected on the wire"),
    }
    match encode(WebSocketMessage::Close(Some(CloseFrame { code: 4000, reason: String::from("bye") }))) {
        WireMessage::Close(Some(WireClose { code, reason })) => {
            assert_eq!(code, 4000);
            assert_eq!(reason, "bye");
        }
        _ => panic!("a close frame was expected on the wire"),
    }
}

#[test]
fn raw_frame_decodes_to_nothing() {
    assert!(decode(WireMessage::Frame).is_none());
}
