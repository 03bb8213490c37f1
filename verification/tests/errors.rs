use std::io::{Error as IoError, ErrorKind};
use tackboardlib::errors::TackboardError;

#[test]
fn io_error_converts_to_network_error() {
    let err = TackboardError::from(IoError::new(ErrorKind::BrokenPipe, "pipe gone"));
    match err {
        TackboardError::Io(e) => assert_eq!(e.kind(), ErrorKind::BrokenPipe),
        other => panic!("unexpected {:?}", other),
    }
}

#[test]
fn json_error_converts_to_serialization_error() {
    let json_err = serde_json::from_str::<u32>("not a number").unwrap_err();
    let err = TackboardError::from(json_err);
    assert!(matches!(err, TackboardError::Serde(_)));
}

#[test]
fn topic_not_found_message() {
    let err = TackboardError::TopicNotFound("topic-1".to_string());
    assert_eq!(err.message(), "Topic not found: topic-1");
}

#[test]
fn invalid_request_message() {
    assert_eq!(TackboardError::InvalidRequest.message(), "Invalid request");
}

#[test]
fn network_error_message_carries_the_io_text() {
    let err = TackboardError::Io(IoError::new(ErrorKind::Other, "link down"));
    assert_eq!(err.message(), "Network error: link down");
}

#[test]
fn serialization_error_message_carries_the_json_text() {
    let json_err = serde_json::from_str::<u32>("x").unwrap_err();
    let text = json_err.to_string();
    let err = TackboardError::Serde(json_err);
    assert_eq!(err.message(), format!("Serialization error: {}", text));
}

#[test]
fn network_error_message_appends_the_detail() {
    assert_eq!(tackboardlib::errors::network_error_message("connection reset"), "Network error: connection reset");
    assert_eq!(tackboardlib::errors::network_error_message(""), "Network error: ");
}

#[test]
fn serialization_error_message_appends_the_detail() {
    assert_eq!(
        tackboardlib::errors::serialization_error_message("expected value at line 1 column 1"),
        "Serialization error: expected value at line 1 column 1"
    );
}
