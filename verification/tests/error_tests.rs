use voice_session::error::AppError;

#[test]
fn every_error_has_its_message() {
    assert_eq!(AppError::Transport("closed".to_string()).message(), "Connection error: closed");
    assert_eq!(AppError::Engine("bad sdp".to_string()).message(), "WebRTC error: bad sdp");
    assert_eq!(AppError::RoomFull.message(), "Room is full");
    assert_eq!(AppError::Audio("no device".to_string()).message(), "Audio error: no device");
    assert_eq!(AppError::Signaling("denied".to_string()).message(), "Signaling error: denied");
    assert_eq!(
        AppError::SignalingProtocol("eof".to_string()).message(),
        "Malformed message: eof"
    );
    assert_eq!(AppError::ReconnectExhausted.message(), "Max reconnection attempts reached");
}

#[test]
fn duplicate_is_equal() {
    let errors = vec![
        AppError::Transport("a".to_string()),
        AppError::Engine("b".to_string()),
        AppError::RoomFull,
        AppError::Audio("c".to_string()),
        AppError::Signaling("d".to_string()),
        AppError::SignalingProtocol("e".to_string()),
        AppError::ReconnectExhausted,
    ];
    for error in errors {
        assert_eq!(error.duplicate(), error);
    }
}
