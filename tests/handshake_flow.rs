use cloud_session::handshake::{
    Handshake, HandshakeError, HandshakePhase, SecretKey, ServerReply, SECRET_KEY_LEN,
};

fn export_key(seed: u8) -> Vec<u8> {
    (0..SECRET_KEY_LEN as u8).map(|i| i.wrapping_mul(7).wrapping_add(seed)).collect()
}

fn run(first: ServerReply<Vec<u8>>, last: ServerReply<Vec<u8>>, key: Vec<u8>) -> Result<SecretKey, HandshakeError> {
    let mut h = Handshake::new();
    h.on_response(first)?;
    h.on_confirmation(last, key)
}

#[test]
fn terminal_message_first_is_protocol_desync() {
    let mut h = Handshake::new();
    assert_eq!(h.on_response::<Vec<u8>>(ServerReply::End), Err(HandshakeError::ProtocolDesync));
    assert_eq!(h.current_phase(), HandshakePhase::Aborted);
    let r = h.on_confirmation::<Vec<u8>>(ServerReply::End, export_key(1));
    assert!(matches!(r, Err(HandshakeError::ProtocolDesync)));
}

#[test]
fn key_exchange_where_confirmation_expected_is_protocol_desync() {
    let r = run(ServerReply::KeyExchange(vec![1]), ServerReply::KeyExchange(vec![2]), export_key(1));
    assert!(matches!(r, Err(HandshakeError::ProtocolDesync)));
}

#[test]
fn successful_handshake_yields_export_key() {
    let mut h = Handshake::new();
    assert_eq!(h.on_response(ServerReply::KeyExchange(vec![9, 9])), Ok(vec![9, 9]));
    assert_eq!(h.current_phase(), HandshakePhase::AwaitingConfirmation);
    let k = h.on_confirmation::<Vec<u8>>(ServerReply::End, export_key(3)).unwrap();
    assert_eq!(k.as_bytes(), export_key(3).as_slice());
    assert_eq!(h.current_phase(), HandshakePhase::Completed);
}

#[test]
fn identical_inputs_give_identical_keys() {
    let a = run(ServerReply::KeyExchange(vec![5]), ServerReply::End, export_key(42)).unwrap();
    let b = run(ServerReply::KeyExchange(vec![5]), ServerReply::End, export_key(42)).unwrap();
    assert_eq!(a.as_bytes(), b.as_bytes());
}

#[test]
fn stream_closing_is_communication_error() {
    let r = run(ServerReply::Closed, ServerReply::End, export_key(1));
    assert!(matches!(r, Err(HandshakeError::CommunicationError)));
    let r = run(ServerReply::KeyExchange(vec![1]), ServerReply::Closed, export_key(1));
    assert!(matches!(r, Err(HandshakeError::CommunicationError)));
    let r = run(ServerReply::CommunicationFailed, ServerReply::End, export_key(1));
    assert!(matches!(r, Err(HandshakeError::CommunicationError)));
}

#[test]
fn server_error_is_reported() {
    let r = run(ServerReply::ServerError, ServerReply::End, export_key(1));
    assert!(matches!(r, Err(HandshakeError::ServerError)));
    let r = run(ServerReply::KeyExchange(vec![1]), ServerReply::ServerError, export_key(1));
    assert!(matches!(r, Err(HandshakeError::ServerError)));
}

#[test]
fn wrong_key_size_is_reported() {
    let r = run(ServerReply::KeyExchange(vec![1]), ServerReply::End, vec![0u8; 64]);
    assert!(matches!(r, Err(HandshakeError::KeySizeMismatch)));
    assert!(matches!(SecretKey::from_export_key(vec![1, 2, 3]), Err(HandshakeError::KeySizeMismatch)));
}

#[test]
fn local_failures_abort_the_attempt() {
    let mut h = Handshake::new();
    h.on_response(ServerReply::KeyExchange(vec![1])).unwrap();
    assert_eq!(h.on_finish_failed(), HandshakeError::FinishFailed);
    assert_eq!(h.current_phase(), HandshakePhase::Aborted);
    let mut h = Handshake::new();
    h.on_response(ServerReply::KeyExchange(vec![1])).unwrap();
    assert_eq!(h.on_send_failed(), HandshakeError::CommunicationError);
    let r = h.on_confirmation::<Vec<u8>>(ServerReply::End, export_key(1));
    assert!(matches!(r, Err(HandshakeError::ProtocolDesync)));
}
