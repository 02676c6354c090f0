use pomme_screenshare::client::message::{
    read_error_message, read_message, write_message, MessageType, MAX_MESSAGE_BYTES,
};
use pomme_screenshare::wire::FrameError;

#[test]
fn a_message_is_length_type_payload() {
    let mut out = Vec::new();
    write_message(&mut out, MessageType::Video, &[7, 8, 9]);
    write_message(&mut out, MessageType::Ping, &[]);
    write_message(&mut out, MessageType::Disconnect, &[]);
    assert_eq!(
        out,
        vec![0, 0, 0, 4, 1, 7, 8, 9, 0, 0, 0, 1, 0, 0, 0, 0, 1, 2]
    );
}

#[test]
fn messages_are_read_back() {
    let mut out = Vec::new();
    write_message(&mut out, MessageType::Video, &[7; 1000]);
    write_message(&mut out, MessageType::Ping, &[]);
    let mut reader: &[u8] = &out;
    let mut expected = vec![1];
    expected.extend([7; 1000]);
    assert_eq!(read_message(&mut reader), Ok(expected));
    assert_eq!(read_message(&mut reader), Ok(vec![0]));
    assert_eq!(read_message(&mut reader), Err(FrameError::NoLength));
}

#[test]
fn a_message_that_is_too_long_is_refused() {
    let mut out = Vec::new();
    write_message(&mut out, MessageType::Video, &vec![0; MAX_MESSAGE_BYTES]);
    let mut reader: &[u8] = &out;
    let error = read_message(&mut reader).unwrap_err();
    assert_eq!(error, FrameError::TooLarge(16_777_217));
    assert_eq!(read_error_message(error), "message too large: 16777217 bytes");
    out.clear();
    write_message(&mut out, MessageType::Video, &vec![0; MAX_MESSAGE_BYTES - 1]);
    let mut reader: &[u8] = &out;
    assert_eq!(read_message(&mut reader).unwrap().len(), MAX_MESSAGE_BYTES);
}

#[test]
fn a_cut_off_message_has_std_s_words() {
    assert_eq!(read_error_message(FrameError::NoLength), "failed to fill whole buffer");
    assert_eq!(read_error_message(FrameError::Truncated), "failed to fill whole buffer");
}

#[test]
fn clients_know_three_types() {
    assert_eq!(MessageType::try_from(0), Ok(MessageType::Ping));
    assert_eq!(MessageType::try_from(1), Ok(MessageType::Video));
    assert_eq!(MessageType::try_from(2), Ok(MessageType::Disconnect));
    assert_eq!(MessageType::try_from(3), Err("unknown message type: 3".to_string()));
    assert_eq!(MessageType::try_from(255), Err("unknown message type: 255".to_string()));
    assert_eq!(MessageType::Disconnect.code(), 2);
}
