use pomme_screenshare::client::app::{empty_message, keepalive_message};
use pomme_screenshare::client::message;
use pomme_screenshare::client::receive::video_payload;
use pomme_screenshare::client::stream::{encoded_frame, video_message};
use pomme_screenshare::server;
use pomme_screenshare::server::{
    read_from_client, write_packet, write_to_client, Received, WriteAction,
};

/// What another client receives of what one client sends.
fn relayed(bytes: &[u8]) -> Vec<u8> {
    let mut reader = bytes;
    let mut outbox = Vec::new();
    assert_eq!(read_from_client(1, &mut reader, &mut outbox), Ok(()));
    let mut out = Vec::new();
    for message in outbox {
        assert!(matches!(
            write_to_client(1, Received::Message(message.clone())),
            WriteAction::Skip
        ));
        match write_to_client(2, Received::Message(message)) {
            WriteAction::Send(packet) => write_packet(&mut out, &packet),
            other => panic!("{other:?}"),
        }
    }
    out
}

#[test]
fn shared_video_passes_the_relay_unchanged() {
    let payloads: [&[u8]; 3] = [&[1], &[0; 500], &[2, 0, 1]];
    let mut sent = Vec::new();
    for payload in payloads {
        sent.extend(video_message(payload).unwrap());
        sent.extend(keepalive_message());
    }
    sent.extend([0, 0, 0]);
    let received = relayed(&sent);
    let mut reader: &[u8] = &received;
    for payload in payloads {
        let message = message::read_message(&mut reader).unwrap();
        assert_eq!(video_payload(&message), Ok(Some(payload)));
    }
    assert!(reader.is_empty());
}

#[test]
fn a_farewell_ends_what_is_relayed() {
    let mut sent = video_message(&[1]).unwrap();
    sent.extend(empty_message(message::MessageType::Disconnect));
    sent.extend(video_message(&[2]).unwrap());
    assert_eq!(relayed(&sent), video_message(&[1]).unwrap());
}

#[test]
fn sound_passes_the_relay_but_no_client_knows_it() {
    let received = relayed(&[0, 0, 0, 2, 3, 9]);
    assert_eq!(received, vec![0, 0, 0, 2, 3, 9]);
    assert_eq!(video_payload(&received[4..]), Err("unknown message type: 3".to_string()));
}

#[test]
fn both_ends_have_the_same_limit_and_bytes() {
    assert_eq!(server::MAX_PACKET_BYTES, message::MAX_MESSAGE_BYTES);
    assert_eq!(server::MessageType::Ping.code(), message::MessageType::Ping.code());
    assert_eq!(server::MessageType::Video.code(), message::MessageType::Video.code());
    assert_eq!(server::MessageType::Disconnect.code(), message::MessageType::Disconnect.code());
}

#[test]
fn a_share_is_the_video_of_its_pictures() {
    let payloads: [&[u8]; 4] = [&[1, 2], &[], &[3], &[]];
    let mut sent = Vec::new();
    for payload in payloads {
        sent.extend(encoded_frame(payload, (2, 2)).message.unwrap_or_default());
    }
    assert_eq!(sent, vec![0, 0, 0, 3, 1, 1, 2, 0, 0, 0, 2, 1, 3]);
    assert_eq!(relayed(&sent), sent);
}
