use pomme_screenshare::server::{
    connected_line, handle_client, listening_line, packet_length, read_from_client, read_packet,
    read_step, report_client_result, write_packet, write_to_client, ClientIds, Direction,
    MessageType, PacketError, ReadAction, ReadEvent, Received, RelayedMessage,
    ServerAction, ServerEvent, WriteAction, BIND_ADDR, BROADCAST_CAPACITY, MAX_PACKET_BYTES,
};
use tokio::sync::broadcast;

fn packets(bodies: &[&[u8]]) -> Vec<u8> {
    let mut out = Vec::new();
    for body in bodies {
        write_packet(&mut out, body);
    }
    out
}

#[test]
fn the_relay_has_its_limits() {
    assert_eq!(BIND_ADDR, "0.0.0.0:1337");
    assert_eq!(MAX_PACKET_BYTES, 16 * 1024 * 1024);
    assert_eq!(BROADCAST_CAPACITY, 512);
}

#[test]
fn message_types_have_their_bytes() {
    let types = [
        MessageType::Ping,
        MessageType::Video,
        MessageType::Disconnect,
        MessageType::Audio,
    ];
    for (code, kind) in types.into_iter().enumerate() {
        assert_eq!(kind.code() as usize, code);
        assert_eq!(MessageType::try_from(code as u8), Ok(kind));
    }
    for code in 4..=255 {
        assert_eq!(MessageType::try_from(code), Err(PacketError::UnknownMessageType(code)));
    }
}

#[test]
fn packet_errors_are_put_into_words() {
    assert_eq!(PacketError::UnknownMessageType(7).message(), "unknown message type: 7");
    assert_eq!(
        PacketError::TooLarge(16_777_217).message(),
        "packet too large: 16777217 bytes"
    );
    assert_eq!(PacketError::UnexpectedEof.message(), "early eof");
}

#[test]
fn packets_are_read_until_the_stream_ends() {
    let bytes = packets(&[&[1, 2], &[]]);
    let mut reader: &[u8] = &bytes;
    assert_eq!(read_packet(&mut reader), Ok(Some(vec![1, 2])));
    assert_eq!(read_packet(&mut reader), Ok(Some(vec![])));
    assert_eq!(read_packet(&mut reader), Ok(None));
    let mut reader: &[u8] = &[0, 0];
    assert_eq!(read_packet(&mut reader), Ok(None));
    let mut reader: &[u8] = &[0, 0, 0, 2, 1];
    assert_eq!(read_packet(&mut reader), Err(PacketError::UnexpectedEof));
    let mut reader: &[u8] = &[1, 0, 0, 1];
    assert_eq!(read_packet(&mut reader), Err(PacketError::TooLarge(0x100_0001)));
}

#[test]
fn the_longest_packet_is_taken() {
    assert_eq!(packet_length(0x100_0000), Ok(0x100_0000));
    assert_eq!(packet_length(0x100_0001), Err(PacketError::TooLarge(0x100_0001)));
    assert_eq!(packet_length(0), Ok(0));
    let body = vec![1; MAX_PACKET_BYTES];
    let bytes = packets(&[&body]);
    let mut reader: &[u8] = &bytes;
    assert_eq!(read_packet(&mut reader), Ok(Some(body)));
}

#[test]
fn each_event_has_its_action() {
    assert!(matches!(read_step(5, ReadEvent::Packet(&[])), Ok(ReadAction::Continue)));
    assert!(matches!(read_step(5, ReadEvent::Packet(&[0, 1])), Ok(ReadAction::Continue)));
    assert!(matches!(read_step(5, ReadEvent::Packet(&[2])), Ok(ReadAction::Close)));
    assert!(matches!(
        read_step(5, ReadEvent::Packet(&[4])),
        Err(PacketError::UnknownMessageType(4))
    ));
    assert!(matches!(read_step(5, ReadEvent::EndOfStream), Ok(ReadAction::Close)));
    assert!(matches!(read_step(5, ReadEvent::Relayed), Ok(ReadAction::Continue)));
    assert!(matches!(read_step(5, ReadEvent::NoListeners), Ok(ReadAction::Close)));
    for (code, kind) in [(1, MessageType::Video), (3, MessageType::Audio)] {
        match read_step(5, ReadEvent::Packet(&[code, 8, 9])) {
            Ok(ReadAction::Relay(message)) => {
                assert_eq!(message.sender_id, 5);
                assert_eq!(message.message_type, kind);
                assert_eq!(&message.payload[..], &[8, 9]);
            }
            other => panic!("{other:?}"),
        }
    }
}

#[test]
fn only_media_goes_out_and_in_order() {
    let bytes = packets(&[&[1, 10], &[0], &[], &[3, 20], &[1], &[2], &[1, 30]]);
    let mut reader: &[u8] = &bytes;
    let mut outbox = Vec::new();
    assert_eq!(read_from_client(7, &mut reader, &mut outbox), Ok(()));
    let sent: Vec<Vec<u8>> = outbox.iter().map(|m| m.payload.to_vec()).collect();
    assert_eq!(sent, vec![vec![10], vec![20], vec![]]);
    assert!(outbox.iter().all(|m| m.sender_id == 7));
    assert_eq!(
        outbox.iter().map(|m| m.message_type).collect::<Vec<_>>(),
        vec![MessageType::Video, MessageType::Audio, MessageType::Video]
    );
}

#[test]
fn what_follows_a_disconnect_is_left_alone() {
    let bytes = [
        0, 0, 0, 1, 0, 0, 0, 0, 0, 0, 0, 0, 3, 1, 7, 8, 0, 0, 0, 1, 3, 0, 0, 0, 1, 2, 0, 0, 0, 2, 1, 9,
    ];
    let mut reader: &[u8] = &bytes;
    let mut outbox = Vec::new();
    assert_eq!(read_from_client(5, &mut reader, &mut outbox), Ok(()));
    assert_eq!(reader, &[0, 0, 0, 2, 1, 9]);
    let sent: Vec<(u64, MessageType, &[u8])> =
        outbox.iter().map(|m| (m.sender_id, m.message_type, &m.payload[..])).collect();
    assert_eq!(
        sent,
        vec![(5, MessageType::Video, &[7u8, 8][..]), (5, MessageType::Audio, &[][..])]
    );
}

#[test]
fn the_relay_serves_until_it_cannot() {
    let mut ids = ClientIds::new();
    match ids.server_step(ServerEvent::Bound(Ok(()))) {
        ServerAction::Listen(line) => {
            assert_eq!(line, "pomme-screenshare-server listening on 0.0.0.0:1337")
        }
        other => panic!("{other:?}"),
    }
    for number in 1..=3 {
        match ids.server_step(ServerEvent::Accepted(Ok("1.2.3.4:5".to_string()))) {
            ServerAction::Serve(client_id, line) => {
                assert_eq!(client_id, number);
                assert_eq!(line, format!("client {number} connected from 1.2.3.4:5"));
            }
            other => panic!("{other:?}"),
        }
    }
    for event in [
        ServerEvent::Accepted(Err("too many files".to_string())),
        ServerEvent::Bound(Err("too many files".to_string())),
    ] {
        match ids.server_step(event) {
            ServerAction::Fail(error) => assert_eq!(error, "too many files"),
            other => panic!("{other:?}"),
        }
    }
    assert_eq!(ids.next, 4);
}

#[test]
fn an_unknown_type_ends_the_connection() {
    let bytes = packets(&[&[1, 10], &[9], &[1, 30]]);
    let mut reader: &[u8] = &bytes;
    let mut outbox = Vec::new();
    assert_eq!(
        read_from_client(7, &mut reader, &mut outbox),
        Err(PacketError::UnknownMessageType(9))
    );
    assert_eq!(outbox.len(), 1);
}

fn message(sender_id: u64) -> RelayedMessage {
    RelayedMessage { sender_id, message_type: MessageType::Audio, payload: [4, 5][..].into() }
}

#[test]
fn nobody_hears_themselves() {
    match write_to_client(1, Received::Message(message(2))) {
        WriteAction::Send(packet) => assert_eq!(packet, vec![3, 4, 5]),
        other => panic!("{other:?}"),
    }
    assert!(matches!(write_to_client(2, Received::Message(message(2))), WriteAction::Skip));
    assert!(matches!(write_to_client(2, Received::Closed), WriteAction::Close));
    match write_to_client(2, Received::Lagged(33)) {
        WriteAction::Log(line) => assert_eq!(line, "client 2 skipped 33 packets"),
        other => panic!("{other:?}"),
    }
}

#[test]
fn a_relayed_message_can_be_copied() {
    let first = message(3);
    let second = first.clone();
    assert_eq!(second.sender_id, 3);
    assert_eq!(second.message_type, MessageType::Audio);
    assert_eq!(second.payload, first.payload);
}

#[test]
fn clients_are_numbered_from_one() {
    let mut ids = ClientIds::new();
    assert_eq!((ids.allocate(), ids.allocate(), ids.allocate()), (1, 2, 3));
    let mut ids = ClientIds { next: u64::MAX };
    assert_eq!((ids.allocate(), ids.allocate()), (u64::MAX, 0));
}

#[test]
fn the_log_says_what_happened() {
    assert_eq!(listening_line(), "pomme-screenshare-server listening on 0.0.0.0:1337");
    assert_eq!(connected_line(12, "10.0.0.1:5"), "client 12 connected from 10.0.0.1:5");
    assert_eq!(
        report_client_result(3, "1.2.3.4:5", Direction::Read, &Ok(())),
        "client 3 read closed from 1.2.3.4:5"
    );
    assert_eq!(
        report_client_result(3, "1.2.3.4:5", Direction::Write, &Err("gone".to_string())),
        "client 3 write error from 1.2.3.4:5: gone"
    );
}

#[test]
fn the_other_half_is_aborted() {
    let end = handle_client(1, "a", Some((Direction::Read, Ok(()))));
    assert_eq!((end.abort_read, end.abort_write), (false, true));
    assert_eq!(end.report.as_deref(), Some("client 1 read closed from a"));
    let end = handle_client(1, "a", Some((Direction::Write, Err("x".to_string()))));
    assert_eq!((end.abort_read, end.abort_write), (true, false));
    assert_eq!(end.report.as_deref(), Some("client 1 write error from a: x"));
    let end = handle_client(1, "a", None);
    assert_eq!((end.abort_read, end.abort_write, end.report), (true, true, None));
}

/// The packets that a client is sent of what waits for it.
fn hear(client_id: u64, receiver: &mut broadcast::Receiver<RelayedMessage>) -> Vec<Vec<u8>> {
    let mut heard = Vec::new();
    while let Ok(message) = receiver.try_recv() {
        match write_to_client(client_id, Received::Message(message)) {
            WriteAction::Send(packet) => heard.push(packet),
            WriteAction::Skip => {}
            other => panic!("{other:?}"),
        }
    }
    heard
}

#[test]
fn a_client_hears_only_what_follows_its_arrival() {
    let mut ids = ClientIds::new();
    let (sender, _) = broadcast::channel(BROADCAST_CAPACITY);
    let mut connect = || match ids.server_step(ServerEvent::Accepted(Ok("peer".to_string()))) {
        ServerAction::Serve(client_id, _) => (client_id, sender.subscribe()),
        other => panic!("{other:?}"),
    };
    let relay = |sender_id: u64, payload: u8| {
        let mut outbox = Vec::new();
        let bytes = packets(&[&[1, payload]]);
        assert_eq!(read_from_client(sender_id, &mut bytes.as_slice(), &mut outbox), Ok(()));
        for message in outbox {
            assert!(sender.send(message).is_ok());
        }
    };
    let (first, mut first_rx) = connect();
    relay(first, 10);
    let (second, mut second_rx) = connect();
    relay(first, 11);
    relay(second, 12);
    let (third, mut third_rx) = connect();
    relay(second, 13);
    assert_eq!((first, second, third), (1, 2, 3));
    assert_eq!(hear(first, &mut first_rx), vec![vec![1, 12], vec![1, 13]]);
    assert_eq!(hear(second, &mut second_rx), vec![vec![1, 11]]);
    assert_eq!(hear(third, &mut third_rx), vec![vec![1, 13]]);
}
