//! The relay: every picture or sound that one client sends goes to all the others.

use crate::picture::shared_bytes;
use crate::text::{decimal, joined, joined_number, push_decimal};
use crate::wire::{
    frame_bytes, read_frame, read_frame_spec, reading_gives_back_the_frame, stream_bytes,
    write_frame, FrameError,
};
use std::sync::Arc;
use vstd::prelude::*;
use vstd::slice::*;
use vstd::std_specs::convert::TryFromSpecImpl;
use vstd::string::*;

verus! {

/// Where the relay listens.
pub const BIND_ADDR: &'static str = "0.0.0.0:1337";

/// The longest packet that the relay takes.
pub const MAX_PACKET_BYTES: usize = 16 * 1024 * 1024;

/// How many relayed messages are kept for a client that falls behind.
pub const BROADCAST_CAPACITY: usize = 512;

/// What a packet is, by its first byte.
#[derive(Clone, Copy, Debug, PartialEq, Eq, Structural)]
pub enum MessageType {
    Ping,
    Video,
    Disconnect,
    Audio,
}

/// Why a client's stream is given up.
#[derive(Clone, Copy, Debug, PartialEq, Eq, Structural)]
pub enum PacketError {
    /// The first byte of a packet is no message type.
    UnknownMessageType(u8),
    /// A packet is over [`MAX_PACKET_BYTES`].
    TooLarge(u32),
    /// The stream ends inside a packet.
    UnexpectedEof,
}

impl PacketError {
    /// The error in words.
    pub open spec fn text(self) -> Seq<char> {
        match self {
            PacketError::UnknownMessageType(code) => "unknown message type: "@ + decimal(
                code as nat,
            ),
            PacketError::TooLarge(len) => "packet too large: "@ + decimal(len as nat) + " bytes"@,
            PacketError::UnexpectedEof => "early eof"@,
        }
    }

    /// The error in words.
    pub fn message(&self) -> (text: String)
        ensures
            text@ == self.text(),
    {
        match self {
            PacketError::UnknownMessageType(code) => {
                let mut text = "unknown message type: ".to_owned();
                push_decimal(&mut text, *code as u64);
                text
            },
            PacketError::TooLarge(len) => joined_number(
                "packet too large: ",
                *len as u64,
                " bytes",
            ),
            PacketError::UnexpectedEof => "early eof".to_owned(),
        }
    }
}

impl MessageType {
    /// The byte that stands for the type.
    pub open spec fn code_spec(self) -> u8 {
        match self {
            MessageType::Ping => 0,
            MessageType::Video => 1,
            MessageType::Disconnect => 2,
            MessageType::Audio => 3,
        }
    }

    /// The byte that stands for the type.
    pub fn code(self) -> (code: u8)
        ensures
            code == self.code_spec(),
    {
        match self {
            MessageType::Ping => 0,
            MessageType::Video => 1,
            MessageType::Disconnect => 2,
            MessageType::Audio => 3,
        }
    }

    /// The type that a byte stands for.
    pub open spec fn from_code(code: u8) -> Result<MessageType, PacketError> {
        if code == 0 {
            Ok(MessageType::Ping)
        } else if code == 1 {
            Ok(MessageType::Video)
        } else if code == 2 {
            Ok(MessageType::Disconnect)
        } else if code == 3 {
            Ok(MessageType::Audio)
        } else {
            Err(PacketError::UnknownMessageType(code))
        }
    }
}

impl TryFrom<u8> for MessageType {
    type Error = PacketError;

    fn try_from(value: u8) -> (kind: Result<MessageType, PacketError>) {
        match value {
            0 => Ok(MessageType::Ping),
            1 => Ok(MessageType::Video),
            2 => Ok(MessageType::Disconnect),
            3 => Ok(MessageType::Audio),
            unknown => Err(PacketError::UnknownMessageType(unknown)),
        }
    }
}

impl TryFromSpecImpl<u8> for MessageType {
    open spec fn obeys_try_from_spec() -> bool {
        true
    }

    open spec fn try_from_spec(value: u8) -> Result<MessageType, PacketError> {
        MessageType::from_code(value)
    }
}

/// A message on its way to the clients.
#[derive(Debug)]
pub struct RelayedMessage {
    pub sender_id: u64,
    pub message_type: MessageType,
    pub payload: Arc<[u8]>,
}

impl Clone for RelayedMessage {
    /// The same message. Its payload is shared.
    fn clone(&self) -> (copy: RelayedMessage)
        ensures
            copy == *self,
    {
        RelayedMessage {
            sender_id: self.sender_id,
            message_type: self.message_type,
            payload: self.payload.clone(),
        }
    }
}

impl RelayedMessage {
    /// The packet that carries the message: its type, then its payload.
    pub open spec fn packet(self) -> Seq<u8> {
        seq![self.message_type.code_spec()] + self.payload@
    }
}

/// Numbers for the clients, from one up.
#[derive(Debug)]
pub struct ClientIds {
    pub next: u64,
}

impl ClientIds {
    pub fn new() -> (ids: ClientIds)
        ensures
            ids.next == 1,
    {
        ClientIds { next: 1 }
    }

    /// The number of the next client. After the largest number comes zero.
    pub fn allocate(&mut self) -> (id: u64)
        ensures
            id == old(self).next,
            final(self).next == (old(self).next + 1) % 0x1_0000_0000_0000_0000,
    {
        let id: u64 = self.next;
        self.next = if id == u64::MAX { 0 } else { id + 1 };
        id
    }
}

/// Where the counter of a relay stands after `clients` have been numbered.
pub open spec fn ids_after(clients: nat) -> nat
    decreases clients,
{
    if clients == 0 {
        1
    } else {
        (ids_after((clients - 1) as nat) + 1) % 0x1_0000_0000_0000_0000
    }
}

/// The first 2^64 - 1 clients are numbered one, two, three and so on, so no two of them share a
/// number.
pub proof fn client_ids_are_distinct(a: nat, b: nat)
    requires
        a < b,
        b < 0xffff_ffff_ffff_ffff,
    ensures
        ids_after(a) == a + 1,
        ids_after(a) != ids_after(b),
{
    ids_count_up(a);
    ids_count_up(b);
}

proof fn ids_count_up(clients: nat)
    requires
        clients < 0xffff_ffff_ffff_ffff,
    ensures
        ids_after(clients) == clients + 1,
    decreases clients,
{
    if clients > 0 {
        ids_count_up((clients - 1) as nat);
    }
}

/// What can happen to the relay as a whole. What becomes of a client that it serves is not among
/// it: each of them ends by itself (see [`handle_client`]).
#[derive(Debug)]
pub enum ServerEvent {
    /// It listens, or cannot, for this reason.
    Bound(Result<(), String>),
    /// A client connected from this address, or none could, for this reason.
    Accepted(Result<String, String>),
}

/// What the relay does next.
#[derive(Debug)]
pub enum ServerAction {
    /// Write a line to the log, and wait for clients.
    Listen(String),
    /// Write a line to the log, and serve the client that connected under this number. It is to
    /// hear what is relayed from here on.
    Serve(u64, String),
    /// Give up, for this reason.
    Fail(String),
}

/// What the relay owes for an event, where `next` is the number of the next client: what it does,
/// and the number of the client after that.
pub open spec fn server_action(
    next: u64,
    event: ServerEvent,
    after: u64,
    action: ServerAction,
) -> bool {
    match event {
        ServerEvent::Bound(Ok(())) => {
            &&& after == next
            &&& action matches ServerAction::Listen(line)
            &&& line@ == "pomme-screenshare-server listening on "@ + BIND_ADDR@
        },
        ServerEvent::Accepted(Ok(peer_addr)) => {
            &&& after == (next + 1) % 0x1_0000_0000_0000_0000
            &&& action matches ServerAction::Serve(client_id, line)
            &&& client_id == next
            &&& line@ == "client "@ + decimal(next as nat) + " connected from "@ + peer_addr@
        },
        ServerEvent::Bound(Err(error)) => after == next && action == ServerAction::Fail(error),
        ServerEvent::Accepted(Err(error)) => after == next && action == ServerAction::Fail(error),
    }
}

impl ClientIds {
    /// Decides what the relay does about an event. It gives up only where it cannot listen or a
    /// client cannot connect.
    pub fn server_step(&mut self, event: ServerEvent) -> (action: ServerAction)
        ensures
            server_action(old(self).next, event, final(self).next, action),
    {
        match event {
            ServerEvent::Bound(Ok(())) => ServerAction::Listen(listening_line()),
            ServerEvent::Accepted(Ok(peer_addr)) => {
                let client_id: u64 = self.allocate();
                ServerAction::Serve(client_id, connected_line(client_id, peer_addr.as_str()))
            },
            ServerEvent::Bound(Err(error)) => ServerAction::Fail(error),
            ServerEvent::Accepted(Err(error)) => ServerAction::Fail(error),
        }
    }
}

/// The numbers of the clients that the relay serves, in order, and the reason why it gives up, if
/// it does.
pub open spec fn server_run(next: u64, events: Seq<ServerEvent>) -> (Seq<u64>, Option<Seq<char>>)
    decreases events.len(),
{
    if events.len() == 0 {
        (seq![], None)
    } else {
        let rest = events.drop_first();
        match events[0] {
            ServerEvent::Bound(Err(error)) => (seq![], Some(error@)),
            ServerEvent::Accepted(Err(error)) => (seq![], Some(error@)),
            ServerEvent::Accepted(Ok(_)) => {
                let (served, end) = server_run(
                    ((next + 1) % 0x1_0000_0000_0000_0000) as u64,
                    rest,
                );
                (seq![next] + served, end)
            },
            _ => server_run(next, rest),
        }
    }
}

/// Whether the relay cannot go on after an event.
pub open spec fn is_fatal(event: ServerEvent) -> bool {
    event matches ServerEvent::Bound(Err(_)) || event matches ServerEvent::Accepted(Err(_))
}

/// The relay does, event by event, what its run says.
pub proof fn the_run_follows_the_decisions(
    next: u64,
    events: Seq<ServerEvent>,
    after: u64,
    action: ServerAction,
)
    requires
        events.len() > 0,
        server_action(next, events[0], after, action),
    ensures
        match action {
            ServerAction::Serve(client_id, _) => server_run(next, events) == (
                seq![client_id] + server_run(after, events.drop_first()).0,
                server_run(after, events.drop_first()).1,
            ),
            ServerAction::Fail(error) => server_run(next, events) == (
                Seq::<u64>::empty(),
                Some(error@),
            ),
            _ => server_run(next, events) == server_run(after, events.drop_first()),
        },
{
}

/// The clients are served as one, two, three and so on, in the order in which they connected.
pub proof fn clients_are_numbered_in_order(next: u64, events: Seq<ServerEvent>)
    requires
        next + events.len() < 0x1_0000_0000_0000_0000,
    ensures
        server_run(next, events).0 == Seq::new(
            server_run(next, events).0.len(),
            |k: int| (next + k) as u64,
        ),
        server_run(next, events).0.len() <= events.len(),
    decreases events.len(),
{
    let served = server_run(next, events).0;
    if events.len() > 0 {
        let rest = events.drop_first();
        if let ServerEvent::Accepted(Ok(_)) = events[0] {
            clients_are_numbered_in_order((next + 1) as u64, rest);
            let others = server_run((next + 1) as u64, rest).0;
            assert forall|k: int| 0 <= k < served.len() implies #[trigger] served[k] == (next
                + k) as u64 by {
                if k > 0 {
                    assert(served[k] == others[k - 1]);
                }
            }
        } else {
            clients_are_numbered_in_order(next, rest);
        }
    }
    assert(served =~= Seq::new(served.len(), |k: int| (next + k) as u64));
}

/// The relay gives up if and only if it cannot listen or a client cannot connect: there is no other
/// end, and no end without an error.
pub proof fn only_listening_and_connecting_can_fail(next: u64, events: Seq<ServerEvent>)
    ensures
        server_run(next, events).1 is Some <==> exists|i: int|
            0 <= i < events.len() && is_fatal(#[trigger] events[i]),
    decreases events.len(),
{
    if events.len() > 0 {
        let rest = events.drop_first();
        let after = if events[0] matches ServerEvent::Accepted(Ok(_)) {
            ((next + 1) % 0x1_0000_0000_0000_0000) as u64
        } else {
            next
        };
        only_listening_and_connecting_can_fail(after, rest);
        if !is_fatal(events[0]) {
            if exists|i: int| 0 <= i < rest.len() && is_fatal(#[trigger] rest[i]) {
                let i = choose|i: int| 0 <= i < rest.len() && is_fatal(#[trigger] rest[i]);
                assert(events[i + 1] == rest[i]);
            }
            if exists|i: int| 0 <= i < events.len() && is_fatal(#[trigger] events[i]) {
                let i = choose|i: int| 0 <= i < events.len() && is_fatal(#[trigger] events[i]);
                assert(rest[i - 1] == events[i]);
            }
        }
    }
}

/// What reading one packet off a stream gives: a packet, the end of the stream, or an error;
/// and what is left of the stream. A stream that ends inside the length of a packet counts as
/// ended.
pub open spec fn read_packet_spec(bytes: Seq<u8>) -> (
    Result<Option<Seq<u8>>, PacketError>,
    Seq<u8>,
) {
    let (read, rest) = read_frame_spec(bytes, MAX_PACKET_BYTES as nat);
    match read {
        Ok(body) => (Ok(Some(body)), rest),
        Err(FrameError::NoLength) => (Ok(None), rest),
        Err(FrameError::TooLarge(len)) => (Err(PacketError::TooLarge(len)), rest),
        Err(FrameError::Truncated) => (Err(PacketError::UnexpectedEof), rest),
    }
}

/// Reads one packet off the front of `reader`.
pub fn read_packet(reader: &mut &[u8]) -> (packet: Result<Option<Vec<u8>>, PacketError>)
    ensures
        ({
            let (read, rest) = read_packet_spec(old(reader)@);
            &&& final(reader)@ == rest
            &&& match packet {
                Ok(Some(p)) => read == Ok::<Option<Seq<u8>>, PacketError>(Some(p@)),
                Ok(None) => read == Ok::<Option<Seq<u8>>, PacketError>(None),
                Err(e) => read == Err::<Option<Seq<u8>>, PacketError>(e),
            }
        }),
{
    match read_frame(reader, MAX_PACKET_BYTES as u32) {
        Ok(body) => Ok(Some(body)),
        Err(FrameError::NoLength) => Ok(None),
        Err(FrameError::TooLarge(len)) => Err(PacketError::TooLarge(len)),
        Err(FrameError::Truncated) => Err(PacketError::UnexpectedEof),
    }
}

/// The length that the number in front of a packet announces, or that it is too large.
pub fn packet_length(len: u32) -> (checked: Result<usize, PacketError>)
    ensures
        checked == (if len > MAX_PACKET_BYTES {
            Err::<usize, PacketError>(PacketError::TooLarge(len))
        } else {
            Ok(len as usize)
        }),
{
    if len as usize > MAX_PACKET_BYTES {
        Err(PacketError::TooLarge(len))
    } else {
        Ok(len as usize)
    }
}

/// Appends a packet behind its length. Of a length over `u32::MAX` only the low 32 bits are
/// written.
pub fn write_packet(writer: &mut Vec<u8>, payload: &[u8])
    ensures
        final(writer)@ == old(writer)@ + frame_bytes(payload@),
{
    write_frame(writer, payload)
}

/// What happened on the side of the relay that reads from a client.
#[derive(Debug)]
pub enum ReadEvent<'a> {
    /// The client sent a packet.
    Packet(&'a [u8]),
    /// The client's stream ended.
    EndOfStream,
    /// A message went out to the clients.
    Relayed,
    /// A message could not go out: nobody listens.
    NoListeners,
}

/// What the relay does next on the side that reads from a client.
#[derive(Debug)]
pub enum ReadAction {
    /// Read the next packet.
    Continue,
    /// Let the client go.
    Close,
    /// Send the message to all clients.
    Relay(RelayedMessage),
}

/// Whether the relay passes a packet on.
pub open spec fn is_media(packet: Seq<u8>) -> bool {
    packet.len() > 0 && (packet[0] == MessageType::Video.code_spec() || packet[0]
        == MessageType::Audio.code_spec())
}

/// What the relay owes for a packet from the client `client_id`.
pub open spec fn packet_action(
    client_id: u64,
    packet: Seq<u8>,
    action: Result<ReadAction, PacketError>,
) -> bool {
    if packet.len() == 0 {
        action == Ok::<ReadAction, PacketError>(ReadAction::Continue)
    } else {
        match MessageType::from_code(packet[0]) {
            Err(e) => action == Err::<ReadAction, PacketError>(e),
            Ok(MessageType::Ping) => action == Ok::<ReadAction, PacketError>(ReadAction::Continue),
            Ok(MessageType::Disconnect) => action == Ok::<ReadAction, PacketError>(
                ReadAction::Close,
            ),
            Ok(kind) => {
                &&& action matches Ok(ReadAction::Relay(message))
                &&& message.sender_id == client_id
                &&& message.message_type == kind
                &&& message.payload@ == packet.subrange(1, packet.len() as int)
            },
        }
    }
}

/// Decides what to do about an event on the side that reads from the client `client_id`. An
/// empty packet and a ping are passed over, a disconnect ends the connection, video and audio
/// are relayed, and any other type is an error. The end of the stream, and a message that nobody
/// is left to hear, end the connection.
pub fn read_step(client_id: u64, event: ReadEvent<'_>) -> (action: Result<ReadAction, PacketError>)
    ensures
        match event {
            ReadEvent::Packet(packet) => packet_action(client_id, packet@, action),
            ReadEvent::EndOfStream => action == Ok::<ReadAction, PacketError>(ReadAction::Close),
            ReadEvent::Relayed => action == Ok::<ReadAction, PacketError>(ReadAction::Continue),
            ReadEvent::NoListeners => action == Ok::<ReadAction, PacketError>(ReadAction::Close),
        },
{
    let packet: &[u8] = match event {
        ReadEvent::Packet(packet) => packet,
        ReadEvent::EndOfStream => return Ok(ReadAction::Close),
        ReadEvent::Relayed => return Ok(ReadAction::Continue),
        ReadEvent::NoListeners => return Ok(ReadAction::Close),
    };
    if packet.len() == 0 {
        return Ok(ReadAction::Continue);
    }
    match MessageType::try_from(packet[0]) {
        Err(e) => Err(e),
        Ok(MessageType::Ping) => Ok(ReadAction::Continue),
        Ok(MessageType::Disconnect) => Ok(ReadAction::Close),
        Ok(message_type) => Ok(
            ReadAction::Relay(
                RelayedMessage {
                    sender_id: client_id,
                    message_type,
                    payload: shared_bytes(slice_subrange(packet, 1, packet.len())),
                },
            ),
        ),
    }
}

/// What the relay makes of all that a client sends: the packets that it passes on, in order, how
/// the connection ends, and what is left of the stream.
pub open spec fn relay_run(bytes: Seq<u8>) -> (Seq<Seq<u8>>, Result<(), PacketError>, Seq<u8>)
    decreases bytes.len(),
{
    let (read, rest) = read_packet_spec(bytes);
    match read {
        Err(e) => (seq![], Err(e), rest),
        Ok(None) => (seq![], Ok(()), rest),
        Ok(Some(packet)) => if packet.len() == 0 {
            relay_run(rest)
        } else {
            match MessageType::from_code(packet[0]) {
                Err(e) => (seq![], Err(e), rest),
                Ok(MessageType::Ping) => relay_run(rest),
                Ok(MessageType::Disconnect) => (seq![], Ok(()), rest),
                Ok(_) => {
                    let (packets, end, left) = relay_run(rest);
                    (seq![packet] + packets, end, left)
                },
            }
        },
    }
}

/// Whether `messages` carry `packets`, in order, in the name of the client `sender_id`.
pub open spec fn messages_carry(
    messages: Seq<RelayedMessage>,
    sender_id: u64,
    packets: Seq<Seq<u8>>,
) -> bool {
    &&& messages.len() == packets.len()
    &&& forall|i: int|
        0 <= i < messages.len() ==> {
            &&& (#[trigger] messages[i]).sender_id == sender_id
            &&& messages[i].packet() == packets[i]
        }
}

/// Reads what the client `client_id` sends, until it ends, and puts what is to be relayed into
/// `outbox`, which always has a listener. What follows the end is left in `reader`.
pub fn read_from_client(
    client_id: u64,
    reader: &mut &[u8],
    outbox: &mut Vec<RelayedMessage>,
) -> (end: Result<(), PacketError>)
    ensures
        end == relay_run(old(reader)@).1,
        final(reader)@ == relay_run(old(reader)@).2,
        final(outbox)@.len() >= old(outbox)@.len(),
        final(outbox)@.subrange(0, old(outbox)@.len() as int) == old(outbox)@,
        messages_carry(
            final(outbox)@.subrange(old(outbox)@.len() as int, final(outbox)@.len() as int),
            client_id,
            relay_run(old(reader)@).0,
        ),
{
    let ghost before = outbox@;
    let ghost mut sent: Seq<Seq<u8>> = seq![];
    assert(outbox@.subrange(0, before.len() as int) =~= before);
    assert(outbox@.subrange(before.len() as int, outbox@.len() as int) =~= seq![]);
    loop
        invariant
            before == old(outbox)@,
            outbox@.len() >= before.len(),
            outbox@.subrange(0, before.len() as int) == before,
            messages_carry(
                outbox@.subrange(before.len() as int, outbox@.len() as int),
                client_id,
                sent,
            ),
            relay_run(old(reader)@).0 == sent + relay_run(reader@).0,
            relay_run(old(reader)@).1 == relay_run(reader@).1,
            relay_run(old(reader)@).2 == relay_run(reader@).2,
        decreases reader@.len(),
    {
        let ghost bytes = reader@;
        let packet: Vec<u8> = match read_packet(reader) {
            Err(e) => {
                assert(sent + relay_run(bytes).0 =~= sent);
                return Err(e);
            },
            Ok(None) => {
                assert(sent + relay_run(bytes).0 =~= sent);
                return Ok(());
            },
            Ok(Some(packet)) => packet,
        };
        match read_step(client_id, ReadEvent::Packet(&packet)) {
            Err(e) => {
                assert(sent + relay_run(bytes).0 =~= sent);
                return Err(e);
            },
            Ok(ReadAction::Continue) => {},
            Ok(ReadAction::Close) => {
                assert(sent + relay_run(bytes).0 =~= sent);
                return Ok(());
            },
            Ok(ReadAction::Relay(message)) => {
                let ghost held = outbox@;
                outbox.push(message);
                proof {
                    assert(message.packet() =~= packet@);
                    let n = before.len() as int;
                    let earlier = held.subrange(n, held.len() as int);
                    let now = outbox@.subrange(n, outbox@.len() as int);
                    assert(now =~= earlier.push(message));
                    assert(outbox@.subrange(0, n) =~= held.subrange(0, n));
                    assert(sent + relay_run(bytes).0 =~= sent.push(packet@) + relay_run(
                        reader@,
                    ).0);
                    sent = sent.push(packet@);
                }
            },
        }
    }
}

/// What came to a client's end of the relay.
#[derive(Debug)]
pub enum Received {
    Message(RelayedMessage),
    /// The client fell behind, and this many messages were dropped.
    Lagged(u64),
    /// There is nobody left to send anything.
    Closed,
}

/// What the relay does for a client.
#[derive(Debug)]
pub enum WriteAction {
    /// Nothing; go on.
    Skip,
    /// Write a line to the log; go on.
    Log(String),
    /// Send a packet; go on.
    Send(Vec<u8>),
    /// Let the client go.
    Close,
}

/// What the relay owes the client `client_id` for what came to its end.
pub open spec fn write_action(client_id: u64, received: Received, action: WriteAction) -> bool {
    match received {
        Received::Message(message) if message.sender_id == client_id => action
            == WriteAction::Skip,
        Received::Message(message) => action matches WriteAction::Send(packet) && packet@
            == message.packet(),
        Received::Lagged(skipped) => action matches WriteAction::Log(line) && line@ == "client "@
            + decimal(client_id as nat) + " skipped "@ + decimal(skipped as nat) + " packets"@,
        Received::Closed => action == WriteAction::Close,
    }
}

/// Decides what the client `client_id` is sent: every message but its own, as a packet.
pub fn write_to_client(client_id: u64, received: Received) -> (action: WriteAction)
    ensures
        write_action(client_id, received, action),
{
    match received {
        Received::Message(message) => {
            if message.sender_id == client_id {
                WriteAction::Skip
            } else {
                let mut packet: Vec<u8> = Vec::new();
                packet.push(message.message_type.code());
                packet.extend_from_slice(&message.payload);
                assert(packet@ =~= message.packet());
                WriteAction::Send(packet)
            }
        },
        Received::Lagged(skipped) => {
            let mut line = joined_number("client ", client_id, " skipped ");
            push_decimal(&mut line, skipped);
            line.append(" packets");
            WriteAction::Log(line)
        },
        Received::Closed => WriteAction::Close,
    }
}

/// One of the two halves of a connection.
#[derive(Clone, Copy, Debug, PartialEq, Eq, Structural)]
pub enum Direction {
    Read,
    Write,
}

/// What is left to do when the first half of a connection has ended.
#[derive(Debug)]
pub struct Teardown {
    pub abort_read: bool,
    pub abort_write: bool,
    /// A line for the log.
    pub report: Option<String>,
}

impl Direction {
    /// The name of the half.
    pub open spec fn name_spec(self) -> Seq<char> {
        match self {
            Direction::Read => "read"@,
            Direction::Write => "write"@,
        }
    }

    /// The name of the half.
    pub fn name(self) -> (name: &'static str)
        ensures
            name@ == self.name_spec(),
    {
        match self {
            Direction::Read => "read",
            Direction::Write => "write",
        }
    }
}

/// The line that the log gets when a half of a connection has ended.
pub open spec fn client_result_spec(
    client_id: u64,
    peer_addr: Seq<char>,
    direction: Direction,
    error: Option<Seq<char>>,
) -> Seq<char> {
    let head = "client "@ + decimal(client_id as nat) + " "@ + direction.name_spec();
    match error {
        None => head + " closed from "@ + peer_addr,
        Some(text) => head + " error from "@ + peer_addr + ": "@ + text,
    }
}

/// The line that the log gets when a half of a connection has ended, with or without an error.
pub fn report_client_result(
    client_id: u64,
    peer_addr: &str,
    direction: Direction,
    result: &Result<(), String>,
) -> (line: String)
    ensures
        line@ == client_result_spec(
            client_id,
            peer_addr@,
            direction,
            match *result {
                Ok(()) => None,
                Err(error) => Some(error@),
            },
        ),
{
    let mut line = joined_number("client ", client_id, " ");
    line.append(direction.name());
    match result {
        Ok(()) => {
            line.append(" closed from ");
            line.append(peer_addr);
        },
        Err(error) => {
            line.append(" error from ");
            line.append(peer_addr);
            line.append(": ");
            line.append(error.as_str());
        },
    }
    line
}

/// Decides what to do when the first half of a client's connection has ended: the other half is
/// aborted and the log gets a line. With no word from either half both are aborted.
pub fn handle_client(
    client_id: u64,
    peer_addr: &str,
    first: Option<(Direction, Result<(), String>)>,
) -> (teardown: Teardown)
    ensures
        match first {
            Some((direction, result)) => {
                &&& teardown.abort_write == (direction == Direction::Read)
                &&& teardown.abort_read == (direction == Direction::Write)
                &&& teardown.report matches Some(line) && line@ == client_result_spec(
                    client_id,
                    peer_addr@,
                    direction,
                    match result {
                        Ok(()) => None,
                        Err(error) => Some(error@),
                    },
                )
            },
            None => teardown == (Teardown { abort_read: true, abort_write: true, report: None }),
        },
{
    match first {
        Some((direction, result)) => Teardown {
            abort_read: direction == Direction::Write,
            abort_write: direction == Direction::Read,
            report: Some(report_client_result(client_id, peer_addr, direction, &result)),
        },
        None => Teardown { abort_read: true, abort_write: true, report: None },
    }
}

/// The line that the log gets when the relay starts.
pub fn listening_line() -> (line: String)
    ensures
        line@ == "pomme-screenshare-server listening on "@ + BIND_ADDR@,
{
    joined("pomme-screenshare-server listening on ", BIND_ADDR)
}

/// The line that the log gets when a client connects.
pub fn connected_line(client_id: u64, peer_addr: &str) -> (line: String)
    ensures
        line@ == "client "@ + decimal(client_id as nat) + " connected from "@ + peer_addr@,
{
    let mut line = joined_number("client ", client_id, " connected from ");
    line.append(peer_addr);
    line
}

/// The packets that are to be passed on, in order.
pub open spec fn media_packets(packets: Seq<Seq<u8>>) -> Seq<Seq<u8>>
    decreases packets.len(),
{
    if packets.len() == 0 {
        seq![]
    } else if is_media(packets[0]) {
        seq![packets[0]] + media_packets(packets.drop_first())
    } else {
        media_packets(packets.drop_first())
    }
}

/// A message that the relay takes from one client reaches every other client as the very packet
/// that was sent, and never comes back to its sender.
pub proof fn others_get_the_packet_unchanged(
    sender: u64,
    packet: Seq<u8>,
    read: Result<ReadAction, PacketError>,
    message: RelayedMessage,
    receiver: u64,
    write: WriteAction,
)
    requires
        packet_action(sender, packet, read),
        read == Ok::<ReadAction, PacketError>(ReadAction::Relay(message)),
        write_action(receiver, Received::Message(message), write),
    ensures
        receiver == sender ==> write == WriteAction::Skip,
        receiver != sender ==> (write matches WriteAction::Send(sent) && sent@ == packet),
{
    assert(message.packet() =~= packet);
}

/// The packets that the client `client_id` is sent for these messages, in order: those of the
/// messages that are not its own.
pub open spec fn delivered(client_id: u64, messages: Seq<RelayedMessage>) -> Seq<Seq<u8>>
    decreases messages.len(),
{
    if messages.len() == 0 {
        seq![]
    } else {
        let earlier = delivered(client_id, messages.drop_last());
        if messages.last().sender_id == client_id {
            earlier
        } else {
            earlier.push(messages.last().packet())
        }
    }
}

/// A client that keeps up is sent exactly the packets that the relay took from another client, in
/// order, and the client that they came from is sent none of them.
pub proof fn the_relay_delivers_what_it_took(
    sender: u64,
    receiver: u64,
    messages: Seq<RelayedMessage>,
    packets: Seq<Seq<u8>>,
)
    requires
        messages_carry(messages, sender, packets),
    ensures
        receiver != sender ==> delivered(receiver, messages) == packets,
        receiver == sender ==> delivered(receiver, messages).len() == 0,
    decreases messages.len(),
{
    if messages.len() > 0 {
        assert(messages_carry(messages.drop_last(), sender, packets.drop_last()));
        the_relay_delivers_what_it_took(
            sender,
            receiver,
            messages.drop_last(),
            packets.drop_last(),
        );
        assert(messages.last() == messages[messages.len() - 1]);
        assert(packets.drop_last().push(packets.last()) =~= packets);
    } else {
        assert(delivered(receiver, messages) =~= packets);
    }
}

/// Each message adds to what a client is sent just what the relay decides for it.
pub proof fn delivery_follows_the_decisions(
    client_id: u64,
    messages: Seq<RelayedMessage>,
    next: RelayedMessage,
    action: WriteAction,
)
    requires
        write_action(client_id, Received::Message(next), action),
    ensures
        match action {
            WriteAction::Send(packet) => delivered(client_id, messages.push(next)) == delivered(
                client_id,
                messages,
            ).push(packet@),
            WriteAction::Skip => delivered(client_id, messages.push(next)) == delivered(
                client_id,
                messages,
            ),
            _ => false,
        },
{
    assert(messages.push(next).drop_last() =~= messages);
}

/// What the clients of a relay notice of it.
#[derive(Debug)]
pub enum RelayEvent {
    /// A client connected.
    Accepted,
    /// A message was taken from a client, to be passed on.
    Relayed(RelayedMessage),
}

/// How many clients connected.
pub open spec fn accepted(events: Seq<RelayEvent>) -> nat
    decreases events.len(),
{
    if events.len() == 0 {
        0
    } else if events.last() is Accepted {
        accepted(events.drop_last()) + 1
    } else {
        accepted(events.drop_last())
    }
}

/// The messages that were taken to be passed on, in order.
pub open spec fn relayed(events: Seq<RelayEvent>) -> Seq<RelayedMessage>
    decreases events.len(),
{
    if events.len() == 0 {
        seq![]
    } else {
        match events.last() {
            RelayEvent::Relayed(message) => relayed(events.drop_last()).push(message),
            RelayEvent::Accepted => relayed(events.drop_last()),
        }
    }
}

/// The messages that were handed to the client `client_id`, in order. `None` if no client has
/// connected under that number. A client is handed nothing when it connects, and each message that
/// is relayed after that.
pub open spec fn handed(events: Seq<RelayEvent>, client_id: u64) -> Option<Seq<RelayedMessage>>
    decreases events.len(),
{
    if events.len() == 0 {
        None
    } else {
        let earlier = handed(events.drop_last(), client_id);
        match events.last() {
            RelayEvent::Accepted => if ids_after(accepted(events.drop_last())) == client_id {
                Some(seq![])
            } else {
                earlier
            },
            RelayEvent::Relayed(message) => match earlier {
                Some(messages) => Some(messages.push(message)),
                None => None,
            },
        }
    }
}

/// The packets that the client `client_id` is sent, in order.
pub open spec fn heard(events: Seq<RelayEvent>, client_id: u64) -> Seq<Seq<u8>> {
    match handed(events, client_id) {
        Some(messages) => delivered(client_id, messages),
        None => seq![],
    }
}

/// A client that connects is served under the number that counts those before it, and starts with
/// nothing handed to it.
pub proof fn a_client_starts_with_nothing(
    earlier: Seq<RelayEvent>,
    next: u64,
    peer_addr: String,
    after: u64,
    action: ServerAction,
)
    requires
        next == ids_after(accepted(earlier)),
        server_action(next, ServerEvent::Accepted(Ok(peer_addr)), after, action),
    ensures
        after == ids_after(accepted(earlier.push(RelayEvent::Accepted))),
        action matches ServerAction::Serve(client_id, _) && handed(
            earlier.push(RelayEvent::Accepted),
            client_id,
        ) == Some(Seq::<RelayedMessage>::empty()),
{
    assert(earlier.push(RelayEvent::Accepted).drop_last() =~= earlier);
}

/// A client hears exactly what is relayed after it connected, in order, but for its own messages,
/// and nothing of what was relayed before. This holds until the numbers of the clients run out.
pub proof fn a_client_hears_what_follows_its_arrival(
    earlier: Seq<RelayEvent>,
    later: Seq<RelayEvent>,
)
    requires
        accepted(earlier) + 1 + accepted(later) < 0xffff_ffff_ffff_ffff,
    ensures
        ({
            let client_id = (accepted(earlier) + 1) as u64;
            let events = earlier.push(RelayEvent::Accepted) + later;
            &&& handed(earlier, client_id) is None
            &&& handed(events, client_id) == Some(relayed(later))
            &&& heard(events, client_id) == delivered(client_id, relayed(later))
        }),
    decreases later.len(),
{
    let client_id = (accepted(earlier) + 1) as u64;
    let start = earlier.push(RelayEvent::Accepted);
    let events = start + later;
    nobody_is_served_early(earlier, accepted(earlier) + 1);
    if later.len() == 0 {
        ids_count_up(accepted(earlier));
        assert(events =~= start);
        assert(start.drop_last() =~= earlier);
    } else {
        let before = start + later.drop_last();
        assert(events.drop_last() =~= before);
        assert(events.last() == later.last());
        a_client_hears_what_follows_its_arrival(earlier, later.drop_last());
        accepted_adds_up(start, later.drop_last());
        assert(start.drop_last() =~= earlier);
        ids_count_up(accepted(before));
    }
}

/// A number is not given before its turn.
proof fn nobody_is_served_early(events: Seq<RelayEvent>, number: nat)
    requires
        accepted(events) < number < 0xffff_ffff_ffff_ffff,
    ensures
        handed(events, number as u64) is None,
    decreases events.len(),
{
    if events.len() > 0 {
        nobody_is_served_early(events.drop_last(), number);
        ids_count_up(accepted(events.drop_last()));
    }
}

proof fn accepted_adds_up(first: Seq<RelayEvent>, second: Seq<RelayEvent>)
    ensures
        accepted(first + second) == accepted(first) + accepted(second),
    decreases second.len(),
{
    if second.len() == 0 {
        assert(first + second =~= first);
    } else {
        assert((first + second).drop_last() =~= first + second.drop_last());
        accepted_adds_up(first, second.drop_last());
    }
}

/// Only video and audio are relayed.
pub proof fn only_media_is_relayed(
    sender: u64,
    packet: Seq<u8>,
    read: Result<ReadAction, PacketError>,
)
    requires
        packet_action(sender, packet, read),
    ensures
        read matches Ok(ReadAction::Relay(_)) <==> is_media(packet),
{
}

/// As long as a client sends packets that the relay knows and does not disconnect, the relay
/// passes on exactly its video and audio, in order, and sees no error, whatever was cut off
/// behind the last packet's length.
pub proof fn media_is_relayed_in_order(packets: Seq<Seq<u8>>, tail: Seq<u8>)
    requires
        forall|i: int|
            0 <= i < packets.len() ==> (#[trigger] packets[i]).len() <= MAX_PACKET_BYTES && (
            packets[i].len() == 0 || packets[i][0] == MessageType::Ping.code_spec() || is_media(
                packets[i],
            )),
        tail.len() < 4,
    ensures
        relay_run(stream_bytes(packets) + tail) == (
            media_packets(packets),
            Ok::<(), PacketError>(()),
            Seq::<u8>::empty(),
        ),
    decreases packets.len(),
{
    let bytes = stream_bytes(packets) + tail;
    if packets.len() == 0 {
        assert(bytes =~= tail);
    } else {
        let others = packets.drop_first();
        let rest = stream_bytes(others) + tail;
        assert(bytes =~= frame_bytes(packets[0]) + rest);
        reading_gives_back_the_frame(packets[0], rest, MAX_PACKET_BYTES as nat);
        media_is_relayed_in_order(others, tail);
    }
}

/// A disconnect ends the connection without an error, and nothing behind it is relayed or even
/// read.
pub proof fn nothing_follows_a_disconnect(packets: Seq<Seq<u8>>, last: Seq<u8>, tail: Seq<u8>)
    requires
        forall|i: int|
            0 <= i < packets.len() ==> (#[trigger] packets[i]).len() <= MAX_PACKET_BYTES && (
            packets[i].len() == 0 || packets[i][0] == MessageType::Ping.code_spec() || is_media(
                packets[i],
            )),
        0 < last.len() <= MAX_PACKET_BYTES,
        last[0] == MessageType::Disconnect.code_spec(),
    ensures
        relay_run(stream_bytes(packets) + frame_bytes(last) + tail) == (
            media_packets(packets),
            Ok::<(), PacketError>(()),
            tail,
        ),
    decreases packets.len(),
{
    let bytes = stream_bytes(packets) + frame_bytes(last) + tail;
    if packets.len() == 0 {
        assert(bytes =~= frame_bytes(last) + tail);
        reading_gives_back_the_frame(last, tail, MAX_PACKET_BYTES as nat);
    } else {
        let others = packets.drop_first();
        let rest = stream_bytes(others) + frame_bytes(last) + tail;
        assert(bytes =~= frame_bytes(packets[0]) + rest);
        reading_gives_back_the_frame(packets[0], rest, MAX_PACKET_BYTES as nat);
        nothing_follows_a_disconnect(others, last, tail);
    }
}

/// Every type has a byte of its own, from which it is recovered.
pub proof fn type_survives_its_byte(kind: MessageType)
    ensures
        MessageType::from_code(kind.code_spec()) == Ok::<MessageType, PacketError>(kind),
{
}

/// What becomes of a packet is decided by its first byte alone: 1 and 3, video and audio, are relayed
/// in the sender's name with all that follows the byte; 0, a ping, and an empty packet are passed
/// over; 2 is a disconnect; and any other byte is an error that names it.
pub proof fn packets_are_taken_by_their_first_byte(
    client_id: u64,
    packet: Seq<u8>,
    action: Result<ReadAction, PacketError>,
)
    requires
        packet_action(client_id, packet, action),
    ensures
        packet.len() > 0 && (packet[0] == 1 || packet[0] == 3) ==> {
            &&& action matches Ok(ReadAction::Relay(message))
            &&& message.sender_id == client_id
            &&& message.message_type == (if packet[0] == 1 {
                MessageType::Video
            } else {
                MessageType::Audio
            })
            &&& message.payload@ == packet.subrange(1, packet.len() as int)
        },
        packet.len() == 0 || packet[0] == 0 ==> action == Ok::<ReadAction, PacketError>(
            ReadAction::Continue,
        ),
        packet.len() > 0 && packet[0] == 2 ==> action == Ok::<ReadAction, PacketError>(
            ReadAction::Close,
        ),
        packet.len() > 0 && packet[0] > 3 ==> action == Err::<ReadAction, PacketError>(
            PacketError::UnknownMessageType(packet[0]),
        ),
{
}

/// The bytes 0, 1, 2 and 3 stand for a ping, video, a disconnect and audio; no other byte stands for
/// a type. What the relay passes on is video and audio of any length.
pub proof fn types_are_known_by_their_bytes(code: u8, packet: Seq<u8>)
    ensures
        MessageType::from_code(0) == Ok::<MessageType, PacketError>(MessageType::Ping),
        MessageType::from_code(1) == Ok::<MessageType, PacketError>(MessageType::Video),
        MessageType::from_code(2) == Ok::<MessageType, PacketError>(MessageType::Disconnect),
        MessageType::from_code(3) == Ok::<MessageType, PacketError>(MessageType::Audio),
        code > 3 ==> MessageType::from_code(code) == Err::<MessageType, PacketError>(
            PacketError::UnknownMessageType(code),
        ),
        is_media(packet) <==> packet.len() > 0 && (packet[0] == 1 || packet[0] == 3),
{
}

/// A message goes out to every client but the one that it came from, as its type, 1 for video and 3
/// for audio, and its payload, byte for byte.
pub proof fn messages_go_out_to_all_others(
    client_id: u64,
    message: RelayedMessage,
    action: WriteAction,
)
    requires
        write_action(client_id, Received::Message(message), action),
    ensures
        message.sender_id == client_id ==> action == WriteAction::Skip,
        message.sender_id != client_id ==> {
            &&& action matches WriteAction::Send(packet)
            &&& packet@.len() == message.payload@.len() + 1
            &&& packet@[0] == (match message.message_type {
                MessageType::Ping => 0u8,
                MessageType::Video => 1u8,
                MessageType::Disconnect => 2u8,
                MessageType::Audio => 3u8,
            })
            &&& forall|i: int|
                0 <= i < message.payload@.len() ==> #[trigger] packet@[i + 1] == message.payload@[i]
        },
{
}

/// A client that fell behind is not let go: the log says how much it missed, and it hears what comes
/// next. It is let go when there is nobody left to send anything.
pub proof fn a_client_that_falls_behind_is_kept(
    client_id: u64,
    skipped: u64,
    lagged: WriteAction,
    closed: WriteAction,
)
    requires
        write_action(client_id, Received::Lagged(skipped), lagged),
        write_action(client_id, Received::Closed, closed),
    ensures
        lagged matches WriteAction::Log(line) && line@ == "client "@ + decimal(client_id as nat)
            + " skipped "@ + decimal(skipped as nat) + " packets"@,
        closed == WriteAction::Close,
{
}

/// The relay goes through a client's packets one by one: video and audio are passed on before what
/// follows them, pings and empty packets are passed over, a disconnect ends the connection in peace,
/// and a type that it does not know ends it with an error. What follows the end is left unread.
pub proof fn packets_are_taken_one_by_one(packet: Seq<u8>, rest: Seq<u8>)
    requires
        packet.len() <= 16777216,
    ensures
        ({
            let (packets, end, left) = relay_run(rest);
            let run = relay_run(frame_bytes(packet) + rest);
            if packet.len() == 0 || packet[0] == 0 {
                run == (packets, end, left)
            } else if packet[0] == 1 || packet[0] == 3 {
                run == (seq![packet] + packets, end, left)
            } else if packet[0] == 2 {
                run == (Seq::<Seq<u8>>::empty(), Ok::<(), PacketError>(()), rest)
            } else {
                run == (
                    Seq::<Seq<u8>>::empty(),
                    Err::<(), PacketError>(PacketError::UnknownMessageType(packet[0])),
                    rest,
                )
            }
        }),
{
    reading_gives_back_the_frame(packet, rest, MAX_PACKET_BYTES as nat);
}

/// A stream that ends between packets, or in the length of one, has ended in peace. One that breaks
/// off inside a packet ends with an error, and so does one that announces more than sixteen
/// mebibytes.
pub proof fn streams_end_in_peace_between_packets(bytes: Seq<u8>)
    ensures
        bytes.len() < 4 ==> relay_run(bytes) == (
            Seq::<Seq<u8>>::empty(),
            Ok::<(), PacketError>(()),
            Seq::<u8>::empty(),
        ),
        bytes.len() >= 4 ==> ({
            let n = bytes[0] * 16777216 + bytes[1] * 65536 + bytes[2] * 256 + bytes[3];
            &&& n <= 16777216 && bytes.len() < 4 + n ==> relay_run(bytes) == (
                Seq::<Seq<u8>>::empty(),
                Err::<(), PacketError>(PacketError::UnexpectedEof),
                Seq::<u8>::empty(),
            )
            &&& n > 16777216 ==> relay_run(bytes) == (
                Seq::<Seq<u8>>::empty(),
                Err::<(), PacketError>(PacketError::TooLarge(n as u32)),
                bytes.subrange(4, bytes.len() as int),
            )
        }),
{
}

/// A packet is read by the length in front of it: exactly as many bytes, and what follows is left.
pub proof fn a_packet_is_read_by_its_length(packet: Seq<u8>, rest: Seq<u8>, bytes: Seq<u8>)
    requires
        packet.len() <= 16777216,
    ensures
        read_packet_spec(frame_bytes(packet) + rest) == (
            Ok::<Option<Seq<u8>>, PacketError>(Some(packet)),
            rest,
        ),
        bytes.len() < 4 ==> read_packet_spec(bytes) == (
            Ok::<Option<Seq<u8>>, PacketError>(None),
            Seq::<u8>::empty(),
        ),
        bytes.len() >= 4 ==> ({
            let n = bytes[0] * 16777216 + bytes[1] * 65536 + bytes[2] * 256 + bytes[3];
            &&& n > 16777216 ==> read_packet_spec(bytes).0 == Err::<Option<Seq<u8>>, PacketError>(
                PacketError::TooLarge(n as u32),
            )
            &&& n <= 16777216 && bytes.len() < 4 + n ==> read_packet_spec(bytes).0 == Err::<
                Option<Seq<u8>>,
                PacketError,
            >(PacketError::UnexpectedEof)
        }),
{
    reading_gives_back_the_frame(packet, rest, MAX_PACKET_BYTES as nat);
}

/// Each error is put into words that name what is wrong, as it came.
pub proof fn errors_name_what_is_wrong(code: u8, len: u32)
    ensures
        PacketError::UnknownMessageType(code).text() == "unknown message type: "@ + decimal(
            code as nat,
        ),
        PacketError::TooLarge(len).text() == "packet too large: "@ + decimal(len as nat)
            + " bytes"@,
        PacketError::UnexpectedEof.text() == "early eof"@,
{
}

/// What the relay keeps of a client's packets is all of them, one message for each, in order, under
/// the client's number and with the very bytes.
pub proof fn messages_carry_the_very_bytes(
    messages: Seq<RelayedMessage>,
    sender_id: u64,
    packets: Seq<Seq<u8>>,
    i: int,
)
    requires
        messages_carry(messages, sender_id, packets),
        0 <= i < packets.len(),
    ensures
        messages.len() == packets.len(),
        messages[i].sender_id == sender_id,
        packets[i].len() == messages[i].payload@.len() + 1,
        packets[i][0] == (match messages[i].message_type {
            MessageType::Ping => 0u8,
            MessageType::Video => 1u8,
            MessageType::Disconnect => 2u8,
            MessageType::Audio => 3u8,
        }),
        packets[i].subrange(1, packets[i].len() as int) == messages[i].payload@,
{
    assert(messages[i].packet() == packets[i]);
    assert(packets[i].subrange(1, packets[i].len() as int) =~= messages[i].payload@);
}

/// Each message of another client adds its packet to what a client is sent, and each of its own adds
/// nothing.
pub proof fn one_more_message_is_delivered(
    client_id: u64,
    messages: Seq<RelayedMessage>,
    message: RelayedMessage,
)
    ensures
        delivered(client_id, Seq::empty()) == Seq::<Seq<u8>>::empty(),
        message.sender_id == client_id ==> delivered(client_id, messages.push(message))
            == delivered(client_id, messages),
        message.sender_id != client_id ==> delivered(client_id, messages.push(message))
            == delivered(client_id, messages).push(message.packet()),
{
    assert(messages.push(message).drop_last() =~= messages);
}

/// The relay listens on all addresses, at port 1337, and serves every client that connects, under the
/// next number. It gives up, in the words of the system, if and only if it cannot.
pub proof fn every_client_that_connects_is_served(
    next: u64,
    peer_addr: String,
    error: String,
    after: u64,
    action: ServerAction,
)
    ensures
        server_action(next, ServerEvent::Bound(Ok(())), after, action) ==> after == next && (
        action matches ServerAction::Listen(line) && line@
            == "pomme-screenshare-server listening on "@ + "0.0.0.0:1337"@),
        server_action(next, ServerEvent::Accepted(Ok(peer_addr)), after, action) ==> (
        action matches ServerAction::Serve(client_id, line) && client_id == next && line@
            == "client "@ + decimal(next as nat) + " connected from "@ + peer_addr@) && (next
            < u64::MAX ==> after == next + 1),
        server_action(next, ServerEvent::Bound(Err(error)), after, action) ==> action
            == ServerAction::Fail(error),
        server_action(next, ServerEvent::Accepted(Err(error)), after, action) ==> action
            == ServerAction::Fail(error),
{
}

/// The log says of which client which half ended, where it connected from, and why, if there was an
/// error.
pub proof fn the_log_says_who_and_why(
    client_id: u64,
    peer_addr: Seq<char>,
    error: Seq<char>,
)
    ensures
        client_result_spec(client_id, peer_addr, Direction::Read, None) == "client "@ + decimal(
            client_id as nat,
        ) + " "@ + "read"@ + " closed from "@ + peer_addr,
        client_result_spec(client_id, peer_addr, Direction::Write, None) == "client "@ + decimal(
            client_id as nat,
        ) + " "@ + "write"@ + " closed from "@ + peer_addr,
        client_result_spec(client_id, peer_addr, Direction::Read, Some(error)) == "client "@
            + decimal(client_id as nat) + " "@ + "read"@ + " error from "@ + peer_addr + ": "@
            + error,
        client_result_spec(client_id, peer_addr, Direction::Write, Some(error)) == "client "@
            + decimal(client_id as nat) + " "@ + "write"@ + " error from "@ + peer_addr + ": "@
            + error,
{
}

/// Of many packets exactly the video and audio are media, in their order.
pub proof fn media_stays_in_order(packet: Seq<u8>, packets: Seq<Seq<u8>>)
    ensures
        media_packets(Seq::empty()) == Seq::<Seq<u8>>::empty(),
        media_packets(seq![packet] + packets) == (if packet.len() > 0 && (packet[0] == 1
            || packet[0] == 3) {
            seq![packet] + media_packets(packets)
        } else {
            media_packets(packets)
        }),
{
    assert((seq![packet] + packets).drop_first() =~= packets);
}

} // verus!
