//! Messages between a client and the relay: a length, a type, a payload.

use crate::text::{decimal, joined_number};
use crate::wire::{
    a_frame_is_a_length_and_a_body, a_frame_is_read_by_its_length, frame_bytes, read_frame,
    read_frame_spec, reading_gives_back_the_frame, write_frame, FrameError,
};
use vstd::prelude::*;
use vstd::std_specs::convert::TryFromSpecImpl;

verus! {

/// The longest message that a client takes, its type included.
pub const MAX_MESSAGE_BYTES: usize = 16 * 1024 * 1024;

/// What a message is, by its first byte.
#[derive(Clone, Copy, Debug, PartialEq, Eq, Structural)]
pub enum MessageType {
    Ping,
    Video,
    Disconnect,
}

impl MessageType {
    /// The byte that stands for the type.
    pub open spec fn code_spec(self) -> u8 {
        match self {
            MessageType::Ping => 0,
            MessageType::Video => 1,
            MessageType::Disconnect => 2,
        }
    }

    /// The byte that stands for the type.
    pub fn code(self) -> (code: u8)
        ensures
            code == self.code_spec(),
    {
        match self {
            MessageType::Ping => 0,
            MessageType::Video => 1,
            MessageType::Disconnect => 2,
        }
    }

    /// The type that a byte stands for.
    pub open spec fn from_code(code: u8) -> Option<MessageType> {
        if code == 0 {
            Some(MessageType::Ping)
        } else if code == 1 {
            Some(MessageType::Video)
        } else if code == 2 {
            Some(MessageType::Disconnect)
        } else {
            None
        }
    }
}

/// What is said of a byte that stands for no type.
pub open spec fn unknown_type_text(code: u8) -> Seq<char> {
    "unknown message type: "@ + decimal(code as nat)
}

impl TryFrom<u8> for MessageType {
    type Error = String;

    fn try_from(value: u8) -> (kind: Result<MessageType, String>)
        ensures
            match MessageType::from_code(value) {
                Some(known) => kind == Ok::<MessageType, String>(known),
                None => kind matches Err(text) && text@ == unknown_type_text(value),
            },
    {
        match value {
            0 => Ok(MessageType::Ping),
            1 => Ok(MessageType::Video),
            2 => Ok(MessageType::Disconnect),
            unknown => {
                let text = joined_number("unknown message type: ", unknown as u64, "");
                proof {
                    reveal_strlit("");
                    assert(text@ =~= unknown_type_text(value));
                }
                Err(text)
            },
        }
    }
}

impl TryFromSpecImpl<u8> for MessageType {
    open spec fn obeys_try_from_spec() -> bool {
        false
    }

    open spec fn try_from_spec(value: u8) -> Result<MessageType, String> {
        arbitrary()
    }
}

/// A message without its length: its type, then its payload.
pub open spec fn message_body(message_type: MessageType, payload: Seq<u8>) -> Seq<u8> {
    seq![message_type.code_spec()] + payload
}

/// A message as it goes over the wire.
pub open spec fn message_bytes(message_type: MessageType, payload: Seq<u8>) -> Seq<u8> {
    frame_bytes(message_body(message_type, payload))
}

/// Appends a message to what is to be sent. Of a length over `u32::MAX` only the low 32 bits are
/// written.
pub fn write_message(writer: &mut Vec<u8>, message_type: MessageType, payload: &[u8])
    ensures
        final(writer)@ == old(writer)@ + message_bytes(message_type, payload@),
{
    let mut body: Vec<u8> = Vec::new();
    body.push(message_type.code());
    body.extend_from_slice(payload);
    assert(body@ =~= message_body(message_type, payload@));
    write_frame(writer, &body);
}

/// Reads one message off the front of `reader`: its type and payload, without its length.
pub fn read_message(reader: &mut &[u8]) -> (body: Result<Vec<u8>, FrameError>)
    ensures
        ({
            let (read, rest) = read_frame_spec(old(reader)@, MAX_MESSAGE_BYTES as nat);
            &&& final(reader)@ == rest
            &&& match body {
                Ok(b) => read == Ok::<Seq<u8>, FrameError>(b@),
                Err(e) => read == Err::<Seq<u8>, FrameError>(e),
            }
        }),
{
    read_frame(reader, MAX_MESSAGE_BYTES as u32)
}

/// Why a message could not be read, in words.
pub open spec fn read_error_text(error: FrameError) -> Seq<char> {
    match error {
        FrameError::TooLarge(len) => "message too large: "@ + decimal(len as nat) + " bytes"@,
        _ => "failed to fill whole buffer"@,
    }
}

/// Why a message could not be read, in words.
pub fn read_error_message(error: FrameError) -> (text: String)
    ensures
        text@ == read_error_text(error),
{
    match error {
        FrameError::TooLarge(len) => joined_number("message too large: ", len as u64, " bytes"),
        _ => "failed to fill whole buffer".to_owned(),
    }
}

/// A message that is not too long is read back as it was written, and what was written behind it
/// is left.
pub proof fn reading_gives_back_the_message(
    message_type: MessageType,
    payload: Seq<u8>,
    rest: Seq<u8>,
)
    requires
        payload.len() < MAX_MESSAGE_BYTES,
    ensures
        read_frame_spec(message_bytes(message_type, payload) + rest, MAX_MESSAGE_BYTES as nat) == (
            Ok::<Seq<u8>, FrameError>(message_body(message_type, payload)),
            rest,
        ),
        MessageType::from_code(message_body(message_type, payload)[0]) == Some(message_type),
        message_body(message_type, payload).subrange(1, payload.len() as int + 1) == payload,
{
    reading_gives_back_the_frame(
        message_body(message_type, payload),
        rest,
        MAX_MESSAGE_BYTES as nat,
    );
    assert(message_body(message_type, payload).subrange(1, payload.len() as int + 1) =~= payload);
}

/// A message that is too long is refused by its length alone.
pub proof fn long_messages_are_refused(
    message_type: MessageType,
    payload: Seq<u8>,
    rest: Seq<u8>,
)
    requires
        MAX_MESSAGE_BYTES <= payload.len(),
        payload.len() + 1 <= u32::MAX,
    ensures
        read_frame_spec(message_bytes(message_type, payload) + rest, MAX_MESSAGE_BYTES as nat).0
            == Err::<Seq<u8>, FrameError>(FrameError::TooLarge((payload.len() + 1) as u32)),
{
    let body = message_body(message_type, payload);
    let bytes = message_bytes(message_type, payload) + rest;
    crate::wire::length_survives_the_wire(body.len());
    assert(crate::wire::be32_value(bytes) == crate::wire::be32_value(
        crate::wire::be32(body.len()),
    ));
}

/// A message is a length that counts the type and the payload, one byte of type and the payload,
/// byte for byte. The types are 0 for a ping, 1 for video and 2 for a disconnect.
pub proof fn a_message_is_a_length_a_type_and_a_payload(
    message_type: MessageType,
    payload: Seq<u8>,
)
    requires
        payload.len() < 0xffff_ffff,
    ensures
        ({
            let bytes = message_bytes(message_type, payload);
            &&& bytes.len() == payload.len() + 5
            &&& bytes[0] * 16777216 + bytes[1] * 65536 + bytes[2] * 256 + bytes[3] == payload.len()
                + 1
            &&& bytes[4] == (match message_type {
                MessageType::Ping => 0u8,
                MessageType::Video => 1u8,
                MessageType::Disconnect => 2u8,
            })
            &&& forall|i: int| 0 <= i < payload.len() ==> #[trigger] bytes[i + 5] == payload[i]
        }),
{
    let body = message_body(message_type, payload);
    a_frame_is_a_length_and_a_body(body);
    let bytes = message_bytes(message_type, payload);
    assert(bytes[0int + 4] == body[0]);
    assert forall|i: int| 0 <= i < payload.len() implies #[trigger] bytes[i + 5] == payload[i] by {
        assert(bytes[(i + 1) + 4] == body[i + 1]);
    }
}

/// The bytes 0, 1 and 2 stand for a ping, video and a disconnect; no other byte stands for a type.
pub proof fn types_are_known_by_their_bytes(code: u8)
    ensures
        MessageType::from_code(code) == Some(MessageType::Ping) <==> code == 0,
        MessageType::from_code(code) == Some(MessageType::Video) <==> code == 1,
        MessageType::from_code(code) == Some(MessageType::Disconnect) <==> code == 2,
        MessageType::from_code(code) is None <==> code > 2,
{
}

/// Each error is put into words that name what is wrong: the byte that stands for no type, and the
/// length that is too large, as they came. A stream that ended has words of its own.
pub proof fn errors_name_what_is_wrong(code: u8, len: u32)
    ensures
        unknown_type_text(code) == "unknown message type: "@ + decimal(code as nat),
        read_error_text(FrameError::TooLarge(len)) == "message too large: "@ + decimal(len as nat)
            + " bytes"@,
        read_error_text(FrameError::NoLength) == "failed to fill whole buffer"@,
        read_error_text(FrameError::Truncated) == "failed to fill whole buffer"@,
{
}

/// A message of up to sixteen mebibytes, its type included, is read, and no longer one.
pub proof fn messages_are_read_up_to_the_limit(body: Seq<u8>, rest: Seq<u8>)
    requires
        body.len() < 0x1_0000_0000,
    ensures
        body.len() <= 16777216 ==> read_frame_spec(
            frame_bytes(body) + rest,
            MAX_MESSAGE_BYTES as nat,
        ) == (Ok::<Seq<u8>, FrameError>(body), rest),
        body.len() > 16777216 ==> read_frame_spec(
            frame_bytes(body) + rest,
            MAX_MESSAGE_BYTES as nat,
        ).0 == Err::<Seq<u8>, FrameError>(FrameError::TooLarge(body.len() as u32)),
{
    if body.len() <= 16777216 {
        reading_gives_back_the_frame(body, rest, MAX_MESSAGE_BYTES as nat);
    } else {
        a_frame_is_a_length_and_a_body(body);
        let bytes = frame_bytes(body) + rest;
        a_frame_is_read_by_its_length(bytes, MAX_MESSAGE_BYTES as nat, body.len());
    }
}

} // verus!
