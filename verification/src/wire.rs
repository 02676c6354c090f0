//! Length-prefixed frames: four bytes of length, most significant first, then the body.

use vstd::prelude::*;
use vstd::slice::*;

verus! {

/// The low 32 bits of `n` as four bytes, most significant first.
pub open spec fn be32(n: nat) -> Seq<u8> {
    seq![
        (n / 0x100_0000 % 0x100) as u8,
        (n / 0x1_0000 % 0x100) as u8,
        (n / 0x100 % 0x100) as u8,
        (n % 0x100) as u8,
    ]
}

/// The number that four bytes hold, most significant first.
pub open spec fn be32_value(b: Seq<u8>) -> nat {
    (b[0] * 0x100_0000 + b[1] * 0x1_0000 + b[2] * 0x100 + b[3]) as nat
}

/// A body behind its length.
pub open spec fn frame_bytes(body: Seq<u8>) -> Seq<u8> {
    be32(body.len()) + body
}

/// Bodies behind their lengths, one after the other.
pub open spec fn stream_bytes(bodies: Seq<Seq<u8>>) -> Seq<u8>
    decreases bodies.len(),
{
    if bodies.len() == 0 {
        seq![]
    } else {
        frame_bytes(bodies[0]) + stream_bytes(bodies.drop_first())
    }
}

/// Why no frame could be read.
#[derive(Clone, Copy, Debug, PartialEq, Eq, Structural)]
pub enum FrameError {
    /// The stream ends inside the four bytes of the length.
    NoLength,
    /// The length is over the limit.
    TooLarge(u32),
    /// The stream ends inside the body.
    Truncated,
}

/// What reading one frame of at most `limit` bytes from `bytes` gives: the body, or why there is
/// none, and what is left of the stream.
pub open spec fn read_frame_spec(bytes: Seq<u8>, limit: nat) -> (
    Result<Seq<u8>, FrameError>,
    Seq<u8>,
) {
    let len = be32_value(bytes);
    if bytes.len() < 4 {
        (Err(FrameError::NoLength), seq![])
    } else if len > limit {
        (Err(FrameError::TooLarge(len as u32)), bytes.subrange(4, bytes.len() as int))
    } else if bytes.len() < 4 + len {
        (Err(FrameError::Truncated), seq![])
    } else {
        (Ok(bytes.subrange(4, 4 + len as int)), bytes.subrange(4 + len as int, bytes.len() as int))
    }
}

/// The bodies that reading frame after frame gives, up to the first frame that cannot be read.
pub open spec fn read_stream_spec(bytes: Seq<u8>, limit: nat) -> Seq<Seq<u8>>
    decreases bytes.len(),
{
    match read_frame_spec(bytes, limit) {
        (Ok(body), rest) => seq![body] + read_stream_spec(rest, limit),
        (Err(_), _) => seq![],
    }
}

/// Appends the low 32 bits of `n`, most significant byte first.
fn push_be32(writer: &mut Vec<u8>, n: usize)
    ensures
        final(writer)@ == old(writer)@ + be32(n as nat),
{
    let n: u64 = n as u64;
    writer.push((n / 0x100_0000 % 0x100) as u8);
    writer.push((n / 0x1_0000 % 0x100) as u8);
    writer.push((n / 0x100 % 0x100) as u8);
    writer.push((n % 0x100) as u8);
    assert(writer@ =~= old(writer)@ + be32(n as nat));
}

/// Appends `body` behind its length. Of a length over `u32::MAX` only the low 32 bits are
/// written.
pub fn write_frame(writer: &mut Vec<u8>, body: &[u8])
    ensures
        final(writer)@ == old(writer)@ + frame_bytes(body@),
{
    push_be32(writer, body.len());
    writer.extend_from_slice(body);
    assert(writer@ =~= old(writer)@ + frame_bytes(body@));
}

/// The length that the four bytes in front of a body announce, or that it is over `limit`.
pub fn frame_length(header: [u8; 4], limit: u32) -> (len: Result<u32, FrameError>)
    ensures
        len == (if be32_value(header@) > limit {
            Err::<u32, FrameError>(FrameError::TooLarge(be32_value(header@) as u32))
        } else {
            Ok(be32_value(header@) as u32)
        }),
{
    let len: u32 = (header[0] as u32) * 0x100_0000 + (header[1] as u32) * 0x1_0000 + (
    header[2] as u32) * 0x100 + (header[3] as u32);
    if len > limit {
        Err(FrameError::TooLarge(len))
    } else {
        Ok(len)
    }
}

/// Reads one frame of at most `limit` bytes off the front of `reader`. A stream that ends too
/// early is used up.
pub fn read_frame(reader: &mut &[u8], limit: u32) -> (body: Result<Vec<u8>, FrameError>)
    ensures
        ({
            let (read, rest) = read_frame_spec(old(reader)@, limit as nat);
            &&& final(reader)@ == rest
            &&& body is Ok <==> read is Ok
            &&& body matches Ok(b) ==> read == Ok::<Seq<u8>, FrameError>(b@)
            &&& body matches Err(e) ==> read == Err::<Seq<u8>, FrameError>(e)
        }),
{
    let bytes: &[u8] = *reader;
    let total: usize = bytes.len();
    if total < 4 {
        *reader = slice_subrange(bytes, total, total);
        assert(reader@ =~= seq![]);
        return Err(FrameError::NoLength);
    }
    let header: [u8; 4] = [bytes[0], bytes[1], bytes[2], bytes[3]];
    assert(be32_value(header@) == be32_value(bytes@));
    match frame_length(header, limit) {
        Err(e) => {
            *reader = slice_subrange(bytes, 4, total);
            Err(e)
        },
        Ok(len) => {
            let len: usize = len as usize;
            if total - 4 < len {
                *reader = slice_subrange(bytes, total, total);
                assert(reader@ =~= seq![]);
                Err(FrameError::Truncated)
            } else {
                let body = slice_to_vec(slice_subrange(bytes, 4, 4 + len));
                *reader = slice_subrange(bytes, 4 + len, total);
                Ok(body)
            }
        },
    }
}

/// Four bytes written for a number below 2^32 hold that number.
pub proof fn length_survives_the_wire(n: nat)
    requires
        n < 0x1_0000_0000,
    ensures
        be32(n).len() == 4,
        be32_value(be32(n)) == n,
{
    assert(n == n / 0x100_0000 * 0x100_0000 + n % 0x100_0000);
    assert(n % 0x100_0000 == n / 0x1_0000 % 0x100 * 0x1_0000 + n % 0x1_0000);
    assert(n % 0x1_0000 == n / 0x100 % 0x100 * 0x100 + n % 0x100);
    assert(n / 0x100_0000 % 0x100 == n / 0x100_0000);
}

/// Reading a frame gives back the body that was written, and leaves what was written after it.
pub proof fn reading_gives_back_the_frame(body: Seq<u8>, rest: Seq<u8>, limit: nat)
    requires
        body.len() <= limit,
        limit < 0x1_0000_0000,
    ensures
        read_frame_spec(frame_bytes(body) + rest, limit) == (Ok::<Seq<u8>, FrameError>(body), rest),
{
    let bytes = frame_bytes(body) + rest;
    length_survives_the_wire(body.len());
    assert(be32_value(bytes) == be32_value(be32(body.len())));
    assert(bytes.subrange(4, 4 + body.len() as int) =~= body);
    assert(bytes.subrange(4 + body.len() as int, bytes.len() as int) =~= rest);
}

/// Frames written one after the other are read back one after the other, whatever was cut off
/// behind the last of them.
pub proof fn reading_gives_back_the_stream(bodies: Seq<Seq<u8>>, tail: Seq<u8>, limit: nat)
    requires
        forall|i: int| 0 <= i < bodies.len() ==> (#[trigger] bodies[i]).len() <= limit,
        limit < 0x1_0000_0000,
        tail.len() < 4,
    ensures
        read_stream_spec(stream_bytes(bodies) + tail, limit) == bodies,
    decreases bodies.len(),
{
    let bytes = stream_bytes(bodies) + tail;
    if bodies.len() == 0 {
        assert(bytes =~= tail);
        assert(read_stream_spec(bytes, limit) =~= bodies);
    } else {
        let others = bodies.drop_first();
        let rest = stream_bytes(others) + tail;
        assert(bytes =~= frame_bytes(bodies[0]) + rest);
        reading_gives_back_the_frame(bodies[0], rest, limit);
        reading_gives_back_the_stream(others, tail, limit);
        assert(seq![bodies[0]] + others =~= bodies);
    }
}

/// The bytes of a number are the bytes that it is made of.
proof fn bytes_of_a_number(b0: nat, b1: nat, b2: nat, b3: nat)
    requires
        b0 < 0x100,
        b1 < 0x100,
        b2 < 0x100,
        b3 < 0x100,
    ensures
        ({
            let n = b0 * 0x100_0000 + b1 * 0x1_0000 + b2 * 0x100 + b3;
            &&& n / 0x100_0000 % 0x100 == b0
            &&& n / 0x1_0000 % 0x100 == b1
            &&& n / 0x100 % 0x100 == b2
            &&& n % 0x100 == b3
        }),
{
    let n = b0 * 0x100_0000 + b1 * 0x1_0000 + b2 * 0x100 + b3;
    let upper = b0 * 0x1_0000 + b1 * 0x100 + b2;
    assert(n == 0x100 * upper + b3);
    assert(n / 0x100 == upper && n % 0x100 == b3);
    let half = b0 * 0x100 + b1;
    assert(upper == 0x100 * half + b2);
    assert(upper % 0x100 == b2);
    assert(n == 0x1_0000 * half + (b2 * 0x100 + b3));
    assert(n / 0x1_0000 == half);
    assert(half % 0x100 == b1);
    assert(n == 0x100_0000 * b0 + (b1 * 0x1_0000 + b2 * 0x100 + b3));
    assert(n / 0x100_0000 == b0);
}

/// No frame that is read is longer than the limit, and each is a part of the stream behind the
/// four bytes that announce its length.
pub proof fn frames_stay_within_the_limit(bytes: Seq<u8>, limit: nat)
    requires
        limit < 0x1_0000_0000,
    ensures
        read_frame_spec(bytes, limit).0 matches Ok(body) ==> {
            &&& body.len() <= limit
            &&& bytes == frame_bytes(body) + read_frame_spec(bytes, limit).1
        },
{
    if let (Ok(body), rest) = read_frame_spec(bytes, limit) {
        bytes_of_a_number(bytes[0] as nat, bytes[1] as nat, bytes[2] as nat, bytes[3] as nat);
        assert(body.len() == be32_value(bytes));
        assert(be32(body.len()) =~= bytes.subrange(0, 4));
        assert(bytes =~= frame_bytes(body) + rest);
    }
}

/// A frame is four bytes that hold the length of the body, most significant first, and then the body
/// itself, byte for byte.
pub proof fn a_frame_is_a_length_and_a_body(body: Seq<u8>)
    requires
        body.len() < 0x1_0000_0000,
    ensures
        ({
            let frame = frame_bytes(body);
            &&& frame.len() == body.len() + 4
            &&& frame[0] * 16777216 + frame[1] * 65536 + frame[2] * 256 + frame[3] == body.len()
            &&& forall|i: int| 0 <= i < body.len() ==> #[trigger] frame[i + 4] == body[i]
        }),
{
    length_survives_the_wire(body.len());
}

/// Frames follow each other without anything between them.
pub proof fn frames_follow_each_other(bodies: Seq<Seq<u8>>, body: Seq<u8>)
    ensures
        stream_bytes(Seq::empty()) == Seq::<u8>::empty(),
        stream_bytes(seq![body] + bodies) == frame_bytes(body) + stream_bytes(bodies),
{
    assert((seq![body] + bodies).drop_first() =~= bodies);
}

/// Where the announced length is within the limit and the stream holds that many bytes, exactly
/// those bytes are read and exactly what follows them is left.
pub proof fn a_frame_is_read_by_its_length(bytes: Seq<u8>, limit: nat, n: nat)
    requires
        bytes.len() >= 4,
        n == bytes[0] * 16777216 + bytes[1] * 65536 + bytes[2] * 256 + bytes[3],
    ensures
        n <= limit && bytes.len() >= 4 + n ==> read_frame_spec(bytes, limit) == (
            Ok::<Seq<u8>, FrameError>(bytes.subrange(4, 4 + n as int)),
            bytes.subrange(4 + n as int, bytes.len() as int),
        ),
        n > limit ==> read_frame_spec(bytes, limit) == (
            Err::<Seq<u8>, FrameError>(FrameError::TooLarge(n as u32)),
            bytes.subrange(4, bytes.len() as int),
        ),
        n <= limit && bytes.len() < 4 + n ==> read_frame_spec(bytes, limit) == (
            Err::<Seq<u8>, FrameError>(FrameError::Truncated),
            Seq::<u8>::empty(),
        ),
{
}

/// A stream that ends inside a length has no frame, and is used up.
pub proof fn no_frame_without_a_length(bytes: Seq<u8>, limit: nat)
    requires
        bytes.len() < 4,
    ensures
        read_frame_spec(bytes, limit) == (
            Err::<Seq<u8>, FrameError>(FrameError::NoLength),
            Seq::<u8>::empty(),
        ),
{
}

} // verus!
