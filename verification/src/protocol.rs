//! What the clients and the relay promise each other. Everything here is proved of the functions
//! that write and read.

use crate::client::message;
use crate::client::message::{message_body, message_bytes, unknown_type_text, MAX_MESSAGE_BYTES};
use crate::client::receive::{
    decode_run, fitting, fitting_payloads_are_all_decoded, sent_video_is_decoded,
    video_payload_spec,
};
use crate::client::stream::{all_sent, encoded_one, payloads, EncodedFrame};
use crate::codec::encoder_bits;
use crate::h264::crops_fit;
use crate::server;
use crate::server::{
    is_media, media_is_relayed_in_order, media_packets, relay_run, PacketError, MAX_PACKET_BYTES,
};
use crate::wire::{frame_bytes, reading_gives_back_the_frame, stream_bytes};
use openh264::encoder::Encoder;
use vstd::prelude::*;

verus! {

/// The messages that carry these payloads as video, one after the other.
pub open spec fn video_stream(payloads: Seq<Seq<u8>>) -> Seq<u8> {
    stream_bytes(video_packets(payloads))
}

/// The packets that carry these payloads as video.
pub open spec fn video_packets(payloads: Seq<Seq<u8>>) -> Seq<Seq<u8>> {
    payloads.map(|i: int, payload: Seq<u8>| message_body(message::MessageType::Video, payload))
}

/// The relay knows every type that a client sends, by the same byte, and takes every message that
/// a client would take.
pub proof fn the_relay_knows_the_clients(message_type: message::MessageType)
    ensures
        server::MessageType::from_code(message_type.code_spec()) == Ok::<
            server::MessageType,
            PacketError,
        >(
            match message_type {
                message::MessageType::Ping => server::MessageType::Ping,
                message::MessageType::Video => server::MessageType::Video,
                message::MessageType::Disconnect => server::MessageType::Disconnect,
            },
        ),
        MAX_PACKET_BYTES == MAX_MESSAGE_BYTES,
{
}

/// What a client sends of a shared window passes the relay and reaches the decoder of every other
/// client, all of it, unchanged and in order, whatever was cut off behind it on either way.
pub proof fn shared_video_reaches_every_decoder(
    payloads: Seq<Seq<u8>>,
    sent_tail: Seq<u8>,
    received_tail: Seq<u8>,
)
    requires
        forall|i: int|
            0 <= i < payloads.len() ==> 0 < (#[trigger] payloads[i]).len() < MAX_MESSAGE_BYTES,
        sent_tail.len() < 4,
        received_tail.len() < 4,
    ensures
        relay_run(video_stream(payloads) + sent_tail) == (
            video_packets(payloads),
            Ok::<(), PacketError>(()),
            Seq::<u8>::empty(),
        ),
        decode_run(stream_bytes(video_packets(payloads)) + received_tail).0 == payloads,
{
    let packets = video_packets(payloads);
    assert forall|i: int| 0 <= i < packets.len() implies (#[trigger] packets[i]).len()
        <= MAX_PACKET_BYTES && is_media(packets[i]) by {
        assert(0 < payloads[i].len() < MAX_MESSAGE_BYTES);
    }
    media_is_relayed_in_order(packets, sent_tail);
    media_is_everything(packets);
    video_is_decoded(payloads, received_tail);
}

/// Whether `encoders` are the states of an encoder that starts with nothing and gives bits for one
/// picture after the other, and `frames` stand for them.
pub open spec fn is_share(encoders: Seq<Encoder>, frames: Seq<EncodedFrame>) -> bool {
    &&& encoders.len() == frames.len() + 1
    &&& encoder_bits(encoders[0]) == Seq::<Option<Seq<u8>>>::empty()
    &&& forall|i: int|
        #![trigger frames[i]]
        0 <= i < frames.len() ==> encoded_one(encoders[i], frames[i], encoders[i + 1])
}

/// All that is sent of a shared window are the video messages of the bits that the encoder gave,
/// one message for each picture that was not skipped, in order, and nothing else.
pub proof fn a_share_is_the_video_of_its_bits(encoders: Seq<Encoder>, frames: Seq<EncodedFrame>)
    requires
        is_share(encoders, frames),
    ensures
        all_sent(frames) == video_stream(payloads(encoder_bits(encoders.last()))),
    decreases frames.len(),
{
    let bits = encoder_bits(encoders.last());
    if frames.len() == 0 {
        assert(video_packets(payloads(bits)) =~= seq![]);
        assert(all_sent(frames) =~= video_stream(payloads(bits)));
    } else {
        let n = frames.len() - 1;
        let earlier = frames.drop_last();
        assert forall|i: int|
            #![trigger earlier[i]]
            0 <= i < earlier.len() implies encoded_one(
            encoders.drop_last()[i],
            earlier[i],
            encoders.drop_last()[i + 1],
        ) by {
            assert(earlier[i] == frames[i]);
        }
        a_share_is_the_video_of_its_bits(encoders.drop_last(), earlier);
        assert(encoded_one(encoders[n], frames[n], encoders[n + 1]));
        let before = payloads(bits.drop_last());
        let payload = bits.last()->0;
        if payload.len() > 0 {
            let body = message_body(message::MessageType::Video, payload);
            assert(video_packets(before.push(payload)) =~= video_packets(before).push(body));
            one_more_frame(video_packets(before), body);
        } else {
            assert(all_sent(frames) =~= all_sent(earlier));
        }
    }
}

proof fn one_more_frame(bodies: Seq<Seq<u8>>, body: Seq<u8>)
    ensures
        stream_bytes(bodies.push(body)) == stream_bytes(bodies) + frame_bytes(body),
    decreases bodies.len(),
{
    let all = bodies.push(body);
    if bodies.len() == 0 {
        assert(all.drop_first() =~= bodies);
        assert(stream_bytes(all) =~= stream_bytes(bodies) + frame_bytes(body));
    } else {
        one_more_frame(bodies.drop_first(), body);
        assert(all.drop_first() =~= bodies.drop_first().push(body));
        assert(stream_bytes(all) =~= stream_bytes(bodies) + frame_bytes(body));
    }
}

/// What is sent of a shared window is relayed packet for packet, and every client that is sent the
/// packets decodes the bits of all the pictures that were not skipped, unchanged and in order. Where
/// their crops fit, its decoder is handed all of them.
pub proof fn a_shared_window_reaches_every_decoder(
    encoders: Seq<Encoder>,
    frames: Seq<EncodedFrame>,
)
    requires
        is_share(encoders, frames),
        forall|i: int|
            0 <= i < payloads(encoder_bits(encoders.last())).len() ==> (#[trigger] payloads(
                encoder_bits(encoders.last()),
            )[i]).len() < MAX_MESSAGE_BYTES,
    ensures
        ({
            let given = payloads(encoder_bits(encoders.last()));
            let relayed = relay_run(all_sent(frames)).0;
            &&& relayed == video_packets(given)
            &&& relay_run(all_sent(frames)).1 == Ok::<(), PacketError>(())
            &&& decode_run(stream_bytes(relayed)).0 == given
            &&& (forall|i: int| 0 <= i < given.len() ==> crops_fit(#[trigger] given[i]))
                ==> fitting(decode_run(stream_bytes(relayed)).0) == given
        }),
{
    let bits = encoder_bits(encoders.last());
    let given = payloads(bits);
    a_share_is_the_video_of_its_bits(encoders, frames);
    assert forall|i: int| 0 <= i < given.len() implies 0 < (#[trigger] given[i]).len()
        < MAX_MESSAGE_BYTES by {
        payloads_are_not_empty(bits, i);
    }
    let nothing = Seq::<u8>::empty();
    shared_video_reaches_every_decoder(given, nothing, nothing);
    assert(video_stream(given) + nothing =~= video_stream(given));
    if forall|i: int| 0 <= i < given.len() ==> crops_fit(#[trigger] given[i]) {
        fitting_payloads_are_all_decoded(given);
    }
}

proof fn payloads_are_not_empty(bits: Seq<Option<Seq<u8>>>, i: int)
    requires
        0 <= i < payloads(bits).len(),
    ensures
        payloads(bits)[i].len() > 0,
    decreases bits.len(),
{
    let earlier = payloads(bits.drop_last());
    if i < earlier.len() {
        payloads_are_not_empty(bits.drop_last(), i);
    }
}

proof fn media_is_everything(packets: Seq<Seq<u8>>)
    requires
        forall|i: int| 0 <= i < packets.len() ==> is_media(#[trigger] packets[i]),
    ensures
        media_packets(packets) == packets,
    decreases packets.len(),
{
    if packets.len() > 0 {
        media_is_everything(packets.drop_first());
        assert(seq![packets[0]] + packets.drop_first() =~= packets);
    } else {
        assert(media_packets(packets) =~= packets);
    }
}

proof fn video_is_decoded(payloads: Seq<Seq<u8>>, tail: Seq<u8>)
    requires
        forall|i: int|
            0 <= i < payloads.len() ==> 0 < (#[trigger] payloads[i]).len() < MAX_MESSAGE_BYTES,
        tail.len() < 4,
    ensures
        decode_run(video_stream(payloads) + tail).0 == payloads,
    decreases payloads.len(),
{
    let bytes = video_stream(payloads) + tail;
    if payloads.len() == 0 {
        assert(bytes =~= tail);
        assert(decode_run(bytes).0 =~= payloads);
    } else {
        let others = payloads.drop_first();
        let rest = video_stream(others) + tail;
        assert(video_packets(payloads).drop_first() =~= video_packets(others));
        assert(bytes =~= message_bytes(message::MessageType::Video, payloads[0]) + rest);
        video_is_decoded(others, tail);
        sent_video_is_decoded(payloads[0], rest);
        assert(seq![payloads[0]] + others =~= payloads);
    }
}

/// A ping leaves no trace at the relay.
pub proof fn pings_leave_no_trace(rest: Seq<u8>)
    ensures
        relay_run(message_bytes(message::MessageType::Ping, Seq::empty()) + rest) == relay_run(
            rest,
        ),
{
    let body = message_body(message::MessageType::Ping, Seq::empty());
    reading_gives_back_the_frame(body, rest, MAX_PACKET_BYTES as nat);
}

/// A client that takes its leave is let go without an error, and nothing that it sends after that
/// is relayed or even read.
pub proof fn a_farewell_is_the_end(rest: Seq<u8>)
    ensures
        relay_run(message_bytes(message::MessageType::Disconnect, Seq::empty()) + rest) == (
            Seq::<Seq<u8>>::empty(),
            Ok::<(), PacketError>(()),
            rest,
        ),
{
    let body = message_body(message::MessageType::Disconnect, Seq::empty());
    reading_gives_back_the_frame(body, rest, MAX_PACKET_BYTES as nat);
}

/// The relay passes sound on, but no client knows it: receiving any ends the connection.
pub proof fn clients_do_not_know_sound(payload: Seq<u8>, rest: Seq<u8>)
    requires
        payload.len() < MAX_MESSAGE_BYTES,
    ensures
        is_media(seq![server::MessageType::Audio.code_spec()] + payload),
        decode_run(frame_bytes(seq![server::MessageType::Audio.code_spec()] + payload) + rest) == (
            Seq::<Seq<u8>>::empty(),
            unknown_type_text(server::MessageType::Audio.code_spec()),
            rest,
        ),
{
    let body = seq![server::MessageType::Audio.code_spec()] + payload;
    reading_gives_back_the_frame(body, rest, MAX_MESSAGE_BYTES as nat);
    assert(video_payload_spec(body) == Err::<Option<Seq<u8>>, u8>(3));
}

/// A payload travels as the byte 1 and its own bytes, in its place among the others.
pub proof fn payloads_travel_unchanged(payloads: Seq<Seq<u8>>, i: int)
    requires
        0 <= i < payloads.len(),
    ensures
        video_packets(payloads).len() == payloads.len(),
        video_packets(payloads)[i] == seq![1u8] + payloads[i],
{
    assert(video_packets(payloads)[i] =~= seq![1u8] + payloads[i]);
}

} // verus!
