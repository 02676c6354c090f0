//! What becomes of the messages that a client receives.

use crate::client::message::{
    message_body, message_bytes, read_error_message, read_error_text, read_message,
    reading_gives_back_the_message, unknown_type_text, MessageType, MAX_MESSAGE_BYTES,
};
use crate::client::stats::{elapsed_since, elapsed_spec};
use crate::client::video::{CpuRgbaFrame, VideoFrame};
use crate::codec::{
    decoder_packets, decoder_pictures, error_text, is_codec_error, is_rgba_of, picture_dimensions,
    picture_row_strides, picture_size, picture_strides, rows_in_planes, says,
    was_given_fitting_crops,
};
use crate::h264::{crops_fit, has_fitting_crops};
use crate::picture::rgba_len;
use crate::text::{decimal, joined};
use crate::wire::{frame_bytes, read_frame_spec, reading_gives_back_the_frame};
use openh264::decoder::{DecodedYUV, Decoder};
use vstd::prelude::*;
use vstd::slice::*;

verus! {

/// How often the window looks for news, in nanoseconds.
pub const FRAME_POLL_INTERVAL: u128 = 16_000_000;

/// How long a frame stays without a new one, in nanoseconds.
pub const FRAME_STALE_TIMEOUT: u128 = 10_000_000_000;

/// What is to be decoded of a message: the payload of a video message that has one. Other
/// messages are passed over. `Err` is a first byte that stands for no type.
pub open spec fn video_payload_spec(message: Seq<u8>) -> Result<Option<Seq<u8>>, u8> {
    if message.len() == 0 {
        Ok(None)
    } else {
        match MessageType::from_code(message[0]) {
            None => Err(message[0]),
            Some(MessageType::Video) if message.len() > 1 => Ok(
                Some(message.subrange(1, message.len() as int)),
            ),
            Some(_) => Ok(None),
        }
    }
}

/// Picks what is to be decoded out of a message.
pub fn video_payload(message: &[u8]) -> (payload: Result<Option<&[u8]>, String>)
    ensures
        match payload {
            Ok(Some(p)) => video_payload_spec(message@) == Ok::<Option<Seq<u8>>, u8>(Some(p@)),
            Ok(None) => video_payload_spec(message@) == Ok::<Option<Seq<u8>>, u8>(None),
            Err(text) => {
                &&& video_payload_spec(message@) is Err
                &&& text@ == unknown_type_text(message@[0])
            },
        },
{
    if message.len() == 0 {
        return Ok(None);
    }
    match MessageType::try_from(message[0]) {
        Err(text) => Err(text),
        Ok(kind) => {
            if kind == MessageType::Video && message.len() > 1 {
                Ok(Some(slice_subrange(message, 1, message.len())))
            } else {
                Ok(None)
            }
        },
    }
}

/// A decoder that was made, or what the error says of why there is none.
pub fn decoder_or_words(made: Result<Decoder, openh264::Error>) -> (decoder: Result<
    Decoder,
    String,
>)
    ensures
        match made {
            Ok(d) => decoder == Ok::<Decoder, String>(d),
            Err(error) => decoder matches Err(text) && says(error, text) && is_codec_error(text),
        },
{
    match made {
        Ok(decoder) => Ok(decoder),
        Err(error) => Err(error_text(error)),
    }
}

/// Opens a decoder that has seen nothing yet, or says why there is none.
pub fn open_decoder() -> (decoder: Result<Decoder, String>)
    ensures
        match decoder {
            Ok(d) => {
                &&& decoder_packets(d) == Seq::<Seq<u8>>::empty()
                &&& decoder_pictures(d) == Seq::<Option<DecodedYUV<'static>>>::empty()
                &&& was_given_fitting_crops(d)
            },
            Err(text) => is_codec_error(text),
        },
{
    decoder_or_words(Decoder::new())
}

/// Hands a payload to the decoder, and gives the picture that the decoder gave. `None` if there is
/// no picture yet, and also if the payload could not be decoded: the next one may be better. One
/// that asks for a crop beyond its picture is no video, and is kept from the decoder.
pub fn decode_picture<'a>(decoder: &'a mut Decoder, payload: &[u8]) -> (picture: Option<
    DecodedYUV<'a>,
>)
    requires
        payload@.len() <= i32::MAX,
        was_given_fitting_crops(*old(decoder)),
    ensures
        was_given_fitting_crops(*final(decoder)),
        if crops_fit(payload@) {
            &&& decoder_packets(*final(decoder)) == decoder_packets(*old(decoder)).push(payload@)
            &&& decoder_pictures(*final(decoder)) == decoder_pictures(*old(decoder)).push(picture)
        } else {
            &&& picture is None
            &&& *final(decoder) == *old(decoder)
        },
{
    if !has_fitting_crops(payload) {
        return None;
    }
    picture_or_nothing(decoder.decode(payload))
}

/// The picture that decoding gave, if it gave one.
pub fn picture_or_nothing<'a>(
    decoded: Result<Option<DecodedYUV<'a>>, openh264::Error>,
) -> (picture: Option<DecodedYUV<'a>>)
    ensures
        picture == (match decoded {
            Ok(picture) => picture,
            Err(_) => None,
        }),
{
    match decoded {
        Ok(picture) => picture,
        Err(_) => None,
    }
}

/// Whether a decoded picture can be shown: its rows lie in its planes, and its pixels fit into
/// memory.
pub open spec fn can_be_shown(picture: DecodedYUV<'_>) -> bool {
    &&& rows_in_planes(picture_size(picture), picture_strides(picture))
    &&& picture_size(picture).0 * picture_size(picture).1 * 4 <= usize::MAX
}

/// Whether `frame` is a decoded picture: of the same size, with the picture's colours, and opaque
/// all over.
pub open spec fn is_frame_of(frame: CpuRgbaFrame, picture: DecodedYUV<'_>) -> bool {
    &&& frame.width == picture_size(picture).0
    &&& frame.height == picture_size(picture).1
    &&& frame.pixels@.len() == rgba_len(frame.width, frame.height)
    &&& is_rgba_of(picture, frame.pixels@)
    &&& forall|i: int|
        0 <= i < frame.pixels@.len() && i % 4 == 3 ==> #[trigger] frame.pixels@[i] == 255
}

/// The bytes that a picture of this size takes, four for each pixel. `None` if it cannot be shown.
pub fn shown_len(size: (usize, usize), strides: (usize, usize, usize)) -> (len: Option<usize>)
    ensures
        len is Some <==> rows_in_planes(
            (size.0 as nat, size.1 as nat),
            (strides.0 as nat, strides.1 as nat, strides.2 as nat),
        ) && size.0 * size.1 * 4 <= usize::MAX,
        len matches Some(n) ==> n == size.0 * size.1 * 4,
{
    let (width, height) = size;
    let limit: usize = i32::MAX as usize;
    if width > limit || height > limit {
        return None;
    }
    if height == 0 {
        assert(width * height == 0) by (nonlinear_arith)
            requires
                height == 0,
        ;
        return Some(0);
    }
    if height % 2 != 0 || width > strides.0 || width / 2 + width % 2 > strides.1 || width / 2 + width % 2 > strides.2 {
        return None;
    }
    match (height.checked_mul(strides.0), height.checked_mul(strides.1)) {
        (Some(brightness), Some(color)) if brightness <= limit && color <= limit => {},
        _ => return None,
    }
    assert(0 <= width * height <= height * strides.0) by (nonlinear_arith)
        requires
            0 <= width <= strides.0,
            0 <= height,
    ;
    (width * height).checked_mul(4)
}

/// Turns a decoded picture into a frame. `None` if the picture cannot be shown.
pub fn frame_from_picture(picture: &DecodedYUV<'_>) -> (frame: Option<CpuRgbaFrame>)
    ensures
        frame is Some <==> can_be_shown(*picture),
        frame matches Some(f) ==> is_frame_of(f, *picture),
{
    let (width, height) = picture_dimensions(picture);
    let len: usize = match shown_len((width, height), picture_row_strides(picture)) {
        Some(len) => len,
        None => return None,
    };
    let mut rgba: Vec<u8> = vec![0;len];
    picture.write_rgba8(rgba.as_mut_slice());
    assert(width * height * 4 == 4 * width * height) by (nonlinear_arith);
    Some(CpuRgbaFrame::new(width as u32, height as u32, &rgba))
}

/// The moments at which the time is read while a message is decoded.
#[derive(Clone, Copy, Debug, PartialEq, Eq, Structural)]
pub enum Moment {
    DecodeStarted,
    DecodeEnded,
    RgbaStarted,
    RgbaEnded,
}

/// Whether `time` is what passed on `clock` from one moment to another.
pub open spec fn passed_between<C: Fn(Moment) -> u128>(
    clock: C,
    from: Moment,
    to: Moment,
    time: u128,
) -> bool {
    exists|start: u128, end: u128|
        #![trigger elapsed_spec(start, end)]
        clock.ensures((from,), start) && clock.ensures((to,), end) && time == elapsed_spec(
            start,
            end,
        )
}

/// A frame, and how long it took: to decode the picture, and to turn it into pixels.
#[derive(Debug)]
pub struct DecodedFrame {
    pub frame: CpuRgbaFrame,
    pub decode_time: u128,
    pub rgba_time: u128,
}

/// Takes one message: hands its payload, if it is video, to the decoder, and gives the frame of the
/// picture that comes out, if one does and it can be shown. An unknown type is an error. The
/// decoder sees nothing but video whose crops fit. The times are read off `clock`, which is told
/// what they are read for.
pub fn decode_message<C: Fn(Moment) -> u128>(
    decoder: &mut Decoder,
    message: &[u8],
    clock: &C,
) -> (decoded: Result<Option<DecodedFrame>, String>)
    requires
        message@.len() <= MAX_MESSAGE_BYTES,
        was_given_fitting_crops(*old(decoder)),
        forall|moment: Moment| #[trigger] clock.requires((moment,)),
    ensures
        was_given_fitting_crops(*final(decoder)),
        match video_payload_spec(message@) {
            Err(code) => {
                &&& decoded matches Err(text)
                &&& text@ == unknown_type_text(code)
                &&& *final(decoder) == *old(decoder)
            },
            Ok(Some(payload)) if crops_fit(payload) => {
                let pictures = decoder_pictures(*final(decoder));
                &&& decoder_packets(*final(decoder)) == decoder_packets(*old(decoder)).push(payload)
                &&& pictures.len() == decoder_pictures(*old(decoder)).len() + 1
                &&& pictures.drop_last() == decoder_pictures(*old(decoder))
                &&& match pictures.last() {
                    Some(picture) if can_be_shown(picture) => {
                        &&& decoded matches Ok(Some(d))
                        &&& is_frame_of(d.frame, picture)
                        &&& passed_between(
                            *clock,
                            Moment::DecodeStarted,
                            Moment::DecodeEnded,
                            d.decode_time,
                        )
                        &&& passed_between(
                            *clock,
                            Moment::RgbaStarted,
                            Moment::RgbaEnded,
                            d.rgba_time,
                        )
                    },
                    _ => decoded == Ok::<Option<DecodedFrame>, String>(None),
                }
            },
            Ok(_) => {
                &&& decoded == Ok::<Option<DecodedFrame>, String>(None)
                &&& *final(decoder) == *old(decoder)
            },
        },
{
    let payload: &[u8] = match video_payload(message) {
        Err(text) => return Err(text),
        Ok(None) => return Ok(None),
        Ok(Some(payload)) => payload,
    };
    let decode_started_at: u128 = clock(Moment::DecodeStarted);
    let picture = match decode_picture(decoder, payload) {
        Some(picture) => picture,
        None => return Ok(None),
    };
    let decode_ended_at: u128 = clock(Moment::DecodeEnded);
    let rgba_started_at: u128 = clock(Moment::RgbaStarted);
    let frame = match frame_from_picture(&picture) {
        Some(frame) => frame,
        None => return Ok(None),
    };
    let rgba_ended_at: u128 = clock(Moment::RgbaEnded);
    Ok(
        Some(
            DecodedFrame {
                frame,
                decode_time: elapsed_since(decode_started_at, decode_ended_at),
                rgba_time: elapsed_since(rgba_started_at, rgba_ended_at),
            },
        ),
    )
}

/// What a client makes of all that it receives: the payloads that are to be decoded, in
/// order, the words in which it all ends, and what is left of the stream.
pub open spec fn decode_run(bytes: Seq<u8>) -> (Seq<Seq<u8>>, Seq<char>, Seq<u8>)
    decreases bytes.len(),
{
    let (read, rest) = read_frame_spec(bytes, MAX_MESSAGE_BYTES as nat);
    match read {
        Err(e) => (seq![], read_error_text(e), rest),
        Ok(message) => match video_payload_spec(message) {
            Err(code) => (seq![], unknown_type_text(code), rest),
            Ok(None) => decode_run(rest),
            Ok(Some(payload)) => {
                let (payloads, end, left) = decode_run(rest);
                (seq![payload] + payloads, end, left)
            },
        },
    }
}

/// What the receiving side of a client tells the window.
#[derive(Debug)]
pub enum ReceiveEvent {
    /// The latest frame.
    Frame(CpuRgbaFrame),
    /// The connection is over.
    Error(String),
}

/// The payloads that the decoder is handed out of those that are to be decoded: the ones whose
/// crops fit.
pub open spec fn fitting(payloads: Seq<Seq<u8>>) -> Seq<Seq<u8>>
    decreases payloads.len(),
{
    if payloads.len() == 0 {
        seq![]
    } else if crops_fit(payloads.last()) {
        fitting(payloads.drop_last()).push(payloads.last())
    } else {
        fitting(payloads.drop_last())
    }
}

/// Where the receiving side leaves what the window is to hear next.
pub struct LatestEvent {
    /// What the window has not heard yet.
    pub event: Option<ReceiveEvent>,
    /// All that was ever left here, in order.
    pub told: Ghost<Seq<ReceiveEvent>>,
}

impl LatestEvent {
    /// Whether this is `before`, with `news` left there one after the other: the last of them is
    /// what the window hears next.
    pub open spec fn was_told(self, before: LatestEvent, news: Seq<ReceiveEvent>) -> bool {
        &&& self.told@ == before.told@ + news
        &&& self.event == (if news.len() == 0 {
            before.event
        } else {
            Some(news.last())
        })
    }

    /// What was left here since `before`.
    pub open spec fn news_since(self, before: LatestEvent) -> Seq<ReceiveEvent> {
        self.told@.skip(before.told@.len() as int)
    }

    /// Nothing to hear yet.
    pub fn new() -> (latest: LatestEvent)
        ensures
            latest.event is None,
            latest.told@ == Seq::<ReceiveEvent>::empty(),
    {
        LatestEvent { event: None, told: Ghost(Seq::empty()) }
    }

    /// Tells the window something, in the place of what it has not heard yet.
    pub fn publish(&mut self, event: ReceiveEvent)
        ensures
            final(self).event == Some(event),
            final(self).told@ == old(self).told@.push(event),
    {
        self.told = Ghost(self.told@.push(event));
        self.event = Some(event);
    }

    /// The window hears what there is to hear.
    pub fn take(&mut self) -> (event: Option<ReceiveEvent>)
        ensures
            event == old(self).event,
            final(self).event is None,
            final(self).told@ == old(self).told@,
    {
        self.event.take()
    }
}

/// Whether `news` are the frames of `pictures`: one for each picture that can be shown, in order.
pub open spec fn told_frames(
    news: Seq<ReceiveEvent>,
    pictures: Seq<Option<DecodedYUV<'static>>>,
) -> bool
    decreases pictures.len(),
{
    if pictures.len() == 0 {
        news.len() == 0
    } else {
        match pictures.last() {
            Some(picture) if can_be_shown(picture) => {
                &&& news.len() > 0
                &&& news.last() matches ReceiveEvent::Frame(frame)
                &&& is_frame_of(frame, picture)
                &&& told_frames(news.drop_last(), pictures.drop_last())
            },
            _ => told_frames(news, pictures.drop_last()),
        }
    }
}

/// Decodes message after message, and leaves the frame of each picture that can be shown in
/// `latest`, until a message cannot be read or is of an unknown type. There is no other end.
pub fn decode_frames<C: Fn(Moment) -> u128>(
    decoder: &mut Decoder,
    reader: &mut &[u8],
    latest: &mut LatestEvent,
    clock: &C,
) -> (end: Result<(), String>)
    requires
        was_given_fitting_crops(*old(decoder)),
        forall|moment: Moment| #[trigger] clock.requires((moment,)),
    ensures
        was_given_fitting_crops(*final(decoder)),
        end matches Err(text) && text@ == decode_run(old(reader)@).1,
        final(reader)@ == decode_run(old(reader)@).2,
        decoder_packets(*final(decoder)) == decoder_packets(*old(decoder)) + fitting(
            decode_run(old(reader)@).0,
        ),
        ({
            let before = decoder_pictures(*old(decoder)).len() as int;
            let pictures = decoder_pictures(*final(decoder));
            let news = final(latest).news_since(*old(latest));
            &&& pictures.len() == before + fitting(decode_run(old(reader)@).0).len()
            &&& pictures.subrange(0, before) == decoder_pictures(*old(decoder))
            &&& final(latest).was_told(*old(latest), news)
            &&& told_frames(news, pictures.subrange(before, pictures.len() as int))
        }),
{
    let ghost before = decoder_pictures(*decoder);
    let ghost mut seen: Seq<Seq<u8>> = seq![];
    let ghost mut given: Seq<Option<DecodedYUV<'static>>> = seq![];
    let ghost mut news: Seq<ReceiveEvent> = seq![];
    assert(seen + decode_run(reader@).0 =~= decode_run(reader@).0);
    assert(decoder_packets(*decoder) + fitting(seen) =~= decoder_packets(*decoder));
    assert(before + given =~= before);
    assert(latest.told@ + news =~= latest.told@);
    loop
        invariant
            forall|moment: Moment| #[trigger] clock.requires((moment,)),
            was_given_fitting_crops(*decoder),
            before == decoder_pictures(*old(decoder)),
            decode_run(old(reader)@).0 == seen + decode_run(reader@).0,
            decode_run(old(reader)@).1 == decode_run(reader@).1,
            decode_run(old(reader)@).2 == decode_run(reader@).2,
            decoder_packets(*decoder) == decoder_packets(*old(decoder)) + fitting(seen),
            decoder_pictures(*decoder) == before + given,
            given.len() == fitting(seen).len(),
            latest.was_told(*old(latest), news),
            told_frames(news, given),
        decreases reader@.len(),
    {
        let ghost bytes = reader@;
        proof {
            let pictures = before + given;
            assert(pictures.subrange(0, before.len() as int) =~= before);
            assert(pictures.subrange(before.len() as int, pictures.len() as int) =~= given);
            assert(latest.news_since(*old(latest)) =~= news);
        }
        let message: Vec<u8> = match read_message(reader) {
            Ok(message) => message,
            Err(e) => {
                assert(seen + decode_run(bytes).0 =~= seen);
                return Err(read_error_message(e));
            },
        };
        match decode_message(decoder, &message, clock) {
            Err(text) => {
                assert(seen + decode_run(bytes).0 =~= seen);
                return Err(text);
            },
            Ok(decoded) => {
                proof {
                    if let Ok(Some(payload)) = video_payload_spec(message@) {
                        assert(seen + decode_run(bytes).0 =~= seen.push(payload) + decode_run(
                            reader@,
                        ).0);
                        assert(seen.push(payload).drop_last() =~= seen);
                        if crops_fit(payload) {
                            assert(decoder_packets(*decoder) =~= decoder_packets(*old(decoder))
                                + fitting(seen).push(payload));
                            let picture = decoder_pictures(*decoder).last();
                            assert(decoder_pictures(*decoder) =~= before + given.push(picture));
                            assert(given.push(picture).drop_last() =~= given);
                            given = given.push(picture);
                        }
                        seen = seen.push(payload);
                    }
                }
                if let Some(decoded) = decoded {
                    let event = ReceiveEvent::Frame(decoded.frame);
                    proof {
                        assert(news.push(event).drop_last() =~= news);
                        assert(latest.told@.push(event) =~= old(latest).told@ + news.push(event));
                        news = news.push(event);
                    }
                    latest.publish(event);
                }
            },
        }
    }
}

/// What is told to the window when decoding has ended.
pub fn end_event(result: Result<(), String>) -> (event: Option<ReceiveEvent>)
    ensures
        event == (match result {
            Ok(()) => None,
            Err(error) => Some(ReceiveEvent::Error(error)),
        }),
{
    match result {
        Ok(()) => None,
        Err(error) => Some(ReceiveEvent::Error(error)),
    }
}

/// Whether `news` are the frames of the pictures that some new decoder gave for `packets`.
pub open spec fn are_frames_of(news: Seq<ReceiveEvent>, packets: Seq<Seq<u8>>) -> bool {
    exists|decoder: Decoder| #[trigger]
        decoder_packets(decoder) == packets && told_frames(news, decoder_pictures(decoder))
}

/// Receives until the end with a decoder that was opened. The window is told the frame of each
/// picture, and at last why it ended: what [`decode_run`] says of the stream, or, with the stream
/// left alone, why there is no decoder.
pub fn receive_with<C: Fn(Moment) -> u128>(
    opened: Result<Decoder, String>,
    reader: &mut &[u8],
    latest: &mut LatestEvent,
    clock: &C,
)
    requires
        opened matches Ok(decoder) ==> {
            &&& decoder_packets(decoder) == Seq::<Seq<u8>>::empty()
            &&& decoder_pictures(decoder) == Seq::<Option<DecodedYUV<'static>>>::empty()
        },
        forall|moment: Moment| #[trigger] clock.requires((moment,)),
    ensures
        ({
            let news = final(latest).news_since(*old(latest));
            &&& final(latest).was_told(*old(latest), news)
            &&& news.len() > 0
            &&& news.last() matches ReceiveEvent::Error(text)
            &&& match opened {
                Ok(_) => {
                    &&& text@ == decode_run(old(reader)@).1
                    &&& final(reader)@ == decode_run(old(reader)@).2
                    &&& are_frames_of(news.drop_last(), fitting(decode_run(old(reader)@).0))
                },
                Err(error) => {
                    &&& text == error
                    &&& final(reader)@ == old(reader)@
                    &&& news.len() == 1
                },
            }
        }),
{
    let ghost mut frames: Seq<ReceiveEvent> = seq![];
    let result = match opened {
        Ok(mut decoder) => {
            let end = decode_frames(&mut decoder, reader, latest, clock);
            proof {
                frames = latest.news_since(*old(latest));
                let packets = fitting(decode_run(old(reader)@).0);
                assert(decoder_packets(decoder) =~= packets);
                let pictures = decoder_pictures(decoder);
                assert(pictures.subrange(0, pictures.len() as int) =~= pictures);
                assert(are_frames_of(frames, packets));
            }
            end
        },
        Err(text) => {
            assert(latest.told@ =~= old(latest).told@ + frames);
            Err(text)
        },
    };
    if let Some(event) = end_event(result) {
        latest.publish(event);
        proof {
            assert(latest.told@ =~= old(latest).told@ + frames.push(event));
            assert(latest.news_since(*old(latest)) =~= frames.push(event));
            assert(frames.push(event).drop_last() =~= frames);
        }
    }
}

/// Receives until the end. The window is told the frame of each picture, and at last why it ended:
/// what [`decode_run`] says of the stream, or, with the stream left alone, why there is no decoder.
pub fn receive_frames<C: Fn(Moment) -> u128>(
    reader: &mut &[u8],
    latest: &mut LatestEvent,
    clock: &C,
)
    requires
        forall|moment: Moment| #[trigger] clock.requires((moment,)),
    ensures
        ({
            let news = final(latest).news_since(*old(latest));
            &&& final(latest).was_told(*old(latest), news)
            &&& news.len() > 0
            &&& news.last() matches ReceiveEvent::Error(text)
            &&& {
                ||| {
                    &&& text@ == decode_run(old(reader)@).1
                    &&& final(reader)@ == decode_run(old(reader)@).2
                    &&& are_frames_of(news.drop_last(), fitting(decode_run(old(reader)@).0))
                }
                ||| {
                    &&& is_codec_error(text)
                    &&& final(reader)@ == old(reader)@
                    &&& news.len() == 1
                }
            }
        }),
{
    receive_with(open_decoder(), reader, latest, clock);
}

/// The window sees the latest picture that can be shown: the last frame that it is told of is that
/// picture's.
pub proof fn the_latest_picture_wins(
    news: Seq<ReceiveEvent>,
    earlier: Seq<Option<DecodedYUV<'static>>>,
    picture: DecodedYUV<'static>,
    later: Seq<Option<DecodedYUV<'static>>>,
)
    requires
        told_frames(news, earlier.push(Some(picture)) + later),
        can_be_shown(picture),
        forall|i: int|
            0 <= i < later.len() ==> ((#[trigger] later[i]) matches Some(p) ==> !can_be_shown(p)),
    ensures
        news.len() > 0,
        news.last() matches ReceiveEvent::Frame(frame) && is_frame_of(frame, picture),
    decreases later.len(),
{
    let all = earlier.push(Some(picture)) + later;
    if later.len() == 0 {
        assert(all =~= earlier.push(Some(picture)));
    } else {
        assert(all.drop_last() =~= earlier.push(Some(picture)) + later.drop_last());
        assert(all.last() == later[later.len() - 1]);
        the_latest_picture_wins(news, earlier, picture, later.drop_last());
    }
}

/// Where all crops fit, every payload is handed to the decoder, as it came and in order.
pub proof fn fitting_payloads_are_all_decoded(payloads: Seq<Seq<u8>>)
    requires
        forall|i: int| 0 <= i < payloads.len() ==> crops_fit(#[trigger] payloads[i]),
    ensures
        fitting(payloads) == payloads,
    decreases payloads.len(),
{
    if payloads.len() > 0 {
        fitting_payloads_are_all_decoded(payloads.drop_last());
        assert(payloads.drop_last().push(payloads.last()) =~= payloads);
    }
}

/// What the window is told to do about its frame.
#[derive(Debug)]
pub enum PollAction {
    Nothing,
    /// Take the frame away.
    ClearFrame,
    /// Show this frame.
    Show(VideoFrame),
    /// Give the connection up, with these words, and stop looking.
    ConnectionLost(String),
}

/// When the frame in the window came.
#[derive(Debug)]
pub struct FramePoll {
    /// The clock when the last frame came, until it is too old. In nanoseconds.
    pub last_frame_at: Option<u128>,
}

/// What is said when the connection is given up.
pub open spec fn connection_lost_text(message: Seq<char>) -> Seq<char> {
    "Connection lost: "@ + message
}

/// What is said when the connection is given up.
pub fn connection_lost_message(message: &str) -> (text: String)
    ensures
        text@ == connection_lost_text(message@),
{
    joined("Connection lost: ", message)
}

impl FramePoll {
    /// No frame has come yet.
    pub fn new() -> (poll: FramePoll)
        ensures
            poll.last_frame_at is None,
    {
        FramePoll { last_frame_at: None }
    }

    /// Whether the frame in the window is too old.
    pub open spec fn is_stale(self, now: u128) -> bool {
        self.last_frame_at matches Some(at) && elapsed_spec(at, now) >= FRAME_STALE_TIMEOUT
    }

    /// What looking for news at `now` leads to.
    pub open spec fn polled(
        self,
        now: u128,
        event: Option<ReceiveEvent>,
        after: FramePoll,
        action: PollAction,
    ) -> bool {
        match event {
            None => if self.is_stale(now) {
                after.last_frame_at is None && action == PollAction::ClearFrame
            } else {
                after == self && action == PollAction::Nothing
            },
            Some(ReceiveEvent::Frame(frame)) => {
                &&& after.last_frame_at == Some(now)
                &&& action == PollAction::Show(VideoFrame::CpuRgba(frame))
            },
            Some(ReceiveEvent::Error(message)) => {
                &&& after == self
                &&& action matches PollAction::ConnectionLost(text)
                &&& text@ == connection_lost_text(message@)
            },
        }
    }

    /// Looks for news: a new frame is shown, an error ends the connection, and a frame that has
    /// stood for [`FRAME_STALE_TIMEOUT`] is taken away.
    pub fn poll(&mut self, now: u128, event: Option<ReceiveEvent>) -> (action: PollAction)
        ensures
            old(self).polled(now, event, *final(self), action),
    {
        match event {
            None => {
                if let Some(at) = self.last_frame_at {
                    if elapsed_since(at, now) >= FRAME_STALE_TIMEOUT {
                        self.last_frame_at = None;
                        return PollAction::ClearFrame;
                    }
                }
                PollAction::Nothing
            },
            Some(ReceiveEvent::Frame(frame)) => {
                self.last_frame_at = Some(now);
                PollAction::Show(VideoFrame::CpuRgba(frame))
            },
            Some(ReceiveEvent::Error(message)) => PollAction::ConnectionLost(
                connection_lost_message(message.as_str()),
            ),
        }
    }

    /// A frame is taken away once: until the next one comes, looking for news again leaves the
    /// window alone.
    pub proof fn a_stale_frame_is_cleared_once(
        self,
        now: u128,
        after: FramePoll,
        later: u128,
        last: FramePoll,
        action: PollAction,
    )
        requires
            self.polled(now, None, after, PollAction::ClearFrame),
            after.polled(later, None, last, action),
        ensures
            action == PollAction::Nothing,
            last == after,
    {
    }

    /// A frame is never taken away before its time.
    pub proof fn a_frame_stays_for_its_time(
        self,
        at: u128,
        frame: CpuRgbaFrame,
        shown: FramePoll,
        show: PollAction,
        now: u128,
        after: FramePoll,
        action: PollAction,
    )
        requires
            self.polled(at, Some(ReceiveEvent::Frame(frame)), shown, show),
            now < at + FRAME_STALE_TIMEOUT,
            shown.polled(now, None, after, action),
        ensures
            action == PollAction::Nothing,
            after == shown,
    {
    }
}

/// A video message that is not too long is decoded as it was sent, and what follows it is decoded
/// next.
pub proof fn sent_video_is_decoded(payload: Seq<u8>, rest: Seq<u8>)
    requires
        0 < payload.len() < MAX_MESSAGE_BYTES,
    ensures
        decode_run(message_bytes(MessageType::Video, payload) + rest) == (
            seq![payload] + decode_run(rest).0,
            decode_run(rest).1,
            decode_run(rest).2,
        ),
{
    reading_gives_back_the_message(MessageType::Video, payload, rest);
    let body = message_body(MessageType::Video, payload);
    assert(video_payload_spec(body) == Ok::<Option<Seq<u8>>, u8>(Some(payload)));
}

/// Pings, disconnects and video without a payload leave no trace at the receiving end.
pub proof fn other_messages_are_passed_over(
    message_type: MessageType,
    payload: Seq<u8>,
    rest: Seq<u8>,
)
    requires
        payload.len() < MAX_MESSAGE_BYTES,
        message_type != MessageType::Video || payload.len() == 0,
    ensures
        decode_run(message_bytes(message_type, payload) + rest) == decode_run(rest),
{
    reading_gives_back_the_message(message_type, payload, rest);
    let body = message_body(message_type, payload);
    assert(video_payload_spec(body) == Ok::<Option<Seq<u8>>, u8>(None));
}

impl FramePoll {
    /// Every frame that comes is shown, whatever was shown before and however long ago, and from
    /// then on the frame counts as new.
    pub proof fn every_frame_is_shown(
        self,
        now: u128,
        frame: CpuRgbaFrame,
        after: FramePoll,
        action: PollAction,
    )
        requires
            self.polled(now, Some(ReceiveEvent::Frame(frame)), after, action),
        ensures
            action == PollAction::Show(VideoFrame::CpuRgba(frame)),
            after.last_frame_at == Some(now),
    {
    }

    /// Without news the window is left alone for ten seconds after a frame came. Then the frame is
    /// taken away, and there is none to be taken away after that.
    pub proof fn a_frame_goes_after_ten_seconds(
        self,
        now: u128,
        after: FramePoll,
        action: PollAction,
    )
        requires
            self.polled(now, None, after, action),
        ensures
            match self.last_frame_at {
                Some(at) if now - at >= 10_000_000_000 => {
                    &&& action == PollAction::ClearFrame
                    &&& after.last_frame_at is None
                },
                _ => {
                    &&& action == PollAction::Nothing
                    &&& after == self
                },
            },
    {
    }

    /// An error gives the connection up, whatever is shown, and says why in its own words.
    pub proof fn an_error_is_reported_in_its_own_words(
        self,
        now: u128,
        message: String,
        after: FramePoll,
        action: PollAction,
    )
        requires
            self.polled(now, Some(ReceiveEvent::Error(message)), after, action),
        ensures
            action matches PollAction::ConnectionLost(text) && text@ == "Connection lost: "@
                + message@,
            connection_lost_text(message@) == "Connection lost: "@ + message@,
            after == self,
    {
    }
}

/// Every picture that can be converted becomes a frame: its rows lie in its planes, the lengths are
/// in range, and there is room for its pixels. Nothing else is asked of it.
pub proof fn every_sound_picture_becomes_a_frame(picture: DecodedYUV<'_>)
    requires
        picture_size(picture).0 <= 2147483647,
        picture_size(picture).1 <= 2147483647,
        picture_size(picture).1 > 0 ==> {
            &&& picture_size(picture).1 % 2 == 0
            &&& picture_size(picture).0 <= picture_strides(picture).0
            &&& picture_size(picture).0 <= 2 * picture_strides(picture).1
            &&& picture_size(picture).0 <= 2 * picture_strides(picture).2
            &&& picture_size(picture).1 * picture_strides(picture).0 <= 2147483647
            &&& picture_size(picture).1 * picture_strides(picture).1 <= 2147483647
        },
        picture_size(picture).0 * picture_size(picture).1 * 4 <= usize::MAX,
    ensures
        can_be_shown(picture),
{
}

/// What can be shown is what `openh264` can convert into the memory at hand, no less and no more.
pub proof fn what_can_be_converted_can_be_shown(picture: DecodedYUV<'_>)
    ensures
        can_be_shown(picture) <==> rows_in_planes(picture_size(picture), picture_strides(picture))
            && picture_size(picture).0 * picture_size(picture).1 * 4 <= usize::MAX,
{
}

/// A frame is its picture: the same size, four bytes for each pixel, and the bytes that `openh264`
/// makes of the picture, in their order.
pub proof fn a_frame_is_its_picture(frame: CpuRgbaFrame, picture: DecodedYUV<'_>)
    requires
        is_frame_of(frame, picture),
    ensures
        frame.width == picture_size(picture).0,
        frame.height == picture_size(picture).1,
        frame.pixels@.len() == 4 * picture_size(picture).0 * picture_size(picture).1,
        is_rgba_of(picture, frame.pixels@),
{
}

/// What is decoded of a message is what follows its first byte, if that byte is 1 and something
/// follows. Nothing is decoded of an empty message, a ping, a disconnect or video without a
/// payload, and any other first byte is an error.
pub proof fn only_video_is_decoded(message: Seq<u8>)
    ensures
        message.len() > 1 && message[0] == 1 ==> video_payload_spec(message) == Ok::<
            Option<Seq<u8>>,
            u8,
        >(Some(message.subrange(1, message.len() as int))),
        message.len() == 0 ==> video_payload_spec(message) == Ok::<Option<Seq<u8>>, u8>(None),
        message.len() == 1 && message[0] == 1 ==> video_payload_spec(message) == Ok::<
            Option<Seq<u8>>,
            u8,
        >(None),
        message.len() > 0 && (message[0] == 0 || message[0] == 2) ==> video_payload_spec(message)
            == Ok::<Option<Seq<u8>>, u8>(None),
        message.len() > 0 && message[0] > 2 ==> video_payload_spec(message) == Err::<
            Option<Seq<u8>>,
            u8,
        >(message[0]),
{
}

/// A client goes through the messages one by one: a payload of video is decoded before what follows
/// it, other messages are passed over, and a type that it does not know is the end, with what
/// follows left unread.
pub proof fn messages_are_taken_one_by_one(body: Seq<u8>, rest: Seq<u8>)
    requires
        body.len() <= 16777216,
    ensures
        ({
            let (payloads, end, left) = decode_run(rest);
            let run = decode_run(frame_bytes(body) + rest);
            if body.len() > 0 && body[0] > 2 {
                run == (
                    Seq::<Seq<u8>>::empty(),
                    "unknown message type: "@ + decimal(body[0] as nat),
                    rest,
                )
            } else if body.len() > 1 && body[0] == 1 {
                run == (seq![body.subrange(1, body.len() as int)] + payloads, end, left)
            } else {
                run == (payloads, end, left)
            }
        }),
{
    reading_gives_back_the_frame(body, rest, MAX_MESSAGE_BYTES as nat);
}

/// A stream that breaks off, in a length or in a message, is the end, and nothing is left of it. So
/// is a message that is too long, which is not even read.
pub proof fn a_stream_that_breaks_off_is_the_end(bytes: Seq<u8>)
    ensures
        bytes.len() < 4 ==> decode_run(bytes) == (
            Seq::<Seq<u8>>::empty(),
            "failed to fill whole buffer"@,
            Seq::<u8>::empty(),
        ),
        bytes.len() >= 4 ==> ({
            let n = bytes[0] * 16777216 + bytes[1] * 65536 + bytes[2] * 256 + bytes[3];
            &&& n <= 16777216 && bytes.len() < 4 + n ==> decode_run(bytes) == (
                Seq::<Seq<u8>>::empty(),
                "failed to fill whole buffer"@,
                Seq::<u8>::empty(),
            )
            &&& n > 16777216 ==> decode_run(bytes) == (
                Seq::<Seq<u8>>::empty(),
                "message too large: "@ + decimal(n as nat) + " bytes"@,
                bytes.subrange(4, bytes.len() as int),
            )
        }),
{
}

/// A payload is handed to the decoder if and only if its crops fit, behind those that were handed
/// to it before.
pub proof fn only_what_does_not_fit_is_left_out(payloads: Seq<Seq<u8>>, payload: Seq<u8>)
    ensures
        fitting(Seq::empty()) == Seq::<Seq<u8>>::empty(),
        crops_fit(payload) ==> fitting(payloads.push(payload)) == fitting(payloads).push(payload),
        !crops_fit(payload) ==> fitting(payloads.push(payload)) == fitting(payloads),
{
    assert(payloads.push(payload).drop_last() =~= payloads);
}

/// Where every picture can be shown, the window is told one frame for each, and they are the
/// pictures' own, in order.
pub proof fn each_picture_is_told_once(
    news: Seq<ReceiveEvent>,
    pictures: Seq<Option<DecodedYUV<'static>>>,
)
    requires
        told_frames(news, pictures),
        forall|i: int|
            0 <= i < pictures.len() ==> ((#[trigger] pictures[i]) matches Some(p) && can_be_shown(
                p,
            )),
    ensures
        news.len() == pictures.len(),
        forall|i: int|
            0 <= i < pictures.len() ==> ((#[trigger] news[i]) matches ReceiveEvent::Frame(frame)
                && is_frame_of(frame, pictures[i]->0)),
    decreases pictures.len(),
{
    if pictures.len() > 0 {
        let last = pictures.len() - 1;
        assert(pictures[last] == pictures.last());
        assert forall|i: int| 0 <= i < last implies ((#[trigger] pictures.drop_last()[i]) matches Some(
            p,
        ) && can_be_shown(p)) by {
            assert(pictures.drop_last()[i] == pictures[i]);
        }
        each_picture_is_told_once(news.drop_last(), pictures.drop_last());
        assert forall|i: int| 0 <= i < pictures.len() implies ((
        #[trigger] news[i]) matches ReceiveEvent::Frame(frame) && is_frame_of(
            frame,
            pictures[i]->0,
        )) by {
            if i < last {
                assert(news.drop_last()[i] == news[i]);
                assert(pictures.drop_last()[i] == pictures[i]);
            }
        }
    }
}

/// The window is told nothing of a payload that gave no picture, or none that can be shown.
pub proof fn nothing_is_told_of_no_picture(
    news: Seq<ReceiveEvent>,
    pictures: Seq<Option<DecodedYUV<'static>>>,
    nothing: Option<DecodedYUV<'static>>,
)
    requires
        nothing matches Some(picture) ==> !can_be_shown(picture),
    ensures
        told_frames(news, pictures.push(nothing)) <==> told_frames(news, pictures),
{
    assert(pictures.push(nothing).drop_last() =~= pictures);
}

impl LatestEvent {
    /// What the window hears next is the last thing that it was told, and what it was told before
    /// is not forgotten.
    pub proof fn the_last_word_is_heard(self, before: LatestEvent, news: Seq<ReceiveEvent>)
        requires
            self.was_told(before, news),
        ensures
            self.told@ == before.told@ + news,
            news.len() > 0 ==> self.event == Some(news[news.len() - 1]),
            news.len() == 0 ==> self.event == before.event,
            self.news_since(before) == news,
    {
        assert(self.news_since(before) =~= news);
    }
}

/// A time that was taken lies between two readings of the clock, each for its own moment.
pub proof fn a_time_lies_between_its_moments<C: Fn(Moment) -> u128>(
    clock: C,
    from: Moment,
    to: Moment,
    time: u128,
)
    requires
        passed_between(clock, from, to, time),
    ensures
        exists|start: u128, end: u128|
            #![trigger clock.ensures((from,), start), clock.ensures((to,), end)]
            clock.ensures((from,), start) && clock.ensures((to,), end) && (if end >= start {
                time == end - start
            } else {
                time == 0
            }),
{
    let (start, end) = choose|start: u128, end: u128|
        #![trigger elapsed_spec(start, end)]
        clock.ensures((from,), start) && clock.ensures((to,), end) && time == elapsed_spec(
            start,
            end,
        );
    assert(clock.ensures((from,), start) && clock.ensures((to,), end));
}

/// The window is told of pictures as they come: the last thing that it is told is the frame of the
/// last picture, where that can be shown, and before that it was told of the pictures before. Of no
/// pictures it is told nothing.
pub proof fn the_window_is_told_picture_by_picture(
    news: Seq<ReceiveEvent>,
    pictures: Seq<Option<DecodedYUV<'static>>>,
    picture: DecodedYUV<'static>,
)
    ensures
        told_frames(news, Seq::empty()) <==> news.len() == 0,
        can_be_shown(picture) && told_frames(news, pictures.push(Some(picture))) ==> {
            &&& news.len() > 0
            &&& news[news.len() - 1] matches ReceiveEvent::Frame(frame)
            &&& is_frame_of(frame, picture)
            &&& told_frames(news.drop_last(), pictures)
        },
{
    assert(pictures.push(Some(picture)).drop_last() =~= pictures);
}

/// What the window was told of a stream are the frames of the pictures that one decoder gave for
/// exactly those packets.
pub proof fn the_window_is_told_what_was_decoded(news: Seq<ReceiveEvent>, packets: Seq<Seq<u8>>)
    requires
        are_frames_of(news, packets),
    ensures
        exists|decoder: Decoder| #[trigger]
            decoder_packets(decoder) == packets && told_frames(news, decoder_pictures(decoder)),
{
}

} // verus!
