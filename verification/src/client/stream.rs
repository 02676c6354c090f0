//! Sharing a window: capturing, encoding and sending it, frame by frame.

use crate::client::h264_encoder::{encode, open_encoder};
use crate::client::message::{
    a_message_is_a_length_a_type_and_a_payload, message_bytes, write_message, MessageType,
};
use crate::client::share::CapturePlatform;
use crate::client::stats::{ShareSendReport, ShareSendStats};
use crate::codec::{
    bgra_planes, config_settings, encoder_bits, encoder_pictures, encoder_settings, is_codec_error,
    too_large_to_encode, yuv_dimensions, yuv_from_bgra, yuv_image, EncoderSettings, YuvImage,
};
use openh264::encoder::{
    BitRate, Complexity, Encoder, EncoderConfig, FrameRate, IntraFramePeriod, Level, Profile,
    QpRange, RateControlMode, UsageType,
};
use openh264::formats::YUVBuffer;
use vstd::prelude::*;

verus! {

/// Frames a second.
pub const STREAM_FPS: u64 = 30;

/// The time from one frame to the next: a second by [`STREAM_FPS`], in whole milliseconds, given
/// in nanoseconds.
pub const STREAM_FRAME_INTERVAL: u128 = 1000 / 30 * 1_000_000;

/// Bits a second.
pub const STREAM_BITRATE_BPS: u32 = 2_000_000;

/// How fine and how coarse the encoder may get.
pub const STREAM_QP_MIN: u8 = 20;

pub const STREAM_QP_MAX: u8 = 42;

/// The settings of the encoder for a shared window.
pub open spec fn stream_settings(frame_rate: FrameRate) -> EncoderSettings {
    EncoderSettings {
        usage_type: UsageType::ScreenContentRealTime,
        bitrate_bps: STREAM_BITRATE_BPS,
        max_frame_rate: frame_rate,
        rate_control_mode: RateControlMode::Bitrate,
        profile: Some(Profile::Baseline),
        level: Some(Level::Level_4_0),
        qp_min: STREAM_QP_MIN,
        qp_max: STREAM_QP_MAX,
        intra_frame_period: STREAM_FPS as u32,
        complexity: Complexity::Low,
        scene_change_detect: true,
        adaptive_quantization: false,
        background_detection: false,
        skip_frames: true,
    }
}

/// The configuration of the encoder for a shared window. `frame_rate` is [`STREAM_FPS`] in the
/// encoder's own measure.
pub fn stream_config(frame_rate: FrameRate) -> (config: EncoderConfig)
    ensures
        config_settings(config) == stream_settings(frame_rate),
{
    EncoderConfig::new().usage_type(UsageType::ScreenContentRealTime).bitrate(
        BitRate::from_bps(STREAM_BITRATE_BPS),
    ).max_frame_rate(frame_rate).rate_control_mode(RateControlMode::Bitrate).profile(
        Profile::Baseline,
    ).level(Level::Level_4_0).qp(QpRange::new(STREAM_QP_MIN, STREAM_QP_MAX)).intra_frame_period(
        IntraFramePeriod::from_num_frames(STREAM_FPS as u32),
    ).complexity(Complexity::Low).scene_change_detect(true).adaptive_quantization(
        false,
    ).background_detection(false).skip_frames(true)
}

/// Where the clock that paces a stream stands after a frame was sent, and how long to wait before
/// the next. A stream that is late by more than a frame makes no attempt to catch up.
pub open spec fn paced(next_frame_at: int, now: int) -> (int, Option<int>) {
    let next = next_frame_at + STREAM_FRAME_INTERVAL;
    if now < next {
        (next, Some(next - now))
    } else if now - next > STREAM_FRAME_INTERVAL {
        (now, None)
    } else {
        (next, None)
    }
}

/// The clock that paces a stream.
#[derive(Debug)]
pub struct FramePacer {
    /// When the next frame is due, in nanoseconds.
    pub next_frame_at: u128,
}

impl FramePacer {
    /// A clock for a stream that starts at `now`.
    pub fn new(now: u128) -> (pacer: FramePacer)
        ensures
            pacer.next_frame_at == now,
    {
        FramePacer { next_frame_at: now }
    }

    /// Whether the clock has not run out.
    pub open spec fn has_room(self) -> bool {
        self.next_frame_at + STREAM_FRAME_INTERVAL <= u128::MAX
    }

    /// Moves on to the next frame. Gives the time to wait for it, if it is not due yet.
    pub fn advance(&mut self, now: u128) -> (wait: Option<u128>)
        requires
            old(self).has_room(),
        ensures
            ({
                let (next, due) = paced(old(self).next_frame_at as int, now as int);
                &&& final(self).next_frame_at == next
                &&& match wait {
                    Some(time) => due == Some(time as int),
                    None => due is None,
                }
            }),
    {
        self.next_frame_at += STREAM_FRAME_INTERVAL;
        if now < self.next_frame_at {
            Some(self.next_frame_at - now)
        } else {
            if now - self.next_frame_at > STREAM_FRAME_INTERVAL {
                self.next_frame_at = now;
            }
            None
        }
    }
}

/// Where the clock stands after frames were sent at `times`.
pub open spec fn paced_run(next_frame_at: int, times: Seq<int>) -> int
    decreases times.len(),
{
    if times.len() == 0 {
        next_frame_at
    } else {
        paced(paced_run(next_frame_at, times.drop_last()), times.last()).0
    }
}

/// As long as no frame is sent later than a frame after it was due, the clock does not drift: the
/// frames are due at multiples of the interval, however the times scatter.
pub proof fn a_stream_on_time_does_not_drift(start: int, times: Seq<int>)
    requires
        forall|i: int|
            0 <= i < times.len() ==> #[trigger] times[i] <= start + (i + 2) * STREAM_FRAME_INTERVAL,
    ensures
        paced_run(start, times) == start + times.len() * STREAM_FRAME_INTERVAL,
    decreases times.len(),
{
    if times.len() > 0 {
        let n = times.len() - 1;
        let earlier = times.drop_last();
        assert forall|i: int| 0 <= i < earlier.len() implies #[trigger] earlier[i] <= start + (i
            + 2) * STREAM_FRAME_INTERVAL by {
            assert(earlier[i] == times[i]);
        }
        a_stream_on_time_does_not_drift(start, earlier);
        assert(times[n] <= start + (n + 2) * STREAM_FRAME_INTERVAL);
        let step = STREAM_FRAME_INTERVAL as int;
        assert((n + 1) * step == n * step + step) by (nonlinear_arith);
        assert((n + 2) * step == n * step + step + step) by (nonlinear_arith);
    }
}

/// The clock is never more than a frame behind, and never more than a frame ahead of a stream
/// that waits when it is told to.
pub proof fn the_clock_stays_close(next_frame_at: int, now: int)
    requires
        next_frame_at <= now,
    ensures
        ({
            let (next, wait) = paced(next_frame_at, now);
            &&& now - STREAM_FRAME_INTERVAL <= next <= now + STREAM_FRAME_INTERVAL
            &&& wait matches Some(time) ==> 0 < time <= STREAM_FRAME_INTERVAL && now + time == next
            &&& wait is None ==> next <= now
        }),
{
}

/// A picture that was encoded.
#[derive(Debug)]
pub struct EncodedFrame {
    /// The length of the bits.
    pub bytes: usize,
    /// The size of the picture.
    pub dimensions: (usize, usize),
    /// What is to be sent, if there is anything.
    pub message: Option<Vec<u8>>,
}

/// The message that carries the bits of a picture. There is none for no bits: the encoder skipped
/// the picture.
pub fn video_message(payload: &[u8]) -> (message: Option<Vec<u8>>)
    ensures
        message is Some <==> payload@.len() > 0,
        message matches Some(bytes) ==> bytes@ == message_bytes(MessageType::Video, payload@),
{
    if payload.len() == 0 {
        return None;
    }
    let mut bytes: Vec<u8> = Vec::new();
    write_message(&mut bytes, MessageType::Video, payload);
    assert(bytes@ =~= message_bytes(MessageType::Video, payload@));
    Some(bytes)
}

/// Whether `frame` stands for a picture of `size` whose bits are `payload`.
pub open spec fn is_encoded(frame: EncodedFrame, payload: Seq<u8>, size: (nat, nat)) -> bool {
    &&& frame.bytes == payload.len()
    &&& frame.dimensions.0 == size.0
    &&& frame.dimensions.1 == size.1
    &&& frame.message is Some <==> payload.len() > 0
    &&& frame.message matches Some(bytes) ==> bytes@ == message_bytes(MessageType::Video, payload)
}

/// What is to be sent of a picture, given its bits.
pub fn encoded_frame(payload: &[u8], dimensions: (usize, usize)) -> (frame: EncodedFrame)
    ensures
        is_encoded(frame, payload@, (dimensions.0 as nat, dimensions.1 as nat)),
{
    EncodedFrame { bytes: payload.len(), dimensions, message: video_message(payload) }
}

/// Whether an encoder gave bits for one more picture, and `frame` stands for them.
pub open spec fn encoded_one(before: Encoder, frame: EncodedFrame, after: Encoder) -> bool {
    let bits = encoder_bits(after);
    &&& bits.len() == encoder_bits(before).len() + 1
    &&& bits.drop_last() == encoder_bits(before)
    &&& bits.last() matches Some(payload)
    &&& is_encoded(
        frame,
        payload,
        (frame.dimensions.0 as nat, frame.dimensions.1 as nat),
    )
}

/// What is sent of a picture.
pub open spec fn sent(frame: EncodedFrame) -> Seq<u8> {
    match frame.message {
        Some(bytes) => bytes@,
        None => seq![],
    }
}

/// What is sent of pictures, one after the other.
pub open spec fn all_sent(frames: Seq<EncodedFrame>) -> Seq<u8>
    decreases frames.len(),
{
    if frames.len() == 0 {
        seq![]
    } else {
        all_sent(frames.drop_last()) + sent(frames.last())
    }
}

/// The bits of the pictures that the encoder did not skip, in order.
pub open spec fn payloads(bits: Seq<Option<Seq<u8>>>) -> Seq<Seq<u8>>
    decreases bits.len(),
{
    if bits.len() == 0 {
        seq![]
    } else {
        match bits.last() {
            Some(payload) if payload.len() > 0 => payloads(bits.drop_last()).push(payload),
            _ => payloads(bits.drop_last()),
        }
    }
}

/// What is to be done about a shared window.
#[derive(Debug)]
pub enum ShareStep {
    /// The window is gone: the stream is over.
    Finished,
    /// Send what is to be sent of a picture, then count it.
    Send(EncodedFrame),
}

/// What comes before the next picture.
#[derive(Debug)]
pub struct NextFrame {
    /// A report for the log.
    pub report: Option<ShareSendReport>,
    /// The time to wait, in nanoseconds.
    pub wait: Option<u128>,
}

/// A window that is being shared.
pub struct ShareStream {
    pub encoder: Encoder,
    pub pacer: FramePacer,
    pub stats: ShareSendStats,
}

impl ShareStream {
    /// Starts a stream at `now`, with an encoder that was opened, or says why there is none.
    pub fn with_encoder(opened: Result<Encoder, String>, now: u128) -> (stream: Result<
        ShareStream,
        String,
    >)
        ensures
            match opened {
                Ok(encoder) => {
                    &&& stream matches Ok(s)
                    &&& s.encoder == encoder
                    &&& s.pacer.next_frame_at == now
                    &&& s.stats == ShareSendStats::empty(None)
                },
                Err(text) => stream == Err::<ShareStream, String>(text),
            },
    {
        match opened {
            Ok(encoder) => Ok(
                ShareStream {
                    encoder,
                    pacer: FramePacer::new(now),
                    stats: ShareSendStats::default(),
                },
            ),
            Err(text) => Err(text),
        }
    }

    /// Starts a stream at `now`, with an encoder for a shared window that has seen nothing, or
    /// says why there is none.
    pub fn open(frame_rate: FrameRate, now: u128) -> (stream: Result<ShareStream, String>)
        ensures
            stream matches Ok(s) ==> {
                &&& encoder_settings(s.encoder) == stream_settings(frame_rate)
                &&& encoder_pictures(s.encoder) == Seq::<YuvImage>::empty()
                &&& encoder_bits(s.encoder) == Seq::<Option<Seq<u8>>>::empty()
                &&& s.pacer.next_frame_at == now
                &&& s.stats == ShareSendStats::empty(None)
            },
            stream matches Err(text) ==> is_codec_error(text),
    {
        ShareStream::with_encoder(open_encoder(stream_config(frame_rate)), now)
    }

    /// Takes what capturing gave. A picture is encoded, and its bits become a message if there are
    /// any: the encoder may skip a picture. Without a picture the stream is over.
    pub fn frame_captured(&mut self, frame: Option<&YUVBuffer>) -> (step: Result<ShareStep, String>)
        ensures
            final(self).pacer == old(self).pacer,
            final(self).stats == old(self).stats,
            encoder_settings(final(self).encoder) == encoder_settings(old(self).encoder),
            match frame {
                None => {
                    &&& step == Ok::<ShareStep, String>(ShareStep::Finished)
                    &&& final(self).encoder == old(self).encoder
                },
                Some(picture) => {
                    &&& encoder_pictures(final(self).encoder) == encoder_pictures(
                        old(self).encoder,
                    ).push(yuv_image(*picture))
                    &&& encoder_bits(final(self).encoder).len() == encoder_bits(
                        old(self).encoder,
                    ).len() + 1
                    &&& encoder_bits(final(self).encoder).drop_last() == encoder_bits(
                        old(self).encoder,
                    )
                    &&& match encoder_bits(final(self).encoder).last() {
                        Some(payload) => {
                            &&& step matches Ok(ShareStep::Send(sent))
                            &&& is_encoded(
                                sent,
                                payload,
                                (yuv_image(*picture).width, yuv_image(*picture).height),
                            )
                            &&& encoded_one(old(self).encoder, sent, final(self).encoder)
                        },
                        None => step matches Err(text) && is_codec_error(text),
                    }
                    &&& yuv_image(*picture).width <= i32::MAX && yuv_image(*picture).height
                        <= i32::MAX && too_large_to_encode(yuv_image(*picture)) ==> step is Err
                },
            },
    {
        let picture: &YUVBuffer = match frame {
            Some(picture) => picture,
            None => return Ok(ShareStep::Finished),
        };
        match encode(&mut self.encoder, picture) {
            Err(text) => Err(text),
            Ok(payload) => {
                assert(encoder_bits(self.encoder).drop_last() =~= encoder_bits(
                    old(self).encoder,
                ));
                Ok(ShareStep::Send(encoded_frame(&payload, yuv_dimensions(picture))))
            },
        }
    }

    /// What was to be sent of a picture is sent, or could not be. The picture is counted, and the
    /// stream moves on to the next. Gives a report when one is due, and the time to wait.
    pub fn frame_written(
        &mut self,
        written: Result<(), String>,
        frame: &EncodedFrame,
        now: u128,
        wait_time: u128,
        encode_time: u128,
        write_time: u128,
    ) -> (next: Result<NextFrame, String>)
        requires
            old(self).stats.has_room(wait_time, encode_time, write_time, frame.bytes),
            old(self).pacer.has_room(),
        ensures
            final(self).encoder == old(self).encoder,
            match written {
                Err(text) => {
                    &&& next == Err::<NextFrame, String>(text)
                    &&& *final(self) == *old(self)
                },
                Ok(()) => {
                    let (due_at, due) = paced(old(self).pacer.next_frame_at as int, now as int);
                    &&& next matches Ok(n)
                    &&& (final(self).stats, n.report) == old(self).stats.recorded(
                        now,
                        wait_time,
                        encode_time,
                        write_time,
                        frame.bytes,
                        frame.dimensions,
                    )
                    &&& final(self).pacer.next_frame_at == due_at
                    &&& match n.wait {
                        Some(time) => due == Some(time as int),
                        None => due is None,
                    }
                },
            },
    {
        if let Err(text) = written {
            return Err(text);
        }
        let report = self.stats.record(
            now,
            wait_time,
            encode_time,
            write_time,
            frame.bytes,
            frame.dimensions,
        );
        let wait = self.pacer.advance(now);
        Ok(NextFrame { report, wait })
    }
}

/// What a window can be captured with.
#[derive(Debug)]
pub struct ShareCaptureSource {
    pub platform: CapturePlatform,
    pub source_id: u32,
}

impl ShareCaptureSource {
    /// Picks what a window can be captured with, or says that there is nothing.
    pub fn new(platform: Option<CapturePlatform>, source_id: u32) -> (source: Result<
        ShareCaptureSource,
        String,
    >)
        ensures
            match platform {
                Some(platform) => source == Ok::<ShareCaptureSource, String>(
                    ShareCaptureSource { platform, source_id },
                ),
                None => source matches Err(text) && text@
                    == "Window sharing is only implemented for macOS and Windows."@,
            },
    {
        match platform {
            Some(platform) => Ok(ShareCaptureSource { platform, source_id }),
            None => Err("Window sharing is only implemented for macOS and Windows.".to_owned()),
        }
    }
}

/// `n`, or the even number below it.
pub open spec fn evened(n: u32) -> nat {
    (n - n % 2) as nat
}

/// The picture that the captured bytes make: at even sides, blue first.
pub open spec fn captured_picture(bytes: Seq<u8>, width: u32, height: u32) -> YuvImage {
    YuvImage {
        width: evened(width),
        height: evened(height),
        bytes: bgra_planes(bytes, evened(width), evened(height)),
    }
}

/// Turns captured bytes, blue first, into a picture for the encoder. The sides are rounded down to
/// even numbers; there is no picture if one of them is then zero.
pub fn bgra_bytes_to_yuv(bytes: &[u8], width: u32, height: u32) -> (picture: Option<YUVBuffer>)
    requires
        evened(width) > 0 && evened(height) > 0 ==> bytes@.len() == evened(width) * evened(height)
            * 4,
    ensures
        picture is Some <==> evened(width) > 0 && evened(height) > 0,
        picture matches Some(buffer) ==> {
            &&& yuv_image(buffer) == captured_picture(bytes@, width, height)
            &&& yuv_image(buffer).bytes == bgra_planes(
                bytes@,
                (width - width % 2) as nat,
                (height - height % 2) as nat,
            )
            &&& yuv_image(buffer).wf()
        },
{
    let width: u32 = width - width % 2;
    let height: u32 = height - height % 2;
    if width == 0 || height == 0 {
        return None;
    }
    Some(yuv_from_bgra(bytes, width as usize, height as usize))
}

/// The latest picture of a window, until it is taken.
pub struct LatestFrame {
    pub frame: Option<YUVBuffer>,
}

impl LatestFrame {
    pub fn new() -> (latest: LatestFrame)
        ensures
            latest.frame is None,
    {
        LatestFrame { frame: None }
    }

    /// Takes the picture. `None` if it has been taken already: then there is one to be waited
    /// for.
    pub fn take(&mut self) -> (frame: Option<YUVBuffer>)
        ensures
            frame == old(self).frame,
            final(self).frame is None,
    {
        self.frame.take()
    }

    /// Takes captured bytes and puts their picture in the place of an older one. Gives whether
    /// there is a picture.
    pub fn on_frame_arrived(&mut self, pixels: &[u8], width: u32, height: u32) -> (published: bool)
        requires
            evened(width) > 0 && evened(height) > 0 ==> pixels@.len() == evened(width) * evened(
                height,
            ) * 4,
        ensures
            published == (evened(width) > 0 && evened(height) > 0),
            published ==> (final(self).frame matches Some(buffer) && yuv_image(buffer)
                == captured_picture(pixels@, width, height)),
            !published ==> final(self).frame == old(self).frame,
    {
        match bgra_bytes_to_yuv(pixels, width, height) {
            Some(frame) => {
                self.frame = Some(frame);
                true
            },
            None => false,
        }
    }
}

/// What capturing ends with when the window is closed.
pub fn on_closed() -> (end: Result<(), String>)
    ensures
        end matches Err(text) && text@ == "Share source closed."@,
{
    Err("Share source closed.".to_owned())
}

/// The encoder's picture is made of the captured bytes themselves, in their order, at sides that are
/// the captured ones or one less, whichever is even. So the pixel at a column and a row of the
/// picture comes from the captured pixel at that column and row.
pub proof fn the_picture_is_what_was_captured(bytes: Seq<u8>, width: u32, height: u32)
    ensures
        captured_picture(bytes, width, height).width == width - width % 2,
        captured_picture(bytes, width, height).height == height - height % 2,
        captured_picture(bytes, width, height).bytes == bgra_planes(
            bytes,
            (width - width % 2) as nat,
            (height - height % 2) as nat,
        ),
{
}

/// There is a picture of every window that is at least two pixels wide and high.
pub proof fn only_slivers_have_no_picture(side: u32)
    ensures
        evened(side) > 0 <==> side >= 2,
        evened(side) % 2 == 0,
        evened(side) <= side <= evened(side) + 1,
{
}

/// What is sent of a picture are all of its bits and nothing else, as one video message: a length,
/// the byte 1 and the bits. Nothing is sent of a picture that the encoder skipped. Its size and the
/// length of its bits are what is counted.
pub proof fn all_bits_of_a_picture_are_sent(
    frame: EncodedFrame,
    payload: Seq<u8>,
    size: (nat, nat),
)
    requires
        is_encoded(frame, payload, size),
        payload.len() < 0xffff_ffff,
    ensures
        frame.bytes == payload.len(),
        frame.dimensions.0 == size.0,
        frame.dimensions.1 == size.1,
        payload.len() == 0 ==> sent(frame) == Seq::<u8>::empty(),
        payload.len() > 0 ==> {
            &&& sent(frame).len() == payload.len() + 5
            &&& sent(frame)[0] * 16777216 + sent(frame)[1] * 65536 + sent(frame)[2] * 256
                + sent(frame)[3] == payload.len() + 1
            &&& sent(frame)[4] == 1
            &&& forall|i: int| 0 <= i < payload.len() ==> #[trigger] sent(frame)[i + 5] == payload[i]
        },
{
    a_message_is_a_length_a_type_and_a_payload(MessageType::Video, payload);
}

/// What is sent of one more picture comes behind all that was sent before.
pub proof fn pictures_are_sent_in_order(frames: Seq<EncodedFrame>, frame: EncodedFrame)
    ensures
        all_sent(Seq::empty()) == Seq::<u8>::empty(),
        all_sent(frames.push(frame)) == all_sent(frames) + sent(frame),
{
    assert(frames.push(frame).drop_last() =~= frames);
}

/// Every picture for which the encoder gave bits has its payload, in order; one that was skipped or
/// refused has none.
pub proof fn every_encoded_picture_has_a_payload(
    bits: Seq<Option<Seq<u8>>>,
    payload: Seq<u8>,
)
    ensures
        payloads(Seq::empty()) == Seq::<Seq<u8>>::empty(),
        payload.len() > 0 ==> payloads(bits.push(Some(payload))) == payloads(bits).push(payload),
        payload.len() == 0 ==> payloads(bits.push(Some(payload))) == payloads(bits),
        payloads(bits.push(None)) == payloads(bits),
{
    assert(bits.push(Some(payload)).drop_last() =~= bits);
    assert(bits.push(None).drop_last() =~= bits);
}

/// The next picture is due 33 milliseconds after the last was, and is waited for until then. A
/// stream that is late does not wait; it keeps its times as long as it is late by no more than a
/// frame, and starts over from now where it is later than that.
pub proof fn pictures_are_33_milliseconds_apart(next_frame_at: int, now: int)
    ensures
        now < next_frame_at + 33_000_000 ==> paced(next_frame_at, now) == (
            next_frame_at + 33_000_000,
            Some(next_frame_at + 33_000_000 - now),
        ),
        next_frame_at + 33_000_000 <= now <= next_frame_at + 66_000_000 ==> paced(
            next_frame_at,
            now,
        ) == (next_frame_at + 33_000_000, None::<int>),
        now > next_frame_at + 66_000_000 ==> paced(next_frame_at, now) == (now, None::<int>),
{
}

/// The encoder of a shared window is set up for a screen in real time, in the baseline profile, at
/// two million bits a second and with a picture of its own every thirty.
pub proof fn a_share_is_encoded_for_a_screen(frame_rate: FrameRate)
    ensures
        ({
            let settings = stream_settings(frame_rate);
            &&& settings.usage_type == UsageType::ScreenContentRealTime
            &&& settings.bitrate_bps == 2_000_000
            &&& settings.max_frame_rate == frame_rate
            &&& settings.rate_control_mode == RateControlMode::Bitrate
            &&& settings.profile == Some(Profile::Baseline)
            &&& settings.level == Some(Level::Level_4_0)
            &&& settings.qp_min == 20
            &&& settings.qp_max == 42
            &&& settings.intra_frame_period == 30
            &&& settings.complexity == Complexity::Low
            &&& settings.scene_change_detect
            &&& !settings.adaptive_quantization
            &&& !settings.background_detection
            &&& settings.skip_frames
        }),
{
}

/// A picture that was encoded adds its bits, and nothing else, to what the encoder gave, and all of
/// them are sent.
pub proof fn one_picture_adds_its_bits(before: Encoder, frame: EncodedFrame, after: Encoder)
    requires
        encoded_one(before, frame, after),
    ensures
        exists|payload: Seq<u8>| #[trigger]
            encoder_bits(before).push(Some(payload)) == encoder_bits(after) && frame.bytes
                == payload.len() && (payload.len() > 0 ==> sent(frame) == message_bytes(
                MessageType::Video,
                payload,
            )) && (payload.len() == 0 ==> sent(frame) == Seq::<u8>::empty()),
{
    let payload = encoder_bits(after).last()->0;
    assert(encoder_bits(before).push(Some(payload)) =~= encoder_bits(after));
}

/// The clock of a stream runs for as long as there are numbers for it, and ticks thirty times a
/// second, in whole milliseconds.
pub proof fn the_clock_does_not_run_out(pacer: FramePacer)
    ensures
        pacer.next_frame_at <= u128::MAX - 33_000_000 ==> pacer.has_room(),
        STREAM_FPS == 30,
        STREAM_FRAME_INTERVAL == 33_000_000,
{
}

} // verus!
