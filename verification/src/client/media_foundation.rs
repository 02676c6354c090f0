//! Encoding pictures with Media Foundation: what the encoder is told, what it is fed, and what is
//! made of its answers.

use crate::codec::{yuv_dimensions, yuv_image, yuv_u, yuv_v, yuv_y};
use crate::text::joined;
use openh264::formats::YUVBuffer;
use vstd::prelude::*;
use vstd::slice::*;

verus! {

/// Media Foundation counts time in units of 100 nanoseconds.
pub const HNS_PER_SECOND: i64 = 10_000_000;

/// The least space that is made for the bits of a picture.
pub const MIN_OUTPUT_BUFFER_SIZE: u32 = 1024 * 1024;

/// What is said in front of every error.
pub const ERROR_PREFIX: &'static str = "Media Foundation H.264 encoder error: ";

/// An error in words, given what Windows says of it.
pub fn format_windows_error(error: &str) -> (text: String)
    ensures
        text@ == ERROR_PREFIX@ + error@,
{
    joined(ERROR_PREFIX, error)
}

/// Two numbers in one, the first in the upper half.
pub fn pack_ratio(numerator: u32, denominator: u32) -> (packed: u64)
    ensures
        packed == numerator * 0x1_0000_0000 + denominator,
{
    assert(((numerator as u64) << 32) | denominator as u64 == numerator * 0x1_0000_0000
        + denominator) by (bit_vector);
    ((numerator as u64) << 32) | denominator as u64
}

/// An attribute of a media type.
#[derive(Clone, Copy, Debug, PartialEq, Eq, Structural)]
pub enum AttributeKey {
    MajorType,
    Subtype,
    AvgBitrate,
    FrameSize,
    FrameRate,
    PixelAspectRatio,
    InterlaceMode,
}

/// The value of an attribute of a media type.
#[derive(Clone, Copy, Debug, PartialEq, Eq, Structural)]
pub enum AttributeValue {
    /// The major type of all video.
    Video,
    /// The subtype of the bits that come out.
    H264,
    /// The subtype of the pictures that go in: brightness, then both colours in turn.
    Nv12,
    /// Whole pictures, not every other line.
    Progressive,
    /// A number of 32 bits.
    U32(u32),
    /// A number of 64 bits.
    U64(u64),
}

/// Two numbers in one, the first in the upper half. Of each only the low 32 bits count.
pub open spec fn packed(first: int, second: int) -> u64 {
    (first % 0x1_0000_0000 * 0x1_0000_0000 + second % 0x1_0000_0000) as u64
}

/// What the encoder is told of the bits that come out.
pub open spec fn output_type_spec(dimensions: (usize, usize), fps: u32, bitrate_bps: u32) -> Seq<
    (AttributeKey, AttributeValue),
> {
    seq![
        (AttributeKey::MajorType, AttributeValue::Video),
        (AttributeKey::Subtype, AttributeValue::H264),
        (AttributeKey::AvgBitrate, AttributeValue::U32(bitrate_bps)),
        (
            AttributeKey::FrameSize,
            AttributeValue::U64(packed(dimensions.0 as int, dimensions.1 as int)),
        ),
        (AttributeKey::FrameRate, AttributeValue::U64(packed(fps as int, 1))),
        (AttributeKey::PixelAspectRatio, AttributeValue::U64(packed(1, 1))),
        (AttributeKey::InterlaceMode, AttributeValue::Progressive),
    ]
}

/// What the encoder is told of the pictures that go in.
pub open spec fn input_type_spec(dimensions: (usize, usize), fps: u32) -> Seq<
    (AttributeKey, AttributeValue),
> {
    seq![
        (AttributeKey::MajorType, AttributeValue::Video),
        (AttributeKey::Subtype, AttributeValue::Nv12),
        (
            AttributeKey::FrameSize,
            AttributeValue::U64(packed(dimensions.0 as int, dimensions.1 as int)),
        ),
        (AttributeKey::FrameRate, AttributeValue::U64(packed(fps as int, 1))),
        (AttributeKey::PixelAspectRatio, AttributeValue::U64(packed(1, 1))),
        (AttributeKey::InterlaceMode, AttributeValue::Progressive),
    ]
}

/// A size as one number.
fn packed_size(dimensions: (usize, usize)) -> (size: u64)
    ensures
        size == packed(dimensions.0 as int, dimensions.1 as int),
{
    pack_ratio(
        (dimensions.0 as u64 % 0x1_0000_0000) as u32,
        (dimensions.1 as u64 % 0x1_0000_0000) as u32,
    )
}

/// What the encoder is told of the bits that come out.
pub fn output_type(dimensions: (usize, usize), fps: u32, bitrate_bps: u32) -> (attributes: Vec<
    (AttributeKey, AttributeValue),
>)
    ensures
        attributes@ == output_type_spec(dimensions, fps, bitrate_bps),
{
    let attributes = vec![
        (AttributeKey::MajorType, AttributeValue::Video),
        (AttributeKey::Subtype, AttributeValue::H264),
        (AttributeKey::AvgBitrate, AttributeValue::U32(bitrate_bps)),
        (AttributeKey::FrameSize, AttributeValue::U64(packed_size(dimensions))),
        (AttributeKey::FrameRate, AttributeValue::U64(pack_ratio(fps, 1))),
        (AttributeKey::PixelAspectRatio, AttributeValue::U64(pack_ratio(1, 1))),
        (AttributeKey::InterlaceMode, AttributeValue::Progressive),
    ];
    assert(attributes@ =~= output_type_spec(dimensions, fps, bitrate_bps));
    attributes
}

/// What the encoder is told of the pictures that go in.
pub fn input_type(dimensions: (usize, usize), fps: u32) -> (attributes: Vec<
    (AttributeKey, AttributeValue),
>)
    ensures
        attributes@ == input_type_spec(dimensions, fps),
{
    let attributes = vec![
        (AttributeKey::MajorType, AttributeValue::Video),
        (AttributeKey::Subtype, AttributeValue::Nv12),
        (AttributeKey::FrameSize, AttributeValue::U64(packed_size(dimensions))),
        (AttributeKey::FrameRate, AttributeValue::U64(pack_ratio(fps, 1))),
        (AttributeKey::PixelAspectRatio, AttributeValue::U64(pack_ratio(1, 1))),
        (AttributeKey::InterlaceMode, AttributeValue::Progressive),
    ];
    assert(attributes@ =~= input_type_spec(dimensions, fps));
    attributes
}

/// A step in setting an encoder up.
#[derive(Debug)]
pub enum SetupStep {
    SetOutputType(Vec<(AttributeKey, AttributeValue)>),
    SetInputType(Vec<(AttributeKey, AttributeValue)>),
    BeginStreaming,
    StartOfStream,
}

/// The steps in setting an encoder up, in order: the type of the bits comes before the type of the
/// pictures, and both come before the stream.
pub fn encoder_setup(dimensions: (usize, usize), fps: u32, bitrate_bps: u32) -> (steps: Vec<
    SetupStep,
>)
    ensures
        steps@.len() == 4,
        steps@[0] matches SetupStep::SetOutputType(attributes) && attributes@ == output_type_spec(
            dimensions,
            fps,
            bitrate_bps,
        ),
        steps@[1] matches SetupStep::SetInputType(attributes) && attributes@ == input_type_spec(
            dimensions,
            fps,
        ),
        steps@[2] == SetupStep::BeginStreaming,
        steps@[3] == SetupStep::StartOfStream,
{
    vec![
        SetupStep::SetOutputType(output_type(dimensions, fps, bitrate_bps)),
        SetupStep::SetInputType(input_type(dimensions, fps)),
        SetupStep::BeginStreaming,
        SetupStep::StartOfStream,
    ]
}

/// Which encoder was found.
#[derive(Clone, Copy, Debug, PartialEq, Eq, Structural)]
pub enum TransformKind {
    Hardware,
    Software,
}

impl TransformKind {
    /// What the encoder is called.
    pub open spec fn name_spec(self) -> Seq<char> {
        match self {
            TransformKind::Hardware => "Media Foundation hardware H.264 encoder"@,
            TransformKind::Software => "Media Foundation software H.264 encoder"@,
        }
    }

    /// What the encoder is called.
    pub fn name(self) -> (name: &'static str)
        ensures
            name@ == self.name_spec(),
    {
        match self {
            TransformKind::Hardware => "Media Foundation hardware H.264 encoder",
            TransformKind::Software => "Media Foundation software H.264 encoder",
        }
    }
}

/// What Windows answered when it was asked for encoders in hardware.
#[derive(Clone, Copy, Debug)]
pub struct HardwareEncoders {
    /// It answered at all.
    pub enumerated: bool,
    /// The number of encoders.
    pub count: u32,
    /// It handed out a list, which is to be given back.
    pub has_list: bool,
    /// The list has a first encoder.
    pub has_first: bool,
}

/// Which encoder to take, and whether the list is to be given back first.
#[derive(Debug)]
pub struct TransformPlan {
    pub kind: Result<TransformKind, String>,
    pub free_list: bool,
}

/// Picks an encoder: the first in hardware if there are any, else the one in software. A list that
/// announces encoders and holds none is an error.
pub fn create_encoder_transform(found: HardwareEncoders) -> (plan: TransformPlan)
    ensures
        ({
            let hardware = found.enumerated && found.count > 0 && found.has_list;
            &&& hardware && found.has_first ==> plan.kind == Ok::<TransformKind, String>(
                TransformKind::Hardware,
            ) && plan.free_list
            &&& hardware && !found.has_first ==> (plan.kind matches Err(text) && text@
                == "Media Foundation hardware encoder activation missing"@) && !plan.free_list
            &&& !hardware ==> plan.kind == Ok::<TransformKind, String>(TransformKind::Software)
                && plan.free_list == found.has_list
        }),
{
    if found.enumerated && found.count > 0 && found.has_list {
        if found.has_first {
            TransformPlan { kind: Ok(TransformKind::Hardware), free_list: true }
        } else {
            TransformPlan {
                kind: Err("Media Foundation hardware encoder activation missing".to_owned()),
                free_list: false,
            }
        }
    } else {
        TransformPlan { kind: Ok(TransformKind::Software), free_list: found.has_list }
    }
}

/// What Windows answered when it was asked to get ready for objects on this thread.
#[derive(Debug)]
pub enum ComOutcome {
    Ready,
    /// The thread was made ready before, in another mode.
    ChangedMode,
    /// It failed, in the words of Windows.
    Failed(String),
}

/// Decides whether Media Foundation is to be started. A thread that was made ready in another mode
/// is as good as one that is ready.
pub fn ensure_media_foundation_started(com: &ComOutcome) -> (start: Result<(), String>)
    ensures
        match *com {
            ComOutcome::Ready => start == Ok::<(), String>(()),
            ComOutcome::ChangedMode => start == Ok::<(), String>(()),
            ComOutcome::Failed(error) => start matches Err(text) && text@ == ERROR_PREFIX@ + error@,
        },
{
    match com {
        ComOutcome::Ready => Ok(()),
        ComOutcome::ChangedMode => Ok(()),
        ComOutcome::Failed(error) => Err(format_windows_error(error.as_str())),
    }
}

/// A picture as the encoder takes it.
#[derive(Debug)]
pub struct InputSample {
    pub bytes: Vec<u8>,
    /// When the picture is shown, and for how long.
    pub time: i64,
    pub duration: i64,
}

/// The bytes of two planes in turn.
pub open spec fn interleaved(u: Seq<u8>, v: Seq<u8>) -> Seq<u8>
    recommends
        u.len() == v.len(),
{
    Seq::new(2 * u.len(), |i: int| if i % 2 == 0 { u[i / 2] } else { v[i / 2] })
}

/// The number of pairs that fit: as many as both planes have bytes for, and the output has room
/// for.
pub open spec fn chroma_pairs(u: nat, v: nat, output: nat) -> nat {
    let both = if u <= v { u } else { v };
    if both <= output / 2 {
        both
    } else {
        output / 2
    }
}

/// Writes the bytes of two planes in turn over the front of `output`, as far as there are bytes
/// of both and room for a pair. The rest of `output` stays as it is.
pub fn write_nv12_chroma(u_plane: &[u8], v_plane: &[u8], output: &mut [u8])
    ensures
        final(output)@.len() == old(output)@.len(),
        ({
            let pairs = chroma_pairs(u_plane@.len(), v_plane@.len(), old(output)@.len()) as int;
            final(output)@ == interleaved(
                u_plane@.subrange(0, pairs),
                v_plane@.subrange(0, pairs),
            ) + old(output)@.subrange(2 * pairs, old(output)@.len() as int)
        }),
{
    let len: usize = output.len();
    let room: usize = len / 2;
    let mut i: usize = 0;
    while i < u_plane.len() && i < v_plane.len() && i < room
        invariant
            len == old(output)@.len(),
            room == len / 2,
            i <= chroma_pairs(u_plane@.len(), v_plane@.len(), old(output)@.len()),
            output@ == interleaved(u_plane@.subrange(0, i as int), v_plane@.subrange(0, i as int))
                + old(output)@.subrange(2 * i, old(output)@.len() as int),
        decreases room - i,
    {
        output[2 * i] = u_plane[i];
        output[2 * i + 1] = v_plane[i];
        assert(output@ =~= interleaved(
            u_plane@.subrange(0, i + 1),
            v_plane@.subrange(0, i + 1),
        ) + old(output)@.subrange(2 * i + 2, old(output)@.len() as int));
        i += 1;
    }
}

/// What the encoder answered when it was asked for bits.
#[derive(Debug)]
pub enum OutputEvent<'a> {
    /// There is a sample, or none, and more is to come if the answer is `incomplete`.
    Produced { sample: Option<&'a [u8]>, incomplete: bool },
    /// There is nothing before the next picture.
    NeedMoreInput,
    /// It failed, in the words of Windows.
    Failed(String),
}

/// Whether to ask for bits again.
#[derive(Clone, Copy, Debug, PartialEq, Eq, Structural)]
pub enum DrainAction {
    AskAgain,
    Done,
}

/// Appends the bytes of a sample.
pub fn append_sample_bytes(sample: &[u8], encoded: &mut Vec<u8>)
    ensures
        final(encoded)@ == old(encoded)@ + sample@,
{
    if sample.len() == 0 {
        assert(encoded@ =~= encoded@ + sample@);
        return ;
    }
    encoded.extend_from_slice(sample);
}

/// The bits of an answer, and what to do next. `Err` is the encoder's error.
pub open spec fn drained(event: OutputEvent<'_>) -> (Seq<u8>, Result<DrainAction, Seq<char>>) {
    match event {
        OutputEvent::Produced { sample, incomplete } => (
            match sample {
                Some(bytes) => bytes@,
                None => seq![],
            },
            if incomplete {
                Ok(DrainAction::AskAgain)
            } else {
                Ok(DrainAction::Done)
            },
        ),
        OutputEvent::NeedMoreInput => (seq![], Ok(DrainAction::Done)),
        OutputEvent::Failed(error) => (seq![], Err(ERROR_PREFIX@ + error@)),
    }
}

/// What asking for bits again and again gives: the bits up to the first answer that is the last,
/// or the first error.
pub open spec fn drain_run(events: Seq<OutputEvent<'_>>) -> Result<Seq<u8>, Seq<char>>
    decreases events.len(),
{
    if events.len() == 0 {
        Ok(seq![])
    } else {
        match drained(events[0]).1 {
            Err(text) => Err(text),
            Ok(DrainAction::Done) => Ok(drained(events[0]).0),
            Ok(DrainAction::AskAgain) => match drain_run(events.drop_first()) {
                Err(text) => Err(text),
                Ok(bits) => Ok(drained(events[0]).0 + bits),
            },
        }
    }
}

/// An encoder of Media Foundation, as far as it is known here.
#[derive(Debug)]
pub struct MediaFoundationH264Encoder {
    pub kind: TransformKind,
    pub output_buffer_size: u32,
    /// How long a picture is shown, in units of 100 nanoseconds.
    pub frame_duration: i64,
    /// When the next picture is shown.
    pub sample_time: i64,
    pub dimensions: (usize, usize),
}

impl MediaFoundationH264Encoder {
    /// An encoder that was set up: the space for its bits is what it asks for, and no less than
    /// [`MIN_OUTPUT_BUFFER_SIZE`]; each picture is shown for a second by `fps`.
    pub fn new(
        dimensions: (usize, usize),
        fps: u32,
        kind: TransformKind,
        output_size: u32,
    ) -> (encoder: MediaFoundationH264Encoder)
        requires
            fps > 0,
        ensures
            encoder == (MediaFoundationH264Encoder {
                kind,
                output_buffer_size: if output_size >= MIN_OUTPUT_BUFFER_SIZE {
                    output_size
                } else {
                    MIN_OUTPUT_BUFFER_SIZE
                },
                frame_duration: (HNS_PER_SECOND as int / fps as int) as i64,
                sample_time: 0,
                dimensions,
            }),
            0 <= encoder.frame_duration <= HNS_PER_SECOND,
    {
        let output_buffer_size: u32 = if output_size >= MIN_OUTPUT_BUFFER_SIZE {
            output_size
        } else {
            MIN_OUTPUT_BUFFER_SIZE
        };
        let frame_duration: i64 = HNS_PER_SECOND / fps as i64;
        MediaFoundationH264Encoder {
            kind,
            output_buffer_size,
            frame_duration,
            sample_time: 0,
            dimensions,
        }
    }

    /// What the encoder is called.
    pub fn name(&self) -> (name: &'static str)
        ensures
            name@ == self.kind.name_spec(),
    {
        self.kind.name()
    }

    /// Whether the encoder has to be shut down in the end.
    pub fn needs_shutdown(&self) -> (needed: bool)
        ensures
            needed == (self.kind == TransformKind::Hardware),
    {
        match self.kind {
            TransformKind::Hardware => true,
            TransformKind::Software => false,
        }
    }

    /// A picture as the encoder takes it: its brightness, then its two colours in turn.
    pub fn create_input_sample(&self, frame: &YUVBuffer) -> (sample: InputSample)
        ensures
            sample.bytes@ == yuv_image(*frame).y() + interleaved(
                yuv_image(*frame).u(),
                yuv_image(*frame).v(),
            ),
            sample.time == self.sample_time,
            sample.duration == self.frame_duration,
    {
        let u: &[u8] = yuv_u(frame);
        let v: &[u8] = yuv_v(frame);
        let mut chroma: Vec<u8> = Vec::new();
        let mut i: usize = 0;
        while i < u.len()
            invariant
                i <= u@.len(),
                chroma@.len() == 2 * i,
            decreases u@.len() - i,
        {
            chroma.push(0);
            chroma.push(0);
            i += 1;
        }
        write_nv12_chroma(u, v, chroma.as_mut_slice());
        assert(u@.subrange(0, u@.len() as int) =~= u@);
        assert(v@.subrange(0, u@.len() as int) =~= v@);
        assert(chroma@ =~= interleaved(u@, v@));
        let mut bytes: Vec<u8> = slice_to_vec(yuv_y(frame));
        bytes.extend_from_slice(&chroma);
        InputSample { bytes, time: self.sample_time, duration: self.frame_duration }
    }

    /// Starts encoding a picture: gives what the encoder is to be fed. A picture of another size
    /// than the encoder was set up for is refused.
    pub fn encode(&self, frame: &YUVBuffer) -> (sample: Result<InputSample, String>)
        ensures
            yuv_image(*frame).width == self.dimensions.0 && yuv_image(*frame).height
                == self.dimensions.1 ==> (sample matches Ok(s) && s.bytes@ == yuv_image(*frame).y()
                + interleaved(yuv_image(*frame).u(), yuv_image(*frame).v()) && s.time
                == self.sample_time && s.duration == self.frame_duration),
            !(yuv_image(*frame).width == self.dimensions.0 && yuv_image(*frame).height
                == self.dimensions.1) ==> (sample matches Err(text) && text@
                == "Media Foundation encoder frame dimensions changed"@),
    {
        let (width, height) = yuv_dimensions(frame);
        if width != self.dimensions.0 || height != self.dimensions.1 {
            return Err("Media Foundation encoder frame dimensions changed".to_owned());
        }
        Ok(self.create_input_sample(frame))
    }

    /// Takes an answer: appends its bits and decides whether to ask again.
    pub fn drain_output(&self, event: OutputEvent<'_>, encoded: &mut Vec<u8>) -> (action: Result<
        DrainAction,
        String,
    >)
        ensures
            final(encoded)@ == old(encoded)@ + drained(event).0,
            match action {
                Ok(next) => drained(event).1 == Ok::<DrainAction, Seq<char>>(next),
                Err(text) => drained(event).1 == Err::<DrainAction, Seq<char>>(text@),
            },
    {
        assert(encoded@ =~= encoded@ + seq![]);
        match event {
            OutputEvent::Produced { sample, incomplete } => {
                if let Some(bytes) = sample {
                    append_sample_bytes(bytes, encoded);
                }
                if incomplete {
                    Ok(DrainAction::AskAgain)
                } else {
                    Ok(DrainAction::Done)
                }
            },
            OutputEvent::NeedMoreInput => Ok(DrainAction::Done),
            OutputEvent::Failed(error) => Err(format_windows_error(error.as_str())),
        }
    }

    /// The encoder took a picture: the next one is shown when this one has been.
    pub fn input_accepted(&mut self)
        requires
            old(self).sample_time + old(self).frame_duration <= i64::MAX,
            old(self).sample_time + old(self).frame_duration >= i64::MIN,
        ensures
            *final(self) == (MediaFoundationH264Encoder {
                sample_time: (old(self).sample_time + old(self).frame_duration) as i64,
                ..*old(self)
            }),
    {
        self.sample_time = self.sample_time + self.frame_duration;
    }
}

/// Every byte of the two planes is found again where they were written in turn.
pub proof fn interleaving_loses_nothing(u: Seq<u8>, v: Seq<u8>)
    requires
        u.len() == v.len(),
    ensures
        u == Seq::new(u.len(), |i: int| interleaved(u, v)[2 * i]),
        v == Seq::new(v.len(), |i: int| interleaved(u, v)[2 * i + 1]),
{
    assert(u =~= Seq::new(u.len(), |i: int| interleaved(u, v)[2 * i]));
    assert(v =~= Seq::new(v.len(), |i: int| interleaved(u, v)[2 * i + 1]));
}

/// Where the encoder is asked until an answer is complete, the bits are those of all samples, in
/// order.
pub proof fn drained_bits_are_the_samples(samples: Seq<&[u8]>)
    requires
        samples.len() > 0,
    ensures
        drain_run(
            samples.map(
                |i: int, bytes: &[u8]|
                    OutputEvent::Produced {
                        sample: Some(bytes),
                        incomplete: i + 1 < samples.len(),
                    },
            ),
        ) == Ok::<Seq<u8>, Seq<char>>(
            samples.map(|i: int, bytes: &[u8]| bytes@).flatten(),
        ),
{
    drained_tail(samples, samples.len());
    let parts = samples.map(|i: int, bytes: &[u8]| bytes@);
    let events = samples.map(
        |i: int, bytes: &[u8]|
            OutputEvent::Produced { sample: Some(bytes), incomplete: i + 1 < samples.len() },
    );
    assert(parts.subrange(0, parts.len() as int) =~= parts);
    assert(events.subrange(0, events.len() as int) =~= events);
}

proof fn drained_tail(samples: Seq<&[u8]>, left: nat)
    requires
        0 < left <= samples.len(),
    ensures
        ({
            let n = samples.len() as int;
            let parts = samples.map(|i: int, bytes: &[u8]| bytes@);
            let events = samples.map(
                |i: int, bytes: &[u8]|
                    OutputEvent::Produced {
                        sample: Some(bytes),
                        incomplete: i + 1 < samples.len(),
                    },
            );
            drain_run(events.subrange(n - left, n)) == Ok::<Seq<u8>, Seq<char>>(
                parts.subrange(n - left, n).flatten(),
            )
        }),
    decreases left,
{
    let n = samples.len() as int;
    let parts = samples.map(|i: int, bytes: &[u8]| bytes@);
    let events = samples.map(
        |i: int, bytes: &[u8]|
            OutputEvent::Produced { sample: Some(bytes), incomplete: i + 1 < samples.len() },
    );
    let some_parts = parts.subrange(n - left, n);
    let some_events = events.subrange(n - left, n);
    assert(some_parts.drop_first() =~= parts.subrange(n - left + 1, n));
    assert(some_events.drop_first() =~= events.subrange(n - left + 1, n));
    if left == 1 {
        some_parts.lemma_flatten_one_element();
    } else {
        drained_tail(samples, (left - 1) as nat);
    }
}

/// Two numbers in one are told apart again: the first by division, the second by the remainder.
pub proof fn packed_numbers_are_told_apart(first: u32, second: u32)
    ensures
        packed(first as int, second as int) as nat / 0x1_0000_0000 == first,
        packed(first as int, second as int) as nat % 0x1_0000_0000 == second,
{
    let n = first * 0x1_0000_0000 + second;
    assert(packed(first as int, second as int) == n);
    assert(n / 0x1_0000_0000 == first && n % 0x1_0000_0000 == second);
}

/// The encoder is told that H.264 comes out of it and brightness with both colours in turn goes in,
/// both at the size and rate of the pictures, whole and with square pixels. The bit rate is that of
/// what comes out.
pub proof fn the_encoder_is_told_size_and_rates(
    dimensions: (usize, usize),
    fps: u32,
    bitrate_bps: u32,
)
    ensures
        ({
            let output = output_type_spec(dimensions, fps, bitrate_bps);
            let input = input_type_spec(dimensions, fps);
            let size = AttributeValue::U64(packed(dimensions.0 as int, dimensions.1 as int));
            let rate = AttributeValue::U64(packed(fps as int, 1));
            let square = AttributeValue::U64(packed(1, 1));
            &&& output.len() == 7
            &&& output.contains((AttributeKey::MajorType, AttributeValue::Video))
            &&& output.contains((AttributeKey::Subtype, AttributeValue::H264))
            &&& output.contains((AttributeKey::AvgBitrate, AttributeValue::U32(bitrate_bps)))
            &&& output.contains((AttributeKey::FrameSize, size))
            &&& output.contains((AttributeKey::FrameRate, rate))
            &&& output.contains((AttributeKey::PixelAspectRatio, square))
            &&& output.contains((AttributeKey::InterlaceMode, AttributeValue::Progressive))
            &&& input.len() == 6
            &&& input.contains((AttributeKey::MajorType, AttributeValue::Video))
            &&& input.contains((AttributeKey::Subtype, AttributeValue::Nv12))
            &&& input.contains((AttributeKey::FrameSize, size))
            &&& input.contains((AttributeKey::FrameRate, rate))
            &&& input.contains((AttributeKey::PixelAspectRatio, square))
            &&& input.contains((AttributeKey::InterlaceMode, AttributeValue::Progressive))
        }),
{
    let output = output_type_spec(dimensions, fps, bitrate_bps);
    let input = input_type_spec(dimensions, fps);
    assert(output[0].0 == AttributeKey::MajorType && output[1].0 == AttributeKey::Subtype
        && output[2].0 == AttributeKey::AvgBitrate && output[3].0 == AttributeKey::FrameSize
        && output[4].0 == AttributeKey::FrameRate && output[5].0 == AttributeKey::PixelAspectRatio
        && output[6].0 == AttributeKey::InterlaceMode);
    assert(input[0].0 == AttributeKey::MajorType && input[1].0 == AttributeKey::Subtype
        && input[2].0 == AttributeKey::FrameSize && input[3].0 == AttributeKey::FrameRate
        && input[4].0 == AttributeKey::PixelAspectRatio && input[5].0
        == AttributeKey::InterlaceMode);
}

/// The bytes of two planes stand in turn: the first plane's at even places, the second's at odd
/// ones, each in its order, and all of them are there.
pub proof fn planes_take_turns(u: Seq<u8>, v: Seq<u8>, i: int)
    requires
        u.len() == v.len(),
        0 <= i < u.len(),
    ensures
        interleaved(u, v).len() == u.len() + v.len(),
        interleaved(u, v)[2 * i] == u[i],
        interleaved(u, v)[2 * i + 1] == v[i],
{
}

/// As many pairs are written as there are bytes of both planes and room for, and no fewer.
pub proof fn as_many_pairs_as_fit(u: nat, v: nat, output: nat, pairs: nat)
    ensures
        pairs <= chroma_pairs(u, v, output) <==> pairs <= u && pairs <= v && 2 * pairs <= output,
{
}

/// All bits of an answer are taken. The encoder is asked again as long as it says that there is
/// more, and an error of Windows is told in its words.
pub proof fn all_bits_of_an_answer_are_taken(bytes: &[u8], more: bool, error: String)
    ensures
        drained(OutputEvent::Produced { sample: Some(bytes), incomplete: more }).0 == bytes@,
        drained(OutputEvent::Produced { sample: None, incomplete: more }).0 == Seq::<u8>::empty(),
        drained(OutputEvent::Produced { sample: Some(bytes), incomplete: true }).1 == Ok::<
            DrainAction,
            Seq<char>,
        >(DrainAction::AskAgain),
        drained(OutputEvent::Produced { sample: Some(bytes), incomplete: false }).1 == Ok::<
            DrainAction,
            Seq<char>,
        >(DrainAction::Done),
        drained(OutputEvent::Produced { sample: None, incomplete: true }).1 == Ok::<
            DrainAction,
            Seq<char>,
        >(DrainAction::AskAgain),
        drained(OutputEvent::Produced { sample: None, incomplete: false }).1 == Ok::<
            DrainAction,
            Seq<char>,
        >(DrainAction::Done),
        drained(OutputEvent::NeedMoreInput) == (
            Seq::<u8>::empty(),
            Ok::<DrainAction, Seq<char>>(DrainAction::Done),
        ),
        drained(OutputEvent::Failed(error)) == (
            Seq::<u8>::empty(),
            Err::<DrainAction, Seq<char>>("Media Foundation H.264 encoder error: "@ + error@),
        ),
{
}

/// The encoders are told apart by their names.
pub proof fn encoders_have_names()
    ensures
        TransformKind::Hardware.name_spec() == "Media Foundation hardware H.264 encoder"@,
        TransformKind::Software.name_spec() == "Media Foundation software H.264 encoder"@,
{
}

/// The bits of answers are put together in order, up to the first that is the last. The first error
/// is the end of it.
pub proof fn answers_are_put_together(
    bytes: &[u8],
    error: String,
    later: Seq<OutputEvent<'_>>,
)
    ensures
        ({
            let more = OutputEvent::Produced { sample: Some(bytes), incomplete: true };
            let last = OutputEvent::Produced { sample: Some(bytes), incomplete: false };
            &&& drain_run(seq![last] + later) == Ok::<Seq<u8>, Seq<char>>(bytes@)
            &&& drain_run(seq![OutputEvent::NeedMoreInput] + later) == Ok::<Seq<u8>, Seq<char>>(
                Seq::<u8>::empty(),
            )
            &&& drain_run(seq![OutputEvent::Failed(error)] + later) == Err::<Seq<u8>, Seq<char>>(
                "Media Foundation H.264 encoder error: "@ + error@,
            )
            &&& drain_run(later) matches Ok(bits) ==> drain_run(seq![more] + later) == Ok::<
                Seq<u8>,
                Seq<char>,
            >(bytes@ + bits)
            &&& drain_run(later) matches Err(text) ==> drain_run(seq![more] + later) == Err::<
                Seq<u8>,
                Seq<char>,
            >(text)
        }),
{
    let more = OutputEvent::Produced { sample: Some(bytes), incomplete: true };
    assert((seq![more] + later).drop_first() =~= later);
}

} // verus!
