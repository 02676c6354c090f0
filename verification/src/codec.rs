//! The boundary to the `openh264` crate: its types, and what its functions are taken to do.
//!
//! The contracts of the crate's own functions are taken from its source, not proved.

use crate::h264::crops_fit;
use openh264::decoder::{DecodedYUV, Decoder};
use openh264::encoder::{
    BitRate, Complexity, Encoder, EncoderConfig, FrameRate, IntraFramePeriod, Level, Profile,
    QpRange, RateControlMode, UsageType,
};
use openh264::formats::{BgraSliceU8, YUVBuffer, YUVSource};
use openh264::{Error, OpenH264API};
use vstd::prelude::*;
use vstd::string::to_string_from_display_ensures;

verus! {

#[verifier::external_type_specification]
#[verifier::external_body]
pub struct ExError(Error);

#[verifier::external_type_specification]
#[verifier::external_body]
pub struct ExOpenH264API(OpenH264API);

#[verifier::external_type_specification]
#[verifier::external_body]
pub struct ExEncoder(Encoder);

#[verifier::external_type_specification]
#[verifier::external_body]
pub struct ExEncoderConfig(EncoderConfig);

#[verifier::external_type_specification]
#[verifier::external_body]
pub struct ExBitRate(BitRate);

#[verifier::external_type_specification]
#[verifier::external_body]
pub struct ExFrameRate(FrameRate);

#[verifier::external_type_specification]
#[verifier::external_body]
pub struct ExQpRange(QpRange);

#[verifier::external_type_specification]
#[verifier::external_body]
pub struct ExIntraFramePeriod(IntraFramePeriod);

#[verifier::external_type_specification]
pub struct ExUsageType(UsageType);

#[verifier::external_type_specification]
pub struct ExRateControlMode(RateControlMode);

#[verifier::external_type_specification]
pub struct ExProfile(Profile);

#[verifier::external_type_specification]
pub struct ExLevel(Level);

#[verifier::external_type_specification]
pub struct ExComplexity(Complexity);

#[verifier::external_type_specification]
#[verifier::external_body]
pub struct ExYUVBuffer(YUVBuffer);

#[verifier::external_type_specification]
#[verifier::external_body]
pub struct ExDecoder(Decoder);

#[verifier::external_type_specification]
#[verifier::external_body]
pub struct ExDecodedYUV<'a>(DecodedYUV<'a>);

/// Whether `text` is what the error says of itself.
pub open spec fn says(error: Error, text: String) -> bool {
    to_string_from_display_ensures(&error, text)
}

/// Whether `text` is what some error of the codec says of itself.
pub open spec fn is_codec_error(text: String) -> bool {
    exists|error: Error| #[trigger] says(error, text)
}

/// What the error says of itself.
pub fn error_text(error: Error) -> (text: String)
    ensures
        says(error, text),
        is_codec_error(text),
{
    let text = error.to_string();
    assert(says(error, text));
    text
}

/// The settings of an encoder that this crate chooses.
pub struct EncoderSettings {
    pub usage_type: UsageType,
    pub bitrate_bps: u32,
    pub max_frame_rate: FrameRate,
    pub rate_control_mode: RateControlMode,
    pub profile: Option<Profile>,
    pub level: Option<Level>,
    pub qp_min: u8,
    pub qp_max: u8,
    pub intra_frame_period: u32,
    pub complexity: Complexity,
    pub scene_change_detect: bool,
    pub adaptive_quantization: bool,
    pub background_detection: bool,
    pub skip_frames: bool,
}

/// The settings that a configuration holds.
pub uninterp spec fn config_settings(config: EncoderConfig) -> EncoderSettings;

/// The bits per second that a `BitRate` holds.
pub uninterp spec fn bit_rate_bps(rate: BitRate) -> u32;

/// The bounds, lower and upper, that a `QpRange` holds.
pub uninterp spec fn qp_bounds(qp: QpRange) -> (u8, u8);

/// The number of frames that an `IntraFramePeriod` holds.
pub uninterp spec fn period_frames(period: IntraFramePeriod) -> u32;

/// `openh264::encoder::BitRate::from_bps` keeps the number.
pub assume_specification[ BitRate::from_bps ](bps: u32) -> (rate: BitRate)
    ensures
        bit_rate_bps(rate) == bps,
;

/// `openh264::encoder::QpRange::new` keeps the bounds. It panics where they are out of order or
/// the upper one is over 51.
pub assume_specification[ QpRange::new ](min: u8, max: u8) -> (qp: QpRange)
    requires
        min <= max,
        max <= 51,
    ensures
        qp_bounds(qp) == (min, max),
;

/// `openh264::encoder::IntraFramePeriod::from_num_frames` keeps the number.
pub assume_specification[ IntraFramePeriod::from_num_frames ](frames: u32) -> (period:
    IntraFramePeriod)
    ensures
        period_frames(period) == frames,
;

/// `openh264::encoder::EncoderConfig::new` starts from the crate's defaults. Its frame rate is
/// zero hertz, which is not stated here: it is a floating-point number.
pub assume_specification[ EncoderConfig::new ]() -> (config: EncoderConfig)
    ensures
        config_settings(config) == (EncoderSettings {
            usage_type: UsageType::CameraVideoRealTime,
            bitrate_bps: 120_000,
            max_frame_rate: config_settings(config).max_frame_rate,
            rate_control_mode: RateControlMode::Quality,
            profile: None,
            level: None,
            qp_min: 0,
            qp_max: 51,
            intra_frame_period: 0,
            complexity: Complexity::Medium,
            scene_change_detect: true,
            adaptive_quantization: true,
            background_detection: true,
            skip_frames: true,
        }),
;

/// `openh264::encoder::EncoderConfig::usage_type` sets the usage type and nothing else.
pub assume_specification[ EncoderConfig::usage_type ](
    config: EncoderConfig,
    value: UsageType,
) -> (set: EncoderConfig)
    ensures
        config_settings(set) == (EncoderSettings { usage_type: value, ..config_settings(config) }),
;

/// `openh264::encoder::EncoderConfig::bitrate` sets the bit rate and nothing else.
pub assume_specification[ EncoderConfig::bitrate ](config: EncoderConfig, bps: BitRate) -> (set:
    EncoderConfig)
    ensures
        config_settings(set) == (EncoderSettings {
            bitrate_bps: bit_rate_bps(bps),
            ..config_settings(config)
        }),
;

/// `openh264::encoder::EncoderConfig::max_frame_rate` sets the frame rate and nothing else.
pub assume_specification[ EncoderConfig::max_frame_rate ](
    config: EncoderConfig,
    value: FrameRate,
) -> (set: EncoderConfig)
    ensures
        config_settings(set) == (EncoderSettings {
            max_frame_rate: value,
            ..config_settings(config)
        }),
;

/// `openh264::encoder::EncoderConfig::rate_control_mode` sets the mode and nothing else.
pub assume_specification[ EncoderConfig::rate_control_mode ](
    config: EncoderConfig,
    value: RateControlMode,
) -> (set: EncoderConfig)
    ensures
        config_settings(set) == (EncoderSettings {
            rate_control_mode: value,
            ..config_settings(config)
        }),
;

/// `openh264::encoder::EncoderConfig::profile` sets the profile and nothing else.
pub assume_specification[ EncoderConfig::profile ](config: EncoderConfig, profile: Profile) -> (set:
    EncoderConfig)
    ensures
        config_settings(set) == (EncoderSettings {
            profile: Some(profile),
            ..config_settings(config)
        }),
;

/// `openh264::encoder::EncoderConfig::level` sets the level and nothing else.
pub assume_specification[ EncoderConfig::level ](config: EncoderConfig, level: Level) -> (set:
    EncoderConfig)
    ensures
        config_settings(set) == (EncoderSettings { level: Some(level), ..config_settings(config) }),
;

/// `openh264::encoder::EncoderConfig::qp` sets both bounds and nothing else.
pub assume_specification[ EncoderConfig::qp ](config: EncoderConfig, value: QpRange) -> (set:
    EncoderConfig)
    ensures
        config_settings(set) == (EncoderSettings {
            qp_min: qp_bounds(value).0,
            qp_max: qp_bounds(value).1,
            ..config_settings(config)
        }),
;

/// `openh264::encoder::EncoderConfig::intra_frame_period` sets the period and nothing else.
pub assume_specification[ EncoderConfig::intra_frame_period ](
    config: EncoderConfig,
    value: IntraFramePeriod,
) -> (set: EncoderConfig)
    ensures
        config_settings(set) == (EncoderSettings {
            intra_frame_period: period_frames(value),
            ..config_settings(config)
        }),
;

/// `openh264::encoder::EncoderConfig::complexity` sets the complexity and nothing else.
pub assume_specification[ EncoderConfig::complexity ](
    config: EncoderConfig,
    complexity: Complexity,
) -> (set: EncoderConfig)
    ensures
        config_settings(set) == (EncoderSettings { complexity, ..config_settings(config) }),
;

/// `openh264::encoder::EncoderConfig::scene_change_detect` sets the flag and nothing else.
pub assume_specification[ EncoderConfig::scene_change_detect ](
    config: EncoderConfig,
    value: bool,
) -> (set: EncoderConfig)
    ensures
        config_settings(set) == (EncoderSettings {
            scene_change_detect: value,
            ..config_settings(config)
        }),
;

/// `openh264::encoder::EncoderConfig::adaptive_quantization` sets the flag and nothing else.
pub assume_specification[ EncoderConfig::adaptive_quantization ](
    config: EncoderConfig,
    value: bool,
) -> (set: EncoderConfig)
    ensures
        config_settings(set) == (EncoderSettings {
            adaptive_quantization: value,
            ..config_settings(config)
        }),
;

/// `openh264::encoder::EncoderConfig::background_detection` sets the flag and nothing else.
pub assume_specification[ EncoderConfig::background_detection ](
    config: EncoderConfig,
    value: bool,
) -> (set: EncoderConfig)
    ensures
        config_settings(set) == (EncoderSettings {
            background_detection: value,
            ..config_settings(config)
        }),
;

/// `openh264::encoder::EncoderConfig::skip_frames` sets the flag and nothing else.
pub assume_specification[ EncoderConfig::skip_frames ](config: EncoderConfig, value: bool) -> (set:
    EncoderConfig)
    ensures
        config_settings(set) == (EncoderSettings { skip_frames: value, ..config_settings(config) }),
;

/// `openh264::OpenH264API::from_source` hands out the functions of the linked library.
pub assume_specification[ OpenH264API::from_source ]() -> OpenH264API;

/// The settings that an encoder was made with.
pub uninterp spec fn encoder_settings(encoder: Encoder) -> EncoderSettings;

/// The pictures that an encoder was given, taken or refused, in order.
pub uninterp spec fn encoder_pictures(encoder: Encoder) -> Seq<YuvImage>;

/// What an encoder gave for each picture, in order: its bits, or nothing where it was refused.
pub uninterp spec fn encoder_bits(encoder: Encoder) -> Seq<Option<Seq<u8>>>;

/// `openh264::encoder::Encoder::with_api_config` makes an encoder that keeps the configuration
/// and has been given no picture. Whether the linked library makes one is left open.
pub assume_specification[ Encoder::with_api_config ](
    api: OpenH264API,
    config: EncoderConfig,
) -> (made: Result<Encoder, Error>)
    ensures
        made matches Ok(encoder) ==> {
            &&& encoder_settings(encoder) == config_settings(config)
            &&& encoder_pictures(encoder) == Seq::<YuvImage>::empty()
            &&& encoder_bits(encoder) == Seq::<Option<Seq<u8>>>::empty()
        },
;

/// Whether a picture is over the size that the encoder takes: 3840 by 2160, in either
/// orientation.
pub open spec fn too_large_to_encode(picture: YuvImage) -> bool {
    let longer = if picture.width >= picture.height { picture.width } else { picture.height };
    let shorter = if picture.width >= picture.height { picture.height } else { picture.width };
    longer > 3840 || shorter > 2160
}

/// `openh264::encoder::Encoder::encode`, and `to_vec` on the bit stream that it returns. The
/// encoder keeps its settings and takes the picture. A picture that is too large is refused, and
/// every picture is where the bit rate does not fit an `i32`. Which bits come of which pictures is
/// left open: neither the crate nor the linked library says that they are the same everywhere.
#[verifier::external_body]
pub(crate) fn encode_picture(encoder: &mut Encoder, picture: &YUVBuffer) -> (bits: Result<
    Vec<u8>,
    Error,
>)
    ensures
        encoder_settings(*final(encoder)) == encoder_settings(*old(encoder)),
        encoder_pictures(*final(encoder)) == encoder_pictures(*old(encoder)).push(
            yuv_image(*picture),
        ),
        encoder_bits(*final(encoder)) == encoder_bits(*old(encoder)).push(
            match bits {
                Ok(b) => Some(b@),
                Err(_) => None,
            },
        ),
        yuv_image(*picture).width <= i32::MAX && yuv_image(*picture).height <= i32::MAX
            && too_large_to_encode(yuv_image(*picture)) ==> bits is Err,
        encoder_settings(*old(encoder)).bitrate_bps > i32::MAX ==> bits is Err,
{
    encoder.encode(picture).map(|bits| bits.to_vec())
}

/// A picture in 4:2:0: its size, and its planes one after the other.
pub struct YuvImage {
    pub width: nat,
    pub height: nat,
    pub bytes: Seq<u8>,
}

impl YuvImage {
    /// Both sides are even, the brightness has a byte for each pixel, and each of the two colour
    /// planes has one for each four.
    pub open spec fn wf(self) -> bool {
        &&& self.width % 2 == 0
        &&& self.height % 2 == 0
        &&& self.bytes.len() == 3 * (self.width * self.height) / 2
    }

    pub open spec fn y(self) -> Seq<u8> {
        self.bytes.subrange(0, (self.width * self.height) as int)
    }

    pub open spec fn u(self) -> Seq<u8> {
        let base = (self.width * self.height) as int;
        self.bytes.subrange(base, base + base / 4)
    }

    pub open spec fn v(self) -> Seq<u8> {
        let base = (self.width * self.height) as int;
        self.bytes.subrange(base + base / 4, self.bytes.len() as int)
    }

    /// The planes have the lengths that the size gives them.
    pub proof fn plane_lengths(self)
        requires
            self.wf(),
        ensures
            self.y().len() == self.width * self.height,
            self.u().len() == self.width * self.height / 4,
            self.v().len() == self.width * self.height / 4,
    {
        let a = self.width / 2;
        let b = self.height / 2;
        assert(self.width * self.height == 4 * (a * b)) by (nonlinear_arith)
            requires
                self.width == 2 * a,
                self.height == 2 * b,
        ;
    }
}

/// The picture that a `YUVBuffer` holds.
pub uninterp spec fn yuv_image(buffer: YUVBuffer) -> YuvImage;

/// The planes that `openh264` computes from pixels of blue, green, red and alpha bytes.
pub uninterp spec fn bgra_planes(bytes: Seq<u8>, width: nat, height: nat) -> Seq<u8>;

/// `openh264::formats::YUVBuffer::from_rgb_source` on a `BgraSliceU8`. The size is kept and the
/// planes are a function of the pixels. Both constructors panic where a side is odd or the
/// pixels do not fill the size.
#[verifier::external_body]
pub(crate) fn yuv_from_bgra(bytes: &[u8], width: usize, height: usize) -> (buffer: YUVBuffer)
    requires
        width % 2 == 0,
        height % 2 == 0,
        bytes@.len() == width * height * 4,
    ensures
        yuv_image(buffer) == (YuvImage {
            width: width as nat,
            height: height as nat,
            bytes: bgra_planes(bytes@, width as nat, height as nat),
        }),
        yuv_image(buffer).wf(),
{
    YUVBuffer::from_rgb_source(BgraSliceU8::new(bytes, (width, height)))
}

/// `openh264::formats::YUVSource::dimensions` of a `YUVBuffer`: its width and height.
#[verifier::external_body]
pub(crate) fn yuv_dimensions(buffer: &YUVBuffer) -> (size: (usize, usize))
    ensures
        size.0 == yuv_image(*buffer).width,
        size.1 == yuv_image(*buffer).height,
{
    buffer.dimensions()
}

/// `openh264::formats::YUVSource::y` of a `YUVBuffer`: its brightness plane.
#[verifier::external_body]
pub(crate) fn yuv_y(buffer: &YUVBuffer) -> (plane: &[u8])
    ensures
        plane@ == yuv_image(*buffer).y(),
        plane@.len() == yuv_image(*buffer).width * yuv_image(*buffer).height,
{
    buffer.y()
}

/// `openh264::formats::YUVSource::u` of a `YUVBuffer`: its first colour plane.
#[verifier::external_body]
pub(crate) fn yuv_u(buffer: &YUVBuffer) -> (plane: &[u8])
    ensures
        plane@ == yuv_image(*buffer).u(),
        plane@.len() == yuv_image(*buffer).width * yuv_image(*buffer).height / 4,
{
    buffer.u()
}

/// `openh264::formats::YUVSource::v` of a `YUVBuffer`: its second colour plane.
#[verifier::external_body]
pub(crate) fn yuv_v(buffer: &YUVBuffer) -> (plane: &[u8])
    ensures
        plane@ == yuv_image(*buffer).v(),
        plane@.len() == yuv_image(*buffer).width * yuv_image(*buffer).height / 4,
{
    buffer.v()
}

/// The packets that a decoder was given, in order.
pub uninterp spec fn decoder_packets(decoder: Decoder) -> Seq<Seq<u8>>;

/// What a decoder gave for each packet, in order: a picture, or nothing.
pub uninterp spec fn decoder_pictures(decoder: Decoder) -> Seq<Option<DecodedYUV<'static>>>;

/// The width and height of a decoded picture.
pub uninterp spec fn picture_size(picture: DecodedYUV<'_>) -> (nat, nat);

/// The distances from row to row in the three planes of a decoded picture.
pub uninterp spec fn picture_strides(picture: DecodedYUV<'_>) -> (nat, nat, nat);

/// Whether `bytes` are what `openh264` makes of a decoded picture, four for each pixel. The
/// instructions that the machine has may move a colour by one, so there is more than one answer.
pub uninterp spec fn is_rgba_of(picture: DecodedYUV<'_>, bytes: Seq<u8>) -> bool;

/// `openh264::decoder::Decoder::new` makes a decoder that has been given nothing and has given
/// nothing. Whether the linked library makes one is left open.
pub assume_specification[ Decoder::new ]() -> (made: Result<Decoder, Error>)
    ensures
        made matches Ok(decoder) ==> {
            &&& decoder_packets(decoder) == Seq::<Seq<u8>>::empty()
            &&& decoder_pictures(decoder) == Seq::<Option<DecodedYUV<'static>>>::empty()
        },
;

/// Whether every packet that a decoder was given asks for crops inside its pictures.
pub open spec fn was_given_fitting_crops(decoder: Decoder) -> bool {
    forall|i: int|
        0 <= i < decoder_packets(decoder).len() ==> crops_fit(#[trigger] decoder_packets(decoder)[i])
}

/// `openh264::decoder::Decoder::decode` takes the packet and gives a picture, nothing, or an error.
/// Which of them rests on all the packets so far and on the memory at hand, and is left open. The
/// length of a packet is handed on as an `i32`.
///
/// The linked library takes a crop over from a parameter set, which may have come in an earlier
/// packet, after a test on sums that wrap. A crop beyond the picture can pass it, and then the
/// product of height and stride, taken in `i32`, or the planes cut by it go wrong. So neither this
/// packet nor one before it may ask for such a crop.
pub assume_specification<'a>[ Decoder::decode ](
    decoder: &'a mut Decoder,
    packet: &[u8],
) -> (picture: Result<Option<DecodedYUV<'a>>, Error>)
    requires
        packet@.len() <= i32::MAX,
        crops_fit(packet@),
        was_given_fitting_crops(*old(decoder)),
    ensures
        decoder_packets(*final(decoder)) == decoder_packets(*old(decoder)).push(packet@),
        decoder_pictures(*final(decoder)) == decoder_pictures(*old(decoder)).push(
            match picture {
                Ok(Some(p)) => Some(p),
                _ => None,
            },
        ),
;

/// `openh264::formats::YUVSource::dimensions` of a decoded picture: its width and height, as the
/// stream has them.
#[verifier::external_body]
pub(crate) fn picture_dimensions(picture: &DecodedYUV<'_>) -> (size: (usize, usize))
    ensures
        size.0 == picture_size(*picture).0,
        size.1 == picture_size(*picture).1,
{
    picture.dimensions()
}

/// `openh264::formats::YUVSource::strides` of a decoded picture: the distances from row to row.
#[verifier::external_body]
pub(crate) fn picture_row_strides(picture: &DecodedYUV<'_>) -> (strides: (usize, usize, usize))
    ensures
        strides.0 == picture_strides(*picture).0,
        strides.1 == picture_strides(*picture).1,
        strides.2 == picture_strides(*picture).2,
{
    picture.strides()
}

/// Whether each row that a picture's size asks for lies inside the planes that the picture hands
/// out: a row of brightness holds the width, a row of colour half of it, two rows share a row of
/// colour, and the lengths of the planes, which are counted in `i32`, are not cut off. A picture
/// without rows asks for nothing.
pub open spec fn rows_in_planes(size: (nat, nat), strides: (nat, nat, nat)) -> bool {
    &&& size.0 <= i32::MAX
    &&& size.1 <= i32::MAX
    &&& size.1 > 0 ==> {
        &&& size.1 % 2 == 0
        &&& size.0 <= strides.0
        &&& size.0 <= 2 * strides.1
        &&& size.0 <= 2 * strides.2
        &&& size.1 * strides.0 <= i32::MAX
        &&& size.1 * strides.1 <= i32::MAX
    }
}

/// `openh264::decoder::DecodedYUV::write_rgba8` fills a target of the right length with opaque
/// pixels. It panics on a target of another length, and where a row of the picture runs past the
/// end of its plane.
pub assume_specification<'a>[ DecodedYUV::<'a>::write_rgba8 ](
    picture: &DecodedYUV<'a>,
    target: &mut [u8],
)
    requires
        rows_in_planes(picture_size(*picture), picture_strides(*picture)),
        old(target)@.len() == picture_size(*picture).0 * picture_size(*picture).1 * 4,
    ensures
        final(target)@.len() == old(target)@.len(),
        forall|i: int|
            0 <= i < final(target)@.len() && i % 4 == 3 ==> #[trigger] final(target)@[i] == 255,
        is_rgba_of(*picture, final(target)@),
;

/// The planes of a picture are its bytes, in order and without a gap: brightness, then the first
/// and the second colour.
pub proof fn planes_are_the_bytes_in_order(picture: YuvImage)
    requires
        picture.wf(),
    ensures
        picture.y() + picture.u() + picture.v() == picture.bytes,
        picture.y().len() == picture.width * picture.height,
        4 * picture.u().len() == picture.width * picture.height,
        4 * picture.v().len() == picture.width * picture.height,
{
    picture.plane_lengths();
    let a = picture.width / 2;
    let b = picture.height / 2;
    assert(picture.width * picture.height == 4 * (a * b)) by (nonlinear_arith)
        requires
            picture.width == 2 * a,
            picture.height == 2 * b,
    ;
    assert(picture.y() + picture.u() + picture.v() =~= picture.bytes);
}

/// A picture up to 3840 by 2160, lying or standing, is not too large.
pub proof fn pictures_up_to_a_large_screen_are_taken(picture: YuvImage)
    ensures
        too_large_to_encode(picture) <==> !(picture.width <= 3840 && picture.height <= 2160
            || picture.width <= 2160 && picture.height <= 3840),
{
}

/// A picture without rows asks for nothing, and one whose rows are no longer than those of its
/// planes lies in them.
pub proof fn rows_that_fit_lie_in_their_planes(size: (nat, nat), strides: (nat, nat, nat))
    requires
        size.0 <= 2147483647,
        size.1 <= 2147483647,
        size.1 == 0 || size.1 % 2 == 0 && size.0 <= strides.0 && size.0 <= 2 * strides.1 && size.0
            <= 2 * strides.2 && size.1 * strides.0 <= 2147483647 && size.1 * strides.1
            <= 2147483647,
    ensures
        rows_in_planes(size, strides),
{
}

/// What is said of an error of the codec is what some error of it says of itself.
pub proof fn codec_errors_speak_for_themselves(text: String)
    requires
        is_codec_error(text),
    ensures
        exists|error: Error| #[trigger] to_string_from_display_ensures(&error, text),
{
    let error = choose|error: Error| #[trigger] says(error, text);
    assert(to_string_from_display_ensures(&error, text));
}

} // verus!
