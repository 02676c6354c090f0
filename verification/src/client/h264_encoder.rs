//! Encoding pictures in software.

use crate::codec::{
    config_settings, encode_picture, encoder_bits, encoder_pictures, encoder_settings, error_text,
    is_codec_error, says, too_large_to_encode, yuv_image, EncoderSettings, YuvImage,
};
use openh264::encoder::{
    BitRate, Complexity, Encoder, EncoderConfig, FrameRate, IntraFramePeriod, RateControlMode,
    UsageType,
};
use openh264::formats::YUVBuffer;
use openh264::OpenH264API;
use vstd::prelude::*;

verus! {

/// What the encoder in software is called.
pub const SOFTWARE_ENCODER_NAME: &'static str = "OpenH264 software encoder";

/// An encoder that was made, or what the error says of why there is none.
pub fn encoder_or_words(made: Result<Encoder, openh264::Error>) -> (encoder: Result<
    Encoder,
    String,
>)
    ensures
        match made {
            Ok(e) => encoder == Ok::<Encoder, String>(e),
            Err(error) => encoder matches Err(text) && says(error, text) && is_codec_error(text),
        },
{
    match made {
        Ok(encoder) => Ok(encoder),
        Err(error) => Err(error_text(error)),
    }
}

/// Opens an encoder with the settings of a configuration, or says why there is none.
pub fn open_encoder(config: EncoderConfig) -> (encoder: Result<Encoder, String>)
    ensures
        match encoder {
            Ok(e) => {
                &&& encoder_settings(e) == config_settings(config)
                &&& encoder_pictures(e) == Seq::<YuvImage>::empty()
                &&& encoder_bits(e) == Seq::<Option<Seq<u8>>>::empty()
            },
            Err(text) => is_codec_error(text),
        },
{
    let api = OpenH264API::from_source();
    encoder_or_words(Encoder::with_api_config(api, config))
}

/// The bits of a picture, or what the error says of why there are none.
pub fn bits_or_words(encoded: Result<Vec<u8>, openh264::Error>) -> (bits: Result<Vec<u8>, String>)
    ensures
        match encoded {
            Ok(b) => bits == Ok::<Vec<u8>, String>(b),
            Err(error) => bits matches Err(text) && says(error, text) && is_codec_error(text),
        },
{
    match encoded {
        Ok(bits) => Ok(bits),
        Err(error) => Err(error_text(error)),
    }
}

/// Encodes a picture, and gives the bits that the encoder gave. A picture that is too large is
/// refused, and all are at a bit rate that does not fit an `i32`; the encoder has been given the
/// picture either way.
pub fn encode(encoder: &mut Encoder, frame: &YUVBuffer) -> (bits: Result<Vec<u8>, String>)
    ensures
        encoder_settings(*final(encoder)) == encoder_settings(*old(encoder)),
        encoder_pictures(*final(encoder)) == encoder_pictures(*old(encoder)).push(
            yuv_image(*frame),
        ),
        encoder_bits(*final(encoder)) == encoder_bits(*old(encoder)).push(
            match bits {
                Ok(b) => Some(b@),
                Err(_) => None,
            },
        ),
        bits matches Err(text) ==> is_codec_error(text),
        yuv_image(*frame).width <= i32::MAX && yuv_image(*frame).height <= i32::MAX
            && too_large_to_encode(yuv_image(*frame)) ==> bits is Err,
        encoder_settings(*old(encoder)).bitrate_bps > i32::MAX ==> bits is Err,
{
    bits_or_words(encode_picture(encoder, frame))
}

/// The settings of an encoder for a number of frames and bits a second.
pub open spec fn software_settings(
    fps: u32,
    bitrate_bps: u32,
    frame_rate: FrameRate,
) -> EncoderSettings {
    EncoderSettings {
        usage_type: UsageType::ScreenContentRealTime,
        bitrate_bps,
        max_frame_rate: frame_rate,
        rate_control_mode: RateControlMode::Bitrate,
        profile: None,
        level: None,
        qp_min: 0,
        qp_max: 51,
        intra_frame_period: fps,
        complexity: Complexity::Low,
        scene_change_detect: false,
        adaptive_quantization: false,
        background_detection: false,
        skip_frames: false,
    }
}

/// An encoder for pictures of one size.
pub struct H264Encoder {
    pub dimensions: (usize, usize),
    pub name: &'static str,
    pub inner: Encoder,
}

impl H264Encoder {
    /// An encoder that was opened for pictures of one size, or why there is none.
    pub fn with_encoder(dimensions: (usize, usize), opened: Result<Encoder, String>) -> (encoder:
        Result<H264Encoder, String>)
        ensures
            match opened {
                Ok(inner) => {
                    &&& encoder matches Ok(e)
                    &&& e.dimensions == dimensions
                    &&& e.name@ == SOFTWARE_ENCODER_NAME@
                    &&& e.inner == inner
                },
                Err(text) => encoder == Err::<H264Encoder, String>(text),
            },
    {
        match opened {
            Ok(inner) => Ok(H264Encoder { dimensions, name: SOFTWARE_ENCODER_NAME, inner }),
            Err(text) => Err(text),
        }
    }

    /// Opens an encoder, or says why there is none. `frame_rate` is `fps` in the encoder's own
    /// measure.
    pub fn new(
        dimensions: (usize, usize),
        fps: u32,
        bitrate_bps: u32,
        frame_rate: FrameRate,
    ) -> (encoder: Result<H264Encoder, String>)
        ensures
            encoder matches Ok(e) ==> {
                &&& e.dimensions == dimensions
                &&& e.name@ == SOFTWARE_ENCODER_NAME@
                &&& encoder_settings(e.inner) == software_settings(fps, bitrate_bps, frame_rate)
                &&& encoder_pictures(e.inner) == Seq::<YuvImage>::empty()
                &&& encoder_bits(e.inner) == Seq::<Option<Seq<u8>>>::empty()
            },
            encoder matches Err(text) ==> is_codec_error(text),
    {
        let config = EncoderConfig::new().usage_type(UsageType::ScreenContentRealTime).bitrate(
            BitRate::from_bps(bitrate_bps),
        ).max_frame_rate(frame_rate).rate_control_mode(
            RateControlMode::Bitrate,
        ).intra_frame_period(IntraFramePeriod::from_num_frames(fps)).complexity(
            Complexity::Low,
        ).scene_change_detect(false).adaptive_quantization(false).background_detection(
            false,
        ).skip_frames(false);
        H264Encoder::with_encoder(dimensions, open_encoder(config))
    }

    /// The size that the encoder was opened for.
    pub fn dimensions(&self) -> (dimensions: (usize, usize))
        ensures
            dimensions == self.dimensions,
    {
        self.dimensions
    }

    /// What the encoder is called.
    pub fn name(&self) -> (name: &'static str)
        ensures
            name == self.name,
    {
        self.name
    }

    /// Encodes a picture.
    pub fn encode(&mut self, frame: &YUVBuffer) -> (bits: Result<Vec<u8>, String>)
        ensures
            final(self).dimensions == old(self).dimensions,
            final(self).name == old(self).name,
            encoder_settings(final(self).inner) == encoder_settings(old(self).inner),
            encoder_pictures(final(self).inner) == encoder_pictures(old(self).inner).push(
                yuv_image(*frame),
            ),
            encoder_bits(final(self).inner) == encoder_bits(old(self).inner).push(
                match bits {
                    Ok(b) => Some(b@),
                    Err(_) => None,
                },
            ),
            bits matches Err(text) ==> is_codec_error(text),
            yuv_image(*frame).width <= i32::MAX && yuv_image(*frame).height <= i32::MAX
                && too_large_to_encode(yuv_image(*frame)) ==> bits is Err,
            encoder_settings(old(self).inner).bitrate_bps > i32::MAX ==> bits is Err,
    {
        encode(&mut self.inner, frame)
    }
}

/// The encoder in software is set up for a screen in real time, at the bits a second that were asked
/// for and with a picture of its own every second. What is not asked for is left to the encoder.
pub proof fn a_picture_is_encoded_for_a_screen(fps: u32, bitrate_bps: u32, frame_rate: FrameRate)
    ensures
        ({
            let settings = software_settings(fps, bitrate_bps, frame_rate);
            &&& settings.usage_type == UsageType::ScreenContentRealTime
            &&& settings.bitrate_bps == bitrate_bps
            &&& settings.max_frame_rate == frame_rate
            &&& settings.rate_control_mode == RateControlMode::Bitrate
            &&& settings.profile is None
            &&& settings.level is None
            &&& settings.qp_min == 0
            &&& settings.qp_max == 51
            &&& settings.intra_frame_period == fps
            &&& settings.complexity == Complexity::Low
            &&& !settings.scene_change_detect
            &&& !settings.adaptive_quantization
            &&& !settings.background_detection
            &&& !settings.skip_frames
        }),
{
}

} // verus!
