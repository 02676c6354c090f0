use openh264::formats::{YUVBuffer, YUVSource};
use pomme_screenshare::client::media_foundation::{
    append_sample_bytes, create_encoder_transform, encoder_setup,
    ensure_media_foundation_started, format_windows_error, input_type, output_type, pack_ratio,
    write_nv12_chroma, AttributeKey, AttributeValue, ComOutcome, DrainAction, HardwareEncoders,
    MediaFoundationH264Encoder, OutputEvent, SetupStep, TransformKind,
};
use pomme_screenshare::client::stream::bgra_bytes_to_yuv;

fn picture(width: u32, height: u32) -> YUVBuffer {
    let pixels: Vec<u8> = (0..width * height * 4).map(|n| (n * 37) as u8).collect();
    bgra_bytes_to_yuv(&pixels, width, height).unwrap()
}

fn encoder() -> MediaFoundationH264Encoder {
    MediaFoundationH264Encoder::new((4, 2), 30, TransformKind::Hardware, 5)
}

#[test]
fn two_numbers_are_packed_into_one() {
    assert_eq!(pack_ratio(1, 1), 0x1_0000_0001);
    assert_eq!(pack_ratio(640, 360), (640 << 32) | 360);
    assert_eq!(pack_ratio(u32::MAX, u32::MAX), u64::MAX);
    assert_eq!(pack_ratio(0, 7), 7);
}

#[test]
fn the_bits_are_described_first() {
    let steps = encoder_setup((640, 360), 30, 2_000_000);
    assert_eq!(steps.len(), 4);
    match &steps[0] {
        SetupStep::SetOutputType(attributes) => {
            assert_eq!(*attributes, output_type((640, 360), 30, 2_000_000))
        }
        other => panic!("{other:?}"),
    }
    match &steps[1] {
        SetupStep::SetInputType(attributes) => assert_eq!(*attributes, input_type((640, 360), 30)),
        other => panic!("{other:?}"),
    }
    assert!(matches!(steps[2], SetupStep::BeginStreaming));
    assert!(matches!(steps[3], SetupStep::StartOfStream));
}

#[test]
fn the_types_have_their_attributes() {
    let frame_size = (AttributeKey::FrameSize, AttributeValue::U64((640 << 32) | 360));
    let frame_rate = (AttributeKey::FrameRate, AttributeValue::U64((30 << 32) | 1));
    let aspect = (AttributeKey::PixelAspectRatio, AttributeValue::U64((1 << 32) | 1));
    let interlace = (AttributeKey::InterlaceMode, AttributeValue::Progressive);
    assert_eq!(
        output_type((640, 360), 30, 5_000),
        vec![
            (AttributeKey::MajorType, AttributeValue::Video),
            (AttributeKey::Subtype, AttributeValue::H264),
            (AttributeKey::AvgBitrate, AttributeValue::U32(5_000)),
            frame_size,
            frame_rate,
            aspect,
            interlace,
        ]
    );
    assert_eq!(
        input_type((640, 360), 30),
        vec![
            (AttributeKey::MajorType, AttributeValue::Video),
            (AttributeKey::Subtype, AttributeValue::Nv12),
            frame_size,
            frame_rate,
            aspect,
            interlace,
        ]
    );
}

#[test]
fn hardware_comes_first() {
    let found = HardwareEncoders { enumerated: true, count: 2, has_list: true, has_first: true };
    let plan = create_encoder_transform(found);
    assert_eq!((plan.kind, plan.free_list), (Ok(TransformKind::Hardware), true));
    let plan = create_encoder_transform(HardwareEncoders { has_first: false, ..found });
    assert_eq!(
        (plan.kind, plan.free_list),
        (Err("Media Foundation hardware encoder activation missing".to_string()), false)
    );
    let plan = create_encoder_transform(HardwareEncoders { count: 0, ..found });
    assert_eq!((plan.kind, plan.free_list), (Ok(TransformKind::Software), true));
    let plan = create_encoder_transform(HardwareEncoders { enumerated: false, ..found });
    assert_eq!((plan.kind, plan.free_list), (Ok(TransformKind::Software), true));
    let plan = create_encoder_transform(HardwareEncoders { has_list: false, ..found });
    assert_eq!((plan.kind, plan.free_list), (Ok(TransformKind::Software), false));
}

#[test]
fn another_mode_is_no_obstacle() {
    assert_eq!(ensure_media_foundation_started(&ComOutcome::Ready), Ok(()));
    assert_eq!(ensure_media_foundation_started(&ComOutcome::ChangedMode), Ok(()));
    assert_eq!(
        ensure_media_foundation_started(&ComOutcome::Failed("no".to_string())),
        Err("Media Foundation H.264 encoder error: no".to_string())
    );
    assert_eq!(format_windows_error("x"), "Media Foundation H.264 encoder error: x");
}

#[test]
fn an_encoder_knows_its_name_and_times() {
    let mut hardware = encoder();
    assert_eq!(hardware.name(), "Media Foundation hardware H.264 encoder");
    assert!(hardware.needs_shutdown());
    assert_eq!(hardware.output_buffer_size, 1024 * 1024);
    assert_eq!((hardware.frame_duration, hardware.sample_time), (333_333, 0));
    hardware.input_accepted();
    hardware.input_accepted();
    assert_eq!(hardware.sample_time, 666_666);
    let software =
        MediaFoundationH264Encoder::new((4, 2), 7, TransformKind::Software, 2_000_000);
    assert_eq!(software.name(), "Media Foundation software H.264 encoder");
    assert!(!software.needs_shutdown());
    assert_eq!(software.output_buffer_size, 2_000_000);
    assert_eq!(software.frame_duration, 1_428_571);
    assert_eq!(software.dimensions, (4, 2));
}

#[test]
fn colours_are_written_in_turn() {
    let mut output = [0; 7];
    write_nv12_chroma(&[1, 2, 3], &[4, 5, 6], &mut output);
    assert_eq!(output, [1, 4, 2, 5, 3, 6, 0]);
    let mut output = [9; 6];
    write_nv12_chroma(&[1, 2, 3], &[4], &mut output);
    assert_eq!(output, [1, 4, 9, 9, 9, 9]);
    let mut output = [9; 3];
    write_nv12_chroma(&[1, 2, 3], &[4, 5, 6], &mut output);
    assert_eq!(output, [1, 4, 9]);
}

#[test]
fn a_picture_is_fed_with_its_time() {
    let mut encoder = encoder();
    encoder.input_accepted();
    let frame = picture(4, 2);
    let sample = encoder.encode(&frame).unwrap();
    let mut expected = frame.y().to_vec();
    expected.extend([frame.u()[0], frame.v()[0], frame.u()[1], frame.v()[1]]);
    assert_eq!(sample.bytes, expected);
    assert_eq!((sample.time, sample.duration), (333_333, 333_333));
    assert_eq!(encoder.create_input_sample(&frame).bytes, expected);
}

#[test]
fn a_picture_of_another_size_is_refused() {
    for (width, height) in [(2, 4), (4, 4), (2, 2)] {
        assert_eq!(
            encoder().encode(&picture(width, height)).unwrap_err(),
            "Media Foundation encoder frame dimensions changed"
        );
    }
}

#[test]
fn bits_are_gathered_until_the_answer_is_complete() {
    let mut bits = vec![7];
    let event = OutputEvent::Produced { sample: Some(&[1, 2]), incomplete: true };
    assert_eq!(encoder().drain_output(event, &mut bits), Ok(DrainAction::AskAgain));
    let event = OutputEvent::Produced { sample: None, incomplete: true };
    assert_eq!(encoder().drain_output(event, &mut bits), Ok(DrainAction::AskAgain));
    let event = OutputEvent::Produced { sample: Some(&[3]), incomplete: false };
    assert_eq!(encoder().drain_output(event, &mut bits), Ok(DrainAction::Done));
    assert_eq!(bits, vec![7, 1, 2, 3]);
    assert_eq!(encoder().drain_output(OutputEvent::NeedMoreInput, &mut bits), Ok(DrainAction::Done));
    assert_eq!(
        encoder().drain_output(OutputEvent::Failed("bad".to_string()), &mut bits),
        Err("Media Foundation H.264 encoder error: bad".to_string())
    );
    append_sample_bytes(&[], &mut bits);
    assert_eq!(bits, vec![7, 1, 2, 3]);
}
