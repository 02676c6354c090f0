use openh264::encoder::FrameRate;
use openh264::formats::{YUVBuffer, YUVSource};
use pomme_screenshare::client::h264_encoder::H264Encoder;
use pomme_screenshare::client::message::{write_message, MessageType};
use pomme_screenshare::client::receive::{
    decode_frames, decode_message, decode_picture, frame_from_picture, open_decoder,
    receive_frames, receive_with, LatestEvent, Moment, ReceiveEvent,
};
use pomme_screenshare::client::share::CapturePlatform;
use pomme_screenshare::client::stream::{
    bgra_bytes_to_yuv, encoded_frame, on_closed, video_message, FramePacer, LatestFrame,
    ShareCaptureSource, ShareStep, ShareStream, STREAM_BITRATE_BPS, STREAM_FPS,
    STREAM_FRAME_INTERVAL,
};

use pomme_screenshare::h264::has_fitting_crops;

const INTERVAL: u128 = 33_000_000;

fn gradient(width: usize, height: usize) -> Vec<u8> {
    let mut bytes = Vec::new();
    for y in 0..height {
        for x in 0..width {
            bytes.extend([(x * 3) as u8, (y * 5) as u8, 128, 255]);
        }
    }
    bytes
}

fn picture(width: u32, height: u32) -> YUVBuffer {
    bgra_bytes_to_yuv(&gradient(width as usize, height as usize), width, height).unwrap()
}

#[test]
fn the_stream_has_its_numbers() {
    assert_eq!(STREAM_FPS, 30);
    assert_eq!(STREAM_FRAME_INTERVAL, INTERVAL);
    assert_eq!(STREAM_BITRATE_BPS, 2_000_000);
}

#[test]
fn a_frame_that_is_early_waits() {
    let mut pacer = FramePacer::new(1_000);
    assert_eq!(pacer.advance(1_000), Some(INTERVAL));
    assert_eq!(pacer.next_frame_at, 1_000 + INTERVAL);
    assert_eq!(pacer.advance(1_000 + INTERVAL + 5), Some(INTERVAL - 5));
    assert_eq!(pacer.advance(1_000 + 3 * INTERVAL), None);
    assert_eq!(pacer.next_frame_at, 1_000 + 3 * INTERVAL);
}

#[test]
fn a_frame_that_is_late_is_made_up_for() {
    let mut pacer = FramePacer::new(0);
    assert_eq!(pacer.advance(2 * INTERVAL), None);
    assert_eq!(pacer.next_frame_at, INTERVAL);
    assert_eq!(pacer.advance(2 * INTERVAL + 1), None);
    assert_eq!(pacer.advance(2 * INTERVAL + 2), Some(INTERVAL - 2));
}

#[test]
fn a_stream_that_is_too_late_starts_over() {
    let mut pacer = FramePacer::new(0);
    assert_eq!(pacer.advance(2 * INTERVAL + 1), None);
    assert_eq!(pacer.next_frame_at, 2 * INTERVAL + 1);
}

#[test]
fn a_stream_on_time_keeps_its_beat() {
    let mut pacer = FramePacer::new(500);
    for n in 0..100u128 {
        let scattered = 500 + n * INTERVAL + (n * 7919) % INTERVAL;
        pacer.advance(scattered);
        assert_eq!(pacer.next_frame_at, 500 + (n + 1) * INTERVAL);
    }
}

#[test]
fn a_skipped_picture_sends_nothing() {
    assert_eq!(video_message(&[]), None);
    assert_eq!(video_message(&[5, 6]), Some(vec![0, 0, 0, 3, 1, 5, 6]));
    let frame = encoded_frame(&[5, 6], (64, 48));
    assert_eq!((frame.bytes, frame.dimensions), (2, (64, 48)));
    assert_eq!(frame.message, Some(vec![0, 0, 0, 3, 1, 5, 6]));
    assert_eq!(encoded_frame(&[], (64, 48)).message, None);
}

#[test]
fn sides_are_rounded_down_to_even_numbers() {
    assert!(bgra_bytes_to_yuv(&[], 1, 100).is_none());
    assert!(bgra_bytes_to_yuv(&[], 100, 0).is_none());
    let buffer = bgra_bytes_to_yuv(&gradient(4, 2), 5, 3).unwrap();
    assert_eq!(buffer.dimensions(), (4, 2));
    assert_eq!((buffer.y().len(), buffer.u().len(), buffer.v().len()), (8, 2, 2));
}

#[test]
fn colours_become_brightness() {
    let white = bgra_bytes_to_yuv(&[255; 16], 2, 2).unwrap();
    let black = bgra_bytes_to_yuv(&[0, 0, 0, 255].repeat(4), 2, 2).unwrap();
    let blue = bgra_bytes_to_yuv(&[255, 0, 0, 255].repeat(4), 2, 2).unwrap();
    let red = bgra_bytes_to_yuv(&[0, 0, 255, 255].repeat(4), 2, 2).unwrap();
    assert!(white.y()[0] > 200 && black.y()[0] < 32);
    assert!(blue.u()[0] > 200 && blue.v()[0] < 128);
    assert!(red.v()[0] > 200 && red.u()[0] < 128);
}

#[test]
fn the_latest_picture_wins() {
    let mut latest = LatestFrame::new();
    assert!(latest.take().is_none());
    assert!(latest.on_frame_arrived(&gradient(4, 4), 4, 4));
    assert!(latest.on_frame_arrived(&gradient(8, 6), 8, 6));
    assert!(!latest.on_frame_arrived(&[], 1, 6));
    assert_eq!(latest.take().unwrap().dimensions(), (8, 6));
    assert!(latest.take().is_none());
    assert_eq!(on_closed(), Err("Share source closed.".to_string()));
}

#[test]
fn some_systems_cannot_share() {
    assert_eq!(
        ShareCaptureSource::new(None, 3).unwrap_err(),
        "Window sharing is only implemented for macOS and Windows."
    );
    let source = ShareCaptureSource::new(Some(CapturePlatform::Windows), 3).unwrap();
    assert_eq!((source.platform, source.source_id), (CapturePlatform::Windows, 3));
}

#[test]
fn a_shared_window_arrives() {
    let mut stream = ShareStream::open(FrameRate::from_hz(30.0), 0).unwrap();
    let mut sent = Vec::new();
    for n in 0..5u128 {
        let frame = picture(64, 48);
        match stream.frame_captured(Some(&frame)).unwrap() {
            ShareStep::Send(encoded) => {
                assert_eq!(encoded.dimensions, (64, 48));
                assert_eq!(encoded.message.is_some(), encoded.bytes > 0);
                if let Some(message) = &encoded.message {
                    assert_eq!(message.len(), encoded.bytes + 5);
                    sent.extend_from_slice(message);
                }
                let next = stream.frame_written(Ok(()), &encoded, n * INTERVAL, 1, 2, 3).unwrap();
                assert!(next.report.is_none());
                assert_eq!(next.wait, Some(INTERVAL));
                let lost = stream.frame_written(Err("gone".to_string()), &encoded, 0, 1, 2, 3);
                assert_eq!(lost.unwrap_err(), "gone");
            }
            ShareStep::Finished => panic!("the window is still there"),
        }
    }
    assert_eq!(stream.stats.frames, 5);
    assert!(matches!(stream.frame_captured(None), Ok(ShareStep::Finished)));

    let mut reader: &[u8] = &sent;
    let mut latest = LatestEvent::new();
    let mut decoder = open_decoder().unwrap();
    let end = decode_frames(&mut decoder, &mut reader, &mut latest, &|_| 0);
    assert_eq!(end, Err("failed to fill whole buffer".to_string()));
    assert!(reader.is_empty());
    match latest.take() {
        Some(ReceiveEvent::Frame(frame)) => {
            assert_eq!((frame.width, frame.height), (64, 48));
            assert_eq!(frame.pixels.len(), 64 * 48 * 4);
            assert!(frame.pixels.chunks(4).all(|pixel| pixel[3] == 255));
            let red: Vec<u8> = frame.pixels.chunks(4).map(|pixel| pixel[0]).collect();
            assert!(red.iter().all(|&value| value.abs_diff(128) < 40));
        }
        other => panic!("{other:?}"),
    }
}

/// The message of a first picture of this size.
fn first_message(width: u32, height: u32) -> Vec<u8> {
    let mut stream = ShareStream::open(FrameRate::from_hz(30.0), 0).unwrap();
    match stream.frame_captured(Some(&picture(width, height))).unwrap() {
        ShareStep::Send(encoded) => encoded.message.unwrap(),
        ShareStep::Finished => panic!("the window is still there"),
    }
}

#[test]
fn the_latest_frame_wins() {
    let mut sent = first_message(64, 48);
    sent.extend(first_message(32, 16));
    write_message(&mut sent, MessageType::Video, &[9, 9, 9]);
    write_message(&mut sent, MessageType::Ping, &[]);
    sent.extend([0, 0, 0, 1, 3, 7, 7]);
    let mut reader: &[u8] = &sent;
    let mut latest = LatestEvent::new();
    latest.publish(ReceiveEvent::Error("not heard yet".to_string()));
    let mut decoder = open_decoder().unwrap();
    let end = decode_frames(&mut decoder, &mut reader, &mut latest, &|_| 0);
    assert_eq!(end, Err("unknown message type: 3".to_string()));
    assert_eq!(reader, &[7, 7]);
    match latest.take() {
        Some(ReceiveEvent::Frame(frame)) => assert_eq!((frame.width, frame.height), (32, 16)),
        other => panic!("{other:?}"),
    }
}

#[test]
fn without_a_picture_nothing_new_is_told() {
    let mut bytes = Vec::new();
    write_message(&mut bytes, MessageType::Video, &[9, 9, 9]);
    write_message(&mut bytes, MessageType::Disconnect, &[]);
    let mut reader: &[u8] = &bytes;
    let mut latest = LatestEvent::new();
    latest.publish(ReceiveEvent::Error("not heard yet".to_string()));
    let mut decoder = open_decoder().unwrap();
    let end = decode_frames(&mut decoder, &mut reader, &mut latest, &|_| 0);
    assert_eq!(end, Err("failed to fill whole buffer".to_string()));
    match &latest.event {
        Some(ReceiveEvent::Error(text)) => assert_eq!(text, "not heard yet"),
        other => panic!("{other:?}"),
    }
    latest.publish(ReceiveEvent::Error("news".to_string()));
    assert!(matches!(latest.take(), Some(ReceiveEvent::Error(text)) if text == "news"));
    assert!(latest.take().is_none());
}

#[test]
fn a_decoded_frame_has_its_times() {
    let message = first_message(64, 48);
    let clock = |moment| match moment {
        Moment::DecodeStarted => 1,
        Moment::DecodeEnded => 4,
        Moment::RgbaStarted => 9,
        Moment::RgbaEnded => 16,
    };
    let mut decoder = open_decoder().unwrap();
    let decoded = decode_message(&mut decoder, &message[4..], &clock).unwrap().unwrap();
    assert_eq!((decoded.frame.width, decoded.frame.height), (64, 48));
    assert_eq!((decoded.decode_time, decoded.rgba_time), (4 - 1, 16 - 9));
}

#[test]
fn a_decoded_picture_becomes_a_frame() {
    let message = first_message(64, 48);
    let mut decoder = open_decoder().unwrap();
    let picture = decode_picture(&mut decoder, &message[5..]).unwrap();
    assert_eq!(picture.dimensions(), (64, 48));
    let frame = frame_from_picture(&picture).unwrap();
    let mut expected = vec![0; picture.rgba8_len()];
    picture.write_rgba8(&mut expected);
    assert_eq!(&frame.pixels[..], &expected[..]);
}

#[test]
fn a_picture_that_is_too_large_is_refused() {
    let mut encoder = H264Encoder::new((3842, 2), 30, 1_000_000, FrameRate::from_hz(30.0)).unwrap();
    assert_eq!(encoder.dimensions(), (3842, 2));
    assert_eq!(encoder.name(), "OpenH264 software encoder");
    let error = encoder.encode(&picture(3842, 2)).unwrap_err();
    assert!(error.contains("3840x2160"), "{error}");
    let mut encoder = H264Encoder::new((64, 48), 30, 1_000_000, FrameRate::from_hz(30.0)).unwrap();
    assert!(!encoder.encode(&picture(64, 48)).unwrap().is_empty());
}

#[test]
fn a_bit_rate_that_does_not_fit_is_refused() {
    let mut encoder = H264Encoder::new((64, 48), 30, 0x8000_0000, FrameRate::from_hz(30.0)).unwrap();
    assert!(encoder.encode(&picture(64, 48)).is_err());
}

#[test]
fn messages_that_are_no_video_are_passed_over() {
    let mut decoder = open_decoder().unwrap();
    assert!(matches!(decode_message(&mut decoder, &[], &|_| 0), Ok(None)));
    assert!(matches!(decode_message(&mut decoder, &[0], &|_| 0), Ok(None)));
    assert!(matches!(decode_message(&mut decoder, &[2, 1], &|_| 0), Ok(None)));
    assert!(matches!(decode_message(&mut decoder, &[1], &|_| 0), Ok(None)));
    assert!(matches!(decode_message(&mut decoder, &[1, 9, 9, 9], &|_| 0), Ok(None)));
    assert_eq!(
        decode_message(&mut decoder, &[3, 1], &|_| 0).unwrap_err(),
        "unknown message type: 3"
    );
}

#[test]
fn receiving_ends_with_its_reason() {
    let mut bytes = Vec::new();
    write_message(&mut bytes, MessageType::Ping, &[]);
    bytes.extend([0, 0, 0, 1, 9]);
    let mut reader: &[u8] = &bytes;
    let mut latest = LatestEvent::new();
    receive_frames(&mut reader, &mut latest, &|_| 0);
    match latest.take() {
        Some(ReceiveEvent::Error(text)) => assert_eq!(text, "unknown message type: 9"),
        other => panic!("{other:?}"),
    }
    let mut reader: &[u8] = &[1, 0, 0, 1];
    let mut latest = LatestEvent::new();
    receive_frames(&mut reader, &mut latest, &|_| 0);
    match latest.take() {
        Some(ReceiveEvent::Error(text)) => assert_eq!(text, "message too large: 16777217 bytes"),
        other => panic!("{other:?}"),
    }
}

#[test]
fn without_a_decoder_the_stream_is_left_alone() {
    let message = first_message(64, 48);
    let mut reader: &[u8] = &message;
    let mut latest = LatestEvent::new();
    receive_with(Err("no decoder".to_string()), &mut reader, &mut latest, &|_| 0);
    assert_eq!(reader, &message[..]);
    assert!(matches!(latest.take(), Some(ReceiveEvent::Error(text)) if text == "no decoder"));
}

#[test]
fn without_an_encoder_there_is_no_stream() {
    let missing = ShareStream::with_encoder(Err("no encoder".to_string()), 5);
    assert!(matches!(missing, Err(text) if text == "no encoder"));
    let missing = H264Encoder::with_encoder((2, 2), Err("no encoder".to_string()));
    assert!(matches!(missing, Err(text) if text == "no encoder"));
    let stream = ShareStream::open(FrameRate::from_hz(30.0), 5).unwrap();
    assert_eq!(stream.pacer.next_frame_at, 5);
    let opened = H264Encoder::with_encoder((6, 4), Ok(stream.encoder)).unwrap();
    assert_eq!((opened.dimensions(), opened.name()), ((6, 4), "OpenH264 software encoder"));
}

#[test]
fn encoded_pictures_have_fitting_crops() {
    for (width, height) in [(64, 48), (16, 16), (62, 34), (130, 18), (254, 250), (1366, 768)] {
        let message = first_message(width, height);
        assert!(has_fitting_crops(&message[5..]), "{width} by {height}");
        let mut decoder = open_decoder().unwrap();
        let decoded = decode_message(&mut decoder, &message[4..], &|_| 0).unwrap().unwrap();
        assert_eq!((decoded.frame.width, decoded.frame.height), (width, height));
    }
}
