use pomme_screenshare::wire::{frame_length, read_frame, write_frame, FrameError};

#[test]
fn frame_has_its_length_in_front() {
    let mut out = Vec::new();
    write_frame(&mut out, &[7, 8]);
    assert_eq!(out, vec![0, 0, 0, 2, 7, 8]);
}

#[test]
fn length_is_most_significant_byte_first() {
    let mut out = Vec::new();
    write_frame(&mut out, &vec![1; 0x1_0203]);
    assert_eq!(&out[..4], &[0, 1, 2, 3]);
    assert_eq!(out.len(), 4 + 0x1_0203);
    assert_eq!(frame_length([0, 1, 2, 3], u32::MAX), Ok(0x1_0203));
    assert_eq!(frame_length([255, 255, 255, 255], u32::MAX), Ok(u32::MAX));
}

#[test]
fn frames_are_read_back_in_order() {
    let bodies: [&[u8]; 4] = [b"one", b"", b"three", &[0; 300]];
    let mut out = vec![9];
    for body in bodies {
        write_frame(&mut out, body);
    }
    let mut reader: &[u8] = &out[1..];
    for body in bodies {
        assert_eq!(read_frame(&mut reader, 300), Ok(body.to_vec()));
    }
    assert_eq!(read_frame(&mut reader, 300), Err(FrameError::NoLength));
}

#[test]
fn a_length_over_the_limit_is_refused() {
    let mut reader: &[u8] = &[0, 0, 0, 3, 1, 2, 3];
    assert_eq!(read_frame(&mut reader, 2), Err(FrameError::TooLarge(3)));
    assert_eq!(reader, &[1, 2, 3]);
    let mut reader: &[u8] = &[0, 0, 0, 3, 1, 2, 3];
    assert_eq!(read_frame(&mut reader, 3), Ok(vec![1, 2, 3]));
    assert_eq!(frame_length([1, 0, 0, 1], 0x100_0000), Err(FrameError::TooLarge(0x100_0001)));
    assert_eq!(frame_length([1, 0, 0, 0], 0x100_0000), Ok(0x100_0000));
}

#[test]
fn a_stream_that_ends_early_is_used_up() {
    let mut reader: &[u8] = &[0, 0, 0];
    assert_eq!(read_frame(&mut reader, 10), Err(FrameError::NoLength));
    assert!(reader.is_empty());
    let mut reader: &[u8] = &[0, 0, 0, 3, 1, 2];
    assert_eq!(read_frame(&mut reader, 10), Err(FrameError::Truncated));
    assert!(reader.is_empty());
}
