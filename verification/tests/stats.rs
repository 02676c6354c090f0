use pomme_screenshare::client::stats::{
    elapsed_since, CaptureStats, ReceiveStats, ShareSendStats, MAX_DURATION,
};
use std::time::Duration;

const SECOND: u128 = 1_000_000_000;

#[test]
fn the_longest_duration_is_std_s() {
    assert_eq!(MAX_DURATION, Duration::MAX.as_nanos());
    assert_eq!(elapsed_since(5, 9), 4);
    assert_eq!(elapsed_since(9, 5), 0);
}

#[test]
fn sent_frames_are_reported_once_a_second() {
    let mut stats = ShareSendStats::default();
    assert!(stats.record(100, 1, 2, 3, 10, (64, 48)).is_none());
    assert_eq!(stats.started_at, Some(100));
    assert!(stats.record(100 + SECOND - 1, 1, 2, 3, 10, (64, 48)).is_none());
    let report = stats.record(100 + SECOND, 10, 20, 30, 5, (32, 24)).unwrap();
    assert_eq!((report.elapsed, report.frames, report.bytes), (SECOND, 3, 25));
    assert_eq!((report.wait_time, report.encode_time, report.write_time), (12, 24, 36));
    assert_eq!((report.width, report.height), (32, 24));
    assert_eq!((stats.started_at, stats.frames, stats.bytes), (Some(100 + SECOND), 0, 0));
    assert_eq!((stats.width, stats.height), (0, 0));
    assert!(stats.record(100 + 2 * SECOND - 1, 1, 2, 3, 10, (64, 48)).is_none());
    assert!(stats.record(100 + 2 * SECOND, 1, 2, 3, 10, (64, 48)).is_some());
    stats.reset(77);
    assert_eq!((stats.started_at, stats.frames), (Some(77), 0));
}

#[test]
fn received_frames_are_reported_once_a_second() {
    let mut stats = ReceiveStats::default();
    assert!(stats.record(0, 1, 2, 3, 4, 10, (64, 48)).is_none());
    let report = stats.record(SECOND + 5, 1, 2, 3, 4, 7, (8, 6)).unwrap();
    assert_eq!((report.elapsed, report.frames, report.bytes), (SECOND + 5, 2, 17));
    assert_eq!(
        (report.read_time, report.decode_time, report.rgba_time, report.publish_time),
        (2, 4, 6, 8)
    );
    assert_eq!((report.width, report.height), (8, 6));
    assert_eq!((stats.started_at, stats.frames, stats.read_time), (Some(SECOND + 5), 0, 0));
    stats.reset(1);
    assert_eq!(stats.started_at, Some(1));
}

#[test]
fn captured_frames_are_reported_once_a_second() {
    let mut stats = CaptureStats::default();
    assert!(stats.record(50, 1, 2, 3, (64, 48)).is_none());
    let report = stats.record(50 + SECOND, 1, 2, 3, (8, 6)).unwrap();
    assert_eq!((report.elapsed, report.frames), (SECOND, 2));
    assert_eq!((report.buffer_time, report.convert_time, report.publish_time), (2, 4, 6));
    assert_eq!((report.width, report.height), (8, 6));
    assert_eq!((stats.started_at, stats.frames, stats.buffer_time), (Some(50 + SECOND), 0, 0));
    stats.reset(2);
    assert_eq!(stats.started_at, Some(2));
}
