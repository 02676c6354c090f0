use pomme_screenshare::client::receive::{
    connection_lost_message, end_event, shown_len, video_payload, FramePoll, PollAction, ReceiveEvent,
    FRAME_POLL_INTERVAL, FRAME_STALE_TIMEOUT,
};
use pomme_screenshare::client::video::{CpuRgbaFrame, VideoFrame};

fn frame() -> Option<ReceiveEvent> {
    Some(ReceiveEvent::Frame(CpuRgbaFrame::new(1, 1, &[1, 2, 3, 4])))
}

#[test]
fn the_window_has_its_times() {
    assert_eq!(FRAME_POLL_INTERVAL, 16_000_000);
    assert_eq!(FRAME_STALE_TIMEOUT, 10_000_000_000);
}

#[test]
fn only_video_has_a_payload() {
    assert_eq!(video_payload(&[]), Ok(None));
    assert_eq!(video_payload(&[0, 1]), Ok(None));
    assert_eq!(video_payload(&[2]), Ok(None));
    assert_eq!(video_payload(&[1]), Ok(None));
    assert_eq!(video_payload(&[1, 7, 8]), Ok(Some(&[7u8, 8][..])));
    assert_eq!(video_payload(&[3, 7]), Err("unknown message type: 3".to_string()));
}

#[test]
fn a_stale_frame_is_taken_away_once() {
    let mut poll = FramePoll::new();
    assert!(matches!(poll.poll(5, None), PollAction::Nothing));
    match poll.poll(10, frame()) {
        PollAction::Show(VideoFrame::CpuRgba(shown)) => assert_eq!(&shown.pixels[..], &[1, 2, 3, 4]),
        other => panic!("{other:?}"),
    }
    assert!(matches!(poll.poll(10 + FRAME_STALE_TIMEOUT - 1, None), PollAction::Nothing));
    assert!(matches!(poll.poll(10 + FRAME_STALE_TIMEOUT, None), PollAction::ClearFrame));
    assert!(matches!(poll.poll(11 + 2 * FRAME_STALE_TIMEOUT, None), PollAction::Nothing));
}

#[test]
fn a_new_frame_starts_its_own_time() {
    let mut poll = FramePoll::new();
    poll.poll(0, frame());
    poll.poll(FRAME_STALE_TIMEOUT, frame());
    assert!(matches!(poll.poll(2 * FRAME_STALE_TIMEOUT - 1, None), PollAction::Nothing));
}

#[test]
fn an_error_ends_the_connection() {
    let mut poll = FramePoll::new();
    match poll.poll(0, Some(ReceiveEvent::Error("gone".to_string()))) {
        PollAction::ConnectionLost(text) => assert_eq!(text, "Connection lost: gone"),
        other => panic!("{other:?}"),
    }
    assert_eq!(connection_lost_message("x"), "Connection lost: x");
}

#[test]
fn the_end_is_told_if_there_is_a_reason() {
    assert!(end_event(Ok(())).is_none());
    match end_event(Err("why".to_string())) {
        Some(ReceiveEvent::Error(text)) => assert_eq!(text, "why"),
        other => panic!("{other:?}"),
    }
}

#[test]
fn a_picture_is_shown_where_its_planes_cover_it() {
    assert_eq!(shown_len((64, 48), (64, 32, 32)), Some(64 * 48 * 4));
    assert_eq!(shown_len((62, 48), (96, 48, 48)), Some(62 * 48 * 4));
    assert_eq!(shown_len((63, 48), (64, 32, 32)), Some(63 * 48 * 4));
    assert_eq!(shown_len((0, 0), (0, 0, 0)), Some(0));
    assert_eq!(shown_len((100, 0), (64, 32, 32)), Some(0));
    assert_eq!(shown_len((100, 2), (64, 32, 32)), None);
    assert_eq!(shown_len((66, 48), (64, 64, 64)), None);
    assert_eq!(shown_len((64, 48), (64, 31, 32)), None);
    assert_eq!(shown_len((64, 48), (64, 32, 31)), None);
    assert_eq!(shown_len((63, 48), (64, 31, 32)), None);
    assert_eq!(shown_len((64, 47), (64, 32, 32)), None);
    assert_eq!(shown_len((2, 0x4000_0000), (2, 1, 1)), None);
    assert_eq!(shown_len((1, 0x7fff_fffe), (1, 1, 1)), Some(0x7fff_fffe * 4));
    assert_eq!(shown_len((0, usize::MAX - 1), (0, 0, 0)), None);
    assert_eq!(shown_len((usize::MAX - 1, 0), (usize::MAX, usize::MAX, usize::MAX)), None);
    assert_eq!(shown_len((2, 2), (2, usize::MAX, 1)), None);
}
