use pomme_screenshare::client::app::AppView;
use pomme_screenshare::client::video::{FrameView, VideoFrame};
use pomme_screenshare::demo::{
    fake_frame, DemoAction, DemoEffect, DemoScreen, FakeStream, PommeApp, FAKE_FRAME_INTERVAL,
};

fn color(frame: VideoFrame) -> [u8; 4] {
    match frame.render() {
        FrameView::Picture(picture) => {
            assert_eq!((picture.width, picture.height), (640, 360));
            let first = [
                picture.pixels[0],
                picture.pixels[1],
                picture.pixels[2],
                picture.pixels[3],
            ];
            assert!(picture.pixels.chunks(4).all(|pixel| pixel == first));
            first
        }
        other => panic!("{other:?}"),
    }
}

#[test]
fn black_and_white_take_turns() {
    assert_eq!(FAKE_FRAME_INTERVAL, 1_000_000_000);
    let mut stream = FakeStream::new();
    for n in 1..=4 {
        let expected = if n % 2 == 1 { [255; 4] } else { [0, 0, 0, 255] };
        assert_eq!(color(stream.next_frame()), expected);
    }
    assert_eq!(color(fake_frame(true)), [255; 4]);
}

#[test]
fn the_demo_opens_with_two_buttons() {
    let app = PommeApp::new();
    match app.render() {
        DemoScreen::Connect(screen) => {
            assert_eq!(screen.title, "Pomme Screenshare");
            assert_eq!((screen.background, screen.text_color), (0xf7f5f2, 0x1f2933));
            assert_eq!((screen.connect.id, screen.connect.label), ("connect-button", "Connect"));
            assert_eq!(screen.connect.action, Some(DemoAction::Connect));
            assert_eq!(screen.connect.background, 0xffffff);
            assert_eq!((screen.quit.id, screen.quit.label), ("quit-button", "Quit"));
            assert_eq!(screen.quit.action, Some(DemoAction::Quit));
        }
        other => panic!("{other:?}"),
    }
}

#[test]
fn connecting_starts_the_stream() {
    let mut app = PommeApp::new();
    assert_eq!(app.click(DemoAction::Quit), DemoEffect::Quit);
    assert_eq!(app.view, AppView::Connect);
    assert_eq!(app.click(DemoAction::Connect), DemoEffect::Stream);
    assert_eq!(app.view, AppView::Connected);
    assert!(app.stream_task);
    assert_eq!(color(app.frame.clone().unwrap()), [0, 0, 0, 255]);
    app.show(fake_frame(true));
    match app.render() {
        DemoScreen::Connected { background, canvas } => {
            assert_eq!(background, 0);
            match canvas.content {
                FrameView::Picture(picture) => assert_eq!(&picture.pixels[..4], &[255; 4]),
                other => panic!("{other:?}"),
            }
        }
        other => panic!("{other:?}"),
    }
}
