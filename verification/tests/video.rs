use pomme_screenshare::client::video::{
    CpuRgbaFrame, FrameView, VideoCanvas, VideoFrame, WindowsGpuFrame,
};

fn picture(view: FrameView) -> (u32, u32, Vec<u8>) {
    match view {
        FrameView::Picture(p) => (p.width, p.height, p.pixels),
        other => panic!("{other:?}"),
    }
}

#[test]
fn a_frame_is_shown_as_it_is() {
    let frame = CpuRgbaFrame::new(1, 2, &[1, 2, 3, 4, 5, 6, 7, 8]);
    let view = VideoCanvas::new(Some(VideoFrame::CpuRgba(frame))).into_element();
    assert_eq!(view.id, "video-canvas");
    assert_eq!(view.background, 0x111111);
    assert_eq!(picture(view.content), (1, 2, vec![1, 2, 3, 4, 5, 6, 7, 8]));
}

#[test]
fn a_frame_with_too_few_pixels_is_empty() {
    let frame = CpuRgbaFrame::new(2, 2, &[0; 15]);
    assert!(frame.clone().render_image().is_none());
    assert!(matches!(frame.render(), FrameView::Empty { background: 0x111111 }));
}

#[test]
fn there_is_nothing_to_show_at_first() {
    let view = VideoCanvas::new(None).into_element();
    assert!(matches!(view.content, FrameView::Empty { background: 0x111111 }));
    let texture = VideoFrame::WindowsD3D11Texture(WindowsGpuFrame {});
    assert!(matches!(texture.clone().render(), FrameView::Empty { background: 0x111111 }));
}

#[test]
fn a_buffer_of_the_system_is_shown_by_its_number() {
    let frame = VideoFrame::MacCvPixelBuffer(12);
    assert!(matches!(frame.clone().render(), FrameView::Surface(12)));
}

#[test]
fn a_solid_frame_has_one_colour() {
    let frame = VideoFrame::solid_rgba(2, 2, [9, 8, 7, 6]);
    let copy = frame.clone();
    let expected = (2, 2, [9, 8, 7, 6].repeat(4));
    assert_eq!(picture(frame.render()), expected);
    assert_eq!(picture(copy.render()), expected);
    assert_eq!(picture(VideoFrame::solid_rgba(0, 3, [1; 4]).render()), (0, 3, vec![]));
}
