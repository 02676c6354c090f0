//! Frames of video, and the canvas that shows the latest of them.

use crate::picture::{rgba_len, shared_bytes, RgbaPicture};
use std::sync::Arc;
use vstd::prelude::*;
use vstd::slice::*;

verus! {

/// The colour behind a frame, and in place of one.
pub const CANVAS_BACKGROUND: u32 = 0x111111;

/// A frame in one of the forms that can be shown.
#[derive(Debug)]
pub enum VideoFrame {
    /// Pixels in memory.
    CpuRgba(CpuRgbaFrame),
    /// A buffer that macOS keeps, by the number under which the window knows it.
    MacCvPixelBuffer(u64),
    /// A texture on a Windows graphics device.
    WindowsD3D11Texture(WindowsGpuFrame),
}

/// A frame whose pixels are in memory, four bytes each: red, green, blue, alpha.
#[derive(Debug)]
pub struct CpuRgbaFrame {
    pub width: u32,
    pub height: u32,
    pub pixels: Arc<[u8]>,
}

/// A frame on a Windows graphics device. There is no way to show one yet.
#[derive(Clone, Copy, Debug)]
pub struct WindowsGpuFrame {}

/// What stands in a canvas.
#[derive(Debug)]
pub enum FrameView {
    /// A picture, scaled to fit.
    Picture(RgbaPicture),
    /// The buffer with this number, scaled to fit.
    Surface(u64),
    /// Nothing but a colour.
    Empty { background: u32 },
}

impl Clone for VideoFrame {
    /// The same frame.
    fn clone(&self) -> (copy: VideoFrame)
        ensures
            copy == *self,
    {
        match self {
            VideoFrame::CpuRgba(frame) => VideoFrame::CpuRgba(frame.clone()),
            VideoFrame::MacCvPixelBuffer(buffer) => VideoFrame::MacCvPixelBuffer(*buffer),
            VideoFrame::WindowsD3D11Texture(frame) => VideoFrame::WindowsD3D11Texture(
                frame.clone(),
            ),
        }
    }
}

impl Clone for CpuRgbaFrame {
    /// The same frame. Its pixels are shared.
    fn clone(&self) -> (copy: CpuRgbaFrame)
        ensures
            copy == *self,
    {
        CpuRgbaFrame { width: self.width, height: self.height, pixels: self.pixels.clone() }
    }
}

impl CpuRgbaFrame {
    /// Whether the pixels cover the size.
    pub open spec fn covers_size(self) -> bool {
        rgba_len(self.width, self.height) <= self.pixels@.len()
    }

    /// A frame of a decoded picture's pixels.
    pub fn new(width: u32, height: u32, pixels: &[u8]) -> (frame: CpuRgbaFrame)
        ensures
            frame.width == width,
            frame.height == height,
            frame.pixels@ == pixels@,
    {
        CpuRgbaFrame { width, height, pixels: shared_bytes(pixels) }
    }

    /// The frame as a picture. `None` if it has fewer pixels than its size asks for.
    pub fn render_image(self) -> (picture: Option<RgbaPicture>)
        ensures
            picture is Some <==> self.covers_size(),
            picture matches Some(p) ==> {
                &&& p.width == self.width
                &&& p.height == self.height
                &&& p.pixels@ == self.pixels@
            },
    {
        RgbaPicture::from_raw(self.width, self.height, slice_to_vec(&self.pixels))
    }

    /// The frame as it is shown: its picture, or an empty canvas if it has too few pixels.
    pub fn render(self) -> (view: FrameView)
        ensures
            shows(view, VideoFrame::CpuRgba(self)),
    {
        match self.render_image() {
            Some(picture) => FrameView::Picture(picture),
            None => FrameView::Empty { background: CANVAS_BACKGROUND },
        }
    }
}

impl WindowsGpuFrame {
    /// An empty canvas.
    pub fn render(self) -> (view: FrameView)
        ensures
            shows(view, VideoFrame::WindowsD3D11Texture(self)),
    {
        FrameView::Empty { background: CANVAS_BACKGROUND }
    }
}

/// Whether `view` is what a canvas shows of `frame`.
pub open spec fn shows(view: FrameView, frame: VideoFrame) -> bool {
    match frame {
        VideoFrame::CpuRgba(cpu) if cpu.covers_size() => {
            &&& view matches FrameView::Picture(p)
            &&& p.width == cpu.width
            &&& p.height == cpu.height
            &&& p.pixels@ == cpu.pixels@
        },
        VideoFrame::MacCvPixelBuffer(buffer) => view == FrameView::Surface(buffer),
        _ => view == (FrameView::Empty { background: CANVAS_BACKGROUND }),
    }
}

impl VideoFrame {
    /// A frame of one colour.
    pub fn solid_rgba(width: u32, height: u32, color: [u8; 4]) -> (frame: VideoFrame)
        requires
            rgba_len(width, height) <= usize::MAX,
        ensures
            frame matches VideoFrame::CpuRgba(cpu) && {
                &&& cpu.width == width
                &&& cpu.height == height
                &&& cpu.pixels@ == Seq::new(rgba_len(width, height), |i: int| color@[i % 4])
            },
    {
        let mut pixels: Vec<u8> = Vec::new();
        let mut row: u32 = 0;
        while row < height
            invariant
                row <= height,
                pixels@ == Seq::new((4 * width * row) as nat, |i: int| color@[i % 4]),
            decreases height - row,
        {
            let mut column: u32 = 0;
            while column < width
                invariant
                    column <= width,
                    pixels@ == Seq::new(
                        (4 * width * row + 4 * column) as nat,
                        |i: int| color@[i % 4],
                    ),
                decreases width - column,
            {
                let ghost before = pixels@;
                pixels.push(color[0]);
                pixels.push(color[1]);
                pixels.push(color[2]);
                pixels.push(color[3]);
                proof {
                    let n = 4 * width * row + 4 * column;
                    assert(n == 4 * (width * row + column)) by (nonlinear_arith)
                        requires
                            n == 4 * width * row + 4 * column,
                    ;
                    assert(pixels@ =~= Seq::new((n + 4) as nat, |i: int| color@[i % 4]));
                }
                column += 1;
            }
            assert(4 * width * row + 4 * width == 4 * width * (row + 1)) by (nonlinear_arith);
            row += 1;
        }
        VideoFrame::CpuRgba(CpuRgbaFrame::new(width, height, &pixels))
    }

    /// The frame as it is shown.
    pub fn render(self) -> (view: FrameView)
        ensures
            shows(view, self),
    {
        match self {
            VideoFrame::CpuRgba(frame) => frame.render(),
            VideoFrame::MacCvPixelBuffer(buffer) => FrameView::Surface(buffer),
            VideoFrame::WindowsD3D11Texture(frame) => frame.render(),
        }
    }
}

/// The part of the window that shows the latest frame.
#[derive(Debug)]
pub struct VideoCanvas {
    pub frame: Option<VideoFrame>,
}

/// A canvas as it is laid out: an identifier, a colour behind everything, and what stands in it.
#[derive(Debug)]
pub struct CanvasView {
    pub id: &'static str,
    pub background: u32,
    pub content: FrameView,
}

/// Whether `view` is a canvas that shows `frame`, or nothing.
pub open spec fn shows_canvas(view: CanvasView, frame: Option<VideoFrame>) -> bool {
    &&& view.id@ == "video-canvas"@
    &&& view.background == CANVAS_BACKGROUND
    &&& match frame {
        Some(frame) => shows(view.content, frame),
        None => view.content == (FrameView::Empty { background: CANVAS_BACKGROUND }),
    }
}

impl VideoCanvas {
    /// A canvas that shows `frame`, or nothing.
    pub fn new(frame: Option<VideoFrame>) -> (canvas: VideoCanvas)
        ensures
            canvas == (VideoCanvas { frame }),
    {
        VideoCanvas { frame }
    }

    /// Lays the canvas out.
    pub fn into_element(self) -> (view: CanvasView)
        ensures
            shows_canvas(view, self.frame),
    {
        let content = match self.frame {
            Some(frame) => frame.render(),
            None => FrameView::Empty { background: CANVAS_BACKGROUND },
        };
        CanvasView { id: "video-canvas", background: CANVAS_BACKGROUND, content }
    }
}

/// A frame whose pixels cover its size is shown whole: the same size, the same pixels, in their
/// order. One with too few pixels leaves the canvas dark.
pub proof fn a_whole_frame_is_shown_whole(view: FrameView, frame: CpuRgbaFrame)
    requires
        shows(view, VideoFrame::CpuRgba(frame)),
    ensures
        4 * frame.width * frame.height <= frame.pixels@.len() ==> (
        view matches FrameView::Picture(picture) && picture.width == frame.width && picture.height
            == frame.height && picture.pixels@ == frame.pixels@),
        4 * frame.width * frame.height > frame.pixels@.len() ==> view == (FrameView::Empty {
            background: 0x111111,
        }),
{
}

/// A buffer of macOS is shown as it is, and a texture on a Windows device leaves the canvas dark.
pub proof fn other_frames_are_shown_as_they_can_be(
    surface: FrameView,
    buffer: u64,
    dark: FrameView,
    texture: WindowsGpuFrame,
)
    requires
        shows(surface, VideoFrame::MacCvPixelBuffer(buffer)),
        shows(dark, VideoFrame::WindowsD3D11Texture(texture)),
    ensures
        surface == FrameView::Surface(buffer),
        dark == (FrameView::Empty { background: 0x111111 }),
{
}

/// The canvas shows the frame that it was given, and is dark without one.
pub proof fn the_canvas_shows_its_frame(view: CanvasView, frame: Option<VideoFrame>)
    requires
        shows_canvas(view, frame),
    ensures
        view.id@ == "video-canvas"@,
        view.background == 0x111111,
        frame matches Some(shown) ==> shows(view.content, shown),
        frame is None ==> view.content == (FrameView::Empty { background: 0x111111 }),
{
}

/// A frame covers its size if it has four bytes for each pixel.
pub proof fn a_frame_needs_four_bytes_a_pixel(frame: CpuRgbaFrame)
    ensures
        frame.covers_size() <==> 4 * frame.width * frame.height <= frame.pixels@.len(),
{
}

} // verus!
