//! A window that needs no relay: it shows black and white in turn.

use crate::client::app::AppView;
use crate::client::video::{shows_canvas, CanvasView, VideoCanvas, VideoFrame};
use crate::client::view::{is_button, Button, BLACK, HOVER, INK, PAPER, WHITE};
use crate::picture::rgba_len;
use vstd::prelude::*;

verus! {

/// The size of a frame.
pub const FAKE_WIDTH: u32 = 640;

pub const FAKE_HEIGHT: u32 = 360;

/// How long a frame stands, in nanoseconds.
pub const FAKE_FRAME_INTERVAL: u128 = 1_000_000_000;

/// The colour that the stream shows: white or black, opaque.
pub open spec fn fake_color(show_white: bool) -> Seq<u8> {
    if show_white {
        seq![255u8, 255, 255, 255]
    } else {
        seq![0u8, 0, 0, 255]
    }
}

/// Whether `frame` is white or black all over.
pub open spec fn is_fake_frame(frame: VideoFrame, show_white: bool) -> bool {
    frame matches VideoFrame::CpuRgba(cpu) && {
        &&& cpu.width == FAKE_WIDTH
        &&& cpu.height == FAKE_HEIGHT
        &&& cpu.pixels@ == Seq::new(
            rgba_len(FAKE_WIDTH, FAKE_HEIGHT),
            |i: int| fake_color(show_white)[i % 4],
        )
    }
}

/// A frame that is white or black all over.
pub fn fake_frame(show_white: bool) -> (frame: VideoFrame)
    ensures
        is_fake_frame(frame, show_white),
{
    let color: [u8; 4] = if show_white {
        [255, 255, 255, 255]
    } else {
        [0, 0, 0, 255]
    };
    assert(color@ =~= fake_color(show_white));
    VideoFrame::solid_rgba(FAKE_WIDTH, FAKE_HEIGHT, color)
}

/// A stream of black and white in turn. It starts out black.
#[derive(Debug)]
pub struct FakeStream {
    pub show_white: bool,
}

impl FakeStream {
    pub fn new() -> (stream: FakeStream)
        ensures
            !stream.show_white,
    {
        FakeStream { show_white: false }
    }

    /// The next frame: of the other colour.
    pub fn next_frame(&mut self) -> (frame: VideoFrame)
        ensures
            final(self).show_white == !old(self).show_white,
            is_fake_frame(frame, final(self).show_white),
    {
        self.show_white = !self.show_white;
        fake_frame(self.show_white)
    }
}

/// Whether the stream shows white after a number of frames.
pub open spec fn white_after(frames: nat) -> bool
    decreases frames,
{
    if frames == 0 {
        false
    } else {
        !white_after((frames - 1) as nat)
    }
}

/// The stream shows white at every other frame.
pub proof fn colors_take_turns(frames: nat)
    ensures
        white_after(frames) == (frames % 2 == 1),
    decreases frames,
{
    if frames > 0 {
        colors_take_turns((frames - 1) as nat);
    }
}

/// What a click asks for.
#[derive(Clone, Copy, Debug, PartialEq, Eq, Structural)]
pub enum DemoAction {
    Connect,
    Quit,
}

/// What a click leaves to be done outside the window.
#[derive(Clone, Copy, Debug, PartialEq, Eq, Structural)]
pub enum DemoEffect {
    /// Hand the window a frame every [`FAKE_FRAME_INTERVAL`].
    Stream,
    /// End the program.
    Quit,
}

/// What the window shows.
#[derive(Debug)]
pub enum DemoScreen {
    Connect(ConnectScreen),
    Connected { background: u32, canvas: CanvasView },
}

/// The screen with the buttons.
#[derive(Debug)]
pub struct ConnectScreen {
    pub background: u32,
    pub text_color: u32,
    pub title: &'static str,
    pub connect: Button<DemoAction>,
    pub quit: Button<DemoAction>,
}

/// Whether `screen` is the screen with the buttons.
pub open spec fn shows_buttons(screen: ConnectScreen) -> bool {
    &&& (screen.background, screen.text_color) == (PAPER, INK)
    &&& screen.title@ == "Pomme Screenshare"@
    &&& is_button(
        screen.connect,
        "connect-button"@,
        "Connect"@,
        (Some(220), None),
        (INK, WHITE),
        Some(DemoAction::Connect),
    )
    &&& is_button(
        screen.quit,
        "quit-button"@,
        "Quit"@,
        (Some(220), None),
        (INK, WHITE),
        Some(DemoAction::Quit),
    )
}

/// The state of the window.
#[derive(Debug)]
pub struct PommeApp {
    pub view: AppView,
    pub frame: Option<VideoFrame>,
    /// The stream runs in the background.
    pub stream_task: bool,
}

impl PommeApp {
    /// The window shows a frame if and only if the stream runs, and the stream runs if and only
    /// if the user has connected.
    pub open spec fn wf(self) -> bool {
        &&& self.frame is Some <==> self.stream_task
        &&& self.view == AppView::Connected <==> self.stream_task
    }

    /// The window at the start.
    pub fn new() -> (app: PommeApp)
        ensures
            app == (PommeApp { view: AppView::Connect, frame: None, stream_task: false }),
            app.wf(),
    {
        PommeApp { view: AppView::Connect, frame: None, stream_task: false }
    }

    /// Starts the stream. Its first frame is black.
    pub fn start_fake_stream(&mut self)
        ensures
            final(self).view == old(self).view,
            final(self).stream_task,
            final(self).frame matches Some(frame) && is_fake_frame(frame, false),
    {
        self.frame = Some(fake_frame(false));
        self.stream_task = true;
    }

    /// The user clicks on connect: the stream is shown.
    pub fn connect(&mut self)
        ensures
            final(self).view == AppView::Connected,
            final(self).stream_task,
            final(self).frame matches Some(frame) && is_fake_frame(frame, false),
            final(self).wf(),
    {
        self.view = AppView::Connected;
        self.start_fake_stream();
    }

    /// The stream has a new frame.
    pub fn show(&mut self, frame: VideoFrame)
        ensures
            *final(self) == (PommeApp { frame: Some(frame), ..*old(self) }),
            old(self).wf() && old(self).stream_task ==> final(self).wf(),
    {
        self.frame = Some(frame);
    }

    /// Does what a click asks for.
    pub fn click(&mut self, action: DemoAction) -> (effect: DemoEffect)
        ensures
            match action {
                DemoAction::Connect => {
                    &&& effect == DemoEffect::Stream
                    &&& final(self).view == AppView::Connected
                    &&& final(self).stream_task
                    &&& final(self).frame matches Some(frame)
                    &&& is_fake_frame(frame, false)
                },
                DemoAction::Quit => effect == DemoEffect::Quit && *final(self) == *old(self),
            },
            old(self).wf() ==> final(self).wf(),
    {
        match action {
            DemoAction::Connect => {
                self.connect();
                DemoEffect::Stream
            },
            DemoAction::Quit => DemoEffect::Quit,
        }
    }

    /// What the window shows.
    pub fn render(&self) -> (screen: DemoScreen)
        ensures
            match self.view {
                AppView::Connect => screen matches DemoScreen::Connect(s) && shows_buttons(s),
                AppView::Connected => screen matches DemoScreen::Connected { background, canvas }
                    && background == BLACK && shows_canvas(canvas, self.frame),
            },
    {
        match self.view {
            AppView::Connect => DemoScreen::Connect(self.render_connect()),
            AppView::Connected => self.render_connected(),
        }
    }

    /// The screen with the buttons.
    pub fn render_connect(&self) -> (screen: ConnectScreen)
        ensures
            shows_buttons(screen),
    {
        ConnectScreen {
            background: PAPER,
            text_color: INK,
            title: "Pomme Screenshare",
            connect: Button {
                id: "connect-button",
                label: "Connect",
                width: Some(220),
                height: None,
                border: INK,
                background: WHITE,
                hover_background: HOVER,
                action: Some(DemoAction::Connect),
            },
            quit: Button {
                id: "quit-button",
                label: "Quit",
                width: Some(220),
                height: None,
                border: INK,
                background: WHITE,
                hover_background: HOVER,
                action: Some(DemoAction::Quit),
            },
        }
    }

    /// The screen with the stream.
    pub fn render_connected(&self) -> (screen: DemoScreen)
        ensures
            screen matches DemoScreen::Connected { background, canvas } && background == BLACK
                && shows_canvas(canvas, self.frame),
    {
        let frame = match &self.frame {
            Some(frame) => Some(frame.clone()),
            None => None,
        };
        DemoScreen::Connected {
            background: BLACK,
            canvas: VideoCanvas::new(frame).into_element(),
        }
    }
}

/// A frame of the stream is 640 by 360 pixels, all of them opaque, and all white or all black.
pub proof fn a_frame_is_of_one_color(frame: VideoFrame, show_white: bool)
    requires
        is_fake_frame(frame, show_white),
    ensures
        frame matches VideoFrame::CpuRgba(cpu) && {
            &&& cpu.width == 640
            &&& cpu.height == 360
            &&& cpu.pixels@.len() == 4 * 640 * 360
            &&& forall|i: int|
                0 <= i < cpu.pixels@.len() ==> #[trigger] cpu.pixels@[i] == (if show_white || i % 4
                    == 3 {
                    255u8
                } else {
                    0u8
                })
        },
{
}

/// The first screen has a button that connects and one that quits, each under its name.
pub proof fn the_buttons_do_what_they_say(screen: ConnectScreen)
    requires
        shows_buttons(screen),
    ensures
        screen.title@ == "Pomme Screenshare"@,
        screen.connect.label@ == "Connect"@,
        screen.connect.action == Some(DemoAction::Connect),
        screen.quit.label@ == "Quit"@,
        screen.quit.action == Some(DemoAction::Quit),
{
}

/// A frame stands for a second, and the window shows one exactly while the stream runs, which is
/// while the user is connected.
pub proof fn a_window_in_order_shows_the_stream(app: PommeApp)
    ensures
        FAKE_FRAME_INTERVAL == 1_000_000_000,
        app.wf() ==> (app.stream_task <==> app.frame is Some) && (app.stream_task <==> app.view
            == AppView::Connected),
{
}

} // verus!
