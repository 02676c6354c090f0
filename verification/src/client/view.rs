//! What the client's window shows, and what a click on it does.

use crate::client::app::{
    messages_without_a_payload_are_five_bytes, server_address_spec, AppView, ConnectionStatus,
    PommeApp,
};
use crate::client::message::{message_bytes, MessageType};
use crate::client::share::{ShareSource, ShareSources};
use crate::client::video::{shows_canvas, CanvasView, FrameView, VideoCanvas, VideoFrame};
use crate::picture::{rgba_len, RgbaPicture};
use vstd::prelude::*;

verus! {

/// Colours: red, green and blue in one number.
pub const PAPER: u32 = 0xf7f5f2;

pub const INK: u32 = 0x1f2933;

pub const WHITE: u32 = 0xffffff;

pub const BLACK: u32 = 0x000000;

pub const HOVER: u32 = 0xebe7e1;

pub const FAINT_HOVER: u32 = 0xf9fafb;

pub const LINE: u32 = 0xd1d5db;

pub const PALE: u32 = 0xe5e7eb;

pub const GREY: u32 = 0x4b5563;

pub const LIGHT_GREY: u32 = 0x6b7280;

pub const RED: u32 = 0xb91c1c;

/// What lies over the window while windows are chosen from: red, green, blue and alpha.
pub const BACKDROP: u32 = 0x00000073;

/// What stands in for a preview that is missing.
pub const NO_PREVIEW: &'static str = "Preview unavailable";

/// What a click asks for.
#[derive(Clone, Copy, Debug, PartialEq, Eq, Structural)]
pub enum Action {
    Connect,
    Disconnect,
    OpenShareModal,
    CloseShareModal,
    /// Share the window with this number.
    Share(u32),
}

/// What a click leaves to be done outside the window.
#[derive(Debug)]
pub enum Effect {
    Nothing,
    /// Connect to this address.
    Connect(String),
    /// Send this, if there is anything, then shut the connection down.
    Close(Option<Vec<u8>>),
    /// List the windows.
    ListWindows,
    /// Share the window with this number.
    Share(u32),
}

/// A button, and what a click on it asks for. Lengths are in pixels; one that is not given is as
/// long as there is room.
#[derive(Debug)]
pub struct Button<A> {
    pub id: &'static str,
    pub label: &'static str,
    pub width: Option<u32>,
    pub height: Option<u32>,
    pub border: u32,
    pub background: u32,
    pub hover_background: u32,
    pub action: Option<A>,
}

/// Text in a colour.
#[derive(Debug)]
pub struct ColoredText {
    pub color: u32,
    pub text: String,
}

/// The screen on which a server is chosen.
#[derive(Debug)]
pub struct ConnectScreen {
    pub background: u32,
    pub text_color: u32,
    pub title: &'static str,
    /// What stands under the field for the server.
    pub message: Option<ColoredText>,
    pub button: Button<Action>,
}

/// The screen on which the shared window of another client is shown.
#[derive(Debug)]
pub struct ConnectedScreen {
    pub background: u32,
    pub video_pane_id: &'static str,
    pub canvas: CanvasView,
    pub toolbar_id: &'static str,
    pub toolbar_height: u32,
    pub toolbar_background: u32,
    /// The colour of what the buttons say.
    pub toolbar_text_color: u32,
    pub disconnect: Button<Action>,
    pub share: Button<Action>,
    pub modal: Option<ShareModal>,
}

/// The choice of windows.
#[derive(Debug)]
pub struct ShareModal {
    pub backdrop_id: &'static str,
    pub backdrop: u32,
    pub id: &'static str,
    pub width: u32,
    pub height: u32,
    pub border: u32,
    pub background: u32,
    pub text_color: u32,
    pub title: &'static str,
    pub close: Button<Action>,
    pub grid: SourceGrid,
    pub entire_screen: Button<Action>,
}

/// The windows to choose from, or what is said in their place.
#[derive(Debug)]
pub enum SourceGrid {
    /// A line in the middle.
    Line { id: &'static str, line: ColoredText },
    /// Small text in the middle, of a number of lines at most.
    Paragraph { id: &'static str, line_clamp: u32, paragraph: ColoredText },
    /// A card for each window, in columns.
    Cards { id: &'static str, columns: u32, cards: Vec<SourceCard> },
}

/// A window to choose.
#[derive(Debug)]
pub struct SourceCard {
    pub id: u32,
    pub height: u32,
    pub border: u32,
    pub background: u32,
    pub hover_border: u32,
    pub hover_background: u32,
    pub preview: PreviewView,
    pub title: ColoredText,
    pub app_name: ColoredText,
    pub action: Action,
}

/// What a card shows of its window.
#[derive(Debug)]
pub struct PreviewView {
    pub height: u32,
    pub background: u32,
    pub content: PreviewContent,
}

/// A preview, or what is said in its place.
#[derive(Debug)]
pub enum PreviewContent {
    /// A picture, scaled to fit.
    Picture(RgbaPicture),
    Placeholder(ColoredText),
}

/// What the window shows.
#[derive(Debug)]
pub enum Screen {
    Connect(ConnectScreen),
    Connected(ConnectedScreen),
}

/// Whether a button looks like this and does this.
pub open spec fn is_button<A>(
    button: Button<A>,
    id: Seq<char>,
    label: Seq<char>,
    size: (Option<u32>, Option<u32>),
    colors: (u32, u32),
    action: Option<A>,
) -> bool {
    &&& button.id@ == id
    &&& button.label@ == label
    &&& (button.width, button.height) == size
    &&& (button.border, button.background) == colors
    &&& button.hover_background == HOVER
    &&& button.action == action
}

/// Whether a text reads like this.
pub open spec fn is_text(text: ColoredText, color: u32, words: Seq<char>) -> bool {
    text.color == color && text.text@ == words
}

/// Whether `view` is what a card shows of `source`: its preview; if there is none, the reason, or
/// a standing text where the reason is missing or the preview has too few pixels.
pub open spec fn shows_preview(view: PreviewView, source: ShareSource) -> bool {
    &&& view.height == 92
    &&& view.background == PALE
    &&& match source.preview {
        Some(preview) if rgba_len(preview.width, preview.height) <= preview.pixels@.len() => {
            &&& view.content matches PreviewContent::Picture(picture)
            &&& picture.width == preview.width
            &&& picture.height == preview.height
            &&& picture.pixels@ == preview.pixels@
        },
        Some(_) => view.content matches PreviewContent::Placeholder(text) && is_text(
            text,
            LIGHT_GREY,
            NO_PREVIEW@,
        ),
        None => view.content matches PreviewContent::Placeholder(text) && is_text(
            text,
            LIGHT_GREY,
            match source.preview_error {
                Some(error) => error@,
                None => NO_PREVIEW@,
            },
        ),
    }
}

/// Whether `card` stands for `source`. A click on it shares that window.
pub open spec fn shows_source(card: SourceCard, source: ShareSource) -> bool {
    &&& card.id == source.id
    &&& card.height == 180
    &&& (card.border, card.background) == (LINE, WHITE)
    &&& (card.hover_border, card.hover_background) == (INK, FAINT_HOVER)
    &&& shows_preview(card.preview, source)
    &&& is_text(card.title, INK, source.title@)
    &&& is_text(card.app_name, LIGHT_GREY, source.app_name@)
    &&& card.action == Action::Share(source.id)
}

/// Whether `grid` shows what is known about the windows.
pub open spec fn shows_sources(grid: SourceGrid, sources: ShareSources) -> bool {
    match sources {
        ShareSources::Failed(message) => {
            &&& grid matches SourceGrid::Paragraph { id, line_clamp, paragraph }
            &&& id@ == "share-source-error"@
            &&& line_clamp == 5
            &&& is_text(paragraph, RED, message@)
        },
        ShareSources::Loaded(list) if list@.len() == 0 => {
            &&& grid matches SourceGrid::Line { id, line }
            &&& id@ == "share-source-empty"@
            &&& is_text(line, GREY, "No shareable windows found."@)
        },
        ShareSources::Loaded(list) => {
            &&& grid matches SourceGrid::Cards { id, columns, cards }
            &&& id@ == "share-source-grid"@
            &&& columns == 2
            &&& cards@.len() == list@.len()
            &&& forall|i: int| 0 <= i < list@.len() ==> shows_source(#[trigger] cards@[i], list@[i])
        },
        _ => {
            &&& grid matches SourceGrid::Line { id, line }
            &&& id@ == "share-source-status"@
            &&& is_text(line, GREY, "Loading windows..."@)
        },
    }
}

/// Whether `modal` is the choice of windows over `sources`.
pub open spec fn shows_modal(modal: ShareModal, sources: ShareSources) -> bool {
    &&& modal.backdrop_id@ == "share-modal-backdrop"@
    &&& modal.backdrop == BACKDROP
    &&& modal.id@ == "share-modal"@
    &&& (modal.width, modal.height) == (520u32, 420u32)
    &&& (modal.border, modal.background, modal.text_color) == (LINE, PAPER, INK)
    &&& modal.title@ == "Share..."@
    &&& is_button(
        modal.close,
        "share-modal-close"@,
        "x"@,
        (Some(36), Some(36)),
        (LINE, WHITE),
        Some(Action::CloseShareModal),
    )
    &&& shows_sources(modal.grid, sources)
    &&& is_button(
        modal.entire_screen,
        "share-entire-screen-button"@,
        "Entire screen"@,
        (None, None),
        (INK, WHITE),
        None,
    )
}

/// Whether `message` says how far connecting has come.
pub open spec fn shows_status(message: Option<ColoredText>, status: ConnectionStatus) -> bool {
    match status {
        ConnectionStatus::Idle => message is None,
        ConnectionStatus::Connecting => message matches Some(text) && is_text(
            text,
            GREY,
            "Connecting to server..."@,
        ),
        ConnectionStatus::Failed(reason) => message matches Some(text) && is_text(
            text,
            RED,
            reason@,
        ),
    }
}

/// Whether `screen` is the first screen of `app`.
pub open spec fn shows_connect(screen: ConnectScreen, app: PommeApp) -> bool {
    &&& (screen.background, screen.text_color) == (PAPER, INK)
    &&& screen.title@ == "Pomme Screenshare"@
    &&& shows_status(screen.message, app.connection_status)
    &&& is_button(
        screen.button,
        "connect-button"@,
        if app.connection_status is Connecting {
            "Connecting..."@
        } else {
            "Connect"@
        },
        (Some(220), None),
        (
            INK,
            if app.connection_status is Connecting {
                PALE
            } else {
                WHITE
            },
        ),
        Some(Action::Connect),
    )
}

/// Whether `screen` is the second screen of `app`.
pub open spec fn shows_connected(screen: ConnectedScreen, app: PommeApp) -> bool {
    &&& screen.background == BLACK
    &&& screen.video_pane_id@ == "video-pane"@
    &&& shows_canvas(screen.canvas, app.frame)
    &&& screen.toolbar_id@ == "connected-toolbar"@
    &&& screen.toolbar_height == 64
    &&& (screen.toolbar_background, screen.toolbar_text_color) == (PAPER, INK)
    &&& is_button(
        screen.disconnect,
        "disconnect-button"@,
        "Disconnect"@,
        (Some(160), None),
        (INK, WHITE),
        Some(Action::Disconnect),
    )
    &&& is_button(
        screen.share,
        "share-button"@,
        "Share..."@,
        (Some(160), None),
        (INK, WHITE),
        Some(Action::OpenShareModal),
    )
    &&& screen.modal is Some <==> app.share_modal_open
    &&& screen.modal matches Some(modal) ==> shows_modal(modal, app.share_sources)
}

/// Whether `screen` is what the window shows in the state `app`.
pub open spec fn shows_app(screen: Screen, app: PommeApp) -> bool {
    match app.view {
        AppView::Connect => screen matches Screen::Connect(s) && shows_connect(s, app),
        AppView::Connected => screen matches Screen::Connected(s) && shows_connected(s, app),
    }
}

/// Text in place of a preview.
pub fn preview_placeholder(message: &str) -> (view: PreviewView)
    ensures
        view.height == 92,
        view.background == PALE,
        view.content matches PreviewContent::Placeholder(text) && is_text(
            text,
            LIGHT_GREY,
            message@,
        ),
{
    PreviewView {
        height: 92,
        background: PALE,
        content: PreviewContent::Placeholder(
            ColoredText { color: LIGHT_GREY, text: message.to_owned() },
        ),
    }
}

/// What a card shows of a window.
pub fn render_share_source_preview(source: &ShareSource) -> (view: PreviewView)
    ensures
        shows_preview(view, *source),
{
    match &source.preview {
        Some(preview) => match preview.render_image() {
            Some(picture) => PreviewView {
                height: 92,
                background: PALE,
                content: PreviewContent::Picture(picture),
            },
            None => preview_placeholder(NO_PREVIEW),
        },
        None => match &source.preview_error {
            Some(error) => preview_placeholder(error.as_str()),
            None => preview_placeholder(NO_PREVIEW),
        },
    }
}

/// The card of a window.
pub fn render_share_source(source: &ShareSource) -> (card: SourceCard)
    ensures
        shows_source(card, *source),
{
    SourceCard {
        id: source.id,
        height: 180,
        border: LINE,
        background: WHITE,
        hover_border: INK,
        hover_background: FAINT_HOVER,
        preview: render_share_source_preview(source),
        title: ColoredText { color: INK, text: source.title.clone() },
        app_name: ColoredText { color: LIGHT_GREY, text: source.app_name.clone() },
        action: Action::Share(source.id),
    }
}

/// The windows to choose from, or what is said in their place.
pub fn render_share_source_grid(sources: &ShareSources) -> (grid: SourceGrid)
    ensures
        shows_sources(grid, *sources),
{
    match sources {
        ShareSources::Failed(message) => SourceGrid::Paragraph {
            id: "share-source-error",
            line_clamp: 5,
            paragraph: ColoredText { color: RED, text: message.clone() },
        },
        ShareSources::Loaded(list) => {
            if list.len() == 0 {
                return SourceGrid::Line {
                    id: "share-source-empty",
                    line: ColoredText {
                        color: GREY,
                        text: "No shareable windows found.".to_owned(),
                    },
                };
            }
            let mut cards: Vec<SourceCard> = Vec::new();
            let mut n: usize = 0;
            while n < list.len()
                invariant
                    n <= list@.len(),
                    cards@.len() == n,
                    forall|i: int| 0 <= i < n ==> shows_source(#[trigger] cards@[i], list@[i]),
                decreases list@.len() - n,
            {
                cards.push(render_share_source(&list[n]));
                n += 1;
            }
            SourceGrid::Cards { id: "share-source-grid", columns: 2, cards }
        },
        _ => SourceGrid::Line {
            id: "share-source-status",
            line: ColoredText { color: GREY, text: "Loading windows...".to_owned() },
        },
    }
}

impl PommeApp {
    /// What the connect button says.
    pub fn connect_button_label(&self) -> (label: &'static str)
        ensures
            label@ == (if self.connection_status is Connecting {
                "Connecting..."@
            } else {
                "Connect"@
            }),
    {
        match self.connection_status {
            ConnectionStatus::Connecting => "Connecting...",
            _ => "Connect",
        }
    }

    /// The colour of the connect button.
    pub fn connect_button_bg(&self) -> (background: u32)
        ensures
            background == (if self.connection_status is Connecting {
                PALE
            } else {
                WHITE
            }),
    {
        match self.connection_status {
            ConnectionStatus::Connecting => PALE,
            _ => WHITE,
        }
    }

    /// How far connecting has come, in words.
    pub fn connection_message(&self) -> (message: Option<ColoredText>)
        ensures
            shows_status(message, self.connection_status),
    {
        match &self.connection_status {
            ConnectionStatus::Idle => None,
            ConnectionStatus::Connecting => Some(
                ColoredText { color: GREY, text: "Connecting to server...".to_owned() },
            ),
            ConnectionStatus::Failed(message) => Some(
                ColoredText { color: RED, text: message.clone() },
            ),
        }
    }

    /// The screen on which a server is chosen.
    pub fn render_connect(&self) -> (screen: ConnectScreen)
        ensures
            shows_connect(screen, *self),
    {
        ConnectScreen {
            background: PAPER,
            text_color: INK,
            title: "Pomme Screenshare",
            message: self.connection_message(),
            button: Button {
                id: "connect-button",
                label: self.connect_button_label(),
                width: Some(220),
                height: None,
                border: INK,
                background: self.connect_button_bg(),
                hover_background: HOVER,
                action: Some(Action::Connect),
            },
        }
    }

    /// The choice of windows, if it is open.
    pub fn render_share_modal(&self) -> (modal: Option<ShareModal>)
        ensures
            modal is Some <==> self.share_modal_open,
            modal matches Some(m) ==> shows_modal(m, self.share_sources),
    {
        if !self.share_modal_open {
            return None;
        }
        Some(
            ShareModal {
                backdrop_id: "share-modal-backdrop",
                backdrop: BACKDROP,
                id: "share-modal",
                width: 520,
                height: 420,
                border: LINE,
                background: PAPER,
                text_color: INK,
                title: "Share...",
                close: Button {
                    id: "share-modal-close",
                    label: "x",
                    width: Some(36),
                    height: Some(36),
                    border: LINE,
                    background: WHITE,
                    hover_background: HOVER,
                    action: Some(Action::CloseShareModal),
                },
                grid: render_share_source_grid(&self.share_sources),
                entire_screen: Button {
                    id: "share-entire-screen-button",
                    label: "Entire screen",
                    width: None,
                    height: None,
                    border: INK,
                    background: WHITE,
                    hover_background: HOVER,
                    action: None,
                },
            },
        )
    }

    /// The screen on which the shared window of another client is shown.
    pub fn render_connected(&self) -> (screen: ConnectedScreen)
        ensures
            shows_connected(screen, *self),
    {
        let frame = match &self.frame {
            Some(frame) => Some(frame.clone()),
            None => None,
        };
        ConnectedScreen {
            background: BLACK,
            video_pane_id: "video-pane",
            canvas: VideoCanvas::new(frame).into_element(),
            toolbar_id: "connected-toolbar",
            toolbar_height: 64,
            toolbar_background: PAPER,
            toolbar_text_color: INK,
            disconnect: Button {
                id: "disconnect-button",
                label: "Disconnect",
                width: Some(160),
                height: None,
                border: INK,
                background: WHITE,
                hover_background: HOVER,
                action: Some(Action::Disconnect),
            },
            share: Button {
                id: "share-button",
                label: "Share...",
                width: Some(160),
                height: None,
                border: INK,
                background: WHITE,
                hover_background: HOVER,
                action: Some(Action::OpenShareModal),
            },
            modal: self.render_share_modal(),
        }
    }

    /// What the window shows.
    pub fn render(&self) -> (screen: Screen)
        ensures
            shows_app(screen, *self),
    {
        match self.view {
            AppView::Connect => Screen::Connect(self.render_connect()),
            AppView::Connected => Screen::Connected(self.render_connected()),
        }
    }

    /// Whether a click can ask for `action` in this state.
    pub open spec fn allows(self, action: Action) -> bool {
        match action {
            Action::Connect => self.view == AppView::Connect,
            Action::Disconnect => self.connection,
            Action::OpenShareModal => self.connection,
            Action::CloseShareModal => self.share_modal_open,
            Action::Share(id) => {
                &&& self.share_modal_open
                &&& self.share_sources matches ShareSources::Loaded(list)
                &&& exists|i: int| 0 <= i < list@.len() && (#[trigger] list@[i]).id == id
            },
        }
    }

    /// What a click on `action` does to the window, and what it leaves to be done.
    pub open spec fn clicked(
        self,
        action: Action,
        held: bool,
        after: PommeApp,
        effect: Effect,
    ) -> bool {
        match action {
            Action::Connect => if self.connection_status is Connecting {
                after == self && effect == Effect::Nothing
            } else {
                &&& after == self.connecting()
                &&& effect matches Effect::Connect(address)
                &&& address@ == server_address_spec(self.server_input.content@)
            },
            Action::Disconnect => {
                &&& after == self.disconnected(ConnectionStatus::Idle)
                &&& effect matches Effect::Close(farewell)
                &&& farewell is Some <==> self.connection
                &&& farewell matches Some(bytes) ==> bytes@ == message_bytes(
                    MessageType::Disconnect,
                    Seq::empty(),
                )
            },
            Action::OpenShareModal => {
                &&& after == (PommeApp {
                    share_modal_open: true,
                    share_sources: ShareSources::Loading,
                    share_sources_task: true,
                    ..self
                })
                &&& effect == Effect::ListWindows
            },
            Action::CloseShareModal => {
                &&& after == (PommeApp { share_modal_open: false, ..self })
                &&& effect == Effect::Nothing
            },
            Action::Share(id) => if self.connection && held {
                &&& after == (PommeApp { send_task: true, share_modal_open: false, ..self })
                &&& effect == Effect::Share(id)
            } else {
                after == self && effect == Effect::Nothing
            },
        }
    }

    /// Does what a click asks for. `held` tells whether the connection could be held once more,
    /// which sharing needs.
    pub fn click(&mut self, action: Action, held: bool) -> (effect: Effect)
        ensures
            old(self).clicked(action, held, *final(self), effect),
            old(self).wf() && old(self).allows(action) ==> final(self).wf(),
    {
        match action {
            Action::Connect => match self.start_connect() {
                Some(address) => Effect::Connect(address),
                None => Effect::Nothing,
            },
            Action::Disconnect => Effect::Close(self.disconnect()),
            Action::OpenShareModal => {
                self.open_share_modal();
                Effect::ListWindows
            },
            Action::CloseShareModal => {
                self.close_share_modal();
                Effect::Nothing
            },
            Action::Share(id) => {
                if self.start_share_source(held) {
                    Effect::Share(id)
                } else {
                    Effect::Nothing
                }
            },
        }
    }
}

impl Screen {
    /// Whether something on the screen asks for `action` when it is clicked.
    pub open spec fn offers(self, action: Action) -> bool {
        match self {
            Screen::Connect(screen) => screen.button.action == Some(action),
            Screen::Connected(screen) => {
                ||| screen.disconnect.action == Some(action)
                ||| screen.share.action == Some(action)
                ||| screen.modal matches Some(modal) && {
                    ||| modal.close.action == Some(action)
                    ||| modal.entire_screen.action == Some(action)
                    ||| modal.grid matches SourceGrid::Cards { cards, .. } && exists|i: int|
                        0 <= i < cards@.len() && (#[trigger] cards@[i]).action == action
                }
            },
        }
    }
}

/// Every click that the window offers keeps it in order, whatever else happens: what can be clicked
/// is what the state allows.
pub proof fn clicks_keep_the_window_in_order(
    app: PommeApp,
    screen: Screen,
    action: Action,
    held: bool,
    after: PommeApp,
    effect: Effect,
)
    requires
        app.wf(),
        shows_app(screen, app),
        screen.offers(action),
        app.clicked(action, held, after, effect),
    ensures
        app.allows(action),
        after.wf(),
{
    if let Screen::Connected(s) = screen {
        if let Some(modal) = s.modal {
            if let SourceGrid::Cards { cards, .. } = modal.grid {
                if let ShareSources::Loaded(list) = app.share_sources {
                    if exists|i: int|
                        0 <= i < cards@.len() && (#[trigger] cards@[i]).action == action {
                        let i = choose|i: int|
                            0 <= i < cards@.len() && (#[trigger] cards@[i]).action == action;
                        assert(shows_source(cards@[i], list@[i]));
                    }
                }
            }
        }
    }
}

/// A window that is offered can be shared, and no other: the cards carry the numbers of the loaded
/// windows, in order.
pub proof fn offered_windows_are_the_loaded_ones(app: PommeApp, screen: Screen, id: u32)
    requires
        shows_app(screen, app),
    ensures
        screen.offers(Action::Share(id)) <==> app.view == AppView::Connected && app.share_modal_open
            && (app.share_sources matches ShareSources::Loaded(list) && exists|i: int|
            0 <= i < list@.len() && (#[trigger] list@[i]).id == id),
{
    if let Screen::Connected(s) = screen {
        if let Some(modal) = s.modal {
            if let ShareSources::Loaded(list) = app.share_sources {
                if let SourceGrid::Cards { cards, .. } = modal.grid {
                    assert forall|i: int| 0 <= i < list@.len() implies (#[trigger] cards@[i]).action
                        == Action::Share(list@[i].id) by {
                        assert(shows_source(cards@[i], list@[i]));
                    }
                    if exists|i: int| 0 <= i < list@.len() && (#[trigger] list@[i]).id == id {
                        let i = choose|i: int|
                            0 <= i < list@.len() && (#[trigger] list@[i]).id == id;
                        assert(cards@[i].action == Action::Share(id));
                    }
                    if exists|i: int|
                        0 <= i < cards@.len() && (#[trigger] cards@[i]).action == Action::Share(
                            id,
                        ) {
                        let i = choose|i: int|
                            0 <= i < cards@.len() && (#[trigger] cards@[i]).action
                                == Action::Share(id);
                        assert(list@[i].id == id);
                    }
                }
            }
        }
    }
}

/// A connection that is lost leads back to the first screen, which says why, in red, and lets the
/// user connect again.
pub proof fn a_lost_connection_is_explained(app: PommeApp, reason: String, screen: Screen)
    requires
        shows_app(screen, app.disconnected(ConnectionStatus::Failed(reason))),
    ensures
        screen matches Screen::Connect(s) && (s.message matches Some(text) && is_text(
            text,
            RED,
            reason@,
        )),
        screen.offers(Action::Connect),
{
}

/// The first screen says how far connecting has come: nothing at rest, that it is going on, or why
/// it failed, in the words of the reason. Its button connects, and says when it is busy.
pub proof fn the_first_screen_says_how_it_stands(screen: Screen, app: PommeApp)
    requires
        shows_app(screen, app),
        app.view == AppView::Connect,
    ensures
        screen matches Screen::Connect(s) && {
            &&& s.title@ == "Pomme Screenshare"@
            &&& s.button.action == Some(Action::Connect)
            &&& s.button.label@ == (if app.connection_status is Connecting {
                "Connecting..."@
            } else {
                "Connect"@
            })
            &&& match app.connection_status {
                ConnectionStatus::Idle => s.message is None,
                ConnectionStatus::Connecting => s.message matches Some(text) && text.text@
                    == "Connecting to server..."@ && text.color == 0x4b5563,
                ConnectionStatus::Failed(reason) => s.message matches Some(text) && text.text@
                    == reason@ && text.color == 0xb91c1c,
            }
        },
{
}

/// The second screen shows the latest frame, whole if its pixels cover its size, and has a button
/// that disconnects and one that opens the choice of windows, which is shown while it is open.
pub proof fn the_second_screen_shows_the_frame(screen: Screen, app: PommeApp)
    requires
        shows_app(screen, app),
        app.view == AppView::Connected,
    ensures
        screen matches Screen::Connected(s) && {
            &&& s.disconnect.label@ == "Disconnect"@
            &&& s.disconnect.action == Some(Action::Disconnect)
            &&& s.share.label@ == "Share..."@
            &&& s.share.action == Some(Action::OpenShareModal)
            &&& s.modal is Some <==> app.share_modal_open
            &&& app.frame is None ==> s.canvas.content == (FrameView::Empty {
                background: 0x111111,
            })
            &&& app.frame matches Some(VideoFrame::CpuRgba(frame)) ==> (4 * frame.width
                * frame.height <= frame.pixels@.len() ==> (
            s.canvas.content matches FrameView::Picture(picture) && picture.width == frame.width
                && picture.height == frame.height && picture.pixels@ == frame.pixels@))
            &&& app.frame matches Some(VideoFrame::MacCvPixelBuffer(buffer)) ==> s.canvas.content
                == FrameView::Surface(buffer)
        },
{
}

/// The choice of windows has a card for each window that was loaded, in order, with its names, its
/// preview and a click that shares it. Before they are loaded it says so, it says when there are
/// none, and it gives the reason when they cannot be loaded.
pub proof fn each_loaded_window_has_a_card(grid: SourceGrid, sources: ShareSources)
    requires
        shows_sources(grid, sources),
    ensures
        match sources {
            ShareSources::Loaded(list) if list@.len() > 0 => {
                &&& grid matches SourceGrid::Cards { cards, .. }
                &&& cards@.len() == list@.len()
                &&& forall|i: int|
                    0 <= i < list@.len() ==> (#[trigger] cards@[i]).id == list@[i].id
                        && cards@[i].title.text@ == list@[i].title@ && cards@[i].app_name.text@
                        == list@[i].app_name@ && cards@[i].action == Action::Share(list@[i].id)
                        && shows_preview(cards@[i].preview, list@[i])
            },
            ShareSources::Loaded(_) => grid matches SourceGrid::Line { line, .. } && line.text@
                == "No shareable windows found."@,
            ShareSources::Failed(reason) => grid matches SourceGrid::Paragraph { paragraph, .. }
                && paragraph.text@ == reason@,
            _ => grid matches SourceGrid::Line { line, .. } && line.text@ == "Loading windows..."@,
        },
{
    if let ShareSources::Loaded(list) = sources {
        if let SourceGrid::Cards { cards, .. } = grid {
            assert forall|i: int| 0 <= i < list@.len() && list@.len() > 0 implies (
            #[trigger] cards@[i]).id == list@[i].id && cards@[i].title.text@ == list@[i].title@
                && cards@[i].app_name.text@ == list@[i].app_name@ && cards@[i].action
                == Action::Share(list@[i].id) && shows_preview(cards@[i].preview, list@[i]) by {
                assert(shows_source(cards@[i], list@[i]));
            }
        }
    }
}

/// A card shows the preview of its window, whole, if its pixels cover its size. In its place it says
/// why there is none, or, where that is not known, that there is none.
pub proof fn a_card_shows_the_preview(view: PreviewView, source: ShareSource)
    requires
        shows_preview(view, source),
    ensures
        source.preview matches Some(preview) ==> (if 4 * preview.width * preview.height
            <= preview.pixels@.len() {
            view.content matches PreviewContent::Picture(picture) && picture.width == preview.width
                && picture.height == preview.height && picture.pixels@ == preview.pixels@
        } else {
            view.content matches PreviewContent::Placeholder(text) && text.text@
                == "Preview unavailable"@
        }),
        source.preview is None ==> (view.content matches PreviewContent::Placeholder(text)
            && text.text@ == (match source.preview_error {
            Some(error) => error@,
            None => "Preview unavailable"@,
        })),
{
}

/// The choice of windows can be closed, and shows the windows; the button for the entire screen does
/// nothing.
pub proof fn the_choice_of_windows_can_be_closed(modal: ShareModal, sources: ShareSources)
    requires
        shows_modal(modal, sources),
    ensures
        modal.title@ == "Share..."@,
        modal.close.action == Some(Action::CloseShareModal),
        modal.entire_screen.label@ == "Entire screen"@,
        modal.entire_screen.action is None,
        shows_sources(modal.grid, sources),
{
}

/// Every click does what it says: connecting gives the address of the server that was typed in,
/// disconnecting says farewell and leaves no connection, opening the choice lists the windows anew,
/// closing it closes it, and a card shares its own window and no other, where there is a connection.
pub proof fn every_click_does_what_it_says(
    app: PommeApp,
    action: Action,
    held: bool,
    after: PommeApp,
    effect: Effect,
)
    requires
        app.clicked(action, held, after, effect),
    ensures
        match action {
            Action::Connect => if app.connection_status is Connecting {
                after == app && effect == Effect::Nothing
            } else {
                &&& effect matches Effect::Connect(address)
                &&& address@ == server_address_spec(app.server_input.content@)
                &&& after.connection_status is Connecting
                &&& after.server_input.content == app.server_input.content
            },
            Action::Disconnect => {
                &&& effect matches Effect::Close(farewell)
                &&& app.connection ==> (farewell matches Some(bytes) && bytes@ == seq![
                    0u8,
                    0,
                    0,
                    1,
                    2,
                ])
                &&& !app.connection ==> farewell is None
                &&& !after.connection
                &&& after.view == AppView::Connect
                &&& after.connection_status is Idle
                &&& after.frame is None
            },
            Action::OpenShareModal => {
                &&& effect == Effect::ListWindows
                &&& after.share_modal_open
                &&& after.share_sources is Loading
                &&& after.connection == app.connection
                &&& after.frame == app.frame
                &&& after.send_task == app.send_task
            },
            Action::CloseShareModal => {
                &&& effect == Effect::Nothing
                &&& after == (PommeApp { share_modal_open: false, ..app })
            },
            Action::Share(id) => if app.connection && held {
                &&& effect == Effect::Share(id)
                &&& after.send_task
                &&& !after.share_modal_open
                &&& after.connection
                &&& after.frame == app.frame
            } else {
                after == app && effect == Effect::Nothing
            },
        },
{
    messages_without_a_payload_are_five_bytes();
}

/// The parts of the window are where they were drawn: their names, their sizes in pixels and their
/// colours.
pub proof fn the_screens_are_as_drawn(
    first: ConnectScreen,
    second: ConnectedScreen,
    modal: ShareModal,
    app: PommeApp,
)
    requires
        shows_connect(first, app),
        shows_connected(second, app),
        shows_modal(modal, app.share_sources),
    ensures
        first.background == 0xf7f5f2,
        first.text_color == 0x1f2933,
        first.button.id@ == "connect-button"@,
        first.button.width == Some(220u32),
        first.button.border == 0x1f2933,
        first.button.background == (if app.connection_status is Connecting {
            0xe5e7ebu32
        } else {
            0xffffffu32
        }),
        first.button.hover_background == 0xebe7e1,
        second.background == 0,
        second.video_pane_id@ == "video-pane"@,
        second.toolbar_id@ == "connected-toolbar"@,
        second.toolbar_height == 64,
        second.toolbar_background == 0xf7f5f2,
        second.toolbar_text_color == 0x1f2933,
        second.disconnect.id@ == "disconnect-button"@,
        second.disconnect.width == Some(160u32),
        second.share.id@ == "share-button"@,
        second.share.width == Some(160u32),
        modal.backdrop_id@ == "share-modal-backdrop"@,
        modal.backdrop == 0x00000073,
        modal.id@ == "share-modal"@,
        modal.width == 520,
        modal.height == 420,
        modal.border == 0xd1d5db,
        modal.background == 0xf7f5f2,
        modal.close.id@ == "share-modal-close"@,
        modal.close.label@ == "x"@,
        modal.close.width == Some(36u32),
        modal.close.height == Some(36u32),
        modal.entire_screen.id@ == "share-entire-screen-button"@,
{
}

/// What stands in place of the windows is grey, and red where it is an error. The cards stand in two
/// columns, each 180 pixels high, half of it the preview.
pub proof fn the_choice_is_as_drawn(grid: SourceGrid, sources: ShareSources)
    requires
        shows_sources(grid, sources),
    ensures
        grid matches SourceGrid::Line { line, .. } ==> line.color == 0x4b5563,
        grid matches SourceGrid::Paragraph { line_clamp, paragraph, .. } ==> line_clamp == 5
            && paragraph.color == 0xb91c1c,
        grid matches SourceGrid::Cards { columns, cards, .. } ==> columns == 2 && forall|i: int|
            0 <= i < cards@.len() ==> (#[trigger] cards@[i]).height == 180
                && cards@[i].preview.height == 92 && cards@[i].title.color == 0x1f2933
                && cards@[i].app_name.color == 0x6b7280 && cards@[i].border == 0xd1d5db
                && cards@[i].background == 0xffffff,
{
    if let SourceGrid::Cards { cards, .. } = grid {
        if let ShareSources::Loaded(list) = sources {
            assert forall|i: int| 0 <= i < cards@.len() implies (#[trigger] cards@[i]).height == 180
                && cards@[i].preview.height == 92 && cards@[i].title.color == 0x1f2933
                && cards@[i].app_name.color == 0x6b7280 && cards@[i].border == 0xd1d5db
                && cards@[i].background == 0xffffff by {
                assert(shows_source(cards@[i], list@[i]));
            }
        }
    }
}

} // verus!
