use pomme_screenshare::client::app::{AppView, PommeApp};
use pomme_screenshare::client::share::{ShareSource, ShareSourcePreview, ShareSources};
use pomme_screenshare::client::video::{FrameView, VideoFrame};
use pomme_screenshare::client::view::{
    preview_placeholder, render_share_source, render_share_source_grid,
    render_share_source_preview, Action, ConnectedScreen, ConnectScreen, Effect, PreviewContent,
    Screen, SourceGrid,
};
use pomme_screenshare::picture::RgbaPicture;

fn source(id: u32) -> ShareSource {
    ShareSource {
        id,
        title: format!("title {id}"),
        app_name: format!("app {id}"),
        preview: None,
        preview_error: None,
    }
}

fn connected() -> PommeApp {
    let mut app = PommeApp::new();
    app.start_connect();
    app.connect_finished(Ok((Ok(()), Ok(()))));
    app
}

fn first_screen(app: &PommeApp) -> ConnectScreen {
    match app.render() {
        Screen::Connect(screen) => screen,
        other => panic!("{other:?}"),
    }
}

fn second_screen(app: &PommeApp) -> ConnectedScreen {
    match app.render() {
        Screen::Connected(screen) => screen,
        other => panic!("{other:?}"),
    }
}

fn placeholder(content: PreviewContent) -> (u32, String) {
    match content {
        PreviewContent::Placeholder(text) => (text.color, text.text),
        other => panic!("{other:?}"),
    }
}

#[test]
fn the_first_screen_says_how_far_it_is() {
    let mut app = PommeApp::new();
    let screen = first_screen(&app);
    assert_eq!(screen.title, "Pomme Screenshare");
    assert_eq!((screen.background, screen.text_color), (0xf7f5f2, 0x1f2933));
    assert!(screen.message.is_none());
    let button = screen.button;
    assert_eq!((button.id, button.label, button.background), ("connect-button", "Connect", 0xffffff));
    assert_eq!((button.width, button.border, button.hover_background), (Some(220), 0x1f2933, 0xebe7e1));
    assert_eq!(button.action, Some(Action::Connect));

    app.start_connect();
    let screen = first_screen(&app);
    let message = screen.message.unwrap();
    assert_eq!((message.color, message.text.as_str()), (0x4b5563, "Connecting to server..."));
    assert_eq!((screen.button.label, screen.button.background), ("Connecting...", 0xe5e7eb));

    app.connect_finished(Err("refused".to_string()));
    let screen = first_screen(&app);
    let message = screen.message.unwrap();
    assert_eq!((message.color, message.text.as_str()), (0xb91c1c, "Failed to connect: refused"));
    assert_eq!((screen.button.label, screen.button.background), ("Connect", 0xffffff));
}

#[test]
fn the_second_screen_shows_the_frame() {
    let mut app = connected();
    let screen = second_screen(&app);
    assert_eq!(screen.background, 0);
    assert!(matches!(screen.canvas.content, FrameView::Empty { background: 0x111111 }));
    assert_eq!((screen.video_pane_id, screen.toolbar_id), ("video-pane", "connected-toolbar"));
    assert_eq!((screen.toolbar_height, screen.toolbar_background), (64, 0xf7f5f2));
    assert_eq!(screen.toolbar_text_color, 0x1f2933);
    assert_eq!((screen.disconnect.id, screen.disconnect.label), ("disconnect-button", "Disconnect"));
    assert_eq!(screen.disconnect.action, Some(Action::Disconnect));
    assert_eq!((screen.share.id, screen.share.label), ("share-button", "Share..."));
    assert_eq!(screen.share.action, Some(Action::OpenShareModal));
    assert_eq!((screen.share.width, screen.disconnect.width), (Some(160), Some(160)));
    assert!(screen.modal.is_none());

    app.frame = Some(VideoFrame::solid_rgba(1, 1, [1, 2, 3, 4]));
    match second_screen(&app).canvas.content {
        FrameView::Picture(picture) => assert_eq!(picture.pixels, vec![1, 2, 3, 4]),
        other => panic!("{other:?}"),
    }
}

#[test]
fn the_choice_of_windows_is_laid_out() {
    let mut app = connected();
    app.open_share_modal();
    let modal = second_screen(&app).modal.unwrap();
    assert_eq!((modal.backdrop_id, modal.backdrop), ("share-modal-backdrop", 0x00000073));
    assert_eq!((modal.id, modal.width, modal.height), ("share-modal", 520, 420));
    assert_eq!((modal.border, modal.background, modal.text_color), (0xd1d5db, 0xf7f5f2, 0x1f2933));
    assert_eq!(modal.title, "Share...");
    assert_eq!((modal.close.id, modal.close.label), ("share-modal-close", "x"));
    assert_eq!((modal.close.width, modal.close.height), (Some(36), Some(36)));
    assert_eq!(modal.close.action, Some(Action::CloseShareModal));
    let all = modal.entire_screen;
    assert_eq!((all.id, all.label), ("share-entire-screen-button", "Entire screen"));
    assert_eq!(all.action, None);
}

#[test]
fn the_grid_follows_the_list() {
    for sources in [ShareSources::Idle, ShareSources::Loading] {
        match render_share_source_grid(&sources) {
            SourceGrid::Line { id, line } => {
                assert_eq!((id, line.color), ("share-source-status", 0x4b5563));
                assert_eq!(line.text, "Loading windows...");
            }
            other => panic!("{other:?}"),
        }
    }
    match render_share_source_grid(&ShareSources::Failed("no".to_string())) {
        SourceGrid::Paragraph { id, line_clamp, paragraph } => {
            assert_eq!((id, line_clamp, paragraph.color), ("share-source-error", 5, 0xb91c1c));
            assert_eq!(paragraph.text, "no");
        }
        other => panic!("{other:?}"),
    }
    match render_share_source_grid(&ShareSources::Loaded(vec![])) {
        SourceGrid::Line { id, line } => {
            assert_eq!((id, line.color), ("share-source-empty", 0x4b5563));
            assert_eq!(line.text, "No shareable windows found.");
        }
        other => panic!("{other:?}"),
    }
    match render_share_source_grid(&ShareSources::Loaded(vec![source(3), source(1)])) {
        SourceGrid::Cards { id, columns, cards } => {
            assert_eq!((id, columns), ("share-source-grid", 2));
            let ids: Vec<(u32, Action)> = cards.iter().map(|c| (c.id, c.action)).collect();
            assert_eq!(ids, vec![(3, Action::Share(3)), (1, Action::Share(1))]);
        }
        other => panic!("{other:?}"),
    }
}

#[test]
fn a_card_shows_its_window() {
    let card = render_share_source(&source(8));
    assert_eq!((card.id, card.height, card.action), (8, 180, Action::Share(8)));
    assert_eq!((card.border, card.background), (0xd1d5db, 0xffffff));
    assert_eq!((card.hover_border, card.hover_background), (0x1f2933, 0xf9fafb));
    assert_eq!((card.title.color, card.title.text.as_str()), (0x1f2933, "title 8"));
    assert_eq!((card.app_name.color, card.app_name.text.as_str()), (0x6b7280, "app 8"));
}

#[test]
fn a_preview_may_be_missing() {
    let mut window = source(1);
    let view = render_share_source_preview(&window);
    assert_eq!((view.height, view.background), (92, 0xe5e7eb));
    assert_eq!(placeholder(view.content), (0x6b7280, "Preview unavailable".to_string()));
    window.preview_error = Some("denied".to_string());
    let view = render_share_source_preview(&window);
    assert_eq!(placeholder(view.content), (0x6b7280, "denied".to_string()));
    let picture = |pixels| RgbaPicture { width: 1, height: 1, pixels };
    window.preview = Some(ShareSourcePreview::from_image(picture(vec![1, 2, 3])));
    let view = render_share_source_preview(&window);
    assert_eq!(placeholder(view.content), (0x6b7280, "Preview unavailable".to_string()));
    window.preview = Some(ShareSourcePreview::from_image(picture(vec![1, 2, 3, 4])));
    match render_share_source_preview(&window).content {
        PreviewContent::Picture(shown) => assert_eq!(shown.pixels, vec![1, 2, 3, 4]),
        other => panic!("{other:?}"),
    }
    assert_eq!(placeholder(preview_placeholder("x").content), (0x6b7280, "x".to_string()));
}

#[test]
fn clicks_do_what_they_say() {
    let mut app = PommeApp::new();
    match app.click(Action::Connect, true) {
        Effect::Connect(address) => assert_eq!(address, "192.168.1.125:1337"),
        other => panic!("{other:?}"),
    }
    assert!(matches!(app.click(Action::Connect, true), Effect::Nothing));
    app.connect_finished(Ok((Ok(()), Ok(()))));
    assert!(matches!(app.click(Action::OpenShareModal, true), Effect::ListWindows));
    assert!(app.share_modal_open);
    assert!(matches!(app.click(Action::CloseShareModal, true), Effect::Nothing));
    assert!(!app.share_modal_open);
    app.click(Action::OpenShareModal, true);
    app.share_sources_loaded(Ok(vec![source(6)]));
    assert!(matches!(app.click(Action::Share(6), false), Effect::Nothing));
    assert!(app.share_modal_open);
    assert!(matches!(app.click(Action::Share(6), true), Effect::Share(6)));
    assert!(app.send_task && !app.share_modal_open);
    match app.click(Action::Disconnect, true) {
        Effect::Close(farewell) => assert_eq!(farewell, Some(vec![0, 0, 0, 1, 2])),
        other => panic!("{other:?}"),
    }
    assert_eq!(app.view, AppView::Connect);
}

#[test]
fn a_lost_connection_is_shown_in_red() {
    let mut app = connected();
    app.connection_lost("Connection lost: timeout".to_string());
    let screen = first_screen(&app);
    let message = screen.message.unwrap();
    assert_eq!((message.color, message.text.as_str()), (0xb91c1c, "Connection lost: timeout"));
    assert_eq!(screen.button.action, Some(Action::Connect));
}
