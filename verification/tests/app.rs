use pomme_screenshare::client::app::{
    empty_message, keepalive_message, server_address, AppView, ConnectionStatus, PommeApp,
    CONNECT_TIMEOUT, KEEPALIVE_INTERVAL,
};
use pomme_screenshare::client::message::MessageType;
use pomme_screenshare::client::receive::PollAction;
use pomme_screenshare::client::share::{ShareSource, ShareSources};
use pomme_screenshare::client::video::VideoFrame;

fn connected() -> PommeApp {
    let mut app = PommeApp::new();
    app.start_connect();
    assert!(app.connect_finished(Ok((Ok(()), Ok(())))));
    app
}

fn failure(app: &PommeApp) -> &str {
    match &app.connection_status {
        ConnectionStatus::Failed(text) => text,
        other => panic!("{other:?}"),
    }
}

fn source(id: u32) -> ShareSource {
    ShareSource {
        id,
        title: String::new(),
        app_name: String::new(),
        preview: None,
        preview_error: None,
    }
}

#[test]
fn the_client_has_its_times() {
    assert_eq!(CONNECT_TIMEOUT, 5_000_000_000);
    assert_eq!(KEEPALIVE_INTERVAL, 2_000_000_000);
}

#[test]
fn the_port_is_put_behind_the_server() {
    for (typed, address) in [
        ("192.168.1.125", "192.168.1.125:1337"),
        ("  host \n", "host:1337"),
        ("host:1337", "host:1337"),
        ("host:1337:1337", "host:1337"),
        ("host :1337", "host :1337"),
        ("host:80", "host:80:1337"),
        ("", ":1337"),
        (" :1337 ", ":1337"),
    ] {
        assert_eq!(server_address(typed), address);
        assert_eq!(server_address(address), address);
    }
}

#[test]
fn a_window_starts_on_the_first_screen() {
    let app = PommeApp::new();
    assert_eq!(app.view, AppView::Connect);
    assert_eq!(app.server_input.content, "192.168.1.125");
    assert!(!app.server_input.disabled && !app.connection && !app.share_modal_open);
    assert!(matches!(app.connection_status, ConnectionStatus::Idle));
    assert!(matches!(app.share_sources, ShareSources::Idle));
}

#[test]
fn connecting_twice_is_connecting_once() {
    let mut app = PommeApp::new();
    app.server_input.content = " example ".to_string();
    assert_eq!(app.start_connect().as_deref(), Some("example:1337"));
    assert!(app.server_input.disabled && app.connect_task);
    assert!(matches!(app.connection_status, ConnectionStatus::Connecting));
    assert_eq!(app.start_connect(), None);
    assert!(matches!(app.connection_status, ConnectionStatus::Connecting));
}

#[test]
fn a_connection_is_held() {
    let app = connected();
    assert_eq!(app.view, AppView::Connected);
    assert!(app.connection && app.keepalive_task && app.receive_task);
    assert!(!app.server_input.disabled);
    assert!(matches!(app.connection_status, ConnectionStatus::Idle));
}

#[test]
fn connecting_can_fail() {
    let error = |text: &str| Err(text.to_string());
    for (result, reason) in [
        (Err("refused".to_string()), "Failed to connect: refused"),
        (Ok((error("a"), Ok(()))), "Failed to hold connection: a"),
        (Ok((Ok(()), error("b"))), "Failed to hold connection: b"),
        (Ok((error("a"), error("b"))), "Failed to hold connection: a"),
    ] {
        let mut app = PommeApp::new();
        app.start_connect();
        assert!(!app.connect_finished(result));
        assert_eq!(failure(&app), reason);
        assert_eq!(app.view, AppView::Connect);
        assert!(!app.connection && !app.server_input.disabled);
        assert!(app.start_connect().is_some());
    }
}

#[test]
fn a_lost_connection_leaves_nothing_behind() {
    let mut app = connected();
    app.frame_polled(PollAction::Show(VideoFrame::solid_rgba(1, 1, [0; 4])));
    app.open_share_modal();
    app.start_share_source(true);
    app.open_share_modal();
    app.task_ended(Err("reset".to_string()));
    assert_eq!(failure(&app), "Connection lost: reset");
    assert_eq!(app.view, AppView::Connect);
    assert!(app.frame.is_none() && !app.share_modal_open && !app.connection);
    assert!(!app.keepalive_task && !app.receive_task && !app.send_task);
    assert!(!app.share_sources_task && !app.server_input.disabled);
}

#[test]
fn a_task_that_ends_well_changes_nothing() {
    let mut app = connected();
    app.start_share_source(true);
    app.task_ended(Ok(()));
    assert!(app.connection && app.send_task);
}

#[test]
fn news_are_shown() {
    let mut app = connected();
    assert!(app.frame_polled(PollAction::Show(VideoFrame::solid_rgba(1, 1, [0; 4]))));
    assert!(app.frame.is_some());
    assert!(app.frame_polled(PollAction::Nothing));
    assert!(app.frame.is_some());
    assert!(app.frame_polled(PollAction::ClearFrame));
    assert!(app.frame.is_none());
    assert!(!app.frame_polled(PollAction::ConnectionLost("bye".to_string())));
    assert_eq!(failure(&app), "bye");
}

#[test]
fn leaving_says_so() {
    let mut app = connected();
    assert_eq!(app.disconnect(), Some(vec![0, 0, 0, 1, 2]));
    assert_eq!(app.view, AppView::Connect);
    assert!(matches!(app.connection_status, ConnectionStatus::Idle));
    assert_eq!(app.disconnect(), None);
    assert_eq!(keepalive_message(), vec![0, 0, 0, 1, 0]);
    assert_eq!(empty_message(MessageType::Video), vec![0, 0, 0, 1, 1]);
}

#[test]
fn windows_are_listed_anew_each_time() {
    let mut app = connected();
    app.open_share_modal();
    assert!(app.share_modal_open && app.share_sources_task);
    assert!(matches!(app.share_sources, ShareSources::Loading));
    app.share_sources_loaded(Ok(vec![source(4)]));
    assert!(!app.share_sources_task);
    assert!(matches!(&app.share_sources, ShareSources::Loaded(list) if list[0].id == 4));
    app.close_share_modal();
    assert!(!app.share_modal_open);
    app.open_share_modal();
    assert!(matches!(app.share_sources, ShareSources::Loading));
    app.share_sources_loaded(Err("no".to_string()));
    assert!(matches!(&app.share_sources, ShareSources::Failed(text) if text == "no"));
    app.load_share_sources();
    assert!(matches!(app.share_sources, ShareSources::Loading));
}

#[test]
fn sharing_needs_a_connection() {
    let mut app = PommeApp::new();
    assert!(!app.start_share_source(true));
    let mut app = connected();
    app.open_share_modal();
    assert!(!app.start_share_source(false));
    assert!(app.share_modal_open && !app.send_task);
    assert!(app.start_share_source(true));
    assert!(!app.share_modal_open && app.send_task);
}
