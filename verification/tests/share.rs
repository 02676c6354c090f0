use pomme_screenshare::client::share::{
    bgra_image_to_rgba, capture_error_text, format_capture_error, has_share_source_access,
    load_platform_share_sources, load_share_sources, normalize_preview_image,
    request_share_source_access, screen_recording_permission_message, share_source,
    share_source_candidates, should_hide_share_source, CapturePlatform, CapturedWindow,
    ShareSourceCandidate, ShareSourcePreview, WindowInfo,
};
use pomme_screenshare::picture::RgbaPicture;

fn window(title: &str, app: &str, id: u32) -> WindowInfo {
    WindowInfo {
        minimized: Some(false),
        width: Some(800),
        height: Some(600),
        pid: Some(7),
        title: Some(title.to_string()),
        app_name: Some(app.to_string()),
        id: Some(id),
    }
}

fn captured(id: u32, capture: Result<RgbaPicture, String>) -> CapturedWindow {
    CapturedWindow {
        candidate: ShareSourceCandidate {
            window: 0,
            id,
            title: format!("title {id}"),
            app_name: format!("app {id}"),
        },
        capture,
    }
}

fn solid(width: u32, height: u32, color: [u8; 4]) -> RgbaPicture {
    RgbaPicture { width, height, pixels: color.repeat((width * height) as usize) }
}

#[test]
fn system_furniture_is_hidden() {
    assert!(!should_hide_share_source("Notes", "Editor", 80, 60));
    assert!(should_hide_share_source("Notes", "Window Server", 800, 600));
    assert!(should_hide_share_source("Menubar", "Editor", 800, 600));
    assert!(should_hide_share_source("StatusIndicator", "Editor", 800, 600));
    assert!(should_hide_share_source("Notes", "Editor", 79, 600));
    assert!(should_hide_share_source("Notes", "Editor", 800, 59));
    assert!(!should_hide_share_source("Window Server", "Menubar", 800, 600));
}

#[test]
fn windows_are_picked_in_order() {
    let mut minimized = window("a", "b", 1);
    minimized.minimized = Some(true);
    let mut unknown = window("a", "b", 2);
    unknown.minimized = None;
    let mut flat = window("a", "b", 3);
    flat.height = None;
    let mut own = window("a", "b", 4);
    own.pid = Some(99);
    let mut thin = window("a", "b", 5);
    thin.width = Some(0);
    let windows = vec![
        minimized,
        window("first", "app", 10),
        unknown,
        flat,
        own,
        thin,
        window("Menubar", "app", 11),
        window("second", "app", 12),
    ];
    let picked = share_source_candidates(&windows, 99);
    let found: Vec<(usize, u32, &str)> =
        picked.iter().map(|c| (c.window, c.id, c.title.as_str())).collect();
    assert_eq!(found, vec![(1, 10, "first"), (7, 12, "second")]);
}

#[test]
fn missing_names_and_numbers_are_made_up() {
    let mut blank = window(" \t", "", 0);
    blank.id = None;
    let mut bare = window("", "", 0);
    bare.id = None;
    bare.title = None;
    bare.app_name = None;
    bare.pid = None;
    let windows = vec![window("x", " y ", 5), blank, bare];
    let picked = share_source_candidates(&windows, 99);
    assert_eq!(picked[0].app_name, " y ");
    assert_eq!((picked[1].id, picked[2].id), (1, 2));
    for candidate in &picked[1..] {
        assert_eq!(candidate.title, "Untitled window");
        assert_eq!(candidate.app_name, "Unknown app");
    }
    assert_eq!(share_source_candidates(&windows, 0).len(), 2);
}

#[test]
fn previews_have_their_size() {
    let source = share_source(
        CapturePlatform::MacOs,
        captured(3, Ok(solid(720, 360, [10, 20, 30, 255]))),
    );
    assert_eq!((source.id, source.title.as_str(), source.app_name.as_str()), (3, "title 3", "app 3"));
    let preview = source.preview.clone().unwrap();
    assert_eq!((preview.width, preview.height), (360, 180));
    assert_eq!(&preview.pixels[..], &[10, 20, 30, 255].repeat(360 * 180)[..]);
    assert!(source.preview_error.is_none());
    assert_eq!(preview.render_image().unwrap().pixels.len(), 4 * 360 * 180);
}

#[test]
fn previews_mix_neighbouring_pixels() {
    let mut picture = solid(720, 360, [0, 0, 0, 255]);
    for pixel in picture.pixels.chunks_exact_mut(8) {
        pixel[0] = 200;
    }
    let source = share_source(CapturePlatform::MacOs, captured(1, Ok(picture)));
    assert_eq!(&source.preview.unwrap().pixels[..4], &[100, 0, 0, 255]);
}

#[test]
fn windows_captures_come_blue_first() {
    let source = share_source(
        CapturePlatform::Windows,
        captured(3, Ok(solid(360, 180, [10, 20, 30, 255]))),
    );
    assert_eq!(&source.preview.unwrap().pixels[..4], &[30, 20, 10, 255]);
    let swapped = bgra_image_to_rgba(solid(1, 1, [1, 2, 3, 4]));
    assert_eq!(swapped.pixels, vec![3, 2, 1, 4]);
    let kept = normalize_preview_image(CapturePlatform::MacOs, solid(1, 1, [1, 2, 3, 4]));
    assert_eq!(kept.pixels, vec![1, 2, 3, 4]);
}

#[test]
fn a_preview_with_too_few_pixels_is_no_image() {
    let preview = ShareSourcePreview::from_image(RgbaPicture {
        width: 2,
        height: 2,
        pixels: vec![0; 15],
    });
    assert_eq!(preview.pixels.len(), 15);
    assert!(preview.render_image().is_none());
}

#[test]
fn capture_errors_are_explained() {
    let advice = "Screen Recording permission is required. Enable it in System Settings, then reopen Pomme Screenshare.";
    assert_eq!(format_capture_error(CapturePlatform::MacOs, "No PerMission!"), advice);
    assert_eq!(format_capture_error(CapturePlatform::MacOs, "Broken"), "Broken");
    assert_eq!(format_capture_error(CapturePlatform::Windows, "No Permission"), "No Permission");
    assert_eq!(capture_error_text(CapturePlatform::MacOs, "A", "permission"), advice);
    let source = share_source(CapturePlatform::MacOs, captured(1, Err("permission".to_string())));
    assert!(source.preview.is_none());
    assert_eq!(source.preview_error.as_deref(), Some(advice));
}

#[test]
fn access_is_a_matter_of_the_platform() {
    assert!(request_share_source_access(CapturePlatform::MacOs, false));
    assert!(!request_share_source_access(CapturePlatform::MacOs, true));
    assert!(!request_share_source_access(CapturePlatform::Windows, false));
    assert!(!has_share_source_access(CapturePlatform::MacOs, false));
    assert!(has_share_source_access(CapturePlatform::MacOs, true));
    assert!(has_share_source_access(CapturePlatform::Windows, false));
    assert_eq!(
        screen_recording_permission_message(CapturePlatform::MacOs),
        "Screen Recording permission is required. Enable Pomme Screenshare in System Settings, then fully quit and reopen the app."
    );
    assert_eq!(
        screen_recording_permission_message(CapturePlatform::Windows),
        "Window capture permission was denied."
    );
}

#[test]
fn sources_are_loaded_in_order() {
    let scan = vec![
        captured(4, Err("a".to_string())),
        captured(5, Err("b".to_string())),
    ];
    let loaded = load_platform_share_sources(CapturePlatform::MacOs, Ok(scan), false).unwrap();
    let found: Vec<(u32, Option<&str>)> =
        loaded.iter().map(|s| (s.id, s.preview_error.as_deref())).collect();
    assert_eq!(found, vec![(4, Some("a")), (5, Some("b"))]);
    let copy = loaded[0].clone();
    assert_eq!((copy.id, copy.title.as_str()), (4, "title 4"));
}

#[test]
fn an_empty_list_without_access_is_an_error() {
    assert!(load_share_sources(Some(CapturePlatform::MacOs), Ok(vec![]), true).unwrap().is_empty());
    assert_eq!(
        load_share_sources(Some(CapturePlatform::MacOs), Ok(vec![]), false).unwrap_err(),
        screen_recording_permission_message(CapturePlatform::MacOs)
    );
    assert!(load_share_sources(Some(CapturePlatform::Windows), Ok(vec![]), false).unwrap().is_empty());
    assert_eq!(
        load_share_sources(Some(CapturePlatform::Windows), Err("x".to_string()), true).unwrap_err(),
        "x"
    );
    assert_eq!(
        load_share_sources(None, Ok(vec![]), true).unwrap_err(),
        "Window previews are only implemented for macOS and Windows."
    );
}

#[test]
fn the_sources_are_the_offered_windows() {
    let mut own = window("own", "app", 3);
    own.pid = Some(99);
    let mut nameless = window("", "app", 4);
    nameless.title = None;
    let windows =
        vec![window("one", "app", 1), own, nameless, window("Menubar", "app", 5), window("two", "b", 6)];
    let captured = share_source_candidates(&windows, 99)
        .into_iter()
        .map(|candidate| CapturedWindow {
            capture: if candidate.id == 6 { Err("no".to_string()) } else { Ok(solid(2, 2, [9; 4])) },
            candidate,
        })
        .collect();
    let loaded = load_share_sources(Some(CapturePlatform::Windows), Ok(captured), false).unwrap();
    let found: Vec<(u32, &str, &str, bool)> = loaded
        .iter()
        .map(|s| (s.id, s.title.as_str(), s.app_name.as_str(), s.preview.is_some()))
        .collect();
    assert_eq!(
        found,
        vec![
            (1, "one", "app", true),
            (4, "Untitled window", "app", true),
            (6, "two", "b", false),
        ]
    );
}
