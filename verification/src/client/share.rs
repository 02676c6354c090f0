//! The windows that can be shared, and their previews.

use crate::picture::{
    can_be_shrunk, red_and_blue_swapped, rgba_len, shared_bytes, thumbnail, thumbnail_pixels,
    RgbaPicture,
};
use crate::text::{
    contains, contains_text, is_blank, is_white_space_char, nothing_is_left_of_white_space,
    same_text, something_is_left_of_the_rest, trim, trimmed,
};
use std::sync::Arc;
use vstd::prelude::*;
use vstd::slice::*;

verus! {

/// The size of a preview.
pub const PREVIEW_WIDTH: u32 = 360;

pub const PREVIEW_HEIGHT: u32 = 180;

/// A system whose windows can be listed and captured.
#[derive(Clone, Copy, Debug, PartialEq, Eq, Structural)]
pub enum CapturePlatform {
    MacOs,
    Windows,
}

/// What is known about the windows that can be shared.
#[derive(Debug)]
pub enum ShareSources {
    Idle,
    Loading,
    Loaded(Vec<ShareSource>),
    Failed(String),
}

/// A window that can be shared.
#[derive(Debug)]
pub struct ShareSource {
    pub id: u32,
    pub title: String,
    pub app_name: String,
    pub preview: Option<ShareSourcePreview>,
    pub preview_error: Option<String>,
}

/// A small picture of a window.
#[derive(Debug)]
pub struct ShareSourcePreview {
    pub width: u32,
    pub height: u32,
    pub pixels: Arc<[u8]>,
}

impl Clone for ShareSource {
    /// The same window.
    fn clone(&self) -> (copy: ShareSource)
        ensures
            copy == *self,
    {
        ShareSource {
            id: self.id,
            title: self.title.clone(),
            app_name: self.app_name.clone(),
            preview: self.preview.clone(),
            preview_error: self.preview_error.clone(),
        }
    }
}

impl Clone for ShareSourcePreview {
    /// The same preview. Its pixels are shared.
    fn clone(&self) -> (copy: ShareSourcePreview)
        ensures
            copy == *self,
    {
        ShareSourcePreview { width: self.width, height: self.height, pixels: self.pixels.clone() }
    }
}

impl ShareSourcePreview {
    /// Keeps a picture as a preview.
    pub fn from_image(image: RgbaPicture) -> (preview: ShareSourcePreview)
        ensures
            preview.width == image.width,
            preview.height == image.height,
            preview.pixels@ == image.pixels@,
    {
        ShareSourcePreview {
            width: image.width,
            height: image.height,
            pixels: shared_bytes(&image.pixels),
        }
    }

    /// The preview as a picture. `None` if it has fewer pixels than its size asks for.
    pub fn render_image(&self) -> (picture: Option<RgbaPicture>)
        ensures
            picture is Some <==> rgba_len(self.width, self.height) <= self.pixels@.len(),
            picture matches Some(p) ==> {
                &&& p.width == self.width
                &&& p.height == self.height
                &&& p.pixels@ == self.pixels@
            },
    {
        RgbaPicture::from_raw(self.width, self.height, slice_to_vec(&self.pixels))
    }
}

/// What the system says about a window. `None` stands for a question that it did not answer.
#[derive(Debug)]
pub struct WindowInfo {
    pub minimized: Option<bool>,
    pub width: Option<u32>,
    pub height: Option<u32>,
    pub pid: Option<u32>,
    pub title: Option<String>,
    pub app_name: Option<String>,
    pub id: Option<u32>,
}

/// A window that is to be offered: where it stands in the list of windows, and how it is called.
#[derive(Debug)]
pub struct ShareSourceCandidate {
    pub window: usize,
    pub id: u32,
    pub title: String,
    pub app_name: String,
}

/// Whether a window is part of the system's own furniture, or too small to be worth sharing.
pub open spec fn hidden(title: Seq<char>, app_name: Seq<char>, width: u32, height: u32) -> bool {
    ||| app_name == "Window Server"@
    ||| title == "Menubar"@
    ||| title == "StatusIndicator"@
    ||| width < 80
    ||| height < 60
}

/// Whether a window is part of the system's own furniture, or too small to be worth sharing.
pub fn should_hide_share_source(
    title: &str,
    app_name: &str,
    width: u32,
    height: u32,
) -> (hide: bool)
    ensures
        hide == hidden(title@, app_name@, width, height),
{
    same_text(app_name, "Window Server") || same_text(title, "Menubar") || same_text(
        title,
        "StatusIndicator",
    ) || width < 80 || height < 60
}

/// A name, or what stands in for one that is missing or blank.
pub open spec fn label_spec(name: Option<String>, fallback: Seq<char>) -> Seq<char> {
    match name {
        Some(text) if trimmed(text@).len() > 0 => text@,
        _ => fallback,
    }
}

fn label(name: &Option<String>, fallback: &str) -> (text: String)
    ensures
        text@ == label_spec(*name, fallback@),
{
    match name {
        Some(text) => {
            if trim(text.as_str()).as_str().is_empty() {
                fallback.to_owned()
            } else {
                text.clone()
            }
        },
        None => fallback.to_owned(),
    }
}

/// A number, or zero.
pub open spec fn or_zero(n: Option<u32>) -> u32 {
    match n {
        Some(n) => n,
        None => 0,
    }
}

impl WindowInfo {
    pub open spec fn shown_title(self) -> Seq<char> {
        label_spec(self.title, "Untitled window"@)
    }

    pub open spec fn shown_app_name(self) -> Seq<char> {
        label_spec(self.app_name, "Unknown app"@)
    }

    /// Whether the window is offered: it is known not to be minimized, it has a size, it belongs
    /// to another process, and nothing speaks for hiding it.
    pub open spec fn is_offered(self, current_pid: u32) -> bool {
        &&& self.minimized == Some(false)
        &&& or_zero(self.width) != 0
        &&& or_zero(self.height) != 0
        &&& or_zero(self.pid) != current_pid
        &&& !hidden(
            self.shown_title(),
            self.shown_app_name(),
            or_zero(self.width),
            or_zero(self.height),
        )
    }
}

/// The places of the windows that are offered, in order, among the first `n`.
pub open spec fn offered_windows(windows: Seq<WindowInfo>, current_pid: u32, n: nat) -> Seq<int>
    decreases n,
{
    if n == 0 {
        seq![]
    } else {
        let before = offered_windows(windows, current_pid, (n - 1) as nat);
        if windows[n - 1].is_offered(current_pid) {
            before.push(n - 1)
        } else {
            before
        }
    }
}

/// Whether `candidate` stands for the window at `place`, after `earlier` windows were picked.
pub open spec fn stands_for(
    candidate: ShareSourceCandidate,
    windows: Seq<WindowInfo>,
    place: int,
    earlier: int,
) -> bool {
    &&& candidate.window == place
    &&& candidate.title@ == windows[place].shown_title()
    &&& candidate.app_name@ == windows[place].shown_app_name()
    &&& candidate.id == (match windows[place].id {
        Some(id) => id as int,
        None => earlier % 0x1_0000_0000,
    })
}

/// Whether `candidates` stand for all the windows that are to be offered, in order.
pub open spec fn are_candidates(
    candidates: Seq<ShareSourceCandidate>,
    windows: Seq<WindowInfo>,
    current_pid: u32,
) -> bool {
    let places = offered_windows(windows, current_pid, windows.len());
    &&& candidates.len() == places.len()
    &&& forall|i: int|
        0 <= i < places.len() ==> stands_for(#[trigger] candidates[i], windows, places[i], i)
}

/// Picks the windows that are offered. One that has no number is given the number of windows
/// picked before it.
pub fn share_source_candidates(windows: &Vec<WindowInfo>, current_pid: u32) -> (candidates: Vec<
    ShareSourceCandidate,
>)
    ensures
        are_candidates(candidates@, windows@, current_pid),
{
    let mut candidates: Vec<ShareSourceCandidate> = Vec::new();
    let mut n: usize = 0;
    while n < windows.len()
        invariant
            n <= windows@.len(),
            candidates@.len() == offered_windows(windows@, current_pid, n as nat).len(),
            forall|i: int|
                0 <= i < candidates@.len() ==> stands_for(
                    #[trigger] candidates@[i],
                    windows@,
                    offered_windows(windows@, current_pid, n as nat)[i],
                    i,
                ),
        decreases windows@.len() - n,
    {
        let window: &WindowInfo = &windows[n];
        let ghost before = candidates@;
        if let Some(candidate) = share_source_candidate(window, n, current_pid, candidates.len()) {
            candidates.push(candidate);
        }
        proof {
            let now = offered_windows(windows@, current_pid, (n + 1) as nat);
            assert forall|i: int| 0 <= i < candidates@.len() implies stands_for(
                #[trigger] candidates@[i],
                windows@,
                now[i],
                i,
            ) by {
                if i < before.len() {
                    assert(candidates@[i] == before[i]);
                }
            }
        }
        n += 1;
    }
    candidates
}

/// Decides about one window, the one at `place`, after `earlier` windows were picked.
fn share_source_candidate(
    window: &WindowInfo,
    place: usize,
    current_pid: u32,
    earlier: usize,
) -> (candidate: Option<ShareSourceCandidate>)
    ensures
        candidate is Some <==> window.is_offered(current_pid),
        candidate matches Some(c) ==> {
            &&& c.window == place
            &&& c.title@ == window.shown_title()
            &&& c.app_name@ == window.shown_app_name()
            &&& c.id == (match window.id {
                Some(id) => id as int,
                None => earlier as int % 0x1_0000_0000,
            })
        },
{
    let minimized: bool = match window.minimized {
        Some(minimized) => minimized,
        None => true,
    };
    if minimized {
        return None;
    }
    let width: u32 = window.width.unwrap_or(0);
    let height: u32 = window.height.unwrap_or(0);
    if width == 0 || height == 0 {
        return None;
    }
    let pid: u32 = window.pid.unwrap_or(0);
    if pid == current_pid {
        return None;
    }
    let title = label(&window.title, "Untitled window");
    let app_name = label(&window.app_name, "Unknown app");
    let id: u32 = match window.id {
        Some(id) => id,
        None => (earlier as u64 % 0x1_0000_0000) as u32,
    };
    if should_hide_share_source(title.as_str(), app_name.as_str(), width, height) {
        return None;
    }
    Some(ShareSourceCandidate { window: place, id, title, app_name })
}

/// A window that is offered, and what capturing it gave: a picture, or an error in words.
#[derive(Debug)]
pub struct CapturedWindow {
    pub candidate: ShareSourceCandidate,
    pub capture: Result<RgbaPicture, String>,
}

impl CapturedWindow {
    /// A capture covers its size and can be shrunk to a preview.
    pub open spec fn wf(self) -> bool {
        self.capture matches Ok(image) ==> image.wf() && can_be_shrunk(image.width, image.height)
    }
}

/// The bytes of a capture, red first. On Windows they come blue first.
pub open spec fn normalized_pixels(platform: CapturePlatform, pixels: Seq<u8>) -> Seq<u8> {
    match platform {
        CapturePlatform::Windows => red_and_blue_swapped(pixels),
        CapturePlatform::MacOs => pixels,
    }
}

/// Brings the bytes of a capture into the order red, green, blue.
pub fn normalize_preview_image(
    platform: CapturePlatform,
    image: RgbaPicture,
) -> (normal: RgbaPicture)
    ensures
        normal.width == image.width,
        normal.height == image.height,
        normal.pixels@ == normalized_pixels(platform, image.pixels@),
{
    match platform {
        CapturePlatform::Windows => bgra_image_to_rgba(image),
        CapturePlatform::MacOs => image,
    }
}

/// Turns blue, green, red into red, green, blue.
pub fn bgra_image_to_rgba(image: RgbaPicture) -> (rgba: RgbaPicture)
    ensures
        rgba.width == image.width,
        rgba.height == image.height,
        rgba.pixels@ == red_and_blue_swapped(image.pixels@),
{
    let mut rgba = image;
    rgba.swap_red_and_blue();
    rgba
}

/// Why windows cannot be listed without a permission, in words.
pub open spec fn permission_text(platform: CapturePlatform) -> Seq<char> {
    match platform {
        CapturePlatform::MacOs => "Screen Recording permission is required. Enable Pomme Screenshare in System Settings, then fully quit and reopen the app."@,
        CapturePlatform::Windows => "Window capture permission was denied."@,
    }
}

/// Why windows cannot be listed without a permission, in words.
pub fn screen_recording_permission_message(platform: CapturePlatform) -> (text: String)
    ensures
        text@ == permission_text(platform),
{
    match platform {
        CapturePlatform::MacOs => "Screen Recording permission is required. Enable Pomme Screenshare in System Settings, then fully quit and reopen the app.".to_owned(),
        CapturePlatform::Windows => "Window capture permission was denied.".to_owned(),
    }
}

/// Whether the user is to be asked for access, given whether there is access already.
pub fn request_share_source_access(platform: CapturePlatform, preflight: bool) -> (ask: bool)
    ensures
        ask == (platform == CapturePlatform::MacOs && !preflight),
{
    match platform {
        CapturePlatform::MacOs => !preflight,
        CapturePlatform::Windows => false,
    }
}

/// Whether windows may be listed, given what the system says about access. Windows asks for no
/// permission.
pub fn has_share_source_access(platform: CapturePlatform, preflight: bool) -> (access: bool)
    ensures
        access == (platform == CapturePlatform::Windows || preflight),
{
    match platform {
        CapturePlatform::MacOs => preflight,
        CapturePlatform::Windows => true,
    }
}

/// `str::to_lowercase`: what it makes of a text.
pub uninterp spec fn lowercase(text: Seq<char>) -> Seq<char>;

/// `str::to_lowercase` is a function of the text.
pub assume_specification[ str::to_lowercase ](text: &str) -> (lower: String)
    ensures
        lower@ == lowercase(text@),
;

/// An error of the system in words, given the same words in lower case. On macOS one that speaks
/// of a permission is replaced by advice.
pub open spec fn capture_error_spec(
    platform: CapturePlatform,
    message: Seq<char>,
    lowered: Seq<char>,
) -> Seq<char> {
    if platform == CapturePlatform::MacOs && contains_text(lowered, "permission"@) {
        "Screen Recording permission is required. Enable it in System Settings, then reopen Pomme Screenshare."@
    } else {
        message
    }
}

/// An error of the system in words, given the same words in lower case.
pub fn capture_error_text(platform: CapturePlatform, message: &str, lowered: &str) -> (text: String)
    ensures
        text@ == capture_error_spec(platform, message@, lowered@),
{
    if platform == CapturePlatform::MacOs && contains(lowered, "permission") {
        "Screen Recording permission is required. Enable it in System Settings, then reopen Pomme Screenshare.".to_owned()
    } else {
        message.to_owned()
    }
}

/// An error of the system in words.
pub fn format_capture_error(platform: CapturePlatform, message: &str) -> (text: String)
    ensures
        text@ == capture_error_spec(platform, message@, lowercase(message@)),
{
    let lowered = message.to_lowercase();
    capture_error_text(platform, message, lowered.as_str())
}

/// Whether `source` is what is offered of `window`: its names and number, and a preview of the
/// fixed size or the reason why there is none.
pub open spec fn is_source_of(
    source: ShareSource,
    platform: CapturePlatform,
    window: CapturedWindow,
) -> bool {
    &&& source.id == window.candidate.id
    &&& source.title == window.candidate.title
    &&& source.app_name == window.candidate.app_name
    &&& match window.capture {
        Ok(image) => {
            &&& source.preview matches Some(preview)
            &&& preview.width == PREVIEW_WIDTH
            &&& preview.height == PREVIEW_HEIGHT
            &&& preview.pixels@ == thumbnail_pixels(
                image.width,
                image.height,
                normalized_pixels(platform, image.pixels@),
                PREVIEW_WIDTH,
                PREVIEW_HEIGHT,
            )
            &&& preview.pixels@.len() == rgba_len(PREVIEW_WIDTH, PREVIEW_HEIGHT)
            &&& source.preview_error is None
        },
        Err(error) => {
            &&& source.preview is None
            &&& source.preview_error matches Some(text)
            &&& text@ == capture_error_spec(platform, error@, lowercase(error@))
        },
    }
}

/// What is offered of a window.
pub fn share_source(platform: CapturePlatform, window: CapturedWindow) -> (source: ShareSource)
    requires
        window.wf(),
    ensures
        is_source_of(source, platform, window),
{
    let CapturedWindow { candidate, capture } = window;
    let (preview, preview_error) = match capture {
        Ok(image) => {
            let image = normalize_preview_image(platform, image);
            let small = thumbnail(image, PREVIEW_WIDTH, PREVIEW_HEIGHT);
            (Some(ShareSourcePreview::from_image(small)), None)
        },
        Err(error) => (None, Some(format_capture_error(platform, error.as_str()))),
    };
    ShareSource {
        id: candidate.id,
        title: candidate.title,
        app_name: candidate.app_name,
        preview,
        preview_error,
    }
}

/// What loading the windows gives: all that were captured, in order; the system's error; or,
/// where there are none and access is missing, the reason for that.
pub open spec fn platform_sources_spec(
    platform: CapturePlatform,
    scan: Result<Vec<CapturedWindow>, String>,
    preflight: bool,
    loaded: Result<Vec<ShareSource>, String>,
) -> bool {
    match scan {
        Err(error) => {
            &&& loaded matches Err(text)
            &&& text@ == capture_error_spec(platform, error@, lowercase(error@))
        },
        Ok(windows) => if windows@.len() == 0 && platform == CapturePlatform::MacOs && !preflight {
            loaded matches Err(text) && text@ == permission_text(platform)
        } else {
            &&& loaded matches Ok(sources)
            &&& sources@.len() == windows@.len()
            &&& forall|i: int|
                0 <= i < windows@.len() ==> is_source_of(
                    #[trigger] sources@[i],
                    platform,
                    windows@[i],
                )
        },
    }
}

/// Turns a scan of the system's windows into what is offered. `preflight` is what the system
/// says about access to the windows.
pub fn load_platform_share_sources(
    platform: CapturePlatform,
    scan: Result<Vec<CapturedWindow>, String>,
    preflight: bool,
) -> (loaded: Result<Vec<ShareSource>, String>)
    requires
        scan matches Ok(windows) ==> forall|i: int|
            0 <= i < windows@.len() ==> (#[trigger] windows@[i]).wf(),
    ensures
        platform_sources_spec(platform, scan, preflight, loaded),
{
    let mut windows: Vec<CapturedWindow> = match scan {
        Ok(windows) => windows,
        Err(error) => return Err(format_capture_error(platform, error.as_str())),
    };
    let ghost all = windows@;
    let mut sources: Vec<ShareSource> = Vec::new();
    assert(windows@ =~= all.subrange(0, all.len() as int));
    while windows.len() > 0
        invariant
            forall|i: int| 0 <= i < all.len() ==> (#[trigger] all[i]).wf(),
            sources@.len() + windows@.len() == all.len(),
            windows@ == all.subrange(sources@.len() as int, all.len() as int),
            forall|i: int|
                0 <= i < sources@.len() ==> is_source_of(#[trigger] sources@[i], platform, all[i]),
        decreases windows@.len(),
    {
        let ghost before = windows@;
        let window = windows.remove(0);
        assert(window == all[sources@.len() as int]);
        sources.push(share_source(platform, window));
        assert(windows@ =~= all.subrange(sources@.len() as int, all.len() as int));
    }
    if sources.len() == 0 && !has_share_source_access(platform, preflight) {
        return Err(screen_recording_permission_message(platform));
    }
    Ok(sources)
}

/// Turns a scan of the system's windows into what is offered. A system whose windows cannot be
/// listed has nothing to offer, whatever was scanned.
pub fn load_share_sources(
    platform: Option<CapturePlatform>,
    scan: Result<Vec<CapturedWindow>, String>,
    preflight: bool,
) -> (loaded: Result<Vec<ShareSource>, String>)
    requires
        platform is Some ==> (scan matches Ok(windows) ==> forall|i: int|
            0 <= i < windows@.len() ==> (#[trigger] windows@[i]).wf()),
    ensures
        match platform {
            Some(platform) => platform_sources_spec(platform, scan, preflight, loaded),
            None => loaded matches Err(text) && text@
                == "Window previews are only implemented for macOS and Windows."@,
        },
{
    match platform {
        Some(platform) => load_platform_share_sources(platform, scan, preflight),
        None => Err("Window previews are only implemented for macOS and Windows.".to_owned()),
    }
}

/// Where each window that was picked is captured, in order, what is loaded are exactly the windows
/// that are to be offered, in order, under their names and numbers. There is one exception: if there
/// are none and access is missing, the reason for that is given in place of an empty list.
pub proof fn the_sources_are_exactly_the_offered_windows(
    windows: Seq<WindowInfo>,
    current_pid: u32,
    candidates: Seq<ShareSourceCandidate>,
    captured: Vec<CapturedWindow>,
    platform: CapturePlatform,
    preflight: bool,
    loaded: Result<Vec<ShareSource>, String>,
)
    requires
        are_candidates(candidates, windows, current_pid),
        captured@.len() == candidates.len(),
        forall|i: int|
            0 <= i < captured@.len() ==> (#[trigger] captured@[i]).candidate == candidates[i],
        platform_sources_spec(platform, Ok(captured), preflight, loaded),
    ensures
        ({
            let places = offered_windows(windows, current_pid, windows.len());
            if places.len() == 0 && platform == CapturePlatform::MacOs && !preflight {
                loaded matches Err(text) && text@ == permission_text(platform)
            } else {
                &&& loaded matches Ok(sources)
                &&& sources@.len() == places.len()
                &&& forall|i: int|
                    #![trigger sources@[i]]
                    0 <= i < places.len() ==> {
                        &&& 0 <= places[i] < windows.len()
                        &&& windows[places[i]].is_offered(current_pid)
                        &&& sources@[i].title@ == windows[places[i]].shown_title()
                        &&& sources@[i].app_name@ == windows[places[i]].shown_app_name()
                        &&& windows[places[i]].id matches Some(id) ==> sources@[i].id == id
                        &&& sources@[i].preview is Some <==> captured@[i].capture is Ok
                    }
            }
        }),
{
    let places = offered_windows(windows, current_pid, windows.len());
    offers_are_exactly_the_shareable_windows(windows, current_pid, windows.len());
    if let Ok(sources) = loaded {
        assert forall|i: int|
            #![trigger sources@[i]]
            0 <= i < places.len() implies {
            &&& 0 <= places[i] < windows.len()
            &&& windows[places[i]].is_offered(current_pid)
            &&& sources@[i].title@ == windows[places[i]].shown_title()
            &&& sources@[i].app_name@ == windows[places[i]].shown_app_name()
            &&& windows[places[i]].id matches Some(id) ==> sources@[i].id == id
            &&& sources@[i].preview is Some <==> captured@[i].capture is Ok
        } by {
            assert(is_source_of(sources@[i], platform, captured@[i]));
            assert(captured@[i].candidate == candidates[i]);
            assert(stands_for(candidates[i], windows, places[i], i));
        }
    }
}

/// The windows that are offered stand in the list in order, each of them once, and they are all
/// that are to be offered and no others.
pub proof fn offers_are_exactly_the_shareable_windows(
    windows: Seq<WindowInfo>,
    current_pid: u32,
    n: nat,
)
    requires
        n <= windows.len(),
    ensures
        ({
            let places = offered_windows(windows, current_pid, n);
            &&& forall|i: int, j: int| 0 <= i < j < places.len() ==> places[i] < places[j]
            &&& forall|i: int|
                0 <= i < places.len() ==> {
                    &&& 0 <= #[trigger] places[i] < n
                    &&& windows[places[i]].is_offered(current_pid)
                }
            &&& forall|k: int|
                0 <= k < n && (#[trigger] windows[k]).is_offered(current_pid) ==> places.contains(k)
        }),
    decreases n,
{
    if n > 0 {
        offers_are_exactly_the_shareable_windows(windows, current_pid, (n - 1) as nat);
        let before = offered_windows(windows, current_pid, (n - 1) as nat);
        let places = offered_windows(windows, current_pid, n);
        assert forall|k: int|
            0 <= k < n && (#[trigger] windows[k]).is_offered(current_pid) implies places.contains(
            k,
        ) by {
            if k == n - 1 {
                assert(places[places.len() - 1] == k);
            } else {
                let i = choose|i: int| 0 <= i < before.len() && before[i] == k;
                assert(places[i] == k);
            }
        }
    }
}

/// The client never offers its own windows.
pub proof fn own_windows_are_never_offered(window: WindowInfo, current_pid: u32)
    requires
        window.pid == Some(current_pid),
    ensures
        !window.is_offered(current_pid),
{
}

/// A window of at least 80 by 60 pixels is never hidden, whatever its shape and its names, but for
/// three names that the system gives its own furniture.
pub proof fn ordinary_windows_are_never_hidden(
    title: Seq<char>,
    app_name: Seq<char>,
    width: u32,
    height: u32,
)
    requires
        width >= 80,
        height >= 60,
        app_name != "Window Server"@,
        title != "Menubar"@,
        title != "StatusIndicator"@,
    ensures
        !hidden(title, app_name, width, height),
{
}

/// The system's furniture and tiny windows are always hidden.
pub proof fn furniture_and_tiny_windows_are_hidden(
    title: Seq<char>,
    app_name: Seq<char>,
    width: u32,
    height: u32,
)
    ensures
        hidden(title, "Window Server"@, width, height),
        hidden("Menubar"@, app_name, width, height),
        hidden("StatusIndicator"@, app_name, width, height),
        width < 80 ==> hidden(title, app_name, width, height),
        height < 60 ==> hidden(title, app_name, width, height),
{
}

/// A name that holds anything but white space is shown as it is. In place of one that does not, or
/// is not known, the standing name is shown.
pub proof fn names_are_shown_as_they_are(name: Option<String>, fallback: Seq<char>)
    ensures
        name is None ==> label_spec(name, fallback) == fallback,
        name matches Some(text) ==> (is_blank(text@) ==> label_spec(name, fallback) == fallback),
        name matches Some(text) ==> (!is_blank(text@) ==> label_spec(name, fallback) == text@),
{
    if let Some(text) = name {
        if is_blank(text@) {
            nothing_is_left_of_white_space(text@);
        } else {
            let i = choose|i: int| 0 <= i < text@.len() && !is_white_space_char(#[trigger] text@[i]);
            something_is_left_of_the_rest(text@, i);
        }
    }
}

/// A window that is known not to be minimized, belongs to another process and is at least 80 by 60
/// pixels is offered, under any names but those of the system's furniture.
pub proof fn ordinary_windows_are_offered(
    window: WindowInfo,
    current_pid: u32,
    width: u32,
    height: u32,
)
    requires
        window.minimized == Some(false),
        window.width == Some(width) && width >= 80,
        window.height == Some(height) && height >= 60,
        match window.pid {
            Some(pid) => pid != current_pid,
            None => 0 != current_pid,
        },
        window.title matches Some(title) ==> title@ != "Menubar"@ && title@ != "StatusIndicator"@,
        window.app_name matches Some(name) ==> name@ != "Window Server"@,
    ensures
        window.is_offered(current_pid),
{
    reveal_strlit("Untitled window");
    reveal_strlit("Unknown app");
    reveal_strlit("Menubar");
    reveal_strlit("StatusIndicator");
    reveal_strlit("Window Server");
    assert("Untitled window"@.len() != "Menubar"@.len());
    assert("Untitled window"@[0] != "StatusIndicator"@[0]);
    assert("Unknown app"@.len() != "Window Server"@.len());
}

/// Of a window that is offered it is known that it is not minimized, it is at least 80 by 60 pixels,
/// it belongs to another process, and it is no furniture of the system.
pub proof fn no_other_windows_are_offered(window: WindowInfo, current_pid: u32)
    requires
        window.is_offered(current_pid),
    ensures
        window.minimized == Some(false),
        window.width matches Some(width) && width >= 80,
        window.height matches Some(height) && height >= 60,
        match window.pid {
            Some(pid) => pid != current_pid,
            None => 0 != current_pid,
        },
        window.title matches Some(title) ==> title@ != "Menubar"@ && title@ != "StatusIndicator"@,
        window.app_name matches Some(name) ==> name@ != "Window Server"@,
{
    reveal_strlit("Menubar");
    reveal_strlit("StatusIndicator");
    reveal_strlit("Window Server");
    names_are_shown_as_they_are(window.title, "Untitled window"@);
    names_are_shown_as_they_are(window.app_name, "Unknown app"@);
    assert(!is_white_space_char("Menubar"@[0]));
    assert(!is_white_space_char("StatusIndicator"@[0]));
    assert(!is_white_space_char("Window Server"@[0]));
    if let Some(title) = window.title {
        if title@ == "Menubar"@ || title@ == "StatusIndicator"@ {
            assert(!is_white_space_char(title@[0]));
            assert(!is_blank(title@));
        }
    }
    if let Some(name) = window.app_name {
        if name@ == "Window Server"@ {
            assert(!is_white_space_char(name@[0]));
            assert(!is_blank(name@));
        }
    }
}

/// Every window that is to be offered is picked, once and in order, and no other. It is picked under
/// its own names and number, a standing name for each that is missing, and, without a number, the
/// number of windows picked before it.
pub proof fn every_offered_window_is_picked_once(
    candidates: Seq<ShareSourceCandidate>,
    windows: Seq<WindowInfo>,
    current_pid: u32,
)
    requires
        are_candidates(candidates, windows, current_pid),
    ensures
        forall|i: int, j: int|
            0 <= i < j < candidates.len() ==> (#[trigger] candidates[i]).window < (
            #[trigger] candidates[j]).window,
        forall|i: int|
            0 <= i < candidates.len() ==> {
                let window = windows[(#[trigger] candidates[i]).window as int];
                &&& candidates[i].window < windows.len()
                &&& window.is_offered(current_pid)
                &&& candidates[i].title@ == (match window.title {
                    Some(title) if !is_blank(title@) => title@,
                    _ => "Untitled window"@,
                })
                &&& candidates[i].app_name@ == (match window.app_name {
                    Some(name) if !is_blank(name@) => name@,
                    _ => "Unknown app"@,
                })
                &&& candidates[i].id == (match window.id {
                    Some(id) => id as int,
                    None => i % 0x1_0000_0000,
                })
            },
        forall|k: int|
            0 <= k < windows.len() && (#[trigger] windows[k]).is_offered(current_pid)
                ==> exists|i: int|
                0 <= i < candidates.len() && (#[trigger] candidates[i]).window == k,
{
    let places = offered_windows(windows, current_pid, windows.len());
    offers_are_exactly_the_shareable_windows(windows, current_pid, windows.len());
    assert forall|i: int, j: int| 0 <= i < j < candidates.len() implies (
    #[trigger] candidates[i]).window < (#[trigger] candidates[j]).window by {
        assert(stands_for(candidates[i], windows, places[i], i));
        assert(stands_for(candidates[j], windows, places[j], j));
    }
    assert forall|i: int| 0 <= i < candidates.len() implies {
        let window = windows[(#[trigger] candidates[i]).window as int];
        &&& candidates[i].window < windows.len()
        &&& window.is_offered(current_pid)
        &&& candidates[i].title@ == (match window.title {
            Some(title) if !is_blank(title@) => title@,
            _ => "Untitled window"@,
        })
        &&& candidates[i].app_name@ == (match window.app_name {
            Some(name) if !is_blank(name@) => name@,
            _ => "Unknown app"@,
        })
        &&& candidates[i].id == (match window.id {
            Some(id) => id as int,
            None => i % 0x1_0000_0000,
        })
    } by {
        assert(stands_for(candidates[i], windows, places[i], i));
        names_are_shown_as_they_are(windows[places[i]].title, "Untitled window"@);
        names_are_shown_as_they_are(windows[places[i]].app_name, "Unknown app"@);
    }
    assert forall|k: int|
        0 <= k < windows.len() && (#[trigger] windows[k]).is_offered(
            current_pid,
        ) implies exists|i: int|
        0 <= i < candidates.len() && (#[trigger] candidates[i]).window == k by {
        let i = choose|i: int| 0 <= i < places.len() && places[i] == k;
        assert(stands_for(candidates[i], windows, places[i], i));
    }
}

/// The bytes of a capture keep their places, but that blue and red are told apart by the system: on
/// Windows each pixel has them traded.
pub proof fn pixels_keep_their_places(pixels: Seq<u8>, i: int)
    requires
        0 <= i,
        4 * i + 4 <= pixels.len(),
    ensures
        normalized_pixels(CapturePlatform::MacOs, pixels) == pixels,
        ({
            let normal = normalized_pixels(CapturePlatform::Windows, pixels);
            &&& normal.len() == pixels.len()
            &&& normal[4 * i] == pixels[4 * i + 2]
            &&& normal[4 * i + 1] == pixels[4 * i + 1]
            &&& normal[4 * i + 2] == pixels[4 * i]
            &&& normal[4 * i + 3] == pixels[4 * i + 3]
        }),
{
}

/// An error of the system is passed on as it is. Only on macOS, and only where it speaks of a
/// permission, advice is given in its place.
pub proof fn errors_are_passed_on(platform: CapturePlatform, message: Seq<char>, lowered: Seq<char>)
    ensures
        platform == CapturePlatform::Windows ==> capture_error_spec(platform, message, lowered)
            == message,
        !contains_text(lowered, "permission"@) ==> capture_error_spec(platform, message, lowered)
            == message,
        platform == CapturePlatform::MacOs && contains_text(lowered, "permission"@)
            ==> capture_error_spec(platform, message, lowered)
            == "Screen Recording permission is required. Enable it in System Settings, then reopen Pomme Screenshare."@,
        permission_text(CapturePlatform::MacOs)
            == "Screen Recording permission is required. Enable Pomme Screenshare in System Settings, then fully quit and reopen the app."@,
        permission_text(CapturePlatform::Windows) == "Window capture permission was denied."@,
{
}

/// What is offered of a window has the window's names and number. A window that was captured has a
/// preview: its own picture, shrunk to 360 by 180. One that was not has the reason in its place.
pub proof fn a_source_shows_its_window(
    source: ShareSource,
    platform: CapturePlatform,
    window: CapturedWindow,
)
    requires
        is_source_of(source, platform, window),
    ensures
        source.id == window.candidate.id,
        source.title@ == window.candidate.title@,
        source.app_name@ == window.candidate.app_name@,
        window.capture matches Ok(image) ==> {
            &&& source.preview_error is None
            &&& source.preview matches Some(preview)
            &&& preview.width == 360
            &&& preview.height == 180
            &&& preview.pixels@ == thumbnail_pixels(
                image.width,
                image.height,
                normalized_pixels(platform, image.pixels@),
                360,
                180,
            )
        },
        window.capture matches Err(error) ==> {
            &&& source.preview is None
            &&& source.preview_error matches Some(text)
            &&& text@ == capture_error_spec(platform, error@, lowercase(error@))
        },
{
}

/// Each window that was captured is offered, in order, and nothing else. An error of the system is
/// told, and so is that access is missing where there is nothing to offer.
pub proof fn each_captured_window_is_offered(
    platform: CapturePlatform,
    scan: Result<Vec<CapturedWindow>, String>,
    preflight: bool,
    loaded: Result<Vec<ShareSource>, String>,
)
    requires
        platform_sources_spec(platform, scan, preflight, loaded),
    ensures
        scan matches Ok(windows) ==> (windows@.len() > 0 || preflight || platform
            == CapturePlatform::Windows ==> {
            &&& loaded matches Ok(sources)
            &&& sources@.len() == windows@.len()
            &&& forall|i: int|
                0 <= i < windows@.len() ==> (#[trigger] sources@[i]).id == windows@[i].candidate.id
                    && sources@[i].title@ == windows@[i].candidate.title@ && sources@[i].app_name@
                    == windows@[i].candidate.app_name@ && (sources@[i].preview is Some
                    <==> windows@[i].capture is Ok)
        }),
        scan matches Ok(windows) ==> (windows@.len() == 0 && !preflight && platform
            == CapturePlatform::MacOs ==> (loaded matches Err(text) && text@ == permission_text(
            platform,
        ))),
        scan matches Err(error) ==> (loaded matches Err(text) && text@ == capture_error_spec(
            platform,
            error@,
            lowercase(error@),
        )),
{
    if let (Ok(windows), Ok(sources)) = (scan, loaded) {
        assert forall|i: int| 0 <= i < windows@.len() implies (#[trigger] sources@[i]).id
            == windows@[i].candidate.id && sources@[i].title@ == windows@[i].candidate.title@
            && sources@[i].app_name@ == windows@[i].candidate.app_name@ && (
        sources@[i].preview is Some <==> windows@[i].capture is Ok) by {
            assert(is_source_of(sources@[i], platform, windows@[i]));
        }
    }
}

/// Every capture whose pixels cover its size can be offered, up to sizes that no screen has.
pub proof fn every_sound_capture_is_taken(
    candidate: ShareSourceCandidate,
    image: RgbaPicture,
    error: String,
)
    ensures
        4 * image.width * image.height <= image.pixels@.len() && image.width < 1073741824
            && image.height < 1073741824 && image.width * image.height < 274877906944 ==> (
        CapturedWindow { candidate, capture: Ok(image) }).wf(),
        (CapturedWindow { candidate, capture: Err(error) }).wf(),
{
}

} // verus!
