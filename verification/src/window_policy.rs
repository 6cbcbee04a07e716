//! How the main window treats what the Slack web view asks for: where it may
//! navigate, which new windows it may open, and how it toggles maximizing.

use vstd::prelude::*;
use crate::web_url::{
    WebUrl,
    WebUrlView,
    is_open_downloads_url,
    is_slack_url,
    is_zoom_url,
    spec_is_open_downloads_url,
    spec_is_slack_url,
    spec_is_zoom_url,
    is_external_scheme,
    ends_with_chars,
    slack_urls_by_host,
    zoom_urls_by_scheme_and_host,
};
use crate::os_command::Platform;

verus! {

/// The address the main window starts at.
pub const SLACK_URL: &'static str = "https://app.slack.com/client";

/// What the main window does with a navigation.
#[derive(Clone, Copy, Debug, PartialEq, Eq, Structural)]
pub enum NavigationAction {
    /// Stay on the page and show the Downloads folder.
    OpenDownloadsFolder,
    /// Stay on the page and hand the URL to the operating system.
    OpenExternally,
    /// Let the web view navigate.
    Proceed,
}

/// The navigation policy: the app's `zlack://open-downloads` link shows the
/// Downloads folder, Zoom links go to the operating system, and everything
/// else is loaded in the web view.
pub open spec fn navigation_action_spec(url: WebUrlView) -> NavigationAction {
    if spec_is_open_downloads_url(url) {
        NavigationAction::OpenDownloadsFolder
    } else if spec_is_zoom_url(url) {
        NavigationAction::OpenExternally
    } else {
        NavigationAction::Proceed
    }
}

/// What the main window does when the web view navigates to `url`.
pub fn navigation_action(url: &WebUrl) -> (r: NavigationAction)
    ensures
        r == navigation_action_spec(url@),
{
    if is_open_downloads_url(url) {
        NavigationAction::OpenDownloadsFolder
    } else if is_zoom_url(url) {
        NavigationAction::OpenExternally
    } else {
        NavigationAction::Proceed
    }
}

/// What the main window does with a request for a new window.
#[derive(Clone, Copy, Debug, PartialEq, Eq, Structural)]
pub enum NewWindowAction {
    /// Deny it and show the Downloads folder.
    OpenDownloadsFolder,
    /// Deny it and hand the URL to the operating system.
    OpenExternally,
    /// Let the web view open the window.
    Allow,
}

/// The new-window policy: the app's `zlack://open-downloads` link shows the
/// Downloads folder, Slack pages open in the app, and every other URL goes
/// to the operating system.
pub open spec fn new_window_action_spec(url: WebUrlView) -> NewWindowAction {
    if spec_is_open_downloads_url(url) {
        NewWindowAction::OpenDownloadsFolder
    } else if !spec_is_slack_url(url) {
        NewWindowAction::OpenExternally
    } else {
        NewWindowAction::Allow
    }
}

/// What the main window does when the web view asks to open `url` in a new
/// window.
pub fn new_window_action(url: &WebUrl) -> (r: NewWindowAction)
    ensures
        r == new_window_action_spec(url@),
{
    if is_open_downloads_url(url) {
        NewWindowAction::OpenDownloadsFolder
    } else if !is_slack_url(url) {
        NewWindowAction::OpenExternally
    } else {
        NewWindowAction::Allow
    }
}

/// Law: the app opens new windows only for Slack pages.
pub proof fn new_windows_only_for_slack(url: WebUrlView)
    ensures
        new_window_action_spec(url) == NewWindowAction::Allow ==> spec_is_slack_url(url),
{
}

/// Law: a navigation that the web view does not load is either the
/// Downloads link or a Zoom link, and a Zoom link always has a scheme that
/// the operating system may be asked to open.
pub proof fn navigation_hands_zoom_to_os(url: WebUrlView)
    ensures
        navigation_action_spec(url) != NavigationAction::Proceed ==> spec_is_open_downloads_url(url)
            || spec_is_zoom_url(url),
        navigation_action_spec(url) == NavigationAction::OpenExternally ==> is_external_scheme(
            url.scheme,
        ),
{
}

/// Law: the app's Downloads link never leaves the app, neither as a
/// navigation nor as a new window.
pub proof fn downloads_link_stays_in_app(url: WebUrlView)
    requires
        spec_is_open_downloads_url(url),
    ensures
        navigation_action_spec(url) == NavigationAction::OpenDownloadsFolder,
        new_window_action_spec(url) == NewWindowAction::OpenDownloadsFolder,
{
}

/// A Zoom link, spelled out: a Zoom client scheme, or `http`/`https` on
/// `zoom.us`, `zoom.com` or one of their subdomains.
pub open spec fn zoom_link(u: WebUrlView) -> bool {
    ||| u.scheme == "zoommtg"@
    ||| u.scheme == "zoomus"@
    ||| u.scheme == "zoomphonecall"@
    ||| (u.scheme == "http"@ || u.scheme == "https"@) && match u.host {
        Some(h) => h == "zoom.us"@ || h == "zoom.com"@ || ends_with_chars(h, ".zoom.us"@)
            || ends_with_chars(h, ".zoom.com"@),
        None => false,
    }
}

/// The app's Downloads link, spelled out.
pub open spec fn downloads_link(u: WebUrlView) -> bool {
    u.scheme == "zlack"@ && u.host == Some("open-downloads"@)
}

/// Law: a navigation to the Downloads link shows the Downloads folder;
/// every other navigation to a Zoom link (a Zoom client scheme, or
/// `http`/`https` on `zoom.us`, `zoom.com` or a subdomain) goes to the
/// operating system; every other navigation is loaded.
pub proof fn navigation_policy(u: WebUrlView)
    ensures
        downloads_link(u) ==> navigation_action_spec(u) == NavigationAction::OpenDownloadsFolder,
        !downloads_link(u) && zoom_link(u) ==> navigation_action_spec(u)
            == NavigationAction::OpenExternally,
        !downloads_link(u) && !zoom_link(u) ==> navigation_action_spec(u)
            == NavigationAction::Proceed,
{
    zoom_urls_by_scheme_and_host(u);
}

/// Law: a new window for the Downloads link shows the Downloads folder;
/// every other new window for a Slack page (host `slack.com`,
/// `app.slack.com` or ending with `.slack.com`) opens in the app; every
/// other one goes to the operating system.
pub proof fn new_window_policy(u: WebUrlView)
    ensures
        downloads_link(u) ==> new_window_action_spec(u) == NewWindowAction::OpenDownloadsFolder,
        !downloads_link(u) ==> (new_window_action_spec(u) == NewWindowAction::Allow <==> match u.host {
            Some(h) => h == "slack.com"@ || h == "app.slack.com"@ || ends_with_chars(h, ".slack.com"@),
            None => false,
        }),
        !downloads_link(u) && new_window_action_spec(u) != NewWindowAction::Allow ==> new_window_action_spec(u) == NewWindowAction::OpenExternally,
{
    slack_urls_by_host(u);
}

/// How to change a window's maximized state.
#[derive(Clone, Copy, Debug, PartialEq, Eq, Structural)]
pub enum MaximizeAction {
    Maximize,
    Unmaximize,
}

/// What toggling maximizing does to a window that is (or is not) maximized:
/// a maximized window is unmaximized, any other maximized.
pub open spec fn maximize_toggle_spec(is_maximized: bool) -> MaximizeAction {
    if is_maximized {
        MaximizeAction::Unmaximize
    } else {
        MaximizeAction::Maximize
    }
}

/// Whether a window is maximized once `action` has been carried out.
pub open spec fn maximized_after(action: MaximizeAction) -> bool {
    action == MaximizeAction::Maximize
}

/// What toggling maximizing does to a window that is (or is not) maximized.
pub fn toggle_window_maximize(is_maximized: bool) -> (r: MaximizeAction)
    ensures
        r == maximize_toggle_spec(is_maximized),
{
    if is_maximized {
        MaximizeAction::Unmaximize
    } else {
        MaximizeAction::Maximize
    }
}

/// Law: one toggle flips whether the window is maximized, and a second one
/// restores the state the window had before the first (where every action
/// is carried out and nothing else changes the window in between).
pub proof fn toggling_twice_restores(is_maximized: bool)
    ensures
        maximized_after(maximize_toggle_spec(is_maximized)) == !is_maximized,
        maximized_after(maximize_toggle_spec(maximized_after(maximize_toggle_spec(is_maximized))))
            == is_maximized,
{
}

/// The browser the main window presents itself as.
pub open spec fn user_agent_spec(platform: Platform) -> Seq<char> {
    if platform == Platform::MacOs {
        "Mozilla/5.0 (Macintosh; Intel Mac OS X 10_15_7) AppleWebKit/537.36 (KHTML, like Gecko) Chrome/143.0.0.0 Safari/537.36"@
    } else {
        "Mozilla/5.0 (Windows NT 10.0; Win64; x64) AppleWebKit/537.36 (KHTML, like Gecko) Chrome/143.0.0.0 Safari/537.36"@
    }
}

/// The user agent of the main window: desktop Chrome on macOS there, and on
/// Windows everywhere else.
pub fn main_window_user_agent(platform: Platform) -> (r: &'static str)
    ensures
        r@ == user_agent_spec(platform),
{
    match platform {
        Platform::MacOs => "Mozilla/5.0 (Macintosh; Intel Mac OS X 10_15_7) AppleWebKit/537.36 (KHTML, like Gecko) Chrome/143.0.0.0 Safari/537.36",
        _ => "Mozilla/5.0 (Windows NT 10.0; Win64; x64) AppleWebKit/537.36 (KHTML, like Gecko) Chrome/143.0.0.0 Safari/537.36",
    }
}

} // verus!
