//! URLs as the web view reports them, and how the wrapper classifies them:
//! Slack pages stay in the app, Zoom links and other sites go to the
//! operating system, and the app's own `zlack://open-downloads` link opens
//! the Downloads folder.

use vstd::prelude::*;
use crate::text::{has_suffix, str_eq, str_ends_with};

verus! {

/// The parts of a parsed absolute URL that the wrapper reads.
pub struct WebUrl {
    /// The whole URL, serialized.
    pub href: String,
    /// The scheme, without the `:`.
    pub scheme: String,
    /// The host, for URLs that have one.
    pub host: Option<String>,
    /// The `/`-separated path segments; `None` for cannot-be-a-base URLs.
    pub path_segments: Option<Vec<String>>,
}

/// The mathematical value of a [`WebUrl`].
pub struct WebUrlView {
    pub href: Seq<char>,
    pub scheme: Seq<char>,
    pub host: Option<Seq<char>>,
    pub path_segments: Option<Seq<Seq<char>>>,
}

impl View for WebUrl {
    type V = WebUrlView;

    open spec fn view(&self) -> WebUrlView {
        WebUrlView {
            href: self.href@,
            scheme: self.scheme@,
            host: self.host.deep_view(),
            path_segments: match self.path_segments {
                Some(v) => Some(v.deep_view()),
                None => None,
            },
        }
    }
}

/// What `url::Url::parse` makes of `input`: `None` where it refuses the
/// input, else the serialization, scheme, host and path segments of the
/// parsed URL.
pub uninterp spec fn url_parse_result(input: Seq<char>) -> Option<WebUrlView>;

/// No path segment holds a `/`.
pub open spec fn segments_hold_no_slash(u: WebUrlView) -> bool {
    match u.path_segments {
        Some(segments) => forall|i: int| 0 <= i < segments.len() ==> !(#[trigger] segments[i]).contains('/'),
        None => true,
    }
}

/// Calls `url::Url::parse` and reads `as_str`, `scheme`, `host_str` and
/// `path_segments` of the result. Trusted: the result is
/// [`url_parse_result`] of the input, and its path segments hold no `/`
/// (`path_segments` splits the path on `/`); the WHATWG parsing itself is
/// not restated.
#[verifier::external_body]
fn url_parse(input: &str) -> (r: Option<WebUrl>)
    ensures
        match r {
            Some(u) => url_parse_result(input@) == Some(u@) && segments_hold_no_slash(u@),
            None => url_parse_result(input@).is_none(),
        },
{
    match url::Url::parse(input) {
        Ok(u) => Some(WebUrl {
            href: u.as_str().to_string(),
            scheme: u.scheme().to_string(),
            host: u.host_str().map(str::to_string),
            path_segments: u.path_segments().map(|segments| segments.map(str::to_string).collect()),
        }),
        Err(_) => None,
    }
}

impl WebUrl {
    /// Parses an absolute URL; `None` where the URL parser refuses it.
    pub fn parse(input: &str) -> (r: Option<WebUrl>)
        ensures
            match r {
                Some(u) => url_parse_result(input@) == Some(u@) && segments_hold_no_slash(u@),
                None => url_parse_result(input@).is_none(),
            },
    {
        url_parse(input)
    }
}

/// A host that belongs to Slack.
pub open spec fn is_slack_host(host: Seq<char>) -> bool {
    host == "slack.com"@ || host == "app.slack.com"@ || has_suffix(host, ".slack.com"@)
}

/// A host that belongs to Zoom.
pub open spec fn is_zoom_host(host: Seq<char>) -> bool {
    host == "zoom.us"@ || host == "zoom.com"@ || has_suffix(host, ".zoom.us"@) || has_suffix(
        host,
        ".zoom.com"@,
    )
}

/// A scheme that the Zoom client registers for itself.
pub open spec fn is_zoom_scheme(scheme: Seq<char>) -> bool {
    scheme == "zoommtg"@ || scheme == "zoomus"@ || scheme == "zoomphonecall"@
}

/// A scheme of the web.
pub open spec fn is_web_scheme(scheme: Seq<char>) -> bool {
    scheme == "http"@ || scheme == "https"@
}

/// A scheme that the wrapper lets the operating system open.
pub open spec fn is_external_scheme(scheme: Seq<char>) -> bool {
    is_web_scheme(scheme) || is_zoom_scheme(scheme)
}

pub open spec fn spec_is_slack_url(u: WebUrlView) -> bool {
    match u.host {
        Some(h) => is_slack_host(h),
        None => false,
    }
}

pub open spec fn spec_is_zoom_url(u: WebUrlView) -> bool {
    is_zoom_scheme(u.scheme) || (is_web_scheme(u.scheme) && match u.host {
        Some(h) => is_zoom_host(h),
        None => false,
    })
}

pub open spec fn spec_is_open_downloads_url(u: WebUrlView) -> bool {
    u.scheme == "zlack"@ && u.host == Some("open-downloads"@)
}

pub open spec fn spec_is_allowed_external_url(input: Seq<char>) -> bool {
    match url_parse_result(input) {
        Some(u) => is_external_scheme(u.scheme),
        None => false,
    }
}

/// Whether `url` is served by Slack (`slack.com`, `app.slack.com` or a
/// subdomain of `slack.com`).
pub fn is_slack_url(url: &WebUrl) -> (r: bool)
    ensures
        r == spec_is_slack_url(url@),
{
    match &url.host {
        Some(h) => str_eq(h.as_str(), "slack.com") || str_eq(h.as_str(), "app.slack.com")
            || str_ends_with(h.as_str(), ".slack.com"),
        None => false,
    }
}

fn is_zoom_scheme_exec(scheme: &str) -> (r: bool)
    ensures
        r == is_zoom_scheme(scheme@),
{
    str_eq(scheme, "zoommtg") || str_eq(scheme, "zoomus") || str_eq(scheme, "zoomphonecall")
}

fn is_web_scheme_exec(scheme: &str) -> (r: bool)
    ensures
        r == is_web_scheme(scheme@),
{
    str_eq(scheme, "http") || str_eq(scheme, "https")
}

/// Whether `url` is a Zoom link: a Zoom client scheme, or a web URL on
/// `zoom.us`, `zoom.com` or one of their subdomains.
pub fn is_zoom_url(url: &WebUrl) -> (r: bool)
    ensures
        r == spec_is_zoom_url(url@),
{
    if is_zoom_scheme_exec(url.scheme.as_str()) {
        return true;
    }
    if !is_web_scheme_exec(url.scheme.as_str()) {
        return false;
    }
    match &url.host {
        Some(h) => {
            let h = h.as_str();
            str_eq(h, "zoom.us") || str_eq(h, "zoom.com") || str_ends_with(h, ".zoom.us")
                || str_ends_with(h, ".zoom.com")
        },
        None => false,
    }
}

/// Whether `url` is the app's own `zlack://open-downloads` link.
pub fn is_open_downloads_url(url: &WebUrl) -> (r: bool)
    ensures
        r == spec_is_open_downloads_url(url@),
{
    if !str_eq(url.scheme.as_str(), "zlack") {
        return false;
    }
    match &url.host {
        Some(h) => str_eq(h.as_str(), "open-downloads"),
        None => false,
    }
}

/// Whether the operating system may be asked to open the parsed URL `url`:
/// its scheme is `http`, `https`, `zoommtg`, `zoomus` or `zoomphonecall`.
pub fn is_external_url(url: &WebUrl) -> (r: bool)
    ensures
        r == is_external_scheme(url@.scheme),
{
    is_web_scheme_exec(url.scheme.as_str()) || is_zoom_scheme_exec(url.scheme.as_str())
}

/// Whether `url` parses as an absolute URL that the operating system may be
/// asked to open, as [`is_external_url`] says.
pub fn is_allowed_external_url(url: &str) -> (r: bool)
    ensures
        r == spec_is_allowed_external_url(url@),
{
    match url_parse(url) {
        Some(parsed) => is_external_url(&parsed),
        None => false,
    }
}

/// `s` ends with `suffix`, spelled out over the characters.
pub open spec fn ends_with_chars(s: Seq<char>, suffix: Seq<char>) -> bool {
    s.len() >= suffix.len() && forall|i: int|
        0 <= i < suffix.len() ==> #[trigger] s[s.len() - suffix.len() + i] == suffix[i]
}

proof fn lemma_has_suffix_chars(s: Seq<char>, suffix: Seq<char>)
    ensures
        has_suffix(s, suffix) <==> ends_with_chars(s, suffix),
{
    if ends_with_chars(s, suffix) {
        let t = s.subrange(s.len() - suffix.len(), s.len() as int);
        assert forall|i: int| 0 <= i < suffix.len() implies t[i] == suffix[i] by {
            assert(t[i] == s[s.len() - suffix.len() + i]);
        }
        assert(t =~= suffix);
    }
    if has_suffix(s, suffix) {
        assert forall|i: int| 0 <= i < suffix.len() implies #[trigger] s[s.len() - suffix.len() + i]
            == suffix[i] by {
            assert(s.subrange(s.len() - suffix.len(), s.len() as int)[i] == suffix[i]);
        }
    }
}

/// Law: a URL is a Slack URL exactly when it has a host that is
/// `slack.com`, `app.slack.com` or ends with `.slack.com` (so every
/// subdomain of `slack.com`, however deep, is Slack).
pub proof fn slack_urls_by_host(u: WebUrlView)
    ensures
        spec_is_slack_url(u) == match u.host {
            Some(h) => h == "slack.com"@ || h == "app.slack.com"@ || ends_with_chars(h, ".slack.com"@),
            None => false,
        },
{
    if let Some(h) = u.host {
        lemma_has_suffix_chars(h, ".slack.com"@);
    }
}

/// Law: a URL is a Zoom link exactly when its scheme is `zoommtg`, `zoomus`
/// or `zoomphonecall`, or it is `http` or `https` with a host that is
/// `zoom.us` or `zoom.com` or ends with `.zoom.us` or `.zoom.com`.
pub proof fn zoom_urls_by_scheme_and_host(u: WebUrlView)
    ensures
        spec_is_zoom_url(u) == (u.scheme == "zoommtg"@ || u.scheme == "zoomus"@ || u.scheme
            == "zoomphonecall"@ || ((u.scheme == "http"@ || u.scheme == "https"@) && match u.host {
            Some(h) => h == "zoom.us"@ || h == "zoom.com"@ || ends_with_chars(h, ".zoom.us"@)
                || ends_with_chars(h, ".zoom.com"@),
            None => false,
        })),
{
    if let Some(h) = u.host {
        lemma_has_suffix_chars(h, ".zoom.us"@);
        lemma_has_suffix_chars(h, ".zoom.com"@);
    }
}

/// Law: the app's Downloads link is exactly the URL with scheme `zlack` and
/// host `open-downloads`.
pub proof fn open_downloads_link_by_parts(u: WebUrlView)
    ensures
        spec_is_open_downloads_url(u) == (u.scheme == "zlack"@ && u.host == Some("open-downloads"@)),
{
}

/// Law: an input may be handed to the operating system exactly when the URL
/// parser accepts it and its scheme is `http`, `https`, `zoommtg`, `zoomus`
/// or `zoomphonecall`.
pub proof fn external_urls_by_scheme(input: Seq<char>)
    ensures
        spec_is_allowed_external_url(input) == match url_parse_result(input) {
            Some(u) => u.scheme == "http"@ || u.scheme == "https"@ || u.scheme == "zoommtg"@
                || u.scheme == "zoomus"@ || u.scheme == "zoomphonecall"@,
            None => false,
        },
{
}

} // verus!
