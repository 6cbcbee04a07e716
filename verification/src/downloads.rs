//! Downloads: the download under way and the latest completed one, the name the download
//! toast shows, and which file the Downloads folder view may reveal.

use vstd::prelude::*;
use crate::web_url::{segments_hold_no_slash, WebUrl, WebUrlView};
use crate::paths::{
    path_file_name, path_file_name_result, path_starts_with, path_starts_with_result,
};
use crate::scripts::{download_toast_script, download_toast_script_spec};

verus! {

/// The download under way (where it was requested to go) and the latest
/// completed download (where it went), as far as they are known.
pub struct DownloadHistory {
    pending: Option<String>,
    completed: Option<String>,
}

/// The mathematical value of a [`DownloadHistory`].
pub struct DownloadHistoryView {
    pub pending: Option<Seq<char>>,
    pub completed: Option<Seq<char>>,
}

impl View for DownloadHistory {
    type V = DownloadHistoryView;

    closed spec fn view(&self) -> DownloadHistoryView {
        DownloadHistoryView {
            pending: self.pending.deep_view(),
            completed: self.completed.deep_view(),
        }
    }
}

/// The `Option<&str>` `p` as a value.
pub open spec fn opt_str_view(p: Option<&str>) -> Option<Seq<char>> {
    match p {
        Some(s) => Some(s@),
        None => None,
    }
}

/// `a` where it is known, else `b`.
pub open spec fn or_else(a: Option<Seq<char>>, b: Option<Seq<char>>) -> Option<Seq<char>> {
    match a {
        Some(x) => Some(x),
        None => b,
    }
}

/// The history after recording `path` as the latest completed download.
pub open spec fn history_after_remember(
    before: DownloadHistoryView,
    path: Option<Seq<char>>,
) -> DownloadHistoryView {
    DownloadHistoryView { pending: before.pending, completed: path }
}

/// What reading the history gives back: the latest completed download.
pub open spec fn history_read(h: DownloadHistoryView) -> Option<Seq<char>> {
    h.completed
}

/// The history after a download to `destination` was requested: it is the
/// download under way; the latest completed download stays.
pub open spec fn history_after_request(
    before: DownloadHistoryView,
    destination: Seq<char>,
) -> DownloadHistoryView {
    DownloadHistoryView { pending: Some(destination), completed: before.completed }
}

/// The path a finished download is shown by: for a successful download the
/// path the web view gives, else where it was requested to go, else the
/// latest completed download; for a failed one only the path given.
pub open spec fn finished_display_path(
    before: DownloadHistoryView,
    path: Option<Seq<char>>,
    success: bool,
) -> Option<Seq<char>> {
    if success {
        or_else(path, or_else(before.pending, before.completed))
    } else {
        path
    }
}

/// The history after a download finished, at `path` where known: no
/// download is under way any more; a successful download becomes the latest
/// completed one (by [`finished_display_path`]); a failed one leaves the
/// latest completed download as it was.
pub open spec fn history_after_finish(
    before: DownloadHistoryView,
    path: Option<Seq<char>>,
    success: bool,
) -> DownloadHistoryView {
    DownloadHistoryView {
        pending: None,
        completed: if success {
            finished_display_path(before, path, success)
        } else {
            before.completed
        },
    }
}

impl DownloadHistory {
    /// A history that knows of no download.
    pub fn new() -> (h: DownloadHistory)
        ensures
            h@.pending is None,
            h@.completed is None,
    {
        DownloadHistory { pending: None, completed: None }
    }

    /// Records `path` as the latest completed download (`None`: forgets it).
    pub fn remember_download_path(&mut self, path: Option<&str>)
        ensures
            final(self)@ == history_after_remember(old(self)@, opt_str_view(path)),
    {
        self.completed = match path {
            Some(p) => Some(String::from_str(p)),
            None => None,
        };
    }

    /// The latest completed download, as last recorded.
    pub fn remembered_download_path(&self) -> (r: Option<String>)
        ensures
            r.deep_view() == history_read(self@),
    {
        match &self.completed {
            Some(p) => Some(p.clone()),
            None => None,
        }
    }

    /// Where the download under way was requested to go.
    pub fn pending_download_path(&self) -> (r: Option<String>)
        ensures
            r.deep_view() == self@.pending,
    {
        match &self.pending {
            Some(p) => Some(p.clone()),
            None => None,
        }
    }
}

/// Law: reading the history gives back what the last recording wrote,
/// whatever the history held before.
pub proof fn remembered_is_last_remembered(before: DownloadHistoryView, path: Option<Seq<char>>)
    ensures
        history_read(history_after_remember(before, path)) == path,
{
}

/// Law: requesting a download does not change which download is revealed;
/// a failed download leaves the latest completed download as it was; a
/// successful one at a known path makes that path the latest completed
/// download, and one without a path the destination it was requested to.
pub proof fn latest_completed_download_is_revealed(
    before: DownloadHistoryView,
    destination: Seq<char>,
    path: Option<Seq<char>>,
)
    ensures
        history_read(history_after_request(before, destination)) == history_read(before),
        history_read(history_after_finish(before, path, false)) == history_read(before),
        path is Some ==> history_read(history_after_finish(before, path, true)) == path,
        history_read(
            history_after_finish(history_after_request(before, destination), None, true),
        ) == Some(destination),
        history_read(
            history_after_finish(history_after_request(before, destination), path, false),
        ) == history_read(before),
{
}

/// The last path segment of a URL, where it is not empty.
pub open spec fn url_last_segment(url: WebUrlView) -> Option<Seq<char>> {
    match url.path_segments {
        Some(segments) => if segments.len() > 0 && segments.last().len() > 0 {
            Some(segments.last())
        } else {
            None
        },
        None => None,
    }
}

/// The name shown for a download: the file name of its path where that is
/// not empty, else the last segment of its URL where that is not empty,
/// else `file`.
pub open spec fn download_filename(file_name: Option<Seq<char>>, url: WebUrlView) -> Seq<char> {
    match file_name {
        Some(n) if n.len() > 0 => n,
        _ => match url_last_segment(url) {
            Some(s) => s,
            None => "file"@,
        },
    }
}

/// The name shown for a download, given the file name of its path (where
/// there is one). It is never empty, and it holds no `/` where neither the
/// file name nor a path segment of `url` does.
pub fn choose_download_filename(file_name: Option<String>, url: &WebUrl) -> (r: String)
    ensures
        r@ == download_filename(file_name.deep_view(), url@),
        r@.len() > 0,
        (file_name matches Some(n) ==> !n@.contains('/')) && segments_hold_no_slash(url@)
            ==> !r@.contains('/'),
{
    proof {
        reveal_strlit("file");
    }
    if let Some(n) = file_name {
        if n.as_str().unicode_len() > 0 {
            return n;
        }
    }
    match &url.path_segments {
        Some(segments) => {
            if segments.len() > 0 {
                let last = &segments[segments.len() - 1];
                assert(segments.deep_view().last() == last@);
                assert(segments.deep_view()[segments.len() - 1] == last@);
                if last.as_str().unicode_len() > 0 {
                    return last.clone();
                }
            }
            String::from_str("file")
        },
        None => String::from_str("file"),
    }
}

/// The name the toast shows for a download shown by `path`: the path's file
/// name where it has a non-empty one, else as [`download_filename`] says
/// without one.
pub open spec fn toast_filename(path: Option<Seq<char>>, url: WebUrlView) -> Seq<char> {
    download_filename(
        match path {
            Some(p) => path_file_name_result(p),
            None => None,
        },
        url,
    )
}

/// The name shown for a download from `url` whose file is at `path`, as
/// [`toast_filename`] says. It is never empty; without a path, and for a URL
/// whose path segments hold no `/` (every URL that [`WebUrl::parse`] gives),
/// it holds no `/` either.
pub fn filename_from_download(url: &WebUrl, path: Option<&str>) -> (r: String)
    ensures
        r@ == toast_filename(opt_str_view(path), url@),
        r@.len() > 0,
        path is None && segments_hold_no_slash(url@) ==> !r@.contains('/'),
{
    let file_name = match path {
        Some(p) => path_file_name(p),
        None => None,
    };
    choose_download_filename(file_name, url)
}

/// What the download toast shows.
pub struct DownloadToast {
    pub filename: String,
    pub url: String,
    pub status: String,
    pub success: bool,
}

impl DownloadToast {
    /// The script that shows this toast in the web view.
    pub fn script(&self) -> (r: String)
        ensures
            r@ == download_toast_script_spec(
                self.filename@,
                self.url@,
                self.status@,
                self.success,
            ),
    {
        download_toast_script(self.filename.as_str(), self.url.as_str(), self.status.as_str(), self.success)
    }
}

fn clone_opt(p: &Option<String>) -> (r: Option<String>)
    ensures
        r.deep_view() == p.deep_view(),
{
    match p {
        Some(s) => Some(s.clone()),
        None => None,
    }
}

impl DownloadHistory {
    /// A download from `url` to `destination` has started: it becomes the
    /// download under way, and the toast shows it as `downloading`, named by
    /// the destination.
    pub fn on_download_requested(&mut self, url: &WebUrl, destination: &str) -> (t: DownloadToast)
        ensures
            final(self)@ == history_after_request(old(self)@, destination@),
            t.filename@ == toast_filename(Some(destination@), url@),
            t.url@ == url@.href,
            t.status@ == "downloading"@,
            t.success,
            t.filename@.len() > 0,
    {
        let filename = filename_from_download(url, Some(destination));
        self.pending = Some(String::from_str(destination));
        DownloadToast {
            filename,
            url: url.href.clone(),
            status: String::from_str("downloading"),
            success: true,
        }
    }

    /// The path a download that finished, at `path` where the web view says
    /// so, is shown by, as [`finished_display_path`] says.
    pub fn finished_download_display_path(&self, path: Option<&str>, success: bool) -> (r: Option<
        String,
    >)
        ensures
            r.deep_view() == finished_display_path(self@, opt_str_view(path), success),
    {
        match path {
            Some(p) => Some(String::from_str(p)),
            None => {
                if success {
                    match &self.pending {
                        Some(p) => Some(p.clone()),
                        None => clone_opt(&self.completed),
                    }
                } else {
                    None
                }
            },
        }
    }

    /// A download from `url` has finished, at `path` where the web view
    /// says so. The history changes as [`history_after_finish`] says, and
    /// the toast shows it as `finished`, named by [`finished_display_path`].
    pub fn on_download_finished(&mut self, url: &WebUrl, path: Option<&str>, success: bool) -> (t: DownloadToast)
        ensures
            final(self)@ == history_after_finish(old(self)@, opt_str_view(path), success),
            t.filename@ == toast_filename(
                finished_display_path(old(self)@, opt_str_view(path), success),
                url@,
            ),
            t.url@ == url@.href,
            t.status@ == "finished"@,
            t.success == success,
            t.filename@.len() > 0,
    {
        let display = self.finished_download_display_path(path, success);
        let filename = match &display {
            Some(d) => filename_from_download(url, Some(d.as_str())),
            None => filename_from_download(url, None),
        };
        if success {
            self.completed = clone_opt(&display);
        }
        self.pending = None;
        DownloadToast {
            filename,
            url: url.href.clone(),
            status: String::from_str("finished"),
            success,
        }
    }
}

/// Whether the download at (canonical) `candidate` is revealed: it is a
/// file and lies within the (canonical) Downloads folder `downloads_dir`,
/// by whole path components.
pub open spec fn is_revealable(
    candidate: Option<Seq<char>>,
    candidate_is_file: bool,
    downloads_dir: Option<Seq<char>>,
) -> bool {
    match (candidate, downloads_dir) {
        (Some(c), Some(d)) => candidate_is_file && path_starts_with_result(c, d),
        _ => false,
    }
}

/// The file to reveal in the Downloads folder: the latest completed
/// download, by its canonical path `candidate`, where it is a file
/// (`candidate_is_file`) and lies within the canonical Downloads folder
/// `downloads_dir`; nothing otherwise, and the folder itself is shown.
pub fn revealable_download_file(
    candidate: Option<String>,
    candidate_is_file: bool,
    downloads_dir: Option<String>,
) -> (r: Option<String>)
    ensures
        r.deep_view() == (if is_revealable(candidate.deep_view(), candidate_is_file, downloads_dir.deep_view()) {
            candidate.deep_view()
        } else {
            None
        }),
{
    match (candidate, downloads_dir) {
        (Some(c), Some(d)) => {
            if !candidate_is_file {
                return None;
            }
            if path_starts_with(c.as_str(), d.as_str()) {
                Some(c)
            } else {
                None
            }
        },
        _ => None,
    }
}

/// Law: the toast names a download by the file name of its path whenever
/// that path has a (non-empty) file name, whatever the URL; only without
/// one does the URL name it, by its last non-empty path segment, and `file`
/// only where the URL has none either.
pub proof fn toast_names_by_path_first(path: Option<Seq<char>>, url: WebUrlView)
    ensures
        path is Some && path_file_name_result(path->0) is Some && path_file_name_result(
            path->0,
        )->0.len() > 0 ==> toast_filename(path, url) == path_file_name_result(path->0)->0,
        (path is None || path_file_name_result(path->0) is None) ==> toast_filename(path, url)
            == toast_filename(None, url),
        match url.path_segments {
            Some(segs) => segs.len() > 0 && segs[segs.len() - 1].len() > 0,
            None => false,
        } ==> toast_filename(None, url) == url.path_segments->0[url.path_segments->0.len() - 1],
        !match url.path_segments {
            Some(segs) => segs.len() > 0 && segs[segs.len() - 1].len() > 0,
            None => false,
        } ==> toast_filename(None, url) == seq!['f', 'i', 'l', 'e'],
{
    reveal_strlit("file");
    assert("file"@ =~= seq!['f', 'i', 'l', 'e']);
}

/// Law: the Downloads folder view reveals a file only where it is a file and
/// `Path::starts_with` finds it within the Downloads folder, and then it
/// reveals exactly that file; otherwise it reveals nothing.
pub proof fn reveals_only_files_within_downloads(
    candidate: Option<Seq<char>>,
    candidate_is_file: bool,
    downloads_dir: Option<Seq<char>>,
)
    ensures
        is_revealable(candidate, candidate_is_file, downloads_dir) == (candidate is Some
            && downloads_dir is Some && candidate_is_file && path_starts_with_result(
            candidate->0,
            downloads_dir->0,
        )),
{
}

} // verus!
