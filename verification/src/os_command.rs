//! The programs that the wrapper asks the operating system to run: opening
//! an external URL in the default handler, and showing the Downloads folder
//! (revealing the latest completed download where there is one), with the error messages
//! reported back to the web page.

use vstd::prelude::*;
use crate::web_url::spec_is_allowed_external_url;
use crate::web_url::is_allowed_external_url;
use crate::paths::{path_parent, path_parent_result};

verus! {

/// The operating system the app was built for.
#[derive(Clone, Copy, Debug, PartialEq, Eq, Structural)]
pub enum Platform {
    MacOs,
    Windows,
    /// Linux and the other desktop systems that have `xdg-open`.
    Other,
}

/// A program to run and its arguments.
pub struct OsCommand {
    pub program: String,
    pub args: Vec<String>,
}

/// The mathematical value of an [`OsCommand`].
pub struct OsCommandView {
    pub program: Seq<char>,
    pub args: Seq<Seq<char>>,
}

impl View for OsCommand {
    type V = OsCommandView;

    open spec fn view(&self) -> OsCommandView {
        OsCommandView { program: self.program@, args: self.args.deep_view() }
    }
}

/// A new `String` holding `s`.
pub fn owned(s: &str) -> (r: String)
    ensures
        r@ == s@,
{
    String::from_str(s)
}

/// `a` followed by `b`.
pub fn joined(a: &str, b: &str) -> (r: String)
    ensures
        r@ == a@ + b@,
{
    let mut r = String::from_str(a);
    r.append(b);
    r
}

/// The command that hands `url` to the platform's default URL handler.
pub open spec fn external_open_command(url: Seq<char>, platform: Platform) -> OsCommandView {
    match platform {
        Platform::MacOs => OsCommandView { program: "open"@, args: seq![url] },
        Platform::Windows => OsCommandView {
            program: "rundll32"@,
            args: seq!["url.dll,FileProtocolHandler"@, url],
        },
        Platform::Other => OsCommandView { program: "xdg-open"@, args: seq![url] },
    }
}

/// Law: the URL handed to the operating system is always the last argument
/// of the command, and the program is the desktop's URL opener: `open` on
/// macOS, `rundll32` with `url.dll,FileProtocolHandler` on Windows, and
/// `xdg-open` elsewhere.
pub proof fn external_opener(url: Seq<char>, platform: Platform)
    ensures
        external_open_command(url, platform).args.len() >= 1,
        external_open_command(url, platform).args.last() == url,
        platform == Platform::MacOs ==> external_open_command(url, platform).program == seq!['o', 'p', 'e', 'n']
            && external_open_command(url, platform).args.len() == 1,
        platform == Platform::Windows ==> external_open_command(url, platform).program
            == seq!['r', 'u', 'n', 'd', 'l', 'l', '3', '2'] && external_open_command(url, platform).args
            == seq![seq!['u', 'r', 'l', '.', 'd', 'l', 'l', ',', 'F', 'i', 'l', 'e', 'P', 'r', 'o', 't', 'o', 'c', 'o', 'l', 'H', 'a', 'n', 'd', 'l', 'e', 'r'], url],
        platform == Platform::Other ==> external_open_command(url, platform).program
            == seq!['x', 'd', 'g', '-', 'o', 'p', 'e', 'n'] && external_open_command(url, platform).args.len() == 1,
{
    reveal_strlit("open");
    reveal_strlit("rundll32");
    reveal_strlit("url.dll,FileProtocolHandler");
    reveal_strlit("xdg-open");
    assert("open"@ =~= seq!['o', 'p', 'e', 'n']);
    assert("rundll32"@ =~= seq!['r', 'u', 'n', 'd', 'l', 'l', '3', '2']);
    assert("url.dll,FileProtocolHandler"@ =~= seq!['u', 'r', 'l', '.', 'd', 'l', 'l', ',', 'F', 'i', 'l', 'e', 'P', 'r', 'o', 't', 'o', 'c', 'o', 'l', 'H', 'a', 'n', 'd', 'l', 'e', 'r']);
    assert("xdg-open"@ =~= seq!['x', 'd', 'g', '-', 'o', 'p', 'e', 'n']);
}

/// The command that opens `url` outside the app, or, for a URL that does
/// not parse or whose scheme is not `http`, `https`, `zoommtg`, `zoomus` or
/// `zoomphonecall`, the message `unsupported external URL scheme: <url>`.
pub fn external_open_command_for(url: &str, platform: Platform) -> (r: Result<OsCommand, String>)
    ensures
        match r {
            Ok(c) => spec_is_allowed_external_url(url@) && c@ == external_open_command(
                url@,
                platform,
            ),
            Err(e) => !spec_is_allowed_external_url(url@) && e@
                == "unsupported external URL scheme: "@ + url@,
        },
{
    if !is_allowed_external_url(url) {
        return Err(joined("unsupported external URL scheme: ", url));
    }
    let c = match platform {
        Platform::MacOs => OsCommand { program: owned("open"), args: vec![owned(url)] },
        Platform::Windows => OsCommand {
            program: owned("rundll32"),
            args: vec![owned("url.dll,FileProtocolHandler"), owned(url)],
        },
        Platform::Other => OsCommand { program: owned("xdg-open"), args: vec![owned(url)] },
    };
    assert(c@.args =~= external_open_command(url@, platform).args);
    Ok(c)
}

/// What opening an external URL reports, given whether the handler could
/// be started: the start error is prefixed with
/// `failed to open external URL: `.
pub fn external_open_result(started: Result<(), String>) -> (r: Result<(), String>)
    ensures
        match (started, r) {
            (Ok(()), r) => r is Ok,
            (Err(e), Err(m)) => m@ == "failed to open external URL: "@ + e@,
            (Err(_), Ok(_)) => false,
        },
{
    match started {
        Ok(()) => Ok(()),
        Err(e) => Err(joined("failed to open external URL: ", e.as_str())),
    }
}

/// The Downloads folder to show, given where it should be and whether it is
/// a directory: `failed to resolve Downloads folder` where its place is
/// unknown, `Downloads folder does not exist: <dir>` where it is no
/// directory.
pub fn downloads_folder_target(downloads_dir: Option<String>, is_dir: bool) -> (r: Result<
    String,
    String,
>)
    ensures
        match (downloads_dir, r) {
            (None, Err(e)) => e@ == "failed to resolve Downloads folder"@,
            (Some(d), Err(e)) => !is_dir && e@ == "Downloads folder does not exist: "@ + d@,
            (Some(d), Ok(t)) => is_dir && t@ == d@,
            (None, Ok(_)) => false,
        },
{
    match downloads_dir {
        None => Err(owned("failed to resolve Downloads folder")),
        Some(d) => {
            if is_dir {
                Ok(d)
            } else {
                Err(joined("Downloads folder does not exist: ", d.as_str()))
            }
        },
    }
}

/// The AppleScript program that reveals its first argument in Finder.
pub open spec fn finder_reveal_script() -> Seq<Seq<char>> {
    seq![
        "-e"@,
        "on run argv"@,
        "-e"@,
        "tell application \"Finder\""@,
        "-e"@,
        "reveal (POSIX file (item 1 of argv) as alias)"@,
        "-e"@,
        "activate"@,
        "-e"@,
        "end tell"@,
        "-e"@,
        "end run"@,
    ]
}

/// What `xdg-open` is given: the parent of the file to reveal, where there
/// is a file to reveal and its path has a parent, else the Downloads folder.
pub open spec fn xdg_open_target_spec(dir: Seq<char>, reveal: Option<Seq<char>>) -> Seq<char> {
    match reveal {
        Some(f) => match path_parent_result(f) {
            Some(p) => p,
            None => dir,
        },
        None => dir,
    }
}

/// The command that shows the Downloads folder `dir`, selecting `reveal`
/// where there is one.
pub open spec fn downloads_folder_command_spec(
    dir: Seq<char>,
    reveal: Option<Seq<char>>,
    platform: Platform,
) -> OsCommandView {
    match (platform, reveal) {
        (Platform::Other, _) => OsCommandView {
            program: "xdg-open"@,
            args: seq![xdg_open_target_spec(dir, reveal)],
        },
        (Platform::MacOs, Some(f)) => OsCommandView {
            program: "/usr/bin/osascript"@,
            args: finder_reveal_script().push(f),
        },
        (Platform::MacOs, None) => OsCommandView {
            program: "/usr/bin/open"@,
            args: seq!["-a"@, "Finder"@, dir],
        },
        (_, Some(f)) => OsCommandView { program: "explorer"@, args: seq!["/select,"@ + f] },
        (_, None) => OsCommandView { program: "explorer"@, args: seq![dir] },
    }
}

/// What `xdg-open` is given: the parent of the file to reveal, where the
/// path has one, else the Downloads folder itself.
pub fn xdg_open_target(downloads_dir: &str, reveal_parent: Option<String>) -> (r: String)
    ensures
        reveal_parent matches Some(p) ==> r@ == p@,
        reveal_parent is None ==> r@ == downloads_dir@,
{
    match reveal_parent {
        Some(p) => p,
        None => owned(downloads_dir),
    }
}

/// Law: the program that shows the Downloads folder is `xdg-open` on every
/// platform other than macOS and Windows, with or without a file to reveal,
/// and its one argument is the parent of the file to reveal where `std`
/// gives one, else the Downloads folder; on macOS it is Finder (through
/// `/usr/bin/osascript` to reveal a file, `/usr/bin/open -a Finder` for the
/// folder) and on Windows `explorer`, whose one argument is `/select,` and
/// the file, or the folder.
pub proof fn downloads_folder_opener(dir: Seq<char>, reveal: Option<Seq<char>>, platform: Platform)
    ensures
        platform == Platform::Other ==> downloads_folder_command_spec(dir, reveal, platform).program
            == seq!['x', 'd', 'g', '-', 'o', 'p', 'e', 'n'],
        platform == Platform::Other ==> downloads_folder_command_spec(dir, reveal, platform).args
            == seq![
            match reveal {
                Some(f) => match path_parent_result(f) {
                    Some(p) => p,
                    None => dir,
                },
                None => dir,
            },
        ],
        platform == Platform::Windows ==> downloads_folder_command_spec(dir, reveal, platform).program
            == seq!['e', 'x', 'p', 'l', 'o', 'r', 'e', 'r'],
        platform == Platform::Windows ==> downloads_folder_command_spec(dir, reveal, platform).args
            == seq![
            match reveal {
                Some(f) => seq!['/', 's', 'e', 'l', 'e', 'c', 't', ','] + f,
                None => dir,
            },
        ],
        platform == Platform::MacOs && reveal is None ==> downloads_folder_command_spec(
            dir,
            reveal,
            platform,
        ).program == seq!['/', 'u', 's', 'r', '/', 'b', 'i', 'n', '/', 'o', 'p', 'e', 'n']
            && downloads_folder_command_spec(dir, reveal, platform).args.last() == dir,
        platform == Platform::MacOs && reveal is Some ==> downloads_folder_command_spec(
            dir,
            reveal,
            platform,
        ).args.last() == reveal->0,
{
    reveal_strlit("xdg-open");
    reveal_strlit("explorer");
    reveal_strlit("/select,");
    reveal_strlit("/usr/bin/open");
    assert("xdg-open"@ =~= seq!['x', 'd', 'g', '-', 'o', 'p', 'e', 'n']);
    assert("explorer"@ =~= seq!['e', 'x', 'p', 'l', 'o', 'r', 'e', 'r']);
    assert("/select,"@ =~= seq!['/', 's', 'e', 'l', 'e', 'c', 't', ',']);
    assert("/usr/bin/open"@ =~= seq!['/', 'u', 's', 'r', '/', 'b', 'i', 'n', '/', 'o', 'p', 'e', 'n']);
}

/// The command that shows the Downloads folder `downloads_dir`, selecting
/// `reveal_file` where the platform can: Finder reveals it through
/// AppleScript on macOS, Explorer selects it on Windows, and `xdg-open`
/// opens the folder that holds it elsewhere.
pub fn downloads_folder_command(
    downloads_dir: &str,
    reveal_file: Option<&str>,
    platform: Platform,
) -> (r: OsCommand)
    ensures
        r@ == downloads_folder_command_spec(
            downloads_dir@,
            match reveal_file {
                Some(f) => Some(f@),
                None => None,
            },
            platform,
        ),
{
    match platform {
        Platform::MacOs => match reveal_file {
            Some(f) => {
                let args = vec![
                    owned("-e"),
                    owned("on run argv"),
                    owned("-e"),
                    owned("tell application \"Finder\""),
                    owned("-e"),
                    owned("reveal (POSIX file (item 1 of argv) as alias)"),
                    owned("-e"),
                    owned("activate"),
                    owned("-e"),
                    owned("end tell"),
                    owned("-e"),
                    owned("end run"),
                    owned(f),
                ];
                let c = OsCommand { program: owned("/usr/bin/osascript"), args };
                assert(c@.args =~= finder_reveal_script().push(f@));
                c
            },
            None => {
                let c = OsCommand {
                    program: owned("/usr/bin/open"),
                    args: vec![owned("-a"), owned("Finder"), owned(downloads_dir)],
                };
                assert(c@.args =~= seq!["-a"@, "Finder"@, downloads_dir@]);
                c
            },
        },
        Platform::Windows => match reveal_file {
            Some(f) => {
                let c = OsCommand { program: owned("explorer"), args: vec![joined("/select,", f)] };
                assert(c@.args =~= seq!["/select,"@ + f@]);
                c
            },
            None => {
                let c = OsCommand { program: owned("explorer"), args: vec![owned(downloads_dir)] };
                assert(c@.args =~= seq![downloads_dir@]);
                c
            },
        },
        Platform::Other => {
            let parent = match reveal_file {
                Some(f) => path_parent(f),
                None => None,
            };
            let c = OsCommand {
                program: owned("xdg-open"),
                args: vec![xdg_open_target(downloads_dir, parent)],
            };
            assert(c@.args =~= seq![
                xdg_open_target_spec(
                    downloads_dir@,
                    match reveal_file {
                        Some(f) => Some(f@),
                        None => None,
                    },
                ),
            ]);
            c
        },
    }
}

/// What showing the Downloads folder reports, given how running the command
/// went: `Err(e)` where it could not be run, else its exit status (as
/// printed), whether that status is success, and what it wrote to stderr.
pub fn downloads_folder_result(ran: Result<(String, bool, String), String>) -> (r: Result<
    (),
    String,
>)
    ensures
        match (ran, r) {
            (Err(e), Err(m)) => m@ == "failed to open Downloads folder: "@ + e@,
            (Err(_), Ok(_)) => false,
            (Ok((status, success, stderr)), Err(m)) => !success && m@
                == "failed to open Downloads folder: status="@ + status@ + "; stderr="@
                + stderr@,
            (Ok((_, success, _)), Ok(_)) => success,
        },
{
    match ran {
        Err(e) => Err(joined("failed to open Downloads folder: ", e.as_str())),
        Ok((status, success, stderr)) => {
            if success {
                Ok(())
            } else {
                let mut m = joined("failed to open Downloads folder: status=", status.as_str());
                m.append("; stderr=");
                m.append(stderr.as_str());
                Err(m)
            }
        },
    }
}

/// The command run after the Downloads folder was shown: on macOS, bring
/// Finder to the front; nothing elsewhere.
pub fn finder_activation_command(platform: Platform) -> (r: Option<OsCommand>)
    ensures
        match r {
            Some(c) => platform == Platform::MacOs && c@.program == "/usr/bin/osascript"@
                && c@.args == seq!["-e"@, "tell application \"Finder\" to activate"@],
            None => platform != Platform::MacOs,
        },
{
    match platform {
        Platform::MacOs => {
            let c = OsCommand {
                program: owned("/usr/bin/osascript"),
                args: vec![owned("-e"), owned("tell application \"Finder\" to activate")],
            };
            assert(c@.args =~= seq!["-e"@, "tell application \"Finder\" to activate"@]);
            Some(c)
        },
        _ => None,
    }
}

} // verus!
