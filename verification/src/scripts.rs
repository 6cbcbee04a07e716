//! The scripts that the wrapper evaluates in the Slack web view: moving to
//! a notification's conversation, running a menu shortcut's action, and
//! showing the download toast. Every value spliced into a script is quoted
//! first, so that it stays one string literal of the script.

use vstd::prelude::*;
use crate::js_literal::{
    js_literal_value, js_quoted, js_string_literal, js_unescape, lemma_unescape_piece,
    unicode_escape,
};

verus! {
/// Text of the notification navigation script, part 1 of 3.
pub const NAVIGATION_SCRIPT_0: &'static str = r#"
                                if (window.location.href !== "#;

/// Text of the notification navigation script, part 2 of 3.
pub const NAVIGATION_SCRIPT_1: &'static str = r#") {
                                    window.location.href = "#;

/// Text of the notification navigation script, part 3 of 3.
pub const NAVIGATION_SCRIPT_2: &'static str = r#";
                                }
                              "#;

/// Text of the shortcut script, part 1 of 3.
pub const SHORTCUT_SCRIPT_0: &'static str = r#"
        (() => {
            const shortcutId = '"#;

/// Text of the shortcut script, part 2 of 3.
pub const SHORTCUT_SCRIPT_1: &'static str = r#"';

            try {
                "#;

/// Text of the shortcut script, part 3 of 3.
pub const SHORTCUT_SCRIPT_2: &'static str = r#"
                const result = runZlackSlackShortcutAction(shortcutId);
                console.log('Zlack shortcut result', { shortcutId, result, href: window.location.href });
            } catch (error) {
                console.error('Zlack shortcut exception', shortcutId, error);
            }
        })();
        "#;

/// Text of the download toast script, part 1 of 5.
pub const DOWNLOAD_TOAST_SCRIPT_0: &'static str = r#"
        (() => {
            if (typeof window.__zlackShowDownloadToast !== 'function') {
                window.__zlackShowDownloadToast = (payload) => {
                    const filename = payload?.filename || 'file';
                    const complete = payload?.status === 'finished';
                    const success = payload?.success !== false;
                    const ext = String(filename).split('.').pop()?.toLowerCase() || '';
                    const kindMap = { pdf: 'PDF', png: 'PNG image', jpg: 'JPEG image', jpeg: 'JPEG image', gif: 'GIF image', zip: 'Archive', json: 'JSON' };
                    const kind = complete ? (success ? (kindMap[ext] || (ext ? ext.toUpperCase() : 'File')) : 'Download failed') : (kindMap[ext] || (ext ? ext.toUpperCase() : 'File'));
                    const iconText = ext === 'pdf' ? 'PDF' : (['png', 'jpg', 'jpeg', 'gif', 'webp'].includes(ext) ? 'IMG' : (ext ? ext.slice(0, 3).toUpperCase() : '01'));

                    document.getElementById('zlack-download-toast')?.remove();
                    const toast = document.createElement('div');
                    toast.id = 'zlack-download-toast';
                    toast.setAttribute('role', 'status');
                    toast.setAttribute('aria-live', 'polite');
	                    Object.assign(toast.style, {
	                        position: 'fixed',
	                        right: '28px',
	                        bottom: '84px',
	                        width: 'min(380px, calc(100vw - 56px))',
	                        zIndex: '2147483647',
	                        pointerEvents: 'none',
	                        color: '#f8f8f8',
                        fontFamily: 'Slack-Lato, Slack-Averta, -apple-system, BlinkMacSystemFont, "Segoe UI", sans-serif',
                    });

                    const panel = document.createElement('div');
	                    Object.assign(panel.style, {
	                        boxSizing: 'border-box',
	                        width: '100%',
	                        padding: '12px 14px 14px',
	                        border: '1px solid rgba(232, 232, 232, .14)',
	                        borderRadius: '13px',
	                        background: 'rgba(35, 38, 42, .76)',
	                        boxShadow: '0 14px 36px rgba(0, 0, 0, .32), inset 0 1px 0 rgba(255, 255, 255, .045)',
	                        backdropFilter: 'blur(18px) saturate(1.12)',
	                        WebkitBackdropFilter: 'blur(18px) saturate(1.12)',
	                    });

	                    const card = document.createElement('div');
	                    Object.assign(card.style, {
	                        display: 'grid',
	                        gridTemplateColumns: '42px minmax(0, 1fr)',
	                        alignItems: 'center',
	                        gap: '12px',
	                        minHeight: '56px',
	                        width: '100%',
	                        padding: '8px 12px',
	                        borderRadius: '10px',
	                        background: 'rgba(28, 24, 25, .88)',
	                    });

                    const icon = document.createElement('div');
                    icon.textContent = iconText;
                    Object.assign(icon.style, {
	                        position: 'relative',
	                        display: 'grid',
	                        placeItems: 'center',
	                        width: '42px',
	                        height: '42px',
	                        borderRadius: '9px',
	                        background: ext === 'pdf' ? 'linear-gradient(145deg, #ff2d6f, #df1457)' : 'linear-gradient(145deg, #6c6a6d, #4e4c50)',
	                        color: '#fff',
	                        fontFamily: 'ui-monospace, SFMono-Regular, Menlo, monospace',
	                        fontSize: ext === 'pdf' ? '11px' : '13px',
	                        fontWeight: '800',
	                        letterSpacing: '-.04em',
	                    });

                    const badge = document.createElement('div');
                    badge.textContent = complete ? (success ? '✓' : '!') : '↓';
	                    Object.assign(badge.style, {
	                        position: 'absolute',
	                        right: '-5px',
	                        bottom: '-5px',
	                        display: 'grid',
	                        placeItems: 'center',
	                        width: '19px',
	                        height: '19px',
	                        borderRadius: '999px',
	                        background: '#f8f8f8',
	                        color: success ? '#1d1c1d' : '#e01e5a',
	                        border: '2px solid rgba(28, 24, 25, .95)',
	                        fontSize: '12px',
	                        fontWeight: '900',
	                    });
                    icon.appendChild(badge);

                    const copy = document.createElement('div');
                    copy.style.minWidth = '0';
	                    const title = document.createElement('div');
	                    title.textContent = filename;
	                    Object.assign(title.style, { overflow: 'hidden', textOverflow: 'ellipsis', whiteSpace: 'nowrap', fontSize: '14px', lineHeight: '18px', fontWeight: '700', color: '#fff' });
	                    const subtitle = document.createElement('div');
	                    subtitle.textContent = kind;
	                    Object.assign(subtitle.style, { marginTop: '3px', overflow: 'hidden', textOverflow: 'ellipsis', whiteSpace: 'nowrap', fontSize: '13px', lineHeight: '17px', fontWeight: '500', color: 'rgba(255, 255, 255, .88)' });
	                    copy.append(title, subtitle);
	                    card.append(icon, copy);

	                    const downloads = document.createElement('button');
	                    downloads.type = 'button';
	                    downloads.textContent = 'View all downloads';
	                    Object.assign(downloads.style, { pointerEvents: 'auto', margin: '9px 0 0 54px', padding: '0', border: '0', background: 'transparent', color: 'rgba(255, 255, 255, .94)', font: 'inherit', fontSize: '13px', lineHeight: '18px', fontWeight: '500', textAlign: 'left', cursor: 'pointer' });
	                    downloads.addEventListener('click', (event) => {
	                        event.preventDefault();
	                        event.stopImmediatePropagation();
	                        window.location.href = 'zlack://open-downloads?source=native-toast&ts=' + Date.now();
	                        const invoke = window.__TAURI__?.core?.invoke || window.__TAURI__?.invoke || window.__TAURI_INTERNALS__?.invoke;
	                        if (typeof invoke === 'function') {
	                            invoke('open_downloads_folder', {}).catch((error) => console.error('Zlack: Failed to open Downloads folder', error));
	                        }
	                    });

                    panel.append(card, downloads);
                    toast.append(panel);
                    document.documentElement.appendChild(toast);
                    window.clearTimeout(window.__zlackDownloadToastTimeout);
                    window.__zlackDownloadToastTimeout = window.setTimeout(() => toast.remove(), complete ? 7000 : 5000);
                };
            }

            window.__zlackShowDownloadToast({
                filename: "#;

/// Text of the download toast script, part 2 of 5.
pub const DOWNLOAD_TOAST_SCRIPT_1: &'static str = r#",
                url: "#;

/// Text of the download toast script, part 3 of 5.
pub const DOWNLOAD_TOAST_SCRIPT_2: &'static str = r#",
                status: "#;

/// Text of the download toast script, part 4 of 5.
pub const DOWNLOAD_TOAST_SCRIPT_3: &'static str = r#",
                success: "#;

/// Text of the download toast script, part 5 of 5.
pub const DOWNLOAD_TOAST_SCRIPT_4: &'static str = r#",
            });
        })();
        "#;

/// How serde_json writes one character of a JSON string: `"` and `\\` are
/// backslash-escaped, backspace, tab, newline, form feed and carriage return
/// get `\b`, `\t`, `\n`, `\f`, `\r`, the other characters below U+0020 a
/// `\u00XX` escape with lower-case hexadecimal digits, and every other
/// character stands for itself.
pub open spec fn json_escape_char(c: char) -> Seq<char> {
    if c == '"' {
        seq!['\\', '"']
    } else if c == '\\' {
        seq!['\\', '\\']
    } else if (c as u32) == 8 {
        seq!['\\', 'b']
    } else if c == '\t' {
        seq!['\\', 't']
    } else if c == '\n' {
        seq!['\\', 'n']
    } else if (c as u32) == 12 {
        seq!['\\', 'f']
    } else if c == '\r' {
        seq!['\\', 'r']
    } else if (c as u32) < 32 {
        unicode_escape(c)
    } else {
        seq![c]
    }
}

/// serde_json's escaping of a whole character sequence.
pub open spec fn json_escape(s: Seq<char>) -> Seq<char>
    decreases s.len(),
{
    if s.len() == 0 {
        Seq::empty()
    } else {
        json_escape_char(s[0]) + json_escape(s.drop_first())
    }
}

/// The JSON string that serde_json writes for `s`.
pub open spec fn json_quoted(s: Seq<char>) -> Seq<char> {
    seq!['"'] + json_escape(s) + seq!['"']
}

proof fn lemma_json_unescape_after_char(c: char, t: Seq<char>)
    ensures
        js_unescape(json_escape_char(c) + t) == match js_unescape(t) {
            Some(rest) => Some(seq![c] + rest),
            None => None::<Seq<char>>,
        },
{
    lemma_unescape_piece(json_escape_char(c), c, t);
}

proof fn lemma_json_unescape(s: Seq<char>)
    ensures
        js_unescape(json_escape(s)) == Some(s),
    decreases s.len(),
{
    if s.len() == 0 {
        assert(json_escape(s) =~= Seq::<char>::empty());
    } else {
        lemma_json_unescape(s.drop_first());
        lemma_json_unescape_after_char(s[0], json_escape(s.drop_first()));
        assert(seq![s[0]] + s.drop_first() =~= s);
    }
}

/// Law: the JSON string that serde_json writes for a URL is also a
/// JavaScript string literal, and it reads back as exactly that URL, so the
/// navigation script compares with and moves to the URL itself.
pub proof fn json_string_reads_back_in_js(s: Seq<char>)
    ensures
        js_literal_value(json_quoted(s)) == Some(s),
{
    let lit = json_quoted(s);
    assert(lit.subrange(1, lit.len() - 1) =~= json_escape(s));
    lemma_json_unescape(s);
}

#[verifier::external_type_specification]
#[verifier::external_body]
pub struct ExJsonError(serde_json::Error);

/// Calls `serde_json::to_string` on a string. Trusted: it succeeds (a
/// string serializes without error and the output goes to a `Vec`, whose
/// writes do not fail), and the result is the string in double quotes with
/// the escapes of [`json_escape_char`] (as `format_escaped_str` in
/// serde_json's `ser.rs` writes them).
#[verifier::external_body]
fn json_to_string(value: &str) -> (r: Result<String, serde_json::Error>)
    ensures
        r is Ok,
        r matches Ok(s) ==> s@ == json_quoted(value@),
{
    serde_json::to_string(value)
}

/// Why a script could not be written.
#[derive(Clone, Copy, Debug, PartialEq, Eq, Structural)]
pub enum ScriptError {
    /// The URL could not be serialized as a JSON string.
    UrlNotSerializable,
}

/// The script run when a notification is clicked: it moves the web view to
/// `url` unless it is there already.
pub open spec fn navigation_script_spec(url: Seq<char>) -> Seq<char> {
    navigation_script_with(json_quoted(url))
}

/// The script that moves the web view to `url`, with `url` written as a
/// JSON string. serde_json writes every string, so it always succeeds; the
/// error of serde_json is mapped to [`ScriptError::UrlNotSerializable`].
pub fn navigation_script(url: &str) -> (r: Result<String, ScriptError>)
    ensures
        r is Ok,
        r matches Ok(s) ==> s@ == navigation_script_spec(url@),
{
    match json_to_string(url) {
        Ok(quoted) => Ok(navigation_script_from_json(quoted.as_str())),
        Err(_) => Err(ScriptError::UrlNotSerializable),
    }
}

/// The navigation script around `url_json`, the target address already
/// written as a JSON string literal.
pub open spec fn navigation_script_with(url_json: Seq<char>) -> Seq<char> {
    NAVIGATION_SCRIPT_0@ + url_json + NAVIGATION_SCRIPT_1@ + url_json + NAVIGATION_SCRIPT_2@
}

/// The navigation script for a target address that serde_json has written
/// as the JSON string `url_json`.
pub fn navigation_script_from_json(url_json: &str) -> (r: String)
    ensures
        r@ == navigation_script_with(url_json@),
{
    let mut s = String::from_str(NAVIGATION_SCRIPT_0);
    s.append(url_json);
    s.append(NAVIGATION_SCRIPT_1);
    s.append(url_json);
    s.append(NAVIGATION_SCRIPT_2);
    s
}

/// The script that runs the Slack action of a menu shortcut: it defines
/// `shortcutId`, runs `runner` (the action runner script) and calls its
/// `runZlackSlackShortcutAction`, logging the result or the exception.
pub open spec fn shortcut_script_spec(runner: Seq<char>, shortcut_id: Seq<char>) -> Seq<char> {
    SHORTCUT_SCRIPT_0@ + shortcut_id + SHORTCUT_SCRIPT_1@ + runner + SHORTCUT_SCRIPT_2@
}

/// The script for the menu shortcut `shortcut_id` (spliced in as it is,
/// inside single quotes), with the action runner `runner`.
pub fn shortcut_script(runner: &str, shortcut_id: &str) -> (r: String)
    ensures
        r@ == shortcut_script_spec(runner@, shortcut_id@),
{
    let mut s = String::from_str(SHORTCUT_SCRIPT_0);
    s.append(shortcut_id);
    s.append(SHORTCUT_SCRIPT_1);
    s.append(runner);
    s.append(SHORTCUT_SCRIPT_2);
    s
}

/// `true` or `false`, as JavaScript writes them.
pub open spec fn js_bool(b: bool) -> Seq<char> {
    if b {
        "true"@
    } else {
        "false"@
    }
}

/// The boolean that a JavaScript boolean literal evaluates to.
pub open spec fn js_boolean_value(t: Seq<char>) -> Option<bool> {
    if t == seq!['t', 'r', 'u', 'e'] {
        Some(true)
    } else if t == seq!['f', 'a', 'l', 's', 'e'] {
        Some(false)
    } else {
        None
    }
}

/// Law: the text spliced into the download toast after `success: ` is the
/// JavaScript literal `true` exactly for a successful download and `false`
/// exactly for a failed one, so the toast reads back the success flag it was
/// given; and the scripts for a success and a failure differ just there.
pub proof fn toast_success_flag_reads_back(
    filename: Seq<char>,
    url: Seq<char>,
    status: Seq<char>,
    success: bool,
)
    ensures
        js_boolean_value(js_bool(success)) == Some(success),
        success ==> js_bool(success) =~= seq!['t', 'r', 'u', 'e'],
        !success ==> js_bool(success) =~= seq!['f', 'a', 'l', 's', 'e'],
        download_toast_script_spec(filename, url, status, success) == DOWNLOAD_TOAST_SCRIPT_0@
            + js_quoted(filename) + DOWNLOAD_TOAST_SCRIPT_1@ + js_quoted(url)
            + DOWNLOAD_TOAST_SCRIPT_2@ + js_quoted(status) + DOWNLOAD_TOAST_SCRIPT_3@ + js_bool(
            success,
        ) + DOWNLOAD_TOAST_SCRIPT_4@,
{
    reveal_strlit("true");
    reveal_strlit("false");
    assert("true"@ =~= seq!['t', 'r', 'u', 'e']);
    assert("false"@ =~= seq!['f', 'a', 'l', 's', 'e']);
    assert(seq!['t', 'r', 'u', 'e'] != seq!['f', 'a', 'l', 's', 'e']) by {
        assert(seq!['t', 'r', 'u', 'e'].len() != seq!['f', 'a', 'l', 's', 'e'].len());
    }
}

/// The script that shows the download toast for `filename`, downloaded from
/// `url`, with `status` (`downloading` or `finished`) and `success`; each
/// string is spliced in as a quoted JavaScript literal.
pub open spec fn download_toast_script_spec(
    filename: Seq<char>,
    url: Seq<char>,
    status: Seq<char>,
    success: bool,
) -> Seq<char> {
    DOWNLOAD_TOAST_SCRIPT_0@ + js_quoted(filename) + DOWNLOAD_TOAST_SCRIPT_1@ + js_quoted(url)
        + DOWNLOAD_TOAST_SCRIPT_2@ + js_quoted(status) + DOWNLOAD_TOAST_SCRIPT_3@ + js_bool(success)
        + DOWNLOAD_TOAST_SCRIPT_4@
}

/// The download toast script for the given download.
pub fn download_toast_script(filename: &str, url: &str, status: &str, success: bool) -> (r: String)
    ensures
        r@ == download_toast_script_spec(filename@, url@, status@, success),
{
    let mut s = String::from_str(DOWNLOAD_TOAST_SCRIPT_0);
    s.append(js_string_literal(filename).as_str());
    s.append(DOWNLOAD_TOAST_SCRIPT_1);
    s.append(js_string_literal(url).as_str());
    s.append(DOWNLOAD_TOAST_SCRIPT_2);
    s.append(js_string_literal(status).as_str());
    s.append(DOWNLOAD_TOAST_SCRIPT_3);
    if success {
        s.append("true");
    } else {
        s.append("false");
    }
    s.append(DOWNLOAD_TOAST_SCRIPT_4);
    s
}

/// Law: in a shortcut script the shortcut id stands right after the
/// script's opening text (as the value of `shortcutId`), and the action
/// runner right after the text that follows the id.
pub proof fn shortcut_script_places_id_then_runner(runner: Seq<char>, shortcut_id: Seq<char>)
    ensures
        ({
            let s = shortcut_script_spec(runner, shortcut_id);
            let a: int = SHORTCUT_SCRIPT_0@.len() as int;
            let b: int = a + shortcut_id.len() + SHORTCUT_SCRIPT_1@.len();
            &&& s.subrange(0, a) == SHORTCUT_SCRIPT_0@
            &&& s.subrange(a, a + shortcut_id.len() as int) == shortcut_id
            &&& s.subrange(b, b + runner.len() as int) == runner
        }),
{
    let s = shortcut_script_spec(runner, shortcut_id);
    let a: int = SHORTCUT_SCRIPT_0@.len() as int;
    let b: int = a + shortcut_id.len() + SHORTCUT_SCRIPT_1@.len();
    assert(s.subrange(0, a) =~= SHORTCUT_SCRIPT_0@);
    assert(s.subrange(a, a + shortcut_id.len() as int) =~= shortcut_id);
    assert(s.subrange(b, b + runner.len() as int) =~= runner);
}

/// Law: the navigation script quotes the target address with serde_json
/// right after its opening text (the address it compares with), and the
/// literal placed there reads back, in JavaScript, as the address itself.
pub proof fn navigation_script_compares_with_target(url: Seq<char>)
    ensures
        ({
            let s = navigation_script_spec(url);
            let a: int = NAVIGATION_SCRIPT_0@.len() as int;
            let q = json_quoted(url);
            &&& s.subrange(a, a + q.len() as int) == q
            &&& js_literal_value(s.subrange(a, a + q.len() as int)) == Some(url)
        }),
{
    let s = navigation_script_spec(url);
    let a: int = NAVIGATION_SCRIPT_0@.len() as int;
    let q = json_quoted(url);
    assert(s.subrange(a, a + q.len() as int) =~= q);
    json_string_reads_back_in_js(url);
}

/// Law: the toast script reads the file name from the literal right after
/// its opening text and the URL from the literal right after the text that
/// follows, and each reads back, in JavaScript, as exactly the file name and
/// the URL it was given.
pub proof fn toast_script_reads_back_name_and_url(
    filename: Seq<char>,
    url: Seq<char>,
    status: Seq<char>,
    success: bool,
)
    ensures
        ({
            let s = download_toast_script_spec(filename, url, status, success);
            let a: int = DOWNLOAD_TOAST_SCRIPT_0@.len() as int;
            let fa: int = js_quoted(filename).len() as int;
            let b: int = a + fa + DOWNLOAD_TOAST_SCRIPT_1@.len();
            let ua: int = js_quoted(url).len() as int;
            &&& js_literal_value(s.subrange(a, a + fa)) == Some(filename)
            &&& js_literal_value(s.subrange(b, b + ua)) == Some(url)
        }),
{
    let s = download_toast_script_spec(filename, url, status, success);
    let a: int = DOWNLOAD_TOAST_SCRIPT_0@.len() as int;
    let fa: int = js_quoted(filename).len() as int;
    let b: int = a + fa + DOWNLOAD_TOAST_SCRIPT_1@.len();
    let ua: int = js_quoted(url).len() as int;
    assert(s.subrange(a, a + fa) =~= js_quoted(filename));
    assert(s.subrange(b, b + ua) =~= js_quoted(url));
    crate::js_literal::js_literal_reads_back(filename);
    crate::js_literal::js_literal_reads_back(url);
}

} // verus!
