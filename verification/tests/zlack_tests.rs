use zlack::downloads::{
    choose_download_filename, filename_from_download,
    revealable_download_file, DownloadHistory,
};
use zlack::js_literal::js_string_literal;
use zlack::menu::{
    app_menu_entries, edit_menu_entries, file_menu_entries, go_menu_entries, menu_action,
    menu_bar, slack_action_shortcuts, AppLifecycle, MenuAction, MenuEntry, TrayAction,
};
use zlack::notification::notification_target_url;
use zlack::os_command::{
    downloads_folder_command, downloads_folder_result, downloads_folder_target,
    external_open_command_for, external_open_result, finder_activation_command, xdg_open_target,
    Platform,
};
use zlack::scripts::{
    download_toast_script, navigation_script, navigation_script_from_json, shortcut_script,
};
use zlack::web_url::{
    is_allowed_external_url, is_external_url, is_open_downloads_url, is_slack_url, is_zoom_url,
    WebUrl,
};
use zlack::window_policy::{
    main_window_user_agent, navigation_action, new_window_action, toggle_window_maximize,
    MaximizeAction, NavigationAction, NewWindowAction, SLACK_URL,
};

fn url(s: &str) -> WebUrl {
    WebUrl::parse(s).expect("a valid URL")
}

fn strings(v: &[&str]) -> Vec<String> {
    v.iter().map(|s| s.to_string()).collect()
}

#[test]
fn parse_reads_the_parts_of_a_url() {
    let u = url("HTTPS://Files.Slack.com/files-pri/T1/report.pdf?x=1");
    assert_eq!(u.href, "https://files.slack.com/files-pri/T1/report.pdf?x=1");
    assert_eq!(u.scheme, "https");
    assert_eq!(u.host.as_deref(), Some("files.slack.com"));
    assert_eq!(
        u.path_segments,
        Some(strings(&["files-pri", "T1", "report.pdf"]))
    );
    assert!(WebUrl::parse("not a url").is_none());
    let data = url("data:text/plain,Stuff");
    assert_eq!(data.host, None);
    assert_eq!(data.path_segments, None);
}

#[test]
fn slack_urls_are_recognized_by_host() {
    assert!(is_slack_url(&url("https://slack.com/")));
    assert!(is_slack_url(&url("https://app.slack.com/client/T1")));
    assert!(is_slack_url(&url("https://myteam.slack.com/archives/C1")));
    assert!(!is_slack_url(&url("https://notslack.com/")));
    assert!(!is_slack_url(&url("https://slack.com.evil.example/")));
    assert!(!is_slack_url(&url("mailto:someone@slack.com")));
}

#[test]
fn zoom_urls_are_recognized_by_scheme_or_host() {
    assert!(is_zoom_url(&url("zoommtg://zoom.us/join?confno=1")));
    assert!(is_zoom_url(&url("zoomus://x")));
    assert!(is_zoom_url(&url("zoomphonecall://123")));
    assert!(is_zoom_url(&url("https://zoom.us/j/1")));
    assert!(is_zoom_url(&url("http://us02web.zoom.us/j/1")));
    assert!(is_zoom_url(&url("https://zoom.com/")));
    assert!(is_zoom_url(&url("https://events.zoom.com/")));
    assert!(!is_zoom_url(&url("ftp://zoom.us/")));
    assert!(!is_zoom_url(&url("https://notzoom.us/")));
    assert!(!is_zoom_url(&url("https://app.slack.com/client")));
}

#[test]
fn open_downloads_url_is_the_app_link() {
    assert!(is_open_downloads_url(&url("zlack://open-downloads?source=native-toast&ts=1")));
    assert!(!is_open_downloads_url(&url("zlack://other")));
    assert!(!is_open_downloads_url(&url("https://open-downloads/")));
}

#[test]
fn external_urls_need_a_web_or_zoom_scheme() {
    assert!(is_allowed_external_url("https://example.com"));
    assert!(is_allowed_external_url("HTTP://example.com"));
    assert!(is_allowed_external_url("zoommtg://zoom.us/join"));
    assert!(!is_allowed_external_url("file:///etc/passwd"));
    assert!(!is_allowed_external_url("javascript:alert(1)"));
    assert!(!is_allowed_external_url("example.com"));
    assert!(!is_allowed_external_url(""));
}

#[test]
fn parsed_urls_with_an_external_scheme() {
    assert!(is_external_url(&url("https://example.com")));
    assert!(is_external_url(&url("zoomphonecall://123")));
    assert!(!is_external_url(&url("zlack://open-downloads")));
    assert!(!is_external_url(&url("mailto:someone@example.com")));
}

#[test]
fn external_open_commands_per_platform() {
    let mac = external_open_command_for("https://example.com", Platform::MacOs).unwrap();
    assert_eq!(mac.program, "open");
    assert_eq!(mac.args, strings(&["https://example.com"]));
    let win = external_open_command_for("https://example.com", Platform::Windows).unwrap();
    assert_eq!(win.program, "rundll32");
    assert_eq!(
        win.args,
        strings(&["url.dll,FileProtocolHandler", "https://example.com"])
    );
    let other = external_open_command_for("zoomus://x", Platform::Other).unwrap();
    assert_eq!(other.program, "xdg-open");
    assert_eq!(other.args, strings(&["zoomus://x"]));
    match external_open_command_for("file:///tmp/x", Platform::Other) {
        Err(e) => assert_eq!(e, "unsupported external URL scheme: file:///tmp/x"),
        Ok(_) => panic!("a file URL must be refused"),
    }
}

#[test]
fn external_open_failures_are_reported() {
    assert_eq!(external_open_result(Ok(())), Ok(()));
    assert_eq!(
        external_open_result(Err("No such file or directory (os error 2)".to_string())),
        Err("failed to open external URL: No such file or directory (os error 2)".to_string())
    );
}

#[test]
fn js_string_literal_escapes() {
    assert_eq!(js_string_literal(""), "\"\"");
    assert_eq!(js_string_literal("report.pdf"), "\"report.pdf\"");
    assert_eq!(
        js_string_literal("a\"b\\c\nd\re\tf"),
        "\"a\\\"b\\\\c\\nd\\re\\tf\""
    );
    assert_eq!(js_string_literal("\u{1}\u{1f}\u{8}"), "\"\\u0001\\u001f\\u0008\"");
    assert_eq!(js_string_literal("caf\u{e9} \u{2713}"), "\"caf\u{e9} \u{2713}\"");
    assert_eq!(js_string_literal("'single'"), "\"'single'\"");
}

#[test]
fn download_history_remembers_the_last_path() {
    let mut h = DownloadHistory::new();
    assert_eq!(h.remembered_download_path(), None);
    h.remember_download_path(Some("/home/u/Downloads/a.pdf"));
    h.remember_download_path(Some("/home/u/Downloads/b.pdf"));
    assert_eq!(
        h.remembered_download_path().as_deref(),
        Some("/home/u/Downloads/b.pdf")
    );
    h.remember_download_path(None);
    assert_eq!(h.remembered_download_path(), None);
}

#[test]
fn download_filenames_prefer_the_path() {
    let u = url("https://files.slack.com/files-pri/T1/report%20final.pdf");
    assert_eq!(
        filename_from_download(&u, Some("/home/u/Downloads/report final (1).pdf")),
        "report final (1).pdf"
    );
    assert_eq!(filename_from_download(&u, None), "report%20final.pdf");
    assert_eq!(
        filename_from_download(&url("https://files.slack.com/dir/"), None),
        "file"
    );
    assert_eq!(filename_from_download(&url("data:text/plain,x"), None), "file");
    assert_eq!(filename_from_download(&url("https://files.slack.com/dir/"), Some("/")), "file");
    assert_eq!(choose_download_filename(Some(String::new()), &u), "report%20final.pdf");
    assert_eq!(choose_download_filename(Some("x.zip".to_string()), &u), "x.zip");
}

#[test]
fn download_events_update_the_history() {
    let u = url("https://files.slack.com/files-pri/T1/a.pdf");
    let mut h = DownloadHistory::new();
    let t = h.on_download_requested(&u, "/home/u/Downloads/a (2).pdf");
    assert_eq!(t.filename, "a (2).pdf");
    assert_eq!(t.url, u.href);
    assert_eq!(t.status, "downloading");
    assert!(t.success);
    assert_eq!(h.pending_download_path().as_deref(), Some("/home/u/Downloads/a (2).pdf"));
    assert_eq!(h.remembered_download_path(), None);

    let t = h.on_download_finished(&u, None, true);
    assert_eq!(t.filename, "a (2).pdf");
    assert_eq!(t.status, "finished");
    assert!(t.success);
    assert_eq!(h.remembered_download_path().as_deref(), Some("/home/u/Downloads/a (2).pdf"));
    assert_eq!(h.pending_download_path(), None);

    let t = h.on_download_finished(&u, Some("/home/u/Downloads/b.pdf"), true);
    assert_eq!(t.filename, "b.pdf");
    assert_eq!(h.remembered_download_path().as_deref(), Some("/home/u/Downloads/b.pdf"));

    let t = h.on_download_finished(&u, None, false);
    assert_eq!(t.filename, "a.pdf");
    assert!(!t.success);
    assert_eq!(h.remembered_download_path().as_deref(), Some("/home/u/Downloads/b.pdf"));
}

#[test]
fn a_failed_download_keeps_the_latest_completed_one() {
    let a = url("https://files.slack.com/files-pri/T1/a.pdf");
    let b = url("https://files.slack.com/files-pri/T1/b.pdf");
    let mut h = DownloadHistory::new();
    h.on_download_requested(&a, "/home/u/Downloads/a.pdf");
    h.on_download_finished(&a, Some("/home/u/Downloads/a.pdf"), true);
    let t = h.on_download_requested(&b, "/home/u/Downloads/b.pdf");
    assert_eq!(t.filename, "b.pdf");
    let t = h.on_download_finished(&b, None, false);
    assert_eq!(t.filename, "b.pdf");
    assert!(!t.success);
    assert_eq!(h.remembered_download_path().as_deref(), Some("/home/u/Downloads/a.pdf"));
    assert_eq!(h.pending_download_path(), None);
}

#[test]
fn a_finished_download_without_a_path_is_named_by_its_destination() {
    let u = url("https://files.slack.com/files-pri/T1/report.pdf");
    let mut h = DownloadHistory::new();
    h.remember_download_path(Some("/home/u/Downloads/old.zip"));
    let t = h.on_download_finished(&u, None, true);
    assert_eq!(t.filename, "old.zip");
    h.on_download_requested(&u, "/home/u/Downloads/report (1).pdf");
    let t = h.on_download_finished(&u, None, true);
    assert_eq!(t.filename, "report (1).pdf");
    assert_eq!(h.remembered_download_path().as_deref(), Some("/home/u/Downloads/report (1).pdf"));
}

#[test]
fn revealed_file_must_lie_within_downloads() {
    let dir = Some("/home/u/Downloads".to_string());
    assert_eq!(
        revealable_download_file(Some("/home/u/Downloads/a.pdf".to_string()), true, dir.clone()),
        Some("/home/u/Downloads/a.pdf".to_string())
    );
    assert_eq!(
        revealable_download_file(Some("/home/u/Downloads2/a.pdf".to_string()), true, dir.clone()),
        None
    );
    assert_eq!(
        revealable_download_file(Some("/home/u/Downloads/a.pdf".to_string()), false, dir.clone()),
        None
    );
    assert_eq!(revealable_download_file(None, true, dir), None);
    assert_eq!(
        revealable_download_file(Some("/home/u/Downloads/a.pdf".to_string()), true, None),
        None
    );
}

#[test]
fn downloads_folder_target_errors() {
    assert_eq!(
        downloads_folder_target(None, false),
        Err("failed to resolve Downloads folder".to_string())
    );
    assert_eq!(
        downloads_folder_target(Some("/home/u/Downloads".to_string()), false),
        Err("Downloads folder does not exist: /home/u/Downloads".to_string())
    );
    assert_eq!(
        downloads_folder_target(Some("/home/u/Downloads".to_string()), true),
        Ok("/home/u/Downloads".to_string())
    );
}

#[test]
fn downloads_folder_commands_per_platform() {
    let c = downloads_folder_command("/Users/u/Downloads", Some("/Users/u/Downloads/a.pdf"), Platform::MacOs);
    assert_eq!(c.program, "/usr/bin/osascript");
    assert_eq!(
        c.args,
        strings(&[
            "-e",
            "on run argv",
            "-e",
            "tell application \"Finder\"",
            "-e",
            "reveal (POSIX file (item 1 of argv) as alias)",
            "-e",
            "activate",
            "-e",
            "end tell",
            "-e",
            "end run",
            "/Users/u/Downloads/a.pdf",
        ])
    );
    let c = downloads_folder_command("/Users/u/Downloads", None, Platform::MacOs);
    assert_eq!(c.program, "/usr/bin/open");
    assert_eq!(c.args, strings(&["-a", "Finder", "/Users/u/Downloads"]));
    let c = downloads_folder_command("C:\\Users\\u\\Downloads", Some("C:\\Users\\u\\Downloads\\a.pdf"), Platform::Windows);
    assert_eq!(c.program, "explorer");
    assert_eq!(c.args, strings(&["/select,C:\\Users\\u\\Downloads\\a.pdf"]));
    let c = downloads_folder_command("C:\\Users\\u\\Downloads", None, Platform::Windows);
    assert_eq!(c.args, strings(&["C:\\Users\\u\\Downloads"]));
    let c = downloads_folder_command("/home/u/Downloads", Some("/home/u/Downloads/sub/a.pdf"), Platform::Other);
    assert_eq!(c.program, "xdg-open");
    assert_eq!(c.args, strings(&["/home/u/Downloads/sub"]));
    let c = downloads_folder_command("/home/u/Downloads", None, Platform::Other);
    assert_eq!(c.args, strings(&["/home/u/Downloads"]));
    assert_eq!(xdg_open_target("/d", None), "/d");
    assert_eq!(xdg_open_target("/d", Some("/p".to_string())), "/p");
}

#[test]
fn downloads_folder_results() {
    assert_eq!(
        downloads_folder_result(Err("os error 2".to_string())),
        Err("failed to open Downloads folder: os error 2".to_string())
    );
    assert_eq!(
        downloads_folder_result(Ok(("exit status: 1".to_string(), false, "oops".to_string()))),
        Err("failed to open Downloads folder: status=exit status: 1; stderr=oops".to_string())
    );
    assert_eq!(
        downloads_folder_result(Ok(("exit status: 0".to_string(), true, String::new()))),
        Ok(())
    );
    let c = finder_activation_command(Platform::MacOs).unwrap();
    assert_eq!(c.program, "/usr/bin/osascript");
    assert_eq!(c.args, strings(&["-e", "tell application \"Finder\" to activate"]));
    assert!(finder_activation_command(Platform::Windows).is_none());
    assert!(finder_activation_command(Platform::Other).is_none());
}

#[test]
fn notification_targets() {
    assert_eq!(
        notification_target_url(Some("T1"), Some("C2")).as_deref(),
        Some("https://app.slack.com/client/T1/C2")
    );
    assert_eq!(
        notification_target_url(Some("T1"), Some("unknown")).as_deref(),
        Some("https://app.slack.com/client/T1")
    );
    assert_eq!(notification_target_url(Some("unknown"), Some("C2")), None);
    assert_eq!(notification_target_url(Some("T1"), None), None);
    assert_eq!(notification_target_url(None, Some("C2")), None);
}

#[test]
fn navigation_script_matches_template() {
    let target = "https://app.slack.com/client/T1/C\"2";
    let url_json = "\"https://app.slack.com/client/T1/C\\\"2\"";
    let expected = format!(
        r#"
                                if (window.location.href !== {url}) {{
                                    window.location.href = {url};
                                }}
                              "#,
        url = url_json
    );
    assert_eq!(navigation_script(target), Ok(expected.clone()));
    assert_eq!(navigation_script_from_json(url_json), expected);
    let controls = navigation_script("a\u{8}\u{c}\u{1}").unwrap();
    assert!(controls.contains("\"a\\b\\f\\u0001\""));
}

#[test]
fn shortcut_script_matches_template() {
    let runner = "function runZlackSlackShortcutAction(id) { return id; }";
    let shortcut_id = "zlack_go_threads";
    let expected = format!(
        r#"
        (() => {{
            const shortcutId = '{shortcut}';

            try {{
                {runner}
                const result = runZlackSlackShortcutAction(shortcutId);
                console.log('Zlack shortcut result', {{ shortcutId, result, href: window.location.href }});
            }} catch (error) {{
                console.error('Zlack shortcut exception', shortcutId, error);
            }}
        }})();
        "#,
        runner = runner,
        shortcut = shortcut_id
    );
    assert_eq!(shortcut_script(runner, shortcut_id), expected);
}

#[test]
fn download_toast_script_matches_template() {
    let filename = "a \"quoted\" name.pdf";
    let url = "https://files.slack.com/x";
    let status = "finished";
    let success = false;
    let expected = format!(
        r#"
        (() => {{
            if (typeof window.__zlackShowDownloadToast !== 'function') {{
                window.__zlackShowDownloadToast = (payload) => {{
                    const filename = payload?.filename || 'file';
                    const complete = payload?.status === 'finished';
                    const success = payload?.success !== false;
                    const ext = String(filename).split('.').pop()?.toLowerCase() || '';
                    const kindMap = {{ pdf: 'PDF', png: 'PNG image', jpg: 'JPEG image', jpeg: 'JPEG image', gif: 'GIF image', zip: 'Archive', json: 'JSON' }};
                    const kind = complete ? (success ? (kindMap[ext] || (ext ? ext.toUpperCase() : 'File')) : 'Download failed') : (kindMap[ext] || (ext ? ext.toUpperCase() : 'File'));
                    const iconText = ext === 'pdf' ? 'PDF' : (['png', 'jpg', 'jpeg', 'gif', 'webp'].includes(ext) ? 'IMG' : (ext ? ext.slice(0, 3).toUpperCase() : '01'));

                    document.getElementById('zlack-download-toast')?.remove();
                    const toast = document.createElement('div');
                    toast.id = 'zlack-download-toast';
                    toast.setAttribute('role', 'status');
                    toast.setAttribute('aria-live', 'polite');
	                    Object.assign(toast.style, {{
	                        position: 'fixed',
	                        right: '28px',
	                        bottom: '84px',
	                        width: 'min(380px, calc(100vw - 56px))',
	                        zIndex: '2147483647',
	                        pointerEvents: 'none',
	                        color: '#f8f8f8',
                        fontFamily: 'Slack-Lato, Slack-Averta, -apple-system, BlinkMacSystemFont, "Segoe UI", sans-serif',
                    }});

                    const panel = document.createElement('div');
	                    Object.assign(panel.style, {{
	                        boxSizing: 'border-box',
	                        width: '100%',
	                        padding: '12px 14px 14px',
	                        border: '1px solid rgba(232, 232, 232, .14)',
	                        borderRadius: '13px',
	                        background: 'rgba(35, 38, 42, .76)',
	                        boxShadow: '0 14px 36px rgba(0, 0, 0, .32), inset 0 1px 0 rgba(255, 255, 255, .045)',
	                        backdropFilter: 'blur(18px) saturate(1.12)',
	                        WebkitBackdropFilter: 'blur(18px) saturate(1.12)',
	                    }});

	                    const card = document.createElement('div');
	                    Object.assign(card.style, {{
	                        display: 'grid',
	                        gridTemplateColumns: '42px minmax(0, 1fr)',
	                        alignItems: 'center',
	                        gap: '12px',
	                        minHeight: '56px',
	                        width: '100%',
	                        padding: '8px 12px',
	                        borderRadius: '10px',
	                        background: 'rgba(28, 24, 25, .88)',
	                    }});

                    const icon = document.createElement('div');
                    icon.textContent = iconText;
                    Object.assign(icon.style, {{
	                        position: 'relative',
	                        display: 'grid',
	                        placeItems: 'center',
	                        width: '42px',
	                        height: '42px',
	                        borderRadius: '9px',
	                        background: ext === 'pdf' ? 'linear-gradient(145deg, #ff2d6f, #df1457)' : 'linear-gradient(145deg, #6c6a6d, #4e4c50)',
	                        color: '#fff',
	                        fontFamily: 'ui-monospace, SFMono-Regular, Menlo, monospace',
	                        fontSize: ext === 'pdf' ? '11px' : '13px',
	                        fontWeight: '800',
	                        letterSpacing: '-.04em',
	                    }});

                    const badge = document.createElement('div');
                    badge.textContent = complete ? (success ? '✓' : '!') : '↓';
	                    Object.assign(badge.style, {{
	                        position: 'absolute',
	                        right: '-5px',
	                        bottom: '-5px',
	                        display: 'grid',
	                        placeItems: 'center',
	                        width: '19px',
	                        height: '19px',
	                        borderRadius: '999px',
	                        background: '#f8f8f8',
	                        color: success ? '#1d1c1d' : '#e01e5a',
	                        border: '2px solid rgba(28, 24, 25, .95)',
	                        fontSize: '12px',
	                        fontWeight: '900',
	                    }});
                    icon.appendChild(badge);

                    const copy = document.createElement('div');
                    copy.style.minWidth = '0';
	                    const title = document.createElement('div');
	                    title.textContent = filename;
	                    Object.assign(title.style, {{ overflow: 'hidden', textOverflow: 'ellipsis', whiteSpace: 'nowrap', fontSize: '14px', lineHeight: '18px', fontWeight: '700', color: '#fff' }});
	                    const subtitle = document.createElement('div');
	                    subtitle.textContent = kind;
	                    Object.assign(subtitle.style, {{ marginTop: '3px', overflow: 'hidden', textOverflow: 'ellipsis', whiteSpace: 'nowrap', fontSize: '13px', lineHeight: '17px', fontWeight: '500', color: 'rgba(255, 255, 255, .88)' }});
	                    copy.append(title, subtitle);
	                    card.append(icon, copy);

	                    const downloads = document.createElement('button');
	                    downloads.type = 'button';
	                    downloads.textContent = 'View all downloads';
	                    Object.assign(downloads.style, {{ pointerEvents: 'auto', margin: '9px 0 0 54px', padding: '0', border: '0', background: 'transparent', color: 'rgba(255, 255, 255, .94)', font: 'inherit', fontSize: '13px', lineHeight: '18px', fontWeight: '500', textAlign: 'left', cursor: 'pointer' }});
	                    downloads.addEventListener('click', (event) => {{
	                        event.preventDefault();
	                        event.stopImmediatePropagation();
	                        window.location.href = 'zlack://open-downloads?source=native-toast&ts=' + Date.now();
	                        const invoke = window.__TAURI__?.core?.invoke || window.__TAURI__?.invoke || window.__TAURI_INTERNALS__?.invoke;
	                        if (typeof invoke === 'function') {{
	                            invoke('open_downloads_folder', {{}}).catch((error) => console.error('Zlack: Failed to open Downloads folder', error));
	                        }}
	                    }});

                    panel.append(card, downloads);
                    toast.append(panel);
                    document.documentElement.appendChild(toast);
                    window.clearTimeout(window.__zlackDownloadToastTimeout);
                    window.__zlackDownloadToastTimeout = window.setTimeout(() => toast.remove(), complete ? 7000 : 5000);
                }};
            }}

            window.__zlackShowDownloadToast({{
                filename: {filename},
                url: {url},
                status: {status},
                success: {success},
            }});
        }})();
        "#,
        filename = js_string_literal(filename),
        url = js_string_literal(url),
        status = js_string_literal(status),
        success = success,
    );
    assert_eq!(download_toast_script(filename, url, status, success), expected);
}

#[test]
fn navigation_and_new_window_policy() {
    assert_eq!(
        navigation_action(&url("zlack://open-downloads?source=native-toast")),
        NavigationAction::OpenDownloadsFolder
    );
    assert_eq!(navigation_action(&url("https://zoom.us/j/1")), NavigationAction::OpenExternally);
    assert_eq!(navigation_action(&url("https://example.com")), NavigationAction::Proceed);
    assert_eq!(
        navigation_action(&url("https://app.slack.com/client")),
        NavigationAction::Proceed
    );
    assert_eq!(
        new_window_action(&url("zlack://open-downloads")),
        NewWindowAction::OpenDownloadsFolder
    );
    assert_eq!(new_window_action(&url("https://example.com")), NewWindowAction::OpenExternally);
    assert_eq!(new_window_action(&url("https://zoom.us/j/1")), NewWindowAction::OpenExternally);
    assert_eq!(
        new_window_action(&url("https://files.slack.com/files-pri/T1/a.pdf")),
        NewWindowAction::Allow
    );
}

#[test]
fn window_settings() {
    assert_eq!(toggle_window_maximize(true), MaximizeAction::Unmaximize);
    assert_eq!(toggle_window_maximize(false), MaximizeAction::Maximize);
    assert_eq!(SLACK_URL, "https://app.slack.com/client");
    assert!(main_window_user_agent(Platform::MacOs).contains("Macintosh; Intel Mac OS X 10_15_7"));
    assert!(main_window_user_agent(Platform::Windows).contains("Windows NT 10.0; Win64; x64"));
    assert_eq!(
        main_window_user_agent(Platform::Other),
        main_window_user_agent(Platform::Windows)
    );
}

#[test]
fn menu_dispatch() {
    let table = slack_action_shortcuts();
    assert_eq!(table.len(), 12);
    assert_eq!(table[0].id, "zlack_file_new_message");
    assert_eq!(table[0].label, "New Message");
    assert_eq!(table[0].accelerator, "CmdOrCtrl+N");
    assert_eq!(table[8].label, "People & User Groups");
    assert_eq!(table[11].accelerator, "CmdOrCtrl+]");
    assert_eq!(menu_action("zlack_file_close_window"), MenuAction::HideMainWindow);
    assert_eq!(menu_action("zlack_file_show_main"), MenuAction::ShowMainWindow);
    for item in &table {
        assert_eq!(menu_action(&item.id), MenuAction::RunSlackShortcut);
    }
    assert_eq!(menu_action("zlack_go_nowhere"), MenuAction::Ignore);
    assert_eq!(menu_action(""), MenuAction::Ignore);
}

#[test]
fn quitting_from_the_tray_lets_windows_close() {
    let mut life = AppLifecycle::new();
    assert!(!life.is_quitting());
    assert!(life.hold_back_close());
    assert!(life.hold_back_exit());
    assert_eq!(life.on_tray_menu("show"), TrayAction::ShowMainWindow);
    assert_eq!(life.on_tray_menu("other"), TrayAction::Ignore);
    assert!(life.hold_back_close());
    assert_eq!(life.on_tray_menu("quit"), TrayAction::Quit);
    assert!(life.is_quitting());
    assert!(!life.hold_back_close());
    assert!(!life.hold_back_exit());
    assert_eq!(life.on_tray_menu("show"), TrayAction::ShowMainWindow);
    assert!(life.is_quitting());
}

fn describe(entries: Vec<MenuEntry>) -> Vec<String> {
    entries
        .into_iter()
        .map(|entry| match entry {
            MenuEntry::Item { id, label, accelerator } => {
                format!("{id}|{label}|{}", accelerator.unwrap_or_default())
            }
            MenuEntry::Standard { item, label } => format!("{item:?}|{label}"),
            MenuEntry::Separator => "-".to_string(),
        })
        .collect()
}

#[test]
fn app_file_and_edit_menus() {
    assert_eq!(describe(app_menu_entries()), strings(&["Quit|Quit Zlack"]));
    assert_eq!(
        describe(file_menu_entries()),
        strings(&[
            "zlack_file_new_message|New Message|CmdOrCtrl+N",
            "zlack_file_new_canvas|New Canvas|CmdOrCtrl+Shift+N",
            "-",
            "zlack_file_close_window|Close Window|CmdOrCtrl+W",
            "zlack_file_show_main|Show Main Window|",
        ])
    );
    assert_eq!(
        describe(edit_menu_entries()),
        strings(&[
            "Undo|Undo",
            "Redo|Redo",
            "-",
            "Cut|Cut",
            "Copy|Copy",
            "Paste|Paste",
            "SelectAll|Select All",
        ])
    );
    for entry in file_menu_entries() {
        if let MenuEntry::Item { id, .. } = entry {
            assert_ne!(menu_action(&id), MenuAction::Ignore);
        }
    }
}

#[test]
fn menu_bar_order_and_go_menu() {
    let titles: Vec<String> = menu_bar().into_iter().map(|m| m.title).collect();
    assert_eq!(titles, strings(&["Zlack", "File", "Edit", "Go"]));
    let go = describe(go_menu_entries());
    assert_eq!(go.len(), 12);
    assert_eq!(go[0], "zlack_file_new_message|New Message|CmdOrCtrl+N");
    assert_eq!(go[8], "zlack_go_people|People & User Groups|CmdOrCtrl+Shift+E");
    assert_eq!(go[11], "zlack_go_history_forward|Forward|CmdOrCtrl+]");
    let bar = menu_bar();
    assert_eq!(describe(bar.into_iter().nth(1).unwrap().entries), describe(file_menu_entries()));
}

#[test]
fn finished_download_display_paths() {
    let u = url("https://files.slack.com/files-pri/T1/a.pdf");
    let mut h = DownloadHistory::new();
    assert_eq!(h.finished_download_display_path(None, true), None);
    h.remember_download_path(Some("/d/old.pdf"));
    assert_eq!(h.finished_download_display_path(None, true).as_deref(), Some("/d/old.pdf"));
    h.on_download_requested(&u, "/d/a.pdf");
    assert_eq!(h.finished_download_display_path(None, true).as_deref(), Some("/d/a.pdf"));
    assert_eq!(h.finished_download_display_path(None, false), None);
    assert_eq!(h.finished_download_display_path(Some("/d/b.pdf"), false).as_deref(), Some("/d/b.pdf"));
}
