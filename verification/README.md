# zlack

Zlack is a desktop wrapper around the Slack web client. This crate holds its
decision logic, verified with Verus; `app/` is the Tauri program around it.

- `src/web_url.rs`: URLs as the web view reports them (parsed by the `url`
  crate) and their classification: Slack, Zoom, the app's own
  `zlack://open-downloads` link, schemes the OS may open.
- `src/window_policy.rs`: what the main window does with navigations and
  new-window requests, maximize toggling, the user agent.
- `src/downloads.rs`: the download under way and the latest completed one,
  the name the download toast shows, the file the Downloads folder view
  reveals, the download event handlers.
- `src/os_command.rs`: the programs run to open URLs and the Downloads
  folder, per platform, and the error messages reported back.
- `src/js_literal.rs`: quoting strings as JavaScript literals, with the
  proof that a quoted literal reads back as the original string.
- `src/scripts.rs`: the scripts evaluated in the web view (notification
  navigation through `serde_json`, menu shortcuts, the download toast).
- `src/notification.rs`, `src/menu.rs`: notification targets, the app,
  File, Edit and Go menus, the tray and the quit state.
- `src/paths.rs`, `src/text.rs`: path calls of `std` and character helpers.

The scripts `shortcut_actions.js` and `preload.js` that `app/main.rs`
embeds are not part of this tree; the program expects them in `extras/`.
