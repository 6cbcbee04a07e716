//! The app's menus: the app, File and Edit menus, the Slack shortcuts of
//! the Go menu (and the File menu's New Message and New Canvas), what a
//! chosen menu item does, the tray menu,
//! and when the app may really close or quit.

use vstd::prelude::*;
use crate::text::str_eq;

verus! {

/// A menu item that runs a Slack action: its id, its label and its
/// keyboard accelerator.
pub struct MenuShortcut {
    pub id: String,
    pub label: String,
    pub accelerator: String,
}

impl View for MenuShortcut {
    type V = (Seq<char>, Seq<char>, Seq<char>);

    open spec fn view(&self) -> (Seq<char>, Seq<char>, Seq<char>) {
        (self.id@, self.label@, self.accelerator@)
    }
}

/// The menu items that run Slack actions, in menu order.
pub open spec fn slack_action_shortcuts_spec() -> Seq<(Seq<char>, Seq<char>, Seq<char>)> {
    seq![
        ("zlack_file_new_message"@, "New Message"@, "CmdOrCtrl+N"@),
        ("zlack_file_new_canvas"@, "New Canvas"@, "CmdOrCtrl+Shift+N"@),
        ("zlack_go_search"@, "Search"@, "CmdOrCtrl+F"@),
        ("zlack_go_all_unreads"@, "All Unreads"@, "CmdOrCtrl+Shift+A"@),
        ("zlack_go_threads"@, "Threads"@, "CmdOrCtrl+Shift+T"@),
        ("zlack_go_all_dms"@, "All DMs"@, "CmdOrCtrl+Shift+K"@),
        ("zlack_go_activity"@, "Activity"@, "CmdOrCtrl+Shift+M"@),
        ("zlack_go_channel_browser"@, "Channel Browser"@, "CmdOrCtrl+Shift+L"@),
        ("zlack_go_people"@, "People & User Groups"@, "CmdOrCtrl+Shift+E"@),
        ("zlack_go_downloads"@, "Downloads"@, "CmdOrCtrl+Shift+J"@),
        ("zlack_go_history_back"@, "Back"@, "CmdOrCtrl+["@),
        ("zlack_go_history_forward"@, "Forward"@, "CmdOrCtrl+]"@),
    ]
}

fn shortcut(id: &str, label: &str, accelerator: &str) -> (r: MenuShortcut)
    ensures
        r@ == (id@, label@, accelerator@),
{
    MenuShortcut {
        id: String::from_str(id),
        label: String::from_str(label),
        accelerator: String::from_str(accelerator),
    }
}

/// The menu items that run Slack actions.
pub fn slack_action_shortcuts() -> (r: Vec<MenuShortcut>)
    ensures
        r@.map_values(|s: MenuShortcut| s@) == slack_action_shortcuts_spec(),
{
    let r = vec![
        shortcut("zlack_file_new_message", "New Message", "CmdOrCtrl+N"),
        shortcut("zlack_file_new_canvas", "New Canvas", "CmdOrCtrl+Shift+N"),
        shortcut("zlack_go_search", "Search", "CmdOrCtrl+F"),
        shortcut("zlack_go_all_unreads", "All Unreads", "CmdOrCtrl+Shift+A"),
        shortcut("zlack_go_threads", "Threads", "CmdOrCtrl+Shift+T"),
        shortcut("zlack_go_all_dms", "All DMs", "CmdOrCtrl+Shift+K"),
        shortcut("zlack_go_activity", "Activity", "CmdOrCtrl+Shift+M"),
        shortcut("zlack_go_channel_browser", "Channel Browser", "CmdOrCtrl+Shift+L"),
        shortcut("zlack_go_people", "People & User Groups", "CmdOrCtrl+Shift+E"),
        shortcut("zlack_go_downloads", "Downloads", "CmdOrCtrl+Shift+J"),
        shortcut("zlack_go_history_back", "Back", "CmdOrCtrl+["),
        shortcut("zlack_go_history_forward", "Forward", "CmdOrCtrl+]"),
    ];
    assert(r@.map_values(|s: MenuShortcut| s@) =~= slack_action_shortcuts_spec());
    r
}

/// The label and accelerator of the Slack action item `id`, by id: New
/// Message is CmdOrCtrl+N, New Canvas CmdOrCtrl+Shift+N, Search CmdOrCtrl+F,
/// All Unreads CmdOrCtrl+Shift+A, Threads CmdOrCtrl+Shift+T, All DMs
/// CmdOrCtrl+Shift+K, Activity CmdOrCtrl+Shift+M, Channel Browser
/// CmdOrCtrl+Shift+L, People & User Groups CmdOrCtrl+Shift+E, Downloads
/// CmdOrCtrl+Shift+J, Back CmdOrCtrl+[ and Forward CmdOrCtrl+].
pub open spec fn slack_shortcut_binding(id: Seq<char>) -> Option<(Seq<char>, Seq<char>)> {
    if id == "zlack_file_new_message"@ {
        Some(("New Message"@, "CmdOrCtrl+N"@))
    } else if id == "zlack_file_new_canvas"@ {
        Some(("New Canvas"@, "CmdOrCtrl+Shift+N"@))
    } else if id == "zlack_go_search"@ {
        Some(("Search"@, "CmdOrCtrl+F"@))
    } else if id == "zlack_go_all_unreads"@ {
        Some(("All Unreads"@, "CmdOrCtrl+Shift+A"@))
    } else if id == "zlack_go_threads"@ {
        Some(("Threads"@, "CmdOrCtrl+Shift+T"@))
    } else if id == "zlack_go_all_dms"@ {
        Some(("All DMs"@, "CmdOrCtrl+Shift+K"@))
    } else if id == "zlack_go_activity"@ {
        Some(("Activity"@, "CmdOrCtrl+Shift+M"@))
    } else if id == "zlack_go_channel_browser"@ {
        Some(("Channel Browser"@, "CmdOrCtrl+Shift+L"@))
    } else if id == "zlack_go_people"@ {
        Some(("People & User Groups"@, "CmdOrCtrl+Shift+E"@))
    } else if id == "zlack_go_downloads"@ {
        Some(("Downloads"@, "CmdOrCtrl+Shift+J"@))
    } else if id == "zlack_go_history_back"@ {
        Some(("Back"@, "CmdOrCtrl+["@))
    } else if id == "zlack_go_history_forward"@ {
        Some(("Forward"@, "CmdOrCtrl+]"@))
    } else {
        None
    }
}

proof fn lemma_slack_action_ids_distinct()
    ensures
        "zlack_file_new_message"@ != "zlack_file_new_canvas"@,
        "zlack_file_new_message"@ != "zlack_go_search"@,
        "zlack_file_new_message"@ != "zlack_go_all_unreads"@,
        "zlack_file_new_message"@ != "zlack_go_threads"@,
        "zlack_file_new_message"@ != "zlack_go_all_dms"@,
        "zlack_file_new_message"@ != "zlack_go_activity"@,
        "zlack_file_new_message"@ != "zlack_go_channel_browser"@,
        "zlack_file_new_message"@ != "zlack_go_people"@,
        "zlack_file_new_message"@ != "zlack_go_downloads"@,
        "zlack_file_new_message"@ != "zlack_go_history_back"@,
        "zlack_file_new_message"@ != "zlack_go_history_forward"@,
        "zlack_file_new_canvas"@ != "zlack_go_search"@,
        "zlack_file_new_canvas"@ != "zlack_go_all_unreads"@,
        "zlack_file_new_canvas"@ != "zlack_go_threads"@,
        "zlack_file_new_canvas"@ != "zlack_go_all_dms"@,
        "zlack_file_new_canvas"@ != "zlack_go_activity"@,
        "zlack_file_new_canvas"@ != "zlack_go_channel_browser"@,
        "zlack_file_new_canvas"@ != "zlack_go_people"@,
        "zlack_file_new_canvas"@ != "zlack_go_downloads"@,
        "zlack_file_new_canvas"@ != "zlack_go_history_back"@,
        "zlack_file_new_canvas"@ != "zlack_go_history_forward"@,
        "zlack_go_search"@ != "zlack_go_all_unreads"@,
        "zlack_go_search"@ != "zlack_go_threads"@,
        "zlack_go_search"@ != "zlack_go_all_dms"@,
        "zlack_go_search"@ != "zlack_go_activity"@,
        "zlack_go_search"@ != "zlack_go_channel_browser"@,
        "zlack_go_search"@ != "zlack_go_people"@,
        "zlack_go_search"@ != "zlack_go_downloads"@,
        "zlack_go_search"@ != "zlack_go_history_back"@,
        "zlack_go_search"@ != "zlack_go_history_forward"@,
        "zlack_go_all_unreads"@ != "zlack_go_threads"@,
        "zlack_go_all_unreads"@ != "zlack_go_all_dms"@,
        "zlack_go_all_unreads"@ != "zlack_go_activity"@,
        "zlack_go_all_unreads"@ != "zlack_go_channel_browser"@,
        "zlack_go_all_unreads"@ != "zlack_go_people"@,
        "zlack_go_all_unreads"@ != "zlack_go_downloads"@,
        "zlack_go_all_unreads"@ != "zlack_go_history_back"@,
        "zlack_go_all_unreads"@ != "zlack_go_history_forward"@,
        "zlack_go_threads"@ != "zlack_go_all_dms"@,
        "zlack_go_threads"@ != "zlack_go_activity"@,
        "zlack_go_threads"@ != "zlack_go_channel_browser"@,
        "zlack_go_threads"@ != "zlack_go_people"@,
        "zlack_go_threads"@ != "zlack_go_downloads"@,
        "zlack_go_threads"@ != "zlack_go_history_back"@,
        "zlack_go_threads"@ != "zlack_go_history_forward"@,
        "zlack_go_all_dms"@ != "zlack_go_activity"@,
        "zlack_go_all_dms"@ != "zlack_go_channel_browser"@,
        "zlack_go_all_dms"@ != "zlack_go_people"@,
        "zlack_go_all_dms"@ != "zlack_go_downloads"@,
        "zlack_go_all_dms"@ != "zlack_go_history_back"@,
        "zlack_go_all_dms"@ != "zlack_go_history_forward"@,
        "zlack_go_activity"@ != "zlack_go_channel_browser"@,
        "zlack_go_activity"@ != "zlack_go_people"@,
        "zlack_go_activity"@ != "zlack_go_downloads"@,
        "zlack_go_activity"@ != "zlack_go_history_back"@,
        "zlack_go_activity"@ != "zlack_go_history_forward"@,
        "zlack_go_channel_browser"@ != "zlack_go_people"@,
        "zlack_go_channel_browser"@ != "zlack_go_downloads"@,
        "zlack_go_channel_browser"@ != "zlack_go_history_back"@,
        "zlack_go_channel_browser"@ != "zlack_go_history_forward"@,
        "zlack_go_people"@ != "zlack_go_downloads"@,
        "zlack_go_people"@ != "zlack_go_history_back"@,
        "zlack_go_people"@ != "zlack_go_history_forward"@,
        "zlack_go_downloads"@ != "zlack_go_history_back"@,
        "zlack_go_downloads"@ != "zlack_go_history_forward"@,
        "zlack_go_history_back"@ != "zlack_go_history_forward"@,
{
    reveal_strlit("zlack_file_new_message");
    reveal_strlit("zlack_file_new_canvas");
    reveal_strlit("zlack_go_search");
    reveal_strlit("zlack_go_all_unreads");
    reveal_strlit("zlack_go_threads");
    reveal_strlit("zlack_go_all_dms");
    reveal_strlit("zlack_go_activity");
    reveal_strlit("zlack_go_channel_browser");
    reveal_strlit("zlack_go_people");
    reveal_strlit("zlack_go_downloads");
    reveal_strlit("zlack_go_history_back");
    reveal_strlit("zlack_go_history_forward");
    assert("zlack_file_new_message"@.len() != "zlack_file_new_canvas"@.len());
    assert("zlack_file_new_message"@.len() != "zlack_go_search"@.len());
    assert("zlack_file_new_message"@.len() != "zlack_go_all_unreads"@.len());
    assert("zlack_file_new_message"@.len() != "zlack_go_threads"@.len());
    assert("zlack_file_new_message"@.len() != "zlack_go_all_dms"@.len());
    assert("zlack_file_new_message"@.len() != "zlack_go_activity"@.len());
    assert("zlack_file_new_message"@.len() != "zlack_go_channel_browser"@.len());
    assert("zlack_file_new_message"@.len() != "zlack_go_people"@.len());
    assert("zlack_file_new_message"@.len() != "zlack_go_downloads"@.len());
    assert("zlack_file_new_message"@.len() != "zlack_go_history_back"@.len());
    assert("zlack_file_new_message"@.len() != "zlack_go_history_forward"@.len());
    assert("zlack_file_new_canvas"@.len() != "zlack_go_search"@.len());
    assert("zlack_file_new_canvas"@.len() != "zlack_go_all_unreads"@.len());
    assert("zlack_file_new_canvas"@.len() != "zlack_go_threads"@.len());
    assert("zlack_file_new_canvas"@.len() != "zlack_go_all_dms"@.len());
    assert("zlack_file_new_canvas"@.len() != "zlack_go_activity"@.len());
    assert("zlack_file_new_canvas"@.len() != "zlack_go_channel_browser"@.len());
    assert("zlack_file_new_canvas"@.len() != "zlack_go_people"@.len());
    assert("zlack_file_new_canvas"@.len() != "zlack_go_downloads"@.len());
    assert("zlack_file_new_canvas"@[6] != "zlack_go_history_back"@[6]);
    assert("zlack_file_new_canvas"@.len() != "zlack_go_history_forward"@.len());
    assert("zlack_go_search"@.len() != "zlack_go_all_unreads"@.len());
    assert("zlack_go_search"@.len() != "zlack_go_threads"@.len());
    assert("zlack_go_search"@.len() != "zlack_go_all_dms"@.len());
    assert("zlack_go_search"@.len() != "zlack_go_activity"@.len());
    assert("zlack_go_search"@.len() != "zlack_go_channel_browser"@.len());
    assert("zlack_go_search"@[9] != "zlack_go_people"@[9]);
    assert("zlack_go_search"@.len() != "zlack_go_downloads"@.len());
    assert("zlack_go_search"@.len() != "zlack_go_history_back"@.len());
    assert("zlack_go_search"@.len() != "zlack_go_history_forward"@.len());
    assert("zlack_go_all_unreads"@.len() != "zlack_go_threads"@.len());
    assert("zlack_go_all_unreads"@.len() != "zlack_go_all_dms"@.len());
    assert("zlack_go_all_unreads"@.len() != "zlack_go_activity"@.len());
    assert("zlack_go_all_unreads"@.len() != "zlack_go_channel_browser"@.len());
    assert("zlack_go_all_unreads"@.len() != "zlack_go_people"@.len());
    assert("zlack_go_all_unreads"@.len() != "zlack_go_downloads"@.len());
    assert("zlack_go_all_unreads"@.len() != "zlack_go_history_back"@.len());
    assert("zlack_go_all_unreads"@.len() != "zlack_go_history_forward"@.len());
    assert("zlack_go_threads"@[9] != "zlack_go_all_dms"@[9]);
    assert("zlack_go_threads"@.len() != "zlack_go_activity"@.len());
    assert("zlack_go_threads"@.len() != "zlack_go_channel_browser"@.len());
    assert("zlack_go_threads"@.len() != "zlack_go_people"@.len());
    assert("zlack_go_threads"@.len() != "zlack_go_downloads"@.len());
    assert("zlack_go_threads"@.len() != "zlack_go_history_back"@.len());
    assert("zlack_go_threads"@.len() != "zlack_go_history_forward"@.len());
    assert("zlack_go_all_dms"@.len() != "zlack_go_activity"@.len());
    assert("zlack_go_all_dms"@.len() != "zlack_go_channel_browser"@.len());
    assert("zlack_go_all_dms"@.len() != "zlack_go_people"@.len());
    assert("zlack_go_all_dms"@.len() != "zlack_go_downloads"@.len());
    assert("zlack_go_all_dms"@.len() != "zlack_go_history_back"@.len());
    assert("zlack_go_all_dms"@.len() != "zlack_go_history_forward"@.len());
    assert("zlack_go_activity"@.len() != "zlack_go_channel_browser"@.len());
    assert("zlack_go_activity"@.len() != "zlack_go_people"@.len());
    assert("zlack_go_activity"@.len() != "zlack_go_downloads"@.len());
    assert("zlack_go_activity"@.len() != "zlack_go_history_back"@.len());
    assert("zlack_go_activity"@.len() != "zlack_go_history_forward"@.len());
    assert("zlack_go_channel_browser"@.len() != "zlack_go_people"@.len());
    assert("zlack_go_channel_browser"@.len() != "zlack_go_downloads"@.len());
    assert("zlack_go_channel_browser"@.len() != "zlack_go_history_back"@.len());
    assert("zlack_go_channel_browser"@[9] != "zlack_go_history_forward"@[9]);
    assert("zlack_go_people"@.len() != "zlack_go_downloads"@.len());
    assert("zlack_go_people"@.len() != "zlack_go_history_back"@.len());
    assert("zlack_go_people"@.len() != "zlack_go_history_forward"@.len());
    assert("zlack_go_downloads"@.len() != "zlack_go_history_back"@.len());
    assert("zlack_go_downloads"@.len() != "zlack_go_history_forward"@.len());
    assert("zlack_go_history_back"@.len() != "zlack_go_history_forward"@.len());
}

/// Law: the Slack action items are twelve, each with its own id, and each
/// item carries the label and accelerator that [`slack_shortcut_binding`]
/// gives its id; every id that has a binding is an item.
pub proof fn slack_shortcuts_bound_by_id()
    ensures
        slack_action_shortcuts_spec().len() == 12,
        forall|i: int|
            0 <= i < slack_action_shortcuts_spec().len() ==> slack_shortcut_binding(
                (#[trigger] slack_action_shortcuts_spec()[i]).0,
            ) == Some((slack_action_shortcuts_spec()[i].1, slack_action_shortcuts_spec()[i].2)),
        forall|i: int, j: int|
            0 <= i < j < slack_action_shortcuts_spec().len() ==> (#[trigger] slack_action_shortcuts_spec()[i]).0
                != (#[trigger] slack_action_shortcuts_spec()[j]).0,
        forall|id: Seq<char>| #[trigger] slack_shortcut_binding(id) is Some ==> is_slack_action_id(id),
{
    lemma_slack_action_ids_distinct();
    let t = slack_action_shortcuts_spec();
    assert forall|i: int|
        0 <= i < t.len() implies slack_shortcut_binding((#[trigger] t[i]).0) == Some((t[i].1, t[i].2)) by {
    }
    assert forall|i: int, j: int|
        0 <= i < j < t.len() implies (#[trigger] t[i]).0 != (#[trigger] t[j]).0 by {
    }
    assert forall|id: Seq<char>| #[trigger] slack_shortcut_binding(id) is Some implies is_slack_action_id(id) by {
        if id == t[0].0 { assert(t[0].0 == id); }
        if id == t[1].0 { assert(t[1].0 == id); }
        if id == t[2].0 { assert(t[2].0 == id); }
        if id == t[3].0 { assert(t[3].0 == id); }
        if id == t[4].0 { assert(t[4].0 == id); }
        if id == t[5].0 { assert(t[5].0 == id); }
        if id == t[6].0 { assert(t[6].0 == id); }
        if id == t[7].0 { assert(t[7].0 == id); }
        if id == t[8].0 { assert(t[8].0 == id); }
        if id == t[9].0 { assert(t[9].0 == id); }
        if id == t[10].0 { assert(t[10].0 == id); }
        if id == t[11].0 { assert(t[11].0 == id); }
    }
}

/// Whether `id` is the id of a Slack action item.
pub open spec fn is_slack_action_id(id: Seq<char>) -> bool {
    exists|i: int| 0 <= i < slack_action_shortcuts_spec().len() && (#[trigger] slack_action_shortcuts_spec()[i]).0 == id
}

/// What choosing a menu item does.
#[derive(Clone, Copy, Debug, PartialEq, Eq, Structural)]
pub enum MenuAction {
    /// Hide the main window (File > Close Window).
    HideMainWindow,
    /// Show the main window, creating it if needed (File > Show Main Window).
    ShowMainWindow,
    /// Run the Slack action of the chosen item.
    RunSlackShortcut,
    /// Nothing.
    Ignore,
}

/// The app menu's dispatch on the chosen item's id.
pub open spec fn menu_action_spec(id: Seq<char>) -> MenuAction {
    if id == "zlack_file_close_window"@ {
        MenuAction::HideMainWindow
    } else if id == "zlack_file_show_main"@ {
        MenuAction::ShowMainWindow
    } else if is_slack_action_id(id) {
        MenuAction::RunSlackShortcut
    } else {
        MenuAction::Ignore
    }
}

/// What choosing the menu item `id` does.
pub fn menu_action(id: &str) -> (r: MenuAction)
    ensures
        r == menu_action_spec(id@),
{
    if str_eq(id, "zlack_file_close_window") {
        return MenuAction::HideMainWindow;
    }
    if str_eq(id, "zlack_file_show_main") {
        return MenuAction::ShowMainWindow;
    }
    let table = slack_action_shortcuts();
    let ghost spec_table = slack_action_shortcuts_spec();
    assert(table@.len() == spec_table.len()) by {
        assert(table@.map_values(|s: MenuShortcut| s@).len() == table@.len());
    }
    let mut i: usize = 0;
    while i < table.len()
        invariant
            table@.map_values(|s: MenuShortcut| s@) == spec_table,
            spec_table == slack_action_shortcuts_spec(),
            table@.len() == spec_table.len(),
            i <= table.len(),
            forall|j: int| 0 <= j < i ==> spec_table[j].0 != id@,
            id@ != "zlack_file_close_window"@,
            id@ != "zlack_file_show_main"@,
        decreases table.len() - i,
    {
        assert(table@.map_values(|s: MenuShortcut| s@)[i as int] == table@[i as int]@);
        if str_eq(table[i].id.as_str(), id) {
            assert(slack_action_shortcuts_spec()[i as int].0 == id@);
            assert(is_slack_action_id(id@));
            return MenuAction::RunSlackShortcut;
        }
        i = i + 1;
    }
    MenuAction::Ignore
}

/// A predefined menu item that the menu toolkit implements itself.
#[derive(Clone, Copy, Debug, PartialEq, Eq, Structural)]
pub enum StandardItem {
    Quit,
    Undo,
    Redo,
    Cut,
    Copy,
    Paste,
    SelectAll,
}

/// An entry of the File, Edit or app menu.
pub enum MenuEntry {
    /// An item of the app's own, with its id, label and accelerator.
    Item { id: String, label: String, accelerator: Option<String> },
    /// A predefined item with its label.
    Standard { item: StandardItem, label: String },
    /// A separator line.
    Separator,
}

/// The mathematical value of a [`MenuEntry`].
pub enum MenuEntryView {
    Item { id: Seq<char>, label: Seq<char>, accelerator: Option<Seq<char>> },
    Standard { item: StandardItem, label: Seq<char> },
    Separator,
}

impl View for MenuEntry {
    type V = MenuEntryView;

    open spec fn view(&self) -> MenuEntryView {
        match self {
            MenuEntry::Item { id, label, accelerator } => MenuEntryView::Item {
                id: id@,
                label: label@,
                accelerator: accelerator.deep_view(),
            },
            MenuEntry::Standard { item, label } => MenuEntryView::Standard {
                item: *item,
                label: label@,
            },
            MenuEntry::Separator => MenuEntryView::Separator,
        }
    }
}

fn item(id: &str, label: &str, accelerator: Option<&str>) -> (r: MenuEntry)
    ensures
        r@ == (MenuEntryView::Item {
            id: id@,
            label: label@,
            accelerator: match accelerator {
                Some(a) => Some(a@),
                None => None,
            },
        }),
{
    MenuEntry::Item {
        id: String::from_str(id),
        label: String::from_str(label),
        accelerator: match accelerator {
            Some(a) => Some(String::from_str(a)),
            None => None,
        },
    }
}

fn standard(kind: StandardItem, label: &str) -> (r: MenuEntry)
    ensures
        r@ == (MenuEntryView::Standard { item: kind, label: label@ }),
{
    MenuEntry::Standard { item: kind, label: String::from_str(label) }
}

/// The values of a sequence of menu entries.
pub open spec fn entry_views(entries: Seq<MenuEntry>) -> Seq<MenuEntryView> {
    entries.map_values(|e: MenuEntry| e@)
}

/// The app menu: Quit.
pub open spec fn app_menu_spec() -> Seq<MenuEntryView> {
    seq![MenuEntryView::Standard { item: StandardItem::Quit, label: "Quit Zlack"@ }]
}

/// The File menu: New Message and New Canvas, then Close Window and Show
/// Main Window.
pub open spec fn file_menu_spec() -> Seq<MenuEntryView> {
    seq![
        MenuEntryView::Item {
            id: "zlack_file_new_message"@,
            label: "New Message"@,
            accelerator: Some("CmdOrCtrl+N"@),
        },
        MenuEntryView::Item {
            id: "zlack_file_new_canvas"@,
            label: "New Canvas"@,
            accelerator: Some("CmdOrCtrl+Shift+N"@),
        },
        MenuEntryView::Separator,
        MenuEntryView::Item {
            id: "zlack_file_close_window"@,
            label: "Close Window"@,
            accelerator: Some("CmdOrCtrl+W"@),
        },
        MenuEntryView::Item {
            id: "zlack_file_show_main"@,
            label: "Show Main Window"@,
            accelerator: None,
        },
    ]
}

/// The Edit menu: the standard editing items.
pub open spec fn edit_menu_spec() -> Seq<MenuEntryView> {
    seq![
        MenuEntryView::Standard { item: StandardItem::Undo, label: "Undo"@ },
        MenuEntryView::Standard { item: StandardItem::Redo, label: "Redo"@ },
        MenuEntryView::Separator,
        MenuEntryView::Standard { item: StandardItem::Cut, label: "Cut"@ },
        MenuEntryView::Standard { item: StandardItem::Copy, label: "Copy"@ },
        MenuEntryView::Standard { item: StandardItem::Paste, label: "Paste"@ },
        MenuEntryView::Standard { item: StandardItem::SelectAll, label: "Select All"@ },
    ]
}

/// The entries of the app menu.
pub fn app_menu_entries() -> (r: Vec<MenuEntry>)
    ensures
        entry_views(r@) == app_menu_spec(),
{
    let r = vec![standard(StandardItem::Quit, "Quit Zlack")];
    assert(entry_views(r@) =~= app_menu_spec());
    r
}

/// The entries of the File menu.
pub fn file_menu_entries() -> (r: Vec<MenuEntry>)
    ensures
        entry_views(r@) == file_menu_spec(),
{
    let r = vec![
        item("zlack_file_new_message", "New Message", Some("CmdOrCtrl+N")),
        item("zlack_file_new_canvas", "New Canvas", Some("CmdOrCtrl+Shift+N")),
        MenuEntry::Separator,
        item("zlack_file_close_window", "Close Window", Some("CmdOrCtrl+W")),
        item("zlack_file_show_main", "Show Main Window", None),
    ];
    assert(entry_views(r@) =~= file_menu_spec());
    r
}

/// The entries of the Edit menu.
pub fn edit_menu_entries() -> (r: Vec<MenuEntry>)
    ensures
        entry_views(r@) == edit_menu_spec(),
{
    let r = vec![
        standard(StandardItem::Undo, "Undo"),
        standard(StandardItem::Redo, "Redo"),
        MenuEntry::Separator,
        standard(StandardItem::Cut, "Cut"),
        standard(StandardItem::Copy, "Copy"),
        standard(StandardItem::Paste, "Paste"),
        standard(StandardItem::SelectAll, "Select All"),
    ];
    assert(entry_views(r@) =~= edit_menu_spec());
    r
}

/// The Go menu: one item for each Slack action, with its accelerator.
pub open spec fn go_menu_spec() -> Seq<MenuEntryView> {
    slack_action_shortcuts_spec().map_values(
        |s: (Seq<char>, Seq<char>, Seq<char>)|
            MenuEntryView::Item { id: s.0, label: s.1, accelerator: Some(s.2) },
    )
}

/// The entries of the Go menu.
pub fn go_menu_entries() -> (r: Vec<MenuEntry>)
    ensures
        entry_views(r@) == go_menu_spec(),
{
    let table = slack_action_shortcuts();
    let ghost spec_table = slack_action_shortcuts_spec();
    assert(table@.len() == spec_table.len()) by {
        assert(table@.map_values(|s: MenuShortcut| s@).len() == table@.len());
    }
    let mut r: Vec<MenuEntry> = Vec::new();
    let mut i: usize = 0;
    while i < table.len()
        invariant
            table@.map_values(|s: MenuShortcut| s@) == spec_table,
            spec_table == slack_action_shortcuts_spec(),
            table@.len() == spec_table.len(),
            i <= table.len(),
            entry_views(r@) == go_menu_spec().take(i as int),
            r@.len() == i,
        decreases table.len() - i,
    {
        assert(table@.map_values(|s: MenuShortcut| s@)[i as int] == table@[i as int]@);
        let s = &table[i];
        let e = MenuEntry::Item {
            id: s.id.clone(),
            label: s.label.clone(),
            accelerator: Some(s.accelerator.clone()),
        };
        assert(e@ == go_menu_spec()[i as int]);
        let ghost before = r@;
        r.push(e);
        assert(r@ == before.push(e));
        assert forall|j: int| 0 <= j < i + 1 implies #[trigger] entry_views(r@)[j]
            == go_menu_spec().take(i + 1)[j] by {
            if j < i {
                assert(r@[j] == before[j]);
                assert(entry_views(before)[j] == go_menu_spec().take(i as int)[j]);
            }
        }
        assert(entry_views(r@) =~= go_menu_spec().take(i + 1));
        i = i + 1;
    }
    assert(go_menu_spec().take(table.len() as int) =~= go_menu_spec());
    r
}

/// A titled menu of the menu bar.
pub struct Submenu {
    pub title: String,
    pub entries: Vec<MenuEntry>,
}

impl View for Submenu {
    type V = (Seq<char>, Seq<MenuEntryView>);

    open spec fn view(&self) -> (Seq<char>, Seq<MenuEntryView>) {
        (self.title@, entry_views(self.entries@))
    }
}

/// The menu bar: Zlack, File, Edit and Go, in that order.
pub open spec fn menu_bar_spec() -> Seq<(Seq<char>, Seq<MenuEntryView>)> {
    seq![
        ("Zlack"@, app_menu_spec()),
        ("File"@, file_menu_spec()),
        ("Edit"@, edit_menu_spec()),
        ("Go"@, go_menu_spec()),
    ]
}

/// The menus of the menu bar, in order.
pub fn menu_bar() -> (r: Vec<Submenu>)
    ensures
        r@.map_values(|m: Submenu| m@) == menu_bar_spec(),
{
    let r = vec![
        Submenu { title: String::from_str("Zlack"), entries: app_menu_entries() },
        Submenu { title: String::from_str("File"), entries: file_menu_entries() },
        Submenu { title: String::from_str("Edit"), entries: edit_menu_entries() },
        Submenu { title: String::from_str("Go"), entries: go_menu_entries() },
    ];
    assert(r@.map_values(|m: Submenu| m@) =~= menu_bar_spec());
    r
}

/// Law: every item of the File menu does something when chosen: New
/// Message and New Canvas run their Slack action, Close Window hides the
/// main window and Show Main Window shows it.
pub proof fn file_menu_items_act()
    ensures
        forall|i: int|
            0 <= i < file_menu_spec().len() ==> (#[trigger] file_menu_spec()[i] matches MenuEntryView::Item { id, .. } ==> menu_action_spec(id) != MenuAction::Ignore),
{
    reveal_strlit("zlack_file_new_message");
    reveal_strlit("zlack_file_new_canvas");
    reveal_strlit("zlack_file_close_window");
    reveal_strlit("zlack_file_show_main");
    assert(slack_action_shortcuts_spec()[0].0 == "zlack_file_new_message"@);
    assert(slack_action_shortcuts_spec()[1].0 == "zlack_file_new_canvas"@);
    assert(menu_action_spec("zlack_file_new_message"@) == MenuAction::RunSlackShortcut);
    assert(menu_action_spec("zlack_file_new_canvas"@) == MenuAction::RunSlackShortcut);
    assert(menu_action_spec("zlack_file_close_window"@) == MenuAction::HideMainWindow);
    assert("zlack_file_show_main"@.len() != "zlack_file_close_window"@.len());
    assert(menu_action_spec("zlack_file_show_main"@) == MenuAction::ShowMainWindow);
}

/// What choosing a tray menu item does.
#[derive(Clone, Copy, Debug, PartialEq, Eq, Structural)]
pub enum TrayAction {
    /// Quit the app.
    Quit,
    /// Show the main window, creating it if needed.
    ShowMainWindow,
    /// Nothing.
    Ignore,
}

/// The tray menu's dispatch on the chosen item's id.
pub open spec fn tray_action_spec(id: Seq<char>) -> TrayAction {
    if id == "quit"@ {
        TrayAction::Quit
    } else if id == "show"@ {
        TrayAction::ShowMainWindow
    } else {
        TrayAction::Ignore
    }
}

/// Whether the app is on its way out: set once the tray's Quit was chosen.
pub struct AppLifecycle {
    quitting: bool,
}

impl View for AppLifecycle {
    type V = bool;

    closed spec fn view(&self) -> bool {
        self.quitting
    }
}

/// Whether the app is quitting after the tray item `id` was chosen.
pub open spec fn quitting_after_tray(quitting: bool, id: Seq<char>) -> bool {
    quitting || tray_action_spec(id) == TrayAction::Quit
}

/// Whether a request to close a window, or to exit, is held back: only
/// while the app is not quitting (the window is hidden instead).
pub open spec fn request_held_back(quitting: bool) -> bool {
    !quitting
}

impl AppLifecycle {
    /// An app that is not quitting.
    pub fn new() -> (r: AppLifecycle)
        ensures
            !r@,
    {
        AppLifecycle { quitting: false }
    }

    /// Whether the app is quitting.
    pub fn is_quitting(&self) -> (r: bool)
        ensures
            r == self@,
    {
        self.quitting
    }

    /// The tray item `id` was chosen: what to do, and Quit marks the app as
    /// quitting.
    pub fn on_tray_menu(&mut self, id: &str) -> (r: TrayAction)
        ensures
            r == tray_action_spec(id@),
            final(self)@ == quitting_after_tray(old(self)@, id@),
    {
        if str_eq(id, "quit") {
            self.quitting = true;
            TrayAction::Quit
        } else if str_eq(id, "show") {
            TrayAction::ShowMainWindow
        } else {
            TrayAction::Ignore
        }
    }

    /// Whether a window's close request is held back (and the window hidden
    /// instead of closed).
    pub fn hold_back_close(&self) -> (r: bool)
        ensures
            r == request_held_back(self@),
    {
        !self.quitting
    }

    /// Whether a request to exit the app is held back.
    pub fn hold_back_exit(&self) -> (r: bool)
        ensures
            r == request_held_back(self@),
    {
        !self.quitting
    }
}

/// Law: choosing Close Window hides the main window, Show Main Window shows
/// it, an item that has a Slack action binding runs that action, and any
/// other item does nothing.
pub proof fn menu_dispatch_by_id(id: Seq<char>)
    ensures
        id == seq!['z', 'l', 'a', 'c', 'k', '_', 'f', 'i', 'l', 'e', '_', 'c', 'l', 'o', 's', 'e', '_', 'w', 'i', 'n', 'd', 'o', 'w'] ==> menu_action_spec(id) == MenuAction::HideMainWindow,
        id == seq!['z', 'l', 'a', 'c', 'k', '_', 'f', 'i', 'l', 'e', '_', 's', 'h', 'o', 'w', '_', 'm', 'a', 'i', 'n'] ==> menu_action_spec(id) == MenuAction::ShowMainWindow,
        slack_shortcut_binding(id) is Some ==> menu_action_spec(id) == MenuAction::RunSlackShortcut,
        id != seq!['z', 'l', 'a', 'c', 'k', '_', 'f', 'i', 'l', 'e', '_', 'c', 'l', 'o', 's', 'e', '_', 'w', 'i', 'n', 'd', 'o', 'w'] && id != seq!['z', 'l', 'a', 'c', 'k', '_', 'f', 'i', 'l', 'e', '_', 's', 'h', 'o', 'w', '_', 'm', 'a', 'i', 'n']
            && slack_shortcut_binding(id) is None ==> menu_action_spec(id) == MenuAction::Ignore,
{
    reveal_strlit("zlack_file_close_window");
    reveal_strlit("zlack_file_show_main");
    assert("zlack_file_close_window"@ =~= seq!['z', 'l', 'a', 'c', 'k', '_', 'f', 'i', 'l', 'e', '_', 'c', 'l', 'o', 's', 'e', '_', 'w', 'i', 'n', 'd', 'o', 'w']);
    assert("zlack_file_show_main"@ =~= seq!['z', 'l', 'a', 'c', 'k', '_', 'f', 'i', 'l', 'e', '_', 's', 'h', 'o', 'w', '_', 'm', 'a', 'i', 'n']);
    slack_shortcuts_bound_by_id();
    lemma_slack_action_ids_distinct();
    let t = slack_action_shortcuts_spec();
    if slack_shortcut_binding(id) is Some {
        assert(is_slack_action_id(id));
        assert(t[0].0 != "zlack_file_close_window"@ && t[0].0 != "zlack_file_show_main"@) by { reveal_strlit("zlack_file_new_message"); assert("zlack_file_new_message"@.len() != "zlack_file_close_window"@.len() || "zlack_file_new_message"@[11] != "zlack_file_close_window"@[11]); assert("zlack_file_new_message"@.len() != "zlack_file_show_main"@.len() || "zlack_file_new_message"@[11] != "zlack_file_show_main"@[11]); }
        assert(t[1].0 != "zlack_file_close_window"@ && t[1].0 != "zlack_file_show_main"@) by { reveal_strlit("zlack_file_new_canvas"); assert("zlack_file_new_canvas"@.len() != "zlack_file_close_window"@.len() || "zlack_file_new_canvas"@[11] != "zlack_file_close_window"@[11]); assert("zlack_file_new_canvas"@.len() != "zlack_file_show_main"@.len() || "zlack_file_new_canvas"@[11] != "zlack_file_show_main"@[11]); }
        assert(t[2].0 != "zlack_file_close_window"@ && t[2].0 != "zlack_file_show_main"@) by { reveal_strlit("zlack_go_search"); assert("zlack_go_search"@.len() != "zlack_file_close_window"@.len() || "zlack_go_search"@[11] != "zlack_file_close_window"@[11]); assert("zlack_go_search"@.len() != "zlack_file_show_main"@.len() || "zlack_go_search"@[11] != "zlack_file_show_main"@[11]); }
        assert(t[3].0 != "zlack_file_close_window"@ && t[3].0 != "zlack_file_show_main"@) by { reveal_strlit("zlack_go_all_unreads"); assert("zlack_go_all_unreads"@.len() != "zlack_file_close_window"@.len() || "zlack_go_all_unreads"@[11] != "zlack_file_close_window"@[11]); assert("zlack_go_all_unreads"@.len() != "zlack_file_show_main"@.len() || "zlack_go_all_unreads"@[11] != "zlack_file_show_main"@[11]); }
        assert(t[4].0 != "zlack_file_close_window"@ && t[4].0 != "zlack_file_show_main"@) by { reveal_strlit("zlack_go_threads"); assert("zlack_go_threads"@.len() != "zlack_file_close_window"@.len() || "zlack_go_threads"@[11] != "zlack_file_close_window"@[11]); assert("zlack_go_threads"@.len() != "zlack_file_show_main"@.len() || "zlack_go_threads"@[11] != "zlack_file_show_main"@[11]); }
        assert(t[5].0 != "zlack_file_close_window"@ && t[5].0 != "zlack_file_show_main"@) by { reveal_strlit("zlack_go_all_dms"); assert("zlack_go_all_dms"@.len() != "zlack_file_close_window"@.len() || "zlack_go_all_dms"@[11] != "zlack_file_close_window"@[11]); assert("zlack_go_all_dms"@.len() != "zlack_file_show_main"@.len() || "zlack_go_all_dms"@[11] != "zlack_file_show_main"@[11]); }
        assert(t[6].0 != "zlack_file_close_window"@ && t[6].0 != "zlack_file_show_main"@) by { reveal_strlit("zlack_go_activity"); assert("zlack_go_activity"@.len() != "zlack_file_close_window"@.len() || "zlack_go_activity"@[11] != "zlack_file_close_window"@[11]); assert("zlack_go_activity"@.len() != "zlack_file_show_main"@.len() || "zlack_go_activity"@[11] != "zlack_file_show_main"@[11]); }
        assert(t[7].0 != "zlack_file_close_window"@ && t[7].0 != "zlack_file_show_main"@) by { reveal_strlit("zlack_go_channel_browser"); assert("zlack_go_channel_browser"@.len() != "zlack_file_close_window"@.len() || "zlack_go_channel_browser"@[11] != "zlack_file_close_window"@[11]); assert("zlack_go_channel_browser"@.len() != "zlack_file_show_main"@.len() || "zlack_go_channel_browser"@[11] != "zlack_file_show_main"@[11]); }
        assert(t[8].0 != "zlack_file_close_window"@ && t[8].0 != "zlack_file_show_main"@) by { reveal_strlit("zlack_go_people"); assert("zlack_go_people"@.len() != "zlack_file_close_window"@.len() || "zlack_go_people"@[11] != "zlack_file_close_window"@[11]); assert("zlack_go_people"@.len() != "zlack_file_show_main"@.len() || "zlack_go_people"@[11] != "zlack_file_show_main"@[11]); }
        assert(t[9].0 != "zlack_file_close_window"@ && t[9].0 != "zlack_file_show_main"@) by { reveal_strlit("zlack_go_downloads"); assert("zlack_go_downloads"@.len() != "zlack_file_close_window"@.len() || "zlack_go_downloads"@[11] != "zlack_file_close_window"@[11]); assert("zlack_go_downloads"@.len() != "zlack_file_show_main"@.len() || "zlack_go_downloads"@[11] != "zlack_file_show_main"@[11]); }
        assert(t[10].0 != "zlack_file_close_window"@ && t[10].0 != "zlack_file_show_main"@) by { reveal_strlit("zlack_go_history_back"); assert("zlack_go_history_back"@.len() != "zlack_file_close_window"@.len() || "zlack_go_history_back"@[11] != "zlack_file_close_window"@[11]); assert("zlack_go_history_back"@.len() != "zlack_file_show_main"@.len() || "zlack_go_history_back"@[11] != "zlack_file_show_main"@[11]); }
        assert(t[11].0 != "zlack_file_close_window"@ && t[11].0 != "zlack_file_show_main"@) by { reveal_strlit("zlack_go_history_forward"); assert("zlack_go_history_forward"@.len() != "zlack_file_close_window"@.len() || "zlack_go_history_forward"@[11] != "zlack_file_close_window"@[11]); assert("zlack_go_history_forward"@.len() != "zlack_file_show_main"@.len() || "zlack_go_history_forward"@[11] != "zlack_file_show_main"@[11]); }
    }
    if is_slack_action_id(id) {
        let i = choose|i: int| 0 <= i < t.len() && (#[trigger] t[i]).0 == id;
        assert(slack_shortcut_binding(t[i].0) is Some);
    }
}

/// Law: choosing `quit` in the tray quits and marks the app as quitting,
/// `show` shows the main window, anything else does nothing; only `quit`
/// starts quitting.
pub proof fn tray_dispatch_by_id(quitting: bool, id: Seq<char>)
    ensures
        id == seq!['q', 'u', 'i', 't'] ==> tray_action_spec(id) == TrayAction::Quit && quitting_after_tray(quitting, id),
        id == seq!['s', 'h', 'o', 'w'] ==> tray_action_spec(id) == TrayAction::ShowMainWindow,
        id != seq!['q', 'u', 'i', 't'] && id != seq!['s', 'h', 'o', 'w'] ==> tray_action_spec(id) == TrayAction::Ignore,
        quitting_after_tray(quitting, id) == (quitting || id == seq!['q', 'u', 'i', 't']),
{
    reveal_strlit("quit");
    reveal_strlit("show");
    assert("quit"@ =~= seq!['q', 'u', 'i', 't']);
    assert("show"@ =~= seq!['s', 'h', 'o', 'w']);
}

/// Law: once the tray's Quit was chosen the app stays quitting, whatever is
/// chosen after, and no close or exit request is held back any more.
pub proof fn quitting_is_final(quitting: bool, id: Seq<char>)
    requires
        quitting || tray_action_spec(id) == TrayAction::Quit,
    ensures
        quitting_after_tray(quitting, id),
        forall|next: Seq<char>| #[trigger] quitting_after_tray(quitting_after_tray(quitting, id), next),
        !request_held_back(quitting_after_tray(quitting, id)),
{
}

} // verus!
