//! The tray menu: how process states are shown, what a click asks for, and
//! which bridge output announces a WeChat login.
use vstd::prelude::*;
use crate::commands::FullState;
use crate::monitor::log_buffer::LogEntry;
use crate::process::manager::{is_active, ProcessStateKind};
use crate::text::{
    chars_of, contains, contains_spec, slice_chars, starts_with, starts_with_spec, str_eq,
    string_of,
};

verus! {

/// The symbol shown before a process in the menu.
pub open spec fn state_symbol_spec(state: ProcessStateKind) -> Seq<char> {
    match state {
        ProcessStateKind::Running => "●"@,
        ProcessStateKind::Stopped => "○"@,
        ProcessStateKind::Starting => "◐"@,
        ProcessStateKind::Stopping => "◐"@,
        ProcessStateKind::Failed => "✕"@,
    }
}

/// The word shown for a process state in the menu.
pub open spec fn state_label_spec(state: ProcessStateKind) -> Seq<char> {
    match state {
        ProcessStateKind::Running => "运行中"@,
        ProcessStateKind::Stopped => "已停止"@,
        ProcessStateKind::Starting => "启动中"@,
        ProcessStateKind::Stopping => "停止中"@,
        ProcessStateKind::Failed => "异常"@,
    }
}

/// The symbol shown before a process in the menu.
pub fn state_symbol(state: &ProcessStateKind) -> (r: &'static str)
    ensures
        r@ == state_symbol_spec(*state),
{
    match state {
        ProcessStateKind::Running => "●",
        ProcessStateKind::Stopped => "○",
        ProcessStateKind::Starting => "◐",
        ProcessStateKind::Stopping => "◐",
        ProcessStateKind::Failed => "✕",
    }
}

/// The word shown for a process state in the menu.
pub fn state_label(state: &ProcessStateKind) -> (r: &'static str)
    ensures
        r@ == state_label_spec(*state),
{
    match state {
        ProcessStateKind::Running => "运行中",
        ProcessStateKind::Stopped => "已停止",
        ProcessStateKind::Starting => "启动中",
        ProcessStateKind::Stopping => "停止中",
        ProcessStateKind::Failed => "异常",
    }
}

/// The menu item id of server `server_id`.
pub fn server_menu_id(server_id: &str) -> (r: String)
    ensures
        r@ == "server:"@ + server_id@,
{
    let mut r = String::from_str("server:");
    r.append(server_id);
    r
}

/// The text of a server's menu item: `<symbol> <name>: <label>`.
pub fn server_menu_text(state: &ProcessStateKind, name: &str) -> (r: String)
    ensures
        r@ == state_symbol_spec(*state) + " "@ + name@ + ": "@ + state_label_spec(*state),
{
    let mut r = String::from_str(state_symbol(state));
    r.append(" ");
    r.append(name);
    r.append(": ");
    r.append(state_label(state));
    r
}

/// The text of the bridge's menu item: `<symbol> bridge: <label>`.
pub fn bridge_menu_text(state: &ProcessStateKind) -> (r: String)
    ensures
        r@ == state_symbol_spec(*state) + " bridge: "@ + state_label_spec(*state),
{
    let mut r = String::from_str(state_symbol(state));
    r.append(" bridge: ");
    r.append(state_label(state));
    r
}

/// What a click on a menu item asks for.
#[derive(Debug, Clone, PartialEq, Eq)]
pub enum MenuAction {
    ShowWindow,
    Quit,
    ToggleServer(String),
    ToggleBridge,
    Ignore,
}

/// A menu action as plain values.
pub enum MenuActionView {
    ShowWindow,
    Quit,
    ToggleServer(Seq<char>),
    ToggleBridge,
    Ignore,
}

impl View for MenuAction {
    type V = MenuActionView;

    open spec fn view(&self) -> MenuActionView {
        match self {
            MenuAction::ShowWindow => MenuActionView::ShowWindow,
            MenuAction::Quit => MenuActionView::Quit,
            MenuAction::ToggleServer(id) => MenuActionView::ToggleServer(id@),
            MenuAction::ToggleBridge => MenuActionView::ToggleBridge,
            MenuAction::Ignore => MenuActionView::Ignore,
        }
    }
}

/// The action of menu item `id`: `show`, `quit`, `server:<server id>`, `bridge`, or nothing.
pub open spec fn menu_action_spec(id: Seq<char>) -> MenuActionView {
    if id == "show"@ {
        MenuActionView::ShowWindow
    } else if id == "quit"@ {
        MenuActionView::Quit
    } else if starts_with_spec(id, "server:"@) {
        MenuActionView::ToggleServer(id.skip(7))
    } else if id == "bridge"@ {
        MenuActionView::ToggleBridge
    } else {
        MenuActionView::Ignore
    }
}

/// Reads the action of a clicked menu item.
pub fn menu_action(id: &str) -> (r: MenuAction)
    ensures
        r@ == menu_action_spec(id@),
{
    if str_eq(id, "show") {
        return MenuAction::ShowWindow;
    }
    if str_eq(id, "quit") {
        return MenuAction::Quit;
    }
    let v = chars_of(id);
    let prefix = chars_of("server:");
    proof {
        reveal_strlit("server:");
    }
    if starts_with(&v, &prefix) {
        let rest = slice_chars(&v, 7, v.len());
        assert(rest@ =~= id@.skip(7));
        return MenuAction::ToggleServer(string_of(&rest));
    }
    if str_eq(id, "bridge") {
        return MenuAction::ToggleBridge;
    }
    MenuAction::Ignore
}

/// What clicking a process's menu item does in its current state.
#[derive(Debug, Clone, Copy, PartialEq, Eq, Structural)]
pub enum Toggle {
    Start,
    Stop,
    Wait,
}

/// A stopped or failed process is started, a running one stopped, and one
/// in transition left alone.
pub open spec fn toggle_spec(state: ProcessStateKind) -> Toggle {
    match state {
        ProcessStateKind::Stopped => Toggle::Start,
        ProcessStateKind::Failed => Toggle::Start,
        ProcessStateKind::Running => Toggle::Stop,
        ProcessStateKind::Starting => Toggle::Wait,
        ProcessStateKind::Stopping => Toggle::Wait,
    }
}

/// What clicking a process's menu item does in state `state`.
pub fn toggle_for(state: ProcessStateKind) -> (r: Toggle)
    ensures
        r == toggle_spec(state),
{
    match state {
        ProcessStateKind::Stopped | ProcessStateKind::Failed => Toggle::Start,
        ProcessStateKind::Running => Toggle::Stop,
        ProcessStateKind::Starting | ProcessStateKind::Stopping => Toggle::Wait,
    }
}

/// The lowercase form of a text, per character's Unicode lowercase mapping
/// (`str::to_lowercase`).
pub uninterp spec fn lowercase_spec(s: Seq<char>) -> Seq<char>;

/// Lowercases `s` (`str::to_lowercase`).
#[verifier::external_body]
fn lowercase(s: &str) -> (r: String)
    ensures
        r@ == lowercase_spec(s@),
{
    s.to_lowercase()
}

/// Output of the bridge, at info level, that reports a finished WeChat
/// login: its lowercase form contains `logged in` or `login success`, or the
/// line contains `登录成功`.
pub open spec fn is_login_report_spec(source: Seq<char>, level: Seq<char>, line: Seq<char>) -> bool {
    &&& source == "bridge"@
    &&& level == "info"@
    &&& (contains_spec(lowercase_spec(line), "logged in"@) || contains_spec(
        lowercase_spec(line),
        "login success"@,
    ) || contains_spec(line, "登录成功"@))
}

/// Whether `entry` reports a finished WeChat login.
pub fn is_login_report(entry: &LogEntry) -> (r: bool)
    ensures
        r == is_login_report_spec(entry.source@, entry.level@, entry.line@),
{
    if !str_eq(entry.source.as_str(), "bridge") || !str_eq(entry.level.as_str(), "info") {
        return false;
    }
    let lower = chars_of(lowercase(entry.line.as_str()).as_str());
    let line = chars_of(entry.line.as_str());
    contains(&lower, &chars_of("logged in")) || contains(&lower, &chars_of("login success"))
        || contains(&line, &chars_of("登录成功"))
}

/// One entry of the tray menu.
#[derive(Debug, Clone, PartialEq, Eq)]
pub enum TrayItem {
    /// A clickable item: its id, and the text shown.
    Item(String, String),
    Separator,
}

/// A tray menu entry as plain values.
pub enum TrayItemView {
    Item(Seq<char>, Seq<char>),
    Separator,
}

impl View for TrayItem {
    type V = TrayItemView;

    open spec fn view(&self) -> TrayItemView {
        match self {
            TrayItem::Item(id, text) => TrayItemView::Item(id@, text@),
            TrayItem::Separator => TrayItemView::Separator,
        }
    }
}

/// The menu item of server `id` named `name`, in state `state`.
pub open spec fn server_item_spec(id: Seq<char>, name: Seq<char>, state: ProcessStateKind) -> TrayItemView {
    TrayItemView::Item(
        "server:"@ + id,
        state_symbol_spec(state) + " "@ + name + ": "@ + state_label_spec(state),
    )
}

/// The entries that follow the servers: the bridge, a separator, "show the
/// main window", a separator, "quit".
pub open spec fn menu_tail_spec(bridge: ProcessStateKind) -> Seq<TrayItemView> {
    seq![
        TrayItemView::Item("bridge"@, state_symbol_spec(bridge) + " bridge: "@ + state_label_spec(bridge)),
        TrayItemView::Separator,
        TrayItemView::Item("show"@, "显示主窗口"@),
        TrayItemView::Separator,
        TrayItemView::Item("quit"@, "退出"@),
    ]
}

/// The tray menu for `state`: one item per server, in order, then the
/// bridge's item, the window item and the quit item, with separators.
pub fn tray_menu(state: &FullState) -> (r: Vec<TrayItem>)
    ensures
        r.len() == state.servers.len() + 5,
        forall|i: int|
            0 <= i < state.servers.len() ==> (#[trigger] r@[i])@ == server_item_spec(
                state.servers@[i].id@,
                state.servers@[i].name@,
                state.servers@[i].state.state,
            ),
        forall|j: int|
            0 <= j < 5 ==> (#[trigger] r@[state.servers.len() + j])@ == menu_tail_spec(
                state.bridge.state,
            )[j],
{
    let mut r: Vec<TrayItem> = Vec::new();
    let mut i: usize = 0;
    while i < state.servers.len()
        invariant
            i <= state.servers.len(),
            r.len() == i,
            forall|k: int|
                0 <= k < i ==> (#[trigger] r@[k])@ == server_item_spec(
                    state.servers@[k].id@,
                    state.servers@[k].name@,
                    state.servers@[k].state.state,
                ),
        decreases state.servers.len() - i,
    {
        let s = &state.servers[i];
        r.push(TrayItem::Item(server_menu_id(s.id.as_str()), server_menu_text(&s.state.state, s.name.as_str())));
        i += 1;
    }
    r.push(TrayItem::Item(String::from_str("bridge"), bridge_menu_text(&state.bridge.state)));
    r.push(TrayItem::Separator);
    r.push(TrayItem::Item(String::from_str("show"), String::from_str("显示主窗口")));
    r.push(TrayItem::Separator);
    r.push(TrayItem::Item(String::from_str("quit"), String::from_str("退出")));
    r
}

/// Law: clicking an item of the tray menu asks for what the item shows: a
/// server's item toggles that server, the bridge's toggles the bridge, and
/// the other two show the window and quit.
pub proof fn law_menu_items_ask_for_what_they_show(id: Seq<char>, name: Seq<char>, state: ProcessStateKind, bridge: ProcessStateKind)
    ensures
        server_item_spec(id, name, state) matches TrayItemView::Item(item_id, _)
            && menu_action_spec(item_id) == MenuActionView::ToggleServer(id),
        menu_tail_spec(bridge)[0] matches TrayItemView::Item(item_id, _)
            && menu_action_spec(item_id) == MenuActionView::ToggleBridge,
        menu_tail_spec(bridge)[2] matches TrayItemView::Item(item_id, _)
            && menu_action_spec(item_id) == MenuActionView::ShowWindow,
        menu_tail_spec(bridge)[4] matches TrayItemView::Item(item_id, _)
            && menu_action_spec(item_id) == MenuActionView::Quit,
{
    reveal_strlit("server:");
    reveal_strlit("show");
    reveal_strlit("quit");
    reveal_strlit("bridge");
    let full = "server:"@ + id;
    assert(full.take(7) =~= "server:"@);
    assert(full.skip(7) =~= id);
    assert(full.len() >= 7);
    assert(full != "show"@);
    assert(full != "quit"@);
    assert(!starts_with_spec("bridge"@, "server:"@));
    assert("bridge"@ != "show"@) by {
        assert("bridge"@.len() != "show"@.len());
    }
    assert("bridge"@ != "quit"@) by {
        assert("bridge"@.len() != "quit"@.len());
    }
    assert("quit"@ != "show"@) by {
        assert("quit"@[0] != "show"@[0]);
    }
}

/// Law: clicking a stopped or failed process starts it, clicking a running
/// one stops it, and a process that is starting or stopping is left alone;
/// a click never asks to start a process the lifecycle would refuse to start.
pub proof fn law_click_starts_idle_and_stops_running(s: ProcessStateKind)
    ensures
        s == ProcessStateKind::Stopped ==> toggle_spec(s) == Toggle::Start,
        s == ProcessStateKind::Failed ==> toggle_spec(s) == Toggle::Start,
        s == ProcessStateKind::Running ==> toggle_spec(s) == Toggle::Stop,
        s == ProcessStateKind::Starting || s == ProcessStateKind::Stopping ==> toggle_spec(s)
            == Toggle::Wait,
        toggle_spec(s) == Toggle::Start ==> !is_active(s),
        toggle_spec(s) == Toggle::Stop ==> is_active(s),
{
}

} // verus!
