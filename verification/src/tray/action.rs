//! The events that reach the tray program's event loop.

use vstd::prelude::*;
use crate::text::same_text;
use crate::json::{Json, JsonValue, json_parse, parse_json, plain_text, quoted};

verus! {

/// What the event loop reads of a tray-icon mouse event.
#[derive(Debug, Clone, PartialEq)]
pub enum TrayEvent {
    Click,
    DoubleClick,
    Other,
}

/// An event for the tray program's event loop.
#[derive(Debug, Clone, PartialEq)]
pub enum Action {
    /// A mouse event on the tray icon.
    TrayIconEvent(TrayEvent),
    /// A context-menu selection, by the selected item's id.
    MenuEvent(String),
    ToggleConsole,
    Quit,
    Notification,
    /// A request from the HTTP server to sleep for the given seconds; the
    /// event loop answers it with a reply text.
    Sleep(u64),
    Unknown,
}

/// The name of an action's variant.
pub open spec fn action_name(a: Action) -> Seq<char> {
    match a {
        Action::TrayIconEvent(_) => "TrayIconEvent"@,
        Action::MenuEvent(_) => "MenuEvent"@,
        Action::ToggleConsole => "ToggleConsole"@,
        Action::Quit => "Quit"@,
        Action::Notification => "Notification"@,
        Action::Sleep(_) => "Sleep"@,
        Action::Unknown => "Unknown"@,
    }
}

/// The action that a menu-item id names: the variants without payload
/// that may be named, by their names.
pub open spec fn menu_action(id: Seq<char>) -> Option<Action> {
    if id == "ToggleConsole"@ {
        Some(Action::ToggleConsole)
    } else if id == "Quit"@ {
        Some(Action::Quit)
    } else if id == "Notification"@ {
        Some(Action::Notification)
    } else if id == "Unknown"@ {
        Some(Action::Unknown)
    } else {
        None
    }
}

impl Action {
    /// The variant's name, which the menu uses as item id.
    pub fn name(&self) -> (r: String)
        ensures
            r@ == action_name(*self),
    {
        match self {
            Action::TrayIconEvent(_) => String::from_str("TrayIconEvent"),
            Action::MenuEvent(_) => String::from_str("MenuEvent"),
            Action::ToggleConsole => String::from_str("ToggleConsole"),
            Action::Quit => String::from_str("Quit"),
            Action::Notification => String::from_str("Notification"),
            Action::Sleep(_) => String::from_str("Sleep"),
            Action::Unknown => String::from_str("Unknown"),
        }
    }

    /// The action that a menu-item id names: the id is read as the JSON
    /// string `"<id>"` (escapes and all), and that string must be the name
    /// of a variant without payload.  An id without quotes, backslashes or
    /// control characters names the action spelled exactly so.
    pub fn from_menu_id(id: &str) -> (r: Option<Action>)
        ensures
            r == string_action(json_parse(quoted(id@))),
            plain_text(id@) ==> r == menu_action(id@),
    {
        let text = quote(id);
        match parse_json(text.as_str()) {
            Some(JsonValue::Str(s)) => action_named(s.as_str()),
            _ => None,
        }
    }
}

/// The action named by a parsed JSON value, which must be a string.
pub open spec fn string_action(parsed: Option<Json>) -> Option<Action> {
    match parsed {
        Some(Json::Str(s)) => menu_action(s),
        _ => None,
    }
}

/// The text `"<id>"`.
fn quote(id: &str) -> (t: String)
    ensures
        t@ == quoted(id@),
{
    let mut t = String::from_str("\"");
    t.append(id);
    t.append("\"");
    proof {
        reveal_strlit("\"");
        assert(t@ =~= quoted(id@));
    }
    t
}

/// The action without payload whose name is `name`, if any.
fn action_named(name: &str) -> (r: Option<Action>)
    ensures
        r == menu_action(name@),
{
    if same_text(name, "ToggleConsole") {
        Some(Action::ToggleConsole)
    } else if same_text(name, "Quit") {
        Some(Action::Quit)
    } else if same_text(name, "Notification") {
        Some(Action::Notification)
    } else if same_text(name, "Unknown") {
        Some(Action::Unknown)
    } else {
        None
    }
}

/// An entry of the tray icon's context menu.
#[derive(Debug, Clone, PartialEq)]
pub enum MenuEntry {
    Item { id: String, label: String },
    Separator,
}

/// The context menu: "Console" (toggles the console), a separator, and
/// "Exit" (quits); each item's id is the name of its action.
pub fn tray_menu() -> (menu: Vec<MenuEntry>)
    ensures
        menu@.len() == 3,
        menu@[0] matches MenuEntry::Item { id, label } && id@ == action_name(Action::ToggleConsole)
            && label@ == "Console"@,
        menu@[1] is Separator,
        menu@[2] matches MenuEntry::Item { id, label } && id@ == action_name(Action::Quit)
            && label@ == "Exit"@,
{
    let mut menu: Vec<MenuEntry> = Vec::new();
    menu.push(MenuEntry::Item { id: Action::ToggleConsole.name(), label: String::from_str("Console") });
    menu.push(MenuEntry::Separator);
    menu.push(MenuEntry::Item { id: Action::Quit.name(), label: String::from_str("Exit") });
    menu
}

/// The name of every action that may be named by a menu item leads back to
/// that action: a menu built from action names dispatches the actions it
/// was built from.  The names are plain JSON string content, so reading the
/// menu-item id as a JSON string gives the name unchanged.
pub proof fn law_menu_id_round_trip(a: Action)
    requires
        a is ToggleConsole || a is Quit || a is Notification || a is Unknown,
    ensures
        plain_text(action_name(a)),
        menu_action(action_name(a)) == Some(a),
{
    reveal_strlit("ToggleConsole");
    reveal_strlit("Quit");
    reveal_strlit("Notification");
    reveal_strlit("Unknown");
    assert("Quit"@.len() != "ToggleConsole"@.len());
    assert("Notification"@.len() != "ToggleConsole"@.len());
    assert("Notification"@.len() != "Quit"@.len());
    assert("Unknown"@.len() != "ToggleConsole"@.len());
    assert("Unknown"@.len() != "Quit"@.len());
    assert("Unknown"@.len() != "Notification"@.len());
}

/// Every item of the context menu names an action.
pub proof fn law_menu_items_name_actions(menu: Seq<MenuEntry>)
    requires
        menu.len() == 3,
        menu[0] matches MenuEntry::Item { id, label } && id@ == action_name(Action::ToggleConsole),
        menu[1] is Separator,
        menu[2] matches MenuEntry::Item { id, label } && id@ == action_name(Action::Quit),
    ensures
        forall|i: int|
            0 <= i < menu.len() ==> (#[trigger] menu[i] matches MenuEntry::Item { id, label }
                ==> menu_action(id@) is Some),
{
    law_menu_id_round_trip(Action::ToggleConsole);
    law_menu_id_round_trip(Action::Quit);
}

} // verus!
