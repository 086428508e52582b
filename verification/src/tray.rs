//! The tray icon: its menu, its tooltip, and what a menu choice does.

use vstd::prelude::*;

verus! {

/// What the application does in answer to the tray.
#[derive(Clone, Copy, Debug, PartialEq, Eq)]
pub enum TrayCommand {
    /// Show the main window and give it the focus.
    ShowWindow,
    /// Leave the application.
    Quit,
    /// Nothing.
    Ignore,
}

/// An entry of the tray menu.
#[derive(Debug, PartialEq, Eq)]
pub enum MenuEntry {
    Item { id: String, label: String },
    Separator,
}

/// The command of a menu item id.
pub open spec fn command_for(id: Seq<char>) -> TrayCommand {
    if id == "show"@ {
        TrayCommand::ShowWindow
    } else if id == "quit"@ {
        TrayCommand::Quit
    } else {
        TrayCommand::Ignore
    }
}

/// The command for the menu item with this id: `show` shows the window,
/// `quit` leaves, anything else is ignored.
pub fn menu_command(id: &str) -> (command: TrayCommand)
    ensures
        command == command_for(id@),
{
    let chosen = String::from_str(id);
    if chosen == String::from_str("show") {
        TrayCommand::ShowWindow
    } else if chosen == String::from_str("quit") {
        TrayCommand::Quit
    } else {
        TrayCommand::Ignore
    }
}

/// The tray menu: "表示" (show), a separator, "終了" (quit).
pub fn tray_menu() -> (menu: Vec<MenuEntry>)
    ensures
        menu@.len() == 3,
        menu@[0] matches MenuEntry::Item { id, label } && id@ == "show"@ && label@ == "表示"@,
        menu@[1] is Separator,
        menu@[2] matches MenuEntry::Item { id, label } && id@ == "quit"@ && label@ == "終了"@,
{
    let mut menu: Vec<MenuEntry> = Vec::new();
    menu.push(MenuEntry::Item { id: String::from_str("show"), label: String::from_str("表示") });
    menu.push(MenuEntry::Separator);
    menu.push(MenuEntry::Item { id: String::from_str("quit"), label: String::from_str("終了") });
    menu
}

/// The tooltip of the tray icon.
pub fn tray_tooltip() -> (tooltip: String)
    ensures
        tooltip@ == "iRodoRi - Display Optimizer"@,
{
    String::from_str("iRodoRi - Display Optimizer")
}

/// Every item of the tray menu is acted on: its id selects a command other
/// than `Ignore`, and the two items select different commands.
pub proof fn lemma_menu_items_handled(menu: Seq<MenuEntry>)
    requires
        menu.len() == 3,
        menu[0] matches MenuEntry::Item { id, label } && id@ == "show"@,
        menu[1] is Separator,
        menu[2] matches MenuEntry::Item { id, label } && id@ == "quit"@,
    ensures
        forall|i: int|
            0 <= i < menu.len() ==> (#[trigger] menu[i] matches MenuEntry::Item { id, label }
                ==> command_for(id@) != TrayCommand::Ignore),
        menu[0] matches MenuEntry::Item { id, label } && command_for(id@) == TrayCommand::ShowWindow,
        menu[2] matches MenuEntry::Item { id, label } && command_for(id@) == TrayCommand::Quit,
{
    reveal_strlit("show");
    reveal_strlit("quit");
    assert("quit"@[0] != "show"@[0]);
}

/// Only the two menu ids do anything: every other id is ignored, `show`
/// shows the window and `quit` leaves.
pub proof fn lemma_only_menu_ids_act(id: Seq<char>)
    ensures
        command_for("show"@) == TrayCommand::ShowWindow,
        command_for("quit"@) == TrayCommand::Quit,
        command_for(id) != TrayCommand::Ignore ==> id == "show"@ || id == "quit"@,
{
    reveal_strlit("show");
    reveal_strlit("quit");
    assert("quit"@[0] != "show"@[0]);
}

} // verus!
