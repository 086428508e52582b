use irodori::autostart::{disable_command, enable_command, query_command};
use irodori::tray::{menu_command, tray_menu, tray_tooltip, MenuEntry, TrayCommand};

const RUN_KEY: &str = "HKCU\\Software\\Microsoft\\Windows\\CurrentVersion\\Run";

#[test]
fn enable_command_registers_the_executable() {
    let command = enable_command("C:\\Apps\\irodori.exe");
    assert_eq!(command.program, "reg");
    assert_eq!(
        command.args,
        vec!["add", RUN_KEY, "/v", "iRodoRi", "/t", "REG_SZ", "/d", "C:\\Apps\\irodori.exe", "/f"]
    );
}

#[test]
fn disable_and_query_commands() {
    let disable = disable_command();
    assert_eq!(disable.program, "reg");
    assert_eq!(disable.args, vec!["delete", RUN_KEY, "/v", "iRodoRi", "/f"]);
    let query = query_command();
    assert_eq!(query.program, "reg");
    assert_eq!(query.args, vec!["query", RUN_KEY, "/v", "iRodoRi"]);
}

#[test]
fn commands_name_the_same_entry() {
    let enable = enable_command("x.exe");
    let disable = disable_command();
    let query = query_command();
    assert_eq!(enable.args[1..4], disable.args[1..4]);
    assert_eq!(disable.args[1..4], query.args[1..4]);
}

#[test]
fn menu_commands() {
    assert_eq!(menu_command("show"), TrayCommand::ShowWindow);
    assert_eq!(menu_command("quit"), TrayCommand::Quit);
    assert_eq!(menu_command("Show"), TrayCommand::Ignore);
    assert_eq!(menu_command(""), TrayCommand::Ignore);
    assert_eq!(menu_command("quit "), TrayCommand::Ignore);
}

#[test]
fn tray_menu_layout_and_every_item_is_handled() {
    let menu = tray_menu();
    assert_eq!(menu.len(), 3);
    assert_eq!(menu[0], MenuEntry::Item { id: "show".to_string(), label: "表示".to_string() });
    assert_eq!(menu[1], MenuEntry::Separator);
    assert_eq!(menu[2], MenuEntry::Item { id: "quit".to_string(), label: "終了".to_string() });
    for entry in &menu {
        if let MenuEntry::Item { id, .. } = entry {
            assert_ne!(menu_command(id), TrayCommand::Ignore);
        }
    }
    assert_eq!(tray_tooltip(), "iRodoRi - Display Optimizer");
}
