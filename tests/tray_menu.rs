use sideband::{menu_command, tray_menu, MenuCommand, MenuEntry};

#[test]
fn tray_menu_layout() {
    let menu = tray_menu();
    assert_eq!(
        menu,
        vec![
            MenuEntry::Item { id: "show", label: "Show" },
            MenuEntry::Item { id: "hide", label: "Hide" },
            MenuEntry::Separator,
            MenuEntry::Item { id: "quit", label: "Quit" },
        ]
    );
}

#[test]
fn menu_item_commands() {
    assert_eq!(menu_command("show"), MenuCommand::Show);
    assert_eq!(menu_command("hide"), MenuCommand::Hide);
    assert_eq!(menu_command("quit"), MenuCommand::Quit);
    assert_eq!(menu_command("Quit"), MenuCommand::Other);
    assert_eq!(menu_command("sho"), MenuCommand::Other);
    assert_eq!(menu_command(""), MenuCommand::Other);
}
