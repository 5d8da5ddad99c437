use vstd::prelude::*;
use vstd::string::StringSliceAdditionalSpecFns;

verus! {

/// One entry of the tray menu.
#[derive(Clone, Copy, Debug, PartialEq, Eq)]
pub enum MenuEntry {
    Item { id: &'static str, label: &'static str },
    Separator,
}

/// What a click on a tray menu item asks for.
#[derive(Clone, Copy, Debug, PartialEq, Eq, Structural)]
pub enum MenuCommand {
    Show,
    Hide,
    Quit,
    /// An item this menu does not know.
    Other,
}

/// The tray menu: show, hide, a separator, quit.
pub fn tray_menu() -> (r: Vec<MenuEntry>)
    ensures
        r@ == seq![
            MenuEntry::Item { id: "show", label: "Show" },
            MenuEntry::Item { id: "hide", label: "Hide" },
            MenuEntry::Separator,
            MenuEntry::Item { id: "quit", label: "Quit" },
        ],
{
    vec![
        MenuEntry::Item { id: "show", label: "Show" },
        MenuEntry::Item { id: "hide", label: "Hide" },
        MenuEntry::Separator,
        MenuEntry::Item { id: "quit", label: "Quit" },
    ]
}

/// The command of the menu item with id bytes `id`.
pub open spec fn command_of(id: Seq<u8>) -> MenuCommand {
    if id == "show".spec_bytes() {
        MenuCommand::Show
    } else if id == "hide".spec_bytes() {
        MenuCommand::Hide
    } else if id == "quit".spec_bytes() {
        MenuCommand::Quit
    } else {
        MenuCommand::Other
    }
}

fn bytes_equal(a: &[u8], b: &[u8]) -> (r: bool)
    ensures
        r == (a@ == b@),
{
    if a.len() != b.len() {
        return false;
    }
    let mut i: usize = 0;
    while i < a.len()
        invariant
            a@.len() == b@.len(),
            0 <= i <= a@.len(),
            forall|j: int| 0 <= j < i ==> a@[j] == b@[j],
        decreases a@.len() - i,
    {
        if a[i] != b[i] {
            return false;
        }
        i = i + 1;
    }
    assert(a@ =~= b@);
    true
}

/// Decides what a click on the menu item `id` does.
pub fn menu_command(id: &str) -> (r: MenuCommand)
    ensures
        r == command_of(id.spec_bytes()),
{
    let b = id.as_bytes();
    if bytes_equal(b, "show".as_bytes()) {
        MenuCommand::Show
    } else if bytes_equal(b, "hide".as_bytes()) {
        MenuCommand::Hide
    } else if bytes_equal(b, "quit".as_bytes()) {
        MenuCommand::Quit
    } else {
        MenuCommand::Other
    }
}

} // verus!
