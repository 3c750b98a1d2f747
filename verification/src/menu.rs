//! The tray menu blueprint.
//!
//! The menu is built once at startup and never changes: three entries with
//! fixed ids and labels.  The ids are the only values the coordinator ever
//! dispatches on; the labels are display text.

use vstd::prelude::*;

verus! {

/// One tray menu entry as the host should construct it.
#[derive(Clone, Debug)]
pub struct MenuItemDef {
    /// The stable id the menu event will carry back.
    pub id: String,
    /// The text shown to the user.
    pub label: String,
    /// Whether the entry can be selected.
    pub enabled: bool,
}

/// The fixed tray menu: open, capture, quit — in that order, all enabled.
pub fn tray_menu_blueprint() -> (items: Vec<MenuItemDef>)
    ensures
        items@.len() == 3,
        items@[0].id@ == "open"@,
        items@[0].label@ == "Open Glimt"@,
        items@[0].enabled,
        items@[1].id@ == "capture"@,
        items@[1].label@ == "Quick Capture"@,
        items@[1].enabled,
        items@[2].id@ == "quit"@,
        items@[2].label@ == "Quit"@,
        items@[2].enabled,
{
    let mut items: Vec<MenuItemDef> = Vec::new();
    items.push(MenuItemDef {
        id: String::from_str("open"),
        label: String::from_str("Open Glimt"),
        enabled: true,
    });
    items.push(MenuItemDef {
        id: String::from_str("capture"),
        label: String::from_str("Quick Capture"),
        enabled: true,
    });
    items.push(MenuItemDef {
        id: String::from_str("quit"),
        label: String::from_str("Quit"),
        enabled: true,
    });
    items
}

} // verus!
