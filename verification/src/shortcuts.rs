//! Global keyboard shortcut definitions and their platform display strings.

use vstd::prelude::*;
use crate::chrome::Platform;
use crate::models::ShortcutInfo;

verus! {

/// The default shortcut string for the search overlay, with the
/// platform-resolving meta key.
pub fn shortcut_search() -> (r: &'static str)
    ensures
        r@ == "CmdOrCtrl+Shift+S"@,
{
    "CmdOrCtrl+Shift+S"
}

/// The default shortcut string for the quick add dialog, with the
/// platform-resolving meta key.
pub fn shortcut_quick_add() -> (r: &'static str)
    ensures
        r@ == "CmdOrCtrl+Shift+A"@,
{
    "CmdOrCtrl+Shift+A"
}

/// The key combination users actually press for the search shortcut on the
/// given platform.
pub fn get_search_shortcut_display(platform: Platform) -> (r: &'static str)
    ensures
        platform == Platform::MacOs ==> r@ == "Cmd+Shift+S"@,
        platform != Platform::MacOs ==> r@ == "Ctrl+Shift+S"@,
{
    match platform {
        Platform::MacOs => "Cmd+Shift+S",
        _ => "Ctrl+Shift+S",
    }
}

/// The key combination users actually press for the quick add shortcut on
/// the given platform.
pub fn get_quick_add_shortcut_display(platform: Platform) -> (r: &'static str)
    ensures
        platform == Platform::MacOs ==> r@ == "Cmd+Shift+A"@,
        platform != Platform::MacOs ==> r@ == "Ctrl+Shift+A"@,
{
    match platform {
        Platform::MacOs => "Cmd+Shift+A",
        _ => "Ctrl+Shift+A",
    }
}

/// Information about the two built-in shortcuts.
pub fn get_default_shortcuts() -> (r: Vec<ShortcutInfo>)
    ensures
        r@.len() == 2,
        r@[0].shortcut@ == "CmdOrCtrl+Shift+S"@,
        r@[0].description@ == "Open search overlay"@,
        r@[0].is_default == true,
        r@[1].shortcut@ == "CmdOrCtrl+Shift+A"@,
        r@[1].description@ == "Open quick add dialog"@,
        r@[1].is_default == true,
{
    let mut r: Vec<ShortcutInfo> = Vec::new();
    r.push(
        ShortcutInfo {
            shortcut: "CmdOrCtrl+Shift+S".to_owned(),
            description: "Open search overlay".to_owned(),
            is_default: true,
        },
    );
    r.push(
        ShortcutInfo {
            shortcut: "CmdOrCtrl+Shift+A".to_owned(),
            description: "Open quick add dialog".to_owned(),
            is_default: true,
        },
    );
    r
}

} // verus!
