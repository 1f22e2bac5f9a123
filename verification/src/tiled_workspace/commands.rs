//! Command identifiers of the tiled workspace.
//!
//! Each constant is the command's offset from the workspace's command
//! base, the first identifier after the core toolkit's commands. Commands
//! act on the focused panel unless noted; a few take a panel or tab index
//! as payload.

use vstd::prelude::*;

verus! {

/// Toggle the tree (left) panel.
pub const CM_TW_TOGGLE_TREE: u32 = 0;
/// Toggle the tools (right or bottom) panel.
pub const CM_TW_TOGGLE_TOOLS: u32 = 1;
/// Show a panel. Payload: panel index.
pub const CM_TW_SHOW_PANEL: u32 = 2;
/// Hide a panel. Payload: panel index.
pub const CM_TW_HIDE_PANEL: u32 = 3;
/// Toggle zoom on the focused panel.
pub const CM_TW_ZOOM: u32 = 4;
/// Focus the panel to the left.
pub const CM_TW_FOCUS_LEFT: u32 = 5;
/// Focus the panel to the right.
pub const CM_TW_FOCUS_RIGHT: u32 = 6;
/// Focus the panel above.
pub const CM_TW_FOCUS_UP: u32 = 7;
/// Focus the panel below.
pub const CM_TW_FOCUS_DOWN: u32 = 8;
/// Grow the focused panel horizontally.
pub const CM_TW_GROW_H: u32 = 9;
/// Shrink the focused panel horizontally.
pub const CM_TW_SHRINK_H: u32 = 10;
/// Grow the focused panel vertically.
pub const CM_TW_GROW_V: u32 = 11;
/// Shrink the focused panel vertically.
pub const CM_TW_SHRINK_V: u32 = 12;
/// Open the tab dropdown.
pub const CM_TW_TAB_DROPDOWN: u32 = 13;
/// Activate a tab by index. Payload: tab index.
pub const CM_TW_ACTIVATE_TAB: u32 = 14;
/// Cycle the layout mode.
pub const CM_TW_LAYOUT_CYCLE: u32 = 15;
/// Cycle focus between subpanels.
pub const CM_TW_CYCLE_SUBPANEL: u32 = 16;
/// Move the active tab to the other subpanel.
pub const CM_TW_MOVE_TAB_SUBPANEL: u32 = 17;
/// Grow the focused subpanel.
pub const CM_TW_GROW_SUBPANEL: u32 = 18;
/// Shrink the focused subpanel.
pub const CM_TW_SHRINK_SUBPANEL: u32 = 19;
/// Focus a panel. Payload: panel index.
pub const CM_TW_FOCUS_PANEL: u32 = 20;
/// Move the dropdown selection up.
pub const CM_TW_TAB_DROPDOWN_UP: u32 = 21;
/// Move the dropdown selection down.
pub const CM_TW_TAB_DROPDOWN_DOWN: u32 = 22;
/// Close the dropdown, confirming the selection.
pub const CM_TW_TAB_DROPDOWN_CLOSE: u32 = 23;
/// Next tab.
pub const CM_TW_TAB_NEXT: u32 = 24;
/// Previous tab.
pub const CM_TW_TAB_PREV: u32 = 25;
/// Close the active tab.
pub const CM_TW_TAB_CLOSE: u32 = 26;
/// Split the focused panel top/bottom.
pub const CM_TW_SPLIT_H: u32 = 27;
/// Split the focused panel left/right.
pub const CM_TW_SPLIT_V: u32 = 28;
/// Close the focused subpanel.
pub const CM_TW_CLOSE_SUBPANEL: u32 = 29;
/// Close the other subpanel, keeping the focused one.
pub const CM_TW_CLOSE_OTHER_SUBPANEL: u32 = 30;
/// Equalize subpanel proportions.
pub const CM_TW_EQUALIZE_SUBPANEL: u32 = 31;
/// Last offset of the workspace's command range.
pub const CM_TW_MAX: u32 = 49;

} // verus!
