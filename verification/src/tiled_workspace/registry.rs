//! The workspace's commands as entries for the command registry.

use vstd::prelude::*;

use super::commands::{CM_TW_CYCLE_SUBPANEL, CM_TW_FOCUS_DOWN, CM_TW_FOCUS_LEFT, CM_TW_FOCUS_RIGHT, CM_TW_FOCUS_UP, CM_TW_GROW_H, CM_TW_GROW_SUBPANEL, CM_TW_GROW_V, CM_TW_LAYOUT_CYCLE, CM_TW_MOVE_TAB_SUBPANEL, CM_TW_SHRINK_H, CM_TW_SHRINK_SUBPANEL, CM_TW_SHRINK_V, CM_TW_TAB_CLOSE, CM_TW_TAB_DROPDOWN, CM_TW_TAB_DROPDOWN_CLOSE, CM_TW_TAB_DROPDOWN_DOWN, CM_TW_TAB_DROPDOWN_UP, CM_TW_TAB_NEXT, CM_TW_TAB_PREV, CM_TW_TOGGLE_TOOLS, CM_TW_TOGGLE_TREE, CM_TW_ZOOM};

verus! {

/// A command's registry entry: id (offset from the workspace's command
/// base), short name, title and description.
pub struct CommandMeta {
    pub id: u32,
    pub name: String,
    pub title: String,
    pub description: String,
}

impl CommandMeta {
    pub fn new(id: u32, name: &str, title: &str, description: &str) -> (m: CommandMeta)
        ensures
            m.id == id,
            m.name@ == name@,
            m.title@ == title@,
            m.description@ == description@,
    {
        CommandMeta {
            id,
            name: String::from_str(name),
            title: String::from_str(title),
            description: String::from_str(description),
        }
    }
}

/// A registry entry as values: id, name, title, description.
pub open spec fn meta_view(m: CommandMeta) -> (u32, Seq<char>, Seq<char>, Seq<char>) {
    (m.id, m.name@, m.title@, m.description@)
}

/// The entries the workspace registers, in registration order: panel
/// visibility, focus navigation, resizing, tabs, layout, subpanels.
pub open spec fn workspace_commands() -> Seq<(u32, Seq<char>, Seq<char>, Seq<char>)> {
    seq![
        (CM_TW_TOGGLE_TREE, "toggle-tree"@, "Toggle tree panel"@, "Show or hide the tree panel"@),
        (CM_TW_TOGGLE_TOOLS, "toggle-tools"@, "Toggle tools panel"@, "Show or hide the tools panel"@),
        (CM_TW_ZOOM, "zoom"@, "Zoom panel"@, "Maximize the focused panel"@),
        (CM_TW_FOCUS_LEFT, "focus-left"@, "Focus left"@, "Move focus to the panel on the left"@),
        (CM_TW_FOCUS_RIGHT, "focus-right"@, "Focus right"@, "Move focus to the panel on the right"@),
        (CM_TW_FOCUS_UP, "focus-up"@, "Focus up"@, "Move focus to the panel above"@),
        (CM_TW_FOCUS_DOWN, "focus-down"@, "Focus down"@, "Move focus to the panel below"@),
        (CM_TW_GROW_H, "grow-h"@, "Grow horizontal"@, "Increase the width of the focused panel"@),
        (CM_TW_SHRINK_H, "shrink-h"@, "Shrink horizontal"@, "Decrease the width of the focused panel"@),
        (CM_TW_GROW_V, "grow-v"@, "Grow vertical"@, "Increase the height of the focused panel"@),
        (CM_TW_SHRINK_V, "shrink-v"@, "Shrink vertical"@, "Decrease the height of the focused panel"@),
        (CM_TW_TAB_DROPDOWN, "tab-dropdown"@, "Tab dropdown"@, "Open the tab dropdown menu"@),
        (CM_TW_TAB_DROPDOWN_UP, "tab-dropdown-up"@, "Dropdown up"@, "Move selection up in dropdown"@),
        (CM_TW_TAB_DROPDOWN_DOWN, "tab-dropdown-down"@, "Dropdown down"@, "Move selection down in dropdown"@),
        (CM_TW_TAB_DROPDOWN_CLOSE, "tab-dropdown-close"@, "Close dropdown"@, "Close the tab dropdown"@),
        (CM_TW_TAB_NEXT, "tab-next"@, "Next tab"@, "Switch to the next tab"@),
        (CM_TW_TAB_PREV, "tab-prev"@, "Previous tab"@, "Switch to the previous tab"@),
        (CM_TW_TAB_CLOSE, "tab-close"@, "Close tab"@, "Close the active tab"@),
        (CM_TW_LAYOUT_CYCLE, "layout-cycle"@, "Cycle layout"@, "Cycle through layout modes"@),
        (CM_TW_CYCLE_SUBPANEL, "cycle-subpanel"@, "Cycle subpanel"@, "Cycle focus between subpanels"@),
        (CM_TW_MOVE_TAB_SUBPANEL, "move-tab"@, "Move tab"@, "Move the active tab to the other subpanel"@),
        (CM_TW_GROW_SUBPANEL, "grow-subpanel"@, "Grow subpanel"@, "Increase the size of the focused subpanel"@),
        (CM_TW_SHRINK_SUBPANEL, "shrink-subpanel"@, "Shrink subpanel"@, "Decrease the size of the focused subpanel"@),
    ]
}

/// The workspace's command entries, to be registered once at startup.
pub fn register_commands() -> (r: Vec<CommandMeta>)
    ensures
        r@.map_values(|m: CommandMeta| meta_view(m)) == workspace_commands(),
{
    let mut r: Vec<CommandMeta> = Vec::new();
    r.push(CommandMeta::new(CM_TW_TOGGLE_TREE, "toggle-tree", "Toggle tree panel", "Show or hide the tree panel"));
    r.push(CommandMeta::new(CM_TW_TOGGLE_TOOLS, "toggle-tools", "Toggle tools panel", "Show or hide the tools panel"));
    r.push(CommandMeta::new(CM_TW_ZOOM, "zoom", "Zoom panel", "Maximize the focused panel"));
    r.push(CommandMeta::new(CM_TW_FOCUS_LEFT, "focus-left", "Focus left", "Move focus to the panel on the left"));
    r.push(CommandMeta::new(CM_TW_FOCUS_RIGHT, "focus-right", "Focus right", "Move focus to the panel on the right"));
    r.push(CommandMeta::new(CM_TW_FOCUS_UP, "focus-up", "Focus up", "Move focus to the panel above"));
    r.push(CommandMeta::new(CM_TW_FOCUS_DOWN, "focus-down", "Focus down", "Move focus to the panel below"));
    r.push(CommandMeta::new(CM_TW_GROW_H, "grow-h", "Grow horizontal", "Increase the width of the focused panel"));
    r.push(CommandMeta::new(CM_TW_SHRINK_H, "shrink-h", "Shrink horizontal", "Decrease the width of the focused panel"));
    r.push(CommandMeta::new(CM_TW_GROW_V, "grow-v", "Grow vertical", "Increase the height of the focused panel"));
    r.push(CommandMeta::new(CM_TW_SHRINK_V, "shrink-v", "Shrink vertical", "Decrease the height of the focused panel"));
    r.push(CommandMeta::new(CM_TW_TAB_DROPDOWN, "tab-dropdown", "Tab dropdown", "Open the tab dropdown menu"));
    r.push(CommandMeta::new(CM_TW_TAB_DROPDOWN_UP, "tab-dropdown-up", "Dropdown up", "Move selection up in dropdown"));
    r.push(CommandMeta::new(CM_TW_TAB_DROPDOWN_DOWN, "tab-dropdown-down", "Dropdown down", "Move selection down in dropdown"));
    r.push(CommandMeta::new(CM_TW_TAB_DROPDOWN_CLOSE, "tab-dropdown-close", "Close dropdown", "Close the tab dropdown"));
    r.push(CommandMeta::new(CM_TW_TAB_NEXT, "tab-next", "Next tab", "Switch to the next tab"));
    r.push(CommandMeta::new(CM_TW_TAB_PREV, "tab-prev", "Previous tab", "Switch to the previous tab"));
    r.push(CommandMeta::new(CM_TW_TAB_CLOSE, "tab-close", "Close tab", "Close the active tab"));
    r.push(CommandMeta::new(CM_TW_LAYOUT_CYCLE, "layout-cycle", "Cycle layout", "Cycle through layout modes"));
    r.push(CommandMeta::new(CM_TW_CYCLE_SUBPANEL, "cycle-subpanel", "Cycle subpanel", "Cycle focus between subpanels"));
    r.push(CommandMeta::new(CM_TW_MOVE_TAB_SUBPANEL, "move-tab", "Move tab", "Move the active tab to the other subpanel"));
    r.push(CommandMeta::new(CM_TW_GROW_SUBPANEL, "grow-subpanel", "Grow subpanel", "Increase the size of the focused subpanel"));
    r.push(CommandMeta::new(CM_TW_SHRINK_SUBPANEL, "shrink-subpanel", "Shrink subpanel", "Decrease the size of the focused subpanel"));
    assert(r@.map_values(|m: CommandMeta| meta_view(m)) =~= workspace_commands());
    r
}

} // verus!
