//! Configurable keybindings of the tiled workspace.

use vstd::prelude::*;

use crate::keys::{KeyCode, KeyEvent, KeyMod};

verus! {

/// The key for each configurable workspace action.
#[derive(Clone, Copy, Debug)]
pub struct WorkspaceKeymap {
    pub toggle_tree: KeyEvent,
    pub toggle_tools: KeyEvent,
    pub zoom: KeyEvent,
    pub focus_left: KeyEvent,
    pub focus_right: KeyEvent,
    pub focus_up: KeyEvent,
    pub focus_down: KeyEvent,
    pub resize_left: KeyEvent,
    pub resize_right: KeyEvent,
    pub resize_up: KeyEvent,
    pub resize_down: KeyEvent,
    pub tab_dropdown: KeyEvent,
    pub tab_dropdown_up: KeyEvent,
    pub tab_dropdown_down: KeyEvent,
    pub tab_next: KeyEvent,
    pub tab_prev: KeyEvent,
    pub tab_close: KeyEvent,
    pub subpanel_focus: KeyEvent,
    pub subpanel_move_tab: KeyEvent,
    pub subpanel_grow: KeyEvent,
    pub subpanel_shrink: KeyEvent,
    pub layout_cycle: KeyEvent,
}

/// A key with the given modifiers.
pub open spec fn key_with(code: KeyCode, m: KeyMod) -> KeyEvent {
    KeyEvent { code: code, modifiers: m }
}

fn key(code: KeyCode, m: KeyMod) -> (k: KeyEvent)
    ensures
        k == key_with(code, m),
{
    KeyEvent { code, modifiers: m }
}

impl WorkspaceKeymap {
    /// Whether `key` is the key bound to `action`: same code and modifiers.
    pub fn matches(&self, key: &KeyEvent, action: &KeyEvent) -> (b: bool)
        ensures
            b == (key.code == action.code && key.modifiers == action.modifiers),
    {
        key.code == action.code && key.modifiers == action.modifiers
    }

    pub fn set_focus_up(&mut self, key: KeyEvent)
        ensures
            *final(self) == (WorkspaceKeymap { focus_up: key, ..*old(self) }),
    {
        self.focus_up = key;
    }

    pub fn set_focus_down(&mut self, key: KeyEvent)
        ensures
            *final(self) == (WorkspaceKeymap { focus_down: key, ..*old(self) }),
    {
        self.focus_down = key;
    }

    pub fn set_tab_dropdown_up(&mut self, key: KeyEvent)
        ensures
            *final(self) == (WorkspaceKeymap { tab_dropdown_up: key, ..*old(self) }),
    {
        self.tab_dropdown_up = key;
    }

    pub fn set_tab_dropdown_down(&mut self, key: KeyEvent)
        ensures
            *final(self) == (WorkspaceKeymap { tab_dropdown_down: key, ..*old(self) }),
    {
        self.tab_dropdown_down = key;
    }

    pub fn set_subpanel_focus(&mut self, key: KeyEvent)
        ensures
            *final(self) == (WorkspaceKeymap { subpanel_focus: key, ..*old(self) }),
    {
        self.subpanel_focus = key;
    }

    pub fn set_subpanel_grow(&mut self, key: KeyEvent)
        ensures
            *final(self) == (WorkspaceKeymap { subpanel_grow: key, ..*old(self) }),
    {
        self.subpanel_grow = key;
    }

    pub fn set_subpanel_shrink(&mut self, key: KeyEvent)
        ensures
            *final(self) == (WorkspaceKeymap { subpanel_shrink: key, ..*old(self) }),
    {
        self.subpanel_shrink = key;
    }

    /// The default bindings, as a value for contracts.
    pub open spec fn default_spec() -> WorkspaceKeymap {
        WorkspaceKeymap {
            toggle_tree: key_with(KeyCode::Char(','), KeyMod { alt: true, ctrl: false, shift: false }),
            toggle_tools: key_with(KeyCode::Char('.'), KeyMod { alt: true, ctrl: false, shift: false }),
            zoom: key_with(KeyCode::Char('/'), KeyMod { alt: true, ctrl: false, shift: false }),
            focus_left: key_with(KeyCode::Left, KeyMod { alt: false, ctrl: true, shift: true }),
            focus_right: key_with(KeyCode::Right, KeyMod { alt: false, ctrl: true, shift: true }),
            focus_up: key_with(KeyCode::Up, KeyMod { alt: true, ctrl: true, shift: false }),
            focus_down: key_with(KeyCode::Down, KeyMod { alt: true, ctrl: true, shift: false }),
            resize_left: key_with(KeyCode::Left, KeyMod { alt: true, ctrl: false, shift: true }),
            resize_right: key_with(KeyCode::Right, KeyMod { alt: true, ctrl: false, shift: true }),
            resize_up: key_with(KeyCode::Up, KeyMod { alt: true, ctrl: false, shift: true }),
            resize_down: key_with(KeyCode::Down, KeyMod { alt: true, ctrl: false, shift: true }),
            tab_dropdown: key_with(KeyCode::Char('0'), KeyMod { alt: true, ctrl: false, shift: false }),
            tab_dropdown_up: key_with(KeyCode::Up, KeyMod { alt: false, ctrl: true, shift: true }),
            tab_dropdown_down: key_with(KeyCode::Down, KeyMod { alt: false, ctrl: true, shift: true }),
            tab_next: key_with(KeyCode::Char(';'), KeyMod { alt: true, ctrl: false, shift: false }),
            tab_prev: key_with(KeyCode::Char('\''), KeyMod { alt: true, ctrl: false, shift: false }),
            tab_close: key_with(KeyCode::Char('w'), KeyMod { alt: true, ctrl: false, shift: false }),
            subpanel_focus: key_with(KeyCode::Char('w'), KeyMod { alt: false, ctrl: true, shift: false }),
            subpanel_move_tab: key_with(KeyCode::Char('w'), KeyMod { alt: true, ctrl: true, shift: false }),
            subpanel_grow: key_with(KeyCode::Char('='), KeyMod { alt: true, ctrl: false, shift: false }),
            subpanel_shrink: key_with(KeyCode::Char('-'), KeyMod { alt: true, ctrl: false, shift: false }),
            layout_cycle: key_with(KeyCode::Char('\\'), KeyMod { alt: true, ctrl: false, shift: false }),
        }
    }
}

impl Default for WorkspaceKeymap {
    /// Alt-, toggles the tree, Alt-. the tools, Alt-/ zooms; Ctrl+Shift
    /// arrows move focus sideways and open the dropdown, Ctrl+Alt arrows
    /// move focus up and down, Alt+Shift arrows resize.
    fn default() -> (k: WorkspaceKeymap)
        ensures
            k == WorkspaceKeymap::default_spec(),
    {
        let alt_m = KeyMod { alt: true, ctrl: false, shift: false };
        let ctrl_m = KeyMod { alt: false, ctrl: true, shift: false };
        let ctrl_shift_m = KeyMod { alt: false, ctrl: true, shift: true };
        let alt_shift_m = KeyMod { alt: true, ctrl: false, shift: true };
        let ctrl_alt_m = KeyMod { alt: true, ctrl: true, shift: false };
        WorkspaceKeymap {
            toggle_tree: key(KeyCode::Char(','), alt_m),
            toggle_tools: key(KeyCode::Char('.'), alt_m),
            zoom: key(KeyCode::Char('/'), alt_m),
            focus_left: key(KeyCode::Left, ctrl_shift_m),
            focus_right: key(KeyCode::Right, ctrl_shift_m),
            focus_up: key(KeyCode::Up, ctrl_alt_m),
            focus_down: key(KeyCode::Down, ctrl_alt_m),
            resize_left: key(KeyCode::Left, alt_shift_m),
            resize_right: key(KeyCode::Right, alt_shift_m),
            resize_up: key(KeyCode::Up, alt_shift_m),
            resize_down: key(KeyCode::Down, alt_shift_m),
            tab_dropdown: key(KeyCode::Char('0'), alt_m),
            tab_dropdown_up: key(KeyCode::Up, ctrl_shift_m),
            tab_dropdown_down: key(KeyCode::Down, ctrl_shift_m),
            tab_next: key(KeyCode::Char(';'), alt_m),
            tab_prev: key(KeyCode::Char('\''), alt_m),
            tab_close: key(KeyCode::Char('w'), alt_m),
            subpanel_focus: key(KeyCode::Char('w'), ctrl_m),
            subpanel_move_tab: key(KeyCode::Char('w'), ctrl_alt_m),
            subpanel_grow: key(KeyCode::Char('='), alt_m),
            subpanel_shrink: key(KeyCode::Char('-'), alt_m),
            layout_cycle: key(KeyCode::Char('\\'), alt_m),
        }
    }
}

} // verus!
