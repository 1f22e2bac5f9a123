//! How the tiled workspace answers command events and keys.
//!
//! Commands and keys change the workspace's panel state and the focused
//! panel's tab state directly. What needs the split layout trees or the
//! subpanel splitter comes back as a [`WorkspaceEffect`] for the caller
//! to carry out.

use vstd::prelude::*;

use super::commands::{
    CM_TW_ACTIVATE_TAB, CM_TW_CLOSE_OTHER_SUBPANEL, CM_TW_CLOSE_SUBPANEL, CM_TW_CYCLE_SUBPANEL,
    CM_TW_EQUALIZE_SUBPANEL, CM_TW_FOCUS_DOWN, CM_TW_FOCUS_LEFT, CM_TW_FOCUS_PANEL, CM_TW_FOCUS_RIGHT,
    CM_TW_FOCUS_UP, CM_TW_GROW_H, CM_TW_GROW_SUBPANEL, CM_TW_GROW_V, CM_TW_HIDE_PANEL, CM_TW_LAYOUT_CYCLE,
    CM_TW_MOVE_TAB_SUBPANEL, CM_TW_SHOW_PANEL, CM_TW_SHRINK_H, CM_TW_SHRINK_SUBPANEL, CM_TW_SHRINK_V,
    CM_TW_TAB_DROPDOWN, CM_TW_TAB_DROPDOWN_CLOSE, CM_TW_TAB_DROPDOWN_DOWN, CM_TW_TAB_DROPDOWN_UP,
    CM_TW_TAB_CLOSE, CM_TW_TAB_NEXT, CM_TW_TAB_PREV, CM_TW_TOGGLE_TOOLS, CM_TW_TOGGLE_TREE, CM_TW_ZOOM,
};
use super::keymap::WorkspaceKeymap;
use super::types::{PanelPosition, SplitDir};
use super::workspace::{TiledWorkspace, TiledWorkspaceState};
use crate::geometry::Rect;
use crate::keys::{HandleResult, KeyEvent};
use crate::tab_panel::{TabPanel, TabPanelState};

verus! {

/// A command's payload, as far as the workspace reads it.
#[derive(Clone, Copy, Debug, PartialEq, Eq, Structural)]
pub enum Payload {
    /// No payload.
    Empty,
    /// A `usize` value.
    Usize(usize),
    /// A `u16` value.
    U16(u16),
    /// A value of any other type.
    Other,
}

/// The index a payload carries: a `usize`, or a `u16` widened.
pub open spec fn payload_usize(p: Payload) -> Option<usize> {
    match p {
        Payload::Usize(v) => Some(v),
        Payload::U16(v) => Some(v as usize),
        _ => None,
    }
}

/// The index a payload carries, if it is a `usize` or a `u16`.
pub fn extract_usize(data: &Payload) -> (r: Option<usize>)
    ensures
        r == payload_usize(*data),
{
    match data {
        Payload::Usize(v) => Some(*v),
        Payload::U16(v) => Some(*v as usize),
        _ => None,
    }
}

/// Work that a command or key leaves to the caller.
#[derive(Clone, Copy, Debug, PartialEq, Eq, Structural)]
pub enum WorkspaceEffect {
    /// Nothing more to do.
    Nothing,
    /// Shift the focused panel's share in the active layout: direction and
    /// step.
    Resize(SplitDir, i16),
    /// The focused panel opened its tab dropdown at these bounds.
    DropdownOpened(Rect),
    /// Move the open dropdown's selection up.
    DropdownUp,
    /// Move the open dropdown's selection down.
    DropdownDown,
    /// Cycle focus between the focused panel's subpanels.
    CycleSubpanel,
    /// Move the active tab to the other subpanel.
    MoveTabToSubpanel,
    /// Grow the focused subpanel.
    GrowSubpanel,
    /// Shrink the focused subpanel.
    ShrinkSubpanel,
    /// Close the focused subpanel.
    CloseSubpanel,
    /// Close the other subpanel.
    CloseOtherSubpanel,
    /// Give the subpanels equal shares.
    EqualizeSubpanel,
    /// The focused panel closed its active tab; the child at this index
    /// of the panel's group is gone.
    TabClosed(usize),
}

/// Commands on panel visibility, focus by index and zoom.
pub open spec fn is_panel_cmd(id: u32) -> bool {
    id == CM_TW_TOGGLE_TREE || id == CM_TW_TOGGLE_TOOLS || id == CM_TW_SHOW_PANEL || id == CM_TW_HIDE_PANEL
        || id == CM_TW_FOCUS_PANEL || id == CM_TW_ZOOM
}

/// Commands that move focus between panels or resize them.
pub open spec fn is_focus_resize_cmd(id: u32) -> bool {
    CM_TW_FOCUS_LEFT <= id <= CM_TW_SHRINK_V
}

/// The resize a command asks for: direction and step.
pub open spec fn resize_of(id: u32) -> Option<(SplitDir, i16)> {
    if id == CM_TW_GROW_H {
        Some((SplitDir::Horizontal, 2i16))
    } else if id == CM_TW_SHRINK_H {
        Some((SplitDir::Horizontal, -2i16))
    } else if id == CM_TW_GROW_V {
        Some((SplitDir::Vertical, 1i16))
    } else if id == CM_TW_SHRINK_V {
        Some((SplitDir::Vertical, -1i16))
    } else {
        None
    }
}

/// The direction a focus command moves in.
pub open spec fn focus_delta(id: u32) -> Option<(i16, i16)> {
    if id == CM_TW_FOCUS_LEFT {
        Some((-1i16, 0i16))
    } else if id == CM_TW_FOCUS_RIGHT {
        Some((1i16, 0i16))
    } else if id == CM_TW_FOCUS_UP {
        Some((0i16, -1i16))
    } else if id == CM_TW_FOCUS_DOWN {
        Some((0i16, 1i16))
    } else {
        None
    }
}

/// Commands on the focused panel's tabs, and the layout cycle.
pub open spec fn is_tab_cmd(id: u32) -> bool {
    id == CM_TW_TAB_DROPDOWN || id == CM_TW_TAB_DROPDOWN_UP || id == CM_TW_TAB_DROPDOWN_DOWN
        || id == CM_TW_TAB_DROPDOWN_CLOSE || id == CM_TW_ACTIVATE_TAB || id == CM_TW_LAYOUT_CYCLE
        || id == CM_TW_TAB_NEXT || id == CM_TW_TAB_PREV || id == CM_TW_TAB_CLOSE
}

/// Commands that may open the focused panel's tab dropdown.
pub open spec fn is_dropdown_open_cmd(id: u32) -> bool {
    id == CM_TW_TAB_DROPDOWN || id == CM_TW_TAB_DROPDOWN_UP || id == CM_TW_TAB_DROPDOWN_DOWN
}

/// The subpanel work a command asks for.
pub open spec fn subpanel_effect(id: u32) -> Option<WorkspaceEffect> {
    if id == CM_TW_CYCLE_SUBPANEL {
        Some(WorkspaceEffect::CycleSubpanel)
    } else if id == CM_TW_MOVE_TAB_SUBPANEL {
        Some(WorkspaceEffect::MoveTabToSubpanel)
    } else if id == CM_TW_GROW_SUBPANEL {
        Some(WorkspaceEffect::GrowSubpanel)
    } else if id == CM_TW_SHRINK_SUBPANEL {
        Some(WorkspaceEffect::ShrinkSubpanel)
    } else if id == CM_TW_CLOSE_SUBPANEL {
        Some(WorkspaceEffect::CloseSubpanel)
    } else if id == CM_TW_CLOSE_OTHER_SUBPANEL {
        Some(WorkspaceEffect::CloseOtherSubpanel)
    } else if id == CM_TW_EQUALIZE_SUBPANEL {
        Some(WorkspaceEffect::EqualizeSubpanel)
    } else {
        None
    }
}

/// Whether the workspace answers command `id`.
pub open spec fn is_workspace_cmd(id: u32) -> bool {
    is_panel_cmd(id) || is_focus_resize_cmd(id) || is_tab_cmd(id) || subpanel_effect(id) is Some
}

impl TiledWorkspaceState {
    /// The tools panel: the first on the right, else the first at the bottom.
    pub open spec fn tools_panel(self) -> Option<usize> {
        match self.panel_at(PanelPosition::Right) {
            Some(i) => Some(i),
            None => self.panel_at(PanelPosition::Bottom),
        }
    }

    /// The state after a panel command.
    #[verifier::opaque]
    pub open spec fn after_panel_cmd(self, id: u32, p: Payload) -> TiledWorkspaceState {
        if id == CM_TW_TOGGLE_TREE {
            match self.panel_at(PanelPosition::Left) {
                Some(i) => self.after_toggle(i),
                None => self,
            }
        } else if id == CM_TW_TOGGLE_TOOLS {
            match self.tools_panel() {
                Some(i) => self.after_toggle(i),
                None => self,
            }
        } else if id == CM_TW_SHOW_PANEL {
            match payload_usize(p) {
                Some(i) => self.after_show(i),
                None => self,
            }
        } else if id == CM_TW_HIDE_PANEL {
            match payload_usize(p) {
                Some(i) => self.after_hide(i),
                None => self,
            }
        } else if id == CM_TW_FOCUS_PANEL {
            match payload_usize(p) {
                Some(i) => self.after_focus_panel(i),
                None => self,
            }
        } else if id == CM_TW_ZOOM {
            self.after_toggle_zoom()
        } else {
            self
        }
    }

    /// The state after a focus command (resizing leaves it unchanged).
    #[verifier::opaque]
    pub open spec fn after_focus_cmd(self, id: u32, area: Seq<bool>) -> TiledWorkspaceState {
        match focus_delta(id) {
            Some((dx, dy)) => self.after_focus_direction(dx, dy, area),
            None => self,
        }
    }

    /// The workspace state after command `id`.
    pub open spec fn after_command(self, id: u32, p: Payload, area: Seq<bool>) -> TiledWorkspaceState {
        if is_panel_cmd(id) {
            self.after_panel_cmd(id, p)
        } else if is_focus_resize_cmd(id) {
            self.after_focus_cmd(id, area)
        } else if id == CM_TW_LAYOUT_CYCLE {
            self.after_cycle_layout()
        } else {
            self
        }
    }
}

/// The focused panel's state after tab command `id`, and what is left to
/// the caller.
#[verifier::opaque]
pub open spec fn tab_cmd_on_panel(id: u32, p: Payload, can_close: bool, s: TabPanelState) -> (TabPanelState, WorkspaceEffect) {
    if id == CM_TW_TAB_CLOSE {
        if can_close && s.bar.len() > 0 {
            (
                TabPanelState { bar: s.bar.removed(s.bar.active), ..s },
                WorkspaceEffect::TabClosed((s.bar.active + 1) as usize),
            )
        } else {
            (s, WorkspaceEffect::Nothing)
        }
    } else if id == CM_TW_TAB_DROPDOWN {
        if s.dropdown_active {
            (s, WorkspaceEffect::Nothing)
        } else {
            (s.with_dropdown(), WorkspaceEffect::DropdownOpened(s.opened_rect()))
        }
    } else if id == CM_TW_TAB_DROPDOWN_UP || id == CM_TW_TAB_DROPDOWN_DOWN {
        if s.dropdown_active {
            (s, if id == CM_TW_TAB_DROPDOWN_UP { WorkspaceEffect::DropdownUp } else { WorkspaceEffect::DropdownDown })
        } else if s.bar.len() > 1 {
            (s.with_dropdown(), WorkspaceEffect::DropdownOpened(s.opened_rect()))
        } else {
            (s, WorkspaceEffect::Nothing)
        }
    } else if id == CM_TW_TAB_DROPDOWN_CLOSE {
        (s.after_close_dropdown(), WorkspaceEffect::Nothing)
    } else if id == CM_TW_ACTIVATE_TAB {
        match payload_usize(p) {
            Some(i) => (s.after_activate_number((i + 1) as nat), WorkspaceEffect::Nothing),
            None => (s, WorkspaceEffect::Nothing),
        }
    } else if id == CM_TW_TAB_NEXT {
        (s.after_tab_next(), WorkspaceEffect::Nothing)
    } else if id == CM_TW_TAB_PREV {
        (s.after_tab_prev(), WorkspaceEffect::Nothing)
    } else {
        (s, WorkspaceEffect::Nothing)
    }
}

/// What command `id` leaves to the caller, given the focused panel's state
/// (`None` when the focused panel has no tabs to act on).
pub open spec fn command_effect(id: u32, p: Payload, can_close: bool, panel: Option<TabPanelState>) -> WorkspaceEffect {
    match resize_of(id) {
        Some((d, step)) => WorkspaceEffect::Resize(d, step),
        None => match subpanel_effect(id) {
            Some(e) => e,
            None => if is_tab_cmd(id) {
                match panel {
                    Some(s) => tab_cmd_on_panel(id, p, can_close, s).1,
                    None => WorkspaceEffect::Nothing,
                }
            } else {
                WorkspaceEffect::Nothing
            },
        },
    }
}

/// The panel's state is in order.
pub open spec fn panel_ready(panel: Option<TabPanel>) -> bool {
    panel matches Some(p) ==> p.wf()
}

/// A dropdown the panel opens would fit.
pub open spec fn panel_open_fits(panel: Option<TabPanel>) -> bool {
    panel matches Some(p) ==> p@.open_fits()
}

/// The view of an optional panel.
pub open spec fn panel_view(panel: Option<TabPanel>) -> Option<TabPanelState> {
    match panel {
        Some(p) => Some(p@),
        None => None,
    }
}

impl TiledWorkspace {
    fn handle_panel_cmd(&mut self, id: u32, data: &Payload) -> (consumed: bool)
        requires
            old(self).wf(),
        ensures
            final(self).wf(),
            consumed == is_panel_cmd(id),
            final(self)@ == old(self)@.after_panel_cmd(id, *data),
            !consumed ==> final(self)@ == old(self)@,
    {
        reveal(TiledWorkspaceState::after_panel_cmd);
        if id == CM_TW_TOGGLE_TREE {
            match self.find_panel_by_position(PanelPosition::Left) {
                Some(i) => self.toggle_panel(i),
                None => {},
            }
            true
        } else if id == CM_TW_TOGGLE_TOOLS {
            let pid = match self.find_panel_by_position(PanelPosition::Right) {
                Some(i) => Some(i),
                None => self.find_panel_by_position(PanelPosition::Bottom),
            };
            match pid {
                Some(i) => self.toggle_panel(i),
                None => {},
            }
            true
        } else if id == CM_TW_SHOW_PANEL {
            match extract_usize(data) {
                Some(i) => self.show_panel(i),
                None => {},
            }
            true
        } else if id == CM_TW_HIDE_PANEL {
            match extract_usize(data) {
                Some(i) => self.hide_panel(i),
                None => {},
            }
            true
        } else if id == CM_TW_FOCUS_PANEL {
            match extract_usize(data) {
                Some(i) => self.focus_panel(i),
                None => {},
            }
            true
        } else if id == CM_TW_ZOOM {
            self.toggle_zoom();
            true
        } else {
            false
        }
    }

    fn handle_focus_resize_cmd(&mut self, id: u32, has_area: &Vec<bool>) -> (r: (bool, Option<(SplitDir, i16)>))
        requires
            old(self).wf(),
            has_area.len() == old(self)@.len(),
        ensures
            final(self).wf(),
            r.0 == is_focus_resize_cmd(id),
            r.1 == resize_of(id),
            final(self)@ == old(self)@.after_focus_cmd(id, has_area@),
            !r.0 ==> final(self)@ == old(self)@,
    {
        reveal(TiledWorkspaceState::after_focus_cmd);
        if id == CM_TW_FOCUS_LEFT {
            self.focus_direction(-1, 0, has_area);
            (true, None)
        } else if id == CM_TW_FOCUS_RIGHT {
            self.focus_direction(1, 0, has_area);
            (true, None)
        } else if id == CM_TW_FOCUS_UP {
            self.focus_direction(0, -1, has_area);
            (true, None)
        } else if id == CM_TW_FOCUS_DOWN {
            self.focus_direction(0, 1, has_area);
            (true, None)
        } else if id == CM_TW_GROW_H {
            (true, Some((SplitDir::Horizontal, 2)))
        } else if id == CM_TW_SHRINK_H {
            (true, Some((SplitDir::Horizontal, -2)))
        } else if id == CM_TW_GROW_V {
            (true, Some((SplitDir::Vertical, 1)))
        } else if id == CM_TW_SHRINK_V {
            (true, Some((SplitDir::Vertical, -1)))
        } else {
            (false, None)
        }
    }
}

/// Tab command `id` on the focused panel.
fn tab_cmd_panel(id: u32, data: &Payload, can_close: bool, panel: &mut TabPanel) -> (e: WorkspaceEffect)
    requires
        old(panel).wf(),
        is_dropdown_open_cmd(id) ==> old(panel)@.open_fits(),
        id == CM_TW_ACTIVATE_TAB && payload_usize(*data) is Some ==> payload_usize(*data).unwrap() < usize::MAX,
    ensures
        final(panel).wf(),
        (final(panel)@, e) == tab_cmd_on_panel(id, *data, can_close, old(panel)@),
{
    reveal(tab_cmd_on_panel);
    if id == CM_TW_TAB_CLOSE {
        if can_close {
            match panel.close_active() {
                Some(g) => WorkspaceEffect::TabClosed(g),
                None => WorkspaceEffect::Nothing,
            }
        } else {
            WorkspaceEffect::Nothing
        }
    } else if id == CM_TW_TAB_DROPDOWN {
        match panel.open_dropdown() {
            Some(r) => WorkspaceEffect::DropdownOpened(r),
            None => WorkspaceEffect::Nothing,
        }
    } else if id == CM_TW_TAB_DROPDOWN_UP || id == CM_TW_TAB_DROPDOWN_DOWN {
        if panel.dropdown_open() {
            if id == CM_TW_TAB_DROPDOWN_UP {
                WorkspaceEffect::DropdownUp
            } else {
                WorkspaceEffect::DropdownDown
            }
        } else if panel.tab_count() > 1 {
            match panel.open_dropdown() {
                Some(r) => WorkspaceEffect::DropdownOpened(r),
                None => WorkspaceEffect::Nothing,
            }
        } else {
            WorkspaceEffect::Nothing
        }
    } else if id == CM_TW_TAB_DROPDOWN_CLOSE {
        panel.close_dropdown();
        WorkspaceEffect::Nothing
    } else if id == CM_TW_ACTIVATE_TAB {
        match extract_usize(data) {
            Some(i) => panel.activate_by_label(i + 1),
            None => {},
        }
        WorkspaceEffect::Nothing
    } else if id == CM_TW_TAB_NEXT {
        panel.tab_next();
        WorkspaceEffect::Nothing
    } else if id == CM_TW_TAB_PREV {
        panel.tab_prev();
        WorkspaceEffect::Nothing
    } else {
        WorkspaceEffect::Nothing
    }
}

impl TiledWorkspace {
    /// Answer a workspace command. `has_area` tells, per panel, whether it
    /// has a non-empty area; `panel` is the focused panel's tab state, when
    /// it has one; `can_close` tells whether the view in its active tab
    /// agrees to be closed. Returns whether the command was the
    /// workspace's, and what is left to the caller.
    pub fn handle_command(
        &mut self,
        id: u32,
        data: &Payload,
        has_area: &Vec<bool>,
        can_close: bool,
        panel: &mut Option<TabPanel>,
    ) -> (r: (bool, WorkspaceEffect))
        requires
            old(self).wf(),
            has_area.len() == old(self)@.len(),
            panel_ready(*old(panel)),
            is_dropdown_open_cmd(id) ==> panel_open_fits(*old(panel)),
            id == CM_TW_ACTIVATE_TAB && payload_usize(*data) is Some ==> payload_usize(*data).unwrap() < usize::MAX,
        ensures
            final(self).wf(),
            panel_ready(*final(panel)),
            r.0 == is_workspace_cmd(id),
            r.1 == command_effect(id, *data, can_close, panel_view(*old(panel))),
            final(self)@ == old(self)@.after_command(id, *data, has_area@),
            panel_view(*final(panel)) == (match panel_view(*old(panel)) {
                Some(s) => Some(if is_tab_cmd(id) { tab_cmd_on_panel(id, *data, can_close, s).0 } else { s }),
                None => None,
            }),
    {
        if self.handle_panel_cmd(id, data) {
            return (true, WorkspaceEffect::Nothing);
        }
        let (fr, resize) = self.handle_focus_resize_cmd(id, has_area);
        if fr {
            return match resize {
                Some((d, step)) => (true, WorkspaceEffect::Resize(d, step)),
                None => (true, WorkspaceEffect::Nothing),
            };
        }
        if id == CM_TW_LAYOUT_CYCLE {
            proof {
                reveal(tab_cmd_on_panel);
            }
            self.cycle_layout();
            return (true, WorkspaceEffect::Nothing);
        }
        if id == CM_TW_TAB_DROPDOWN || id == CM_TW_TAB_DROPDOWN_UP || id == CM_TW_TAB_DROPDOWN_DOWN
            || id == CM_TW_TAB_DROPDOWN_CLOSE || id == CM_TW_ACTIVATE_TAB || id == CM_TW_TAB_NEXT
            || id == CM_TW_TAB_PREV || id == CM_TW_TAB_CLOSE {
            let e = match panel {
                Some(p) => tab_cmd_panel(id, data, can_close, p),
                None => WorkspaceEffect::Nothing,
            };
            return (true, e);
        }
        if id == CM_TW_CYCLE_SUBPANEL {
            (true, WorkspaceEffect::CycleSubpanel)
        } else if id == CM_TW_MOVE_TAB_SUBPANEL {
            (true, WorkspaceEffect::MoveTabToSubpanel)
        } else if id == CM_TW_GROW_SUBPANEL {
            (true, WorkspaceEffect::GrowSubpanel)
        } else if id == CM_TW_SHRINK_SUBPANEL {
            (true, WorkspaceEffect::ShrinkSubpanel)
        } else if id == CM_TW_CLOSE_SUBPANEL {
            (true, WorkspaceEffect::CloseSubpanel)
        } else if id == CM_TW_CLOSE_OTHER_SUBPANEL {
            (true, WorkspaceEffect::CloseOtherSubpanel)
        } else if id == CM_TW_EQUALIZE_SUBPANEL {
            (true, WorkspaceEffect::EqualizeSubpanel)
        } else {
            (false, WorkspaceEffect::Nothing)
        }
    }
}

/// What a key bound in the workspace's keymap does.
#[derive(Clone, Copy, Debug, PartialEq, Eq, Structural)]
pub enum KeyStep {
    /// Open the focused panel's tab dropdown.
    OpenDropdown,
    /// Cycle the layout mode.
    CycleLayout,
    /// Next tab in the focused panel.
    TabNext,
    /// Previous tab in the focused panel.
    TabPrev,
    /// Move the active tab to the other subpanel.
    MoveTab,
    /// Toggle a panel's visibility.
    Toggle(usize),
    /// Toggle zoom.
    Zoom,
    /// Move focus in a direction.
    Focus(i16, i16),
    /// Resize the focused panel.
    Resize(SplitDir, i16),
}

/// Whether `key` is the key bound to `action`.
pub open spec fn is_key(key: KeyEvent, action: KeyEvent) -> bool {
    key.code == action.code && key.modifiers == action.modifiers
}

/// Whether the focused panel can open its dropdown: it exists, has more
/// than one tab, and (for the up/down keys) the dropdown is closed.
pub open spec fn can_open(panel: Option<TabPanelState>, must_be_closed: bool) -> bool {
    panel matches Some(p) && p.bar.len() > 1 && (!must_be_closed || !p.dropdown_active)
}

/// The step for keys on panels and focus, checked after the tab keys.
pub open spec fn panel_key_step(km: WorkspaceKeymap, key: KeyEvent, s: TiledWorkspaceState, panel: Option<TabPanelState>) -> Option<KeyStep> {
    let dd_open = panel matches Some(p) && p.dropdown_active;
    if is_key(key, km.toggle_tree) && s.panel_at(PanelPosition::Left) is Some {
        Some(KeyStep::Toggle(s.panel_at(PanelPosition::Left).unwrap()))
    } else if is_key(key, km.toggle_tools) && s.tools_panel() is Some {
        Some(KeyStep::Toggle(s.tools_panel().unwrap()))
    } else if is_key(key, km.zoom) {
        Some(KeyStep::Zoom)
    } else if !dd_open && is_key(key, km.focus_left) {
        Some(KeyStep::Focus(-1i16, 0i16))
    } else if !dd_open && is_key(key, km.focus_right) {
        Some(KeyStep::Focus(1i16, 0i16))
    } else if !dd_open && is_key(key, km.focus_up) {
        Some(KeyStep::Focus(0i16, -1i16))
    } else if !dd_open && is_key(key, km.focus_down) {
        Some(KeyStep::Focus(0i16, 1i16))
    } else if is_key(key, km.resize_left) {
        Some(KeyStep::Resize(SplitDir::Horizontal, -1i16))
    } else if is_key(key, km.resize_right) {
        Some(KeyStep::Resize(SplitDir::Horizontal, 1i16))
    } else if is_key(key, km.resize_up) {
        Some(KeyStep::Resize(SplitDir::Vertical, -1i16))
    } else if is_key(key, km.resize_down) {
        Some(KeyStep::Resize(SplitDir::Vertical, 1i16))
    } else {
        None
    }
}

/// The step a key takes. The tab keys come first: the dropdown keys open
/// the dropdown when they can and otherwise fall through to the panel
/// keys; the layout, tab and subpanel keys always act.
pub open spec fn key_step(km: WorkspaceKeymap, key: KeyEvent, s: TiledWorkspaceState, panel: Option<TabPanelState>) -> Option<KeyStep> {
    if is_key(key, km.tab_dropdown) {
        if can_open(panel, false) { Some(KeyStep::OpenDropdown) } else { panel_key_step(km, key, s, panel) }
    } else if is_key(key, km.tab_dropdown_down) || is_key(key, km.tab_dropdown_up) {
        if can_open(panel, true) { Some(KeyStep::OpenDropdown) } else { panel_key_step(km, key, s, panel) }
    } else if is_key(key, km.layout_cycle) {
        Some(KeyStep::CycleLayout)
    } else if is_key(key, km.tab_next) {
        Some(KeyStep::TabNext)
    } else if is_key(key, km.tab_prev) {
        Some(KeyStep::TabPrev)
    } else if is_key(key, km.subpanel_move_tab) {
        Some(KeyStep::MoveTab)
    } else {
        panel_key_step(km, key, s, panel)
    }
}

impl TiledWorkspaceState {
    /// The workspace state after a key step.
    pub open spec fn after_step(self, step: KeyStep, area: Seq<bool>) -> TiledWorkspaceState {
        match step {
            KeyStep::CycleLayout => self.after_cycle_layout(),
            KeyStep::Toggle(i) => self.after_toggle(i),
            KeyStep::Zoom => self.after_toggle_zoom(),
            KeyStep::Focus(dx, dy) => self.after_focus_direction(dx, dy, area),
            _ => self,
        }
    }
}

/// The focused panel's state after a key step.
pub open spec fn panel_after_step(step: KeyStep, p: TabPanelState) -> TabPanelState {
    match step {
        KeyStep::OpenDropdown => if p.dropdown_active { p } else { p.with_dropdown() },
        KeyStep::TabNext => p.after_tab_next(),
        KeyStep::TabPrev => p.after_tab_prev(),
        _ => p,
    }
}

/// What a key step leaves to the caller.
pub open spec fn step_effect(step: KeyStep, panel: Option<TabPanelState>) -> WorkspaceEffect {
    match step {
        KeyStep::OpenDropdown => match panel {
            Some(p) => if p.dropdown_active { WorkspaceEffect::Nothing } else { WorkspaceEffect::DropdownOpened(p.opened_rect()) },
            None => WorkspaceEffect::Nothing,
        },
        KeyStep::MoveTab => WorkspaceEffect::MoveTabToSubpanel,
        KeyStep::Resize(d, n) => WorkspaceEffect::Resize(d, n),
        _ => WorkspaceEffect::Nothing,
    }
}

impl TiledWorkspace {
    fn panel_key_step(&self, key: &KeyEvent, panel: &Option<TabPanel>) -> (r: Option<KeyStep>)
        requires
            self.wf(),
        ensures
            r == panel_key_step(self@.keymap, *key, self@, panel_view(*panel)),
    {
        let km = self.keymap();
        let dd_open = match panel {
            Some(p) => p.dropdown_open(),
            None => false,
        };
        if km.matches(key, &km.toggle_tree) {
            match self.find_panel_by_position(PanelPosition::Left) {
                Some(i) => { return Some(KeyStep::Toggle(i)); },
                None => {},
            }
        }
        if km.matches(key, &km.toggle_tools) {
            let pid = match self.find_panel_by_position(PanelPosition::Right) {
                Some(i) => Some(i),
                None => self.find_panel_by_position(PanelPosition::Bottom),
            };
            match pid {
                Some(i) => { return Some(KeyStep::Toggle(i)); },
                None => {},
            }
        }
        if km.matches(key, &km.zoom) {
            return Some(KeyStep::Zoom);
        }
        if !dd_open {
            if km.matches(key, &km.focus_left) {
                return Some(KeyStep::Focus(-1, 0));
            }
            if km.matches(key, &km.focus_right) {
                return Some(KeyStep::Focus(1, 0));
            }
            if km.matches(key, &km.focus_up) {
                return Some(KeyStep::Focus(0, -1));
            }
            if km.matches(key, &km.focus_down) {
                return Some(KeyStep::Focus(0, 1));
            }
        }
        if km.matches(key, &km.resize_left) {
            Some(KeyStep::Resize(SplitDir::Horizontal, -1))
        } else if km.matches(key, &km.resize_right) {
            Some(KeyStep::Resize(SplitDir::Horizontal, 1))
        } else if km.matches(key, &km.resize_up) {
            Some(KeyStep::Resize(SplitDir::Vertical, -1))
        } else if km.matches(key, &km.resize_down) {
            Some(KeyStep::Resize(SplitDir::Vertical, 1))
        } else {
            None
        }
    }

    /// The step `key` takes, given the focused panel's tab state.
    pub fn key_step(&self, key: &KeyEvent, panel: &Option<TabPanel>) -> (r: Option<KeyStep>)
        requires
            self.wf(),
        ensures
            r == key_step(self@.keymap, *key, self@, panel_view(*panel)),
    {
        let km = self.keymap();
        let (count, open) = match panel {
            Some(p) => (p.tab_count(), p.dropdown_open()),
            None => (0, false),
        };
        if km.matches(key, &km.tab_dropdown) {
            if count > 1 {
                return Some(KeyStep::OpenDropdown);
            }
            return self.panel_key_step(key, panel);
        }
        if km.matches(key, &km.tab_dropdown_down) || km.matches(key, &km.tab_dropdown_up) {
            if count > 1 && !open {
                return Some(KeyStep::OpenDropdown);
            }
            return self.panel_key_step(key, panel);
        }
        if km.matches(key, &km.layout_cycle) {
            Some(KeyStep::CycleLayout)
        } else if km.matches(key, &km.tab_next) {
            Some(KeyStep::TabNext)
        } else if km.matches(key, &km.tab_prev) {
            Some(KeyStep::TabPrev)
        } else if km.matches(key, &km.subpanel_move_tab) {
            Some(KeyStep::MoveTab)
        } else {
            self.panel_key_step(key, panel)
        }
    }

    /// Carry out a key step on the workspace and the focused panel.
    fn apply_step(&mut self, step: KeyStep, has_area: &Vec<bool>, panel: &mut Option<TabPanel>) -> (e: WorkspaceEffect)
        requires
            old(self).wf(),
            has_area.len() == old(self)@.len(),
            panel_ready(*old(panel)),
            step == KeyStep::OpenDropdown ==> panel_open_fits(*old(panel)),
        ensures
            final(self).wf(),
            panel_ready(*final(panel)),
            e == step_effect(step, panel_view(*old(panel))),
            final(self)@ == old(self)@.after_step(step, has_area@),
            panel_view(*final(panel)) == (match panel_view(*old(panel)) {
                Some(p) => Some(panel_after_step(step, p)),
                None => None,
            }),
    {
        match step {
            KeyStep::OpenDropdown => match panel {
                Some(p) => match p.open_dropdown() {
                    Some(r) => WorkspaceEffect::DropdownOpened(r),
                    None => WorkspaceEffect::Nothing,
                },
                None => WorkspaceEffect::Nothing,
            },
            KeyStep::CycleLayout => {
                self.cycle_layout();
                WorkspaceEffect::Nothing
            },
            KeyStep::TabNext => {
                match panel {
                    Some(p) => p.tab_next(),
                    None => {},
                }
                WorkspaceEffect::Nothing
            },
            KeyStep::TabPrev => {
                match panel {
                    Some(p) => p.tab_prev(),
                    None => {},
                }
                WorkspaceEffect::Nothing
            },
            KeyStep::MoveTab => WorkspaceEffect::MoveTabToSubpanel,
            KeyStep::Toggle(i) => {
                self.toggle_panel(i);
                WorkspaceEffect::Nothing
            },
            KeyStep::Zoom => {
                self.toggle_zoom();
                WorkspaceEffect::Nothing
            },
            KeyStep::Focus(dx, dy) => {
                self.focus_direction(dx, dy, has_area);
                WorkspaceEffect::Nothing
            },
            KeyStep::Resize(d, n) => WorkspaceEffect::Resize(d, n),
        }
    }

    /// A key reaching the workspace. With key handling on, a key bound in
    /// the keymap is consumed (`Some`) and carried out; `None` hands the
    /// key to the focused panel.
    pub fn handle_key(&mut self, key: &KeyEvent, has_area: &Vec<bool>, panel: &mut Option<TabPanel>) -> (r: (
        Option<HandleResult>,
        WorkspaceEffect,
    ))
        requires
            old(self).wf(),
            has_area.len() == old(self)@.len(),
            panel_ready(*old(panel)),
            old(self)@.handle_keys && key_step(old(self)@.keymap, *key, old(self)@, panel_view(*old(panel)))
                == Some(KeyStep::OpenDropdown) ==> panel_open_fits(*old(panel)),
        ensures
            final(self).wf(),
            panel_ready(*final(panel)),
            ({
                let step = if old(self)@.handle_keys {
                    key_step(old(self)@.keymap, *key, old(self)@, panel_view(*old(panel)))
                } else {
                    None
                };
                match step {
                    Some(st) => {
                        &&& r == (Some(HandleResult::Consumed), step_effect(st, panel_view(*old(panel))))
                        &&& final(self)@ == old(self)@.after_step(st, has_area@)
                        &&& panel_view(*final(panel)) == (match panel_view(*old(panel)) {
                            Some(p) => Some(panel_after_step(st, p)),
                            None => None,
                        })
                    },
                    None => {
                        &&& r == (None::<HandleResult>, WorkspaceEffect::Nothing)
                        &&& final(self)@ == old(self)@
                        &&& panel_view(*final(panel)) == panel_view(*old(panel))
                    },
                }
            }),
    {
        if !self.handle_keys() {
            return (None, WorkspaceEffect::Nothing);
        }
        match self.key_step(key, panel) {
            Some(st) => {
                let e = self.apply_step(st, has_area, panel);
                (Some(HandleResult::Consumed), e)
            },
            None => (None, WorkspaceEffect::Nothing),
        }
    }
}

/// The workspace's key-to-command bindings for keymap `km`, in the order
/// a status bar lists them.
pub open spec fn bindings_of(km: WorkspaceKeymap) -> Seq<(KeyEvent, u32)> {
    seq![
        (km.toggle_tree, CM_TW_TOGGLE_TREE),
        (km.toggle_tools, CM_TW_TOGGLE_TOOLS),
        (km.zoom, CM_TW_ZOOM),
        (km.layout_cycle, CM_TW_LAYOUT_CYCLE),
        (km.focus_left, CM_TW_FOCUS_LEFT),
        (km.focus_right, CM_TW_FOCUS_RIGHT),
        (km.focus_up, CM_TW_FOCUS_UP),
        (km.focus_down, CM_TW_FOCUS_DOWN),
        (km.resize_left, CM_TW_SHRINK_H),
        (km.resize_right, CM_TW_GROW_H),
        (km.resize_up, CM_TW_SHRINK_V),
        (km.resize_down, CM_TW_GROW_V),
        (km.tab_dropdown, CM_TW_TAB_DROPDOWN),
        (km.tab_dropdown_up, CM_TW_TAB_DROPDOWN_UP),
        (km.tab_dropdown_down, CM_TW_TAB_DROPDOWN_DOWN),
        (km.tab_next, CM_TW_TAB_NEXT),
        (km.tab_prev, CM_TW_TAB_PREV),
        (km.tab_close, CM_TW_TAB_CLOSE),
        (km.subpanel_focus, CM_TW_CYCLE_SUBPANEL),
        (km.subpanel_move_tab, CM_TW_MOVE_TAB_SUBPANEL),
        (km.subpanel_grow, CM_TW_GROW_SUBPANEL),
        (km.subpanel_shrink, CM_TW_SHRINK_SUBPANEL),
    ]
}

impl TiledWorkspace {
    /// The key-to-command bindings of the current keymap, for registration
    /// with a status bar. No binding carries a payload.
    pub fn default_bindings(&self) -> (v: Vec<(KeyEvent, u32)>)
        ensures
            v@ == bindings_of(self@.keymap),
    {
        let km = self.keymap();
        let mut v: Vec<(KeyEvent, u32)> = Vec::new();
        v.push((km.toggle_tree, CM_TW_TOGGLE_TREE));
        v.push((km.toggle_tools, CM_TW_TOGGLE_TOOLS));
        v.push((km.zoom, CM_TW_ZOOM));
        v.push((km.layout_cycle, CM_TW_LAYOUT_CYCLE));
        v.push((km.focus_left, CM_TW_FOCUS_LEFT));
        v.push((km.focus_right, CM_TW_FOCUS_RIGHT));
        v.push((km.focus_up, CM_TW_FOCUS_UP));
        v.push((km.focus_down, CM_TW_FOCUS_DOWN));
        v.push((km.resize_left, CM_TW_SHRINK_H));
        v.push((km.resize_right, CM_TW_GROW_H));
        v.push((km.resize_up, CM_TW_SHRINK_V));
        v.push((km.resize_down, CM_TW_GROW_V));
        v.push((km.tab_dropdown, CM_TW_TAB_DROPDOWN));
        v.push((km.tab_dropdown_up, CM_TW_TAB_DROPDOWN_UP));
        v.push((km.tab_dropdown_down, CM_TW_TAB_DROPDOWN_DOWN));
        v.push((km.tab_next, CM_TW_TAB_NEXT));
        v.push((km.tab_prev, CM_TW_TAB_PREV));
        v.push((km.tab_close, CM_TW_TAB_CLOSE));
        v.push((km.subpanel_focus, CM_TW_CYCLE_SUBPANEL));
        v.push((km.subpanel_move_tab, CM_TW_MOVE_TAB_SUBPANEL));
        v.push((km.subpanel_grow, CM_TW_GROW_SUBPANEL));
        v.push((km.subpanel_shrink, CM_TW_SHRINK_SUBPANEL));
        v
    }
}

} // verus!
