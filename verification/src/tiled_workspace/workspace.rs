//! The tiled workspace's panel state: which panels are hidden, focused or
//! zoomed, which layout is in use, and how commands and keys change it.
//!
//! The panels' views and the proportional layout trees are kept
//! alongside; decisions that need them come back as a [`WorkspaceEffect`].

use vstd::prelude::*;

use super::keymap::WorkspaceKeymap;
use super::types::{LayoutMode, PanelConfig, PanelPosition, SplitDir};
use crate::tab_label::{index_of, position_of};
use crate::tab_bar::TabBarMode;
use crate::tab_panel::{TabPanel, TabPanelState};

verus! {

/// The tiled workspace's panel state.
pub struct TiledWorkspace {
    configs: Vec<PanelConfig>,
    keymap: WorkspaceKeymap,
    hidden: Vec<bool>,
    zoomed: Option<usize>,
    focused: usize,
    wide_threshold: u16,
    narrow_threshold: u16,
    layout_mode: LayoutMode,
    is_wide: bool,
    handle_keys: bool,
    h_divider_gaps: bool,
    v_divider_gaps: bool,
}

/// The panel state as mathematical values.
pub struct TiledWorkspaceState {
    pub names: Seq<Seq<char>>,
    pub closeable: Seq<bool>,
    pub tab_modes: Seq<TabBarMode>,
    pub positions: Seq<PanelPosition>,
    pub hideable: Seq<bool>,
    pub splittable: Seq<bool>,
    pub keymap: WorkspaceKeymap,
    pub hidden: Seq<bool>,
    pub zoomed: Option<usize>,
    /// The focused panel.
    pub focused: usize,
    pub wide_threshold: u16,
    pub narrow_threshold: u16,
    pub layout_mode: LayoutMode,
    pub is_wide: bool,
    pub handle_keys: bool,
    pub h_divider_gaps: bool,
    pub v_divider_gaps: bool,
}

/// Scan for a visible panel `k, k + 1, ...` steps from `start` (forward or
/// backward, wrapping), stopping before a full turn.
pub open spec fn scan_visible(hidden: Seq<bool>, start: nat, k: nat, forward: bool) -> Option<usize>
    decreases hidden.len() - k,
{
    let n = hidden.len();
    if k >= n {
        None
    } else {
        let idx: nat = if forward { (((start + k) as int) % (n as int)) as nat } else { (((start + n - k) as int) % (n as int)) as nat };
        if !hidden[idx as int] {
            Some(idx as usize)
        } else {
            scan_visible(hidden, start, k + 1, forward)
        }
    }
}

/// Indices `< k` of panels that are shown and have an area, in order.
pub open spec fn visible_with_area(hidden: Seq<bool>, area: Seq<bool>, k: nat) -> Seq<usize>
    decreases k,
{
    if k == 0 {
        Seq::empty()
    } else {
        let rest = visible_with_area(hidden, area, (k - 1) as nat);
        let i = (k - 1) as int;
        if !hidden[i] && area[i] { rest.push(i as usize) } else { rest }
    }
}

/// Indices of `flags` that are set, in order.
pub open spec fn set_indices(flags: Seq<bool>) -> Seq<usize>
    decreases flags.len(),
{
    if flags.len() == 0 {
        Seq::empty()
    } else if flags.last() {
        set_indices(flags.drop_last()).push((flags.len() - 1) as usize)
    } else {
        set_indices(flags.drop_last())
    }
}

/// `n` flags, set exactly at the listed indices.
pub open spec fn flags_from_indices(ids: Seq<usize>, n: nat) -> Seq<bool> {
    Seq::new(n, |i: int| ids.contains(i as usize))
}

impl TiledWorkspaceState {
    pub open spec fn len(self) -> nat {
        self.positions.len()
    }

    /// Per-panel lists line up; the focused index names a panel.
    pub open spec fn inv(self) -> bool {
        &&& self.len() <= usize::MAX
        &&& self.hideable.len() == self.len()
        &&& self.splittable.len() == self.len()
        &&& self.hidden.len() == self.len()
        &&& (self.len() == 0 || self.focused < self.len())
    }

    /// The next shown panel after the focused one, wrapping.
    pub open spec fn next_visible(self) -> Option<usize> {
        scan_visible(self.hidden, self.focused as nat, 1, true)
    }

    /// The previous shown panel before the focused one, wrapping.
    pub open spec fn prev_visible(self) -> Option<usize> {
        scan_visible(self.hidden, self.focused as nat, 1, false)
    }

    pub open spec fn after_focus_next(self) -> TiledWorkspaceState {
        match self.next_visible() {
            Some(i) => TiledWorkspaceState { focused: i, ..self },
            None => self,
        }
    }

    pub open spec fn after_focus_prev(self) -> TiledWorkspaceState {
        match self.prev_visible() {
            Some(i) => TiledWorkspaceState { focused: i, ..self },
            None => self,
        }
    }

    /// Toggle a hideable panel; hiding the focused panel moves focus on.
    pub open spec fn after_toggle(self, id: usize) -> TiledWorkspaceState {
        if id >= self.len() || !self.hideable[id as int] {
            self
        } else {
            let s = TiledWorkspaceState { hidden: self.hidden.update(id as int, !self.hidden[id as int]), ..self };
            if s.hidden[id as int] && s.focused == id { s.after_focus_next() } else { s }
        }
    }

    /// Hide a hideable panel; hiding the focused panel moves focus on.
    pub open spec fn after_hide(self, id: usize) -> TiledWorkspaceState {
        if id >= self.len() || !self.hideable[id as int] {
            self
        } else {
            let s = TiledWorkspaceState { hidden: self.hidden.update(id as int, true), ..self };
            if s.focused == id { s.after_focus_next() } else { s }
        }
    }

    /// Show a panel.
    pub open spec fn after_show(self, id: usize) -> TiledWorkspaceState {
        if id >= self.len() {
            self
        } else {
            TiledWorkspaceState { hidden: self.hidden.update(id as int, false), ..self }
        }
    }

    /// Set a panel's hidden flag regardless of whether it is hideable.
    pub open spec fn after_set_hidden(self, id: usize, h: bool) -> TiledWorkspaceState {
        if id >= self.len() {
            self
        } else {
            let s = TiledWorkspaceState { hidden: self.hidden.update(id as int, h), ..self };
            if h && s.focused == id { s.after_focus_next() } else { s }
        }
    }

    /// Focus a shown panel; a zoomed workspace zooms the newly focused panel.
    pub open spec fn after_focus_panel(self, id: usize) -> TiledWorkspaceState {
        if id < self.len() && !self.hidden[id as int] {
            TiledWorkspaceState {
                focused: id,
                zoomed: if self.zoomed is Some { Some(id) } else { None },
                ..self
            }
        } else {
            self
        }
    }

    pub open spec fn after_toggle_zoom(self) -> TiledWorkspaceState {
        TiledWorkspaceState { zoomed: if self.zoomed is Some { None } else { Some(self.focused) }, ..self }
    }

    /// Auto, Wide, Narrow, then Auto again.
    pub open spec fn after_cycle_layout(self) -> TiledWorkspaceState {
        TiledWorkspaceState {
            layout_mode: match self.layout_mode {
                LayoutMode::Auto => LayoutMode::Wide,
                LayoutMode::Wide => LayoutMode::Narrow,
                LayoutMode::Narrow => LayoutMode::Auto,
            },
            ..self
        }
    }

    /// Whether a workspace `width` columns wide uses the wide layout.
    pub open spec fn wide_for(self, width: u16) -> bool {
        match self.layout_mode {
            LayoutMode::Auto => {
                if width >= self.wide_threshold {
                    true
                } else if width <= self.narrow_threshold {
                    false
                } else {
                    self.is_wide
                }
            },
            LayoutMode::Wide => true,
            LayoutMode::Narrow => false,
        }
    }

    /// The first panel at `pos`.
    pub open spec fn panel_at(self, pos: PanelPosition) -> Option<usize> {
        first_at(self.positions, pos)
    }

    /// Focus the neighbour among panels shown with an area, moving forward
    /// when `forward`, wrapping; nothing happens with fewer than two.
    pub open spec fn after_focus_step(self, area: Seq<bool>, forward: bool) -> TiledWorkspaceState {
        let vis = visible_with_area(self.hidden, area, self.len());
        if vis.len() <= 1 {
            self
        } else {
            let pos: nat = match index_of(vis, self.focused) {
                Some(p) => p,
                None => 0,
            };
            let n = vis.len();
            let next = if forward { vis[((pos + 1) as int) % (n as int)] } else { vis[((pos + n - 1) as int) % (n as int)] };
            TiledWorkspaceState { focused: next, ..self }
        }
    }

    /// Move focus in direction (dx, dy): a zoomed workspace steps through
    /// shown panels and zooms the new one; otherwise focus steps through
    /// the panels shown with an area.
    pub open spec fn after_focus_direction(self, dx: i16, dy: i16, area: Seq<bool>) -> TiledWorkspaceState {
        let forward = dx > 0 || dy > 0;
        if self.zoomed is Some {
            let s = if forward { self.after_focus_next() } else { self.after_focus_prev() };
            TiledWorkspaceState { zoomed: Some(s.focused), ..s }
        } else {
            self.after_focus_step(area, forward)
        }
    }
}

/// The first index of `pos` in `ps`.
pub open spec fn first_at(ps: Seq<PanelPosition>, pos: PanelPosition) -> Option<usize>
    decreases ps.len(),
{
    if ps.len() == 0 {
        None
    } else {
        match first_at(ps.drop_last(), pos) {
            Some(i) => Some(i),
            None => if ps.last() == pos { Some((ps.len() - 1) as usize) } else { None },
        }
    }
}

pub open spec fn config_positions(cs: Seq<PanelConfig>) -> Seq<PanelPosition> {
    cs.map_values(|c: PanelConfig| c.position)
}

pub open spec fn config_names(cs: Seq<PanelConfig>) -> Seq<Seq<char>> {
    cs.map_values(|c: PanelConfig| c.name@)
}

pub open spec fn config_closeable(cs: Seq<PanelConfig>) -> Seq<bool> {
    cs.map_values(|c: PanelConfig| c.closeable)
}

pub open spec fn config_tab_modes(cs: Seq<PanelConfig>) -> Seq<TabBarMode> {
    cs.map_values(|c: PanelConfig| c.tab_mode)
}

pub open spec fn config_hideable(cs: Seq<PanelConfig>) -> Seq<bool> {
    cs.map_values(|c: PanelConfig| c.hideable)
}

pub open spec fn config_splittable(cs: Seq<PanelConfig>) -> Seq<bool> {
    cs.map_values(|c: PanelConfig| c.splittable)
}

impl View for TiledWorkspace {
    type V = TiledWorkspaceState;

    closed spec fn view(&self) -> TiledWorkspaceState {
        TiledWorkspaceState {
            names: config_names(self.configs@),
            closeable: config_closeable(self.configs@),
            tab_modes: config_tab_modes(self.configs@),
            positions: config_positions(self.configs@),
            hideable: config_hideable(self.configs@),
            splittable: config_splittable(self.configs@),
            keymap: self.keymap,
            hidden: self.hidden@,
            zoomed: self.zoomed,
            focused: self.focused,
            wide_threshold: self.wide_threshold,
            narrow_threshold: self.narrow_threshold,
            layout_mode: self.layout_mode,
            is_wide: self.is_wide,
            handle_keys: self.handle_keys,
            h_divider_gaps: self.h_divider_gaps,
            v_divider_gaps: self.v_divider_gaps,
        }
    }
}

/// `(start + offset) % n` without overflow.
pub fn wrap_add(start: usize, offset: usize, n: usize) -> (r: usize)
    requires
        start < n,
        offset < n,
    ensures
        r == (start + offset) % (n as int),
        r < n,
{
    if offset < n - start {
        assert((start + offset) % (n as int) == start + offset) by (nonlinear_arith)
            requires 0 <= start + offset < n;
        start + offset
    } else {
        let r = offset - (n - start);
        assert((start + offset) % (n as int) == start + offset - n) by (nonlinear_arith)
            requires n <= start + offset < 2 * n;
        r
    }
}

/// `(start + n - offset) % n` without overflow.
pub fn wrap_sub(start: usize, offset: usize, n: usize) -> (r: usize)
    requires
        start < n,
        offset < n,
    ensures
        r == (start + n - offset) % (n as int),
        r < n,
{
    if offset <= start {
        let r = start - offset;
        assert((start + n - offset) % (n as int) == start - offset) by (nonlinear_arith)
            requires n <= start + n - offset < 2 * n;
        r
    } else {
        let r = start + (n - offset);
        assert((start + n - offset) % (n as int) == start + n - offset) by (nonlinear_arith)
            requires 0 <= start + n - offset < n;
        r
    }
}

impl TiledWorkspace {
    pub open spec fn wf(&self) -> bool {
        self@.inv()
    }

    /// A workspace over `configs`, all panels shown, the first focused,
    /// layout chosen automatically with the narrow threshold 100 columns
    /// below the wide one.
    pub fn new(configs: Vec<PanelConfig>, wide_threshold: u16) -> (w: TiledWorkspace)
        ensures
            w.wf(),
            w@.names == config_names(configs@),
            w@.closeable == config_closeable(configs@),
            w@.tab_modes == config_tab_modes(configs@),
            w@.positions == config_positions(configs@),
            w@.hideable == config_hideable(configs@),
            w@.splittable == config_splittable(configs@),
            w@.keymap == WorkspaceKeymap::default_spec(),
            w@.hidden == Seq::new(configs.len() as nat, |i: int| false),
            w@.zoomed is None,
            w@.focused == 0,
            w@.wide_threshold == wide_threshold,
            w@.narrow_threshold == (if wide_threshold >= 100 { (wide_threshold - 100) as u16 } else { 0 }),
            w@.layout_mode == LayoutMode::Auto,
            w@.is_wide,
            w@.handle_keys,
            w@.h_divider_gaps,
            w@.v_divider_gaps,
    {
        let n = configs.len();
        let mut hidden: Vec<bool> = Vec::new();
        let mut i: usize = 0;
        while i < n
            invariant
                i <= n,
                hidden@ == Seq::new(i as nat, |k: int| false),
            decreases n - i,
        {
            hidden.push(false);
            i += 1;
            assert(hidden@ =~= Seq::new(i as nat, |k: int| false));
        }
        TiledWorkspace {
            configs,
            keymap: WorkspaceKeymap::default(),
            hidden,
            zoomed: None,
            focused: 0,
            wide_threshold,
            narrow_threshold: if wide_threshold >= 100 { wide_threshold - 100 } else { 0 },
            layout_mode: LayoutMode::Auto,
            is_wide: true,
            handle_keys: true,
            h_divider_gaps: true,
            v_divider_gaps: true,
        }
    }

    pub fn keymap(&self) -> (k: &WorkspaceKeymap)
        ensures
            *k == self@.keymap,
    {
        &self.keymap
    }

    pub fn set_keymap(&mut self, keymap: WorkspaceKeymap)
        ensures
            final(self)@ == (TiledWorkspaceState { keymap: keymap, ..old(self)@ }),
    {
        self.keymap = keymap;
    }

    /// Turn internal key handling on or off; off, the workspace answers
    /// only command events.
    pub fn set_handle_keys(&mut self, enabled: bool)
        ensures
            final(self)@ == (TiledWorkspaceState { handle_keys: enabled, ..old(self)@ }),
    {
        self.handle_keys = enabled;
    }

    pub fn handle_keys(&self) -> (b: bool)
        ensures
            b == self@.handle_keys,
    {
        self.handle_keys
    }

    pub fn configs(&self) -> (c: &Vec<PanelConfig>)
        ensures
            config_names(c@) == self@.names,
            config_closeable(c@) == self@.closeable,
            config_tab_modes(c@) == self@.tab_modes,
            config_positions(c@) == self@.positions,
            config_hideable(c@) == self@.hideable,
            config_splittable(c@) == self@.splittable,
    {
        &self.configs
    }

    /// The tab panel that panel `i` starts with: no tabs, in the tab
    /// mode of its config. `None` when there is no panel `i`.
    pub fn initial_panel(&self, i: usize) -> (p: Option<TabPanel>)
        ensures
            i >= self@.len() ==> p is None,
            i < self@.len() ==> (p matches Some(q) && q.wf() && q@ == TabPanelState::initial(self@.tab_modes[i as int])),
    {
        if i >= self.configs.len() {
            return None;
        }
        Some(TabPanel::new(self.configs[i].tab_mode))
    }

    pub fn panel_count(&self) -> (n: usize)
        ensures
            n == self@.len(),
    {
        self.configs.len()
    }

    pub fn focused_panel(&self) -> (i: usize)
        ensures
            i == self@.focused,
    {
        self.focused
    }

    pub fn is_wide(&self) -> (b: bool)
        ensures
            b == self@.is_wide,
    {
        self.is_wide
    }

    pub fn is_zoomed(&self) -> (b: bool)
        ensures
            b == self@.zoomed is Some,
    {
        self.zoomed.is_some()
    }

    pub fn zoomed_panel(&self) -> (z: Option<usize>)
        ensures
            z == self@.zoomed,
    {
        self.zoomed
    }

    /// Zoom a panel, or clear the zoom.
    pub fn set_zoomed(&mut self, id: Option<usize>)
        ensures
            final(self)@ == (TiledWorkspaceState { zoomed: id, ..old(self)@ }),
    {
        self.zoomed = id;
    }

    /// Zoom a specific panel.
    pub fn zoom_panel(&mut self, id: usize)
        ensures
            final(self)@ == (TiledWorkspaceState { zoomed: Some(id), ..old(self)@ }),
    {
        self.zoomed = Some(id);
    }

    /// Leave zoom.
    pub fn unzoom(&mut self)
        ensures
            final(self)@ == (TiledWorkspaceState { zoomed: None, ..old(self)@ }),
    {
        self.zoomed = None;
    }

    pub fn set_wide_threshold(&mut self, threshold: u16)
        ensures
            final(self)@ == (TiledWorkspaceState { wide_threshold: threshold, ..old(self)@ }),
    {
        self.wide_threshold = threshold;
    }

    pub fn set_narrow_threshold(&mut self, threshold: u16)
        ensures
            final(self)@ == (TiledWorkspaceState { narrow_threshold: threshold, ..old(self)@ }),
    {
        self.narrow_threshold = threshold;
    }

    pub fn set_layout_mode(&mut self, mode: LayoutMode)
        ensures
            final(self)@ == (TiledWorkspaceState { layout_mode: mode, ..old(self)@ }),
    {
        self.layout_mode = mode;
    }

    pub fn layout_mode(&self) -> (m: LayoutMode)
        ensures
            m == self@.layout_mode,
    {
        self.layout_mode
    }

    pub fn set_h_divider_gaps(&mut self, enabled: bool)
        ensures
            final(self)@ == (TiledWorkspaceState { h_divider_gaps: enabled, ..old(self)@ }),
    {
        self.h_divider_gaps = enabled;
    }

    pub fn set_v_divider_gaps(&mut self, enabled: bool)
        ensures
            final(self)@ == (TiledWorkspaceState { v_divider_gaps: enabled, ..old(self)@ }),
    {
        self.v_divider_gaps = enabled;
    }

    pub fn h_divider_gaps(&self) -> (b: bool)
        ensures
            b == self@.h_divider_gaps,
    {
        self.h_divider_gaps
    }

    pub fn v_divider_gaps(&self) -> (b: bool)
        ensures
            b == self@.v_divider_gaps,
    {
        self.v_divider_gaps
    }

    /// Whether panel `id` is hidden (false for an unknown panel).
    pub fn is_hidden(&self, id: usize) -> (b: bool)
        requires
            self.wf(),
        ensures
            b == (id < self@.len() && self@.hidden[id as int]),
    {
        if id < self.hidden.len() {
            self.hidden[id]
        } else {
            false
        }
    }

    /// Switch focus to panel `id`, whatever its state.
    pub fn switch_focus(&mut self, id: usize)
        requires
            old(self).wf(),
            id < old(self)@.len(),
        ensures
            final(self).wf(),
            final(self)@ == (TiledWorkspaceState { focused: id, ..old(self)@ }),
    {
        self.focused = id;
    }

    /// Focus the next shown panel, wrapping.
    pub fn focus_next_visible(&mut self)
        requires
            old(self).wf(),
        ensures
            final(self).wf(),
            final(self)@ == old(self)@.after_focus_next(),
    {
        let count = self.configs.len();
        if count == 0 {
            return;
        }
        let start = self.focused;
        let mut offset: usize = 1;
        while offset < count
            invariant
                1 <= offset <= count,
                count == self@.len(),
                self@ == old(self)@,
                self.wf(),
                start == self@.focused,
                start < count,
                scan_visible(self@.hidden, start as nat, 1, true)
                    == scan_visible(self@.hidden, start as nat, offset as nat, true),
            decreases count - offset,
        {
            let idx = wrap_add(start, offset, count);
            if !self.hidden[idx] {
                self.focused = idx;
                return;
            }
            offset += 1;
        }
    }

    /// Focus the previous shown panel, wrapping.
    pub fn focus_prev_visible(&mut self)
        requires
            old(self).wf(),
        ensures
            final(self).wf(),
            final(self)@ == old(self)@.after_focus_prev(),
    {
        let count = self.configs.len();
        if count == 0 {
            return;
        }
        let start = self.focused;
        let mut offset: usize = 1;
        while offset < count
            invariant
                1 <= offset <= count,
                count == self@.len(),
                self@ == old(self)@,
                self.wf(),
                start == self@.focused,
                start < count,
                scan_visible(self@.hidden, start as nat, 1, false)
                    == scan_visible(self@.hidden, start as nat, offset as nat, false),
            decreases count - offset,
        {
            let idx = wrap_sub(start, offset, count);
            if !self.hidden[idx] {
                self.focused = idx;
                return;
            }
            offset += 1;
        }
    }
}

impl TiledWorkspace {
    /// Toggle visibility of a hideable panel; hiding the focused panel
    /// moves focus to the next shown one.
    pub fn toggle_panel(&mut self, id: usize)
        requires
            old(self).wf(),
        ensures
            final(self).wf(),
            final(self)@ == old(self)@.after_toggle(id),
    {
        if id >= self.configs.len() || !self.configs[id].hideable {
            return;
        }
        let h = !self.hidden[id];
        self.hidden.set(id, h);
        if h && self.focused == id {
            self.focus_next_visible();
        }
    }

    /// Toggle zoom on the focused panel.
    pub fn toggle_zoom(&mut self)
        ensures
            final(self)@ == old(self)@.after_toggle_zoom(),
    {
        self.zoomed = if self.zoomed.is_some() { None } else { Some(self.focused) };
    }

    /// Cycle the layout mode: Auto, Wide, Narrow, Auto.
    pub fn cycle_layout(&mut self)
        ensures
            final(self)@ == old(self)@.after_cycle_layout(),
    {
        self.layout_mode = match self.layout_mode {
            LayoutMode::Auto => LayoutMode::Wide,
            LayoutMode::Wide => LayoutMode::Narrow,
            LayoutMode::Narrow => LayoutMode::Auto,
        };
    }

    /// Focus panel `id` when it exists and is shown; a zoomed workspace
    /// zooms it.
    pub fn focus_panel(&mut self, id: usize)
        requires
            old(self).wf(),
        ensures
            final(self).wf(),
            final(self)@ == old(self)@.after_focus_panel(id),
    {
        if id < self.configs.len() && !self.hidden[id] {
            self.focused = id;
            if self.zoomed.is_some() {
                self.zoomed = Some(id);
            }
        }
    }

    /// Set a panel's hidden flag, hideable or not (for construction).
    pub fn set_hidden(&mut self, id: usize, hidden: bool)
        requires
            old(self).wf(),
        ensures
            final(self).wf(),
            final(self)@ == old(self)@.after_set_hidden(id, hidden),
    {
        if id < self.hidden.len() {
            self.hidden.set(id, hidden);
            if hidden && self.focused == id {
                self.focus_next_visible();
            }
        }
    }

    /// Show a panel.
    pub fn show_panel(&mut self, id: usize)
        requires
            old(self).wf(),
        ensures
            final(self).wf(),
            final(self)@ == old(self)@.after_show(id),
    {
        if id < self.hidden.len() {
            self.hidden.set(id, false);
        }
    }

    /// Hide a hideable panel; hiding the focused panel moves focus on.
    pub fn hide_panel(&mut self, id: usize)
        requires
            old(self).wf(),
        ensures
            final(self).wf(),
            final(self)@ == old(self)@.after_hide(id),
    {
        if id < self.configs.len() && self.configs[id].hideable {
            self.hidden.set(id, true);
            if self.focused == id {
                self.focus_next_visible();
            }
        }
    }

    /// Decide between the wide and narrow layout for a workspace `width`
    /// columns wide. In Auto mode, between the two thresholds the previous
    /// choice stays.
    pub fn update_wide_flag(&mut self, width: u16)
        ensures
            final(self)@ == (TiledWorkspaceState { is_wide: old(self)@.wide_for(width), ..old(self)@ }),
    {
        self.is_wide = match self.layout_mode {
            LayoutMode::Auto => {
                if width >= self.wide_threshold {
                    true
                } else if width <= self.narrow_threshold {
                    false
                } else {
                    self.is_wide
                }
            },
            LayoutMode::Wide => true,
            LayoutMode::Narrow => false,
        };
    }

    /// The first panel configured at `pos`.
    pub fn find_panel_by_position(&self, pos: PanelPosition) -> (r: Option<usize>)
        requires
            self.wf(),
        ensures
            r == self@.panel_at(pos),
    {
        let ghost ps = self@.positions;
        let mut i: usize = 0;
        while i < self.configs.len()
            invariant
                i <= self.configs.len(),
                ps == config_positions(self.configs@),
                first_at(ps.take(i as int), pos) is None,
            decreases self.configs.len() - i,
        {
            proof {
                assert(ps.take(i + 1).drop_last() =~= ps.take(i as int));
            }
            if self.configs[i].position == pos {
                proof {
                    lemma_first_at_extend(ps, pos, (i + 1) as nat);
                }
                return Some(i);
            }
            i += 1;
        }
        assert(ps.take(i as int) =~= ps);
        None
    }

    /// Move focus in direction (dx, dy). `has_area` tells, per panel,
    /// whether it currently has a non-empty area.
    pub fn focus_direction(&mut self, dx: i16, dy: i16, has_area: &Vec<bool>)
        requires
            old(self).wf(),
            has_area.len() == old(self)@.len(),
        ensures
            final(self).wf(),
            final(self)@ == old(self)@.after_focus_direction(dx, dy, has_area@),
    {
        let forward = dx > 0 || dy > 0;
        if self.zoomed.is_some() {
            if forward {
                self.focus_next_visible();
            } else {
                self.focus_prev_visible();
            }
            self.zoomed = Some(self.focused);
            return;
        }
        let vis = self.visible_with_area(has_area);
        let n = vis.len();
        if n <= 1 {
            return;
        }
        let pos = match position_of(&vis, self.focused) {
            Some(p) => p,
            None => 0,
        };
        proof {
            crate::tab_label::lemma_index_of_bound(vis@, self.focused);
            lemma_visible_below(self@.hidden, has_area@, self@.len());
        }
        let next = if forward { vis[wrap_add(pos, 1, n)] } else { vis[wrap_sub(pos, 1, n)] };
        self.focused = next;
    }

    fn visible_with_area(&self, has_area: &Vec<bool>) -> (v: Vec<usize>)
        requires
            self.wf(),
            has_area.len() == self@.len(),
        ensures
            v@ == visible_with_area(self@.hidden, has_area@, self@.len()),
    {
        let n = self.configs.len();
        let mut v: Vec<usize> = Vec::new();
        let mut i: usize = 0;
        while i < n
            invariant
                i <= n,
                n == self@.len(),
                self.wf(),
                has_area.len() == n,
                v@ == visible_with_area(self@.hidden, has_area@, i as nat),
            decreases n - i,
        {
            if !self.hidden[i] && has_area[i] {
                v.push(i);
            }
            i += 1;
        }
        v
    }

    /// The panel the active tab moves to: the next (or previous) shown
    /// panel after the focused one in index order, wrapping. `None` with
    /// fewer than two shown panels.
    pub fn adjacent_target(&self, forward: bool) -> (t: Option<usize>)
        requires
            self.wf(),
        ensures
            ({
                let all = Seq::new(self@.len(), |i: int| true);
                let vis = visible_with_area(self@.hidden, all, self@.len());
                if vis.len() <= 1 {
                    t is None
                } else {
                    let pos: nat = match index_of(vis, self@.focused) { Some(p) => p, None => 0 };
                    let n = vis.len();
                    t == Some(if forward { vis[((pos + 1) as int) % (n as int)] } else { vis[((pos + n - 1) as int) % (n as int)] })
                }
            }),
    {
        let n0 = self.configs.len();
        let mut all: Vec<bool> = Vec::new();
        let mut i: usize = 0;
        while i < n0
            invariant
                i <= n0,
                all@ == Seq::new(i as nat, |k: int| true),
            decreases n0 - i,
        {
            all.push(true);
            i += 1;
            assert(all@ =~= Seq::new(i as nat, |k: int| true));
        }
        let vis = self.visible_with_area(&all);
        let n = vis.len();
        if n <= 1 {
            return None;
        }
        let pos = match position_of(&vis, self.focused) {
            Some(p) => p,
            None => 0,
        };
        proof {
            crate::tab_label::lemma_index_of_bound(vis@, self.focused);
        }
        Some(if forward { vis[wrap_add(pos, 1, n)] } else { vis[wrap_sub(pos, 1, n)] })
    }

    /// Indices of the hidden panels, in order (what a saved state keeps).
    pub fn hidden_ids(&self) -> (ids: Vec<usize>)
        requires
            self.wf(),
        ensures
            ids@ == set_indices(self@.hidden),
    {
        let mut ids: Vec<usize> = Vec::new();
        let mut i: usize = 0;
        while i < self.hidden.len()
            invariant
                i <= self.hidden.len(),
                ids@ == set_indices(self.hidden@.take(i as int)),
            decreases self.hidden.len() - i,
        {
            proof {
                assert(self.hidden@.take(i + 1).drop_last() =~= self.hidden@.take(i as int));
            }
            if self.hidden[i] {
                ids.push(i);
            }
            i += 1;
        }
        assert(self.hidden@.take(i as int) =~= self.hidden@);
        ids
    }

    /// Restore the hidden panels from a saved list: exactly the listed
    /// panels are hidden (unknown indices are skipped).
    pub fn restore_hidden(&mut self, ids: &Vec<usize>)
        requires
            old(self).wf(),
        ensures
            final(self).wf(),
            final(self)@ == (TiledWorkspaceState {
                hidden: flags_from_indices(ids@, old(self)@.len()),
                ..old(self)@
            }),
    {
        let n = self.hidden.len();
        let mut i: usize = 0;
        while i < n
            invariant
                i <= n,
                n == self.hidden.len(),
                forall|k: int| 0 <= k < i ==> !self.hidden@[k],
                self@ == (TiledWorkspaceState { hidden: self@.hidden, ..old(self)@ }),
                self.wf(),
            decreases n - i,
        {
            self.hidden.set(i, false);
            i += 1;
        }
        let mut j: usize = 0;
        while j < ids.len()
            invariant
                j <= ids.len(),
                n == self.hidden.len(),
                forall|k: int| 0 <= k < n ==> #[trigger] self.hidden@[k] == ids@.take(j as int).contains(k as usize),
                self@ == (TiledWorkspaceState { hidden: self@.hidden, ..old(self)@ }),
                self.wf(),
            decreases ids.len() - j,
        {
            let id = ids[j];
            proof {
                assert(ids@.take(j + 1) =~= ids@.take(j as int).push(id));
                assert forall|k: int| 0 <= k < n implies
                    (#[trigger] ids@.take(j + 1).contains(k as usize) == (ids@.take(j as int).contains(k as usize) || id == k)) by {
                    vstd::seq_lib::lemma_seq_contains_after_push(ids@.take(j as int), id, k as usize);
                }
            }
            if id < n {
                self.hidden.set(id, true);
            }
            j += 1;
        }
        assert(ids@.take(ids.len() as int) =~= ids@);
        assert(self@.hidden =~= flags_from_indices(ids@, old(self)@.len()));
    }
}

proof fn lemma_first_at_extend(ps: Seq<PanelPosition>, pos: PanelPosition, k: nat)
    requires
        1 <= k <= ps.len(),
        first_at(ps.take(k - 1), pos) is None,
        ps[k - 1] == pos,
    ensures
        first_at(ps, pos) == Some((k - 1) as usize),
    decreases ps.len() - k,
{
    assert(ps.take(k as int).drop_last() =~= ps.take(k - 1));
    assert(first_at(ps.take(k as int), pos) == Some((k - 1) as usize));
    if k < ps.len() {
        lemma_first_at_prefix(ps, pos, k);
    } else {
        assert(ps.take(k as int) =~= ps);
    }
}

proof fn lemma_first_at_prefix(ps: Seq<PanelPosition>, pos: PanelPosition, k: nat)
    requires
        k <= ps.len(),
        first_at(ps.take(k as int), pos) is Some,
    ensures
        first_at(ps, pos) == first_at(ps.take(k as int), pos),
    decreases ps.len() - k,
{
    if k < ps.len() {
        assert(ps.take((k + 1) as int).drop_last() =~= ps.take(k as int));
        lemma_first_at_prefix(ps, pos, k + 1);
    } else {
        assert(ps.take(k as int) =~= ps);
    }
}

proof fn lemma_visible_below(hidden: Seq<bool>, area: Seq<bool>, k: nat)
    ensures
        forall|i: int| 0 <= i < visible_with_area(hidden, area, k).len() ==>
            #[trigger] visible_with_area(hidden, area, k)[i] < k,
    decreases k,
{
    if k > 0 {
        lemma_visible_below(hidden, area, (k - 1) as nat);
        let rest = visible_with_area(hidden, area, (k - 1) as nat);
        assert forall|i: int| 0 <= i < visible_with_area(hidden, area, k).len() implies
            #[trigger] visible_with_area(hidden, area, k)[i] < k by {
            if i < rest.len() {
                assert(rest[i] < k - 1);
            }
        }
    }
}

/// The direction a panel's subpanels split in when it is made: side by
/// side for a right panel, stacked otherwise.
pub open spec fn initial_split_dir(pos: PanelPosition) -> SplitDir {
    if pos == PanelPosition::Right { SplitDir::Vertical } else { SplitDir::Horizontal }
}

/// The direction a panel's subpanels split in when it is made.
pub fn initial_split(pos: PanelPosition) -> (d: SplitDir)
    ensures
        d == initial_split_dir(pos),
{
    if pos == PanelPosition::Right { SplitDir::Vertical } else { SplitDir::Horizontal }
}

impl TiledWorkspace {
    /// After a layout pass: the split direction for each splittable panel
    /// off the centre (side by side in the wide layout, stacked in the
    /// narrow one); `None` for the others.
    pub fn subpanel_directions(&self) -> (v: Vec<Option<SplitDir>>)
        requires
            self.wf(),
        ensures
            v@.len() == self@.len(),
            forall|i: int| 0 <= i < self@.len() ==> #[trigger] v@[i] == (
                if self@.splittable[i] && self@.positions[i] != PanelPosition::Center {
                    Some(if self@.is_wide { SplitDir::Vertical } else { SplitDir::Horizontal })
                } else {
                    None
                }),
    {
        let mut v: Vec<Option<SplitDir>> = Vec::new();
        let mut i: usize = 0;
        while i < self.configs.len()
            invariant
                i <= self.configs.len(),
                self.wf(),
                v@.len() == i,
                forall|k: int| 0 <= k < i ==> #[trigger] v@[k] == (
                    if self@.splittable[k] && self@.positions[k] != PanelPosition::Center {
                        Some(if self@.is_wide { SplitDir::Vertical } else { SplitDir::Horizontal })
                    } else {
                        None
                    }),
            decreases self.configs.len() - i,
        {
            let c = &self.configs[i];
            if c.splittable && c.position != PanelPosition::Center {
                v.push(Some(if self.is_wide { SplitDir::Vertical } else { SplitDir::Horizontal }));
            } else {
                v.push(None);
            }
            i += 1;
        }
        v
    }
}

} // verus!
