//! Panel configuration and layout settings for the tiled workspace.

use vstd::prelude::*;

use crate::tab_bar::TabBarMode;

verus! {

/// Identifies a panel by index.
pub type PanelId = usize;

/// Preferred panel position in the workspace.
#[derive(Clone, Copy, Debug, PartialEq, Eq, Structural)]
pub enum PanelPosition {
    Left,
    Center,
    Right,
    Bottom,
}

/// Split direction: Horizontal lays children out left to right, Vertical
/// top to bottom.
#[derive(Clone, Copy, Debug, PartialEq, Eq, Structural)]
pub enum SplitDir {
    Horizontal,
    Vertical,
}

/// Layout mode: how the workspace decides between its wide and narrow layout.
#[derive(Clone, Copy, Debug, PartialEq, Eq, Structural)]
pub enum LayoutMode {
    /// Switch by terminal width thresholds.
    Auto,
    /// Always the wide layout.
    Wide,
    /// Always the narrow layout.
    Narrow,
}

/// Configuration for a single panel.
#[derive(Clone, Debug)]
pub struct PanelConfig {
    pub name: String,
    pub closeable: bool,
    pub hideable: bool,
    pub splittable: bool,
    pub position: PanelPosition,
    pub tab_mode: TabBarMode,
}

impl PanelConfig {
    /// A closeable, hideable panel with LRU tabs.
    pub fn new(name: &str, position: PanelPosition) -> (c: PanelConfig)
        ensures
            c.name@ == name@,
            c.closeable,
            c.hideable,
            !c.splittable,
            c.position == position,
            c.tab_mode == TabBarMode::Lru,
    {
        PanelConfig {
            name: String::from_str(name),
            closeable: true,
            hideable: true,
            splittable: false,
            position,
            tab_mode: TabBarMode::Lru,
        }
    }

    /// A panel marked not closeable, with static tabs.
    pub fn fixed(name: &str, position: PanelPosition) -> (c: PanelConfig)
        ensures
            c.name@ == name@,
            !c.closeable,
            c.hideable,
            !c.splittable,
            c.position == position,
            c.tab_mode == TabBarMode::Static,
    {
        PanelConfig {
            name: String::from_str(name),
            closeable: false,
            hideable: true,
            splittable: false,
            position,
            tab_mode: TabBarMode::Static,
        }
    }

    /// The same configuration, splittable.
    pub fn with_splittable(self) -> (c: PanelConfig)
        ensures
            c.name@ == self.name@,
            c.closeable == self.closeable,
            c.hideable == self.hideable,
            c.splittable,
            c.position == self.position,
            c.tab_mode == self.tab_mode,
    {
        PanelConfig { splittable: true, ..self }
    }

    pub fn name(&self) -> (n: &str)
        ensures
            n@ == self.name@,
    {
        self.name.as_str()
    }

    pub fn closeable(&self) -> (b: bool)
        ensures
            b == self.closeable,
    {
        self.closeable
    }

    pub fn hideable(&self) -> (b: bool)
        ensures
            b == self.hideable,
    {
        self.hideable
    }

    pub fn splittable(&self) -> (b: bool)
        ensures
            b == self.splittable,
    {
        self.splittable
    }

    pub fn position(&self) -> (p: PanelPosition)
        ensures
            p == self.position,
    {
        self.position
    }

    pub fn tab_mode(&self) -> (m: TabBarMode)
        ensures
            m == self.tab_mode,
    {
        self.tab_mode
    }
}

} // verus!
