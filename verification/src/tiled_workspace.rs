//! TiledWorkspace: IDE-style tiled panels with configurable keybindings.
//!
//! Integrations drive the workspace through command events rather than
//! direct calls; see [`commands`] for the command set.

pub mod commands;
pub mod handle;
pub mod keymap;
pub mod laws;
pub mod layout;
pub mod registry;
pub mod types;
pub mod workspace;
