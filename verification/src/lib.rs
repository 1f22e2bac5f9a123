//! Verified state logic for a set of terminal UI widgets: tab bars, tab
//! panels, tab groups, a tiled workspace, tree and table navigation.

pub mod branch;
pub mod geometry;
pub mod keys;
pub mod scroll;
pub mod seqs;
pub mod style;
pub mod table;
pub mod tab_bar;
pub mod tab_bar_draw;
pub mod tab_group;
pub mod tab_group_layout;
pub mod tab_label;
pub mod tab_panel;
pub mod text;
pub mod text_area;
pub mod tiled_workspace;
pub mod tools_panel;
pub mod tree;
pub mod tree_table;
