//! Navigation and selection state for terminal dashboards.
//!
//! Each on-screen collection keeps a cursor of its own: a list wraps
//! around at its ends, a table stops at them and keeps its row when its
//! data is replaced, a tab bar cycles, and a text pane scrolls with a
//! guard band of two lines. All of them answer to the same two-speed
//! step command.

pub mod decoder;
pub mod lines;
pub mod list;
pub mod route;
pub mod scroll;
pub mod selection;
pub mod std_specs;
pub mod table;
pub mod tabs;
pub mod text;
pub mod widget_state;
