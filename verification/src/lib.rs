//! A bookmark list for the panes of a terminal multiplexer session.
//!
//! [`workspace`] follows the host's tab and pane notifications and knows
//! which pane has the focus and what each pane is called. [`bookmarks`]
//! keeps up to ten panes in a list with a cursor. [`plugin`] joins the two
//! and says, for each event from the host, what changes and what the host
//! is asked to do. [`keybinds`] writes the configuration that binds the
//! plugin's two key chords, and [`display`] lays out what the plugin shows.

pub mod bookmarks;
pub mod display;
pub mod keybinds;
pub mod pane;
pub mod plugin;
pub mod workspace;
