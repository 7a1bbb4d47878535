//! Core logic of a small "programmer search engine" launcher: a themable
//! window with a search box, category tag buttons, and a scrollable
//! search-history panel.
//!
//! The crate holds the pure parts of that application: the per-theme color
//! palettes, the style resolver that maps a (theme, variant) pair to a
//! concrete widget appearance, the message-driven application state machine,
//! and the view model that the widget tree is built from. Rendering itself is
//! left to the GUI toolkit; colors are kept here as exact rationals so that
//! every resolution rule can be stated and proved precisely.

pub mod color;
pub mod palette;
pub mod style;
pub mod state;
pub mod trim;
pub mod view;
