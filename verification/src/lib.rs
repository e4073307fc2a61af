//! Per-window display state for a terminal emulator.
//!
//! This crate models the mutable state that one on-screen terminal window
//! carries: which overlay pane (if any) is substituted for a tab or a pane,
//! how the user's text selection is tracked, where the visible scrollback
//! viewport is anchored, and how pixel/cell geometry is recomputed when the
//! window is resized or the display scale changes.  A periodic maintenance
//! tick decides whether a repaint is needed.
//!
//! The surrounding system (the multiplexer that owns panes, the window
//! system, the renderer, fonts, the clipboard) is a set of collaborators:
//! the functions here take their answers as plain values and return the
//! decisions and effects the caller must carry out.

pub mod types;
pub mod statemap;
pub mod selection;
pub mod geometry;
pub mod window;
pub mod overlay;
pub mod viewport;
pub mod scale;
pub mod text;
pub mod maintenance;
pub mod actions;
