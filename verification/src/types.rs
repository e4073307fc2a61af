//! Plain data carried between the window core and its collaborators.
//!
//! The multiplexer, the window system, the font service and the renderer
//! are outside this crate; what the window core reads from them is modelled
//! here as plain values.  Fractional quantities (font sizes, scale factors)
//! are carried in thousandths so that every computation is exact integer
//! arithmetic.

use vstd::prelude::*;

verus! {

/// Identifies a pane owned by the multiplexer.
pub type PaneId = usize;

/// Identifies a tab owned by the multiplexer.
pub type TabId = usize;

/// A row of the scrollback, stable across scrollback growth and trimming.
pub type StableRowIndex = isize;

/// How the user asked to be prompted before a window closes.
#[derive(Clone, Copy, Debug, PartialEq, Eq, Structural)]
pub enum CloseConfirmation {
    NeverPrompt,
    AlwaysPrompt,
}

/// Pixel padding around the terminal cell grid.
#[derive(Clone, Copy, Debug, PartialEq, Eq, Structural)]
pub struct WindowPadding {
    pub left: u16,
    pub top: u16,
    pub right: u16,
    pub bottom: u16,
}

/// The slice of the configuration that the window core reads, captured as
/// one generation of the versioned configuration store.
#[derive(Clone, Copy, Debug, PartialEq, Eq, Structural)]
pub struct ConfigSnapshot {
    /// Generation counter of the configuration store; a mismatch with the
    /// store's current generation means this snapshot is stale.
    pub generation: usize,
    pub window_padding: WindowPadding,
    pub enable_tab_bar: bool,
    pub hide_tab_bar_if_only_one_tab: bool,
    pub enable_scroll_bar: bool,
    /// Cursor blink interval in milliseconds; 0 disables blinking.
    pub cursor_blink_rate: u64,
    pub scroll_to_bottom_on_input: bool,
    pub adjust_window_size_when_changing_font_size: bool,
    pub window_close_confirmation: CloseConfirmation,
    /// Configured font size in thousandths of a point.
    pub font_size_milli: u32,
    /// Configured dpi, if the user pinned one.
    pub dpi: Option<u32>,
    /// Terminal size that a fresh window starts with.
    pub initial_rows: u16,
    pub initial_cols: u16,
}

/// Pixel size of one terminal cell, as the font service measured it.
#[derive(Clone, Copy, Debug, PartialEq, Eq, Structural)]
pub struct CellSize {
    pub width: usize,
    pub height: usize,
}

/// Pixel dimensions and dpi of the whole window surface.
#[derive(Clone, Copy, Debug, PartialEq, Eq, Structural)]
pub struct Dimensions {
    pub pixel_width: usize,
    pub pixel_height: usize,
    pub dpi: usize,
}

/// Terminal dimensions handed to every tab: whole cells, and the pixel
/// area those cells cover.
#[derive(Clone, Copy, Debug, PartialEq, Eq, Structural)]
pub struct TerminalSize {
    pub rows: u16,
    pub cols: u16,
    pub pixel_width: u16,
    pub pixel_height: u16,
}

/// A count of terminal rows and columns, held fixed across a scale change.
#[derive(Clone, Copy, Debug, PartialEq, Eq, Structural)]
pub struct RowsAndCols {
    pub rows: usize,
    pub cols: usize,
}

/// What a pane reports about its own scrollback and visible region.
#[derive(Clone, Copy, Debug, PartialEq, Eq, Structural)]
pub struct RenderDims {
    /// Columns visible in the pane.
    pub cols: usize,
    /// Rows visible in the pane.
    pub viewport_rows: usize,
    /// Total rows of scrollback the pane retains.
    pub scrollback_rows: usize,
    /// Stable row index of the top of the live (non-scrollback) screen.
    pub physical_top: StableRowIndex,
    /// Stable row index of the oldest retained scrollback row.
    pub scrollback_top: StableRowIndex,
}

impl RenderDims {
    /// The zero value a fresh window starts from, before any pane has
    /// reported its dimensions.
    pub fn zeroed() -> (r: RenderDims)
        ensures
            r == (RenderDims {
                cols: 0,
                viewport_rows: 0,
                scrollback_rows: 0,
                physical_top: 0,
                scrollback_top: 0,
            }),
    {
        RenderDims { cols: 0, viewport_rows: 0, scrollback_rows: 0, physical_top: 0, scrollback_top: 0 }
    }
}

/// Which way a pane split divides its region.
#[derive(Clone, Copy, Debug, PartialEq, Eq, Structural)]
pub enum SplitDirection {
    Horizontal,
    Vertical,
}

/// The classification a pane gives a region of its output.
#[derive(Clone, Copy, Debug, PartialEq, Eq, Structural)]
pub enum SemanticType {
    Output,
    Input,
    Prompt,
}

/// A tagged region of terminal output, as the pane reports it; only the
/// row it starts on matters for zone navigation.
#[derive(Clone, Copy, Debug, PartialEq, Eq, Structural)]
pub struct SemanticZone {
    pub start_y: StableRowIndex,
    pub semantic_type: SemanticType,
}

/// The kinds of transient overlay pane that can substitute for real
/// content.  Search and copy-mode track the viewport and must be told when
/// it moves; the others are plain substitutes.
#[derive(Clone, Copy, Debug, PartialEq, Eq, Structural)]
pub enum OverlayKind {
    Search,
    CopyMode,
    Confirmation,
    Launcher,
    TabNavigator,
}

/// A handle to an overlay pane: the pane id the multiplexer knows it by,
/// and which kind of overlay it is.
#[derive(Clone, Copy, Debug, PartialEq, Eq, Structural)]
pub struct OverlayHandle {
    pub pane_id: PaneId,
    pub kind: OverlayKind,
}

impl OverlayKind {
    /// True for overlays that must be notified when the viewport of the
    /// pane they cover moves.
    pub fn tracks_viewport(&self) -> (r: bool)
        ensures
            r == self.spec_tracks_viewport(),
    {
        match self {
            OverlayKind::Search => true,
            OverlayKind::CopyMode => true,
            _ => false,
        }
    }

    /// Search and copy-mode mark lines dirty for highlighting on purpose;
    /// a dirty-line sweep must not clear the selection they manage.
    pub fn preserves_selection(&self) -> (r: bool)
        ensures
            r == self.spec_tracks_viewport(),
    {
        self.tracks_viewport()
    }

    pub open spec fn spec_tracks_viewport(self) -> bool {
        self == OverlayKind::Search || self == OverlayKind::CopyMode
    }
}

} // verus!
