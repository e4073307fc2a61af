//! The per-window state: geometry snapshot, focus, tab-bar and scroll-bar
//! visibility, blink timing, and the keyed tab and pane state tables.
//!
//! Everything the window system, the multiplexer or the renderer would be
//! asked for arrives as plain parameters; everything they must be told is
//! returned as a value.

use vstd::prelude::*;

verus! {

use crate::geometry;
use crate::geometry::{spec_scale_window_height, spec_scale_window_width};
use crate::selection::{Selection, SelectionCoordinate};
use crate::statemap::SlotTable;
use crate::types::{
    CellSize, ConfigSnapshot, Dimensions, OverlayHandle, PaneId, RenderDims, RowsAndCols,
    StableRowIndex, TabId, TerminalSize,
};

/// Dpi assumed when the configuration does not pin one.
pub const DEFAULT_DPI: usize = 96;

/// Rows a fresh window assumes when the multiplexer cannot say yet.
pub const FALLBACK_ROWS: usize = 24;

/// Columns a fresh window assumes when the multiplexer cannot say yet.
pub const FALLBACK_COLS: usize = 80;

/// Per-tab state: at most one tab-level overlay, which, while present, is
/// rendered in place of the tab's whole pane layout and receives all
/// input.  Entries persist; only the overlay field toggles.
#[derive(Clone, Copy, Debug, PartialEq, Eq, Structural)]
pub struct TabState {
    pub overlay: Option<OverlayHandle>,
}

impl Default for TabState {
    /// A tab starts with no overlay.
    fn default() -> (r: TabState)
        ensures
            r == (TabState { overlay: None }),
    {
        TabState { overlay: None }
    }
}

/// Per-pane state: the scroll viewport (absent means pinned to the live
/// bottom of scrollback), the selection, and an optional pane-level
/// overlay that substitutes for this one pane's content.
#[derive(Clone, Copy, Debug, PartialEq, Eq, Structural)]
pub struct PaneState {
    pub viewport: Option<StableRowIndex>,
    pub selection: Selection,
    pub overlay: Option<OverlayHandle>,
}

impl Default for PaneState {
    /// A pane starts pinned to the live bottom, with no selection and no
    /// overlay.
    fn default() -> (r: PaneState)
        ensures
            r == (PaneState {
                viewport: None,
                selection: Selection { start: None, range: None },
                overlay: None,
            }),
    {
        PaneState {
            viewport: None,
            selection: Selection { start: None, range: None },
            overlay: None,
        }
    }
}

/// The state of one on-screen terminal window.
pub struct TermWindow {
    /// The window-class label the window was created under.
    pub window_class: String,
    /// The configuration generation this window last applied.
    pub config: ConfigSnapshot,
    /// When keyboard focus was most recently received, or absent while
    /// unfocused.
    pub focused: Option<u64>,
    /// Window pixel dimensions and dpi.
    pub dimensions: Dimensions,
    /// Terminal dimensions pushed to every tab.
    pub terminal_size: TerminalSize,
    /// Pixel size of one cell under the current font metrics.
    pub render_metrics: CellSize,
    /// Current font scale in thousandths; 1000 is the configured size.
    pub font_scale_milli: u32,
    /// Whether a render surface is currently attached; it is lost on
    /// context loss and absent until the window system reports creation.
    pub has_render_surface: bool,
    /// The multiplexer window this window displays.
    pub mux_window_id: usize,
    pub show_tab_bar: bool,
    pub show_scroll_bar: bool,
    /// When a blink-driven repaint last ran, in milliseconds.
    pub last_blink_paint: u64,
    /// The pane dimensions the scroll bar was last drawn from.
    pub last_scroll_info: RenderDims,
    /// Where the mouse last was, in terminal cell coordinates.
    pub last_mouse_terminal_coords: SelectionCoordinate,
    /// Per-tab state, keyed by tab id.
    pub tab_states: SlotTable<TabState>,
    /// Per-pane state, keyed by pane id.
    pub pane_states: SlotTable<PaneState>,
}

impl TermWindow {
    /// The state of `tab_id`, default on first access.
    pub open spec fn spec_tab_state(self, tab_id: TabId) -> TabState {
        self.tab_states.spec_get(tab_id)
    }

    /// The state of `pane_id`, default on first access.
    pub open spec fn spec_pane_state(self, pane_id: PaneId) -> PaneState {
        self.pane_states.spec_get(pane_id)
    }

    /// The tab and pane tables read as defaults everywhere.
    pub open spec fn spec_tables_empty(self) -> bool {
        &&& self.tab_states.spec_default() == (TabState { overlay: None })
        &&& self.pane_states.spec_default() == (PaneState {
            viewport: None,
            selection: Selection { start: None, range: None },
            overlay: None,
        })
        &&& forall|t: TabId| self.spec_tab_state(t) == (TabState { overlay: None })
        &&& forall|p: PaneId|
            self.spec_pane_state(p) == (PaneState {
                viewport: None,
                selection: Selection { start: None, range: None },
                overlay: None,
            })
    }

    /// Sets up the state of a window first shown for `mux_window_id`.
    ///
    /// The terminal starts at the size the multiplexer reports for the
    /// active tab (or a conventional fallback when it has none yet), and
    /// the window pixel dimensions are derived scale-preservingly from
    /// that size, the measured cell metrics, the padding, and the tab bar
    /// shown only when configured for a single-tab window.
    pub fn new_window(
        window_class: String,
        config: ConfigSnapshot,
        mux_window_id: usize,
        initial: Option<RowsAndCols>,
        cell: CellSize,
        now: u64,
    ) -> (r: TermWindow)
        requires
            0 < cell.width <= u16::MAX,
            0 < cell.height <= u16::MAX,
            initial matches Some(c) ==> c.rows <= u16::MAX && c.cols <= u16::MAX && c.rows
                * cell.height <= u16::MAX && c.cols * cell.width <= u16::MAX,
            FALLBACK_ROWS * cell.height <= u16::MAX,
            FALLBACK_COLS * cell.width <= u16::MAX,
        ensures
            r.window_class == window_class,
            r.config == config,
            r.mux_window_id == mux_window_id,
            r.focused is None,
            !r.has_render_surface,
            r.font_scale_milli == 1000,
            r.last_blink_paint == now,
            r.render_metrics == cell,
            r.show_tab_bar == (config.enable_tab_bar && !config.hide_tab_bar_if_only_one_tab),
            r.show_scroll_bar == config.enable_scroll_bar,
            r.spec_tables_empty(),
            ({
                let cells = match initial {
                    Some(c) => c,
                    None => RowsAndCols { rows: FALLBACK_ROWS, cols: FALLBACK_COLS },
                };
                let bar = config.enable_tab_bar && !config.hide_tab_bar_if_only_one_tab;
                &&& r.terminal_size.rows == cells.rows
                &&& r.terminal_size.cols == cells.cols
                &&& r.terminal_size.pixel_width == cells.cols * cell.width
                &&& r.terminal_size.pixel_height == cells.rows * cell.height
                &&& r.dimensions.pixel_width as int == spec_scale_window_width(
                    cells,
                    cell,
                    config,
                )
                &&& r.dimensions.pixel_height as int == spec_scale_window_height(
                    cells,
                    cell,
                    config,
                    bar,
                )
                &&& r.dimensions.dpi == (match config.dpi {
                    Some(d) => d as usize,
                    None => DEFAULT_DPI,
                })
            }),
    {
        let cells = match initial {
            Some(c) => c,
            None => RowsAndCols { rows: FALLBACK_ROWS, cols: FALLBACK_COLS },
        };
        let show_tab_bar = config.enable_tab_bar && !config.hide_tab_bar_if_only_one_tab;
        let dpi = match config.dpi {
            Some(d) => d as usize,
            None => DEFAULT_DPI,
        };
        let (terminal_size, dimensions) = geometry::compute_scale_preserved(
            cells,
            cell,
            &config,
            show_tab_bar,
            dpi,
        );
        TermWindow {
            window_class,
            config,
            focused: None,
            dimensions,
            terminal_size,
            render_metrics: cell,
            font_scale_milli: 1000,
            has_render_surface: false,
            mux_window_id,
            show_tab_bar,
            show_scroll_bar: config.enable_scroll_bar,
            last_blink_paint: now,
            last_scroll_info: RenderDims::zeroed(),
            last_mouse_terminal_coords: SelectionCoordinate { x: 0, y: -1 },
            tab_states: SlotTable::new(TabState::default()),
            pane_states: SlotTable::new(PaneState::default()),
        }
    }

    /// Changes the window-class label used for windows created after this
    /// call.
    pub fn set_window_class(&mut self, cls: String)
        ensures
            *final(self) == (TermWindow { window_class: cls, ..*old(self) }),
    {
        self.window_class = cls;
    }

    /// Reads the state of `pane_id`; an id never written reads as the
    /// default pane state.
    pub fn pane_state(&self, pane_id: PaneId) -> (r: PaneState)
        ensures
            r == self.spec_pane_state(pane_id),
    {
        self.pane_states.get(pane_id)
    }

    /// Reads the state of `tab_id`; an id never written reads as the
    /// default tab state.
    pub fn tab_state(&self, tab_id: TabId) -> (r: TabState)
        ensures
            r == self.spec_tab_state(tab_id),
    {
        self.tab_states.get(tab_id)
    }

    /// Writes the state of `pane_id`, leaving every other pane unchanged.
    pub fn set_pane_state(&mut self, pane_id: PaneId, state: PaneState)
        ensures
            final(self).spec_pane_state(pane_id) == state,
            forall|p: PaneId|
                p != pane_id ==> final(self).spec_pane_state(p) == old(self).spec_pane_state(p),
            forall|t: TabId| final(self).spec_tab_state(t) == old(self).spec_tab_state(t),
            final(self).pane_states.spec_default() == old(self).pane_states.spec_default(),
            unchanged_but_pane_states(*old(self), *final(self)),
    {
        self.pane_states.set(pane_id, state);
    }

    /// Writes the state of `tab_id`, leaving every other tab unchanged.
    pub fn set_tab_state(&mut self, tab_id: TabId, state: TabState)
        ensures
            final(self).spec_tab_state(tab_id) == state,
            forall|t: TabId|
                t != tab_id ==> final(self).spec_tab_state(t) == old(self).spec_tab_state(t),
            forall|p: PaneId| final(self).spec_pane_state(p) == old(self).spec_pane_state(p),
            final(self).tab_states.spec_default() == old(self).tab_states.spec_default(),
            unchanged_but_tab_states(*old(self), *final(self)),
    {
        self.tab_states.set(tab_id, state);
    }

    /// The selection state of `pane_id`.
    pub fn selection(&self, pane_id: PaneId) -> (r: Selection)
        ensures
            r == self.spec_pane_state(pane_id).selection,
    {
        self.pane_state(pane_id).selection
    }

    /// Replaces the selection state of `pane_id`.
    pub fn set_selection(&mut self, pane_id: PaneId, sel: Selection)
        ensures
            final(self).spec_pane_state(pane_id) == (PaneState {
                selection: sel,
                ..old(self).spec_pane_state(pane_id)
            }),
            forall|p: PaneId|
                p != pane_id ==> final(self).spec_pane_state(p) == old(self).spec_pane_state(p),
            forall|t: TabId| final(self).spec_tab_state(t) == old(self).spec_tab_state(t),
            final(self).pane_states.spec_default() == old(self).pane_states.spec_default(),
            unchanged_but_pane_states(*old(self), *final(self)),
    {
        let mut state = self.pane_state(pane_id);
        state.selection = sel;
        self.set_pane_state(pane_id, state);
    }

    /// Records keyboard focus coming or going.  Losing focus forgets the
    /// focus instant; either way the caller must repaint so the cursor is
    /// redrawn for the new focus state, and must tell the pane the user
    /// is looking at (under the overlay precedence rule) that focus
    /// changed.
    pub fn focus_change(&mut self, focused: bool, now: u64) -> (invalidate: bool)
        ensures
            *final(self) == (TermWindow {
                focused: if focused {
                    Some(now)
                } else {
                    None
                },
                ..*old(self)
            }),
            invalidate,
    {
        self.focused = if focused {
            Some(now)
        } else {
            None
        };
        true
    }

    /// Records the outcome of the window system creating (or failing to
    /// create) the render surface.  A window without a render surface has
    /// no degraded mode: the returned flag tells the caller the failure
    /// is fatal.
    pub fn surface_created(&mut self, ok: bool) -> (fatal: bool)
        ensures
            *final(self) == (TermWindow { has_render_surface: ok, ..*old(self) }),
            fatal == !ok,
    {
        self.has_render_surface = ok;
        !ok
    }

    /// Carries this window's state into the replacement window built
    /// after a rendering-context loss: tables, geometry and configuration
    /// survive; focus, the render surface and the blink timer start over.
    pub fn into_rebuilt(self, now: u64) -> (r: TermWindow)
        ensures
            r == (TermWindow {
                focused: None,
                has_render_surface: false,
                last_blink_paint: now,
                ..self
            }),
    {
        TermWindow { focused: None, has_render_surface: false, last_blink_paint: now, ..self }
    }
}

/// Whether the tab bar is shown: a lone tab can hide it when configured
/// to, any other count follows the enable switch alone.
pub open spec fn spec_show_tab_bar(config: ConfigSnapshot, num_tabs: usize) -> bool {
    if num_tabs == 1 {
        config.enable_tab_bar && !config.hide_tab_bar_if_only_one_tab
    } else {
        config.enable_tab_bar
    }
}

/// See [`spec_show_tab_bar`].
pub fn show_tab_bar_for(config: &ConfigSnapshot, num_tabs: usize) -> (r: bool)
    ensures
        r == spec_show_tab_bar(*config, num_tabs),
{
    if num_tabs == 1 {
        config.enable_tab_bar && !config.hide_tab_bar_if_only_one_tab
    } else {
        config.enable_tab_bar
    }
}

/// The two windows agree on every field except the pane-state table.
pub open spec fn unchanged_but_pane_states(a: TermWindow, b: TermWindow) -> bool {
    b == (TermWindow { pane_states: b.pane_states, ..a })
}

/// The two windows agree on every field except the tab-state table.
pub open spec fn unchanged_but_tab_states(a: TermWindow, b: TermWindow) -> bool {
    b == (TermWindow { tab_states: b.tab_states, ..a })
}

} // verus!
