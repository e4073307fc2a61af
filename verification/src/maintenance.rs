//! The periodic maintenance tick, the config-reload check it runs first,
//! and the scroll-bar refresh: the lowest-frequency but
//! highest-consequence control loop, deciding each period whether the
//! window must repaint, and noticing when its multiplexer window has
//! emptied.

use vstd::prelude::*;

verus! {

use crate::scale::{DimsOutcome, spec_after_scale_change, spec_apply_dimensions_step,
    spec_dims_in_range};
use crate::types::CellSize;
use crate::selection::{Selection, SelectionRange};
use crate::types::{ConfigSnapshot, OverlayKind, PaneId, RenderDims, RowsAndCols, StableRowIndex,
    TabId};
use crate::window::{PaneState, TermWindow, spec_show_tab_bar, show_tab_bar_for};

/// What the tick learns about one rendered pane slot, after the overlay
/// precedence rule has been applied: the pane actually shown there (an
/// overlay's own pane id when one is substituted), and what that pane
/// reports about itself.
pub struct PaneTick {
    /// The rendered pane.
    pub pane_id: PaneId,
    /// The overlay kind rendered in this slot, or absent for a real pane.
    pub overlay: Option<OverlayKind>,
    pub is_active: bool,
    /// The effective cursor shape is a blinking variant.
    pub cursor_shape_blinking: bool,
    pub dims: RenderDims,
    /// The rows the pane reports dirty within its current viewport.
    pub dirty_rows: Vec<StableRowIndex>,
}

/// What one tick decided.
#[derive(Clone, Copy, Debug, PartialEq, Eq, Structural)]
pub struct TickOutcome {
    /// The multiplexer window has no panes left: close this window.
    pub close_window: bool,
    /// Issue exactly one invalidate request to the render surface.
    pub needs_invalidate: bool,
}

/// The two windows agree on every field except the pane-state table and
/// the blink timestamp.
pub open spec fn unchanged_but_panes_and_blink(a: TermWindow, b: TermWindow) -> bool {
    b == (TermWindow {
        pane_states: b.pane_states,
        last_blink_paint: b.last_blink_paint,
        ..a
    })
}

/// The selection spans a row the pane reports dirty.
pub open spec fn spec_rows_intersect(sel: SelectionRange, dirty: Seq<StableRowIndex>) -> bool {
    exists|j: int|
        0 <= j < dirty.len() && sel.spec_normalize().start.y <= #[trigger] dirty[j]
            <= sel.spec_normalize().end.y
}

/// A blink-driven repaint is due for this pane: blinking is configured,
/// the pane is active, the window is focused, the cursor shape blinks,
/// and the blink interval elapsed since the last blink-driven repaint.
pub open spec fn spec_blink_due(w: TermWindow, e: PaneTick, now: u64) -> bool {
    &&& w.config.cursor_blink_rate != 0
    &&& e.is_active
    &&& w.focused is Some
    &&& e.cursor_shape_blinking
    &&& now - w.last_blink_paint > w.config.cursor_blink_rate
}

/// This pane slot clears the selection of its rendered pane: it has
/// dirty rows, the slot does not show a search or copy-mode overlay
/// (which mark rows dirty for highlighting on purpose and keep their
/// selection), and the selection intersects the dirty rows.
pub open spec fn spec_entry_clears(w: TermWindow, e: PaneTick) -> bool {
    &&& e.dirty_rows.len() > 0
    &&& !(match e.overlay {
        Some(k) => k.spec_tracks_viewport(),
        None => false,
    })
    &&& match w.spec_pane_state(e.pane_id).selection.range {
        Some(sel) => spec_rows_intersect(sel, e.dirty_rows@),
        None => false,
    }
}

/// Some slot among the first `upto` clears the selection of pane `p`.
pub open spec fn spec_cleared_by(w: TermWindow, panes: Seq<PaneTick>, upto: int, p: PaneId) -> bool {
    exists|j: int| 0 <= j < upto && (#[trigger] panes[j]).pane_id == p && spec_entry_clears(w, panes[j])
}

/// See [`spec_rows_intersect`].
fn rows_intersect(sel: &SelectionRange, dirty: &Vec<StableRowIndex>) -> (r: bool)
    ensures
        r == spec_rows_intersect(*sel, dirty@),
{
    let norm = sel.normalize();
    let n = dirty.len();
    let mut j: usize = 0;
    while j < n
        invariant
            0 <= j <= dirty@.len(),
            n == dirty@.len(),
            norm == sel.spec_normalize(),
            forall|k: int|
                0 <= k < j ==> !(norm.start.y <= #[trigger] dirty@[k] <= norm.end.y),
        decreases n - j,
    {
        if norm.start.y <= dirty[j] && dirty[j] <= norm.end.y {
            return true;
        }
        j = j + 1;
    }
    false
}

impl TermWindow {
    /// The stored configuration is stale against the store's current
    /// generation; a reload must be applied before anything else in the
    /// tick, so its geometry side effects are visible to the rest.
    pub fn config_stale(&self, current_generation: usize) -> (r: bool)
        ensures
            r == (self.config.generation != current_generation),
    {
        self.config.generation != current_generation
    }

    /// One periodic maintenance tick over the rendered panes (the
    /// caller enumerates them under the overlay precedence rule and
    /// queries each pane's dirty rows in its current viewport).
    ///
    /// With no panes the multiplexer window has emptied and this window
    /// must close.  Otherwise: a due cursor blink on the active pane
    /// marks for repaint and resets the blink timer; any pane with
    /// dirty rows marks for repaint and clears its selection when the
    /// dirty rows intersect it — except under a search or copy-mode
    /// overlay; the multiplexer's invalidated flag (`mux_invalidated`,
    /// read-and-cleared by the caller) marks for repaint.  However many
    /// steps marked, the outcome asks for at most one invalidate.
    pub fn periodic_window_maintenance(
        &mut self,
        now: u64,
        panes: &Vec<PaneTick>,
        mux_invalidated: bool,
    ) -> (r: TickOutcome)
        requires
            now >= old(self).last_blink_paint,
        ensures
            panes@.len() == 0 ==> *final(self) == *old(self) && r == (TickOutcome {
                close_window: true,
                needs_invalidate: false,
            }),
            panes@.len() > 0 ==> {
                let blink = exists|j: int|
                    0 <= j < panes@.len() && spec_blink_due(*old(self), #[trigger] panes@[j], now);
                let dirty = exists|j: int|
                    0 <= j < panes@.len() && (#[trigger] panes@[j]).dirty_rows@.len() > 0;
                &&& !r.close_window
                &&& r.needs_invalidate == (blink || dirty || mux_invalidated)
                &&& final(self).last_blink_paint == if blink {
                    now
                } else {
                    old(self).last_blink_paint
                }
                &&& forall|p: PaneId|
                    final(self).spec_pane_state(p) == (PaneState {
                        selection: if spec_cleared_by(*old(self), panes@, panes@.len() as int, p) {
                            Selection { start: None, range: None }
                        } else {
                            old(self).spec_pane_state(p).selection
                        },
                        ..old(self).spec_pane_state(p)
                    })
                &&& forall|t: TabId| final(self).spec_tab_state(t) == old(self).spec_tab_state(t)
                &&& unchanged_but_panes_and_blink(*old(self), *final(self))
            },
    {
        if panes.len() == 0 {
            return TickOutcome { close_window: true, needs_invalidate: false };
        }
        let mut needs_invalidate = false;
        let n = panes.len();
        let mut i: usize = 0;
        while i < n
            invariant
                0 <= i <= panes@.len(),
                n == panes@.len(),
                now >= old(self).last_blink_paint,
                ({
                    let blink = exists|j: int|
                        0 <= j < i && spec_blink_due(*old(self), #[trigger] panes@[j], now);
                    let dirty = exists|j: int|
                        0 <= j < i && (#[trigger] panes@[j]).dirty_rows@.len() > 0;
                    &&& needs_invalidate == (blink || dirty)
                    &&& self.last_blink_paint == if blink {
                        now
                    } else {
                        old(self).last_blink_paint
                    }
                }),
                forall|p: PaneId|
                    self.spec_pane_state(p) == (PaneState {
                        selection: if spec_cleared_by(*old(self), panes@, i as int, p) {
                            Selection { start: None, range: None }
                        } else {
                            old(self).spec_pane_state(p).selection
                        },
                        ..old(self).spec_pane_state(p)
                    }),
                forall|t: TabId| self.spec_tab_state(t) == old(self).spec_tab_state(t),
                unchanged_but_panes_and_blink(*old(self), *self),
            decreases n - i,
        {
            let e = &panes[i];
            if self.config.cursor_blink_rate != 0 && e.is_active && self.focused.is_some()
                && e.cursor_shape_blinking {
                if now - self.last_blink_paint > self.config.cursor_blink_rate {
                    needs_invalidate = true;
                    self.last_blink_paint = now;
                }
            }
            if e.dirty_rows.len() > 0 {
                let preserves = match e.overlay {
                    Some(k) => k.preserves_selection(),
                    None => false,
                };
                if !preserves {
                    let sel = self.selection(e.pane_id);
                    let clear = match sel.range {
                        Some(range) => rows_intersect(&range, &e.dirty_rows),
                        None => false,
                    };
                    if clear {
                        self.set_selection(e.pane_id, Selection { start: None, range: None });
                    }
                }
                needs_invalidate = true;
            }
            i = i + 1;
        }
        if mux_invalidated {
            needs_invalidate = true;
        }
        TickOutcome { close_window: false, needs_invalidate }
    }

    /// Applies a freshly loaded configuration: visibility flags follow
    /// the new configuration and the multiplexer's tab count
    /// (`num_tabs`; absent when the multiplexer window is already gone,
    /// in which case only the configuration itself is stored), and the
    /// geometry is recomputed at the current dimensions, holding the
    /// current rows and columns through the font refresh.  The caller
    /// must reload palette and background image, clear its caches, and
    /// invalidate afterwards.
    pub fn config_was_reloaded(
        &mut self,
        new_config: ConfigSnapshot,
        num_tabs: Option<usize>,
        metrics: Option<CellSize>,
        render_resize_ok: bool,
    ) -> (r: Option<DimsOutcome>)
        requires
            num_tabs matches Some(n) ==> ({
                let mid1 = TermWindow {
                    config: new_config,
                    show_tab_bar: spec_show_tab_bar(new_config, n),
                    show_scroll_bar: new_config.enable_scroll_bar,
                    ..*old(self)
                };
                let mid2 = spec_after_scale_change(
                    mid1,
                    old(self).dimensions,
                    old(self).font_scale_milli,
                    metrics,
                );
                spec_dims_in_range(
                    mid2,
                    old(self).dimensions,
                    Some(
                        RowsAndCols {
                            rows: old(self).terminal_size.rows as usize,
                            cols: old(self).terminal_size.cols as usize,
                        },
                    ),
                )
            }),
        ensures
            num_tabs is None ==> *final(self) == (TermWindow {
                config: new_config,
                ..*old(self)
            }) && r is None,
            num_tabs matches Some(n) ==> ({
                let mid1 = TermWindow {
                    config: new_config,
                    show_tab_bar: spec_show_tab_bar(new_config, n),
                    show_scroll_bar: new_config.enable_scroll_bar,
                    ..*old(self)
                };
                let mid2 = spec_after_scale_change(
                    mid1,
                    old(self).dimensions,
                    old(self).font_scale_milli,
                    metrics,
                );
                r matches Some(out) && spec_apply_dimensions_step(
                    mid2,
                    *final(self),
                    old(self).dimensions,
                    Some(
                        RowsAndCols {
                            rows: old(self).terminal_size.rows as usize,
                            cols: old(self).terminal_size.cols as usize,
                        },
                    ),
                    render_resize_ok,
                    out,
                )
            }),
    {
        self.config = new_config;
        let n = match num_tabs {
            Some(n) => n,
            None => {
                return None;
            },
        };
        self.show_tab_bar = show_tab_bar_for(&self.config, n);
        self.show_scroll_bar = self.config.enable_scroll_bar;
        let dims = self.dimensions;
        let cells = self.current_cell_dimensions();
        let scale = self.font_scale_milli;
        self.apply_scale_change(&dims, scale, metrics);
        Some(self.apply_dimensions(&dims, Some(cells), render_resize_ok))
    }

    /// Refreshes the scroll bar from the active pane's dimensions
    /// (`dims`; absent when there is no active pane).  A repaint is
    /// requested only when the scroll bar is shown and the dimensions
    /// moved since it was last drawn.
    pub fn update_scrollbar(&mut self, dims: Option<RenderDims>) -> (invalidate: bool)
        ensures
            !old(self).show_scroll_bar || dims is None || dims == Some(
                old(self).last_scroll_info,
            ) ==> *final(self) == *old(self) && !invalidate,
            dims matches Some(d) ==> (old(self).show_scroll_bar && d != old(
                self,
            ).last_scroll_info ==> *final(self) == (TermWindow {
                last_scroll_info: d,
                ..*old(self)
            }) && invalidate),
    {
        if !self.show_scroll_bar {
            return false;
        }
        let d = match dims {
            Some(d) => d,
            None => {
                return false;
            },
        };
        if d == self.last_scroll_info {
            return false;
        }
        self.last_scroll_info = d;
        true
    }
}

} // verus!
