//! Applying geometry changes to the window state: font-scale changes,
//! window-size changes, and the rollback rules that keep window state and
//! render-surface state consistent.
//!
//! The font service's measurements and the render surface's answer to a
//! resize arrive as parameters; the window resize request and the
//! terminal size to push to every tab are returned.

use vstd::prelude::*;

verus! {

use crate::geometry;
use crate::geometry::{
    spec_avail_height, spec_avail_width, spec_driven_cols, spec_driven_rows,
    spec_scale_window_height, spec_scale_window_width,
};
use crate::types::{CellSize, ConfigSnapshot, Dimensions, RowsAndCols, TerminalSize};
use crate::window::{DEFAULT_DPI, TermWindow};

/// A font height below this many thousandth-points-per-inch-squared,
/// i.e. below about two physical pixels, is rejected as unusable.
pub const MIN_FONT_HEIGHT_MILLI2: u128 = 144000000;

/// The configured font size at `font_scale_milli` would render below
/// about two physical pixels tall at `dpi`: such a scale change is
/// refused outright.
pub open spec fn spec_font_scale_too_small(
    font_size_milli: u32,
    font_scale_milli: u32,
    dpi: usize,
) -> bool {
    font_size_milli * font_scale_milli * dpi < MIN_FONT_HEIGHT_MILLI2
}

/// See [`spec_font_scale_too_small`].
pub fn font_scale_too_small(font_size_milli: u32, font_scale_milli: u32, dpi: usize) -> (r: bool)
    ensures
        r == spec_font_scale_too_small(font_size_milli, font_scale_milli, dpi),
{
    proof {
        assert((font_size_milli as u128) * (font_scale_milli as u128) <= 0xffff_ffff_u128
            * 0xffff_ffff_u128 && (font_size_milli as u128) * (font_scale_milli as u128) * (
        dpi as u128) <= 0xffff_ffff_u128 * 0xffff_ffff_u128 * 0xffff_ffff_ffff_ffff_u128)
            by (nonlinear_arith)
            requires
                font_size_milli as u128 <= 0xffff_ffff,
                font_scale_milli as u128 <= 0xffff_ffff,
                dpi as u128 <= 0xffff_ffff_ffff_ffff,
        ;
        assert((font_size_milli as u128) * (font_scale_milli as u128) * (dpi as u128)
            == font_size_milli * font_scale_milli * dpi) by (nonlinear_arith);
    }
    (font_size_milli as u128) * (font_scale_milli as u128) * (dpi as u128)
        < MIN_FONT_HEIGHT_MILLI2
}

/// How a scale change ended.
#[derive(Clone, Copy, Debug, PartialEq, Eq, Structural)]
pub enum ScaleOutcome {
    /// The requested scale would render unusably small; nothing changed.
    Rejected,
    /// The font service failed to produce metrics; the prior scale was
    /// restored and nothing changed.
    FontError,
    /// The new scale and its metrics were applied.
    Applied,
}

/// The window state after a scale change: unchanged when the scale is
/// degenerate or the font service failed, else carrying the new scale
/// and metrics.
pub open spec fn spec_after_scale_change(
    pre: TermWindow,
    dims: Dimensions,
    font_scale_milli: u32,
    metrics: Option<CellSize>,
) -> TermWindow {
    if spec_font_scale_too_small(pre.config.font_size_milli, font_scale_milli, dims.dpi) {
        pre
    } else {
        match metrics {
            Some(m) => TermWindow { font_scale_milli, render_metrics: m, ..pre },
            None => pre,
        }
    }
}

/// The outcome a scale change reports.
pub open spec fn spec_scale_change_outcome(
    pre: TermWindow,
    dims: Dimensions,
    font_scale_milli: u32,
    metrics: Option<CellSize>,
) -> ScaleOutcome {
    if spec_font_scale_too_small(pre.config.font_size_milli, font_scale_milli, dims.dpi) {
        ScaleOutcome::Rejected
    } else {
        match metrics {
            Some(m) => ScaleOutcome::Applied,
            None => ScaleOutcome::FontError,
        }
    }
}

/// What applying new dimensions asks of the collaborators.
#[derive(Clone, Copy, Debug, PartialEq, Eq, Structural)]
pub struct DimsOutcome {
    /// The terminal size to push to every tab of the window.
    pub resize_tabs: TerminalSize,
    /// The window pixel size to request from the window system, when a
    /// scale change wants the window resized to preserve rows and
    /// columns.  The resize is a follow-up request: the authoritative
    /// path is the window system's own resize callback.
    pub request_window_resize: Option<Dimensions>,
    /// The render surface refused the new size, so the geometry change
    /// was rolled back and window state left consistent with the
    /// surface.
    pub rolled_back: bool,
}

/// The relation of one `apply_dimensions` call.
///
/// With `cells` present (a scale change), the terminal keeps those rows
/// and columns and fresh window dimensions are derived from them; without
/// it, rows and columns are recomputed from `target`.  The resulting
/// terminal size is pushed to the tabs in either case.  When a render
/// surface is attached and refuses the resize, the stored geometry is
/// rolled back and no window resize is requested.
pub open spec fn spec_apply_dimensions_step(
    pre: TermWindow,
    post: TermWindow,
    target: Dimensions,
    cells: Option<RowsAndCols>,
    render_resize_ok: bool,
    r: DimsOutcome,
) -> bool {
    let m = pre.render_metrics;
    let cfg = pre.config;
    let size = match cells {
        Some(c) => TerminalSize {
            rows: c.rows as u16,
            cols: c.cols as u16,
            pixel_width: (c.cols * m.width) as u16,
            pixel_height: (c.rows * m.height) as u16,
        },
        None => TerminalSize {
            rows: spec_driven_rows(target, m, cfg, pre.show_tab_bar) as u16,
            cols: spec_driven_cols(target, m, cfg) as u16,
            pixel_width: spec_avail_width(target, m, cfg) as u16,
            pixel_height: spec_avail_height(target, cfg) as u16,
        },
    };
    let requested = match cells {
        Some(c) => Some(
            Dimensions {
                pixel_width: spec_scale_window_width(c, m, cfg) as usize,
                pixel_height: spec_scale_window_height(c, m, cfg, pre.show_tab_bar) as usize,
                dpi: target.dpi,
            },
        ),
        None => None,
    };
    &&& r.resize_tabs == size
    &&& if pre.has_render_surface && !render_resize_ok {
        &&& post == pre
        &&& r.request_window_resize is None
        &&& r.rolled_back
    } else {
        &&& post == (TermWindow {
            dimensions: target,
            terminal_size: if pre.has_render_surface {
                size
            } else {
                pre.terminal_size
            },
            ..pre
        })
        &&& r.request_window_resize == requested
        &&& !r.rolled_back
    }
}

/// The overflow-freedom bounds `apply_dimensions` needs of its inputs,
/// forced by the 16-bit terminal size fields.
pub open spec fn spec_dims_in_range(
    pre: TermWindow,
    target: Dimensions,
    cells: Option<RowsAndCols>,
) -> bool {
    let m = pre.render_metrics;
    &&& 0 < m.width <= u16::MAX
    &&& 0 < m.height <= u16::MAX
    &&& match cells {
        Some(c) => {
            &&& c.rows <= u16::MAX
            &&& c.cols <= u16::MAX
            &&& c.rows * m.height <= u16::MAX
            &&& c.cols * m.width <= u16::MAX
        },
        None => {
            &&& target.pixel_width <= u16::MAX
            &&& target.pixel_height <= u16::MAX
        },
    }
}

/// A pixel rectangle, for placing the window system's text cursor.
#[derive(Clone, Copy, Debug, PartialEq, Eq, Structural)]
pub struct PixelRect {
    pub x: isize,
    pub y: isize,
    pub width: usize,
    pub height: usize,
}

impl TermWindow {
    /// The pixel rectangle the input-method text cursor should occupy:
    /// the cell the pane's cursor is in, offset by the padding and by the
    /// tab-bar row when shown.  `cursor` is the pane's cursor cell and
    /// `physical_top` the stable row at the top of its live screen.
    pub fn cursor_pixel_rect(&self, cursor_x: usize, cursor_y: isize, physical_top: isize) -> (r:
        PixelRect)
        requires
            self.render_metrics.width <= u16::MAX,
            self.render_metrics.height <= u16::MAX,
            cursor_x * self.render_metrics.width + self.config.window_padding.left <= isize::MAX,
            physical_top > isize::MIN + 1,
            ({
                let top = physical_top + (if self.show_tab_bar {
                    -1int
                } else {
                    0int
                });
                let rel = if cursor_y - top >= 0 {
                    cursor_y - top
                } else {
                    0
                };
                rel * self.render_metrics.height + self.config.window_padding.top <= isize::MAX
            }),
            cursor_y - physical_top + 1 <= isize::MAX,
        ensures
            ({
                let top = physical_top + (if self.show_tab_bar {
                    -1int
                } else {
                    0int
                });
                let rel = if cursor_y - top >= 0 {
                    cursor_y - top
                } else {
                    0
                };
                &&& r.x == cursor_x * self.render_metrics.width
                    + self.config.window_padding.left
                &&& r.y == rel * self.render_metrics.height + self.config.window_padding.top
                &&& r.width == self.render_metrics.width
                &&& r.height == self.render_metrics.height
            }),
    {
        let top: isize = physical_top + (if self.show_tab_bar {
            -1
        } else {
            0
        });
        let rel: isize = if cursor_y >= top {
            cursor_y - top
        } else {
            0
        };
        proof {
            assert(rel * self.render_metrics.height >= 0) by (nonlinear_arith)
                requires
                    rel >= 0,
                    self.render_metrics.height >= 0,
            ;
            assert(cursor_x * self.render_metrics.width >= 0) by (nonlinear_arith)
                requires
                    cursor_x >= 0,
                    self.render_metrics.width >= 0,
            ;
        }
        PixelRect {
            x: (cursor_x * self.render_metrics.width) as isize
                + self.config.window_padding.left as isize,
            y: rel * (self.render_metrics.height as isize)
                + self.config.window_padding.top as isize,
            width: self.render_metrics.width,
            height: self.render_metrics.height,
        }
    }
}

/// The relation of one `adjust_font_scale` call: with the configuration
/// asking for window resizes on font-size changes, the scale-preserving
/// path runs (as for a dpi change); otherwise the new metrics are
/// applied and rows and columns are refitted to the unchanged window.
pub open spec fn spec_adjust_font_scale_step(
    pre: TermWindow,
    post: TermWindow,
    font_scale_milli: u32,
    metrics: Option<CellSize>,
    render_resize_ok: bool,
    r: DimsOutcome,
) -> bool {
    if pre.config.adjust_window_size_when_changing_font_size {
        let scale_changed = font_scale_milli != pre.font_scale_milli;
        let mid = if scale_changed {
            spec_after_scale_change(pre, pre.dimensions, font_scale_milli, metrics)
        } else {
            pre
        };
        let cells = if scale_changed {
            Some(
                RowsAndCols {
                    rows: pre.terminal_size.rows as usize,
                    cols: pre.terminal_size.cols as usize,
                },
            )
        } else {
            None
        };
        spec_apply_dimensions_step(mid, post, pre.dimensions, cells, render_resize_ok, r)
    } else {
        let mid = spec_after_scale_change(pre, pre.dimensions, font_scale_milli, metrics);
        spec_apply_dimensions_step(mid, post, pre.dimensions, None, render_resize_ok, r)
    }
}

/// The overflow-freedom bounds `adjust_font_scale` needs, mirroring the
/// two paths of [`spec_adjust_font_scale_step`].
pub open spec fn spec_adjust_font_scale_in_range(
    pre: TermWindow,
    font_scale_milli: u32,
    metrics: Option<CellSize>,
) -> bool {
    if pre.config.adjust_window_size_when_changing_font_size {
        let scale_changed = font_scale_milli != pre.font_scale_milli;
        let mid = if scale_changed {
            spec_after_scale_change(pre, pre.dimensions, font_scale_milli, metrics)
        } else {
            pre
        };
        let cells = if scale_changed {
            Some(
                RowsAndCols {
                    rows: pre.terminal_size.rows as usize,
                    cols: pre.terminal_size.cols as usize,
                },
            )
        } else {
            None
        };
        spec_dims_in_range(mid, pre.dimensions, cells)
    } else {
        spec_dims_in_range(
            spec_after_scale_change(pre, pre.dimensions, font_scale_milli, metrics),
            pre.dimensions,
            None,
        )
    }
}

/// The terminal size a reset returns to.
pub open spec fn spec_initial_cells(cfg: ConfigSnapshot) -> RowsAndCols {
    RowsAndCols { rows: cfg.initial_rows as usize, cols: cfg.initial_cols as usize }
}

/// The window dimensions a reset derives from fresh metrics `m` at the
/// configured initial terminal size.
pub open spec fn spec_reset_dimensions(cfg: ConfigSnapshot, m: CellSize) -> Dimensions {
    let cells = spec_initial_cells(cfg);
    let stb = cfg.enable_tab_bar && !cfg.hide_tab_bar_if_only_one_tab;
    Dimensions {
        pixel_width: spec_scale_window_width(cells, m, cfg) as usize,
        pixel_height: spec_scale_window_height(cells, m, cfg, stb) as usize,
        dpi: match cfg.dpi {
            Some(d) => d as usize,
            None => DEFAULT_DPI,
        },
    }
}

/// The overflow-freedom bounds `reset_font_and_window_size` needs of the
/// fresh metrics.
pub open spec fn spec_reset_in_range(pre: TermWindow, m: CellSize) -> bool {
    let cells = spec_initial_cells(pre.config);
    &&& 0 < m.width <= u16::MAX
    &&& 0 < m.height <= u16::MAX
    &&& cells.rows * m.height <= u16::MAX
    &&& cells.cols * m.width <= u16::MAX
    &&& spec_dims_in_range(
        spec_after_scale_change(pre, spec_reset_dimensions(pre.config, m), 1000, Some(m)),
        spec_reset_dimensions(pre.config, m),
        Some(cells),
    )
}

impl TermWindow {
    /// The effective right padding under the current cell metrics; see
    /// [`crate::geometry::spec_effective_right_padding`].
    pub fn effective_right_padding(&self, config: &ConfigSnapshot) -> (r: u16)
        requires
            self.render_metrics.width <= u16::MAX,
        ensures
            r as int == crate::geometry::spec_effective_right_padding(
                *config,
                self.render_metrics,
            ),
    {
        crate::geometry::effective_right_padding(config, self.render_metrics)
    }

    /// The terminal rows and columns currently applied.
    pub fn current_cell_dimensions(&self) -> (r: RowsAndCols)
        ensures
            r == (RowsAndCols {
                rows: self.terminal_size.rows as usize,
                cols: self.terminal_size.cols as usize,
            }),
    {
        RowsAndCols {
            rows: self.terminal_size.rows as usize,
            cols: self.terminal_size.cols as usize,
        }
    }

    /// Applies a font-scale change.  A scale whose cell height would be
    /// degenerate is refused and the prior scale kept; a font-service
    /// failure (`metrics` absent) likewise restores the prior scale.
    /// Otherwise the new scale and its measured cell metrics are stored.
    /// On success the caller must clear its shape caches and rebuild the
    /// glyph atlas before painting again.
    pub fn apply_scale_change(
        &mut self,
        dims: &Dimensions,
        font_scale_milli: u32,
        metrics: Option<CellSize>,
    ) -> (r: ScaleOutcome)
        ensures
            *final(self) == spec_after_scale_change(
                *old(self),
                *dims,
                font_scale_milli,
                metrics,
            ),
            r == spec_scale_change_outcome(*old(self), *dims, font_scale_milli, metrics),
    {
        if font_scale_too_small(self.config.font_size_milli, font_scale_milli, dims.dpi) {
            return ScaleOutcome::Rejected;
        }
        match metrics {
            Some(m) => {
                self.font_scale_milli = font_scale_milli;
                self.render_metrics = m;
                ScaleOutcome::Applied
            },
            None => ScaleOutcome::FontError,
        }
    }

    /// Applies new window dimensions; see [`spec_apply_dimensions_step`].
    /// The caller must push `resize_tabs` to every tab of the window,
    /// honour `request_window_resize`, and refresh the title afterwards.
    pub fn apply_dimensions(
        &mut self,
        target: &Dimensions,
        cells: Option<RowsAndCols>,
        render_resize_ok: bool,
    ) -> (r: DimsOutcome)
        requires
            spec_dims_in_range(*old(self), *target, cells),
        ensures
            spec_apply_dimensions_step(
                *old(self),
                *final(self),
                *target,
                cells,
                render_resize_ok,
                r,
            ),
    {
        let (size, requested) = match cells {
            Some(c) => {
                let (size, dims2) = geometry::compute_scale_preserved(
                    c,
                    self.render_metrics,
                    &self.config,
                    self.show_tab_bar,
                    target.dpi,
                );
                (size, Some(dims2))
            },
            None => {
                let size = geometry::compute_window_driven(
                    *target,
                    self.render_metrics,
                    &self.config,
                    self.show_tab_bar,
                );
                (size, None)
            },
        };
        if self.has_render_surface && !render_resize_ok {
            return DimsOutcome {
                resize_tabs: size,
                request_window_resize: None,
                rolled_back: true,
            };
        }
        self.dimensions = *target;
        if self.has_render_surface {
            self.terminal_size = size;
        }
        DimsOutcome { resize_tabs: size, request_window_resize: requested, rolled_back: false }
    }

    /// Handles a change of dimensions and/or display scale, as the
    /// window system's resize callback reports it.  When the dpi or the
    /// font scale differs from the current one, the scale change is
    /// applied first and the current rows and columns are preserved
    /// through the recompute; otherwise the new dimensions drive fresh
    /// rows and columns.
    pub fn scaling_changed(
        &mut self,
        dims: Dimensions,
        font_scale_milli: u32,
        metrics: Option<CellSize>,
        render_resize_ok: bool,
    ) -> (r: DimsOutcome)
        requires
            ({
                let scale_changed = dims.dpi != old(self).dimensions.dpi || font_scale_milli != old(
                    self,
                ).font_scale_milli;
                let mid = if scale_changed {
                    spec_after_scale_change(*old(self), dims, font_scale_milli, metrics)
                } else {
                    *old(self)
                };
                let cells = if scale_changed {
                    Some(
                        RowsAndCols {
                            rows: old(self).terminal_size.rows as usize,
                            cols: old(self).terminal_size.cols as usize,
                        },
                    )
                } else {
                    None
                };
                spec_dims_in_range(mid, dims, cells)
            }),
        ensures
            ({
                let scale_changed = dims.dpi != old(self).dimensions.dpi || font_scale_milli != old(
                    self,
                ).font_scale_milli;
                let mid = if scale_changed {
                    spec_after_scale_change(*old(self), dims, font_scale_milli, metrics)
                } else {
                    *old(self)
                };
                let cells = if scale_changed {
                    Some(
                        RowsAndCols {
                            rows: old(self).terminal_size.rows as usize,
                            cols: old(self).terminal_size.cols as usize,
                        },
                    )
                } else {
                    None
                };
                spec_apply_dimensions_step(mid, *final(self), dims, cells, render_resize_ok, r)
            }),
    {
        let scale_changed = dims.dpi != self.dimensions.dpi || font_scale_milli
            != self.font_scale_milli;
        let cells = if scale_changed {
            let c = self.current_cell_dimensions();
            self.apply_scale_change(&dims, font_scale_milli, metrics);
            Some(c)
        } else {
            None
        };
        self.apply_dimensions(&dims, cells, render_resize_ok)
    }

    /// Applies a font-size change to `font_scale_milli`, honouring the
    /// configuration choice between resizing the window to keep rows and
    /// columns (the scale-preserving path) and keeping the window and
    /// refitting rows and columns to it.
    pub fn adjust_font_scale(
        &mut self,
        font_scale_milli: u32,
        metrics: Option<CellSize>,
        render_resize_ok: bool,
    ) -> (r: DimsOutcome)
        requires
            spec_adjust_font_scale_in_range(*old(self), font_scale_milli, metrics),
        ensures
            spec_adjust_font_scale_step(
                *old(self),
                *final(self),
                font_scale_milli,
                metrics,
                render_resize_ok,
                r,
            ),
    {
        if self.config.adjust_window_size_when_changing_font_size {
            let dims = self.dimensions;
            self.scaling_changed(dims, font_scale_milli, metrics, render_resize_ok)
        } else {
            let dims = self.dimensions;
            self.apply_scale_change(&dims, font_scale_milli, metrics);
            self.apply_dimensions(&dims, None, render_resize_ok)
        }
    }

    /// Shrinks the font by a tenth; see [`Self::adjust_font_scale`].
    pub fn decrease_font_size(&mut self, metrics: Option<CellSize>, render_resize_ok: bool) -> (r:
        DimsOutcome)
        requires
            spec_adjust_font_scale_in_range(
                *old(self),
                (old(self).font_scale_milli * 9 / 10) as u32,
                metrics,
            ),
        ensures
            spec_adjust_font_scale_step(
                *old(self),
                *final(self),
                (old(self).font_scale_milli * 9 / 10) as u32,
                metrics,
                render_resize_ok,
                r,
            ),
    {
        let scale = self.font_scale_milli / 10 * 9 + self.font_scale_milli % 10 * 9 / 10;
        proof {
            let s = old(self).font_scale_milli as int;
            assert((s / 10 * 9 + s % 10 * 9 / 10) == s * 9 / 10) by (nonlinear_arith);
        }
        self.adjust_font_scale(scale, metrics, render_resize_ok)
    }

    /// Grows the font by a tenth; see [`Self::adjust_font_scale`].
    pub fn increase_font_size(&mut self, metrics: Option<CellSize>, render_resize_ok: bool) -> (r:
        DimsOutcome)
        requires
            old(self).font_scale_milli * 11 <= u32::MAX,
            spec_adjust_font_scale_in_range(
                *old(self),
                (old(self).font_scale_milli * 11 / 10) as u32,
                metrics,
            ),
        ensures
            spec_adjust_font_scale_step(
                *old(self),
                *final(self),
                (old(self).font_scale_milli * 11 / 10) as u32,
                metrics,
                render_resize_ok,
                r,
            ),
    {
        let scale = self.font_scale_milli * 11 / 10;
        self.adjust_font_scale(scale, metrics, render_resize_ok)
    }

    /// Returns the font to its configured size; see
    /// [`Self::adjust_font_scale`].
    pub fn reset_font_size(&mut self, metrics: Option<CellSize>, render_resize_ok: bool) -> (r:
        DimsOutcome)
        requires
            spec_adjust_font_scale_in_range(*old(self), 1000, metrics),
        ensures
            spec_adjust_font_scale_step(
                *old(self),
                *final(self),
                1000,
                metrics,
                render_resize_ok,
                r,
            ),
    {
        self.adjust_font_scale(1000, metrics, render_resize_ok)
    }

    /// Returns both the font and the window to their configured initial
    /// state: the configured terminal size, metrics measured afresh at
    /// the configured font size (`metrics`; absent when the font service
    /// failed, in which case nothing changes), and window dimensions
    /// derived scale-preservingly from them.
    pub fn reset_font_and_window_size(
        &mut self,
        metrics: Option<CellSize>,
        render_resize_ok: bool,
    ) -> (r: Option<DimsOutcome>)
        requires
            metrics matches Some(m) ==> spec_reset_in_range(*old(self), m),
        ensures
            metrics is None ==> *final(self) == *old(self) && r is None,
            metrics matches Some(m) ==> ({
                let cells = spec_initial_cells(old(self).config);
                let dims0 = spec_reset_dimensions(old(self).config, m);
                let mid = spec_after_scale_change(*old(self), dims0, 1000, metrics);
                r matches Some(out) && spec_apply_dimensions_step(
                    mid,
                    *final(self),
                    dims0,
                    Some(cells),
                    render_resize_ok,
                    out,
                )
            }),
    {
        let m = match metrics {
            Some(m) => m,
            None => {
                return None;
            },
        };
        let cells = RowsAndCols {
            rows: self.config.initial_rows as usize,
            cols: self.config.initial_cols as usize,
        };
        let show_tab_bar = self.config.enable_tab_bar && !self.config.hide_tab_bar_if_only_one_tab;
        let dpi = match self.config.dpi {
            Some(d) => d as usize,
            None => DEFAULT_DPI,
        };
        let (_initial_size, dims0) = geometry::compute_scale_preserved(
            cells,
            m,
            &self.config,
            show_tab_bar,
            dpi,
        );
        proof {
            assert(dims0 == spec_reset_dimensions(old(self).config, m));
        }
        self.apply_scale_change(&dims0, 1000, metrics);
        Some(self.apply_dimensions(&dims0, Some(cells), render_resize_ok))
    }

    /// Handles the window system reporting new pixel dimensions.  A
    /// all-zero size (a minimized window) is ignored; anything else runs
    /// the scale-and-dimensions recompute at the current font scale.
    pub fn resize_event(
        &mut self,
        dims: Dimensions,
        metrics: Option<CellSize>,
        render_resize_ok: bool,
    ) -> (r: Option<DimsOutcome>)
        requires
            !(dims.pixel_width == 0 || dims.pixel_height == 0) ==> ({
                let scale_changed = dims.dpi != old(self).dimensions.dpi;
                let mid = if scale_changed {
                    spec_after_scale_change(*old(self), dims, old(self).font_scale_milli, metrics)
                } else {
                    *old(self)
                };
                let cells = if scale_changed {
                    Some(
                        RowsAndCols {
                            rows: old(self).terminal_size.rows as usize,
                            cols: old(self).terminal_size.cols as usize,
                        },
                    )
                } else {
                    None
                };
                spec_dims_in_range(mid, dims, cells)
            }),
        ensures
            dims.pixel_width == 0 || dims.pixel_height == 0 ==> *final(self) == *old(self) && r
                is None,
            !(dims.pixel_width == 0 || dims.pixel_height == 0) ==> ({
                let scale_changed = dims.dpi != old(self).dimensions.dpi;
                let mid = if scale_changed {
                    spec_after_scale_change(*old(self), dims, old(self).font_scale_milli, metrics)
                } else {
                    *old(self)
                };
                let cells = if scale_changed {
                    Some(
                        RowsAndCols {
                            rows: old(self).terminal_size.rows as usize,
                            cols: old(self).terminal_size.cols as usize,
                        },
                    )
                } else {
                    None
                };
                r matches Some(out) && spec_apply_dimensions_step(
                    mid,
                    *final(self),
                    dims,
                    cells,
                    render_resize_ok,
                    out,
                )
            }),
    {
        if dims.pixel_width == 0 || dims.pixel_height == 0 {
            return None;
        }
        let scale = self.font_scale_milli;
        Some(self.scaling_changed(dims, scale, metrics, render_resize_ok))
    }
}

} // verus!
