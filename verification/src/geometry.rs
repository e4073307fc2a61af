//! The geometry engine: pure transforms between window pixel dimensions
//! and terminal rows/columns, given cell metrics, padding, dpi and tab-bar
//! visibility.
//!
//! Two modes exist.  A scale-preserving recompute holds rows and columns
//! fixed and derives fresh window pixel dimensions; a window-size-driven
//! recompute takes pixel dimensions as given and derives rows and columns.
//! Applying the second to the output of the first reproduces the same
//! rows and columns.

use vstd::prelude::*;

verus! {

use vstd::arithmetic::div_mod::lemma_div_multiples_vanish;
use vstd::arithmetic::mul::lemma_mul_is_commutative;
use vstd::arithmetic::mul::lemma_mul_is_distributive_add_other_way;
use crate::types::{CellSize, ConfigSnapshot, Dimensions, RowsAndCols, TerminalSize};

/// `a - b`, floored at zero.
pub open spec fn sat_sub(a: int, b: int) -> int {
    if a >= b {
        a - b
    } else {
        0
    }
}

/// One row is reserved for the tab bar while it is shown.
pub open spec fn spec_tab_bar_rows(show_tab_bar: bool) -> int {
    if show_tab_bar {
        1
    } else {
        0
    }
}

/// The padding applied right of the cell grid.  The configured default is
/// zero, but a visible scroll bar needs room: with the scroll bar enabled
/// and no explicit right padding configured, one cell width is used.
pub open spec fn spec_effective_right_padding(config: ConfigSnapshot, cell: CellSize) -> int {
    if config.enable_scroll_bar && config.window_padding.right == 0 {
        cell.width as int
    } else {
        config.window_padding.right as int
    }
}

/// Window pixel width that fits `cols` columns plus horizontal padding.
pub open spec fn spec_scale_window_width(
    cells: RowsAndCols,
    cell: CellSize,
    config: ConfigSnapshot,
) -> int {
    cells.cols * cell.width + config.window_padding.left + spec_effective_right_padding(
        config,
        cell,
    )
}

/// Window pixel height that fits `rows` rows, the tab bar if shown, plus
/// vertical padding.
pub open spec fn spec_scale_window_height(
    cells: RowsAndCols,
    cell: CellSize,
    config: ConfigSnapshot,
    show_tab_bar: bool,
) -> int {
    (cells.rows + spec_tab_bar_rows(show_tab_bar)) * cell.height + config.window_padding.top
        + config.window_padding.bottom
}

/// Interior pixel width left for cells after horizontal padding.
pub open spec fn spec_avail_width(dims: Dimensions, cell: CellSize, config: ConfigSnapshot) -> int {
    sat_sub(
        dims.pixel_width as int,
        config.window_padding.left + spec_effective_right_padding(config, cell),
    )
}

/// Interior pixel height left for cells after vertical padding.
pub open spec fn spec_avail_height(dims: Dimensions, config: ConfigSnapshot) -> int {
    sat_sub(
        dims.pixel_height as int,
        config.window_padding.top + config.window_padding.bottom,
    )
}

/// Whole columns that fit in the interior width.
pub open spec fn spec_driven_cols(
    dims: Dimensions,
    cell: CellSize,
    config: ConfigSnapshot,
) -> int {
    spec_avail_width(dims, cell, config) / (cell.width as int)
}

/// Whole rows that fit in the interior height, less the tab-bar row.
pub open spec fn spec_driven_rows(
    dims: Dimensions,
    cell: CellSize,
    config: ConfigSnapshot,
    show_tab_bar: bool,
) -> int {
    sat_sub(
        spec_avail_height(dims, config) / (cell.height as int),
        spec_tab_bar_rows(show_tab_bar),
    )
}

/// See [`spec_effective_right_padding`].
pub fn effective_right_padding(config: &ConfigSnapshot, cell: CellSize) -> (r: u16)
    requires
        cell.width <= u16::MAX,
    ensures
        r as int == spec_effective_right_padding(*config, cell),
{
    if config.enable_scroll_bar && config.window_padding.right == 0 {
        cell.width as u16
    } else {
        config.window_padding.right
    }
}

/// The scale-preserving transform: terminal rows and columns are held
/// fixed at `cells`, and the window pixel dimensions that fit them under
/// the new cell metrics are derived.  Returns the terminal size to push
/// to every tab and the window dimensions to request.
pub fn compute_scale_preserved(
    cells: RowsAndCols,
    cell: CellSize,
    config: &ConfigSnapshot,
    show_tab_bar: bool,
    dpi: usize,
) -> (r: (TerminalSize, Dimensions))
    requires
        0 < cell.width <= u16::MAX,
        0 < cell.height <= u16::MAX,
        cells.rows <= u16::MAX,
        cells.cols <= u16::MAX,
        cells.rows * cell.height <= u16::MAX,
        cells.cols * cell.width <= u16::MAX,
    ensures
        r.0.rows == cells.rows,
        r.0.cols == cells.cols,
        r.0.pixel_height == cells.rows * cell.height,
        r.0.pixel_width == cells.cols * cell.width,
        r.1.pixel_width as int == spec_scale_window_width(cells, cell, *config),
        r.1.pixel_height as int == spec_scale_window_height(cells, cell, *config, show_tab_bar),
        r.1.dpi == dpi,
{
    proof {
        lemma_mul_is_distributive_add_other_way(
            cell.height as int,
            cells.rows as int,
            spec_tab_bar_rows(show_tab_bar),
        );
    }
    let size = TerminalSize {
        rows: cells.rows as u16,
        cols: cells.cols as u16,
        pixel_height: (cells.rows * cell.height) as u16,
        pixel_width: (cells.cols * cell.width) as u16,
    };
    let rows_with_bar = cells.rows + (if show_tab_bar { 1usize } else { 0usize });
    let pixel_height = rows_with_bar * cell.height + config.window_padding.top as usize
        + config.window_padding.bottom as usize;
    let pixel_width = cells.cols * cell.width + config.window_padding.left as usize
        + effective_right_padding(config, cell) as usize;
    (size, Dimensions { pixel_width, pixel_height, dpi })
}

/// The window-size-driven transform: the pixel dimensions are taken as
/// given, the interior is what padding leaves over, and rows and columns
/// are the whole cells that fit, less the tab-bar row.
pub fn compute_window_driven(
    dims: Dimensions,
    cell: CellSize,
    config: &ConfigSnapshot,
    show_tab_bar: bool,
) -> (r: TerminalSize)
    requires
        0 < cell.width <= u16::MAX,
        0 < cell.height <= u16::MAX,
        dims.pixel_width <= u16::MAX,
        dims.pixel_height <= u16::MAX,
    ensures
        r.cols as int == spec_driven_cols(dims, cell, *config),
        r.rows as int == spec_driven_rows(dims, cell, *config, show_tab_bar),
        r.pixel_width as int == spec_avail_width(dims, cell, *config),
        r.pixel_height as int == spec_avail_height(dims, *config),
{
    let horizontal_pad = config.window_padding.left as usize + effective_right_padding(
        config,
        cell,
    ) as usize;
    let avail_width = if dims.pixel_width >= horizontal_pad {
        dims.pixel_width - horizontal_pad
    } else {
        0
    };
    let vertical_pad = config.window_padding.top as usize + config.window_padding.bottom as usize;
    let avail_height = if dims.pixel_height >= vertical_pad {
        dims.pixel_height - vertical_pad
    } else {
        0
    };
    let bar = if show_tab_bar { 1usize } else { 0usize };
    let fit_rows = avail_height / cell.height;
    let rows = if fit_rows >= bar {
        fit_rows - bar
    } else {
        0
    };
    let cols = avail_width / cell.width;
    TerminalSize {
        rows: rows as u16,
        cols: cols as u16,
        pixel_height: avail_height as u16,
        pixel_width: avail_width as u16,
    }
}

/// Law: the two transforms compose to a fixpoint.  A scale-preserving
/// recompute at `cells` asks for window dimensions which, when fed back
/// through the window-size-driven transform with the same cell metrics,
/// padding and tab-bar visibility, reproduce exactly `cells` — the
/// geometry does not oscillate.
pub proof fn lemma_geometry_round_trip(
    cells: RowsAndCols,
    cell: CellSize,
    config: ConfigSnapshot,
    show_tab_bar: bool,
    dpi: usize,
)
    requires
        0 < cell.width,
        0 < cell.height,
        spec_scale_window_width(cells, cell, config) <= usize::MAX,
        spec_scale_window_height(cells, cell, config, show_tab_bar) <= usize::MAX,
    ensures
        ({
            let dims = Dimensions {
                pixel_width: spec_scale_window_width(cells, cell, config) as usize,
                pixel_height: spec_scale_window_height(cells, cell, config, show_tab_bar) as usize,
                dpi,
            };
            spec_driven_cols(dims, cell, config) == cells.cols && spec_driven_rows(
                dims,
                cell,
                config,
                show_tab_bar,
            ) == cells.rows
        }),
{
    let width = spec_scale_window_width(cells, cell, config);
    let height = spec_scale_window_height(cells, cell, config, show_tab_bar);
    let dims = Dimensions { pixel_width: width as usize, pixel_height: height as usize, dpi };
    let bar = spec_tab_bar_rows(show_tab_bar);
    assert(spec_avail_width(dims, cell, config) == cells.cols * cell.width);
    assert(spec_avail_height(dims, config) == (cells.rows + bar) * cell.height);
    lemma_div_multiples_vanish(cells.cols as int, cell.width as int);
    lemma_mul_is_commutative(cell.width as int, cells.cols as int);
    lemma_div_multiples_vanish(cells.rows + bar, cell.height as int);
    lemma_mul_is_commutative(cell.height as int, cells.rows + bar);
    assert(spec_driven_cols(dims, cell, config) == cells.cols);
    assert(spec_avail_height(dims, config) / (cell.height as int) == cells.rows + bar);
    assert(spec_driven_rows(dims, cell, config, show_tab_bar) == cells.rows);
}

} // verus!
