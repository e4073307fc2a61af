use termwindow::geometry::{
    compute_scale_preserved, compute_window_driven, effective_right_padding,
};
use termwindow::scale::font_scale_too_small;
use termwindow::types::{
    CellSize, CloseConfirmation, ConfigSnapshot, Dimensions, RowsAndCols, WindowPadding,
};
use termwindow::window::TermWindow;

fn config_with_padding(padding: WindowPadding, scroll_bar: bool) -> ConfigSnapshot {
    ConfigSnapshot {
        generation: 1,
        window_padding: padding,
        enable_tab_bar: true,
        hide_tab_bar_if_only_one_tab: false,
        enable_scroll_bar: scroll_bar,
        cursor_blink_rate: 500,
        scroll_to_bottom_on_input: false,
        adjust_window_size_when_changing_font_size: true,
        window_close_confirmation: CloseConfirmation::AlwaysPrompt,
        font_size_milli: 12000,
        dpi: None,
        initial_rows: 24,
        initial_cols: 80,
    }
}

#[test]
fn right_padding_defaults_to_cell_width_with_scroll_bar() {
    // bottom padding 0, scroll bar enabled, right padding unset: the
    // effective right padding is one cell width, not zero
    let cfg = config_with_padding(
        WindowPadding { left: 0, top: 0, right: 0, bottom: 0 },
        true,
    );
    let cell = CellSize { width: 8, height: 16 };
    assert_eq!(effective_right_padding(&cfg, cell), 8);
}

#[test]
fn right_padding_honours_explicit_configuration() {
    let cfg = config_with_padding(
        WindowPadding { left: 0, top: 0, right: 5, bottom: 0 },
        true,
    );
    let cell = CellSize { width: 8, height: 16 };
    assert_eq!(effective_right_padding(&cfg, cell), 5);
    let cfg = config_with_padding(
        WindowPadding { left: 0, top: 0, right: 0, bottom: 0 },
        false,
    );
    assert_eq!(effective_right_padding(&cfg, cell), 0);
}

#[test]
fn scale_preserving_derives_window_pixels() {
    let cfg = config_with_padding(
        WindowPadding { left: 2, top: 3, right: 0, bottom: 4 },
        true,
    );
    let cell = CellSize { width: 8, height: 16 };
    let cells = RowsAndCols { rows: 24, cols: 80 };
    let (size, dims) = compute_scale_preserved(cells, cell, &cfg, true, 96);
    assert_eq!(size.rows, 24);
    assert_eq!(size.cols, 80);
    assert_eq!(size.pixel_width, 80 * 8);
    assert_eq!(size.pixel_height, 24 * 16);
    // width: cols * cell + left + effective right (scroll bar -> one cell)
    assert_eq!(dims.pixel_width, 80 * 8 + 2 + 8);
    // height: (rows + tab bar) * cell + top + bottom
    assert_eq!(dims.pixel_height, 25 * 16 + 3 + 4);
    assert_eq!(dims.dpi, 96);
}

#[test]
fn window_driven_floors_to_whole_cells() {
    let cfg = config_with_padding(
        WindowPadding { left: 2, top: 3, right: 0, bottom: 4 },
        false,
    );
    let cell = CellSize { width: 8, height: 16 };
    let dims = Dimensions { pixel_width: 647, pixel_height: 412, dpi: 96 };
    let size = compute_window_driven(dims, cell, &cfg, true);
    // available: 645 x 405; floored: 80 cols, 25 rows, minus tab bar
    assert_eq!(size.cols, 80);
    assert_eq!(size.rows, 24);
    assert_eq!(size.pixel_width, 645);
    assert_eq!(size.pixel_height, 405);
}

#[test]
fn geometry_round_trip_is_a_fixpoint() {
    // scale-preserving resize, then a window-size-driven resize with the
    // dimensions it just requested, reproduces the same rows and columns
    let cfg = config_with_padding(
        WindowPadding { left: 7, top: 1, right: 0, bottom: 9 },
        true,
    );
    let cell = CellSize { width: 9, height: 21 };
    let cells = RowsAndCols { rows: 50, cols: 132 };
    let (_, dims) = compute_scale_preserved(cells, cell, &cfg, true, 144);
    let size = compute_window_driven(dims, cell, &cfg, true);
    assert_eq!(size.rows as usize, cells.rows);
    assert_eq!(size.cols as usize, cells.cols);
    // and again without a tab bar
    let (_, dims) = compute_scale_preserved(cells, cell, &cfg, false, 144);
    let size = compute_window_driven(dims, cell, &cfg, false);
    assert_eq!(size.rows as usize, cells.rows);
    assert_eq!(size.cols as usize, cells.cols);
}

#[test]
fn degenerate_font_scale_is_detected() {
    // 12pt at scale 1.0 and 96 dpi is fine
    assert!(!font_scale_too_small(12000, 1000, 96));
    // scaled down to one hundredth it would be under two pixels tall
    assert!(font_scale_too_small(12000, 10, 96));
    // the boundary: font_size * scale * dpi == 144e6 is not "too small"
    assert!(!font_scale_too_small(1000, 1500, 96));
}

#[test]
fn new_window_initial_geometry() {
    let cfg = config_with_padding(
        WindowPadding { left: 2, top: 3, right: 0, bottom: 4 },
        true,
    );
    let w = TermWindow::new_window(
        String::from("main"),
        cfg,
        1,
        Some(RowsAndCols { rows: 24, cols: 80 }),
        CellSize { width: 8, height: 16 },
        7,
    );
    assert_eq!(w.terminal_size.rows, 24);
    assert_eq!(w.terminal_size.cols, 80);
    assert_eq!(w.terminal_size.pixel_width, 640);
    assert_eq!(w.terminal_size.pixel_height, 384);
    assert_eq!(w.dimensions.pixel_width, 640 + 2 + 8);
    assert_eq!(w.dimensions.pixel_height, 25 * 16 + 3 + 4);
    assert_eq!(w.dimensions.dpi, 96);
    assert!(w.show_tab_bar);
    assert!(w.show_scroll_bar);
    assert_eq!(w.font_scale_milli, 1000);
    assert_eq!(w.last_blink_paint, 7);
    assert!(w.focused.is_none());
    assert!(!w.has_render_surface);
}

#[test]
fn new_window_falls_back_when_multiplexer_has_no_tab() {
    let cfg = config_with_padding(
        WindowPadding { left: 0, top: 0, right: 0, bottom: 0 },
        false,
    );
    let w = TermWindow::new_window(
        String::from("main"),
        cfg,
        1,
        None,
        CellSize { width: 10, height: 20 },
        0,
    );
    assert_eq!(w.terminal_size.rows, 24);
    assert_eq!(w.terminal_size.cols, 80);
}
