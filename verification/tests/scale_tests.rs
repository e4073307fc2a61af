use termwindow::types::{
    CellSize, CloseConfirmation, ConfigSnapshot, Dimensions, RowsAndCols, WindowPadding,
};
use termwindow::window::TermWindow;

fn base_config(adjust_window: bool) -> ConfigSnapshot {
    ConfigSnapshot {
        generation: 1,
        window_padding: WindowPadding { left: 0, top: 0, right: 0, bottom: 0 },
        enable_tab_bar: false,
        hide_tab_bar_if_only_one_tab: false,
        enable_scroll_bar: false,
        cursor_blink_rate: 0,
        scroll_to_bottom_on_input: false,
        adjust_window_size_when_changing_font_size: adjust_window,
        window_close_confirmation: CloseConfirmation::NeverPrompt,
        font_size_milli: 12000,
        dpi: None,
        initial_rows: 24,
        initial_cols: 80,
    }
}

fn fresh_window(adjust_window: bool) -> TermWindow {
    let mut w = TermWindow::new_window(
        String::from("test"),
        base_config(adjust_window),
        1,
        Some(RowsAndCols { rows: 24, cols: 80 }),
        CellSize { width: 8, height: 16 },
        0,
    );
    w.surface_created(true);
    w
}

#[test]
fn surface_creation_failure_is_fatal() {
    let mut w = TermWindow::new_window(
        String::from("test"),
        base_config(true),
        1,
        None,
        CellSize { width: 8, height: 16 },
        0,
    );
    let fatal = w.surface_created(true);
    assert!(!fatal);
    assert!(w.has_render_surface);
    let fatal = w.surface_created(false);
    assert!(fatal);
    assert!(!w.has_render_surface);
}

#[test]
fn window_driven_resize_updates_terminal_size() {
    let mut w = fresh_window(true);
    let out = w.resize_event(
        Dimensions { pixel_width: 400, pixel_height: 320, dpi: 96 },
        None,
        true,
    );
    let out = out.unwrap();
    assert_eq!(out.resize_tabs.cols, 50);
    assert_eq!(out.resize_tabs.rows, 20);
    assert_eq!(w.terminal_size.cols, 50);
    assert_eq!(w.terminal_size.rows, 20);
    assert_eq!(w.dimensions.pixel_width, 400);
    assert!(out.request_window_resize.is_none());
    assert!(!out.rolled_back);
}

#[test]
fn zero_sized_resize_is_ignored() {
    let mut w = fresh_window(true);
    let before_cols = w.terminal_size.cols;
    let out = w.resize_event(Dimensions { pixel_width: 0, pixel_height: 320, dpi: 96 }, None, true);
    assert!(out.is_none());
    assert_eq!(w.terminal_size.cols, before_cols);
}

#[test]
fn render_surface_refusal_rolls_geometry_back() {
    let mut w = fresh_window(true);
    let before = w.dimensions;
    let out = w.resize_event(
        Dimensions { pixel_width: 400, pixel_height: 320, dpi: 96 },
        None,
        false,
    );
    let out = out.unwrap();
    assert!(out.rolled_back);
    assert!(out.request_window_resize.is_none());
    assert_eq!(w.dimensions, before);
    assert_eq!(w.terminal_size.cols, 80);
}

#[test]
fn dpi_change_preserves_rows_and_cols_and_requests_resize() {
    let mut w = fresh_window(true);
    // doubled dpi: the font service measures double-size cells
    let out = w.resize_event(
        Dimensions { pixel_width: 640, pixel_height: 384, dpi: 192 },
        Some(CellSize { width: 16, height: 32 }),
        true,
    );
    let out = out.unwrap();
    // rows and cols held fixed through the scale change
    assert_eq!(out.resize_tabs.rows, 24);
    assert_eq!(out.resize_tabs.cols, 80);
    assert_eq!(w.render_metrics, CellSize { width: 16, height: 32 });
    // and the window is asked to grow to fit them
    let req = out.request_window_resize.unwrap();
    assert_eq!(req.pixel_width, 80 * 16);
    assert_eq!(req.pixel_height, 24 * 32);
}

#[test]
fn font_size_changes_scale_by_tenths() {
    let mut w = fresh_window(false);
    let out = w.increase_font_size(Some(CellSize { width: 9, height: 18 }), true);
    assert_eq!(w.font_scale_milli, 1100);
    assert_eq!(w.render_metrics, CellSize { width: 9, height: 18 });
    assert!(out.request_window_resize.is_none());
    let _ = w.decrease_font_size(Some(CellSize { width: 8, height: 16 }), true);
    assert_eq!(w.font_scale_milli, 990);
    let _ = w.reset_font_size(Some(CellSize { width: 8, height: 16 }), true);
    assert_eq!(w.font_scale_milli, 1000);
}

#[test]
fn degenerate_scale_change_is_refused_and_rolled_back() {
    let mut w = fresh_window(false);
    // 12pt * 0.001 at 96dpi would be far below two pixels tall
    let _ = w.adjust_font_scale(1, Some(CellSize { width: 1, height: 1 }), true);
    assert_eq!(w.font_scale_milli, 1000);
    assert_eq!(w.render_metrics, CellSize { width: 8, height: 16 });
}

#[test]
fn font_service_failure_keeps_prior_scale() {
    let mut w = fresh_window(false);
    let _ = w.adjust_font_scale(2000, None, true);
    assert_eq!(w.font_scale_milli, 1000);
    assert_eq!(w.render_metrics, CellSize { width: 8, height: 16 });
}

#[test]
fn reset_font_and_window_size_returns_to_initial() {
    let mut w = fresh_window(true);
    w.resize_event(Dimensions { pixel_width: 400, pixel_height: 320, dpi: 96 }, None, true);
    assert_eq!(w.terminal_size.cols, 50);
    let out = w.reset_font_and_window_size(Some(CellSize { width: 8, height: 16 }), true);
    let out = out.unwrap();
    assert_eq!(out.resize_tabs.rows, 24);
    assert_eq!(out.resize_tabs.cols, 80);
    assert_eq!(w.font_scale_milli, 1000);
    let req = out.request_window_resize.unwrap();
    assert_eq!(req.pixel_width, 640);
    assert_eq!(req.pixel_height, 384);
}

#[test]
fn reset_with_font_failure_changes_nothing() {
    let mut w = fresh_window(true);
    let before = w.dimensions;
    let out = w.reset_font_and_window_size(None, true);
    assert!(out.is_none());
    assert_eq!(w.dimensions, before);
}

#[test]
fn cursor_rect_accounts_for_padding_and_tab_bar() {
    let mut w = TermWindow::new_window(
        String::from("test"),
        ConfigSnapshot {
            window_padding: WindowPadding { left: 10, top: 5, right: 0, bottom: 0 },
            enable_tab_bar: true,
            ..base_config(true)
        },
        1,
        Some(RowsAndCols { rows: 24, cols: 80 }),
        CellSize { width: 8, height: 16 },
        0,
    );
    assert!(w.show_tab_bar);
    // cursor at column 3, row 52 of a pane whose live screen starts at 50:
    // the tab bar shifts the origin up one row
    let r = w.cursor_pixel_rect(3, 52, 50);
    assert_eq!(r.x, 3 * 8 + 10);
    assert_eq!(r.y, 3 * 16 + 5);
    assert_eq!(r.width, 8);
    assert_eq!(r.height, 16);
    w.show_tab_bar = false;
    let r = w.cursor_pixel_rect(3, 52, 50);
    assert_eq!(r.y, 2 * 16 + 5);
}

#[test]
fn context_loss_rebuild_carries_state_but_resets_surface() {
    let mut w = fresh_window(true);
    w.focus_change(true, 42);
    w.set_viewport(5, Some(10), termwindow::types::RenderDims {
        cols: 80,
        viewport_rows: 24,
        scrollback_rows: 100,
        physical_top: 50,
        scrollback_top: 0,
    });
    let rebuilt = w.into_rebuilt(99);
    assert!(rebuilt.focused.is_none());
    assert!(!rebuilt.has_render_surface);
    assert_eq!(rebuilt.last_blink_paint, 99);
    assert_eq!(rebuilt.get_viewport(5), Some(10));
    assert_eq!(rebuilt.terminal_size.cols, 80);
}
