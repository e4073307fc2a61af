use termwindow::maintenance::PaneTick;
use termwindow::selection::{SelectionCoordinate, SelectionMode, UnitRange, selection_begin,
    selection_extend};
use termwindow::types::{
    CellSize, CloseConfirmation, ConfigSnapshot, OverlayHandle, OverlayKind, RenderDims,
    RowsAndCols, WindowPadding,
};
use termwindow::window::TermWindow;

fn config_with_blink(blink: u64) -> ConfigSnapshot {
    ConfigSnapshot {
        generation: 1,
        window_padding: WindowPadding { left: 0, top: 0, right: 0, bottom: 0 },
        enable_tab_bar: true,
        hide_tab_bar_if_only_one_tab: false,
        enable_scroll_bar: true,
        cursor_blink_rate: blink,
        scroll_to_bottom_on_input: false,
        adjust_window_size_when_changing_font_size: true,
        window_close_confirmation: CloseConfirmation::AlwaysPrompt,
        font_size_milli: 12000,
        dpi: None,
        initial_rows: 24,
        initial_cols: 80,
    }
}

fn window_with_blink(blink: u64) -> TermWindow {
    TermWindow::new_window(
        String::from("test"),
        config_with_blink(blink),
        1,
        Some(RowsAndCols { rows: 24, cols: 80 }),
        CellSize { width: 8, height: 16 },
        0,
    )
}

fn dims() -> RenderDims {
    RenderDims {
        cols: 80,
        viewport_rows: 24,
        scrollback_rows: 100,
        physical_top: 50,
        scrollback_top: 0,
    }
}

fn tick_entry(pane_id: usize, dirty: Vec<isize>) -> PaneTick {
    PaneTick {
        pane_id,
        overlay: None,
        is_active: true,
        cursor_shape_blinking: true,
        dims: dims(),
        dirty_rows: dirty,
    }
}

fn select_rows(w: &mut TermWindow, pane_id: usize, from: isize, to: isize) {
    let units: Vec<UnitRange> = Vec::new();
    let mut sel = w.selection(pane_id);
    selection_begin(&mut sel, SelectionMode::Cell, SelectionCoordinate { x: 0, y: from }, &units);
    selection_extend(&mut sel, SelectionMode::Cell, SelectionCoordinate { x: 5, y: to }, &units);
    w.set_selection(pane_id, sel);
}

#[test]
fn empty_window_closes() {
    let mut w = window_with_blink(500);
    let r = w.periodic_window_maintenance(1000, &Vec::new(), false);
    assert!(r.close_window);
    assert!(!r.needs_invalidate);
}

#[test]
fn blink_rate_zero_never_blinks() {
    let mut w = window_with_blink(0);
    w.focus_change(true, 0);
    // a long time has elapsed, the pane is active and its cursor blinks,
    // but blinking is disabled
    let panes = vec![tick_entry(1, Vec::new())];
    let r = w.periodic_window_maintenance(1_000_000, &panes, false);
    assert!(!r.close_window);
    assert!(!r.needs_invalidate);
    assert_eq!(w.last_blink_paint, 0);
}

#[test]
fn due_blink_invalidates_and_resets_timer() {
    let mut w = window_with_blink(500);
    w.focus_change(true, 0);
    let panes = vec![tick_entry(1, Vec::new())];
    let r = w.periodic_window_maintenance(501, &panes, false);
    assert!(r.needs_invalidate);
    assert_eq!(w.last_blink_paint, 501);
    // the next tick within the interval does not blink again
    let r = w.periodic_window_maintenance(900, &panes, false);
    assert!(!r.needs_invalidate);
    assert_eq!(w.last_blink_paint, 501);
}

#[test]
fn unfocused_window_does_not_blink() {
    let mut w = window_with_blink(500);
    let panes = vec![tick_entry(1, Vec::new())];
    let r = w.periodic_window_maintenance(10_000, &panes, false);
    assert!(!r.needs_invalidate);
}

#[test]
fn dirty_rows_intersecting_selection_clear_it() {
    let mut w = window_with_blink(0);
    select_rows(&mut w, 1, 10, 12);
    let panes = vec![tick_entry(1, vec![11])];
    let r = w.periodic_window_maintenance(1, &panes, false);
    assert!(r.needs_invalidate);
    assert_eq!(w.selection(1).range, None);
    assert_eq!(w.selection(1).start, None);
}

#[test]
fn dirty_rows_outside_selection_keep_it() {
    let mut w = window_with_blink(0);
    select_rows(&mut w, 1, 10, 12);
    let panes = vec![tick_entry(1, vec![40])];
    let r = w.periodic_window_maintenance(1, &panes, false);
    assert!(r.needs_invalidate);
    assert!(w.selection(1).range.is_some());
}

#[test]
fn search_overlay_preserves_selection_under_dirty_rows() {
    let mut w = window_with_blink(0);
    // the search overlay pane (id 9) substitutes pane 1 and manages a
    // selection of its own under its own pane id
    w.assign_overlay_for_pane(1, OverlayHandle { pane_id: 9, kind: OverlayKind::Search });
    select_rows(&mut w, 9, 10, 12);
    let searched = PaneTick {
        pane_id: 9,
        overlay: Some(OverlayKind::Search),
        is_active: true,
        cursor_shape_blinking: false,
        dims: dims(),
        dirty_rows: vec![11],
    };
    let r = w.periodic_window_maintenance(1, &vec![searched], false);
    assert!(r.needs_invalidate);
    // preserved: the search overlay marks rows dirty for highlighting
    assert!(w.selection(9).range.is_some());
    // the same dirty rows with no overlay clear the same selection
    let plain = tick_entry(9, vec![11]);
    let r = w.periodic_window_maintenance(2, &vec![plain], false);
    assert!(r.needs_invalidate);
    assert_eq!(w.selection(9).range, None);
}

#[test]
fn mux_invalidation_flag_forces_repaint() {
    let mut w = window_with_blink(0);
    let panes = vec![tick_entry(1, Vec::new())];
    let r = w.periodic_window_maintenance(1, &panes, false);
    assert!(!r.needs_invalidate);
    let r = w.periodic_window_maintenance(2, &panes, true);
    assert!(r.needs_invalidate);
}

#[test]
fn config_staleness_follows_generation() {
    let w = window_with_blink(0);
    assert!(!w.config_stale(1));
    assert!(w.config_stale(2));
}

#[test]
fn config_reload_updates_flags_and_geometry() {
    let mut w = window_with_blink(0);
    let mut new_cfg = config_with_blink(250);
    new_cfg.generation = 2;
    new_cfg.enable_scroll_bar = false;
    new_cfg.hide_tab_bar_if_only_one_tab = true;
    let out = w.config_was_reloaded(new_cfg, Some(1), Some(CellSize { width: 8, height: 16 }), true);
    assert!(out.is_some());
    assert_eq!(w.config.generation, 2);
    assert!(!w.show_scroll_bar);
    // one tab, and the new configuration hides the bar for a lone tab
    assert!(!w.show_tab_bar);
}

#[test]
fn config_reload_with_window_gone_only_stores_config() {
    let mut w = window_with_blink(0);
    let mut new_cfg = config_with_blink(250);
    new_cfg.generation = 3;
    let before_bar = w.show_tab_bar;
    let out = w.config_was_reloaded(new_cfg, None, None, true);
    assert!(out.is_none());
    assert_eq!(w.config.generation, 3);
    assert_eq!(w.show_tab_bar, before_bar);
}

#[test]
fn scrollbar_repaints_only_on_changed_dimensions() {
    let mut w = window_with_blink(0);
    assert!(w.show_scroll_bar);
    let d = dims();
    assert!(w.update_scrollbar(Some(d)));
    assert!(!w.update_scrollbar(Some(d)));
    let moved = RenderDims { physical_top: 51, ..d };
    assert!(w.update_scrollbar(Some(moved)));
    assert!(!w.update_scrollbar(None));
}
