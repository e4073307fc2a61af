use termwindow::types::{
    CellSize, CloseConfirmation, ConfigSnapshot, OverlayHandle, OverlayKind, RenderDims,
    RowsAndCols, SemanticType, SemanticZone, WindowPadding,
};
use termwindow::window::TermWindow;

fn base_config() -> ConfigSnapshot {
    ConfigSnapshot {
        generation: 1,
        window_padding: WindowPadding { left: 0, top: 0, right: 0, bottom: 0 },
        enable_tab_bar: true,
        hide_tab_bar_if_only_one_tab: false,
        enable_scroll_bar: false,
        cursor_blink_rate: 500,
        scroll_to_bottom_on_input: false,
        adjust_window_size_when_changing_font_size: true,
        window_close_confirmation: CloseConfirmation::AlwaysPrompt,
        font_size_milli: 12000,
        dpi: None,
        initial_rows: 24,
        initial_cols: 80,
    }
}

fn fresh_window() -> TermWindow {
    TermWindow::new_window(
        String::from("test"),
        base_config(),
        1,
        Some(RowsAndCols { rows: 24, cols: 80 }),
        CellSize { width: 8, height: 16 },
        0,
    )
}

fn dims() -> RenderDims {
    RenderDims {
        cols: 80,
        viewport_rows: 24,
        scrollback_rows: 1024,
        physical_top: 1000,
        scrollback_top: 0,
    }
}

#[test]
fn set_viewport_is_idempotent() {
    let mut w = fresh_window();
    let first = w.set_viewport(5, Some(100), dims());
    assert!(first.changed);
    assert!(first.invalidate);
    let second = w.set_viewport(5, Some(100), dims());
    assert!(!second.changed);
    assert!(!second.invalidate);
    assert_eq!(second.notify_overlay, None);
    assert_eq!(w.get_viewport(5), Some(100));
}

#[test]
fn set_viewport_at_or_past_live_resolves_to_live() {
    let mut w = fresh_window();
    w.set_viewport(5, Some(100), dims());
    let r = w.set_viewport(5, Some(1000), dims());
    assert!(r.changed);
    assert_eq!(w.get_viewport(5), None);
    w.set_viewport(5, Some(100), dims());
    w.set_viewport(5, Some(5000), dims());
    assert_eq!(w.get_viewport(5), None);
}

#[test]
fn set_viewport_clamps_to_scrollback_top() {
    let mut w = fresh_window();
    let d = RenderDims { scrollback_top: -50, ..dims() };
    w.set_viewport(5, Some(-500), d);
    assert_eq!(w.get_viewport(5), Some(-50));
}

#[test]
fn set_viewport_notifies_tracking_overlay_on_change_only() {
    let mut w = fresh_window();
    let search = OverlayHandle { pane_id: 30, kind: OverlayKind::Search };
    w.assign_overlay_for_pane(5, search);
    let r = w.set_viewport(5, Some(100), dims());
    assert_eq!(r.notify_overlay, Some(30));
    let r = w.set_viewport(5, Some(100), dims());
    assert_eq!(r.notify_overlay, None);
    // a confirmation overlay does not track the viewport
    let confirm = OverlayHandle { pane_id: 31, kind: OverlayKind::Confirmation };
    w.assign_overlay_for_pane(6, confirm);
    let r = w.set_viewport(6, Some(100), dims());
    assert!(r.changed);
    assert_eq!(r.notify_overlay, None);
}

#[test]
fn scroll_to_bottom_pins_to_live() {
    let mut w = fresh_window();
    w.set_viewport(5, Some(100), dims());
    w.scroll_to_bottom(5);
    assert_eq!(w.get_viewport(5), None);
}

#[test]
fn scroll_on_input_honours_config() {
    let mut w = fresh_window();
    w.set_viewport(5, Some(100), dims());
    w.maybe_scroll_to_bottom_for_input(5);
    assert_eq!(w.get_viewport(5), Some(100));
    let mut cfg = base_config();
    cfg.scroll_to_bottom_on_input = true;
    let mut w2 = TermWindow::new_window(
        String::from("test"),
        cfg,
        1,
        Some(RowsAndCols { rows: 24, cols: 80 }),
        CellSize { width: 8, height: 16 },
        0,
    );
    w2.set_viewport(5, Some(100), dims());
    w2.maybe_scroll_to_bottom_for_input(5);
    assert_eq!(w2.get_viewport(5), None);
}

#[test]
fn scroll_by_line_moves_from_live_top() {
    let mut w = fresh_window();
    let r = w.scroll_by_line(5, -3, dims());
    assert!(r.changed);
    assert_eq!(w.get_viewport(5), Some(997));
    w.scroll_by_line(5, 1, dims());
    assert_eq!(w.get_viewport(5), Some(998));
    // scrolling down past the live screen drops back to live
    w.scroll_by_line(5, 10, dims());
    assert_eq!(w.get_viewport(5), None);
}

#[test]
fn scroll_by_page_moves_by_viewport_rows() {
    let mut w = fresh_window();
    w.scroll_by_page(5, -1, dims());
    assert_eq!(w.get_viewport(5), Some(1000 - 24));
    w.scroll_by_page(5, -2, dims());
    assert_eq!(w.get_viewport(5), Some(1000 - 24 - 48));
}

#[test]
fn scroll_to_prompt_steps_between_prompts() {
    let mut w = fresh_window();
    let zones = vec![
        SemanticZone { start_y: 10, semantic_type: SemanticType::Prompt },
        SemanticZone { start_y: 15, semantic_type: SemanticType::Output },
        SemanticZone { start_y: 200, semantic_type: SemanticType::Prompt },
        SemanticZone { start_y: 700, semantic_type: SemanticType::Prompt },
    ];
    // from the live position (1000), the insertion index is 3; step -1
    // lands on the prompt at row 700
    let r = w.scroll_to_prompt(5, -1, &zones, dims());
    assert!(r.changed);
    assert_eq!(w.get_viewport(5), Some(700));
    // step -1 again from 700: its index is 2 (matched), so land on 200
    w.scroll_to_prompt(5, -1, &zones, dims());
    assert_eq!(w.get_viewport(5), Some(200));
    // step -5 clamps at the first prompt
    w.scroll_to_prompt(5, -5, &zones, dims());
    assert_eq!(w.get_viewport(5), Some(10));
    // stepping past the end leaves the viewport alone
    let r = w.scroll_to_prompt(5, 7, &zones, dims());
    assert!(!r.changed);
    assert_eq!(w.get_viewport(5), Some(10));
}
