use termwindow::types::{
    CellSize, CloseConfirmation, ConfigSnapshot, OverlayHandle, OverlayKind, RowsAndCols,
    WindowPadding,
};
use termwindow::overlay::PositionedPane;
use termwindow::window::TermWindow;

fn base_config() -> ConfigSnapshot {
    ConfigSnapshot {
        generation: 1,
        window_padding: WindowPadding { left: 0, top: 0, right: 0, bottom: 0 },
        enable_tab_bar: true,
        hide_tab_bar_if_only_one_tab: false,
        enable_scroll_bar: false,
        cursor_blink_rate: 500,
        scroll_to_bottom_on_input: false,
        adjust_window_size_when_changing_font_size: true,
        window_close_confirmation: CloseConfirmation::AlwaysPrompt,
        font_size_milli: 12000,
        dpi: None,
        initial_rows: 24,
        initial_cols: 80,
    }
}

fn fresh_window() -> TermWindow {
    TermWindow::new_window(
        String::from("test"),
        base_config(),
        1,
        Some(RowsAndCols { rows: 24, cols: 80 }),
        CellSize { width: 8, height: 16 },
        0,
    )
}

#[test]
fn assign_installs_exactly_one_overlay() {
    let mut w = fresh_window();
    let a = OverlayHandle { pane_id: 1, kind: OverlayKind::Confirmation };
    let released = w.assign_overlay(7, a);
    assert_eq!(released, None);
    assert_eq!(w.tab_state(7).overlay, Some(a));
}

#[test]
fn assign_replaces_and_releases_prior_exactly_once() {
    let mut w = fresh_window();
    let a = OverlayHandle { pane_id: 1, kind: OverlayKind::Confirmation };
    let b = OverlayHandle { pane_id: 2, kind: OverlayKind::Launcher };
    let r1 = w.assign_overlay(7, a);
    assert_eq!(r1, None);
    let r2 = w.assign_overlay(7, b);
    assert_eq!(r2, Some(1));
    assert_eq!(w.tab_state(7).overlay, Some(b));
    let c = OverlayHandle { pane_id: 3, kind: OverlayKind::TabNavigator };
    let r3 = w.assign_overlay(7, c);
    assert_eq!(r3, Some(2));
    assert_eq!(w.tab_state(7).overlay, Some(c));
}

#[test]
fn cancel_with_stale_pane_id_is_noop() {
    let mut w = fresh_window();
    let a = OverlayHandle { pane_id: 1, kind: OverlayKind::Confirmation };
    w.assign_overlay(7, a);
    let outcome = w.cancel_overlay_for_tab(7, Some(2));
    assert_eq!(outcome.released, None);
    assert!(!outcome.invalidate);
    assert_eq!(w.tab_state(7).overlay, Some(a));
}

#[test]
fn cancel_with_matching_pane_id_releases() {
    let mut w = fresh_window();
    let a = OverlayHandle { pane_id: 1, kind: OverlayKind::Confirmation };
    w.assign_overlay(7, a);
    let outcome = w.cancel_overlay_for_tab(7, Some(1));
    assert_eq!(outcome.released, Some(1));
    assert!(outcome.invalidate);
    assert_eq!(w.tab_state(7).overlay, None);
}

#[test]
fn cancel_without_expectation_is_unconditional() {
    let mut w = fresh_window();
    let a = OverlayHandle { pane_id: 4, kind: OverlayKind::Launcher };
    w.assign_overlay(9, a);
    let outcome = w.cancel_overlay_for_tab(9, None);
    assert_eq!(outcome.released, Some(4));
    assert!(outcome.invalidate);
    assert_eq!(w.tab_state(9).overlay, None);
}

#[test]
fn pane_overlay_replace_and_cancel() {
    let mut w = fresh_window();
    let search = OverlayHandle { pane_id: 10, kind: OverlayKind::Search };
    let copy = OverlayHandle { pane_id: 11, kind: OverlayKind::CopyMode };
    assert_eq!(w.assign_overlay_for_pane(3, search), None);
    assert_eq!(w.assign_overlay_for_pane(3, copy), Some(10));
    let outcome = w.cancel_overlay_for_pane(3);
    assert_eq!(outcome.released, Some(11));
    assert!(outcome.invalidate);
    assert_eq!(w.pane_state(3).overlay, None);
}

#[test]
fn active_pane_precedence_tab_overlay_wins() {
    let mut w = fresh_window();
    let tab_ov = OverlayHandle { pane_id: 20, kind: OverlayKind::Launcher };
    let pane_ov = OverlayHandle { pane_id: 21, kind: OverlayKind::Search };
    w.assign_overlay_for_pane(5, pane_ov);
    assert_eq!(
        w.get_active_pane_or_overlay(2, Some(5)),
        Some((21, Some(OverlayKind::Search)))
    );
    w.assign_overlay(2, tab_ov);
    assert_eq!(
        w.get_active_pane_or_overlay(2, Some(5)),
        Some((20, Some(OverlayKind::Launcher)))
    );
    w.cancel_overlay_for_tab(2, None);
    w.cancel_overlay_for_pane(5);
    assert_eq!(w.get_active_pane_or_overlay(2, Some(5)), Some((5, None)));
    assert_eq!(w.get_active_pane_or_overlay(2, None), None);
}

#[test]
fn panes_to_render_substitutes_pane_overlays() {
    let mut w = fresh_window();
    let search = OverlayHandle { pane_id: 30, kind: OverlayKind::Search };
    w.assign_overlay_for_pane(5, search);
    let real = vec![
        PositionedPane {
            index: 0,
            is_active: true,
            is_zoomed: false,
            left: 0,
            top: 0,
            width: 40,
            height: 24,
            pixel_width: 320,
            pixel_height: 384,
            pane_id: 5,
            overlay: None,
        },
        PositionedPane {
            index: 1,
            is_active: false,
            is_zoomed: false,
            left: 40,
            top: 0,
            width: 40,
            height: 24,
            pixel_width: 320,
            pixel_height: 384,
            pane_id: 6,
            overlay: None,
        },
    ];
    let rendered = w.get_panes_to_render(2, 24, 80, &real);
    assert_eq!(rendered.len(), 2);
    assert_eq!(rendered[0].pane_id, 30);
    assert_eq!(rendered[0].overlay, Some(OverlayKind::Search));
    assert_eq!(rendered[1].pane_id, 6);
    assert_eq!(rendered[1].overlay, None);
}

#[test]
fn panes_to_render_tab_overlay_replaces_layout() {
    let mut w = fresh_window();
    let nav = OverlayHandle { pane_id: 40, kind: OverlayKind::TabNavigator };
    w.assign_overlay(2, nav);
    let rendered = w.get_panes_to_render(2, 24, 80, &Vec::new());
    assert_eq!(rendered.len(), 1);
    assert_eq!(rendered[0].pane_id, 40);
    assert!(rendered[0].is_active);
    assert_eq!(rendered[0].width, 80);
    assert_eq!(rendered[0].height, 24);
    assert_eq!(rendered[0].pixel_width, 80 * 8);
    assert_eq!(rendered[0].pixel_height, 24 * 16);
    assert!(w.splits_hidden(2));
    assert!(!w.splits_hidden(3));
}
