use termwindow::actions::{
    ActionEffect, KeyAction, close_needs_prompt, resolve_activate_tab,
    resolve_activate_tab_relative, resolve_move_tab, resolve_move_tab_relative,
    window_close_decision, WindowCloseDecision,
};
use termwindow::selection::{SelectionCoordinate, SelectionMode, UnitRange};
use termwindow::text::{Cell, Line};
use termwindow::types::{
    CellSize, CloseConfirmation, ConfigSnapshot, OverlayHandle, OverlayKind, RenderDims,
    RowsAndCols, WindowPadding,
};
use termwindow::window::TermWindow;

fn base_config(confirmation: CloseConfirmation) -> ConfigSnapshot {
    ConfigSnapshot {
        generation: 1,
        window_padding: WindowPadding { left: 0, top: 0, right: 0, bottom: 0 },
        enable_tab_bar: false,
        hide_tab_bar_if_only_one_tab: false,
        enable_scroll_bar: false,
        cursor_blink_rate: 0,
        scroll_to_bottom_on_input: false,
        adjust_window_size_when_changing_font_size: false,
        window_close_confirmation: confirmation,
        font_size_milli: 12000,
        dpi: None,
        initial_rows: 24,
        initial_cols: 80,
    }
}

fn fresh_window(confirmation: CloseConfirmation) -> TermWindow {
    TermWindow::new_window(
        String::from("test"),
        base_config(confirmation),
        1,
        Some(RowsAndCols { rows: 24, cols: 80 }),
        CellSize { width: 8, height: 16 },
        0,
    )
}

fn dims() -> RenderDims {
    RenderDims {
        cols: 80,
        viewport_rows: 24,
        scrollback_rows: 100,
        physical_top: 50,
        scrollback_top: 0,
    }
}

#[test]
fn activate_tab_counts_negative_indices_from_the_end() {
    assert_eq!(resolve_activate_tab(0, 5), Some(0));
    assert_eq!(resolve_activate_tab(4, 5), Some(4));
    assert_eq!(resolve_activate_tab(5, 5), None);
    assert_eq!(resolve_activate_tab(-1, 5), Some(4));
    assert_eq!(resolve_activate_tab(-5, 5), Some(0));
    assert_eq!(resolve_activate_tab(-7, 5), Some(0));
    assert_eq!(resolve_activate_tab(0, 0), None);
}

#[test]
fn activate_tab_relative_wraps_around() {
    assert_eq!(resolve_activate_tab_relative(1, 5, 4), Some(0));
    assert_eq!(resolve_activate_tab_relative(-1, 5, 0), Some(4));
    assert_eq!(resolve_activate_tab_relative(7, 5, 1), Some(3));
    assert_eq!(resolve_activate_tab_relative(-12, 5, 1), Some(4));
    assert_eq!(resolve_activate_tab_relative(1, 0, 0), None);
}

#[test]
fn move_tab_relative_clamps_at_the_ends() {
    assert_eq!(resolve_move_tab_relative(-3, 5, 1), Some(0));
    assert_eq!(resolve_move_tab_relative(3, 5, 3), Some(4));
    assert_eq!(resolve_move_tab_relative(1, 5, 1), Some(2));
    assert_eq!(resolve_move_tab_relative(1, 0, 0), None);
    assert_eq!(resolve_move_tab(2, 5), Some(2));
    assert_eq!(resolve_move_tab(5, 5), None);
    assert_eq!(resolve_move_tab(0, 0), None);
}

#[test]
fn window_close_decisions() {
    let never = base_config(CloseConfirmation::NeverPrompt);
    let always = base_config(CloseConfirmation::AlwaysPrompt);
    assert_eq!(
        window_close_decision(&never, true, false),
        WindowCloseDecision::CloseKillingWindow
    );
    assert_eq!(window_close_decision(&always, false, false), WindowCloseDecision::CloseNow);
    assert_eq!(
        window_close_decision(&always, true, true),
        WindowCloseDecision::CloseKillingWindow
    );
    assert_eq!(
        window_close_decision(&always, true, false),
        WindowCloseDecision::PromptConfirmation
    );
    assert!(close_needs_prompt(true, false));
    assert!(!close_needs_prompt(true, true));
    assert!(!close_needs_prompt(false, false));
}

#[test]
fn dispatch_activate_tab_produces_effect_only() {
    let mut w = fresh_window(CloseConfirmation::NeverPrompt);
    let r = w.perform_key_assignment(KeyAction::ActivateTab { tab_idx: -1, num_tabs: 3 });
    assert!(matches!(r.effect, ActionEffect::SetActiveTab { index: 2 }));
    assert!(!r.invalidate);
}

#[test]
fn dispatch_scroll_by_line_moves_viewport() {
    let mut w = fresh_window(CloseConfirmation::NeverPrompt);
    let r = w.perform_key_assignment(
        KeyAction::ScrollByLine { amount: -2, pane_id: 1, dims: dims() },
    );
    assert!(r.invalidate);
    assert!(r.viewport.unwrap().changed);
    assert_eq!(w.get_viewport(1), Some(48));
}

#[test]
fn dispatch_quit_follows_confirmation_config() {
    let mut never = fresh_window(CloseConfirmation::NeverPrompt);
    let r = never.perform_key_assignment(KeyAction::QuitApplication { has_active_tab: true });
    assert!(matches!(r.effect, ActionEffect::TerminateApplication));
    let mut always = fresh_window(CloseConfirmation::AlwaysPrompt);
    let r = always.perform_key_assignment(KeyAction::QuitApplication { has_active_tab: true });
    assert!(matches!(r.effect, ActionEffect::PromptQuit));
    let r = always.perform_key_assignment(KeyAction::QuitApplication { has_active_tab: false });
    assert!(matches!(r.effect, ActionEffect::Nothing));
}

#[test]
fn dispatch_close_pane_kills_or_prompts() {
    let mut w = fresh_window(CloseConfirmation::AlwaysPrompt);
    let r = w.perform_key_assignment(
        KeyAction::CloseCurrentPane { confirm: true, can_close_without_prompting: false },
    );
    assert!(matches!(r.effect, ActionEffect::PromptClosePane));
    let r = w.perform_key_assignment(
        KeyAction::CloseCurrentPane { confirm: false, can_close_without_prompting: false },
    );
    assert!(matches!(r.effect, ActionEffect::KillActivePane));
}

#[test]
fn dispatch_adjust_pane_size_is_gated_by_tab_overlay() {
    let mut w = fresh_window(CloseConfirmation::NeverPrompt);
    let r = w.perform_key_assignment(KeyAction::AdjustPaneSize { tab_id: 2 });
    assert!(matches!(r.effect, ActionEffect::AdjustPaneSize));
    w.assign_overlay(2, OverlayHandle { pane_id: 9, kind: OverlayKind::Launcher });
    let r = w.perform_key_assignment(KeyAction::AdjustPaneSize { tab_id: 2 });
    assert!(matches!(r.effect, ActionEffect::Nothing));
}

#[test]
fn dispatch_search_replaces_overlay_and_reports_release() {
    let mut w = fresh_window(CloseConfirmation::NeverPrompt);
    let first = OverlayHandle { pane_id: 8, kind: OverlayKind::Search };
    let second = OverlayHandle { pane_id: 9, kind: OverlayKind::Search };
    let r = w.perform_key_assignment(KeyAction::Search { pane_id: 1, overlay: first });
    assert!(matches!(r.effect, ActionEffect::Nothing));
    let r = w.perform_key_assignment(KeyAction::Search { pane_id: 1, overlay: second });
    assert!(matches!(r.effect, ActionEffect::ReleasePane { pane_id: 8 }));
    assert_eq!(w.pane_state(1).overlay, Some(second));
}

#[test]
fn dispatch_copy_serializes_selection() {
    let mut w = fresh_window(CloseConfirmation::NeverPrompt);
    w.last_mouse_terminal_coords = SelectionCoordinate { x: 0, y: 0 };
    let units: Vec<UnitRange> = Vec::new();
    w.select_text_at_mouse_cursor(SelectionMode::Cell, 1, &units);
    w.last_mouse_terminal_coords = SelectionCoordinate { x: 2, y: 0 };
    w.extend_selection_at_mouse_cursor(None, 1, &units, dims());
    let cells = vec![
        Cell { text: 'h', wrapped: false },
        Cell { text: 'i', wrapped: false },
        Cell { text: '!', wrapped: false },
        Cell { text: '?', wrapped: false },
    ];
    let r = w.perform_key_assignment(
        KeyAction::CopySelection { pane_id: 1, first_row: 0, lines: vec![Line { cells }] },
    );
    match r.effect {
        ActionEffect::CopyText { text } => assert_eq!(text, "hi!"),
        _ => panic!("expected copied text"),
    }
}

#[test]
fn extend_selection_autoscrolls_near_viewport_edges() {
    let mut w = fresh_window(CloseConfirmation::NeverPrompt);
    let units: Vec<UnitRange> = Vec::new();
    let d = dims();
    // viewport anchored at row 20, cursor dragged to row 21: within the
    // two-row gap of the top, so the viewport backs up to 19
    w.set_viewport(1, Some(20), d);
    w.last_mouse_terminal_coords = SelectionCoordinate { x: 0, y: 21 };
    w.select_text_at_mouse_cursor(SelectionMode::Cell, 1, &units);
    let (v, _) = w.extend_selection_at_mouse_cursor(None, 1, &units, d);
    assert!(v.changed);
    assert_eq!(w.get_viewport(1), Some(19));
    // dragging well inside the viewport nudges nothing
    w.last_mouse_terminal_coords = SelectionCoordinate { x: 0, y: 30 };
    let (v, _) = w.extend_selection_at_mouse_cursor(None, 1, &units, d);
    assert!(!v.changed);
    assert_eq!(w.get_viewport(1), Some(19));
    // dragging within the gap of the bottom advances the viewport
    w.last_mouse_terminal_coords = SelectionCoordinate { x: 0, y: 19 + 23 };
    let (v, _) = w.extend_selection_at_mouse_cursor(None, 1, &units, d);
    assert!(v.changed);
    assert_eq!(w.get_viewport(1), Some(20));
}
