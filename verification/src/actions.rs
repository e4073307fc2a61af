//! User-driven actions: mouse selection on the window state, tab
//! activation and movement arithmetic, close/quit decisions, and the
//! dispatcher that turns one key assignment into state changes and
//! effects.

use vstd::prelude::*;

verus! {

use crate::overlay::spec_assign_overlay_for_pane_step;
use crate::scale::{
    DimsOutcome, spec_adjust_font_scale_in_range, spec_adjust_font_scale_step,
    spec_after_scale_change, spec_apply_dimensions_step, spec_initial_cells, spec_reset_dimensions,
    spec_reset_in_range,
};
use crate::selection::{
    SelectionMode, UnitRange, spec_selection_begun, spec_selection_extended,
};
use crate::text::Line;
use crate::types::{
    CellSize, CloseConfirmation, ConfigSnapshot, OverlayHandle, PaneId, RenderDims, SemanticZone,
    StableRowIndex, TabId,
};
use crate::viewport::{
    ViewportOutcome, clamp_isize, sat_add_rows, spec_prompt_rows, spec_resolve_viewport,
    spec_set_viewport_step, spec_zone_index,
};
use crate::window::{PaneState, TermWindow, unchanged_but_pane_states};
use vstd::string::StrSliceExecFns;

/// While a selection is being extended, the viewport keeps this many
/// rows of slack between the cursor and the viewport's edge, so the
/// user can look ahead past the edge while dragging.
pub const VERTICAL_GAP: isize = 2;

/// The slack actually kept: a pane whose live screen starts within the
/// standard gap of the scrollback top has little room, so the gap
/// shrinks to one row.
pub open spec fn spec_vertical_gap(dims: RenderDims) -> int {
    if dims.physical_top <= VERTICAL_GAP {
        1
    } else {
        VERTICAL_GAP as int
    }
}

/// The viewport position an extension drag nudges to, if any: when the
/// cursor row comes within the gap of the viewport's top, back up to
/// restore the gap above; when within the gap of its bottom, advance to
/// restore the gap below; otherwise no nudge.  The nudge is exactly the
/// amount needed, so a drag that needs none leaves the viewport alone.
pub open spec fn spec_autoscroll_target(
    w: TermWindow,
    pane_id: PaneId,
    cursor_y: StableRowIndex,
    dims: RenderDims,
) -> Option<StableRowIndex> {
    let top = w.spec_scroll_base(pane_id, dims);
    let gap = spec_vertical_gap(dims);
    let top_gap = cursor_y - top;
    if top_gap < gap {
        Some(clamp_isize(cursor_y - gap) as StableRowIndex)
    } else {
        let bottom_gap = clamp_isize(dims.viewport_rows - top_gap);
        if bottom_gap < gap {
            Some(clamp_isize(top + gap - bottom_gap) as StableRowIndex)
        } else {
            None
        }
    }
}

impl TermWindow {
    /// Starts a selection at the mouse cursor's terminal coordinates in
    /// the given mode, snapping to `units` (the word or zone extents the
    /// pane reported around coordinates) as the mode asks.  The caller
    /// must repaint.
    pub fn select_text_at_mouse_cursor(
        &mut self,
        mode: SelectionMode,
        pane_id: PaneId,
        units: &Vec<UnitRange>,
    ) -> (invalidate: bool)
        ensures
            final(self).spec_pane_state(pane_id) == (PaneState {
                selection: spec_selection_begun(
                    mode,
                    old(self).last_mouse_terminal_coords,
                    units@,
                ),
                ..old(self).spec_pane_state(pane_id)
            }),
            forall|p: PaneId|
                p != pane_id ==> final(self).spec_pane_state(p) == old(self).spec_pane_state(p),
            forall|t: TabId| final(self).spec_tab_state(t) == old(self).spec_tab_state(t),
            unchanged_but_pane_states(*old(self), *final(self)),
            invalidate,
    {
        let cursor = self.last_mouse_terminal_coords;
        let mut sel = self.selection(pane_id);
        crate::selection::selection_begin(&mut sel, mode, cursor, units);
        self.set_selection(pane_id, sel);
        true
    }

    /// Extends the selection of `pane_id` to the mouse cursor's terminal
    /// coordinates (cell mode when no mode is named), then nudges the
    /// viewport when the cursor has come within the vertical gap of its
    /// top or bottom, so dragging can select past the visible edge.  The
    /// nudge runs on every extension and is idempotent when no nudge is
    /// needed.  The caller must repaint regardless.
    pub fn extend_selection_at_mouse_cursor(
        &mut self,
        mode: Option<SelectionMode>,
        pane_id: PaneId,
        units: &Vec<UnitRange>,
        dims: RenderDims,
    ) -> (r: (ViewportOutcome, bool))
        requires
            dims.viewport_rows <= isize::MAX,
        ensures
            ({
                let eff_mode = match mode {
                    Some(m) => m,
                    None => SelectionMode::Cell,
                };
                let cursor = old(self).last_mouse_terminal_coords;
                let prior = old(self).spec_pane_state(pane_id);
                let newsel = spec_selection_extended(prior.selection, eff_mode, cursor, units@);
                let target = spec_autoscroll_target(*old(self), pane_id, cursor.y, dims);
                let resolved = match target {
                    Some(t) => spec_resolve_viewport(Some(t), dims),
                    None => prior.viewport,
                };
                &&& final(self).spec_pane_state(pane_id) == (PaneState {
                    selection: newsel,
                    viewport: resolved,
                    ..prior
                })
                &&& forall|p: PaneId|
                    p != pane_id ==> final(self).spec_pane_state(p) == old(self).spec_pane_state(
                        p,
                    )
                &&& forall|t: TabId| final(self).spec_tab_state(t) == old(self).spec_tab_state(t)
                &&& unchanged_but_pane_states(*old(self), *final(self))
                &&& r.0.changed == (target is Some && resolved != prior.viewport)
                &&& r.0.invalidate == r.0.changed
                &&& r.0.notify_overlay == (if r.0.changed {
                    match prior.overlay {
                        Some(o) => if o.kind.spec_tracks_viewport() {
                            Some(o.pane_id)
                        } else {
                            None
                        },
                        None => None,
                    }
                } else {
                    None
                })
                &&& r.1
            }),
    {
        let eff_mode = match mode {
            Some(m) => m,
            None => SelectionMode::Cell,
        };
        let cursor = self.last_mouse_terminal_coords;
        let mut sel = self.selection(pane_id);
        crate::selection::selection_extend(&mut sel, eff_mode, cursor, units);
        self.set_selection(pane_id, sel);
        let top = match self.get_viewport(pane_id) {
            Some(v) => v,
            None => dims.physical_top,
        };
        let gap: isize = if dims.physical_top <= VERTICAL_GAP {
            1
        } else {
            VERTICAL_GAP
        };
        let top_gap: i128 = cursor.y as i128 - top as i128;
        let outcome = if top_gap < gap as i128 {
            let target = sat_add_rows(cursor.y, -gap);
            self.set_viewport(pane_id, Some(target), dims)
        } else {
            let bottom_gap = clamp_to_rows(dims.viewport_rows as i128 - top_gap);
            if bottom_gap < gap {
                let target = clamp_to_rows(top as i128 + (gap as i128 - bottom_gap as i128));
                self.set_viewport(pane_id, Some(target), dims)
            } else {
                ViewportOutcome { changed: false, notify_overlay: None, invalidate: false }
            }
        };
        (outcome, true)
    }
}

/// The tab index an absolute activation lands on: a negative index
/// counts back from the last tab (stopping at the first), and an index
/// at or past the end does nothing.
pub open spec fn spec_activate_tab_index(tab_idx: int, max: int) -> Option<int> {
    let idx = if tab_idx < 0 {
        if -tab_idx <= max {
            max + tab_idx
        } else {
            0
        }
    } else {
        tab_idx
    };
    if idx < max {
        Some(idx)
    } else {
        None
    }
}

/// Resolves an absolute tab activation; see [`spec_activate_tab_index`].
pub fn resolve_activate_tab(tab_idx: isize, max: usize) -> (r: Option<usize>)
    requires
        tab_idx > isize::MIN,
        max <= isize::MAX,
    ensures
        r == (match spec_activate_tab_index(tab_idx as int, max as int) {
            Some(i) => Some(i as usize),
            None => None::<usize>,
        }),
{
    let idx = if tab_idx < 0 {
        let back = (-tab_idx) as usize;
        if back <= max {
            max - back
        } else {
            0
        }
    } else {
        tab_idx as usize
    };
    if idx < max {
        Some(idx)
    } else {
        None
    }
}

/// Euclidean remainder, for wrapping a tab index around the tab count.
pub fn wrap_index(t: i128, m: i128) -> (r: i128)
    requires
        0 < m,
        t != i128::MIN,
    ensures
        r == t % m,
        0 <= r < m,
{
    proof {
        vstd::arithmetic::div_mod::lemma_mod_bound(t as int, m as int);
    }
    if t >= 0 {
        t % m
    } else {
        let k = (-t) % m;
        proof {
            let nt = (-t) as int;
            let mi = m as int;
            vstd::arithmetic::div_mod::lemma_fundamental_div_mod(nt, mi);
            vstd::arithmetic::div_mod::lemma_mod_bound(nt, mi);
            let kk = nt % mi;
            let q0 = nt / mi;
            if kk == 0 {
                assert((-q0) * mi == -(mi * q0)) by (nonlinear_arith);
                vstd::arithmetic::div_mod::lemma_fundamental_div_mod_converse_mod(
                    t as int,
                    mi,
                    -q0,
                    0,
                );
            } else {
                assert((-q0 - 1) * mi == -(mi * q0) - mi) by (nonlinear_arith);
                vstd::arithmetic::div_mod::lemma_fundamental_div_mod_converse_mod(
                    t as int,
                    mi,
                    -q0 - 1,
                    mi - kk,
                );
            }
        }
        if k == 0 {
            0
        } else {
            m - k
        }
    }
}

/// The tab index a relative activation lands on: the active index moved
/// by `delta`, wrapped around the tab count; with no tabs there is
/// nothing to activate.
pub open spec fn spec_activate_tab_relative_index(delta: int, max: int, active: int) -> Option<
    int,
> {
    if max <= 0 {
        None
    } else {
        Some((active + delta) % max)
    }
}

/// Resolves a relative tab activation; see
/// [`spec_activate_tab_relative_index`].
pub fn resolve_activate_tab_relative(delta: isize, max: usize, active: usize) -> (r: Option<usize>)
    requires
        max <= u64::MAX,
        active <= u64::MAX,
    ensures
        r == (match spec_activate_tab_relative_index(delta as int, max as int, active as int) {
            Some(i) => Some(i as usize),
            None => None::<usize>,
        }),
{
    if max == 0 {
        return None;
    }
    let t: i128 = active as i128 + delta as i128;
    let wrapped = wrap_index(t, max as i128);
    Some(wrapped as usize)
}

/// The position a relative tab move lands on: the active index moved by
/// `delta`, clamped to the ends of the tab strip; with no tabs there is
/// nothing to move.
pub open spec fn spec_move_tab_relative_index(delta: int, max: int, active: int) -> Option<int> {
    if max <= 0 {
        None
    } else {
        let t = active + delta;
        if t < 0 {
            Some(0)
        } else if t >= max {
            Some(max - 1)
        } else {
            Some(t)
        }
    }
}

/// Resolves a relative tab move; see [`spec_move_tab_relative_index`].
pub fn resolve_move_tab_relative(delta: isize, max: usize, active: usize) -> (r: Option<usize>)
    requires
        max <= u64::MAX,
        active <= u64::MAX,
    ensures
        r == (match spec_move_tab_relative_index(delta as int, max as int, active as int) {
            Some(i) => Some(i as usize),
            None => None::<usize>,
        }),
{
    if max == 0 {
        return None;
    }
    let t: i128 = active as i128 + delta as i128;
    if t < 0 {
        Some(0)
    } else if t >= max as i128 {
        Some(max - 1)
    } else {
        Some(t as usize)
    }
}

/// Whether an absolute tab move is valid: there are tabs and the target
/// position exists.
pub fn resolve_move_tab(tab_idx: usize, max: usize) -> (r: Option<usize>)
    ensures
        r == (if 0 < max && tab_idx < max {
            Some(tab_idx)
        } else {
            None::<usize>
        }),
{
    if 0 < max && tab_idx < max {
        Some(tab_idx)
    } else {
        None
    }
}

/// What closing the window comes to.
#[derive(Clone, Copy, Debug, PartialEq, Eq, Structural)]
pub enum WindowCloseDecision {
    /// Kill the multiplexer window's tabs and let the window close.
    CloseKillingWindow,
    /// Let the window close; there is nothing left to kill.
    CloseNow,
    /// Keep the window open and show a confirmation overlay.
    PromptConfirmation,
}

/// Decides what a window-close request does: closing without prompting
/// kills the tabs at once, as does a window whose tabs all report they
/// can close without prompting; a window with no active tab just
/// closes; anything else puts up a confirmation overlay and does not
/// close yet.
pub fn window_close_decision(
    config: &ConfigSnapshot,
    has_active_tab: bool,
    can_close_without_prompting: bool,
) -> (r: WindowCloseDecision)
    ensures
        config.window_close_confirmation == CloseConfirmation::NeverPrompt ==> r
            == WindowCloseDecision::CloseKillingWindow,
        config.window_close_confirmation == CloseConfirmation::AlwaysPrompt && !has_active_tab
            ==> r == WindowCloseDecision::CloseNow,
        config.window_close_confirmation == CloseConfirmation::AlwaysPrompt && has_active_tab
            && can_close_without_prompting ==> r == WindowCloseDecision::CloseKillingWindow,
        config.window_close_confirmation == CloseConfirmation::AlwaysPrompt && has_active_tab
            && !can_close_without_prompting ==> r == WindowCloseDecision::PromptConfirmation,
{
    match config.window_close_confirmation {
        CloseConfirmation::NeverPrompt => WindowCloseDecision::CloseKillingWindow,
        CloseConfirmation::AlwaysPrompt => {
            if !has_active_tab {
                WindowCloseDecision::CloseNow
            } else if can_close_without_prompting {
                WindowCloseDecision::CloseKillingWindow
            } else {
                WindowCloseDecision::PromptConfirmation
            }
        },
    }
}

/// Decides whether closing a pane or a tab needs a confirmation
/// overlay: only when confirmation was asked for and the target does
/// not consent to closing silently.
pub fn close_needs_prompt(confirm: bool, can_close_without_prompting: bool) -> (r: bool)
    ensures
        r == (confirm && !can_close_without_prompting),
{
    confirm && !can_close_without_prompting
}

/// One key assignment, with everything the multiplexer and the services
/// already answered about it: the decision itself runs here, on the
/// window state, and what only a collaborator can do comes back as an
/// [`ActionEffect`].
pub enum KeyAction {
    ActivateTab { tab_idx: isize, num_tabs: usize },
    ActivateTabRelative { delta: isize, num_tabs: usize, active_idx: usize },
    MoveTab { tab_idx: usize, num_tabs: usize },
    MoveTabRelative { delta: isize, num_tabs: usize, active_idx: usize },
    ScrollByPage { amount: isize, pane_id: PaneId, dims: RenderDims },
    ScrollByLine { amount: isize, pane_id: PaneId, dims: RenderDims },
    ScrollToPrompt { amount: isize, pane_id: PaneId, zones: Vec<SemanticZone>, dims: RenderDims },
    SelectTextAtMouseCursor { mode: SelectionMode, pane_id: PaneId, units: Vec<UnitRange> },
    ExtendSelectionToMouseCursor {
        mode: Option<SelectionMode>,
        pane_id: PaneId,
        units: Vec<UnitRange>,
        dims: RenderDims,
    },
    CopySelection { pane_id: PaneId, first_row: StableRowIndex, lines: Vec<Line> },
    CompleteSelection { pane_id: PaneId, first_row: StableRowIndex, lines: Vec<Line> },
    CompleteSelectionOrOpenLink { pane_id: PaneId, first_row: StableRowIndex, lines: Vec<Line> },
    Search { pane_id: PaneId, overlay: OverlayHandle },
    ActivateCopyMode { pane_id: PaneId, overlay: OverlayHandle },
    AdjustPaneSize { tab_id: TabId },
    ActivatePaneDirection { tab_id: TabId },
    TogglePaneZoom { has_active_tab: bool },
    CloseCurrentPane { confirm: bool, can_close_without_prompting: bool },
    CloseCurrentTab { confirm: bool, can_close_without_prompting: bool },
    QuitApplication { has_active_tab: bool },
    DecreaseFontSize { metrics: Option<CellSize>, render_resize_ok: bool },
    IncreaseFontSize { metrics: Option<CellSize>, render_resize_ok: bool },
    ResetFontSize { metrics: Option<CellSize>, render_resize_ok: bool },
    ResetFontAndWindowSize { metrics: Option<CellSize>, render_resize_ok: bool },
    ClearScrollback,
    /// An assignment that only drives outside services (spawning,
    /// clipboard paste, fullscreen, hiding, link opening, scripted
    /// events, configuration reload): nothing of the window state
    /// decides it.
    Passthrough,
}

/// What the caller must carry out after a key assignment was performed.
pub enum ActionEffect {
    Nothing,
    /// Perform the service action the assignment names.
    Passthrough,
    SetActiveTab { index: usize },
    /// Remove the active tab from the strip and reinsert it at `index`,
    /// making it active there.
    MoveActiveTabTo { index: usize },
    CopyText { text: String },
    OpenLinkAtMouseCursor,
    KillActivePane,
    RemoveActiveTab,
    PromptClosePane,
    PromptCloseTab,
    PromptQuit,
    TerminateApplication,
    AdjustPaneSize,
    ActivatePaneDirection,
    ToggleZoom,
    /// Tell the multiplexer to dispose of a replaced overlay pane.
    ReleasePane { pane_id: PaneId },
    ClearScrollback,
}

/// Everything one dispatched assignment produced.
pub struct ActionOutcome {
    pub effect: ActionEffect,
    /// Request one repaint.
    pub invalidate: bool,
    /// The viewport movement a scroll or drag produced.
    pub viewport: Option<ViewportOutcome>,
    /// The geometry outcome a font-size change produced.
    pub dims: Option<DimsOutcome>,
}

/// The bounds [`TermWindow::perform_key_assignment`] needs of its
/// inputs, arm by arm; anything unmentioned is unconstrained.
pub open spec fn spec_perform_requires(pre: TermWindow, action: KeyAction) -> bool {
    match action {
        KeyAction::ActivateTab { tab_idx, num_tabs } => tab_idx > isize::MIN && num_tabs
            <= isize::MAX,
        KeyAction::ActivateTabRelative { delta, num_tabs, active_idx } => num_tabs <= u64::MAX
            && active_idx <= u64::MAX,
        KeyAction::MoveTabRelative { delta, num_tabs, active_idx } => num_tabs <= u64::MAX
            && active_idx <= u64::MAX,
        KeyAction::ScrollByPage { amount, pane_id, dims } => dims.viewport_rows <= isize::MAX,
        KeyAction::ScrollToPrompt { amount, pane_id, zones, dims } => zones@.len() <= isize::MAX,
        KeyAction::ExtendSelectionToMouseCursor { mode, pane_id, units, dims } => dims.viewport_rows
            <= isize::MAX,
        KeyAction::CopySelection { pane_id, first_row, lines } => first_row + lines@.len()
            <= isize::MAX && lines@.len() <= isize::MAX,
        KeyAction::CompleteSelection { pane_id, first_row, lines } => first_row + lines@.len()
            <= isize::MAX && lines@.len() <= isize::MAX,
        KeyAction::CompleteSelectionOrOpenLink { pane_id, first_row, lines } => first_row
            + lines@.len() <= isize::MAX && lines@.len() <= isize::MAX,
        KeyAction::DecreaseFontSize { metrics, render_resize_ok } => spec_adjust_font_scale_in_range(
            pre,
            (pre.font_scale_milli * 9 / 10) as u32,
            metrics,
        ),
        KeyAction::IncreaseFontSize { metrics, render_resize_ok } => pre.font_scale_milli * 11
            <= u32::MAX && spec_adjust_font_scale_in_range(
            pre,
            (pre.font_scale_milli * 11 / 10) as u32,
            metrics,
        ),
        KeyAction::ResetFontSize { metrics, render_resize_ok } => spec_adjust_font_scale_in_range(
            pre,
            1000,
            metrics,
        ),
        KeyAction::ResetFontAndWindowSize { metrics, render_resize_ok } => (metrics matches Some(m)
            ==> spec_reset_in_range(pre, m)),
        _ => true,
    }
}

/// The relation of one dispatched key assignment: how the window state
/// moved and what outcome came back, arm by arm.
pub open spec fn spec_perform_step(
    pre: TermWindow,
    post: TermWindow,
    action: KeyAction,
    r: ActionOutcome,
) -> bool {
    match action {
        KeyAction::ActivateTab { tab_idx, num_tabs } => post == pre && !r.invalidate && r.viewport
            is None && r.dims is None && r.effect == (match spec_activate_tab_index(
            tab_idx as int,
            num_tabs as int,
        ) {
            Some(i) => ActionEffect::SetActiveTab { index: i as usize },
            None => ActionEffect::Nothing,
        }),
        KeyAction::ActivateTabRelative { delta, num_tabs, active_idx } => post == pre
            && !r.invalidate && r.viewport is None && r.dims is None && r.effect == (
        match spec_activate_tab_relative_index(delta as int, num_tabs as int, active_idx as int) {
            Some(i) => ActionEffect::SetActiveTab { index: i as usize },
            None => ActionEffect::Nothing,
        }),
        KeyAction::MoveTab { tab_idx, num_tabs } => post == pre && !r.invalidate && r.viewport
            is None && r.dims is None && r.effect == (if 0 < num_tabs && tab_idx < num_tabs {
            ActionEffect::MoveActiveTabTo { index: tab_idx }
        } else {
            ActionEffect::Nothing
        }),
        KeyAction::MoveTabRelative { delta, num_tabs, active_idx } => post == pre && !r.invalidate
            && r.viewport is None && r.dims is None && r.effect == (
        match spec_move_tab_relative_index(delta as int, num_tabs as int, active_idx as int) {
            Some(i) => ActionEffect::MoveActiveTabTo { index: i as usize },
            None => ActionEffect::Nothing,
        }),
        KeyAction::ScrollByLine { amount, pane_id, dims } => r.effect is Nothing && r.invalidate
            && r.dims is None && (r.viewport matches Some(v) && spec_set_viewport_step(
            pre,
            post,
            pane_id,
            Some(clamp_isize(pre.spec_scroll_base(pane_id, dims) + amount) as StableRowIndex),
            dims,
            v,
        )),
        KeyAction::ScrollByPage { amount, pane_id, dims } => r.effect is Nothing && r.invalidate
            && r.dims is None && (r.viewport matches Some(v) && spec_set_viewport_step(
            pre,
            post,
            pane_id,
            Some(
                clamp_isize(
                    pre.spec_scroll_base(pane_id, dims) + clamp_isize(amount * dims.viewport_rows),
                ) as StableRowIndex,
            ),
            dims,
            v,
        )),
        KeyAction::ScrollToPrompt { amount, pane_id, zones, dims } => r.effect is Nothing
            && r.invalidate && r.dims is None && (r.viewport matches Some(v) && ({
            let rows = spec_prompt_rows(zones@);
            let idx = spec_zone_index(rows, pre.spec_scroll_base(pane_id, dims));
            let stepped = if idx + amount >= 0 {
                idx + amount
            } else {
                0
            };
            if stepped < rows.len() {
                spec_set_viewport_step(pre, post, pane_id, Some(rows[stepped as int]), dims, v)
            } else {
                post == pre && v == (ViewportOutcome {
                    changed: false,
                    notify_overlay: None,
                    invalidate: false,
                })
            }
        })),
        KeyAction::SelectTextAtMouseCursor { mode, pane_id, units } => r.effect is Nothing
            && r.invalidate && r.viewport is None && r.dims is None && post.spec_pane_state(pane_id)
            == (PaneState {
            selection: spec_selection_begun(mode, pre.last_mouse_terminal_coords, units@),
            ..pre.spec_pane_state(pane_id)
        }) && (forall|p: PaneId|
            p != pane_id ==> post.spec_pane_state(p) == pre.spec_pane_state(p)) && (forall|t: TabId|
            post.spec_tab_state(t) == pre.spec_tab_state(t)) && unchanged_but_pane_states(pre, post),
        KeyAction::ExtendSelectionToMouseCursor { mode, pane_id, units, dims } => r.effect is Nothing
            && r.invalidate && r.dims is None && (r.viewport matches Some(v) && ({
            let eff_mode = match mode {
                Some(m) => m,
                None => SelectionMode::Cell,
            };
            let cursor = pre.last_mouse_terminal_coords;
            let prior = pre.spec_pane_state(pane_id);
            let target = spec_autoscroll_target(pre, pane_id, cursor.y, dims);
            let resolved = match target {
                Some(t) => spec_resolve_viewport(Some(t), dims),
                None => prior.viewport,
            };
            &&& post.spec_pane_state(pane_id) == (PaneState {
                selection: spec_selection_extended(prior.selection, eff_mode, cursor, units@),
                viewport: resolved,
                ..prior
            })
            &&& forall|p: PaneId| p != pane_id ==> post.spec_pane_state(p) == pre.spec_pane_state(p)
            &&& forall|t: TabId| post.spec_tab_state(t) == pre.spec_tab_state(t)
            &&& unchanged_but_pane_states(pre, post)
            &&& v.changed == (target is Some && resolved != prior.viewport)
        })),
        KeyAction::CopySelection { pane_id, first_row, lines } => post == pre && !r.invalidate
            && r.viewport is None && r.dims is None && (r.effect matches ActionEffect::CopyText {
            text,
        } && text@ == spec_selected_text(pre, pane_id, first_row, lines@)),
        KeyAction::CompleteSelection { pane_id, first_row, lines } => post == pre && r.viewport
            is None && r.dims is None && ({
            let text = spec_selected_text(pre, pane_id, first_row, lines@);
            if text.len() > 0 {
                r.invalidate && (r.effect matches ActionEffect::CopyText { text: t } && t@ == text)
            } else {
                !r.invalidate && r.effect is Nothing
            }
        }),
        KeyAction::CompleteSelectionOrOpenLink { pane_id, first_row, lines } => post == pre
            && r.viewport is None && r.dims is None && ({
            let text = spec_selected_text(pre, pane_id, first_row, lines@);
            if text.len() > 0 {
                r.invalidate && (r.effect matches ActionEffect::CopyText { text: t } && t@ == text)
            } else {
                !r.invalidate && r.effect is OpenLinkAtMouseCursor
            }
        }),
        KeyAction::Search { pane_id, overlay } => !r.invalidate && r.viewport is None && r.dims
            is None && spec_assign_overlay_for_pane_step(
            pre,
            post,
            pane_id,
            overlay,
            spec_effect_released(r.effect),
        ),
        KeyAction::ActivateCopyMode { pane_id, overlay } => !r.invalidate && r.viewport is None
            && r.dims is None && spec_assign_overlay_for_pane_step(
            pre,
            post,
            pane_id,
            overlay,
            spec_effect_released(r.effect),
        ),
        KeyAction::AdjustPaneSize { tab_id } => post == pre && !r.invalidate && r.viewport is None
            && r.dims is None && r.effect == (if pre.spec_tab_state(tab_id).overlay is None {
            ActionEffect::AdjustPaneSize
        } else {
            ActionEffect::Nothing
        }),
        KeyAction::ActivatePaneDirection { tab_id } => post == pre && !r.invalidate && r.viewport
            is None && r.dims is None && r.effect == (if pre.spec_tab_state(tab_id).overlay
            is None {
            ActionEffect::ActivatePaneDirection
        } else {
            ActionEffect::Nothing
        }),
        KeyAction::TogglePaneZoom { has_active_tab } => post == pre && !r.invalidate && r.viewport
            is None && r.dims is None && r.effect == (if has_active_tab {
            ActionEffect::ToggleZoom
        } else {
            ActionEffect::Nothing
        }),
        KeyAction::CloseCurrentPane { confirm, can_close_without_prompting } => post == pre
            && !r.invalidate && r.viewport is None && r.dims is None && r.effect == (if confirm
            && !can_close_without_prompting {
            ActionEffect::PromptClosePane
        } else {
            ActionEffect::KillActivePane
        }),
        KeyAction::CloseCurrentTab { confirm, can_close_without_prompting } => post == pre
            && !r.invalidate && r.viewport is None && r.dims is None && r.effect == (if confirm
            && !can_close_without_prompting {
            ActionEffect::PromptCloseTab
        } else {
            ActionEffect::RemoveActiveTab
        }),
        KeyAction::QuitApplication { has_active_tab } => post == pre && !r.invalidate && r.viewport
            is None && r.dims is None && r.effect == (
        match pre.config.window_close_confirmation {
            CloseConfirmation::NeverPrompt => ActionEffect::TerminateApplication,
            CloseConfirmation::AlwaysPrompt => if has_active_tab {
                ActionEffect::PromptQuit
            } else {
                ActionEffect::Nothing
            },
        }),
        KeyAction::DecreaseFontSize { metrics, render_resize_ok } => r.effect is Nothing
            && !r.invalidate && r.viewport is None && (r.dims matches Some(out)
            && spec_adjust_font_scale_step(
            pre,
            post,
            (pre.font_scale_milli * 9 / 10) as u32,
            metrics,
            render_resize_ok,
            out,
        )),
        KeyAction::IncreaseFontSize { metrics, render_resize_ok } => r.effect is Nothing
            && !r.invalidate && r.viewport is None && (r.dims matches Some(out)
            && spec_adjust_font_scale_step(
            pre,
            post,
            (pre.font_scale_milli * 11 / 10) as u32,
            metrics,
            render_resize_ok,
            out,
        )),
        KeyAction::ResetFontSize { metrics, render_resize_ok } => r.effect is Nothing && !r.invalidate
            && r.viewport is None && (r.dims matches Some(out) && spec_adjust_font_scale_step(
            pre,
            post,
            1000,
            metrics,
            render_resize_ok,
            out,
        )),
        KeyAction::ResetFontAndWindowSize { metrics, render_resize_ok } => r.effect is Nothing
            && !r.invalidate && r.viewport is None && (match metrics {
            None => post == pre && r.dims is None,
            Some(m) => r.dims matches Some(out) && spec_apply_dimensions_step(
                spec_after_scale_change(
                    pre,
                    spec_reset_dimensions(pre.config, m),
                    1000,
                    metrics,
                ),
                post,
                spec_reset_dimensions(pre.config, m),
                Some(spec_initial_cells(pre.config)),
                render_resize_ok,
                out,
            ),
        }),
        KeyAction::ClearScrollback => post == pre && r.invalidate && r.viewport is None && r.dims
            is None && r.effect is ClearScrollback,
        KeyAction::Passthrough => post == pre && !r.invalidate && r.viewport is None && r.dims
            is None && r.effect is Passthrough,
    }
}

/// The pane id an effect releases, if any.
pub open spec fn spec_effect_released(e: ActionEffect) -> Option<PaneId> {
    match e {
        ActionEffect::ReleasePane { pane_id } => Some(pane_id),
        _ => None,
    }
}

/// The text the current selection of `pane_id` serializes to.
pub open spec fn spec_selected_text(
    w: TermWindow,
    pane_id: PaneId,
    first_row: StableRowIndex,
    lines: Seq<Line>,
) -> Seq<char> {
    match w.spec_pane_state(pane_id).selection.range {
        Some(sel) => crate::text::spec_selection_text(
            lines.map_values(|l: Line| l.cells@),
            sel,
            first_row,
        ),
        None => Seq::empty(),
    }
}

impl TermWindow {
    /// Performs one key assignment: runs the decision on the window
    /// state and reports what the collaborators must do.  See
    /// [`spec_perform_step`] for what each assignment comes to; effects
    /// that install or replace overlays oblige the caller to refresh
    /// the title, and every returned `invalidate` obliges one repaint.
    pub fn perform_key_assignment(&mut self, action: KeyAction) -> (r: ActionOutcome)
        requires
            spec_perform_requires(*old(self), action),
        ensures
            spec_perform_step(*old(self), *final(self), action, r),
    {
        match action {
            KeyAction::ActivateTab { tab_idx, num_tabs } => ActionOutcome {
                effect: match resolve_activate_tab(tab_idx, num_tabs) {
                    Some(i) => ActionEffect::SetActiveTab { index: i },
                    None => ActionEffect::Nothing,
                },
                invalidate: false,
                viewport: None,
                dims: None,
            },
            KeyAction::ActivateTabRelative { delta, num_tabs, active_idx } => ActionOutcome {
                effect: match resolve_activate_tab_relative(delta, num_tabs, active_idx) {
                    Some(i) => ActionEffect::SetActiveTab { index: i },
                    None => ActionEffect::Nothing,
                },
                invalidate: false,
                viewport: None,
                dims: None,
            },
            KeyAction::MoveTab { tab_idx, num_tabs } => ActionOutcome {
                effect: match resolve_move_tab(tab_idx, num_tabs) {
                    Some(i) => ActionEffect::MoveActiveTabTo { index: i },
                    None => ActionEffect::Nothing,
                },
                invalidate: false,
                viewport: None,
                dims: None,
            },
            KeyAction::MoveTabRelative { delta, num_tabs, active_idx } => ActionOutcome {
                effect: match resolve_move_tab_relative(delta, num_tabs, active_idx) {
                    Some(i) => ActionEffect::MoveActiveTabTo { index: i },
                    None => ActionEffect::Nothing,
                },
                invalidate: false,
                viewport: None,
                dims: None,
            },
            KeyAction::ScrollByLine { amount, pane_id, dims } => {
                let v = self.scroll_by_line(pane_id, amount, dims);
                ActionOutcome {
                    effect: ActionEffect::Nothing,
                    invalidate: true,
                    viewport: Some(v),
                    dims: None,
                }
            },
            KeyAction::ScrollByPage { amount, pane_id, dims } => {
                let v = self.scroll_by_page(pane_id, amount, dims);
                ActionOutcome {
                    effect: ActionEffect::Nothing,
                    invalidate: true,
                    viewport: Some(v),
                    dims: None,
                }
            },
            KeyAction::ScrollToPrompt { amount, pane_id, zones, dims } => {
                let v = self.scroll_to_prompt(pane_id, amount, &zones, dims);
                ActionOutcome {
                    effect: ActionEffect::Nothing,
                    invalidate: true,
                    viewport: Some(v),
                    dims: None,
                }
            },
            KeyAction::SelectTextAtMouseCursor { mode, pane_id, units } => {
                self.select_text_at_mouse_cursor(mode, pane_id, &units);
                ActionOutcome {
                    effect: ActionEffect::Nothing,
                    invalidate: true,
                    viewport: None,
                    dims: None,
                }
            },
            KeyAction::ExtendSelectionToMouseCursor { mode, pane_id, units, dims } => {
                let (v, _) = self.extend_selection_at_mouse_cursor(mode, pane_id, &units, dims);
                ActionOutcome {
                    effect: ActionEffect::Nothing,
                    invalidate: true,
                    viewport: Some(v),
                    dims: None,
                }
            },
            KeyAction::CopySelection { pane_id, first_row, lines } => {
                let text = self.selection_text(pane_id, first_row, &lines);
                ActionOutcome {
                    effect: ActionEffect::CopyText { text },
                    invalidate: false,
                    viewport: None,
                    dims: None,
                }
            },
            KeyAction::CompleteSelection { pane_id, first_row, lines } => {
                let text = self.selection_text(pane_id, first_row, &lines);
                if text.as_str().unicode_len() > 0 {
                    ActionOutcome {
                        effect: ActionEffect::CopyText { text },
                        invalidate: true,
                        viewport: None,
                        dims: None,
                    }
                } else {
                    ActionOutcome {
                        effect: ActionEffect::Nothing,
                        invalidate: false,
                        viewport: None,
                        dims: None,
                    }
                }
            },
            KeyAction::CompleteSelectionOrOpenLink { pane_id, first_row, lines } => {
                let text = self.selection_text(pane_id, first_row, &lines);
                if text.as_str().unicode_len() > 0 {
                    ActionOutcome {
                        effect: ActionEffect::CopyText { text },
                        invalidate: true,
                        viewport: None,
                        dims: None,
                    }
                } else {
                    ActionOutcome {
                        effect: ActionEffect::OpenLinkAtMouseCursor,
                        invalidate: false,
                        viewport: None,
                        dims: None,
                    }
                }
            },
            KeyAction::Search { pane_id, overlay } => {
                let released = self.assign_overlay_for_pane(pane_id, overlay);
                ActionOutcome {
                    effect: match released {
                        Some(p) => ActionEffect::ReleasePane { pane_id: p },
                        None => ActionEffect::Nothing,
                    },
                    invalidate: false,
                    viewport: None,
                    dims: None,
                }
            },
            KeyAction::ActivateCopyMode { pane_id, overlay } => {
                let released = self.assign_overlay_for_pane(pane_id, overlay);
                ActionOutcome {
                    effect: match released {
                        Some(p) => ActionEffect::ReleasePane { pane_id: p },
                        None => ActionEffect::Nothing,
                    },
                    invalidate: false,
                    viewport: None,
                    dims: None,
                }
            },
            KeyAction::AdjustPaneSize { tab_id } => ActionOutcome {
                effect: if self.tab_state(tab_id).overlay.is_none() {
                    ActionEffect::AdjustPaneSize
                } else {
                    ActionEffect::Nothing
                },
                invalidate: false,
                viewport: None,
                dims: None,
            },
            KeyAction::ActivatePaneDirection { tab_id } => ActionOutcome {
                effect: if self.tab_state(tab_id).overlay.is_none() {
                    ActionEffect::ActivatePaneDirection
                } else {
                    ActionEffect::Nothing
                },
                invalidate: false,
                viewport: None,
                dims: None,
            },
            KeyAction::TogglePaneZoom { has_active_tab } => ActionOutcome {
                effect: if has_active_tab {
                    ActionEffect::ToggleZoom
                } else {
                    ActionEffect::Nothing
                },
                invalidate: false,
                viewport: None,
                dims: None,
            },
            KeyAction::CloseCurrentPane { confirm, can_close_without_prompting } => ActionOutcome {
                effect: if close_needs_prompt(confirm, can_close_without_prompting) {
                    ActionEffect::PromptClosePane
                } else {
                    ActionEffect::KillActivePane
                },
                invalidate: false,
                viewport: None,
                dims: None,
            },
            KeyAction::CloseCurrentTab { confirm, can_close_without_prompting } => ActionOutcome {
                effect: if close_needs_prompt(confirm, can_close_without_prompting) {
                    ActionEffect::PromptCloseTab
                } else {
                    ActionEffect::RemoveActiveTab
                },
                invalidate: false,
                viewport: None,
                dims: None,
            },
            KeyAction::QuitApplication { has_active_tab } => ActionOutcome {
                effect: match self.config.window_close_confirmation {
                    CloseConfirmation::NeverPrompt => ActionEffect::TerminateApplication,
                    CloseConfirmation::AlwaysPrompt => if has_active_tab {
                        ActionEffect::PromptQuit
                    } else {
                        ActionEffect::Nothing
                    },
                },
                invalidate: false,
                viewport: None,
                dims: None,
            },
            KeyAction::DecreaseFontSize { metrics, render_resize_ok } => {
                let out = self.decrease_font_size(metrics, render_resize_ok);
                ActionOutcome {
                    effect: ActionEffect::Nothing,
                    invalidate: false,
                    viewport: None,
                    dims: Some(out),
                }
            },
            KeyAction::IncreaseFontSize { metrics, render_resize_ok } => {
                let out = self.increase_font_size(metrics, render_resize_ok);
                ActionOutcome {
                    effect: ActionEffect::Nothing,
                    invalidate: false,
                    viewport: None,
                    dims: Some(out),
                }
            },
            KeyAction::ResetFontSize { metrics, render_resize_ok } => {
                let out = self.reset_font_size(metrics, render_resize_ok);
                ActionOutcome {
                    effect: ActionEffect::Nothing,
                    invalidate: false,
                    viewport: None,
                    dims: Some(out),
                }
            },
            KeyAction::ResetFontAndWindowSize { metrics, render_resize_ok } => {
                let out = self.reset_font_and_window_size(metrics, render_resize_ok);
                ActionOutcome {
                    effect: ActionEffect::Nothing,
                    invalidate: false,
                    viewport: None,
                    dims: out,
                }
            },
            KeyAction::ClearScrollback => ActionOutcome {
                effect: ActionEffect::ClearScrollback,
                invalidate: true,
                viewport: None,
                dims: None,
            },
            KeyAction::Passthrough => ActionOutcome {
                effect: ActionEffect::Passthrough,
                invalidate: false,
                viewport: None,
                dims: None,
            },
        }
    }
}

/// Clamps a wide row computation into the stable-row range.
pub fn clamp_to_rows(v: i128) -> (r: isize)
    ensures
        r as int == clamp_isize(v as int),
{
    if v > isize::MAX as i128 {
        isize::MAX
    } else if v < isize::MIN as i128 {
        isize::MIN
    } else {
        v as isize
    }
}

} // verus!
