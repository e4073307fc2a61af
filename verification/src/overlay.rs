//! The overlay registry: installing, replacing and cancelling the
//! tab-level and pane-level overlay panes, and the precedence rule every
//! consumer applies to find out what is actually on screen.
//!
//! The registry owns the handle of the currently displayed overlay.  When
//! an overlay is replaced or cancelled, the multiplexer must be told to
//! dispose of the underlying pane exactly once; each operation here
//! returns the pane id to release, and returns it from exactly one call.

use vstd::prelude::*;

verus! {

use crate::types::{OverlayHandle, OverlayKind, PaneId, SplitDirection, TabId};
use crate::window::{PaneState, TabState, TermWindow};
use crate::window::{unchanged_but_pane_states, unchanged_but_tab_states};

/// What a cancellation did: the pane to dispose of, if one was installed,
/// and whether a repaint must be requested.
#[derive(Clone, Copy, Debug, PartialEq, Eq, Structural)]
pub struct CancelOutcome {
    pub released: Option<PaneId>,
    pub invalidate: bool,
}

/// The pane id of the overlay installed for `tab_id`, if any.
pub open spec fn spec_tab_overlay_pane(w: TermWindow, tab_id: TabId) -> Option<PaneId> {
    match w.spec_tab_state(tab_id).overlay {
        Some(o) => Some(o.pane_id),
        None => None,
    }
}

/// One tab-level overlay installation step: `post` is `pre` with exactly
/// the overlay of `tab_id` replaced by `overlay`, and `released` is the
/// pane id of exactly the overlay that was installed before, if any.
pub open spec fn spec_assign_overlay_step(
    pre: TermWindow,
    post: TermWindow,
    tab_id: TabId,
    overlay: OverlayHandle,
    released: Option<PaneId>,
) -> bool {
    &&& post.spec_tab_state(tab_id) == (TabState { overlay: Some(overlay) })
    &&& forall|t: TabId| t != tab_id ==> post.spec_tab_state(t) == pre.spec_tab_state(t)
    &&& forall|p: PaneId| post.spec_pane_state(p) == pre.spec_pane_state(p)
    &&& released == spec_tab_overlay_pane(pre, tab_id)
    &&& unchanged_but_tab_states(pre, post)
}

/// One pane-level overlay installation step, mirroring
/// [`spec_assign_overlay_step`]; the pane's viewport and selection are
/// untouched.
pub open spec fn spec_assign_overlay_for_pane_step(
    pre: TermWindow,
    post: TermWindow,
    pane_id: PaneId,
    overlay: OverlayHandle,
    released: Option<PaneId>,
) -> bool {
    &&& post.spec_pane_state(pane_id) == (PaneState {
        overlay: Some(overlay),
        ..pre.spec_pane_state(pane_id)
    })
    &&& forall|p: PaneId| p != pane_id ==> post.spec_pane_state(p) == pre.spec_pane_state(p)
    &&& forall|t: TabId| post.spec_tab_state(t) == pre.spec_tab_state(t)
    &&& released == (match pre.spec_pane_state(pane_id).overlay {
        Some(o) => Some(o.pane_id),
        None => None,
    })
    &&& unchanged_but_pane_states(pre, post)
}

impl TermWindow {
    /// Installs `overlay` as the tab-level overlay of `tab_id`.  A prior
    /// overlay is atomically replaced and its pane id returned so the
    /// caller releases it with the multiplexer — exactly once, since no
    /// other operation still holds it.  The caller must then refresh the
    /// window title and chrome.
    pub fn assign_overlay(&mut self, tab_id: TabId, overlay: OverlayHandle) -> (released: Option<
        PaneId,
    >)
        ensures
            spec_assign_overlay_step(*old(self), *final(self), tab_id, overlay, released),
    {
        let prior = self.tab_state(tab_id).overlay;
        self.set_tab_state(tab_id, TabState { overlay: Some(overlay) });
        match prior {
            Some(o) => Some(o.pane_id),
            None => None,
        }
    }

    /// Installs `overlay` as the pane-level overlay of `pane_id`; see
    /// [`Self::assign_overlay`].
    pub fn assign_overlay_for_pane(&mut self, pane_id: PaneId, overlay: OverlayHandle) -> (released:
        Option<PaneId>)
        ensures
            spec_assign_overlay_for_pane_step(*old(self), *final(self), pane_id, overlay, released),
    {
        let mut state = self.pane_state(pane_id);
        let prior = state.overlay;
        state.overlay = Some(overlay);
        self.set_pane_state(pane_id, state);
        match prior {
            Some(o) => Some(o.pane_id),
            None => None,
        }
    }

    /// Cancels the tab-level overlay of `tab_id`.
    ///
    /// With `expected_pane_id` given, the cancellation applies only when
    /// the installed overlay's pane id matches: a stale cancellation that
    /// raced a newer overlay finds a different pane id and leaves the
    /// newer overlay untouched.  An applied cancellation removes the
    /// overlay, returns its pane id for release, and requests a repaint.
    pub fn cancel_overlay_for_tab(&mut self, tab_id: TabId, expected_pane_id: Option<PaneId>) -> (r:
        CancelOutcome)
        ensures
            expected_pane_id is Some && spec_tab_overlay_pane(*old(self), tab_id)
                != expected_pane_id ==> *final(self) == *old(self) && r == (CancelOutcome {
                released: None,
                invalidate: false,
            }),
            expected_pane_id is None || spec_tab_overlay_pane(*old(self), tab_id)
                == expected_pane_id ==> {
                &&& final(self).spec_tab_state(tab_id) == (TabState { overlay: None })
                &&& forall|t: TabId|
                    t != tab_id ==> final(self).spec_tab_state(t) == old(self).spec_tab_state(t)
                &&& forall|p: PaneId|
                    final(self).spec_pane_state(p) == old(self).spec_pane_state(p)
                &&& unchanged_but_tab_states(*old(self), *final(self))
                &&& r == (CancelOutcome {
                    released: spec_tab_overlay_pane(*old(self), tab_id),
                    invalidate: true,
                })
            },
    {
        if expected_pane_id.is_some() {
            let current = match self.tab_state(tab_id).overlay {
                Some(o) => Some(o.pane_id),
                None => None,
            };
            if current != expected_pane_id {
                return CancelOutcome { released: None, invalidate: false };
            }
        }
        let prior = self.tab_state(tab_id).overlay;
        self.set_tab_state(tab_id, TabState { overlay: None });
        let released = match prior {
            Some(o) => Some(o.pane_id),
            None => None,
        };
        CancelOutcome { released, invalidate: true }
    }

    /// Cancels the pane-level overlay of `pane_id` unconditionally,
    /// returning the pane id to release (if an overlay was installed) and
    /// requesting a repaint.
    pub fn cancel_overlay_for_pane(&mut self, pane_id: PaneId) -> (r: CancelOutcome)
        ensures
            final(self).spec_pane_state(pane_id) == (PaneState {
                overlay: None,
                ..old(self).spec_pane_state(pane_id)
            }),
            forall|p: PaneId|
                p != pane_id ==> final(self).spec_pane_state(p) == old(self).spec_pane_state(p),
            forall|t: TabId| final(self).spec_tab_state(t) == old(self).spec_tab_state(t),
            unchanged_but_pane_states(*old(self), *final(self)),
            r == (CancelOutcome {
                released: match old(self).spec_pane_state(pane_id).overlay {
                    Some(o) => Some(o.pane_id),
                    None => None,
                },
                invalidate: true,
            }),
    {
        let mut state = self.pane_state(pane_id);
        let prior = state.overlay;
        state.overlay = None;
        self.set_pane_state(pane_id, state);
        let released = match prior {
            Some(o) => Some(o.pane_id),
            None => None,
        };
        CancelOutcome { released, invalidate: true }
    }
}

/// Law: overlay replacement is atomic and releases exactly once.  Across
/// any two consecutive installations on the same tab, exactly one overlay
/// is installed after each call; the second call releases exactly the
/// pane the first call installed; and a call on an empty slot releases
/// nothing.  Chaining this law over a whole sequence of installations
/// shows each replaced overlay is released by exactly one call — no leak
/// and no double release.
pub proof fn lemma_overlay_replacement_exactly_once(
    w0: TermWindow,
    w1: TermWindow,
    w2: TermWindow,
    tab_id: TabId,
    o1: OverlayHandle,
    o2: OverlayHandle,
    r1: Option<PaneId>,
    r2: Option<PaneId>,
)
    requires
        spec_assign_overlay_step(w0, w1, tab_id, o1, r1),
        spec_assign_overlay_step(w1, w2, tab_id, o2, r2),
    ensures
        w1.spec_tab_state(tab_id).overlay == Some(o1),
        w2.spec_tab_state(tab_id).overlay == Some(o2),
        r2 == Some(o1.pane_id),
        w0.spec_tab_state(tab_id).overlay is None ==> r1 is None,
        w0.spec_tab_state(tab_id).overlay matches Some(o) ==> r1 == Some(o.pane_id),
{
}

/// One pane slot of the layout the renderer will draw: where it sits, in
/// cells and pixels, which pane fills it, and — when an overlay is
/// substituted — which kind of overlay that is.
#[derive(Clone, Copy, Debug, PartialEq, Eq, Structural)]
pub struct PositionedPane {
    pub index: usize,
    pub is_active: bool,
    pub is_zoomed: bool,
    /// Position within the tab, in cells.
    pub left: usize,
    pub top: usize,
    /// Size within the tab, in cells.
    pub width: usize,
    pub height: usize,
    pub pixel_width: usize,
    pub pixel_height: usize,
    /// The pane actually shown in this slot.
    pub pane_id: PaneId,
    /// The overlay kind shown, or absent when the real pane is shown.
    pub overlay: Option<OverlayKind>,
}

/// The substitution the precedence rule makes in one pane slot: the
/// pane's own overlay, if installed, replaces that pane's content.
pub open spec fn spec_substituted_pane(w: TermWindow, p: PositionedPane) -> PositionedPane {
    match w.spec_pane_state(p.pane_id).overlay {
        Some(o) => PositionedPane { pane_id: o.pane_id, overlay: Some(o.kind), ..p },
        None => PositionedPane { overlay: None, ..p },
    }
}

impl TermWindow {
    /// The pane the user is looking at and interacting with, under the
    /// two-level precedence rule: a tab-level overlay replaces the whole
    /// tab; otherwise the active pane's own overlay replaces that pane;
    /// otherwise the active pane itself.  `active_real_pane` is the
    /// active pane the multiplexer reports for `tab_id` (absent when the
    /// tab has none, in which case only a tab-level overlay can be shown).
    pub fn get_active_pane_or_overlay(&self, tab_id: TabId, active_real_pane: Option<PaneId>) -> (r:
        Option<(PaneId, Option<OverlayKind>)>)
        ensures
            r == (match self.spec_tab_state(tab_id).overlay {
                Some(o) => Some((o.pane_id, Some(o.kind))),
                None => match active_real_pane {
                    Some(p) => match self.spec_pane_state(p).overlay {
                        Some(o) => Some((o.pane_id, Some(o.kind))),
                        None => Some((p, None::<OverlayKind>)),
                    },
                    None => None::<(PaneId, Option<OverlayKind>)>,
                },
            }),
    {
        match self.tab_state(tab_id).overlay {
            Some(o) => Some((o.pane_id, Some(o.kind))),
            None => match active_real_pane {
                Some(p) => match self.pane_state(p).overlay {
                    Some(o) => Some((o.pane_id, Some(o.kind))),
                    None => Some((p, None)),
                },
                None => None,
            },
        }
    }

    /// The pane layout to render for `tab_id`, under the precedence rule.
    ///
    /// With a tab-level overlay installed, the layout is that single
    /// overlay pane filling the whole tab (`tab_rows` by `tab_cols`
    /// cells, at the current cell metrics).  Otherwise it is the
    /// multiplexer's layout `real_panes`, with each pane that has a
    /// pane-level overlay substituted by it.
    pub fn get_panes_to_render(
        &self,
        tab_id: TabId,
        tab_rows: usize,
        tab_cols: usize,
        real_panes: &Vec<PositionedPane>,
    ) -> (r: Vec<PositionedPane>)
        requires
            tab_cols * self.render_metrics.width <= usize::MAX,
            tab_rows * self.render_metrics.height <= usize::MAX,
        ensures
            match self.spec_tab_state(tab_id).overlay {
                Some(o) => r@ =~= seq![
                    PositionedPane {
                        index: 0,
                        is_active: true,
                        is_zoomed: false,
                        left: 0,
                        top: 0,
                        width: tab_cols,
                        height: tab_rows,
                        pixel_width: (tab_cols * self.render_metrics.width) as usize,
                        pixel_height: (tab_rows * self.render_metrics.height) as usize,
                        pane_id: o.pane_id,
                        overlay: Some(o.kind),
                    },
                ],
                None => r@.len() == real_panes@.len() && forall|i: int|
                    0 <= i < r@.len() ==> r@[i] == spec_substituted_pane(*self, real_panes@[i]),
            },
    {
        match self.tab_state(tab_id).overlay {
            Some(o) => {
                let mut v: Vec<PositionedPane> = Vec::new();
                v.push(
                    PositionedPane {
                        index: 0,
                        is_active: true,
                        is_zoomed: false,
                        left: 0,
                        top: 0,
                        width: tab_cols,
                        height: tab_rows,
                        pixel_width: tab_cols * self.render_metrics.width,
                        pixel_height: tab_rows * self.render_metrics.height,
                        pane_id: o.pane_id,
                        overlay: Some(o.kind),
                    },
                );
                v
            },
            None => {
                let mut v: Vec<PositionedPane> = Vec::new();
                let n = real_panes.len();
                let mut i: usize = 0;
                while i < n
                    invariant
                        0 <= i <= real_panes@.len(),
                        n == real_panes@.len(),
                        v@.len() == i,
                        forall|j: int|
                            0 <= j < i ==> v@[j] == spec_substituted_pane(
                                *self,
                                real_panes@[j],
                            ),
                    decreases n - i,
                {
                    let p = real_panes[i];
                    let substituted = match self.pane_state(p.pane_id).overlay {
                        Some(o) => PositionedPane {
                            pane_id: o.pane_id,
                            overlay: Some(o.kind),
                            ..p
                        },
                        None => PositionedPane { overlay: None, ..p },
                    };
                    v.push(substituted);
                    i = i + 1;
                }
                v
            },
        }
    }

    /// Whether split separators are drawn for `tab_id`: a tab-level
    /// overlay fills the whole tab, so no splits show while one is
    /// installed.
    pub fn splits_hidden(&self, tab_id: TabId) -> (r: bool)
        ensures
            r == (self.spec_tab_state(tab_id).overlay is Some),
    {
        self.tab_state(tab_id).overlay.is_some()
    }

    /// The split separators to draw for `tab_id`: none while a tab-level
    /// overlay covers the layout, otherwise exactly the multiplexer's
    /// own (`real_splits`).
    pub fn get_splits(&self, tab_id: TabId, real_splits: &Vec<PositionedSplit>) -> (r: Vec<
        PositionedSplit,
    >)
        ensures
            self.spec_tab_state(tab_id).overlay is Some ==> r@.len() == 0,
            self.spec_tab_state(tab_id).overlay is None ==> r@ == real_splits@,
    {
        let mut v: Vec<PositionedSplit> = Vec::new();
        if self.tab_state(tab_id).overlay.is_some() {
            return v;
        }
        let n = real_splits.len();
        let mut i: usize = 0;
        while i < n
            invariant
                0 <= i <= real_splits@.len(),
                n == real_splits@.len(),
                v@ =~= real_splits@.subrange(0, i as int),
            decreases n - i,
        {
            v.push(real_splits[i]);
            i = i + 1;
        }
        proof {
            assert(v@ =~= real_splits@);
        }
        v
    }
}

/// One split separator of a tab's layout, in cell coordinates.
#[derive(Clone, Copy, Debug, PartialEq, Eq, Structural)]
pub struct PositionedSplit {
    pub index: usize,
    pub direction: SplitDirection,
    pub left: usize,
    pub top: usize,
    /// Extent of the separator, in cells, along its direction.
    pub size: usize,
}

} // verus!
