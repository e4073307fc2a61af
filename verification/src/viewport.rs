//! The viewport controller: where the visible region of each pane is
//! anchored in scrollback, and the scrolling operations that move it.
//!
//! A pane with no stored viewport is pinned to the live bottom of its
//! scrollback.  Every write funnels through one resolution step that
//! clamps into the valid scrollback range and collapses "at or past the
//! live screen" to the pinned state.

use vstd::prelude::*;

verus! {

use crate::types::{PaneId, RenderDims, SemanticType, SemanticZone, StableRowIndex};
use crate::window::{PaneState, TermWindow};
use crate::window::unchanged_but_pane_states;
use crate::types::TabId;

/// `v` clamped into the range of `isize`.
pub open spec fn clamp_isize(v: int) -> int {
    if v > isize::MAX {
        isize::MAX as int
    } else if v < isize::MIN {
        isize::MIN as int
    } else {
        v
    }
}

/// Saturating addition on stable row indices.
pub fn sat_add_rows(a: StableRowIndex, b: StableRowIndex) -> (r: StableRowIndex)
    ensures
        r as int == clamp_isize(a + b),
{
    match a.checked_add(b) {
        Some(v) => v,
        None => if b >= 0 {
            isize::MAX
        } else {
            isize::MIN
        },
    }
}

/// Saturating multiplication on stable row indices.
pub fn sat_mul_rows(a: StableRowIndex, b: StableRowIndex) -> (r: StableRowIndex)
    ensures
        r as int == clamp_isize(a * b),
{
    match a.checked_mul(b) {
        Some(v) => v,
        None => if (a < 0) == (b < 0) {
            proof {
                assert(a * b >= 0) by (nonlinear_arith)
                    requires
                        (a < 0) == (b < 0),
                ;
            }
            isize::MAX
        } else {
            proof {
                assert(a * b <= 0) by (nonlinear_arith)
                    requires
                        (a < 0) != (b < 0),
                ;
            }
            isize::MIN
        },
    }
}

/// What a requested viewport position resolves to: a request at or past
/// the top of the live screen collapses to the pinned ("live") state,
/// and anything earlier is clamped to the oldest retained scrollback row.
pub open spec fn spec_resolve_viewport(position: Option<StableRowIndex>, dims: RenderDims) -> Option<
    StableRowIndex,
> {
    match position {
        Some(p) => if p >= dims.physical_top {
            None
        } else if p <= dims.scrollback_top {
            Some(dims.scrollback_top)
        } else {
            Some(p)
        },
        None => None,
    }
}

/// Law: a request at or past the top of the live screen always resolves
/// to the pinned "live" state, never to a clamped numeric row: being at
/// or past the live screen means the viewer has caught up.
pub proof fn lemma_viewport_past_live_resolves_to_live(row: StableRowIndex, dims: RenderDims)
    requires
        row >= dims.physical_top,
    ensures
        spec_resolve_viewport(Some(row), dims) is None,
{
}

/// What one `set_viewport` call does and returns.
#[derive(Clone, Copy, Debug, PartialEq, Eq, Structural)]
pub struct ViewportOutcome {
    /// Whether the stored viewport actually moved.
    pub changed: bool,
    /// The overlay pane to notify of the new position, when the pane has
    /// a viewport-tracking overlay and the position moved; the
    /// notification goes out before the repaint is requested.
    pub notify_overlay: Option<PaneId>,
    /// Whether a repaint must be requested.
    pub invalidate: bool,
}

/// The full relation of one `set_viewport` call: how `post` and the
/// outcome follow from `pre`, the requested position and the pane's
/// dimensions.
pub open spec fn spec_set_viewport_step(
    pre: TermWindow,
    post: TermWindow,
    pane_id: PaneId,
    position: Option<StableRowIndex>,
    dims: RenderDims,
    r: ViewportOutcome,
) -> bool {
    let resolved = spec_resolve_viewport(position, dims);
    let prior = pre.spec_pane_state(pane_id);
    if resolved == prior.viewport {
        &&& post == pre
        &&& r == (ViewportOutcome { changed: false, notify_overlay: None, invalidate: false })
    } else {
        &&& post.spec_pane_state(pane_id) == (PaneState { viewport: resolved, ..prior })
        &&& forall|p: PaneId| p != pane_id ==> post.spec_pane_state(p) == pre.spec_pane_state(p)
        &&& forall|t: TabId| post.spec_tab_state(t) == pre.spec_tab_state(t)
        &&& unchanged_but_pane_states(pre, post)
        &&& r == (ViewportOutcome {
            changed: true,
            notify_overlay: match prior.overlay {
                Some(o) => if o.kind.spec_tracks_viewport() {
                    Some(o.pane_id)
                } else {
                    None
                },
                None => None,
            },
            invalidate: true,
        })
    }
}

impl TermWindow {
    /// The stored viewport anchor of `pane_id`, or absent while pinned to
    /// the live bottom.
    pub fn get_viewport(&self, pane_id: PaneId) -> (r: Option<StableRowIndex>)
        ensures
            r == self.spec_pane_state(pane_id).viewport,
    {
        self.pane_state(pane_id).viewport
    }

    /// Moves the viewport of `pane_id` to the resolution of `position`
    /// (see [`spec_resolve_viewport`]).  Writing the value already stored
    /// is a no-op: no repaint and no notification.  On an effective
    /// change, a viewport-tracking overlay of the pane must be notified
    /// of the new position, and a repaint requested.
    pub fn set_viewport(
        &mut self,
        pane_id: PaneId,
        position: Option<StableRowIndex>,
        dims: RenderDims,
    ) -> (r: ViewportOutcome)
        ensures
            spec_set_viewport_step(*old(self), *final(self), pane_id, position, dims, r),
            final(self).spec_pane_state(pane_id).viewport == spec_resolve_viewport(position, dims),
    {
        let resolved = match position {
            Some(p) => if p >= dims.physical_top {
                None
            } else if p <= dims.scrollback_top {
                Some(dims.scrollback_top)
            } else {
                Some(p)
            },
            None => None,
        };
        let mut state = self.pane_state(pane_id);
        if resolved == state.viewport {
            return ViewportOutcome { changed: false, notify_overlay: None, invalidate: false };
        }
        let notify_overlay = match state.overlay {
            Some(o) => if o.kind.tracks_viewport() {
                Some(o.pane_id)
            } else {
                None
            },
            None => None,
        };
        state.viewport = resolved;
        self.set_pane_state(pane_id, state);
        ViewportOutcome { changed: true, notify_overlay, invalidate: true }
    }

    /// Pins `pane_id` back to the live bottom of scrollback, with no
    /// notification and no repaint request of its own.
    pub fn scroll_to_bottom(&mut self, pane_id: PaneId)
        ensures
            final(self).spec_pane_state(pane_id) == (PaneState {
                viewport: None,
                ..old(self).spec_pane_state(pane_id)
            }),
            forall|p: PaneId|
                p != pane_id ==> final(self).spec_pane_state(p) == old(self).spec_pane_state(p),
            forall|t: TabId| final(self).spec_tab_state(t) == old(self).spec_tab_state(t),
            unchanged_but_pane_states(*old(self), *final(self)),
    {
        let mut state = self.pane_state(pane_id);
        state.viewport = None;
        self.set_pane_state(pane_id, state);
    }

    /// Pins `pane_id` to the live bottom when the configuration asks for
    /// scroll-on-input; otherwise does nothing.
    pub fn maybe_scroll_to_bottom_for_input(&mut self, pane_id: PaneId)
        ensures
            old(self).config.scroll_to_bottom_on_input ==> final(self).spec_pane_state(pane_id)
                == (PaneState { viewport: None, ..old(self).spec_pane_state(pane_id) })
                && unchanged_but_pane_states(*old(self), *final(self)) && forall|p: PaneId|
                p != pane_id ==> final(self).spec_pane_state(p) == old(self).spec_pane_state(p),
            !old(self).config.scroll_to_bottom_on_input ==> *final(self) == *old(self),
    {
        if self.config.scroll_to_bottom_on_input {
            self.scroll_to_bottom(pane_id);
        }
    }

    /// The row scrolling starts from: the stored viewport, or the top of
    /// the live screen while pinned.
    pub open spec fn spec_scroll_base(self, pane_id: PaneId, dims: RenderDims) -> StableRowIndex {
        match self.spec_pane_state(pane_id).viewport {
            Some(v) => v,
            None => dims.physical_top,
        }
    }

    /// Scrolls `pane_id` by `amount` lines (negative is up), saturating
    /// at the ends of the row index range, then resolving as every
    /// viewport write does.  The caller repaints regardless of whether
    /// the viewport moved.
    pub fn scroll_by_line(&mut self, pane_id: PaneId, amount: isize, dims: RenderDims) -> (r:
        ViewportOutcome)
        ensures
            spec_set_viewport_step(
                *old(self),
                *final(self),
                pane_id,
                Some(clamp_isize(old(self).spec_scroll_base(pane_id, dims) + amount) as isize),
                dims,
                r,
            ),
    {
        let base = match self.get_viewport(pane_id) {
            Some(v) => v,
            None => dims.physical_top,
        };
        let position = sat_add_rows(base, amount);
        self.set_viewport(pane_id, Some(position), dims)
    }

    /// Scrolls `pane_id` by `amount` pages, a page being the pane's
    /// visible row count; otherwise as [`Self::scroll_by_line`].
    pub fn scroll_by_page(&mut self, pane_id: PaneId, amount: isize, dims: RenderDims) -> (r:
        ViewportOutcome)
        requires
            dims.viewport_rows <= isize::MAX,
        ensures
            spec_set_viewport_step(
                *old(self),
                *final(self),
                pane_id,
                Some(
                    clamp_isize(
                        old(self).spec_scroll_base(pane_id, dims) + clamp_isize(
                            amount * dims.viewport_rows,
                        ),
                    ) as isize,
                ),
                dims,
                r,
            ),
    {
        let base = match self.get_viewport(pane_id) {
            Some(v) => v,
            None => dims.physical_top,
        };
        let delta = sat_mul_rows(amount, dims.viewport_rows as isize);
        let position = sat_add_rows(base, delta);
        self.set_viewport(pane_id, Some(position), dims)
    }
}

/// The start rows of the prompt zones among `zones`, in the order the
/// pane reported them.
pub open spec fn spec_prompt_rows(zones: Seq<SemanticZone>) -> Seq<StableRowIndex>
    decreases zones.len(),
{
    if zones.len() == 0 {
        Seq::empty()
    } else if zones[0].semantic_type == SemanticType::Prompt {
        seq![zones[0].start_y] + spec_prompt_rows(zones.skip(1))
    } else {
        spec_prompt_rows(zones.skip(1))
    }
}

/// The index the zone search lands on: the first row at or past
/// `position`, which is the matched index when `position` is present and
/// the insertion index when it is not; `rows.len()` when every row is
/// earlier.
pub open spec fn spec_zone_index(rows: Seq<StableRowIndex>, position: StableRowIndex) -> int
    decreases rows.len(),
{
    if rows.len() == 0 {
        0
    } else if rows[0] >= position {
        0
    } else {
        1 + spec_zone_index(rows.skip(1), position)
    }
}

/// Collects the start rows of the prompt zones.
fn prompt_rows(zones: &Vec<SemanticZone>) -> (r: Vec<StableRowIndex>)
    ensures
        r@ == spec_prompt_rows(zones@),
{
    let mut v: Vec<StableRowIndex> = Vec::new();
    let n = zones.len();
    let mut i: usize = 0;
    proof {
        assert(zones@.skip(0) =~= zones@);
    }
    while i < n
        invariant
            0 <= i <= zones@.len(),
            n == zones@.len(),
            spec_prompt_rows(zones@) =~= v@ + spec_prompt_rows(zones@.skip(i as int)),
        decreases n - i,
    {
        proof {
            assert(zones@.skip(i as int)[0] == zones@[i as int]);
            assert(zones@.skip(i as int).skip(1) =~= zones@.skip(i + 1));
        }
        let z = zones[i];
        if matches!(z.semantic_type, SemanticType::Prompt) {
            v.push(z.start_y);
        }
        i = i + 1;
    }
    proof {
        assert(spec_prompt_rows(zones@.skip(i as int)) =~= Seq::empty());
        assert(v@ + Seq::<StableRowIndex>::empty() =~= v@);
    }
    v
}

/// Finds the first index whose row is at or past `position`.
fn zone_index(rows: &Vec<StableRowIndex>, position: StableRowIndex) -> (r: usize)
    ensures
        r as int == spec_zone_index(rows@, position),
        r <= rows@.len(),
{
    let n = rows.len();
    let mut i: usize = 0;
    proof {
        assert(rows@.skip(0) =~= rows@);
    }
    while i < n
        invariant
            0 <= i <= rows@.len(),
            n == rows@.len(),
            spec_zone_index(rows@, position) == i + spec_zone_index(
                rows@.skip(i as int),
                position,
            ),
        decreases n - i,
    {
        proof {
            assert(rows@.skip(i as int)[0] == rows@[i as int]);
            assert(rows@.skip(i as int).skip(1) =~= rows@.skip(i + 1));
        }
        if rows[i] >= position {
            return i;
        }
        i = i + 1;
    }
    proof {
        assert(rows@.skip(i as int).len() == 0);
    }
    i
}

impl TermWindow {
    /// Jumps the viewport of `pane_id` to a nearby shell prompt.
    ///
    /// The pane's semantic zones are filtered to prompts; the current
    /// position is located among their start rows (ties resolve to the
    /// matched index, a miss to the insertion index); the index is
    /// stepped by `amount`, clamped at zero; and when a prompt exists at
    /// the stepped index the viewport jumps to its start row.  The caller
    /// repaints regardless.
    pub fn scroll_to_prompt(
        &mut self,
        pane_id: PaneId,
        amount: isize,
        zones: &Vec<SemanticZone>,
        dims: RenderDims,
    ) -> (r: ViewportOutcome)
        requires
            zones@.len() <= isize::MAX,
        ensures
            ({
                let rows = spec_prompt_rows(zones@);
                let idx = spec_zone_index(rows, old(self).spec_scroll_base(pane_id, dims));
                let stepped = if idx + amount >= 0 {
                    idx + amount
                } else {
                    0
                };
                if stepped < rows.len() {
                    spec_set_viewport_step(
                        *old(self),
                        *final(self),
                        pane_id,
                        Some(rows[stepped as int]),
                        dims,
                        r,
                    )
                } else {
                    *final(self) == *old(self) && r == (ViewportOutcome {
                        changed: false,
                        notify_overlay: None,
                        invalidate: false,
                    })
                }
            }),
    {
        let base = match self.get_viewport(pane_id) {
            Some(v) => v,
            None => dims.physical_top,
        };
        let rows = prompt_rows(zones);
        proof {
            lemma_prompt_rows_len(zones@);
        }
        let idx = zone_index(&rows, base);
        let shifted: i128 = idx as i128 + amount as i128;
        let stepped: i128 = if shifted >= 0 {
            shifted
        } else {
            0
        };
        if stepped < rows.len() as i128 {
            self.set_viewport(pane_id, Some(rows[stepped as usize]), dims)
        } else {
            ViewportOutcome { changed: false, notify_overlay: None, invalidate: false }
        }
    }
}

/// There are no more prompt rows than zones.
proof fn lemma_prompt_rows_len(zones: Seq<SemanticZone>)
    ensures
        spec_prompt_rows(zones).len() <= zones.len(),
    decreases zones.len(),
{
    if zones.len() > 0 {
        lemma_prompt_rows_len(zones.skip(1));
    }
}

/// Law: `set_viewport` is idempotent.  When two consecutive calls on the
/// same pane carry requests that resolve to the same value, the second
/// call changes nothing, requests no repaint and notifies nobody.
pub proof fn lemma_set_viewport_idempotent(
    w0: TermWindow,
    w1: TermWindow,
    w2: TermWindow,
    pane_id: PaneId,
    position1: Option<StableRowIndex>,
    dims1: RenderDims,
    position2: Option<StableRowIndex>,
    dims2: RenderDims,
    r1: ViewportOutcome,
    r2: ViewportOutcome,
)
    requires
        spec_set_viewport_step(w0, w1, pane_id, position1, dims1, r1),
        spec_set_viewport_step(w1, w2, pane_id, position2, dims2, r2),
        spec_resolve_viewport(position1, dims1) == spec_resolve_viewport(position2, dims2),
    ensures
        w2 == w1,
        r2 == (ViewportOutcome { changed: false, notify_overlay: None, invalidate: false }),
{
}

} // verus!
