//! Per-pane text selection: an optional anchor, an optional resolved range,
//! and the mode-dependent rules for beginning and extending a selection.
//!
//! Word and semantic-zone selections snap to unit boundaries supplied by
//! the pane's content queries; those units arrive here as plain ranges.
//! Line selections snap to whole rows.  Cell selections track the raw
//! coordinates.

use vstd::prelude::*;

verus! {

use crate::types::StableRowIndex;

/// How a selection is created and extended.
#[derive(Clone, Copy, Debug, PartialEq, Eq, Structural)]
pub enum SelectionMode {
    Cell,
    Word,
    Line,
    SemanticZone,
}

/// A cell position: column `x` within stable row `y`.
#[derive(Clone, Copy, Debug, PartialEq, Eq, Structural)]
pub struct SelectionCoordinate {
    pub x: usize,
    pub y: StableRowIndex,
}

/// Two endpoints of a selection.  `start` is where the selection was
/// anchored and `end` where it was last extended to; the endpoints are in
/// no particular order until [`SelectionRange::normalize`] is applied.
#[derive(Clone, Copy, Debug, PartialEq, Eq, Structural)]
pub struct SelectionRange {
    pub start: SelectionCoordinate,
    pub end: SelectionCoordinate,
}

/// A maximal run of cells that word or semantic-zone selection snaps to,
/// as reported by the pane: every cell from `start` to `end` in reading
/// order belongs to the unit.
#[derive(Clone, Copy, Debug, PartialEq, Eq, Structural)]
pub struct UnitRange {
    pub start: SelectionCoordinate,
    pub end: SelectionCoordinate,
}

/// Reading order on coordinates: `a` comes no later than `b`.
pub open spec fn coord_le(a: SelectionCoordinate, b: SelectionCoordinate) -> bool {
    a.y < b.y || (a.y == b.y && a.x <= b.x)
}

/// Reading order is total: of any two coordinates, one comes no later
/// than the other.
pub proof fn lemma_coord_le_total(a: SelectionCoordinate, b: SelectionCoordinate)
    ensures
        coord_le(a, b) || coord_le(b, a),
        coord_le(a, b) && coord_le(b, a) ==> a == b,
{
}

/// Executable reading-order comparison.
pub fn coord_le_exec(a: &SelectionCoordinate, b: &SelectionCoordinate) -> (r: bool)
    ensures
        r == coord_le(*a, *b),
{
    a.y < b.y || (a.y == b.y && a.x <= b.x)
}

/// The unit `u` covers coordinate `c`.
pub open spec fn unit_contains(u: UnitRange, c: SelectionCoordinate) -> bool {
    coord_le(u.start, c) && coord_le(c, u.end)
}

/// `p` lies on the boundary of one of the given units.
pub open spec fn is_unit_boundary(units: Seq<UnitRange>, p: SelectionCoordinate) -> bool {
    exists|i: int| 0 <= i < units.len() && (#[trigger] units[i].start == p || units[i].end == p)
}

/// The range that unit snapping resolves around `c`: the extent of the
/// first unit covering `c`, or the degenerate range at `c` when no unit
/// covers it.
pub open spec fn spec_unit_around(units: Seq<UnitRange>, c: SelectionCoordinate) -> SelectionRange
    decreases units.len(),
{
    if units.len() == 0 {
        SelectionRange { start: c, end: c }
    } else if unit_contains(units[0], c) {
        SelectionRange { start: units[0].start, end: units[0].end }
    } else {
        spec_unit_around(units.skip(1), c)
    }
}

impl SelectionRange {
    /// The normalized form: the earlier endpoint in reading order first.
    pub open spec fn spec_normalize(self) -> SelectionRange {
        if coord_le(self.start, self.end) {
            self
        } else {
            SelectionRange { start: self.end, end: self.start }
        }
    }

    /// A degenerate range anchored at one coordinate.
    pub fn single(c: SelectionCoordinate) -> (r: SelectionRange)
        ensures
            r == (SelectionRange { start: c, end: c }),
    {
        SelectionRange { start: c, end: c }
    }

    /// Moves the open end of the range to `end`, keeping the anchor.
    pub fn extend(&self, end: SelectionCoordinate) -> (r: SelectionRange)
        ensures
            r == (SelectionRange { start: self.start, end }),
    {
        SelectionRange { start: self.start, end }
    }

    /// Reorders the endpoints so that `start` comes no later than `end`.
    pub fn normalize(&self) -> (r: SelectionRange)
        ensures
            r == self.spec_normalize(),
            coord_le(r.start, r.end),
    {
        if coord_le_exec(&self.start, &self.end) {
            *self
        } else {
            SelectionRange { start: self.end, end: self.start }
        }
    }

    /// The symmetric merge of two ranges: the hull from the earliest
    /// endpoint of either to the latest endpoint of either, so that
    /// neither argument is assumed to hold the anchor.
    pub open spec fn spec_extend_with(self, other: SelectionRange) -> SelectionRange {
        let a = self.spec_normalize();
        let b = other.spec_normalize();
        SelectionRange {
            start: if coord_le(a.start, b.start) {
                a.start
            } else {
                b.start
            },
            end: if coord_le(a.end, b.end) {
                b.end
            } else {
                a.end
            },
        }
    }

    /// Merges `self` with `other` symmetrically; see [`Self::spec_extend_with`].
    pub fn extend_with(&self, other: SelectionRange) -> (r: SelectionRange)
        ensures
            r == self.spec_extend_with(other),
            coord_le(r.start, r.end),
    {
        let a = self.normalize();
        let b = other.normalize();
        let start = if coord_le_exec(&a.start, &b.start) {
            a.start
        } else {
            b.start
        };
        let end = if coord_le_exec(&a.end, &b.end) {
            b.end
        } else {
            a.end
        };
        SelectionRange { start, end }
    }

    /// The stable rows the selection spans, as the half-open interval
    /// `[first, one_past_last)` of its normalized form.
    pub fn rows(&self) -> (r: (StableRowIndex, StableRowIndex))
        requires
            self.spec_normalize().end.y < StableRowIndex::MAX,
        ensures
            r.0 == self.spec_normalize().start.y,
            r.1 == self.spec_normalize().end.y + 1,
    {
        let sel = self.normalize();
        (sel.start.y, sel.end.y + 1)
    }

    /// The columns the selection covers within `row`, as a half-open
    /// interval of its normalized form.  Rows strictly inside the span
    /// cover every column; the first and last rows are bounded by the
    /// endpoints; rows outside the span cover nothing.
    pub open spec fn spec_cols_for_row(self, row: StableRowIndex) -> (usize, usize) {
        let sel = self.spec_normalize();
        if row < sel.start.y || row > sel.end.y {
            (0, 0)
        } else if sel.start.y == sel.end.y {
            (sel.start.x, if sel.end.x < usize::MAX { (sel.end.x + 1) as usize } else { usize::MAX })
        } else if row == sel.end.y {
            (0, if sel.end.x < usize::MAX { (sel.end.x + 1) as usize } else { usize::MAX })
        } else if row == sel.start.y {
            (sel.start.x, usize::MAX)
        } else {
            (0, usize::MAX)
        }
    }

    /// See [`Self::spec_cols_for_row`].
    pub fn cols_for_row(&self, row: StableRowIndex) -> (r: (usize, usize))
        ensures
            r == self.spec_cols_for_row(row),
    {
        let sel = self.normalize();
        if row < sel.start.y || row > sel.end.y {
            (0, 0)
        } else if sel.start.y == sel.end.y {
            (sel.start.x, if sel.end.x < usize::MAX { sel.end.x + 1 } else { usize::MAX })
        } else if row == sel.end.y {
            (0, if sel.end.x < usize::MAX { sel.end.x + 1 } else { usize::MAX })
        } else if row == sel.start.y {
            (sel.start.x, usize::MAX)
        } else {
            (0, usize::MAX)
        }
    }
}

/// Snaps `c` to the first unit that covers it, or to itself.
pub fn unit_around(units: &Vec<UnitRange>, c: SelectionCoordinate) -> (r: SelectionRange)
    ensures
        r == spec_unit_around(units@, c),
{
    let mut i: usize = 0;
    proof {
        assert(units@.skip(0) =~= units@);
    }
    while i < units.len()
        invariant
            0 <= i <= units@.len(),
            spec_unit_around(units@, c) == spec_unit_around(units@.skip(i as int), c),
        decreases units@.len() - i,
    {
        let u = units[i];
        proof {
            assert(units@.skip(i as int)[0] == units@[i as int]);
            assert(units@.skip(i as int).skip(1) =~= units@.skip(i + 1));
        }
        if coord_le_exec(&u.start, &c) && coord_le_exec(&c, &u.end) {
            return SelectionRange { start: u.start, end: u.end };
        }
        i = i + 1;
    }
    proof {
        assert(units@.skip(i as int).len() == 0);
    }
    SelectionRange { start: c, end: c }
}

/// When some unit covers `c`, snapping resolves to the extent of a
/// covering unit, so both resulting endpoints are unit boundaries.
pub proof fn lemma_unit_around_covered(units: Seq<UnitRange>, c: SelectionCoordinate)
    requires
        exists|i: int| 0 <= i < units.len() && #[trigger] unit_contains(units[i], c),
    ensures
        exists|i: int|
            0 <= i < units.len() && #[trigger] unit_contains(units[i], c)
                && spec_unit_around(units, c) == (SelectionRange {
                start: units[i].start,
                end: units[i].end,
            }),
    decreases units.len(),
{
    if unit_contains(units[0], c) {
        assert(0 <= 0 < units.len() && unit_contains(units[0], c) && spec_unit_around(units, c)
            == (SelectionRange { start: units[0].start, end: units[0].end }));
    } else {
        let j = choose|j: int| 0 <= j < units.len() && #[trigger] unit_contains(units[j], c);
        assert(units.skip(1)[j - 1] == units[j]);
        assert(unit_contains(units.skip(1)[j - 1], c));
        lemma_unit_around_covered(units.skip(1), c);
        let k = choose|k: int|
            0 <= k < units.skip(1).len() && #[trigger] unit_contains(units.skip(1)[k], c)
                && spec_unit_around(units.skip(1), c) == (SelectionRange {
                start: units.skip(1)[k].start,
                end: units.skip(1)[k].end,
            });
        assert(units.skip(1)[k] == units[k + 1]);
        assert(unit_contains(units[k + 1], c) && spec_unit_around(units, c) == (SelectionRange {
            start: units[k + 1].start,
            end: units[k + 1].end,
        }));
    }
}

/// Law: word and semantic-zone selection ranges have both endpoints on
/// unit boundaries, whatever the raw anchor and cursor coordinates, as
/// long as some unit covers each of them.  The range such a selection
/// resolves to is the merge of the units snapped around the anchor and
/// around the cursor, and each endpoint of that merge is an endpoint of
/// one of those two units.
pub proof fn lemma_unit_selection_snaps_to_boundaries(
    units: Seq<UnitRange>,
    anchor: SelectionCoordinate,
    cursor: SelectionCoordinate,
)
    requires
        exists|i: int| 0 <= i < units.len() && #[trigger] unit_contains(units[i], anchor),
        exists|i: int| 0 <= i < units.len() && #[trigger] unit_contains(units[i], cursor),
    ensures
        is_unit_boundary(
            units,
            spec_unit_around(units, anchor).spec_extend_with(spec_unit_around(units, cursor)).start,
        ),
        is_unit_boundary(
            units,
            spec_unit_around(units, anchor).spec_extend_with(spec_unit_around(units, cursor)).end,
        ),
{
    lemma_unit_around_covered(units, anchor);
    lemma_unit_around_covered(units, cursor);
    let ra = spec_unit_around(units, anchor);
    let rb = spec_unit_around(units, cursor);
    let merged = ra.spec_extend_with(rb);
    assert(merged.start == ra.spec_normalize().start || merged.start == rb.spec_normalize().start);
    assert(merged.end == ra.spec_normalize().end || merged.end == rb.spec_normalize().end);
}

/// The whole-row range line selection snaps to: from column 0 of the row
/// to the end-of-row marker column.
pub fn line_around(c: SelectionCoordinate) -> (r: SelectionRange)
    ensures
        r == (SelectionRange {
            start: SelectionCoordinate { x: 0, y: c.y },
            end: SelectionCoordinate { x: usize::MAX, y: c.y },
        }),
{
    SelectionRange {
        start: SelectionCoordinate { x: 0, y: c.y },
        end: SelectionCoordinate { x: usize::MAX, y: c.y },
    }
}

/// Law: line selections span whole rows whatever the raw coordinates.
/// Both endpoints of the range produced by beginning a line selection at
/// `a` and extending it to `b` sit on row boundaries: the start at
/// column zero, the end at the end-of-row marker column.
pub proof fn lemma_line_selection_snaps_to_row_boundaries(
    a: SelectionCoordinate,
    b: SelectionCoordinate,
)
    ensures
        ({
            let begun = spec_selection_begun(SelectionMode::Line, a, Seq::empty());
            let extended = spec_selection_extended(begun, SelectionMode::Line, b, Seq::empty());
            &&& begun.range matches Some(r) && r.start.x == 0 && r.end.x == usize::MAX
            &&& extended.range matches Some(r) && r.start.x == 0 && r.end.x == usize::MAX
        }),
{
}

/// Law: beginning a cell selection at `a` and extending it to `b` resolves
/// to the range with anchor `a` and end `b`; doing so in the opposite
/// order resolves to the range with anchor `b` and end `a`; the two have
/// the same normalized form, so the selected region is independent of the
/// drag direction.
pub proof fn lemma_cell_selection_order_independent(
    a: SelectionCoordinate,
    b: SelectionCoordinate,
)
    ensures
        (SelectionRange { start: a, end: b }).spec_normalize() == (SelectionRange {
            start: b,
            end: a,
        }).spec_normalize(),
{
    lemma_coord_le_total(a, b);
}

/// The selection state of one pane.
#[derive(Clone, Copy, Debug, PartialEq, Eq, Structural)]
pub struct Selection {
    /// The anchor the selection was begun at; retained independently of
    /// `range` so a later extension can recompute the opposite boundary.
    pub start: Option<SelectionCoordinate>,
    /// The resolved range, if any.
    pub range: Option<SelectionRange>,
}

impl Default for Selection {
    /// An empty selection: no anchor and no range.
    fn default() -> (r: Selection)
        ensures
            r == (Selection { start: None, range: None }),
    {
        Selection { start: None, range: None }
    }
}

impl Selection {
    /// Drops any anchor and range.
    pub fn clear(&mut self)
        ensures
            *final(self) == (Selection { start: None, range: None }),
    {
        self.start = None;
        self.range = None;
    }

    /// Starts an open-ended cell selection: the anchor is set and no
    /// range is resolved yet.
    pub fn begin(&mut self, c: SelectionCoordinate)
        ensures
            *final(self) == (Selection { start: Some(c), range: None }),
    {
        self.start = Some(c);
        self.range = None;
    }

    /// True when a range is resolved.
    pub fn is_active(&self) -> (r: bool)
        ensures
            r == self.range.is_some(),
    {
        self.range.is_some()
    }
}

/// Where a selection stands after a cell-mode extension to `cursor`: the
/// existing range keeps its anchor; with no range yet, the stored anchor
/// (or, failing that, the cursor itself) anchors a fresh range.
pub open spec fn spec_cell_extended(sel: Selection, cursor: SelectionCoordinate) -> SelectionRange {
    match sel.range {
        Some(r) => SelectionRange { start: r.start, end: cursor },
        None => {
            let anchor = match sel.start {
                Some(s) => s,
                None => cursor,
            };
            SelectionRange { start: anchor, end: cursor }
        },
    }
}

/// The selection after beginning at `cursor` in `mode`; see
/// [`selection_begin`].
pub open spec fn spec_selection_begun(
    mode: SelectionMode,
    cursor: SelectionCoordinate,
    units: Seq<UnitRange>,
) -> Selection {
    match mode {
        SelectionMode::Cell => Selection { start: Some(cursor), range: None },
        SelectionMode::Line => Selection {
            start: Some(SelectionCoordinate { x: 0, y: cursor.y }),
            range: Some(
                SelectionRange {
                    start: SelectionCoordinate { x: 0, y: cursor.y },
                    end: SelectionCoordinate { x: usize::MAX, y: cursor.y },
                },
            ),
        },
        SelectionMode::Word | SelectionMode::SemanticZone => Selection {
            start: Some(spec_unit_around(units, cursor).start),
            range: Some(spec_unit_around(units, cursor)),
        },
    }
}

/// Begins a selection at `cursor` in the given mode.  Cell mode records
/// only the anchor; word, line and semantic-zone modes resolve a snapped
/// range at once and anchor at its snapped start.  `units` carries the
/// word or zone extents the pane reported; line mode ignores it.
pub fn selection_begin(
    sel: &mut Selection,
    mode: SelectionMode,
    cursor: SelectionCoordinate,
    units: &Vec<UnitRange>,
)
    ensures
        *final(sel) == spec_selection_begun(mode, cursor, units@),
{
    match mode {
        SelectionMode::Cell => {
            sel.begin(cursor);
        },
        SelectionMode::Line => {
            let r = line_around(cursor);
            sel.start = Some(r.start);
            sel.range = Some(r);
        },
        SelectionMode::Word | SelectionMode::SemanticZone => {
            let r = unit_around(units, cursor);
            sel.start = Some(r.start);
            sel.range = Some(r);
        },
    }
}

/// The selection after extending to `cursor` in `mode`; see
/// [`selection_extend`].
pub open spec fn spec_selection_extended(
    sel: Selection,
    mode: SelectionMode,
    cursor: SelectionCoordinate,
    units: Seq<UnitRange>,
) -> Selection {
    match mode {
        SelectionMode::Cell => Selection {
            start: sel.start,
            range: Some(spec_cell_extended(sel, cursor)),
        },
        SelectionMode::Line => Selection {
            start: sel.start,
            range: Some(
                (SelectionRange {
                    start: SelectionCoordinate { x: 0, y: spec_line_anchor(sel, cursor) },
                    end: SelectionCoordinate { x: usize::MAX, y: spec_line_anchor(sel, cursor) },
                }).spec_extend_with(
                    SelectionRange {
                        start: SelectionCoordinate { x: 0, y: cursor.y },
                        end: SelectionCoordinate { x: usize::MAX, y: cursor.y },
                    },
                ),
            ),
        },
        SelectionMode::Word | SelectionMode::SemanticZone => Selection {
            start: sel.start,
            range: Some(
                spec_unit_around(units, spec_unit_anchor(units, sel, cursor)).spec_extend_with(
                    spec_unit_around(units, cursor),
                ),
            ),
        },
    }
}

/// Extends the selection to `cursor` in the given mode.  Cell mode
/// extends from the anchor without snapping; word, line and semantic-zone
/// modes snap fresh ranges around the cursor and around the anchor and
/// merge them symmetrically.  The anchor itself is left unchanged.
pub fn selection_extend(
    sel: &mut Selection,
    mode: SelectionMode,
    cursor: SelectionCoordinate,
    units: &Vec<UnitRange>,
)
    ensures
        *final(sel) == spec_selection_extended(*old(sel), mode, cursor, units@),
{
    match mode {
        SelectionMode::Cell => {
            let prior = sel.range;
            let r = match prior {
                None => {
                    let anchor = match sel.start {
                        Some(s) => s,
                        None => cursor,
                    };
                    SelectionRange::single(anchor).extend(cursor)
                },
                Some(prior_range) => prior_range.extend(cursor),
            };
            sel.range = Some(r);
        },
        SelectionMode::Line => {
            let end_line = line_around(cursor);
            let anchor = match sel.start {
                Some(s) => s,
                None => end_line.start,
            };
            let start_line = line_around(anchor);
            sel.range = Some(start_line.extend_with(end_line));
        },
        SelectionMode::Word | SelectionMode::SemanticZone => {
            let end_unit = unit_around(units, cursor);
            let anchor = match sel.start {
                Some(s) => s,
                None => end_unit.start,
            };
            let start_unit = unit_around(units, anchor);
            sel.range = Some(start_unit.extend_with(end_unit));
        },
    }
}

/// The coordinate a line-mode extension re-snaps around: the stored
/// anchor, or the start of the line around the cursor when none is stored.
pub open spec fn spec_line_anchor(sel: Selection, cursor: SelectionCoordinate) -> StableRowIndex {
    match sel.start {
        Some(s) => s.y,
        None => cursor.y,
    }
}

/// The coordinate a word or zone extension re-snaps around: the stored
/// anchor, or the snapped start of the unit around the cursor.
pub open spec fn spec_unit_anchor(
    units: Seq<UnitRange>,
    sel: Selection,
    cursor: SelectionCoordinate,
) -> SelectionCoordinate {
    match sel.start {
        Some(s) => s,
        None => spec_unit_around(units, cursor).start,
    }
}

} // verus!
