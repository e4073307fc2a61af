//! Text the window produces for its collaborators: the window title, and
//! the plain-text serialization of the current selection.

use vstd::prelude::*;

verus! {

use crate::scale::{DimsOutcome, spec_apply_dimensions_step, spec_dims_in_range};
use crate::selection::SelectionRange;
use crate::types::{PaneId, StableRowIndex};
use crate::window::{TermWindow, spec_show_tab_bar};

/// Relies on `String::push` of std: appends exactly the given character
/// to the end of the string.
pub assume_specification[ String::push ](s: &mut String, ch: char)
    ensures
        final(s)@ == old(s)@.push(ch),
;

/// The character for one decimal digit.
pub open spec fn spec_digit_char(d: nat) -> char {
    if d == 0 {
        '0'
    } else if d == 1 {
        '1'
    } else if d == 2 {
        '2'
    } else if d == 3 {
        '3'
    } else if d == 4 {
        '4'
    } else if d == 5 {
        '5'
    } else if d == 6 {
        '6'
    } else if d == 7 {
        '7'
    } else if d == 8 {
        '8'
    } else {
        '9'
    }
}

/// The decimal digits of `n`, most significant first.
pub open spec fn spec_decimal(n: nat) -> Seq<char>
    decreases n,
{
    if n < 10 {
        seq![spec_digit_char(n)]
    } else {
        spec_decimal(n / 10).push(spec_digit_char(n % 10))
    }
}

/// Appends one digit character.
fn push_digit(s: &mut String, d: usize)
    requires
        d < 10,
    ensures
        final(s)@ == old(s)@.push(spec_digit_char(d as nat)),
{
    let c = if d == 0 {
        '0'
    } else if d == 1 {
        '1'
    } else if d == 2 {
        '2'
    } else if d == 3 {
        '3'
    } else if d == 4 {
        '4'
    } else if d == 5 {
        '5'
    } else if d == 6 {
        '6'
    } else if d == 7 {
        '7'
    } else if d == 8 {
        '8'
    } else {
        '9'
    };
    s.push(c);
}

/// Appends the decimal digits of `n`.
pub fn push_decimal(s: &mut String, n: usize)
    ensures
        final(s)@ == old(s)@ + spec_decimal(n as nat),
    decreases n,
{
    if n < 10 {
        push_digit(s, n);
        proof {
            assert(final(s)@ =~= old(s)@ + spec_decimal(n as nat));
        }
    } else {
        push_decimal(s, n / 10);
        push_digit(s, n % 10);
        proof {
            assert(final(s)@ =~= old(s)@ + spec_decimal(n as nat));
        }
    }
}

/// The `[Z] ` marker a zoomed pane puts before the title.
pub open spec fn spec_zoom_prefix(is_zoomed: bool) -> Seq<char> {
    if is_zoomed {
        seq!['[', 'Z', ']', ' ']
    } else {
        Seq::empty()
    }
}

/// The window title: the active pane's title, preceded by the zoom
/// marker when zoomed, and by `[current/count] ` when more than one tab
/// is open (tab numbers are shown starting from one).
pub open spec fn spec_window_title(
    is_zoomed: bool,
    tab_no: usize,
    num_tabs: usize,
    pane_title: Seq<char>,
) -> Seq<char> {
    if num_tabs == 1 {
        spec_zoom_prefix(is_zoomed) + pane_title
    } else {
        spec_zoom_prefix(is_zoomed) + seq!['['] + spec_decimal((tab_no + 1) as nat) + seq!['/']
            + spec_decimal(num_tabs as nat) + seq![']', ' '] + pane_title
    }
}

/// Builds the window title; see [`spec_window_title`].
pub fn compose_window_title(
    is_zoomed: bool,
    tab_no: usize,
    num_tabs: usize,
    pane_title: &String,
) -> (t: String)
    requires
        tab_no < usize::MAX,
    ensures
        t@ == spec_window_title(is_zoomed, tab_no, num_tabs, pane_title@),
{
    let mut t = String::new();
    if is_zoomed {
        t.push('[');
        t.push('Z');
        t.push(']');
        t.push(' ');
    }
    proof {
        assert(t@ =~= spec_zoom_prefix(is_zoomed));
    }
    if num_tabs != 1 {
        t.push('[');
        push_decimal(&mut t, tab_no + 1);
        t.push('/');
        push_decimal(&mut t, num_tabs);
        t.push(']');
        t.push(' ');
        proof {
            assert(t@ =~= spec_zoom_prefix(is_zoomed) + seq!['['] + spec_decimal(
                (tab_no + 1) as nat,
            ) + seq!['/'] + spec_decimal(num_tabs as nat) + seq![']', ' ']);
        }
    }
    t.append(pane_title.as_str());
    proof {
        assert(t@ =~= spec_window_title(is_zoomed, tab_no, num_tabs, pane_title@));
    }
    t
}

/// One terminal cell as the pane hands it out: the character shown and
/// whether the cell carries its row's wrapped attribute.
#[derive(Clone, Copy, Debug, PartialEq, Eq, Structural)]
pub struct Cell {
    pub text: char,
    pub wrapped: bool,
}

/// One physical row of pane content.
pub struct Line {
    pub cells: Vec<Cell>,
}

/// `s` with its trailing spaces removed.
pub open spec fn spec_trim_end(s: Seq<char>) -> Seq<char>
    decreases s.len(),
{
    if s.len() == 0 {
        s
    } else if s[s.len() - 1] == ' ' {
        spec_trim_end(s.drop_last())
    } else {
        s
    }
}

/// The characters of a row of cells.
pub open spec fn spec_cell_chars(cells: Seq<Cell>) -> Seq<char> {
    cells.map_values(|c: Cell| c.text)
}

/// The text the selection takes from one row: the cells within the
/// selected columns (clipped to the row), trailing whitespace trimmed.
pub open spec fn spec_row_text(cells: Seq<Cell>, cols: (usize, usize)) -> Seq<char> {
    let lo = if cols.0 <= cells.len() {
        cols.0 as int
    } else {
        cells.len() as int
    };
    let hi0 = if cols.1 <= cells.len() {
        cols.1 as int
    } else {
        cells.len() as int
    };
    let hi = if hi0 >= lo {
        hi0
    } else {
        lo
    };
    spec_trim_end(spec_cell_chars(cells.subrange(lo, hi)))
}

/// Whether the row is soft-wrapped at the selection's edge: the last
/// selected cell carries the wrapped attribute and shows something other
/// than a plain space.
pub open spec fn spec_row_wrapped(cells: Seq<Cell>, cols: (usize, usize)) -> bool {
    let hi = if cols.1 <= cells.len() {
        cols.1 as int
    } else {
        cells.len() as int
    };
    let idx = if hi >= 1 {
        hi - 1
    } else {
        0
    };
    if cells.len() == 0 {
        false
    } else {
        cells[idx].wrapped && cells[idx].text != ' '
    }
}

/// The serialized selection from row `i` on, given whether text was
/// already emitted and whether the previous row was soft-wrapped: each
/// row's trimmed text, preceded by a newline only when text precedes it
/// and the previous row was hard-wrapped.
pub open spec fn spec_selection_text_from(
    lines: Seq<Seq<Cell>>,
    sel: SelectionRange,
    first_row: StableRowIndex,
    i: int,
    have_text: bool,
    last_wrapped: bool,
) -> Seq<char>
    decreases lines.len() - i,
{
    if i < 0 || i >= lines.len() {
        Seq::empty()
    } else {
        let cols = sel.spec_cols_for_row((first_row + i) as StableRowIndex);
        let row = spec_row_text(lines[i], cols);
        let sep: Seq<char> = if have_text && !last_wrapped {
            seq!['\n']
        } else {
            Seq::empty()
        };
        let piece = sep + row;
        piece + spec_selection_text_from(
            lines,
            sel,
            first_row,
            i + 1,
            have_text || piece.len() > 0,
            spec_row_wrapped(lines[i], cols),
        )
    }
}

/// The whole serialized selection; see [`spec_selection_text_from`].
pub open spec fn spec_selection_text(
    lines: Seq<Seq<Cell>>,
    sel: SelectionRange,
    first_row: StableRowIndex,
) -> Seq<char> {
    spec_selection_text_from(lines, sel, first_row, 0, false, false)
}

/// Collects the selected, trimmed characters of one row.
fn row_text(cells: &Vec<Cell>, cols: (usize, usize)) -> (r: Vec<char>)
    ensures
        r@ == spec_row_text(cells@, cols),
{
    let lo = if cols.0 <= cells.len() {
        cols.0
    } else {
        cells.len()
    };
    let hi0 = if cols.1 <= cells.len() {
        cols.1
    } else {
        cells.len()
    };
    let hi = if hi0 >= lo {
        hi0
    } else {
        lo
    };
    let mut row: Vec<char> = Vec::new();
    let mut k: usize = lo;
    while k < hi
        invariant
            lo <= k <= hi <= cells@.len(),
            row@ =~= spec_cell_chars(cells@.subrange(lo as int, k as int)),
        decreases hi - k,
    {
        row.push(cells[k].text);
        proof {
            assert(cells@.subrange(lo as int, k + 1) =~= cells@.subrange(lo as int, k as int).push(
                cells@[k as int],
            ));
            assert(spec_cell_chars(cells@.subrange(lo as int, k + 1)) =~= spec_cell_chars(
                cells@.subrange(lo as int, k as int),
            ).push(cells@[k as int].text));
        }
        k = k + 1;
    }
    proof {
        assert(row@ =~= spec_cell_chars(cells@.subrange(lo as int, hi as int)));
    }
    let ghost full = row@;
    while row.len() > 0 && row[row.len() - 1] == ' '
        invariant
            spec_trim_end(full) == spec_trim_end(row@),
        decreases row@.len(),
    {
        proof {
            assert(row@.drop_last() =~= row@.subrange(0, row@.len() - 1));
        }
        row.pop();
    }
    proof {
        assert(row@ == spec_trim_end(full));
    }
    row
}

impl TermWindow {
    /// Serializes the current selection of `pane_id` into plain text.
    ///
    /// `lines` are the pane's physical rows covering the selection's
    /// normalized row span, `first_row` the stable row index of the
    /// first of them.  Each row contributes its selected columns with
    /// trailing whitespace trimmed; a newline separates rows except
    /// after a soft-wrapped row (one whose last selected cell carries
    /// the wrapped attribute and shows something other than a plain
    /// space).  With no resolved selection the text is empty.
    pub fn selection_text(
        &self,
        pane_id: PaneId,
        first_row: StableRowIndex,
        lines: &Vec<Line>,
    ) -> (s: String)
        requires
            lines@.len() <= StableRowIndex::MAX,
            first_row + lines@.len() <= StableRowIndex::MAX,
        ensures
            s@ == (match self.spec_pane_state(pane_id).selection.range {
                Some(sel) => spec_selection_text(
                    lines@.map_values(|l: Line| l.cells@),
                    sel,
                    first_row,
                ),
                None => Seq::<char>::empty(),
            }),
    {
        let mut s = String::new();
        let sel = match self.selection(pane_id).range {
            Some(r) => r,
            None => {
                return s;
            },
        };
        let ghost lines_view = lines@.map_values(|l: Line| l.cells@);
        let mut have_text = false;
        let mut last_wrapped = false;
        let n = lines.len();
        let mut i: usize = 0;
        while i < n
            invariant
                0 <= i <= lines@.len(),
                n == lines@.len(),
                lines@.len() <= StableRowIndex::MAX,
                first_row + lines@.len() <= StableRowIndex::MAX,
                lines_view == lines@.map_values(|l: Line| l.cells@),
                have_text == (s@.len() > 0),
                spec_selection_text(lines_view, sel, first_row) == s@ + spec_selection_text_from(
                    lines_view,
                    sel,
                    first_row,
                    i as int,
                    have_text,
                    last_wrapped,
                ),
            decreases n - i,
        {
            let cols = sel.cols_for_row(first_row + (i as isize));
            let row = row_text(&lines[i].cells, cols);
            let wrapped = if lines[i].cells.len() == 0 {
                false
            } else {
                let cells_len = lines[i].cells.len();
                let hi = if cols.1 <= cells_len {
                    cols.1
                } else {
                    cells_len
                };
                let idx = if hi >= 1 {
                    hi - 1
                } else {
                    0
                };
                lines[i].cells[idx].wrapped && lines[i].cells[idx].text != ' '
            };
            let ghost s_before = s@;
            let ghost sep: Seq<char> = if have_text && !last_wrapped {
                seq!['\n']
            } else {
                Seq::empty()
            };
            if have_text && !last_wrapped {
                s.push('\n');
            }
            let mut k: usize = 0;
            while k < row.len()
                invariant
                    0 <= k <= row@.len(),
                    s@ =~= s_before + sep + row@.subrange(0, k as int),
                decreases row@.len() - k,
            {
                s.push(row[k]);
                proof {
                    assert(s_before + sep + row@.subrange(0, k + 1) =~= (s_before + sep
                        + row@.subrange(0, k as int)).push(row@[k as int]));
                }
                k = k + 1;
            }
            proof {
                assert(lines_view[i as int] == lines@[i as int].cells@);
                assert(row@.subrange(0, row@.len() as int) =~= row@);
                assert(wrapped == spec_row_wrapped(lines_view[i as int], cols));
                assert(cols == sel.spec_cols_for_row(((first_row + i) as StableRowIndex)));
                assert(row@ == spec_row_text(lines_view[i as int], cols));
                let piece = sep + row@;
                assert(s@ =~= s_before + piece);
                assert(spec_selection_text_from(
                    lines_view,
                    sel,
                    first_row,
                    i as int,
                    have_text,
                    last_wrapped,
                ) == piece + spec_selection_text_from(
                    lines_view,
                    sel,
                    first_row,
                    i + 1,
                    have_text || piece.len() > 0,
                    wrapped,
                ));
                assert(s_before + (piece + spec_selection_text_from(
                    lines_view,
                    sel,
                    first_row,
                    i + 1,
                    have_text || piece.len() > 0,
                    wrapped,
                )) =~= (s_before + piece) + spec_selection_text_from(
                    lines_view,
                    sel,
                    first_row,
                    i + 1,
                    have_text || piece.len() > 0,
                    wrapped,
                ));
            }
            if row.len() > 0 {
                have_text = true;
            }
            last_wrapped = wrapped;
            i = i + 1;
        }
        proof {
            assert(spec_selection_text_from(
                lines_view,
                sel,
                first_row,
                i as int,
                have_text,
                last_wrapped,
            ) == Seq::<char>::empty());
            assert(s@ + Seq::<char>::empty() =~= s@);
        }
        s
    }
}

/// What a title refresh found and produced.
pub struct TitleOutcome {
    /// The title to hand to the window system, when the window has tabs
    /// and an active pane to take it from.
    pub window_title: Option<String>,
    /// Whether the tab bar should now be shown, by the current tab count
    /// and configuration.
    pub show_tab_bar: bool,
    /// The visibility differs from the one the geometry was computed
    /// with: the geometry must be recomputed.
    pub tab_bar_flipped: bool,
}

impl TermWindow {
    /// Recomputes the window title and the tab-bar visibility from the
    /// multiplexer's current tab count (`num_tabs`), active tab index
    /// (`tab_no`), and the active pane's title and zoom state.  With no
    /// tabs or no active pane there is nothing to show and nothing
    /// flips.
    pub fn update_title(
        &self,
        num_tabs: usize,
        tab_no: usize,
        pane_title: &String,
        is_zoomed: bool,
        has_active_pane: bool,
    ) -> (r: TitleOutcome)
        requires
            tab_no < usize::MAX,
        ensures
            num_tabs == 0 || !has_active_pane ==> r.window_title is None && !r.tab_bar_flipped
                && r.show_tab_bar == self.show_tab_bar,
            num_tabs > 0 && has_active_pane ==> {
                &&& r.window_title matches Some(t) && t@ == spec_window_title(
                    is_zoomed,
                    tab_no,
                    num_tabs,
                    pane_title@,
                )
                &&& r.show_tab_bar == spec_show_tab_bar(self.config, num_tabs)
                &&& r.tab_bar_flipped == (spec_show_tab_bar(self.config, num_tabs)
                    != self.show_tab_bar)
            },
    {
        if num_tabs == 0 || !has_active_pane {
            return TitleOutcome {
                window_title: None,
                show_tab_bar: self.show_tab_bar,
                tab_bar_flipped: false,
            };
        }
        let title = compose_window_title(is_zoomed, tab_no, num_tabs, pane_title);
        let show = crate::window::show_tab_bar_for(&self.config, num_tabs);
        TitleOutcome {
            window_title: Some(title),
            show_tab_bar: show,
            tab_bar_flipped: show != self.show_tab_bar,
        }
    }

    /// Refreshes the title and, when the tab count flipped the tab-bar
    /// visibility, recomputes the geometry once at the current window
    /// dimensions under the new visibility.  One recomputation reaches
    /// the fixpoint: visibility depends only on the tab count and the
    /// configuration, which the recomputation leaves untouched, so a
    /// second check cannot flip again.
    pub fn update_title_and_geometry(
        &mut self,
        num_tabs: usize,
        tab_no: usize,
        pane_title: &String,
        is_zoomed: bool,
        has_active_pane: bool,
        render_resize_ok: bool,
    ) -> (r: (TitleOutcome, Option<DimsOutcome>))
        requires
            tab_no < usize::MAX,
            num_tabs > 0 && has_active_pane && spec_show_tab_bar(old(self).config, num_tabs) != old(
                self,
            ).show_tab_bar ==> spec_dims_in_range(
                TermWindow {
                    show_tab_bar: spec_show_tab_bar(old(self).config, num_tabs),
                    ..*old(self)
                },
                old(self).dimensions,
                None,
            ),
        ensures
            ({
                let flipped = num_tabs > 0 && has_active_pane && spec_show_tab_bar(
                    old(self).config,
                    num_tabs,
                ) != old(self).show_tab_bar;
                &&& (num_tabs > 0 && has_active_pane ==> (r.0.window_title matches Some(t) && t@
                    == spec_window_title(is_zoomed, tab_no, num_tabs, pane_title@)))
                &&& (num_tabs == 0 || !has_active_pane ==> r.0.window_title is None)
                &&& if flipped {
                    &&& r.1 matches Some(out) && spec_apply_dimensions_step(
                        TermWindow {
                            show_tab_bar: spec_show_tab_bar(old(self).config, num_tabs),
                            ..*old(self)
                        },
                        *final(self),
                        old(self).dimensions,
                        None,
                        render_resize_ok,
                        out,
                    )
                    &&& final(self).show_tab_bar == spec_show_tab_bar(
                        final(self).config,
                        num_tabs,
                    )
                } else {
                    &&& *final(self) == *old(self)
                    &&& r.1 is None
                }
            }),
    {
        let t = self.update_title(num_tabs, tab_no, pane_title, is_zoomed, has_active_pane);
        if t.tab_bar_flipped {
            self.show_tab_bar = t.show_tab_bar;
            let dims = self.dimensions;
            let out = self.apply_dimensions(&dims, None, render_resize_ok);
            let again = self.update_title(num_tabs, tab_no, pane_title, is_zoomed, has_active_pane);
            proof {
                assert(!again.tab_bar_flipped);
            }
            (t, Some(out))
        } else {
            (t, None)
        }
    }
}

} // verus!
