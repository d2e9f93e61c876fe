use vstd::prelude::*;

verus! {

/// The 1-based position of the frame that an advance from cursor `tick` shows: the cursor itself
/// while it is within the list, the first frame once a repeating cursor has run past the end,
/// and none once a non-repeating one has.
pub open spec fn shown_position(len: int, tick: int, repeating: bool) -> Option<int> {
    if 1 <= tick <= len {
        Some(tick)
    } else if repeating {
        Some(1)
    } else {
        None
    }
}

/// The column at the cursor, or none when a non-repeating list is exhausted.
pub open spec fn column_at(frames: Seq<usize>, tick: int, repeating: bool) -> Option<usize> {
    match shown_position(frames.len() as int, tick, repeating) {
        Some(p) => Some(frames[p - 1]),
        None => None,
    }
}

/// The cursor after an advance from `tick`: one past the shown frame, or back at the first frame
/// once the list is exhausted.
pub open spec fn cursor_after(len: int, tick: int, repeating: bool) -> int {
    match shown_position(len, tick, repeating) {
        Some(p) => p + 1,
        None => 1,
    }
}

/// Every cell of row `row_bound` or below, at any column of `frames`, has an index that fits.
pub open spec fn frames_fit(frames: Seq<usize>, row_bound: usize, columns: usize) -> bool {
    forall|i: int| 0 <= i < frames.len() ==> row_bound * columns + frames[i] <= usize::MAX
}

/// The flat index of the cell at `row` and `column` in a sheet of `columns` columns.
pub open spec fn cell_index(row: usize, columns: usize, column: usize) -> int {
    row * columns + column
}

pub proof fn lemma_cell_fits(row: usize, row_bound: usize, columns: usize, column: usize)
    requires
        row <= row_bound,
        row_bound * columns + column <= usize::MAX,
    ensures
        cell_index(row, columns, column) <= usize::MAX,
{
    assert(row * columns <= row_bound * columns) by (nonlinear_arith)
        requires
            row <= row_bound,
    ;
}

pub fn cell(row: usize, columns: usize, column: usize) -> (r: usize)
    requires
        cell_index(row, columns, column) <= usize::MAX,
    ensures
        r == cell_index(row, columns, column),
{
    row * columns + column
}

/// Finds the frame that an advance from cursor `tick` shows: its position and its column.
pub fn frame_at_cursor(frames: &Vec<usize>, tick: usize, repeating: bool) -> (r: Option<(usize, usize)>)
    requires
        frames.len() >= 1,
        1 <= tick <= frames.len() + 1,
    ensures
        match r {
            Some((p, c)) => shown_position(frames@.len() as int, tick as int, repeating) == Some(p as int)
                && 1 <= p <= frames@.len() && c == frames@[p - 1],
            None => shown_position(frames@.len() as int, tick as int, repeating).is_none(),
        },
{
    if tick <= frames.len() {
        Some((tick, frames[tick - 1]))
    } else if repeating {
        Some((1, frames[0]))
    } else {
        None
    }
}

} // verus!
