//! Index arithmetic of warp deformer grids.
//!
//! A warp deformer's grid has `cols + 1` points per row and `rows + 1` rows,
//! stored row after row; a point inside the deformer falls in one of its
//! `cols * rows` cells.
use vstd::prelude::*;

verus! {

/// How a point is interpolated inside a warp deformer cell.
#[derive(Debug, Copy, Clone, PartialEq, Eq)]
pub enum WarpInterpolation {
    Quad,
    Triangle,
}

/// The grid positions of the four corners of cell (`column`, `row`): top
/// left, top right, bottom left, bottom right. `None` when the grid size
/// does not fit in `usize`, the grid holds fewer than its
/// `(cols + 1) * (rows + 1)` points, or the cell lies outside the grid.
pub open spec fn spec_warp_cell_corners(
    grid_len: int,
    cols: int,
    rows: int,
    column: int,
    row: int,
) -> Option<Seq<usize>> {
    let stride = cols + 1;
    let required = stride * (rows + 1);
    if stride > usize::MAX || rows + 1 > usize::MAX || required > usize::MAX || grid_len < required
        || column >= cols || row >= rows {
        None
    } else {
        Some(
            seq![
                (row * stride + column) as usize,
                (row * stride + column + 1) as usize,
                ((row + 1) * stride + column) as usize,
                ((row + 1) * stride + column + 1) as usize,
            ],
        )
    }
}

/// The grid positions of the corners of cell (`column`, `row`) of a warp
/// grid with `grid_len` points, `cols` columns and `rows` rows of cells.
pub fn warp_cell_corners(grid_len: usize, cols: usize, rows: usize, column: usize, row: usize) -> (r:
    Option<[usize; 4]>)
    ensures
        match spec_warp_cell_corners(
            grid_len as int,
            cols as int,
            rows as int,
            column as int,
            row as int,
        ) {
            Some(s) => r matches Some(c) && c@ == s,
            None => r is None,
        },
{
    let stride = match cols.checked_add(1) {
        Some(stride) => stride,
        None => return None,
    };
    let row_count = match rows.checked_add(1) {
        Some(count) => count,
        None => return None,
    };
    let required = match stride.checked_mul(row_count) {
        Some(required) => required,
        None => return None,
    };
    if grid_len < required || column >= cols || row >= rows {
        return None;
    }
    proof {
        assert((row + 1) * stride + column + 1 <= required) by (nonlinear_arith)
            requires
                row + 1 <= rows,
                column + 1 <= cols,
                stride == cols + 1,
                required == stride * (rows + 1),
        ;
        assert(row * stride + column + 1 <= (row + 1) * stride) by (nonlinear_arith)
            requires
                column + 1 <= cols,
                stride == cols + 1,
        ;
    }
    let top = row * stride + column;
    let bottom = (row + 1) * stride + column;
    let r = [top, top + 1, bottom, bottom + 1];
    proof {
        assert(r@ =~= spec_warp_cell_corners(
            grid_len as int,
            cols as int,
            rows as int,
            column as int,
            row as int,
        )->0);
    }
    Some(r)
}

} // verus!
