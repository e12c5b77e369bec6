//! Two-dimensional integer arrays, stored by `ndarray`.

use vstd::prelude::*;

verus! {

/// A two-dimensional array of integers, held in an `ndarray::Array2`.
#[verifier::external_body]
pub struct Grid {
    inner: ndarray::Array2<i128>,
}

/// The rows of a grid from top to bottom, each with its cells from left to right.
pub uninterp spec fn cells(g: Grid) -> Seq<Seq<int>>;

/// A fresh grid of `rows` rows and `cols` columns, made by `ndarray::ArrayBase::zeros`:
/// every cell is zero. The bounds keep away from its panic on a shape whose size does not
/// fit in memory.
#[verifier::external_body]
pub(crate) fn zeros(rows: usize, cols: usize) -> (g: Grid)
    requires
        rows <= isize::MAX,
        cols <= isize::MAX,
        rows * cols * 16 <= isize::MAX,
    ensures
        cells(g) == Seq::new(rows as nat, |i: int| Seq::new(cols as nat, |j: int| 0int)),
{
    Grid { inner: ndarray::Array2::zeros((rows, cols)) }
}

/// Writes one cell through `ndarray`'s `IndexMut` with a `[row, col]` index: that cell
/// takes `value`, every other cell and the shape stay. The index lies inside the grid,
/// where the call does not panic.
#[verifier::external_body]
pub(crate) fn put(g: &mut Grid, row: usize, col: usize, value: i128)
    requires
        row < cells(*old(g)).len(),
        col < cells(*old(g))[row as int].len(),
    ensures
        cells(*final(g)) == cells(*old(g)).update(
            row as int,
            cells(*old(g))[row as int].update(col as int, value as int),
        ),
{
    g.inner[[row, col]] = value;
}

/// Reads one cell through `ndarray`'s `Index` with a `[row, col]` index. The index lies
/// inside the grid, where the call does not panic.
#[verifier::external_body]
pub(crate) fn at(g: &Grid, row: usize, col: usize) -> (value: i128)
    requires
        row < cells(*g).len(),
        col < cells(*g)[row as int].len(),
    ensures
        value == cells(*g)[row as int][col as int],
{
    g.inner[[row, col]]
}

} // verus!
