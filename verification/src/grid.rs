//! Fixed-size, row-major, two-dimensional cell storage.

use vstd::prelude::*;

verus! {

use crate::offset::Coord;
use crate::offset::Offset;

/// Two-dimensional, non-resizeable, zero-indexed grid.
///
/// A grid owns a dense, row-major backing store of exactly
/// `col_count * row_count` cells; the coordinate `(col, row)` maps to the
/// backing slot `col + col_count * row`.
#[derive(Clone, Debug, Default, Eq, Hash, Ord, PartialEq, PartialOrd)]
pub struct Grid<T> {
    col_count: usize,
    row_count: usize,
    data: Vec<T>,
}

impl<T> Grid<T> {
    /// The grid's column count, seen abstractly.
    pub closed spec fn spec_col_count(self) -> usize {
        self.col_count
    }

    /// The grid's row count, seen abstractly.
    pub closed spec fn spec_row_count(self) -> usize {
        self.row_count
    }

    /// The row-major backing store, seen abstractly as a sequence.
    pub closed spec fn spec_data(self) -> Seq<T> {
        self.data@
    }

    /// The row-major backing index of a coordinate.
    pub closed spec fn spec_flat(self, coord: Coord) -> int {
        coord.0 + self.spec_col_count() * coord.1
    }

    /// Well-formedness: the backing store holds exactly one cell for every
    /// valid coordinate.
    pub open spec fn wf(self) -> bool {
        self.spec_data().len() == self.spec_col_count() * self.spec_row_count()
    }

    /// Whether a coordinate lies within the grid's bounds.
    pub open spec fn spec_contains(self, coord: Coord) -> bool {
        coord.0 < self.spec_col_count() && coord.1 < self.spec_row_count()
    }

    /// The value stored at a coordinate (meaningful when the grid is
    /// well-formed and the coordinate is in bounds).
    pub open spec fn spec_get(self, coord: Coord) -> T {
        self.spec_data()[self.spec_flat(coord)]
    }

    /// Whether `t` is the transpose of this grid: dimensions swapped (or
    /// zero-by-zero when this grid has no cells) and every cell mirrored
    /// across the diagonal.
    pub open spec fn spec_transposes(self, t: Grid<T>) -> bool {
        &&& t.wf()
        &&& self.spec_col_count() * self.spec_row_count() == 0 ==> t.spec_col_count() == 0
            && t.spec_row_count() == 0
        &&& self.spec_col_count() * self.spec_row_count() != 0 ==> t.spec_col_count()
            == self.spec_row_count() && t.spec_row_count() == self.spec_col_count()
        &&& forall|c: Coord| self.spec_contains(c) ==> t.spec_get((c.1, c.0)) == self.spec_get(c)
    }

    /// Get the flat-vector index from the column and row indices.
    fn flat_index(&self, coord: Coord) -> (r: usize)
        requires
            self.wf(),
            self.spec_contains(coord),
        ensures
            r == self.spec_flat(coord),
            r < self.spec_data().len(),
    {
        proof {
            assert(self.data.len() == self.spec_data().len());
            lemma_flat_index_in_range(
                coord.0 as int,
                coord.1 as int,
                self.col_count as int,
                self.row_count as int,
            );
        }
        coord.0 + self.col_count * coord.1
    }

    /// Determine if a coordinate is within the grid.
    pub fn contains(&self, coord: Coord) -> (r: bool)
        ensures
            r == self.spec_contains(coord),
    {
        coord.0 < self.col_count && coord.1 < self.row_count
    }

    /// Get a `Grid`'s column count.
    pub fn col_count(&self) -> (r: usize)
        ensures
            r == self.spec_col_count(),
    {
        self.col_count
    }

    /// Get a `Grid`'s row count.
    pub fn row_count(&self) -> (r: usize)
        ensures
            r == self.spec_row_count(),
    {
        self.row_count
    }

    /// Get an immutable reference to some cell; `None` exactly when the
    /// coordinate is out of range.
    pub fn get(&self, coord: Coord) -> (r: Option<&T>)
        requires
            self.wf(),
        ensures
            r.is_some() <==> self.spec_contains(coord),
            r matches Some(v) ==> *v == self.spec_get(coord),
    {
        if self.contains(coord) {
            let index = self.flat_index(coord);
            Some(&self.data[index])
        } else {
            None
        }
    }

    /// Get a mutable reference to some cell; `None` exactly when the
    /// coordinate is out of range, in which case the grid is unchanged.
    /// Writing through the reference updates the one backing slot of that
    /// cell; [`lemma_store_update_cells`] turns that store equation into
    /// per-cell facts.
    pub fn get_mut(&mut self, coord: Coord) -> (r: Option<&mut T>)
        requires
            old(self).wf(),
        ensures
            final(self).wf(),
            final(self).spec_col_count() == old(self).spec_col_count(),
            final(self).spec_row_count() == old(self).spec_row_count(),
            !old(self).spec_contains(coord) ==> r.is_none() && *final(self) == *old(self),
            old(self).spec_contains(coord) ==> r.is_some() && *r.unwrap() == old(self).spec_get(
                coord,
            ) && final(self).spec_data() == old(self).spec_data().update(
                old(self).spec_flat(coord),
                *final(r.unwrap()),
            ),
    {
        if self.contains(coord) {
            let index = self.flat_index(coord);
            Some(&mut self.data[index])
        } else {
            None
        }
    }

    /// Set a cell's value; silently a no-op when the coordinate is out of
    /// range. Within range, the addressed cell takes the new value and
    /// every other cell is unchanged.
    pub fn set(&mut self, coord: Coord, new_val: T)
        requires
            old(self).wf(),
        ensures
            final(self).wf(),
            final(self).spec_col_count() == old(self).spec_col_count(),
            final(self).spec_row_count() == old(self).spec_row_count(),
            old(self).spec_contains(coord) ==> final(self).spec_get(coord) == new_val,
            forall|other: Coord|
                old(self).spec_contains(other) && other != coord ==> final(self).spec_get(other)
                    == old(self).spec_get(other),
            !old(self).spec_contains(coord) ==> *final(self) == *old(self),
    {
        match self.get_mut(coord) {
            Some(val) => {
                *val = new_val;
            },
            None => (),
        }
        proof {
            if old(self).spec_contains(coord) {
                lemma_store_update_cells(*old(self), *self, coord, new_val);
            }
        }
    }

    /// Get an immutable reference to the cell with the given positional
    /// relationship to the provided coordinate; `None` when the offset
    /// resolves to no coordinate or to one out of range.
    pub fn rget(&self, anchor: Coord, vec: Offset) -> (r: Option<&T>)
        requires
            self.wf(),
        ensures
            r.is_some() <==> (vec.spec_rcoord(anchor).is_some() && self.spec_contains(
                vec.spec_rcoord(anchor).unwrap(),
            )),
            r matches Some(v) ==> *v == self.spec_get(vec.spec_rcoord(anchor).unwrap()),
    {
        match vec.rcoord(anchor) {
            Some(coord) => self.get(coord),
            _ => None,
        }
    }

    /// Get a mutable reference to the cell with the given positional
    /// relationship to the provided coordinate; `None` when the offset
    /// resolves to no coordinate or to one out of range, in which case the
    /// grid is unchanged.
    pub fn rget_mut(&mut self, anchor: Coord, vec: Offset) -> (r: Option<&mut T>)
        requires
            old(self).wf(),
        ensures
            final(self).wf(),
            final(self).spec_col_count() == old(self).spec_col_count(),
            final(self).spec_row_count() == old(self).spec_row_count(),
            !(vec.spec_rcoord(anchor).is_some() && old(self).spec_contains(
                vec.spec_rcoord(anchor).unwrap(),
            )) ==> r.is_none() && *final(self) == *old(self),
            (vec.spec_rcoord(anchor).is_some() && old(self).spec_contains(
                vec.spec_rcoord(anchor).unwrap(),
            )) ==> r.is_some() && *r.unwrap() == old(self).spec_get(
                vec.spec_rcoord(anchor).unwrap(),
            ) && final(self).spec_data() == old(self).spec_data().update(
                old(self).spec_flat(vec.spec_rcoord(anchor).unwrap()),
                *final(r.unwrap()),
            ),
    {
        match vec.rcoord(anchor) {
            Some(coord) => self.get_mut(coord),
            _ => None,
        }
    }

    /// Set the value of the cell with the given positional relationship to
    /// the provided coordinate; silently a no-op when the offset resolves
    /// to no coordinate or to one out of range.
    pub fn rset(&mut self, coord: Coord, vec: Offset, new_val: T)
        requires
            old(self).wf(),
        ensures
            final(self).wf(),
            final(self).spec_col_count() == old(self).spec_col_count(),
            final(self).spec_row_count() == old(self).spec_row_count(),
            (vec.spec_rcoord(coord).is_some() && old(self).spec_contains(
                vec.spec_rcoord(coord).unwrap(),
            )) ==> final(self).spec_get(vec.spec_rcoord(coord).unwrap()) == new_val,
            forall|other: Coord|
                old(self).spec_contains(other) && vec.spec_rcoord(coord) != Some(other)
                    ==> final(self).spec_get(other) == old(self).spec_get(other),
            !(vec.spec_rcoord(coord).is_some() && old(self).spec_contains(
                vec.spec_rcoord(coord).unwrap(),
            )) ==> *final(self) == *old(self),
    {
        if let Some(rcoord) = vec.rcoord(coord) {
            self.set(rcoord, new_val);
        }
    }
}

impl<T: Copy> Grid<T> {
    /// Create a new `Grid` populated with a default value: every cell of
    /// the `col_count * row_count` store holds an independent copy of
    /// `default`. A zero column or row count is legal and produces an
    /// empty grid.
    pub fn new(col_count: usize, row_count: usize, default: T) -> (r: Self)
        requires
            col_count * row_count <= usize::MAX,
        ensures
            r.wf(),
            r.spec_col_count() == col_count,
            r.spec_row_count() == row_count,
            forall|coord: Coord| r.spec_contains(coord) ==> r.spec_get(coord) == default,
    {
        let capacity: usize = col_count * row_count;
        let mut data: Vec<T> = Vec::new();
        while data.len() < capacity
            invariant
                data.len() <= capacity,
                forall|i: int| 0 <= i < data@.len() ==> data@[i] == default,
            decreases capacity - data.len(),
        {
            data.push(default);
        }
        let g = Grid { col_count, row_count, data };
        proof {
            assert forall|coord: Coord| g.spec_contains(coord) implies g.spec_get(coord)
                == default by {
                lemma_flat_index_in_range(
                    coord.0 as int,
                    coord.1 as int,
                    col_count as int,
                    row_count as int,
                );
            }
        }
        g
    }

    /// Create a new `Grid` in a square shape, populated with a default
    /// value.
    pub fn square(side_len: usize, default: T) -> (r: Self)
        requires
            side_len * side_len <= usize::MAX,
        ensures
            r.wf(),
            r.spec_col_count() == side_len,
            r.spec_row_count() == side_len,
            forall|coord: Coord| r.spec_contains(coord) ==> r.spec_get(coord) == default,
    {
        Self::new(side_len, side_len, default)
    }

    /// Perform a transposition: the result swaps this grid's dimensions
    /// and holds at `(row, col)` what this grid holds at `(col, row)`. A
    /// grid with no cells transposes to the zero-by-zero grid.
    pub fn transpose(&self) -> (t: Self)
        requires
            self.wf(),
        ensures
            self.spec_transposes(t),
    {
        if let Some(first) = self.get((0, 0)) {
            let val: T = *first;
            proof {
                assert(self.data.len() == self.spec_data().len());
                assert(self.spec_row_count() * self.spec_col_count() == self.spec_col_count()
                    * self.spec_row_count()) by (nonlinear_arith);
                assert(self.spec_col_count() * self.spec_row_count() != 0) by (nonlinear_arith)
                    requires
                        0 < self.spec_col_count(),
                        0 < self.spec_row_count(),
                ;
            }
            let mut new_grid = Self::new(self.row_count(), self.col_count(), val);
            let mut src_row: usize = 0;
            while src_row < self.row_count()
                invariant
                    self.wf(),
                    new_grid.wf(),
                    new_grid.spec_col_count() == self.spec_row_count(),
                    new_grid.spec_row_count() == self.spec_col_count(),
                    src_row <= self.spec_row_count(),
                    forall|c: Coord|
                        self.spec_contains(c) && c.1 < src_row ==> new_grid.spec_get((c.1, c.0))
                            == self.spec_get(c),
                decreases self.spec_row_count() - src_row,
            {
                let mut src_col: usize = 0;
                while src_col < self.col_count()
                    invariant
                        self.wf(),
                        new_grid.wf(),
                        new_grid.spec_col_count() == self.spec_row_count(),
                        new_grid.spec_row_count() == self.spec_col_count(),
                        src_row < self.spec_row_count(),
                        src_col <= self.spec_col_count(),
                        forall|c: Coord|
                            self.spec_contains(c) && (c.1 < src_row || (c.1 == src_row && c.0
                                < src_col)) ==> new_grid.spec_get((c.1, c.0)) == self.spec_get(c),
                    decreases self.spec_col_count() - src_col,
                {
                    if let Some(cell) = self.get((src_col, src_row)) {
                        let cell_val: T = *cell;
                        new_grid.set((src_row, src_col), cell_val);
                    }
                    src_col = src_col + 1;
                }
                src_row = src_row + 1;
            }
            new_grid
        } else {
            proof {
                assert(self.spec_col_count() * self.spec_row_count() == 0) by (nonlinear_arith)
                    requires
                        self.spec_col_count() == 0 || self.spec_row_count() == 0,
                ;
            }
            Grid { col_count: 0, row_count: 0, data: Vec::new() }
        }
    }
}

/// The row-major index of an in-bounds coordinate lies within a store of
/// `w * h` cells.
proof fn lemma_flat_index_in_range(col: int, row: int, w: int, h: int)
    requires
        0 <= col < w,
        0 <= row < h,
    ensures
        0 <= col + w * row < w * h,
{
    assert(col + w * row < w * h) by (nonlinear_arith)
        requires
            0 <= col < w,
            0 <= row < h,
    ;
}

/// Row-major indexing is injective: distinct coordinates whose columns lie
/// within the width `w` land on distinct indices.
proof fn lemma_flat_index_injective(w: int, c1: int, r1: int, c2: int, r2: int)
    requires
        0 <= c1 < w,
        0 <= c2 < w,
        0 <= r1,
        0 <= r2,
        c1 != c2 || r1 != r2,
    ensures
        c1 + w * r1 != c2 + w * r2,
{
    assert(c1 + w * r1 != c2 + w * r2) by (nonlinear_arith)
        requires
            0 <= c1 < w,
            0 <= c2 < w,
            0 <= r1,
            0 <= r2,
            c1 != c2 || r1 != r2,
    ;
}

/// Construction with a zero column count or a zero row count produces a
/// grid that contains no coordinate at all.
pub proof fn lemma_empty_grid_contains_nothing<T>(g: Grid<T>)
    requires
        g.spec_col_count() == 0 || g.spec_row_count() == 0,
    ensures
        forall|coord: Coord| !g.spec_contains(coord),
{
}

/// Transposing twice is the identity on dimensions and cells, for every
/// grid that is empty in neither dimension alone (a grid with cells, or
/// the zero-by-zero grid).
pub proof fn lemma_transpose_involution<T>(g: Grid<T>, t: Grid<T>, u: Grid<T>)
    requires
        g.wf(),
        (g.spec_col_count() == 0) <==> (g.spec_row_count() == 0),
        g.spec_transposes(t),
        t.spec_transposes(u),
    ensures
        u.spec_col_count() == g.spec_col_count(),
        u.spec_row_count() == g.spec_row_count(),
        forall|coord: Coord| g.spec_contains(coord) ==> u.spec_get(coord) == g.spec_get(coord),
{
    if g.spec_col_count() * g.spec_row_count() == 0 {
        assert(g.spec_col_count() == 0 || g.spec_row_count() == 0) by (nonlinear_arith)
            requires
                g.spec_col_count() * g.spec_row_count() == 0,
        ;
        assert(g.spec_col_count() == 0 && g.spec_row_count() == 0);
    } else {
        assert(g.spec_col_count() != 0 && g.spec_row_count() != 0) by (nonlinear_arith)
            requires
                g.spec_col_count() * g.spec_row_count() != 0,
        ;
        assert(t.spec_col_count() * t.spec_row_count() != 0) by (nonlinear_arith)
            requires
                t.spec_col_count() != 0,
                t.spec_row_count() != 0,
        ;
        assert forall|coord: Coord| g.spec_contains(coord) implies u.spec_get(coord) == g.spec_get(
            coord,
        ) by {
            let swapped: Coord = (coord.1, coord.0);
            assert(t.spec_contains(swapped));
            assert(u.spec_get((swapped.1, swapped.0)) == t.spec_get(swapped));
            assert((swapped.1, swapped.0) == coord);
        }
    }
}

/// A grid whose store is a prior grid's store with the slot of one
/// in-bounds coordinate updated holds the new value at that coordinate and
/// the prior value at every other coordinate.
pub proof fn lemma_store_update_cells<T>(prior: Grid<T>, updated: Grid<T>, coord: Coord, v: T)
    requires
        prior.wf(),
        prior.spec_contains(coord),
        updated.spec_col_count() == prior.spec_col_count(),
        updated.spec_row_count() == prior.spec_row_count(),
        updated.spec_data() == prior.spec_data().update(prior.spec_flat(coord), v),
    ensures
        updated.wf(),
        updated.spec_get(coord) == v,
        forall|other: Coord|
            prior.spec_contains(other) && other != coord ==> updated.spec_get(other)
                == prior.spec_get(other),
{
    lemma_flat_index_in_range(
        coord.0 as int,
        coord.1 as int,
        prior.spec_col_count() as int,
        prior.spec_row_count() as int,
    );
    assert forall|other: Coord|
        prior.spec_contains(other) && other != coord implies updated.spec_get(other)
        == prior.spec_get(other) by {
        lemma_flat_index_in_range(
            other.0 as int,
            other.1 as int,
            prior.spec_col_count() as int,
            prior.spec_row_count() as int,
        );
        lemma_flat_index_injective(
            prior.spec_col_count() as int,
            other.0 as int,
            other.1 as int,
            coord.0 as int,
            coord.1 as int,
        );
        assert(updated.spec_flat(other) == prior.spec_flat(other));
        assert(updated.spec_data()[prior.spec_flat(other)] == prior.spec_data()[prior.spec_flat(
            other,
        )]);
    }
}

} // verus!
