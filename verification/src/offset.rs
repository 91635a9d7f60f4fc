//! Signed two-dimensional displacement vectors and their algebra.

use vstd::prelude::*;

verus! {

use vstd::std_specs::ops::AddSpec;
use vstd::std_specs::ops::MulSpec;

/// Coordinates of the form (column, row), where column >= 0 and row >= 0.
pub type Coord = (usize, usize);

/// A two-dimensional offset vector used to relate grid elements spatially.
///
/// An offset is a displacement, not a position: it may point in any
/// direction, and validity is only checked when it is applied to a
/// coordinate with [`Offset::rcoord`]. Component arithmetic wraps around
/// on overflow, so vector addition, subtraction and scalar multiplication
/// are total and never panic.
#[derive(Clone, Copy, Debug, Default, Eq, Hash, Ord, PartialEq, PartialOrd, Structural)]
pub struct Offset {
    pub col_offset: i32,
    pub row_offset: i32,
}

impl core::ops::Add for Offset {
    type Output = Offset;

    /// Component-wise vector sum; each component wraps on overflow.
    fn add(self, other: Offset) -> (r: Offset) {
        Offset {
            col_offset: self.col_offset.wrapping_add(other.col_offset),
            row_offset: self.row_offset.wrapping_add(other.row_offset),
        }
    }
}

impl vstd::std_specs::ops::AddSpecImpl for Offset {
    open spec fn obeys_add_spec() -> bool {
        true
    }

    open spec fn add_req(self, rhs: Offset) -> bool {
        true
    }

    open spec fn add_spec(self, rhs: Offset) -> Offset {
        Offset {
            col_offset: self.col_offset.wrapping_add(rhs.col_offset),
            row_offset: self.row_offset.wrapping_add(rhs.row_offset),
        }
    }
}

impl core::ops::Sub for Offset {
    type Output = Offset;

    /// Component-wise vector difference; each component wraps on overflow.
    fn sub(self, other: Offset) -> (r: Offset) {
        Offset {
            col_offset: self.col_offset.wrapping_sub(other.col_offset),
            row_offset: self.row_offset.wrapping_sub(other.row_offset),
        }
    }
}

impl vstd::std_specs::ops::SubSpecImpl for Offset {
    open spec fn obeys_sub_spec() -> bool {
        true
    }

    open spec fn sub_req(self, rhs: Offset) -> bool {
        true
    }

    open spec fn sub_spec(self, rhs: Offset) -> Offset {
        Offset {
            col_offset: self.col_offset.wrapping_sub(rhs.col_offset),
            row_offset: self.row_offset.wrapping_sub(rhs.row_offset),
        }
    }
}

impl core::ops::Mul<i32> for Offset {
    type Output = Offset;

    /// Scalar multiplication; each component wraps on overflow.
    fn mul(self, scalar: i32) -> (r: Offset) {
        Offset {
            col_offset: scalar.wrapping_mul(self.col_offset),
            row_offset: scalar.wrapping_mul(self.row_offset),
        }
    }
}

impl vstd::std_specs::ops::MulSpecImpl<i32> for Offset {
    open spec fn obeys_mul_spec() -> bool {
        true
    }

    open spec fn mul_req(self, rhs: i32) -> bool {
        true
    }

    open spec fn mul_spec(self, rhs: i32) -> Offset {
        Offset {
            col_offset: rhs.wrapping_mul(self.col_offset),
            row_offset: rhs.wrapping_mul(self.row_offset),
        }
    }
}

impl core::ops::Mul<Offset> for i32 {
    type Output = Offset;

    /// Scalar multiplication with the scalar on the left; identical to
    /// `vec * scalar`.
    fn mul(self, vec: Offset) -> (r: Offset) {
        vec * self
    }
}

impl vstd::std_specs::ops::MulSpecImpl<Offset> for i32 {
    open spec fn obeys_mul_spec() -> bool {
        true
    }

    open spec fn mul_req(self, rhs: Offset) -> bool {
        true
    }

    open spec fn mul_spec(self, rhs: Offset) -> Offset {
        vstd::std_specs::ops::MulSpec::mul_spec(rhs, self)
    }
}

impl From<(i32, i32)> for Offset {
    /// Build the offset whose components are the pair's components, in
    /// (column, row) order.
    fn from(pair: (i32, i32)) -> (r: Offset) {
        Offset { col_offset: pair.0, row_offset: pair.1 }
    }
}

impl vstd::std_specs::convert::FromSpecImpl<(i32, i32)> for Offset {
    open spec fn obeys_from_spec() -> bool {
        true
    }

    open spec fn from_spec(pair: (i32, i32)) -> Offset {
        Offset { col_offset: pair.0, row_offset: pair.1 }
    }
}

impl Offset {
    /// The zero offset, as a spec value.
    pub open spec fn spec_zero() -> Offset {
        Offset { col_offset: 0, row_offset: 0 }
    }

    /// The zero offset: (col: +0, row: +0).
    #[verifier::when_used_as_spec(spec_zero)]
    pub fn zero() -> (r: Offset)
        ensures
            r == Offset::spec_zero(),
    {
        Offset { col_offset: 0, row_offset: 0 }
    }

    /// The northern unit vector, as a spec value.
    pub open spec fn spec_north() -> Offset {
        Offset { col_offset: 0, row_offset: -1i32 }
    }

    /// Northern unit vector: (col: +0, row: -1).
    #[verifier::when_used_as_spec(spec_north)]
    pub fn north() -> (r: Offset)
        ensures
            r == Offset::spec_north(),
    {
        Offset { col_offset: 0, row_offset: -1 }
    }

    /// The eastern unit vector, as a spec value.
    pub open spec fn spec_east() -> Offset {
        Offset { col_offset: 1, row_offset: 0 }
    }

    /// Eastern unit vector: (col: +1, row: +0).
    #[verifier::when_used_as_spec(spec_east)]
    pub fn east() -> (r: Offset)
        ensures
            r == Offset::spec_east(),
    {
        Offset { col_offset: 1, row_offset: 0 }
    }

    /// The southern unit vector, as a spec value.
    pub open spec fn spec_south() -> Offset {
        Offset { col_offset: 0, row_offset: 1 }
    }

    /// Southern unit vector: (col: +0, row: +1).
    #[verifier::when_used_as_spec(spec_south)]
    pub fn south() -> (r: Offset)
        ensures
            r == Offset::spec_south(),
    {
        Offset { col_offset: 0, row_offset: 1 }
    }

    /// The western unit vector, as a spec value.
    pub open spec fn spec_west() -> Offset {
        Offset { col_offset: -1i32, row_offset: 0 }
    }

    /// Western unit vector: (col: -1, row: +0).
    #[verifier::when_used_as_spec(spec_west)]
    pub fn west() -> (r: Offset)
        ensures
            r == Offset::spec_west(),
    {
        Offset { col_offset: -1, row_offset: 0 }
    }
}

impl Offset {
    /// The weighted sum of the four cardinal unit vectors, as a spec value:
    /// `north() * n + east() * e + south() * s + west() * w`.
    pub open spec fn spec_cardinal_sum(n: i32, e: i32, s: i32, w: i32) -> Offset {
        Offset::spec_north().mul_spec(n).add_spec(Offset::spec_east().mul_spec(e)).add_spec(
            Offset::spec_south().mul_spec(s),
        ).add_spec(Offset::spec_west().mul_spec(w))
    }

    /// Create a new `Offset` from the sum of cardinal vectors, weighting
    /// each unit vector by the matching argument.
    ///
    /// Away from the wrap-around fringe the result is simply
    /// `(e - w, s - n)`.
    pub fn cardinal_sum(n: i32, e: i32, s: i32, w: i32) -> (r: Offset)
        ensures
            r == Offset::spec_cardinal_sum(n, e, s, w),
            (n > i32::MIN && w > i32::MIN && i32::MIN <= s - n <= i32::MAX && i32::MIN <= e - w
                <= i32::MAX) ==> (r.col_offset == e - w && r.row_offset == s - n),
    {
        Offset::north() * n + Offset::east() * e + Offset::south() * s + Offset::west() * w
    }

    /// Where this displacement lands when applied to `coord`, as a spec
    /// value: `None` when either resulting component would be negative or
    /// would exceed `usize::MAX`.
    pub open spec fn spec_rcoord(self, coord: Coord) -> Option<Coord> {
        let c: int = coord.0 as int + self.col_offset as int;
        let r: int = coord.1 as int + self.row_offset as int;
        if 0 <= c <= usize::MAX as int && 0 <= r <= usize::MAX as int {
            Some((c as usize, r as usize))
        } else {
            None
        }
    }

    /// Get the coordinate pointed to by an `Offset` from a given `Coord`.
    ///
    /// Returns `None` when either `Coord` component would be negative, and
    /// likewise when a component would exceed `usize::MAX`, so a result is
    /// never a wrapped-around stand-in for an unrepresentable coordinate.
    pub fn rcoord(&self, coord: Coord) -> (res: Option<Coord>)
        ensures
            res == self.spec_rcoord(coord),
    {
        let col: usize = coord.0;
        let row: usize = coord.1;
        let new_col: Option<usize> = if self.col_offset >= 0 {
            let d: usize = self.col_offset as usize;
            if col <= usize::MAX - d {
                Some(col + d)
            } else {
                None
            }
        } else {
            let m: usize = (-(self.col_offset as i64)) as usize;
            if col >= m {
                Some(col - m)
            } else {
                None
            }
        };
        let new_row: Option<usize> = if self.row_offset >= 0 {
            let d: usize = self.row_offset as usize;
            if row <= usize::MAX - d {
                Some(row + d)
            } else {
                None
            }
        } else {
            let m: usize = (-(self.row_offset as i64)) as usize;
            if row >= m {
                Some(row - m)
            } else {
                None
            }
        };
        match (new_col, new_row) {
            (Some(c), Some(r)) => Some((c, r)),
            _ => None,
        }
    }
}

/// The two opposite cardinal pairs cancel: `north() + south()` and
/// `east() + west()` are both the zero offset.
pub proof fn lemma_cardinal_opposites_cancel()
    ensures
        Offset::north().add_spec(Offset::south()) == Offset::zero(),
        Offset::east().add_spec(Offset::west()) == Offset::zero(),
{
}

/// Scalar multiplication commutes: multiplying on the left and on the
/// right yield the same offset.
pub proof fn lemma_scale_commutes(v: Offset, k: i32)
    ensures
        v.mul_spec(k) == vstd::std_specs::ops::MulSpec::mul_spec(k, v),
{
}

} // verus!
