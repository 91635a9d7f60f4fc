//! A generic, fixed-size, two-dimensional grid.
//!
//! The [`Grid`] structure stores arbitrary data in its cells, addressed by
//! the [`Coord`] type: `(column, row)` pairs of non-negative indices laid
//! out in row-major order.
//!
//! The [`Offset`] type is a signed displacement vector used to express
//! positional relationships between cells. Offsets support vector addition,
//! vector subtraction and scalar multiplication, and can be applied to a
//! coordinate to obtain a neighbouring coordinate, so relational lookups
//! stay out of the grid API itself.

mod grid;
mod offset;

pub use grid::lemma_empty_grid_contains_nothing;
pub use grid::lemma_store_update_cells;
pub use grid::lemma_transpose_involution;
pub use grid::Grid;
pub use offset::lemma_cardinal_opposites_cancel;
pub use offset::lemma_scale_commutes;
pub use offset::Coord;
pub use offset::Offset;
