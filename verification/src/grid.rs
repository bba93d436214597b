use crate::options::DEFAULT_CELL_SIZE;
use vstd::prelude::*;

verus! {

/// The size of the game board in cells.
#[derive(Clone, Copy, Debug, PartialEq, Eq, Structural)]
pub struct GridSize {
    pub cells_wide: u32,
    pub cells_high: u32,
}

/// The board that a window of `width` by `height` pixels holds when each
/// cell is `cell_size` pixels square: as many whole cells as fit.
pub open spec fn spec_grid_size(width: u32, height: u32, cell_size: u32) -> GridSize {
    GridSize { cells_wide: width / cell_size, cells_high: height / cell_size }
}

impl GridSize {
    /// The board for a window of `width` by `height` pixels with cells of
    /// `cell_size` pixels.
    pub fn new(width: u32, height: u32, cell_size: u32) -> (g: GridSize)
        requires
            cell_size > 0,
        ensures
            g == spec_grid_size(width, height, cell_size),
            g.cells_wide * cell_size <= width < (g.cells_wide + 1) * cell_size,
            g.cells_high * cell_size <= height < (g.cells_high + 1) * cell_size,
    {
        proof {
            lemma_whole_cells_fit(width as int, cell_size as int);
            lemma_whole_cells_fit(height as int, cell_size as int);
        }
        GridSize { cells_wide: width / cell_size, cells_high: height / cell_size }
    }

    /// The extent of the render targets that hold the board. The graphics
    /// layer takes 16-bit extents, so each side is reduced modulo 2^16.
    pub fn target_extent(&self) -> (e: (u16, u16))
        ensures
            e.0 == self.cells_wide % 0x10000,
            e.1 == self.cells_high % 0x10000,
    {
        let w = self.cells_wide;
        let h = self.cells_high;
        assert(w as u16 == w % 0x10000) by (bit_vector);
        assert(h as u16 == h % 0x10000) by (bit_vector);
        (w as u16, h as u16)
    }
}

/// `n / c` whole cells of `c` pixels fit in `n` pixels, and one more does not.
pub(crate) proof fn lemma_whole_cells_fit(n: int, c: int)
    requires
        0 <= n,
        0 < c,
    ensures
        (n / c) * c <= n < (n / c + 1) * c,
{
    vstd::arithmetic::div_mod::lemma_fundamental_div_mod(n, c);
    vstd::arithmetic::mul::lemma_mul_is_commutative(c, n / c);
    vstd::arithmetic::mul::lemma_mul_is_distributive_add_other_way(c, n / c, 1);
}

/// With the default cell size, each pixel of the window is one cell of the
/// board.
pub proof fn lemma_default_cells_are_pixels(width: u32, height: u32)
    ensures
        spec_grid_size(width, height, DEFAULT_CELL_SIZE) == (GridSize {
            cells_wide: width,
            cells_high: height,
        }),
{
    assert(DEFAULT_CELL_SIZE == 1);
}

} // verus!
