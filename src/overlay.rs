//! Layout of the velocity-arrow overlay: one arrow per bin of cells.
use vstd::prelude::*;
use crate::grid::GridSize;

verus! {

/// Number of arrows along each axis for a grid of `size` cells and bins of `bin` cells,
/// or `None` when a bin dimension is zero. Partial bins at the far edges get no arrow.
pub fn arrow_grid(size: GridSize, bin: GridSize) -> (r: Option<GridSize>)
    ensures
        (bin.width == 0 || bin.height == 0) <==> r is None,
        r is Some ==> r->Some_0 == (GridSize {
            width: size.width / bin.width,
            height: size.height / bin.height,
        }),
{
    if bin.width == 0 || bin.height == 0 {
        None
    } else {
        Some(GridSize { width: size.width / bin.width, height: size.height / bin.height })
    }
}

/// Total number of arrows of an arrow grid.
pub fn arrow_count(arrows: GridSize) -> (r: u64)
    ensures
        r == arrows.width * arrows.height,
{
    proof {
        vstd::arithmetic::mul::lemma_mul_upper_bound(arrows.width as int, u32::MAX as int, arrows.height as int, u32::MAX as int);
    }
    arrows.width as u64 * arrows.height as u64
}

} // verus!
