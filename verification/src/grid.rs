//! The world map: a fixed grid of occupancy flags plus the world-space
//! size of one cell. Lookups outside the grid count as walls, since the
//! backing sequence has no entry there.

use vstd::prelude::*;
use crate::fixed::in_fx_range;
use crate::geometry::Vec2;

verus! {

/// A fixed-size grid of cell flags (0 = empty, 1 = wall) stored row-major,
/// with the world-space width of one square cell.
pub struct GridMap {
    pub topography: Vec<i32>,
    pub topography_x: i32,
    pub topography_y: i32,
    pub square_width: i64,
}

impl GridMap {
    /// The grid is nonempty, its backing sequence matches its extent, and
    /// the cell size is a positive in-range fixed-point quantity.
    pub open spec fn wf(self) -> bool {
        &&& 0 < self.topography_x
        &&& 0 < self.topography_y
        &&& self.topography@.len() == self.topography_x * self.topography_y
        &&& 0 < self.square_width
        &&& in_fx_range(self.square_width as int)
    }

    /// Build a map, rejecting dimensions that do not match the backing
    /// sequence, an empty extent, or a non-positive cell size.
    pub fn new(
        topography: Vec<i32>,
        topography_x: i32,
        topography_y: i32,
        square_width: i64,
    ) -> (r: Option<GridMap>)
        ensures
            r is Some <==> (0 < topography_x && 0 < topography_y && topography@.len()
                == topography_x * topography_y && 0 < square_width && in_fx_range(
                square_width as int,
            )),
            r matches Some(m) ==> {
                &&& m.wf()
                &&& m.topography@ == topography@
                &&& m.topography_x == topography_x
                &&& m.topography_y == topography_y
                &&& m.square_width == square_width
            },
    {
        if topography_x <= 0 || topography_y <= 0 || square_width <= 0 {
            return None;
        }
        if square_width > crate::fixed::FX_LIMIT {
            return None;
        }
        proof {
            crate::fixed::lemma_mul_le(
                topography_x as int,
                topography_y as int,
                0x7fff_ffff,
                0x7fff_ffff,
            );
        }
        let expected: u64 = (topography_x as u64) * (topography_y as u64);
        if topography.len() as u64 != expected {
            return None;
        }
        Some(GridMap { topography, topography_x, topography_y, square_width })
    }

    /// Whether the cell at `(cx, cy)` blocks: any coordinate outside the
    /// grid does, and inside the grid the stored flag decides.
    pub open spec fn is_wall_spec(self, cx: int, cy: int) -> bool {
        ||| cx < 0
        ||| cy < 0
        ||| cx >= self.topography_x
        ||| cy >= self.topography_y
        ||| self.topography@[cy * self.topography_x + cx] == 1
    }

    /// Whether the cell holding `square` blocks movement or sight.
    pub fn is_wall(&self, square: Vec2<i64>) -> (r: bool)
        requires
            self.wf(),
        ensures
            r == self.is_wall_spec(square.x as int, square.y as int),
    {
        if square.x < 0 || square.y < 0 {
            return true;
        }
        if square.x >= self.topography_x as i64 || square.y >= self.topography_y as i64 {
            return true;
        }
        proof {
            crate::fixed::lemma_mul_le(
                square.y as int,
                self.topography_x as int,
                0x7fff_ffff,
                0x7fff_ffff,
            );
        }
        let idx: u64 = (square.y as u64) * (self.topography_x as u64) + (square.x as u64);
        proof {
            assert(square.y * self.topography_x + square.x < self.topography_x
                * self.topography_y) by (nonlinear_arith)
                requires
                    0 <= square.x < self.topography_x,
                    0 <= square.y < self.topography_y,
            ;
            assert(0 <= square.y * self.topography_x) by (nonlinear_arith)
                requires
                    0 <= square.y,
                    0 < self.topography_x,
            ;
            crate::fixed::lemma_mul_le(
                self.topography_x as int,
                self.topography_y as int,
                0x7fff_ffff,
                0x7fff_ffff,
            );
        }
        let n: usize = self.topography.len();
        assert(idx < n as u64);
        self.topography[idx as usize] == 1
    }
}

} // verus!
