//! Free world positions and straight-line motion shared by the combine,
//! enemies, bullets and items.

use vstd::prelude::*;

verus! {

use crate::MAX_TICK_MS;
use crate::numeric::{COORD_LIMIT, clamp_coord, clamp_spec, tdiv, tdiv_exec};

/// Largest speed (fixed-point units per second) any entity moves at.
pub const VEL_LIMIT: i64 = 100_000;

/// A continuous position, in fixed-point units (1000 per grid cell).
#[derive(Debug, Clone, Copy, PartialEq, Eq, Structural)]
pub struct WorldPos {
    pub x: i64,
    pub y: i64,
}

/// A velocity, in fixed-point units per second.
#[derive(Debug, Clone, Copy, PartialEq, Eq, Structural)]
pub struct Velocity {
    pub x: i64,
    pub y: i64,
}

impl WorldPos {
    /// Positions stay inside the world box; squared distances then fit i64.
    pub open spec fn wf(self) -> bool {
        &&& -COORD_LIMIT <= self.x <= COORD_LIMIT
        &&& -COORD_LIMIT <= self.y <= COORD_LIMIT
    }
}

impl Velocity {
    pub open spec fn wf(self) -> bool {
        &&& -VEL_LIMIT <= self.x <= VEL_LIMIT
        &&& -VEL_LIMIT <= self.y <= VEL_LIMIT
    }

    pub fn zero() -> (v: Velocity)
        ensures
            v.wf(),
            v.x == 0 && v.y == 0,
    {
        Velocity { x: 0, y: 0 }
    }
}

/// Where straight-line motion carries a coordinate after `delta_ms`
/// milliseconds, confined to the world box.
pub open spec fn moved_coord(x: int, v: int, delta_ms: int) -> int {
    clamp_spec(x + tdiv(v * delta_ms, 1000))
}

/// Advance a position along its velocity for the elapsed time.
pub fn movement(pos: &mut WorldPos, v: &Velocity, delta_ms: u32)
    requires
        old(pos).wf(),
        v.wf(),
        delta_ms <= MAX_TICK_MS,
    ensures
        final(pos).wf(),
        final(pos).x == moved_coord(old(pos).x as int, v.x as int, delta_ms as int),
        final(pos).y == moved_coord(old(pos).y as int, v.y as int, delta_ms as int),
{
    proof {
        assert(v.x * delta_ms <= VEL_LIMIT * MAX_TICK_MS && v.x * delta_ms >= -VEL_LIMIT
            * MAX_TICK_MS) by (nonlinear_arith)
            requires
                -VEL_LIMIT <= v.x <= VEL_LIMIT,
                0 <= delta_ms <= MAX_TICK_MS,
        ;
        assert(v.y * delta_ms <= VEL_LIMIT * MAX_TICK_MS && v.y * delta_ms >= -VEL_LIMIT
            * MAX_TICK_MS) by (nonlinear_arith)
            requires
                -VEL_LIMIT <= v.y <= VEL_LIMIT,
                0 <= delta_ms <= MAX_TICK_MS,
        ;
    }
    let step_x: i64 = tdiv_exec(v.x * delta_ms as i64, 1000);
    let step_y: i64 = tdiv_exec(v.y * delta_ms as i64, 1000);
    proof {
        crate::numeric::lemma_tdiv_bounds(v.x * delta_ms as int, 1000, VEL_LIMIT * MAX_TICK_MS);
        crate::numeric::lemma_tdiv_bounds(v.y * delta_ms as int, 1000, VEL_LIMIT * MAX_TICK_MS);
    }
    pos.x = clamp_coord(pos.x + step_x);
    pos.y = clamp_coord(pos.y + step_y);
}

} // verus!
