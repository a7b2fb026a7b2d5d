//! The player-controlled combine: discrete-step movement, input-to-direction
//! resolution, and the bounce-off-the-field-edge rule.

use vstd::prelude::*;

verus! {

use crate::clock::Clock;
use crate::field::{MAX_FIELD_SIDE, Position};
use crate::movement::WorldPos;

/// Period of one grid step, in ms (the combine crosses 1.5 cells a second).
pub const STEP_PERIOD_MS: u32 = 667;

/// One-shot event: one unit of crop value was harvested.
#[derive(Debug, Clone, Copy, PartialEq, Eq, Structural)]
pub struct Harvested;

/// Marker of the player-controlled unit; carries its grid state.
#[derive(Debug, Clone, Copy, PartialEq, Eq, Structural)]
pub struct Harvester {
    pub position: Position,
    pub movement: Movement,
}

/// A unit grid direction.
#[derive(Debug, Clone, Copy, PartialEq, Eq, Structural)]
pub enum GridDir {
    PosX,
    NegX,
    PosY,
    NegY,
}

impl GridDir {
    /// X component of the unit vector.
    pub open spec fn dx(self) -> int {
        match self {
            GridDir::PosX => 1,
            GridDir::NegX => -1,
            GridDir::PosY => 0,
            GridDir::NegY => 0,
        }
    }

    /// Y component of the unit vector.
    pub open spec fn dy(self) -> int {
        match self {
            GridDir::PosX => 0,
            GridDir::NegX => 0,
            GridDir::PosY => 1,
            GridDir::NegY => -1,
        }
    }

    /// The exactly reversed direction.
    pub open spec fn opposite(self) -> GridDir {
        match self {
            GridDir::PosX => GridDir::NegX,
            GridDir::NegX => GridDir::PosX,
            GridDir::PosY => GridDir::NegY,
            GridDir::NegY => GridDir::PosY,
        }
    }

    pub fn dx_exec(self) -> (r: i32)
        ensures
            r == self.dx(),
    {
        match self {
            GridDir::PosX => 1,
            GridDir::NegX => -1,
            GridDir::PosY => 0,
            GridDir::NegY => 0,
        }
    }

    pub fn dy_exec(self) -> (r: i32)
        ensures
            r == self.dy(),
    {
        match self {
            GridDir::PosX => 0,
            GridDir::NegX => 0,
            GridDir::PosY => 1,
            GridDir::NegY => -1,
        }
    }

    pub fn opposite_exec(self) -> (r: GridDir)
        ensures
            r == self.opposite(),
    {
        match self {
            GridDir::PosX => GridDir::NegX,
            GridDir::NegX => GridDir::PosX,
            GridDir::PosY => GridDir::NegY,
            GridDir::NegY => GridDir::PosY,
        }
    }
}

/// The direction sampled cardinal key states ask for: keys in a fixed
/// priority order, no key meaning no request.
pub open spec fn asked_dir_spec(up: bool, down: bool, right: bool, left: bool) -> Option<GridDir> {
    if up {
        Some(GridDir::PosY)
    } else if down {
        Some(GridDir::NegY)
    } else if right {
        Some(GridDir::PosX)
    } else if left {
        Some(GridDir::NegX)
    } else {
        None
    }
}

/// Resolve sampled cardinal key states to a requested direction; keys are
/// tried in a fixed priority order, and no key means no request.
pub fn asked_direction(up: bool, down: bool, right: bool, left: bool) -> (r: Option<GridDir>)
    ensures
        r == asked_dir_spec(up, down, right, left),
{
    if up {
        Some(GridDir::PosY)
    } else if down {
        Some(GridDir::NegY)
    } else if right {
        Some(GridDir::PosX)
    } else if left {
        Some(GridDir::NegX)
    } else {
        None
    }
}

/// Discrete-step movement state: the travel direction, an optionally latched
/// next direction, and the clock pacing grid steps.
#[derive(Debug, Clone, Copy, PartialEq, Eq, Structural)]
pub struct Movement {
    pub direction: GridDir,
    pub control: Option<GridDir>,
    pub timer: Clock,
}

impl Movement {
    pub open spec fn wf(self) -> bool {
        &&& self.timer.wf()
        &&& self.timer.repeating
        &&& self.timer.duration_ms == STEP_PERIOD_MS
    }

    pub fn new(direction: GridDir) -> (m: Movement)
        ensures
            m.wf(),
            m.direction == direction,
            m.control is None,
            m.timer.elapsed_ms == 0,
    {
        Movement { direction, control: None, timer: Clock::new(STEP_PERIOD_MS, true) }
    }

    /// The derived continuous position, as a value: the grid position plus
    /// the travel direction scaled by the elapsed step fraction.
    pub open spec fn world_of(self, pos: Position) -> WorldPos {
        WorldPos {
            x: (pos.x * 1000 + self.direction.dx() * self.timer.fraction_milli_spec()) as i64,
            y: (pos.y * 1000 + self.direction.dy() * self.timer.fraction_milli_spec()) as i64,
        }
    }

    /// Continuous world position derived from the grid position: the linear
    /// interpolation along the travel direction by the elapsed step
    /// fraction. Never stored, so it cannot drift from the grid position.
    pub fn world_coord(&self, pos: Position) -> (w: WorldPos)
        requires
            self.wf(),
            -(MAX_FIELD_SIDE as int) <= pos.x <= MAX_FIELD_SIDE,
            -(MAX_FIELD_SIDE as int) <= pos.y <= MAX_FIELD_SIDE,
        ensures
            w == self.world_of(pos),
            w.x == pos.x * 1000 + self.direction.dx() * self.timer.fraction_milli_spec(),
            w.y == pos.y * 1000 + self.direction.dy() * self.timer.fraction_milli_spec(),
            w.wf(),
    {
        let f: i64 = self.timer.fraction_milli();
        WorldPos {
            x: (pos.x as i64) * 1000 + (self.direction.dx_exec() as i64) * f,
            y: (pos.y as i64) * 1000 + (self.direction.dy_exec() as i64) * f,
        }
    }

    /// The movement state after one steering request: an exact reversal is
    /// rejected, anything else is latched, replacing an earlier request.
    pub open spec fn steered(self, asked: Option<GridDir>) -> Movement {
        match asked {
            Some(d) => if d == self.direction.opposite() {
                self
            } else {
                Movement { direction: self.direction, control: Some(d), timer: self.timer }
            },
            None => self,
        }
    }

    /// Latch a requested direction for the next grid step. A request that
    /// exactly reverses the current travel direction is rejected (no instant
    /// U-turn); everything else is queued, replacing any earlier request.
    pub fn steer(&mut self, asked: Option<GridDir>)
        ensures
            *final(self) == old(self).steered(asked),
    {
        if let Some(d) = asked {
            if !(d == self.direction.opposite_exec()) {
                self.control = Some(d);
            }
        }
    }

    /// Whether the step clock completes its period during `delta_ms`.
    pub open spec fn steps(self, delta_ms: int) -> bool {
        self.timer.elapsed_ms + delta_ms >= STEP_PERIOD_MS
    }

    /// The movement state after the step clock advances: the clock wraps,
    /// and on a step the latched direction, if any, takes over.
    pub open spec fn updated(self, delta_ms: int) -> Movement {
        let t = Clock {
            elapsed_ms: ((self.timer.elapsed_ms + delta_ms) % (STEP_PERIOD_MS as int)) as u32,
            duration_ms: self.timer.duration_ms,
            repeating: self.timer.repeating,
        };
        if self.steps(delta_ms) {
            Movement {
                direction: match self.control {
                    Some(d) => d,
                    None => self.direction,
                },
                control: None,
                timer: t,
            }
        } else {
            Movement { direction: self.direction, control: self.control, timer: t }
        }
    }

    /// The grid position after the step clock advances: one step along the
    /// travel direction on expiry, otherwise unchanged.
    pub open spec fn moved_pos(self, pos: Position, delta_ms: int) -> Position {
        if self.steps(delta_ms) {
            Position {
                x: (pos.x + self.direction.dx()) as i32,
                y: (pos.y + self.direction.dy()) as i32,
            }
        } else {
            pos
        }
    }

    /// Advance the step clock; on expiry, take one grid step and switch to
    /// the latched direction, if any. Returns whether a step was taken.
    /// Without a step, only the clock's elapsed time advances.
    pub fn update(&mut self, pos: &mut Position, delta_ms: u32) -> (stepped: bool)
        requires
            old(self).wf(),
            delta_ms <= crate::MAX_TICK_MS,
            -(MAX_FIELD_SIDE as int) <= old(pos).x <= MAX_FIELD_SIDE,
            -(MAX_FIELD_SIDE as int) <= old(pos).y <= MAX_FIELD_SIDE,
        ensures
            final(self).wf(),
            stepped == old(self).steps(delta_ms as int),
            *final(self) == old(self).updated(delta_ms as int),
            *final(pos) == old(self).moved_pos(*old(pos), delta_ms as int),
    {
        let fired = self.timer.tick(delta_ms);
        if fired {
            pos.x = pos.x + self.direction.dx_exec();
            pos.y = pos.y + self.direction.dy_exec();
            if let Some(c) = self.control {
                self.direction = c;
                self.control = None;
            }
        }
        fired
    }

    /// Travel direction after the bounce rule is applied at a grid position:
    /// motion toward an edge the position already touches is inverted.
    pub open spec fn bounced(dir: GridDir, pos: Position, width: u32, height: u32) -> GridDir {
        if (pos.x == 0 && dir.dx() < 0) || (pos.x == width - 1 && dir.dx() > 0) {
            dir.opposite()
        } else if (pos.y == 0 && dir.dy() < 0) || (pos.y == height - 1 && dir.dy() > 0) {
            dir.opposite()
        } else {
            dir
        }
    }

    /// The movement state after the bounce rule: only the travel direction
    /// can invert.
    pub open spec fn bounced_at(self, pos: Position, width: u32, height: u32) -> Movement {
        Movement {
            direction: Movement::bounced(self.direction, pos, width, height),
            control: self.control,
            timer: self.timer,
        }
    }

    /// Bounce off the field edge: when the combine faces the last row or
    /// column in its direction of travel, the direction auto-inverts on that
    /// axis. Independent of player input; after it, an in-bounds combine's
    /// next step stays in bounds.
    pub fn reverse_in_front_of_barrier(&mut self, pos: Position, width: u32, height: u32)
        requires
            2 <= width <= 1000,
            2 <= height <= 1000,
        ensures
            *final(self) == old(self).bounced_at(pos, width, height),
            final(self).direction == Movement::bounced(old(self).direction, pos, width, height),
            final(self).control == old(self).control,
            final(self).timer == old(self).timer,
            0 <= pos.x < width && 0 <= pos.y < height ==> {
                &&& 0 <= pos.x + final(self).direction.dx() < width
                &&& 0 <= pos.y + final(self).direction.dy() < height
            },
    {
        let dx = self.direction.dx_exec();
        let dy = self.direction.dy_exec();
        if (pos.x == 0 && dx < 0) || (pos.x == width as i32 - 1 && dx > 0) {
            self.direction = self.direction.opposite_exec();
        } else if (pos.y == 0 && dy < 0) || (pos.y == height as i32 - 1 && dy > 0) {
            self.direction = self.direction.opposite_exec();
        }
    }
}

} // verus!
