use crate::geometry::{in_range, Vec2, COORD_LIMIT, SCALE};
use crate::input::Input;
use vstd::prelude::*;

verus! {

/// Spawn position of the player, 1.75 world units on each axis.
pub const SPAWN_POSITION_X: i64 = 17_500;

pub const SPAWN_POSITION_Y: i64 = 17_500;

/// Velocity gained per held direction key and tick: a hundredth of a unit.
pub const VELOCITY_DELTA: i64 = 100;

/// Largest velocity magnitude per axis: a fortieth of a unit.
pub const VELOCITY_MAX: i64 = 250;

/// The velocity decays to 92 / 100 of itself every tick.
pub const SLOWDOWN_NUM: i64 = 92;

pub const SLOWDOWN_DEN: i64 = 100;

/// The player character: position, velocity, its tuning values and whether it
/// is attacking.
#[derive(Clone, Copy, PartialEq, Eq, Structural, Debug)]
pub struct Player {
    pub position: Vec2,
    pub velocity: Vec2,
    pub velocity_delta: i64,
    pub velocity_max: i64,
    pub attack: bool,
}

/// One velocity component after the per-tick slowdown: scaled by 92 / 100,
/// rounded toward zero.
pub open spec fn slow_i(v: int) -> int {
    if v >= 0 {
        v * (SLOWDOWN_NUM as int) / (SLOWDOWN_DEN as int)
    } else {
        -((-v) * (SLOWDOWN_NUM as int) / (SLOWDOWN_DEN as int))
    }
}

/// A value clamped into `[-m, m]`.
pub open spec fn clamp_i(v: int, m: int) -> int {
    if v > m {
        m
    } else if v < -m {
        -m
    } else {
        v
    }
}

/// One velocity component after the held direction keys are applied: `neg`
/// and `pos` are the keys pushing toward negative and positive coordinates.
pub open spec fn steer_i(v: int, delta: int, neg: bool, pos: bool) -> int {
    v - (if neg {
        delta
    } else {
        0int
    }) + (if pos {
        delta
    } else {
        0int
    })
}

impl Player {
    /// Tuning values and velocity small enough that one tick cannot overflow.
    pub open spec fn wf(self) -> bool {
        &&& in_range(self.velocity.x as int, 2 * SCALE as int)
        &&& in_range(self.velocity.y as int, 2 * SCALE as int)
        &&& 0 <= self.velocity_delta <= SCALE
        &&& 0 <= self.velocity_max <= SCALE
    }

    /// A fresh player: at the spawn position, at rest, not attacking, with
    /// the default tuning values.
    pub open spec fn new_spec() -> Player {
        Player {
            position: Vec2 { x: SPAWN_POSITION_X, y: SPAWN_POSITION_Y },
            velocity: Vec2 { x: 0, y: 0 },
            velocity_delta: VELOCITY_DELTA,
            velocity_max: VELOCITY_MAX,
            attack: false,
        }
    }

    /// A fresh player at the spawn position, at rest.
    pub fn new() -> (r: Player)
        ensures
            r == Self::new_spec(),
            r.wf(),
    {
        Player {
            position: Vec2 { x: SPAWN_POSITION_X, y: SPAWN_POSITION_Y },
            velocity: Vec2 { x: 0, y: 0 },
            velocity_delta: VELOCITY_DELTA,
            velocity_max: VELOCITY_MAX,
            attack: false,
        }
    }

    /// One physics tick: the velocity moves the position, then decays and is
    /// clamped to the velocity cap.
    pub fn advance(&mut self)
        requires
            old(self).wf(),
            in_range(old(self).position.x + old(self).velocity.x, COORD_LIMIT as int),
            in_range(old(self).position.y + old(self).velocity.y, COORD_LIMIT as int),
        ensures
            final(self).position.x as int == old(self).position.x + old(self).velocity.x,
            final(self).position.y as int == old(self).position.y + old(self).velocity.y,
            final(self).velocity.x as int == clamp_i(
                slow_i(old(self).velocity.x as int),
                old(self).velocity_max as int,
            ),
            final(self).velocity.y as int == clamp_i(
                slow_i(old(self).velocity.y as int),
                old(self).velocity_max as int,
            ),
            final(self).velocity_delta == old(self).velocity_delta,
            final(self).velocity_max == old(self).velocity_max,
            final(self).attack == old(self).attack,
            final(self).wf(),
            in_range(final(self).velocity.x as int, old(self).velocity_max as int),
            in_range(final(self).velocity.y as int, old(self).velocity_max as int),
    {
        self.position.x = self.position.x + self.velocity.x;
        self.position.y = self.position.y + self.velocity.y;

        let vx = self.velocity.x;
        self.velocity.x = if vx >= 0 {
            vx * SLOWDOWN_NUM / SLOWDOWN_DEN
        } else {
            -((-vx) * SLOWDOWN_NUM / SLOWDOWN_DEN)
        };
        let vy = self.velocity.y;
        self.velocity.y = if vy >= 0 {
            vy * SLOWDOWN_NUM / SLOWDOWN_DEN
        } else {
            -((-vy) * SLOWDOWN_NUM / SLOWDOWN_DEN)
        };

        if self.velocity.x > self.velocity_max {
            self.velocity.x = self.velocity_max;
        }
        if self.velocity.x < -self.velocity_max {
            self.velocity.x = -self.velocity_max;
        }
        if self.velocity.y > self.velocity_max {
            self.velocity.y = self.velocity_max;
        }
        if self.velocity.y < -self.velocity_max {
            self.velocity.y = -self.velocity_max;
        }
    }

    /// Applies the held keys: each direction key adds the velocity delta
    /// toward its side, and the space key raises the attack flag.
    pub fn apply_input(&mut self, input: &Input)
        requires
            in_range(old(self).velocity.x as int, SCALE as int),
            in_range(old(self).velocity.y as int, SCALE as int),
            0 <= old(self).velocity_delta <= SCALE,
        ensures
            final(self).velocity.x as int == steer_i(
                old(self).velocity.x as int,
                old(self).velocity_delta as int,
                input.key_left,
                input.key_right,
            ),
            final(self).velocity.y as int == steer_i(
                old(self).velocity.y as int,
                old(self).velocity_delta as int,
                input.key_up,
                input.key_down,
            ),
            final(self).attack == input.key_space,
            final(self).position == old(self).position,
            final(self).velocity_delta == old(self).velocity_delta,
            final(self).velocity_max == old(self).velocity_max,
    {
        if input.key_up {
            self.velocity.y = self.velocity.y - self.velocity_delta;
        }
        if input.key_down {
            self.velocity.y = self.velocity.y + self.velocity_delta;
        }
        if input.key_left {
            self.velocity.x = self.velocity.x - self.velocity_delta;
        }
        if input.key_right {
            self.velocity.x = self.velocity.x + self.velocity_delta;
        }
        self.attack = input.key_space;
    }
}

} // verus!
