use crate::geometry::{in_range, Vec2, COORD_LIMIT};
use crate::input::Input;
use vstd::prelude::*;

verus! {

/// Starting camera position: 450 and 300 world units.
pub const START_POSITION_X: i64 = 4_500_000;

pub const START_POSITION_Y: i64 = 3_000_000;

/// Camera movement per held key and tick: 10 world units.
pub const CAMERA_MANUAL_SPEED: i64 = 100_000;

/// Distance beyond which the camera starts following the player: 325 world
/// units.
pub const CAMERA_FOLLOW_THRESHOLD: i64 = 3_250_000;

/// Length of one following step: 3.5 world units.
pub const CAMERA_FOLLOW_SPEED: i64 = 35_000;

/// Largest coordinate magnitude the follow decision accepts; it keeps the
/// squared distance inside `i64`.
pub const CAMERA_RANGE: i64 = 1_000_000_000;

/// The free-moving camera, panned manually with the W, A, S and D keys.
/// Smooth easing toward the player is display-side interpolation and lives
/// with the renderer, not in this crate.
#[derive(Clone, Copy, PartialEq, Eq, Structural, Debug)]
pub struct Camera {
    pub position: Vec2,
}

/// The camera position after one tick of held pan keys: each held key moves
/// it by the manual speed toward its side.
pub open spec fn panned(p: Vec2, input: Input) -> (int, int) {
    (
        p.x - (if input.key_a {
            CAMERA_MANUAL_SPEED as int
        } else {
            0int
        }) + (if input.key_d {
            CAMERA_MANUAL_SPEED as int
        } else {
            0int
        }),
        p.y - (if input.key_w {
            CAMERA_MANUAL_SPEED as int
        } else {
            0int
        }) + (if input.key_s {
            CAMERA_MANUAL_SPEED as int
        } else {
            0int
        }),
    )
}

impl Camera {
    /// A camera at the start position.
    pub fn new() -> (r: Camera)
        ensures
            r.position == (Vec2 { x: START_POSITION_X, y: START_POSITION_Y }),
    {
        Camera { position: Vec2 { x: START_POSITION_X, y: START_POSITION_Y } }
    }

    /// Pans the camera by the held W, A, S and D keys.
    pub fn apply_input(&mut self, input: &Input)
        requires
            in_range(old(self).position.x as int, COORD_LIMIT as int),
            in_range(old(self).position.y as int, COORD_LIMIT as int),
        ensures
            final(self).position.x as int == panned(old(self).position, *input).0,
            final(self).position.y as int == panned(old(self).position, *input).1,
    {
        if input.key_w {
            self.position.y = self.position.y - CAMERA_MANUAL_SPEED;
        }
        if input.key_s {
            self.position.y = self.position.y + CAMERA_MANUAL_SPEED;
        }
        if input.key_a {
            self.position.x = self.position.x - CAMERA_MANUAL_SPEED;
        }
        if input.key_d {
            self.position.x = self.position.x + CAMERA_MANUAL_SPEED;
        }
    }

    /// Moves the camera one step toward a target that is more than the follow
    /// threshold away; a closer target leaves the camera where it is. The
    /// decision compares exact squared distances. The step itself, the unit
    /// direction toward the target scaled by the follow speed, needs a
    /// floating-point square root, so the caller computes and hands it in.
    pub fn follow_player(&mut self, target: Vec2, step: Vec2)
        requires
            old(self).position.in_limit(CAMERA_RANGE as int),
            target.in_limit(CAMERA_RANGE as int),
            step.in_limit(CAMERA_FOLLOW_SPEED as int),
        ensures
            beyond_follow_threshold(old(self).position, target) ==> final(self).position.x as int
                == old(self).position.x + step.x && final(self).position.y as int == old(
                self,
            ).position.y + step.y,
            !beyond_follow_threshold(old(self).position, target) ==> *final(self) == *old(self),
    {
        let dx = target.x - self.position.x;
        let dy = target.y - self.position.y;
        proof {
            assert(dx * dx <= 4 * CAMERA_RANGE * CAMERA_RANGE && dx * dx >= 0) by (nonlinear_arith)
                requires
                    -2 * CAMERA_RANGE <= dx <= 2 * CAMERA_RANGE,
            ;
            assert(dy * dy <= 4 * CAMERA_RANGE * CAMERA_RANGE && dy * dy >= 0) by (nonlinear_arith)
                requires
                    -2 * CAMERA_RANGE <= dy <= 2 * CAMERA_RANGE,
            ;
        }
        if dx * dx + dy * dy > CAMERA_FOLLOW_THRESHOLD * CAMERA_FOLLOW_THRESHOLD {
            self.position.x = self.position.x + step.x;
            self.position.y = self.position.y + step.y;
        }
    }
}

/// The target lies strictly farther from the camera position than the follow
/// threshold, measured by squared distances.
pub open spec fn beyond_follow_threshold(cam: Vec2, target: Vec2) -> bool {
    let dx = target.x - cam.x;
    let dy = target.y - cam.y;
    dx * dx + dy * dy > CAMERA_FOLLOW_THRESHOLD * CAMERA_FOLLOW_THRESHOLD
}

} // verus!
