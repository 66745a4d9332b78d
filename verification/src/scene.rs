use crate::collision::resolve_disp;
use crate::geometry::{Aabb, Vec2, COORD_LIMIT};
use crate::input::Input;
use crate::level::{grid_ok, gview, Block, Level, LevelError};
use crate::player::Player;
use vstd::prelude::*;

verus! {

/// Half side length of the player's collision box, 24 world units.
pub const PLAYER_HALF_EXTENT: i64 = 240_000;

/// The live game state: the level and the player moving through it.
pub struct Scene {
    pub level: Level,
    pub player: Player,
}

#[derive(Clone, Copy, PartialEq, Eq, Structural, Debug)]
pub enum SceneError {
    Level(LevelError),
}

/// The player's collision box at a position: a square of half side
/// `PLAYER_HALF_EXTENT` centered on it.
pub open spec fn player_box(px: int, py: int) -> Aabb {
    Aabb {
        min: Vec2 {
            x: (px - PLAYER_HALF_EXTENT) as i64,
            y: (py - PLAYER_HALF_EXTENT) as i64,
        },
        max: Vec2 {
            x: (px + PLAYER_HALF_EXTENT) as i64,
            y: (py + PLAYER_HALF_EXTENT) as i64,
        },
    }
}

impl Scene {
    /// A scene ready to advance: sound player tuning, the player not too far
    /// out, and a well-formed collider list.
    pub open spec fn wf(self) -> bool {
        &&& self.player.wf()
        &&& self.player.position.in_limit((COORD_LIMIT / 2) as int)
        &&& self.level.collision.wf()
    }

    /// Builds the scene of a level grid, with the player at its spawn
    /// position.
    pub fn new(blocks: Vec<Vec<Block>>) -> (r: Result<Scene, SceneError>)
        ensures
            r is Ok <==> grid_ok(gview(blocks)),
            r matches Ok(s) ==> s.level.blocks == blocks && s.player == Player::new_spec()
                && s.wf(),
            r matches Err(e) ==> e == SceneError::Level(LevelError::MalformedGrid),
    {
        let level = match Level::new(blocks) {
            Ok(l) => l,
            Err(e) => {
                return Err(SceneError::Level(e));
            },
        };
        let player = Player::new();
        Ok(Scene { level, player })
    }

    /// One simulation tick: the player advances under its velocity, the held
    /// keys steer it, and its collision box is pushed out of every level
    /// collider in list order.
    pub fn advance(&mut self, input: &Input)
        requires
            old(self).wf(),
        ensures
            final(self).level == old(self).level,
            final(self).player.velocity.x as int == crate::player::steer_i(
                crate::player::clamp_i(
                    crate::player::slow_i(old(self).player.velocity.x as int),
                    old(self).player.velocity_max as int,
                ),
                old(self).player.velocity_delta as int,
                input.key_left,
                input.key_right,
            ),
            final(self).player.velocity.y as int == crate::player::steer_i(
                crate::player::clamp_i(
                    crate::player::slow_i(old(self).player.velocity.y as int),
                    old(self).player.velocity_max as int,
                ),
                old(self).player.velocity_delta as int,
                input.key_up,
                input.key_down,
            ),
            final(self).player.attack == input.key_space,
            final(self).player.position.x as int == old(self).player.position.x + old(
                self,
            ).player.velocity.x + resolve_disp(
                old(self).level.collision.aabbs@,
                player_box(
                    old(self).player.position.x + old(self).player.velocity.x,
                    old(self).player.position.y + old(self).player.velocity.y,
                ),
                0,
                0,
                0,
            ).0,
            final(self).player.position.y as int == old(self).player.position.y + old(
                self,
            ).player.velocity.y + resolve_disp(
                old(self).level.collision.aabbs@,
                player_box(
                    old(self).player.position.x + old(self).player.velocity.x,
                    old(self).player.position.y + old(self).player.velocity.y,
                ),
                0,
                0,
                0,
            ).1,
            final(self).player.velocity_delta == old(self).player.velocity_delta,
            final(self).player.velocity_max == old(self).player.velocity_max,
            final(self).player.wf(),
    {
        self.player.advance();
        self.player.apply_input(input);
        let entity = Aabb::new(
            Vec2 {
                x: self.player.position.x - PLAYER_HALF_EXTENT,
                y: self.player.position.y - PLAYER_HALF_EXTENT,
            },
            Vec2 {
                x: self.player.position.x + PLAYER_HALF_EXTENT,
                y: self.player.position.y + PLAYER_HALF_EXTENT,
            },
        );
        let corrected = self.level.collision.resolve(&entity, self.player.position);
        self.player.position = corrected;
    }
}

} // verus!
