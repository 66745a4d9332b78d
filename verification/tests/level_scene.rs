// Level construction, text parsing, collider scaling, resolution against the
// collision field, and the per-tick scene step.

use roguelike::camera::{Camera, CAMERA_FOLLOW_SPEED, CAMERA_FOLLOW_THRESHOLD, CAMERA_MANUAL_SPEED, START_POSITION_X, START_POSITION_Y};
use roguelike::collision::{Collision, TILE_WORLD};
use roguelike::dungeon_tiles::DungeonTile;
use roguelike::geometry::{Aabb, Vec2};
use roguelike::input::{Input, KeyCode};
use roguelike::level::{Block, Level, LevelError};
use roguelike::player::{Player, SPAWN_POSITION_X, SPAWN_POSITION_Y};
use roguelike::scene::{Scene, SceneError};
use roguelike::textures::TextureID;

#[test]
fn read_blocks_parses_characters() {
    let lines: Vec<Vec<u8>> = vec![b"#.".to_vec(), b" #".to_vec()];
    let blocks = Level::read_blocks(&lines).unwrap();
    let expected = vec![vec![Block::Wall, Block::Void], vec![Block::Free, Block::Wall]];
    assert_eq!(blocks, expected);
}

#[test]
fn read_blocks_pads_short_lines() {
    let lines: Vec<Vec<u8>> = vec![b"##".to_vec(), b"#".to_vec()];
    let blocks = Level::read_blocks(&lines).unwrap();
    let expected = vec![vec![Block::Wall, Block::Wall], vec![Block::Wall, Block::Void]];
    assert_eq!(blocks, expected);
}

#[test]
fn read_blocks_rejects_bad_input() {
    let empty: Vec<Vec<u8>> = vec![];
    assert!(matches!(Level::read_blocks(&empty), Err(LevelError::MalformedGrid)));
    let ragged: Vec<Vec<u8>> = vec![b"#".to_vec(), b"##".to_vec()];
    assert!(matches!(Level::read_blocks(&ragged), Err(LevelError::MalformedGrid)));
}

#[test]
fn level_rejects_malformed_grid() {
    let no_columns: Vec<Vec<Block>> = vec![];
    assert!(matches!(Level::new(no_columns), Err(LevelError::MalformedGrid)));
    let ragged = vec![vec![Block::Free, Block::Free], vec![Block::Free]];
    assert!(matches!(Level::new(ragged), Err(LevelError::MalformedGrid)));
}

#[test]
fn level_builds_colliders_and_tiles() {
    let blocks = vec![
        vec![Block::Wall, Block::Free],
        vec![Block::Free, Block::Free],
    ];
    let level = Level::new(blocks).unwrap();
    assert_eq!(level.collision.aabbs.len(), 1);
    assert_eq!(
        level.collision.aabbs[0],
        Aabb::new(Vec2 { x: 0, y: 0 }, Vec2 { x: TILE_WORLD, y: TILE_WORLD })
    );
    assert_eq!(level.tiles.len(), 2);
    assert_eq!(level.tiles[0].len(), 2);
}

#[test]
fn colliders_scale_by_tile_size() {
    let blocks = vec![
        vec![Block::Wall, Block::Free, Block::Free, Block::Free],
        vec![Block::Free, Block::Wall, Block::Wall, Block::Wall],
        vec![Block::Free, Block::Wall, Block::Wall, Block::Free],
        vec![Block::Free, Block::Wall, Block::Free, Block::Free],
    ];
    let collision = Collision::new(&blocks);
    let expected: Vec<Aabb> = [(0, 0, 1, 1), (1, 1, 4, 2), (1, 2, 3, 3), (1, 3, 2, 4)]
        .iter()
        .map(|&(x0, y0, x1, y1): &(i64, i64, i64, i64)| {
            Aabb::new(
                Vec2 { x: x0 * TILE_WORLD, y: y0 * TILE_WORLD },
                Vec2 { x: x1 * TILE_WORLD, y: y1 * TILE_WORLD },
            )
        })
        .collect();
    assert_eq!(collision.aabbs, expected);
}

#[test]
fn resolve_pushes_entity_out() {
    let collision = Collision {
        aabbs: vec![Aabb::new(
            Vec2 { x: 100_000, y: 100_000 },
            Vec2 { x: 200_000, y: 200_000 },
        )],
    };
    let entity = Aabb::new(Vec2 { x: 150_000, y: 150_000 }, Vec2 { x: 300_000, y: 300_000 });
    let position = Vec2 { x: 150_000, y: 150_000 };
    let corrected = collision.resolve(&entity, position);
    // pushed right by the 5-unit overlap inflated by 1.001
    assert_eq!(corrected, Vec2 { x: 200_050, y: 150_000 });

    // after the correction the entity box no longer touches the collider
    let moved = Aabb::new(
        Vec2 { x: entity.min.x + (corrected.x - position.x), y: entity.min.y },
        Vec2 { x: entity.max.x + (corrected.x - position.x), y: entity.max.y },
    );
    assert!(!collision.aabbs[0].check_contact(&moved).intersects);

    // a separated entity comes back unchanged
    let apart = Aabb::new(Vec2 { x: 400_000, y: 0 }, Vec2 { x: 500_000, y: 50_000 });
    assert_eq!(collision.resolve(&apart, Vec2 { x: 400_000, y: 0 }), Vec2 { x: 400_000, y: 0 });
}

#[test]
fn input_records_key_events() {
    let mut input = Input::new();
    assert!(!input.key_up && !input.key_space && !input.key_d);
    input.handle_key_event(KeyCode::ArrowUp, true);
    input.handle_key_event(KeyCode::Space, true);
    input.handle_key_event(KeyCode::KeyD, true);
    assert!(input.key_up && input.key_space && input.key_d);
    input.handle_key_event(KeyCode::ArrowUp, false);
    assert!(!input.key_up && input.key_space);
    input.handle_key_event(KeyCode::Other, true);
    assert!(!input.key_up && input.key_space && input.key_d);
}

#[test]
fn player_advance_and_steering() {
    let mut player = Player::new();
    assert_eq!(player.position, Vec2 { x: SPAWN_POSITION_X, y: SPAWN_POSITION_Y });
    let mut input = Input::new();
    input.key_right = true;
    input.key_up = true;
    player.apply_input(&input);
    assert_eq!(player.velocity, Vec2 { x: 100, y: -100 });
    assert!(!player.attack);
    player.advance();
    // the velocity moved the position, then decayed to 92 / 100 of itself
    assert_eq!(player.position, Vec2 { x: SPAWN_POSITION_X + 100, y: SPAWN_POSITION_Y - 100 });
    assert_eq!(player.velocity, Vec2 { x: 92, y: -92 });
}

#[test]
fn player_velocity_is_clamped() {
    let mut player = Player::new();
    player.velocity = Vec2 { x: 500, y: -500 };
    player.advance();
    // 500 * 92 / 100 = 460 would exceed the cap of 250
    assert_eq!(player.velocity, Vec2 { x: 250, y: -250 });
}

#[test]
fn scene_steps_player_through_open_level() {
    let blocks = vec![vec![Block::Free, Block::Free], vec![Block::Free, Block::Free]];
    let mut scene = Scene::new(blocks).unwrap();
    let mut input = Input::new();
    input.key_right = true;
    scene.advance(&input);
    assert_eq!(scene.player.position, Vec2 { x: SPAWN_POSITION_X, y: SPAWN_POSITION_Y });
    assert_eq!(scene.player.velocity, Vec2 { x: 100, y: 0 });
    scene.advance(&Input::new());
    assert_eq!(scene.player.position, Vec2 { x: SPAWN_POSITION_X + 100, y: SPAWN_POSITION_Y });
    assert_eq!(scene.player.velocity, Vec2 { x: 92, y: 0 });
}

#[test]
fn scene_rejects_malformed_grid() {
    let ragged = vec![vec![Block::Free, Block::Free], vec![Block::Free]];
    assert!(matches!(
        Scene::new(ragged),
        Err(SceneError::Level(LevelError::MalformedGrid))
    ));
}

#[test]
fn texture_id_index_roundtrip() {
    for i in 0..13usize {
        let t = TextureID::from_index(i);
        assert_eq!(t.index(), i);
    }
    assert_eq!(TextureID::Orc3Attack.index(), 0);
    assert_eq!(TextureID::DungeonTileset.index(), 12);
}

#[test]
fn test_apply_input_up_left() {
    let start = Vec2 { x: START_POSITION_X, y: START_POSITION_Y };
    let mut camera = Camera::new();
    assert_eq!(camera.position, start);

    let mut input = Input::new();
    input.key_w = true;
    input.key_s = false;
    input.key_a = true;
    input.key_d = false;

    camera.apply_input(&input);
    assert_eq!(
        camera.position,
        Vec2 { x: start.x - CAMERA_MANUAL_SPEED, y: start.y - CAMERA_MANUAL_SPEED }
    );
}

#[test]
fn test_apply_input_down_right() {
    let start = Vec2 { x: START_POSITION_X, y: START_POSITION_Y };
    let mut camera = Camera::new();
    assert_eq!(camera.position, start);

    let mut input = Input::new();
    input.key_w = false;
    input.key_s = true;
    input.key_a = false;
    input.key_d = true;

    camera.apply_input(&input);
    assert_eq!(
        camera.position,
        Vec2 { x: start.x + CAMERA_MANUAL_SPEED, y: start.y + CAMERA_MANUAL_SPEED }
    );
}

#[test]
fn level_accepts_columns_of_zero_height() {
    let blocks: Vec<Vec<Block>> = vec![vec![], vec![]];
    let level = Level::new(blocks).unwrap();
    assert_eq!(level.collision.aabbs.len(), 0);
    assert_eq!(level.tiles, vec![Vec::<DungeonTile>::new(), Vec::new()]);
}

#[test]
fn test_follow_player_close() {
    let start = Vec2 { x: START_POSITION_X, y: START_POSITION_Y };
    let mut camera = Camera::new();
    assert_eq!(camera.position, start);

    // the player stands half the follow threshold away on both axes, within
    // range: the camera stays put whatever step the renderer computed
    let target = Vec2 {
        x: start.x + CAMERA_FOLLOW_THRESHOLD / 2,
        y: start.y + CAMERA_FOLLOW_THRESHOLD / 2,
    };
    camera.follow_player(target, Vec2 { x: CAMERA_FOLLOW_SPEED, y: 0 });
    assert_eq!(camera.position, start);
}

#[test]
fn follow_player_far_takes_the_step() {
    let start = Vec2 { x: START_POSITION_X, y: START_POSITION_Y };
    let mut camera = Camera::new();
    // one and a half follow thresholds away on both axes
    let target = Vec2 {
        x: start.x + CAMERA_FOLLOW_THRESHOLD + CAMERA_FOLLOW_THRESHOLD / 2,
        y: start.y + CAMERA_FOLLOW_THRESHOLD + CAMERA_FOLLOW_THRESHOLD / 2,
    };
    // the diagonal unit direction scaled by the follow speed, as the renderer
    // would compute it: 3.5 / sqrt(2) units per axis, rounded
    let step = Vec2 { x: 24_749, y: 24_749 };
    camera.follow_player(target, step);
    assert_eq!(camera.position, Vec2 { x: start.x + 24_749, y: start.y + 24_749 });
}

#[test]
fn scene_pushes_player_out_of_wall() {
    // one wall cell at the origin: its collider spans 0..96 units squared,
    // and the spawn hitbox (1.75 +- 24 units) overlaps it
    let blocks = vec![vec![Block::Wall, Block::Free], vec![Block::Free, Block::Free]];
    let mut scene = Scene::new(blocks).unwrap();
    scene.advance(&Input::new());
    // the x overlap (25.75 units = 257_500 subunits) is the smaller one, so
    // the player is pushed left by its inflated depth, 257_500 * 1001 / 1000
    assert_eq!(
        scene.player.position,
        Vec2 { x: SPAWN_POSITION_X - 257_757, y: SPAWN_POSITION_Y }
    );
    // the corrected hitbox no longer overlaps the wall collider
    let half = 240_000;
    let moved = Aabb::new(
        Vec2 { x: scene.player.position.x - half, y: scene.player.position.y - half },
        Vec2 { x: scene.player.position.x + half, y: scene.player.position.y + half },
    );
    assert!(!scene.level.collision.aabbs[0].check_contact(&moved).intersects);
}
