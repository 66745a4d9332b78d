// Tile classification tests: concrete grids and the idempotence of the
// classification.

use roguelike::dungeon_tiles::DungeonTile;
use roguelike::level::Block;

#[test]
fn classify_single_wall_cell() {
    let blocks = vec![vec![Block::Wall]];
    let tiles = DungeonTile::map_blocks_to_dungeon_tiles(&blocks);
    assert_eq!(tiles, vec![vec![DungeonTile::Void]]);
}

#[test]
fn classify_single_free_cell() {
    let blocks = vec![vec![Block::Free]];
    let tiles = DungeonTile::map_blocks_to_dungeon_tiles(&blocks);
    assert_eq!(tiles, vec![vec![DungeonTile::Flat0]]);
}

#[test]
fn classify_wall_top_row_and_decorated_floor() {
    // three columns of wall-over-floor: a top wall edge, and the middle floor
    // cell picks up the floor-under-wall decoration
    let blocks = vec![
        vec![Block::Wall, Block::Free],
        vec![Block::Wall, Block::Free],
        vec![Block::Wall, Block::Free],
    ];
    let tiles = DungeonTile::map_blocks_to_dungeon_tiles(&blocks);
    let expected = vec![
        vec![DungeonTile::WallTop0, DungeonTile::Flat3],
        vec![DungeonTile::WallTop1, DungeonTile::Flat1Wall],
        vec![DungeonTile::WallTop2, DungeonTile::Flat5],
    ];
    assert_eq!(tiles, expected);
}

#[test]
fn classify_inner_corner() {
    let blocks = vec![vec![Block::Wall, Block::Wall], vec![Block::Wall, Block::Free]];
    let tiles = DungeonTile::map_blocks_to_dungeon_tiles(&blocks);
    let expected = vec![
        vec![DungeonTile::TopLeftCorner, DungeonTile::WallLeft1],
        vec![DungeonTile::WallTop1, DungeonTile::Flat4],
    ];
    assert_eq!(tiles, expected);
}

#[test]
fn classification_is_idempotent() {
    let blocks = vec![
        vec![Block::Wall, Block::Free, Block::Free, Block::Free],
        vec![Block::Free, Block::Wall, Block::Wall, Block::Wall],
        vec![Block::Free, Block::Wall, Block::Wall, Block::Free],
        vec![Block::Free, Block::Wall, Block::Free, Block::Free],
    ];
    let first = DungeonTile::map_blocks_to_dungeon_tiles(&blocks);
    let second = DungeonTile::map_blocks_to_dungeon_tiles(&blocks);
    assert_eq!(first, second);
}

#[test]
fn texture_positions_of_tiles() {
    assert_eq!(DungeonTile::get_texture_position(&DungeonTile::TopLeftCorner), (0, 0));
    assert_eq!(DungeonTile::get_texture_position(&DungeonTile::WallTop2), (3, 0));
    assert_eq!(DungeonTile::get_texture_position(&DungeonTile::Flat11), (9, 2));
    assert_eq!(DungeonTile::get_texture_position(&DungeonTile::Flat4Wall), (1, 2));
    assert_eq!(DungeonTile::get_texture_position(&DungeonTile::Void), (8, 7));
}

#[test]
fn is_flat_distinguishes_floor() {
    assert!(DungeonTile::is_flat(DungeonTile::Flat0));
    assert!(DungeonTile::is_flat(DungeonTile::Flat11Wall));
    assert!(!DungeonTile::is_flat(DungeonTile::Flat));
    assert!(!DungeonTile::is_flat(DungeonTile::WallTop0));
    assert!(!DungeonTile::is_flat(DungeonTile::Void));
}
