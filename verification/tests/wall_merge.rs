// Greedy rectangle merge over wall grids: the outer vector runs over columns
// (x), the inner ones over rows (y); a result tuple is (x0, y0, x1, y1) with
// half-open bounds.

use roguelike::collision::Collision;
use roguelike::level::Block;

#[test]
fn test_collision_case1() {
    let blocks = vec![
        vec![Block::Wall, Block::Free, Block::Free, Block::Free],
        vec![Block::Free, Block::Wall, Block::Wall, Block::Wall],
        vec![Block::Free, Block::Wall, Block::Wall, Block::Free],
        vec![Block::Free, Block::Wall, Block::Free, Block::Free],
    ];
    let actual = Collision::find_block_sets(&blocks);
    let expected = vec![(0, 0, 1, 1), (1, 1, 4, 2), (1, 2, 3, 3), (1, 3, 2, 4)];
    assert_eq!(actual, expected);
}

#[test]
fn test_collision_case2() {
    let blocks = vec![
        vec![Block::Free, Block::Wall, Block::Free, Block::Free],
        vec![Block::Wall, Block::Wall, Block::Wall, Block::Wall],
        vec![Block::Wall, Block::Wall, Block::Wall, Block::Wall],
        vec![Block::Free, Block::Free, Block::Free, Block::Wall],
    ];
    let actual = Collision::find_block_sets(&blocks);
    let expected = vec![(0, 1, 3, 2), (1, 0, 3, 1), (1, 2, 3, 4), (3, 3, 4, 4)];
    assert_eq!(actual, expected);
}

#[test]
fn test_collision_case3() {
    let blocks = vec![
        vec![Block::Wall, Block::Wall, Block::Wall, Block::Wall],
        vec![Block::Wall, Block::Wall, Block::Wall, Block::Wall],
        vec![Block::Wall, Block::Wall, Block::Wall, Block::Wall],
        vec![Block::Wall, Block::Wall, Block::Wall, Block::Wall],
    ];
    let actual = Collision::find_block_sets(&blocks);
    let expected = vec![(0, 0, 4, 4)];
    assert_eq!(actual, expected);
}

#[test]
fn test_collision_case4() {
    let blocks = vec![
        vec![Block::Wall, Block::Wall, Block::Wall, Block::Wall],
        vec![Block::Wall, Block::Free, Block::Free, Block::Wall],
        vec![Block::Wall, Block::Free, Block::Free, Block::Wall],
        vec![Block::Wall, Block::Wall, Block::Wall, Block::Wall],
    ];
    let actual = Collision::find_block_sets(&blocks);
    let expected = vec![(0, 0, 4, 1), (0, 1, 1, 4), (1, 3, 4, 4), (3, 1, 4, 3)];
    assert_eq!(actual, expected);
}

#[test]
fn level_collision_test_case1() {
    let map = vec![
        vec![Block::Wall, Block::Free, Block::Free, Block::Free],
        vec![Block::Free, Block::Wall, Block::Wall, Block::Wall],
        vec![Block::Free, Block::Wall, Block::Wall, Block::Free],
        vec![Block::Free, Block::Wall, Block::Free, Block::Free],
    ];
    let actual = Collision::find_block_sets(&map);
    let expected = vec![(0, 0, 1, 1), (1, 1, 4, 2), (1, 2, 3, 3), (1, 3, 2, 4)];
    assert_eq!(actual, expected);
}

#[test]
fn level_collision_test_case2() {
    let map = vec![
        vec![Block::Free, Block::Wall, Block::Free, Block::Free],
        vec![Block::Wall, Block::Wall, Block::Wall, Block::Wall],
        vec![Block::Wall, Block::Wall, Block::Wall, Block::Wall],
        vec![Block::Free, Block::Free, Block::Free, Block::Wall],
    ];
    let actual = Collision::find_block_sets(&map);
    let expected = vec![(0, 1, 3, 2), (1, 0, 3, 1), (1, 2, 3, 4), (3, 3, 4, 4)];
    assert_eq!(actual, expected);
}

#[test]
fn level_collision_test_case3() {
    let map = vec![
        vec![Block::Wall, Block::Wall, Block::Wall, Block::Wall],
        vec![Block::Wall, Block::Wall, Block::Wall, Block::Wall],
        vec![Block::Wall, Block::Wall, Block::Wall, Block::Wall],
        vec![Block::Wall, Block::Wall, Block::Wall, Block::Wall],
    ];
    let actual = Collision::find_block_sets(&map);
    let expected = vec![(0, 0, 4, 4)];
    assert_eq!(actual, expected);
}

#[test]
fn level_collision_test_case4() {
    let map = vec![
        vec![Block::Wall, Block::Wall, Block::Wall, Block::Wall],
        vec![Block::Wall, Block::Free, Block::Free, Block::Wall],
        vec![Block::Wall, Block::Free, Block::Free, Block::Wall],
        vec![Block::Wall, Block::Wall, Block::Wall, Block::Wall],
    ];
    let actual = Collision::find_block_sets(&map);
    let expected = vec![(0, 0, 4, 1), (0, 1, 1, 4), (1, 3, 4, 4), (3, 1, 4, 3)];
    assert_eq!(actual, expected);
}

// The union of the merge rectangles is exactly the wall set, with no overlap:
// checked here cell by cell on a grid with walls in every shape of cluster.
#[test]
fn partition_of_walls() {
    let blocks = vec![
        vec![Block::Wall, Block::Free, Block::Void, Block::Wall],
        vec![Block::Wall, Block::Wall, Block::Free, Block::Wall],
        vec![Block::Free, Block::Wall, Block::Wall, Block::Wall],
        vec![Block::Wall, Block::Void, Block::Wall, Block::Wall],
    ];
    let rects = Collision::find_block_sets(&blocks);
    for x in 0..4i32 {
        for y in 0..4i32 {
            let covering = rects
                .iter()
                .filter(|r| r.0 <= x && x < r.2 && r.1 <= y && y < r.3)
                .count();
            let wall = blocks[x as usize][y as usize] == Block::Wall;
            assert_eq!(covering, if wall { 1 } else { 0 });
        }
    }
}

// A grid without walls yields no rectangle.
#[test]
fn merge_of_empty_grid() {
    let blocks = vec![vec![Block::Free, Block::Void], vec![Block::Void, Block::Free]];
    let actual = Collision::find_block_sets(&blocks);
    assert_eq!(actual, vec![]);
}
