use crate::collision::{colliders_of, Collision};
use crate::dungeon_tiles::{autotile_spec, tiles_view, DungeonTile};
use vstd::prelude::*;

verus! {

/// One cell of the level grid.
#[derive(Clone, Copy, PartialEq, Eq, Structural, Debug)]
pub enum Block {
    Free,
    Wall,
    Void,
}

/// Largest accepted width or height of a level grid, in cells. It keeps every
/// cell coordinate well inside `i32` and every world coordinate inside
/// `geometry::COORD_LIMIT`.
pub const MAX_DIM: usize = 1_000_000;

/// Mathematical view of a grid: the outer sequence runs over columns (x), the
/// inner ones over rows (y).
pub open spec fn gview(g: Vec<Vec<Block>>) -> Seq<Seq<Block>> {
    g@.map_values(|r: Vec<Block>| r@)
}

/// A grid is well formed when it has at least one column and all columns have
/// the same height.
pub open spec fn grid_wf(g: Seq<Seq<Block>>) -> bool {
    g.len() > 0 && (forall|i: int| 0 <= i < g.len() ==> (#[trigger] g[i]).len() == g[0].len())
}

pub open spec fn grid_w(g: Seq<Seq<Block>>) -> int {
    g.len() as int
}

pub open spec fn grid_h(g: Seq<Seq<Block>>) -> int {
    g[0].len() as int
}

/// The cell at `(x, y)` is a wall.
pub open spec fn wall_at(g: Seq<Seq<Block>>, x: int, y: int) -> bool {
    g[x][y] == Block::Wall
}

/// A grid the level accepts: well formed and within the dimension cap.
pub open spec fn grid_ok(g: Seq<Seq<Block>>) -> bool {
    grid_wf(g) && grid_w(g) <= MAX_DIM as int && grid_h(g) <= MAX_DIM as int
}

#[derive(Clone, Copy, PartialEq, Eq, Structural, Debug)]
pub enum LevelError {
    /// The grid has no column, its columns differ in height, or it is larger
    /// than `MAX_DIM` in one dimension.
    MalformedGrid,
}

// ------------------------------------------------------------------
// Parsing a text level into blocks.
// ------------------------------------------------------------------

/// Mathematical view of the text lines of a level file.
pub open spec fn lines_view(ls: Vec<Vec<u8>>) -> Seq<Seq<u8>> {
    ls@.map_values(|l: Vec<u8>| l@)
}

/// The block a level character stands for: `.` is free floor, `#` a wall,
/// everything else (blanks included) void.
pub open spec fn block_of_byte(c: u8) -> Block {
    if c == 46u8 {
        Block::Free
    } else if c == 35u8 {
        Block::Wall
    } else {
        Block::Void
    }
}

/// The block at grid position `(x, y)`: the character at column `x` of line
/// `y`, or void where the line is shorter.
pub open spec fn parse_cell(ls: Seq<Seq<u8>>, x: int, y: int) -> Block {
    if x < ls[y].len() {
        block_of_byte(ls[y][x])
    } else {
        Block::Void
    }
}

/// The grid a list of text lines parses to: as wide as the first line, as
/// high as the number of lines.
pub open spec fn parse_blocks_spec(ls: Seq<Seq<u8>>) -> Seq<Seq<Block>> {
    Seq::new(ls[0].len(), |x: int| Seq::new(ls.len(), |y: int| parse_cell(ls, x, y)))
}

/// A level: the block grid, its collision field, and its decorative tiles.
pub struct Level {
    pub blocks: Vec<Vec<Block>>,
    pub collision: Collision,
    pub tiles: Vec<Vec<DungeonTile>>,
}

impl Level {
    /// Builds a level from a block grid: rejects a malformed or oversized
    /// grid, then derives the collision field and the tile classification.
    pub fn new(blocks: Vec<Vec<Block>>) -> (r: Result<Level, LevelError>)
        ensures
            r is Ok <==> grid_ok(gview(blocks)),
            r matches Ok(l) ==> l.blocks == blocks && l.collision.aabbs@ == colliders_of(
                gview(blocks),
            ) && l.collision.wf() && tiles_view(l.tiles) == autotile_spec(gview(blocks)),
            r matches Err(e) ==> e == LevelError::MalformedGrid,
    {
        let ghost g = gview(blocks);
        if blocks.len() == 0 || blocks.len() > MAX_DIM {
            return Err(LevelError::MalformedGrid);
        }
        let h = blocks[0].len();
        if h > MAX_DIM {
            return Err(LevelError::MalformedGrid);
        }
        let mut i: usize = 1;
        #[verifier::loop_isolation(false)]
        while i < blocks.len()
            invariant
                1 <= i <= g.len(),
                forall|k: int| 0 <= k < i as int ==> (#[trigger] g[k]).len() == g[0].len(),
            decreases g.len() - i,
        {
            if blocks[i].len() != h {
                proof {
                    assert(g[i as int].len() != g[0].len());
                }
                return Err(LevelError::MalformedGrid);
            }
            i += 1;
        }
        let collision = Collision::new(&blocks);
        let tiles = DungeonTile::map_blocks_to_dungeon_tiles(&blocks);
        Ok(Level { blocks, collision, tiles })
    }

    /// Parses the text lines of a level into a block grid: `.` is free floor,
    /// `#` a wall, anything else void; lines shorter than the first line are
    /// padded with void. Rejected are an empty line list and lines longer
    /// than the first (the grid is as wide as the first line).
    #[verifier::loop_isolation(false)]
    pub fn read_blocks(lines: &Vec<Vec<u8>>) -> (r: Result<Vec<Vec<Block>>, LevelError>)
        ensures
            r is Ok <==> lines@.len() >= 1 && (forall|i: int|
                0 <= i < lines@.len() ==> (#[trigger] lines@[i])@.len() <= lines@[0]@.len()),
            r matches Ok(b) ==> gview(b) == parse_blocks_spec(lines_view(*lines)),
            r matches Err(e) ==> e == LevelError::MalformedGrid,
    {
        let ghost ls = lines_view(*lines);
        if lines.len() == 0 {
            return Err(LevelError::MalformedGrid);
        }
        let w = lines[0].len();
        let h = lines.len();
        let mut i: usize = 0;
        while i < h
            invariant
                i <= h,
                forall|k: int| 0 <= k < i as int ==> (#[trigger] ls[k]).len() <= ls[0].len(),
            decreases h - i,
        {
            if lines[i].len() > w {
                proof {
                    assert(ls[i as int].len() > ls[0].len());
                }
                return Err(LevelError::MalformedGrid);
            }
            i += 1;
        }

        let mut blocks: Vec<Vec<Block>> = Vec::new();
        let mut x: usize = 0;
        while x < w
            invariant
                x <= w,
                blocks@.len() == x,
                forall|k: int| 0 <= k < x as int ==> (#[trigger] blocks@[k])@.len() == h as int,
                forall|k: int, l: int|
                    0 <= k < x as int && 0 <= l < h as int ==> (#[trigger] blocks@[k]@[l])
                        == parse_cell(ls, k, l),
            decreases w - x,
        {
            let mut col: Vec<Block> = Vec::new();
            let mut y: usize = 0;
            while y < h
                invariant
                    y <= h,
                    x < w,
                    col@.len() == y,
                    forall|l: int|
                        0 <= l < y as int ==> (#[trigger] col@[l]) == parse_cell(ls, x as int, l),
                decreases h - y,
            {
                let line = &lines[y];
                let b = if x < line.len() {
                    let c = line[x];
                    if c == 46u8 {
                        Block::Free
                    } else if c == 35u8 {
                        Block::Wall
                    } else {
                        Block::Void
                    }
                } else {
                    Block::Void
                };
                col.push(b);
                y += 1;
            }
            blocks.push(col);
            x += 1;
        }
        proof {
            assert(gview(blocks) =~~= parse_blocks_spec(ls));
            assert forall|i: int| 0 <= i < lines@.len() implies (#[trigger] lines@[i])@.len()
                <= lines@[0]@.len() by {
                assert(ls[i] == lines@[i]@);
                assert(ls[0] == lines@[0]@);
            }
        }
        Ok(blocks)
    }
}

} // verus!
