use crate::level::{grid_h, grid_w, grid_wf, gview, Block};
use vstd::prelude::*;

verus! {

/// Decorative tile variant of one grid cell, as the renderer consumes it.
/// The plain `WallTop`, `WallBottom`, `WallLeft`, `WallRight` and `Flat`
/// variants are generic intermediate results of the first classification
/// pass; the numbered variants are the sub-variants the later passes pick.
#[derive(Clone, Copy, PartialEq, Eq, Structural, Debug)]
pub enum DungeonTile {
    TopLeftCorner,
    TopRightCorner,
    BottomRightCorner,
    BottomLeftCorner,
    WallTop,
    WallTop0,
    WallTop1,
    WallTop2,
    WallTop3,
    WallBottom,
    WallBottom0,
    WallBottom1,
    WallBottom2,
    WallBottom3,
    WallLeft,
    WallLeft0,
    WallLeft1,
    WallLeft2,
    WallRight,
    WallRight0,
    WallRight1,
    WallRight2,
    TopLeftCornerOuter,
    TopRightCornerOuter,
    WallTopOuter,
    WallTopOuter0,
    WallTopOuter1,
    Flat,
    Flat0,
    Flat1,
    Flat2,
    Flat3,
    Flat4,
    Flat5,
    Flat6,
    Flat7,
    Flat8,
    Flat9,
    Flat10,
    Flat11,
    Flat0Wall,
    Flat1Wall,
    Flat2Wall,
    Flat3Wall,
    Flat4Wall,
    Flat7Wall,
    Flat8Wall,
    Flat9Wall,
    Flat10Wall,
    Flat11Wall,
    Void,
}

/// Mathematical view of a tile grid, columns outside, rows inside.
pub open spec fn tiles_view(t: Vec<Vec<DungeonTile>>) -> Seq<Seq<DungeonTile>> {
    t@.map_values(|r: Vec<DungeonTile>| r@)
}

/// The cell at `(x, y)`, or `def` when the position lies outside the grid.
pub open spec fn cell_or<T>(m: Seq<Seq<T>>, x: int, y: int, def: T) -> T {
    if 0 <= x < m.len() && 0 <= y < m[x].len() {
        m[x][y]
    } else {
        def
    }
}

// ------------------------------------------------------------------
// Pass 0: structural classification from the raw blocks. The rules are
// ordered; the first match wins: the four wall sides, then the four inner
// corners, then the outer corners, then a fallthrough to Void.
// ------------------------------------------------------------------

pub open spec fn pass0_spec(g: Seq<Seq<Block>>, x: int, y: int) -> DungeonTile {
    let c = g[x][y];
    let t = cell_or(g, x, y - 1, Block::Void);
    let b = cell_or(g, x, y + 1, Block::Void);
    let l = cell_or(g, x - 1, y, Block::Void);
    let r = cell_or(g, x + 1, y, Block::Void);
    let tl = cell_or(g, x - 1, y - 1, Block::Void);
    let tr = cell_or(g, x + 1, y - 1, Block::Void);
    let bl = cell_or(g, x - 1, y + 1, Block::Void);
    let br = cell_or(g, x + 1, y + 1, Block::Void);
    if c == Block::Free {
        DungeonTile::Flat
    } else if r != Block::Free && l != Block::Free && b == Block::Free {
        DungeonTile::WallTop
    } else if r != Block::Free && l != Block::Free && t == Block::Free {
        DungeonTile::WallBottom
    } else if t != Block::Free && b != Block::Free && r == Block::Free {
        DungeonTile::WallLeft
    } else if t != Block::Free && b != Block::Free && l == Block::Free {
        DungeonTile::WallRight
    } else if r != Block::Free && b != Block::Free && br == Block::Free {
        DungeonTile::TopLeftCorner
    } else if l != Block::Free && b != Block::Free && bl == Block::Free {
        DungeonTile::TopRightCorner
    } else if r != Block::Free && t != Block::Free && tr == Block::Free {
        DungeonTile::BottomLeftCorner
    } else if l != Block::Free && t != Block::Free && tl == Block::Free {
        DungeonTile::BottomRightCorner
    } else if t == Block::Free && b != Block::Free && l == Block::Free && r != Block::Free {
        DungeonTile::TopLeftCornerOuter
    } else if t == Block::Free && b != Block::Free && l != Block::Free && r == Block::Free {
        DungeonTile::TopRightCornerOuter
    } else if (t != Block::Free && b == Block::Free && l == Block::Free && r != Block::Free) || (t
        != Block::Free && b == Block::Free && l != Block::Free && r == Block::Free) {
        DungeonTile::WallTop
    } else {
        DungeonTile::Void
    }
}

// ------------------------------------------------------------------
// Pass 1: sub-variant selection for the generic tiles, from small lookup
// tables indexed by the cell position.
// ------------------------------------------------------------------

pub open spec fn flat_lookup_spec(i: int) -> DungeonTile {
    if i == 0 {
        DungeonTile::Flat0
    } else if i == 1 {
        DungeonTile::Flat1
    } else if i == 2 {
        DungeonTile::Flat2
    } else if i == 3 {
        DungeonTile::Flat3
    } else if i == 4 {
        DungeonTile::Flat4
    } else if i == 5 {
        DungeonTile::Flat5
    } else if i == 6 {
        DungeonTile::Flat6
    } else if i == 7 {
        DungeonTile::Flat7
    } else if i == 8 {
        DungeonTile::Flat8
    } else if i == 9 {
        DungeonTile::Flat9
    } else if i == 10 {
        DungeonTile::Flat10
    } else if i == 11 {
        DungeonTile::Flat11
    } else {
        DungeonTile::Void
    }
}

pub open spec fn wall_top_lookup_spec(i: int) -> DungeonTile {
    if i == 0 {
        DungeonTile::WallTop0
    } else if i == 1 {
        DungeonTile::WallTop1
    } else if i == 2 {
        DungeonTile::WallTop2
    } else if i == 3 {
        DungeonTile::WallTop3
    } else {
        DungeonTile::Void
    }
}

pub open spec fn wall_bottom_lookup_spec(i: int) -> DungeonTile {
    if i == 0 {
        DungeonTile::WallBottom0
    } else if i == 1 {
        DungeonTile::WallBottom1
    } else if i == 2 {
        DungeonTile::WallBottom2
    } else if i == 3 {
        DungeonTile::WallBottom3
    } else {
        DungeonTile::Void
    }
}

pub open spec fn wall_left_lookup_spec(i: int) -> DungeonTile {
    if i == 0 {
        DungeonTile::WallLeft0
    } else if i == 1 {
        DungeonTile::WallLeft1
    } else if i == 2 {
        DungeonTile::WallLeft2
    } else {
        DungeonTile::Void
    }
}

pub open spec fn wall_right_lookup_spec(i: int) -> DungeonTile {
    if i == 0 {
        DungeonTile::WallRight0
    } else if i == 1 {
        DungeonTile::WallRight1
    } else if i == 2 {
        DungeonTile::WallRight2
    } else {
        DungeonTile::Void
    }
}

/// The flat lookup is indexed by `x % 4 + (y % 3) * 3`, so only the first ten
/// of its twelve entries are reachable.
pub open spec fn pass1_spec(t: Seq<Seq<DungeonTile>>, x: int, y: int) -> DungeonTile {
    let c = t[x][y];
    if c == DungeonTile::Flat {
        flat_lookup_spec(x % 4 + (y % 3) * 3)
    } else if c == DungeonTile::WallTop {
        wall_top_lookup_spec(x % 4)
    } else if c == DungeonTile::WallBottom {
        wall_bottom_lookup_spec(x % 4)
    } else if c == DungeonTile::WallLeft {
        wall_left_lookup_spec(y % 3)
    } else if c == DungeonTile::WallRight {
        wall_right_lookup_spec(y % 3)
    } else {
        c
    }
}

// ------------------------------------------------------------------
// Pass 2: wall-adjacent floor decoration. A floor cell next to walls is
// replaced by a floor-with-wall-edge variant; corners are checked before
// straight edges, first match wins.
// ------------------------------------------------------------------

/// Whether a tile counts as floor for the decoration pass: the numbered flat
/// tiles and the floor-with-wall-edge tiles (the generic `Flat` does not;
/// after pass 1 it no longer occurs).
pub open spec fn is_flat_spec(t: DungeonTile) -> bool {
    match t {
        DungeonTile::Flat0 => true,
        DungeonTile::Flat1 => true,
        DungeonTile::Flat2 => true,
        DungeonTile::Flat3 => true,
        DungeonTile::Flat4 => true,
        DungeonTile::Flat5 => true,
        DungeonTile::Flat6 => true,
        DungeonTile::Flat7 => true,
        DungeonTile::Flat8 => true,
        DungeonTile::Flat9 => true,
        DungeonTile::Flat10 => true,
        DungeonTile::Flat11 => true,
        DungeonTile::Flat0Wall => true,
        DungeonTile::Flat1Wall => true,
        DungeonTile::Flat2Wall => true,
        DungeonTile::Flat3Wall => true,
        DungeonTile::Flat4Wall => true,
        DungeonTile::Flat7Wall => true,
        DungeonTile::Flat8Wall => true,
        DungeonTile::Flat9Wall => true,
        DungeonTile::Flat10Wall => true,
        DungeonTile::Flat11Wall => true,
        _ => false,
    }
}

pub open spec fn pass2_spec(m: Seq<Seq<DungeonTile>>, x: int, y: int) -> DungeonTile {
    let c = m[x][y];
    let t = is_flat_spec(cell_or(m, x, y - 1, DungeonTile::Void));
    let b = is_flat_spec(cell_or(m, x, y + 1, DungeonTile::Void));
    let l = is_flat_spec(cell_or(m, x - 1, y, DungeonTile::Void));
    let r = is_flat_spec(cell_or(m, x + 1, y, DungeonTile::Void));
    if is_flat_spec(c) {
        if !t && b && !l && r {
            DungeonTile::Flat0Wall
        } else if !t && b && l && !r {
            DungeonTile::Flat3Wall
        } else if t && !b && !l && r {
            DungeonTile::Flat8Wall
        } else if t && !b && l && !r {
            DungeonTile::Flat11Wall
        } else if t && b && !l && r {
            DungeonTile::Flat4Wall
        } else if t && b && l && !r {
            DungeonTile::Flat7Wall
        } else if t && !b && l && r {
            DungeonTile::Flat9Wall
        } else if !t && l && r {
            DungeonTile::Flat1Wall
        } else {
            c
        }
    } else {
        c
    }
}

// ------------------------------------------------------------------
// The whole classification: each pass is computed for the whole grid before
// the next pass reads it.
// ------------------------------------------------------------------

pub open spec fn pass0_grid(g: Seq<Seq<Block>>) -> Seq<Seq<DungeonTile>> {
    Seq::new(g.len(), |x: int| Seq::new(g[0].len(), |y: int| pass0_spec(g, x, y)))
}

pub open spec fn pass1_grid(t: Seq<Seq<DungeonTile>>) -> Seq<Seq<DungeonTile>> {
    Seq::new(t.len(), |x: int| Seq::new(t[0].len(), |y: int| pass1_spec(t, x, y)))
}

pub open spec fn pass2_grid(t: Seq<Seq<DungeonTile>>) -> Seq<Seq<DungeonTile>> {
    Seq::new(t.len(), |x: int| Seq::new(t[0].len(), |y: int| pass2_spec(t, x, y)))
}

/// Tile classification of a whole grid: structural pass, sub-variant pass,
/// then floor decoration pass.
pub open spec fn autotile_spec(g: Seq<Seq<Block>>) -> Seq<Seq<DungeonTile>> {
    pass2_grid(pass1_grid(pass0_grid(g)))
}

impl DungeonTile {
    /// First classification pass for one cell, from the raw blocks.
    fn pass0(blocks: &Vec<Vec<Block>>, x: usize, y: usize) -> (res: DungeonTile)
        requires
            grid_wf(gview(*blocks)),
            x < grid_w(gview(*blocks)),
            y < grid_h(gview(*blocks)),
        ensures
            res == pass0_spec(gview(*blocks), x as int, y as int),
    {
        let w = blocks.len();
        let h = blocks[0].len();
        let c = blocks[x][y];
        let t = if y == 0 {
            Block::Void
        } else {
            blocks[x][y - 1]
        };
        let b = if y + 1 >= h {
            Block::Void
        } else {
            blocks[x][y + 1]
        };
        let l = if x == 0 {
            Block::Void
        } else {
            blocks[x - 1][y]
        };
        let r = if x + 1 >= w {
            Block::Void
        } else {
            blocks[x + 1][y]
        };
        let tl = if x == 0 || y == 0 {
            Block::Void
        } else {
            blocks[x - 1][y - 1]
        };
        let tr = if x + 1 >= w || y == 0 {
            Block::Void
        } else {
            blocks[x + 1][y - 1]
        };
        let bl = if x == 0 || y + 1 >= h {
            Block::Void
        } else {
            blocks[x - 1][y + 1]
        };
        let br = if x + 1 >= w || y + 1 >= h {
            Block::Void
        } else {
            blocks[x + 1][y + 1]
        };
        if c == Block::Free {
            return DungeonTile::Flat;
        }
        if r != Block::Free && l != Block::Free && b == Block::Free {
            return DungeonTile::WallTop;
        }
        if r != Block::Free && l != Block::Free && t == Block::Free {
            return DungeonTile::WallBottom;
        }
        if t != Block::Free && b != Block::Free && r == Block::Free {
            return DungeonTile::WallLeft;
        }
        if t != Block::Free && b != Block::Free && l == Block::Free {
            return DungeonTile::WallRight;
        }
        if r != Block::Free && b != Block::Free && br == Block::Free {
            return DungeonTile::TopLeftCorner;
        }
        if l != Block::Free && b != Block::Free && bl == Block::Free {
            return DungeonTile::TopRightCorner;
        }
        if r != Block::Free && t != Block::Free && tr == Block::Free {
            return DungeonTile::BottomLeftCorner;
        }
        if l != Block::Free && t != Block::Free && tl == Block::Free {
            return DungeonTile::BottomRightCorner;
        }
        if t == Block::Free && b != Block::Free && l == Block::Free && r != Block::Free {
            return DungeonTile::TopLeftCornerOuter;
        }
        if t == Block::Free && b != Block::Free && l != Block::Free && r == Block::Free {
            return DungeonTile::TopRightCornerOuter;
        }
        if t != Block::Free && b == Block::Free && l == Block::Free && r != Block::Free || t
            != Block::Free && b == Block::Free && l != Block::Free && r == Block::Free {
            return DungeonTile::WallTop;
        }
        DungeonTile::Void
    }

    /// Second pass for one cell: pick the numbered sub-variant of a generic
    /// tile from the cell position.
    fn pass1(tiles: &Vec<Vec<DungeonTile>>, x: usize, y: usize) -> (res: DungeonTile)
        requires
            x < tiles_view(*tiles).len(),
            y < tiles_view(*tiles)[x as int].len(),
        ensures
            res == pass1_spec(tiles_view(*tiles), x as int, y as int),
    {
        let c = tiles[x][y];
        match c {
            DungeonTile::Flat => Self::flat_lookup(x % 4 + (y % 3) * 3),
            DungeonTile::WallTop => Self::wall_top_lookup(x % 4),
            DungeonTile::WallBottom => Self::wall_bottom_lookup(x % 4),
            DungeonTile::WallLeft => Self::wall_left_lookup(y % 3),
            DungeonTile::WallRight => Self::wall_right_lookup(y % 3),
            _ => c,
        }
    }

    /// Third pass for one cell: decorate a floor cell next to walls.
    fn pass2(tiles: &Vec<Vec<DungeonTile>>, x: usize, y: usize) -> (res: DungeonTile)
        requires
            grid_tiles_wf(tiles_view(*tiles)),
            x < tiles_view(*tiles).len(),
            y < tiles_view(*tiles)[0].len(),
        ensures
            res == pass2_spec(tiles_view(*tiles), x as int, y as int),
    {
        let w = tiles.len();
        let h = tiles[0].len();
        proof {
            let tv = tiles_view(*tiles);
            assert(tv[x as int].len() == tv[0].len());
            if x >= 1 {
                assert(tv[x as int - 1].len() == tv[0].len());
            }
            if x + 1 < w {
                assert(tv[x as int + 1].len() == tv[0].len());
            }
        }
        let c = tiles[x][y];
        let t = Self::is_flat(if y == 0 {
            DungeonTile::Void
        } else {
            tiles[x][y - 1]
        });
        let b = Self::is_flat(if y + 1 >= h {
            DungeonTile::Void
        } else {
            tiles[x][y + 1]
        });
        let l = Self::is_flat(if x == 0 {
            DungeonTile::Void
        } else {
            tiles[x - 1][y]
        });
        let r = Self::is_flat(if x + 1 >= w {
            DungeonTile::Void
        } else {
            tiles[x + 1][y]
        });
        if Self::is_flat(c) {
            if !t && b && !l && r {
                return DungeonTile::Flat0Wall;
            }
            if !t && b && l && !r {
                return DungeonTile::Flat3Wall;
            }
            if t && !b && !l && r {
                return DungeonTile::Flat8Wall;
            }
            if t && !b && l && !r {
                return DungeonTile::Flat11Wall;
            }
            if t && b && !l && r {
                return DungeonTile::Flat4Wall;
            }
            if t && b && l && !r {
                return DungeonTile::Flat7Wall;
            }
            if t && !b && l && r {
                return DungeonTile::Flat9Wall;
            }
            if !t && l && r {
                return DungeonTile::Flat1Wall;
            }
        }
        c
    }

    /// Classifies every cell of a level grid into its decorative tile: the
    /// structural pass over the raw blocks, the sub-variant pass, then the
    /// floor decoration pass, each computed for the whole grid before the
    /// next pass reads it.
    #[verifier::loop_isolation(false)]
    pub fn map_blocks_to_dungeon_tiles(blocks: &Vec<Vec<Block>>) -> (r: Vec<Vec<DungeonTile>>)
        requires
            grid_wf(gview(*blocks)),
        ensures
            tiles_view(r) == autotile_spec(gview(*blocks)),
            r@.len() == grid_w(gview(*blocks)),
            forall|i: int|
                0 <= i < r@.len() ==> (#[trigger] r@[i])@.len() == grid_h(gview(*blocks)),
    {
        let ghost g = gview(*blocks);
        let w = blocks.len();
        let h = blocks[0].len();

        let mut t0: Vec<Vec<DungeonTile>> = Vec::new();
        let mut x: usize = 0;
        while x < w
            invariant
                x <= w,
                t0@.len() == x,
                forall|i: int| 0 <= i < x as int ==> (#[trigger] t0@[i])@.len() == h as int,
                forall|i: int, j: int|
                    0 <= i < x as int && 0 <= j < h as int ==> (#[trigger] t0@[i]@[j])
                        == pass0_spec(g, i, j),
            decreases w - x,
        {
            let mut row: Vec<DungeonTile> = Vec::new();
            let mut y: usize = 0;
            while y < h
                invariant
                    y <= h,
                    x < w,
                    row@.len() == y,
                    forall|j: int|
                        0 <= j < y as int ==> (#[trigger] row@[j]) == pass0_spec(g, x as int, j),
                decreases h - y,
            {
                row.push(Self::pass0(blocks, x, y));
                y += 1;
            }
            t0.push(row);
            x += 1;
        }
        proof {
            assert(tiles_view(t0) =~~= pass0_grid(g));
            assert(grid_tiles_wf(tiles_view(t0)));
        }

        let mut t1: Vec<Vec<DungeonTile>> = Vec::new();
        let mut x: usize = 0;
        while x < w
            invariant
                x <= w,
                t1@.len() == x,
                forall|i: int| 0 <= i < x as int ==> (#[trigger] t1@[i])@.len() == h as int,
                forall|i: int, j: int|
                    0 <= i < x as int && 0 <= j < h as int ==> (#[trigger] t1@[i]@[j])
                        == pass1_spec(tiles_view(t0), i, j),
            decreases w - x,
        {
            let mut row: Vec<DungeonTile> = Vec::new();
            let mut y: usize = 0;
            while y < h
                invariant
                    y <= h,
                    x < w,
                    row@.len() == y,
                    forall|j: int|
                        0 <= j < y as int ==> (#[trigger] row@[j]) == pass1_spec(
                            tiles_view(t0),
                            x as int,
                            j,
                        ),
                decreases h - y,
            {
                row.push(Self::pass1(&t0, x, y));
                y += 1;
            }
            t1.push(row);
            x += 1;
        }
        proof {
            assert(tiles_view(t1) =~~= pass1_grid(tiles_view(t0)));
            assert(grid_tiles_wf(tiles_view(t1)));
        }

        let mut t2: Vec<Vec<DungeonTile>> = Vec::new();
        let mut x: usize = 0;
        while x < w
            invariant
                x <= w,
                t2@.len() == x,
                forall|i: int| 0 <= i < x as int ==> (#[trigger] t2@[i])@.len() == h as int,
                forall|i: int, j: int|
                    0 <= i < x as int && 0 <= j < h as int ==> (#[trigger] t2@[i]@[j])
                        == pass2_spec(tiles_view(t1), i, j),
            decreases w - x,
        {
            let mut row: Vec<DungeonTile> = Vec::new();
            let mut y: usize = 0;
            while y < h
                invariant
                    y <= h,
                    x < w,
                    row@.len() == y,
                    forall|j: int|
                        0 <= j < y as int ==> (#[trigger] row@[j]) == pass2_spec(
                            tiles_view(t1),
                            x as int,
                            j,
                        ),
                decreases h - y,
            {
                row.push(Self::pass2(&t1, x, y));
                y += 1;
            }
            t2.push(row);
            x += 1;
        }
        proof {
            assert(tiles_view(t2) =~~= pass2_grid(tiles_view(t1)));
        }
        t2
    }

    /// Whether a tile counts as floor for the decoration pass.
    pub fn is_flat(t: DungeonTile) -> (res: bool)
        ensures
            res == is_flat_spec(t),
    {
        match t {
            DungeonTile::Flat0 => true,
            DungeonTile::Flat1 => true,
            DungeonTile::Flat2 => true,
            DungeonTile::Flat3 => true,
            DungeonTile::Flat4 => true,
            DungeonTile::Flat5 => true,
            DungeonTile::Flat6 => true,
            DungeonTile::Flat7 => true,
            DungeonTile::Flat8 => true,
            DungeonTile::Flat9 => true,
            DungeonTile::Flat10 => true,
            DungeonTile::Flat11 => true,
            DungeonTile::Flat0Wall => true,
            DungeonTile::Flat1Wall => true,
            DungeonTile::Flat2Wall => true,
            DungeonTile::Flat3Wall => true,
            DungeonTile::Flat4Wall => true,
            DungeonTile::Flat7Wall => true,
            DungeonTile::Flat8Wall => true,
            DungeonTile::Flat9Wall => true,
            DungeonTile::Flat10Wall => true,
            DungeonTile::Flat11Wall => true,
            _ => false,
        }
    }

    fn flat_lookup(i: usize) -> (res: DungeonTile)
        requires
            i < 12,
        ensures
            res == flat_lookup_spec(i as int),
    {
        match i {
            0 => DungeonTile::Flat0,
            1 => DungeonTile::Flat1,
            2 => DungeonTile::Flat2,
            3 => DungeonTile::Flat3,
            4 => DungeonTile::Flat4,
            5 => DungeonTile::Flat5,
            6 => DungeonTile::Flat6,
            7 => DungeonTile::Flat7,
            8 => DungeonTile::Flat8,
            9 => DungeonTile::Flat9,
            10 => DungeonTile::Flat10,
            _ => DungeonTile::Flat11,
        }
    }

    fn wall_top_lookup(i: usize) -> (res: DungeonTile)
        requires
            i < 4,
        ensures
            res == wall_top_lookup_spec(i as int),
    {
        match i {
            0 => DungeonTile::WallTop0,
            1 => DungeonTile::WallTop1,
            2 => DungeonTile::WallTop2,
            _ => DungeonTile::WallTop3,
        }
    }

    fn wall_bottom_lookup(i: usize) -> (res: DungeonTile)
        requires
            i < 4,
        ensures
            res == wall_bottom_lookup_spec(i as int),
    {
        match i {
            0 => DungeonTile::WallBottom0,
            1 => DungeonTile::WallBottom1,
            2 => DungeonTile::WallBottom2,
            _ => DungeonTile::WallBottom3,
        }
    }

    fn wall_left_lookup(i: usize) -> (res: DungeonTile)
        requires
            i < 3,
        ensures
            res == wall_left_lookup_spec(i as int),
    {
        match i {
            0 => DungeonTile::WallLeft0,
            1 => DungeonTile::WallLeft1,
            _ => DungeonTile::WallLeft2,
        }
    }

    fn wall_right_lookup(i: usize) -> (res: DungeonTile)
        requires
            i < 3,
        ensures
            res == wall_right_lookup_spec(i as int),
    {
        match i {
            0 => DungeonTile::WallRight0,
            1 => DungeonTile::WallRight1,
            _ => DungeonTile::WallRight2,
        }
    }
}

/// Position of a tile's image in the texture atlas, as a `(column, row)`
/// pair. The generic tiles share the image of their first sub-variant.
pub open spec fn texture_position_spec(dt: DungeonTile) -> (int, int) {
    match dt {
        DungeonTile::TopLeftCorner => (0int, 0int),
        DungeonTile::TopRightCorner => (5int, 0int),
        DungeonTile::BottomRightCorner => (5int, 4int),
        DungeonTile::BottomLeftCorner => (0int, 4int),
        DungeonTile::WallTop => (1int, 0int),
        DungeonTile::WallTop0 => (1int, 0int),
        DungeonTile::WallTop1 => (2int, 0int),
        DungeonTile::WallTop2 => (3int, 0int),
        DungeonTile::WallTop3 => (4int, 0int),
        DungeonTile::WallBottom => (1int, 4int),
        DungeonTile::WallBottom0 => (1int, 4int),
        DungeonTile::WallBottom1 => (2int, 4int),
        DungeonTile::WallBottom2 => (3int, 4int),
        DungeonTile::WallBottom3 => (4int, 4int),
        DungeonTile::WallLeft => (0int, 1int),
        DungeonTile::WallLeft0 => (0int, 1int),
        DungeonTile::WallLeft1 => (0int, 2int),
        DungeonTile::WallLeft2 => (0int, 3int),
        DungeonTile::WallRight => (5int, 1int),
        DungeonTile::WallRight0 => (5int, 1int),
        DungeonTile::WallRight1 => (5int, 2int),
        DungeonTile::WallRight2 => (5int, 3int),
        DungeonTile::TopLeftCornerOuter => (0int, 5int),
        DungeonTile::TopRightCornerOuter => (3int, 5int),
        DungeonTile::WallTopOuter => (0int, 5int),
        DungeonTile::WallTopOuter0 => (1int, 5int),
        DungeonTile::WallTopOuter1 => (2int, 5int),
        DungeonTile::Flat => (6int, 0int),
        DungeonTile::Flat0 => (6int, 0int),
        DungeonTile::Flat1 => (7int, 0int),
        DungeonTile::Flat2 => (8int, 0int),
        DungeonTile::Flat3 => (9int, 0int),
        DungeonTile::Flat4 => (6int, 1int),
        DungeonTile::Flat5 => (7int, 1int),
        DungeonTile::Flat6 => (8int, 1int),
        DungeonTile::Flat7 => (9int, 1int),
        DungeonTile::Flat8 => (6int, 2int),
        DungeonTile::Flat9 => (7int, 2int),
        DungeonTile::Flat10 => (8int, 2int),
        DungeonTile::Flat11 => (9int, 2int),
        DungeonTile::Flat0Wall => (1int, 1int),
        DungeonTile::Flat1Wall => (2int, 1int),
        DungeonTile::Flat2Wall => (3int, 1int),
        DungeonTile::Flat3Wall => (4int, 1int),
        DungeonTile::Flat4Wall => (1int, 2int),
        DungeonTile::Flat7Wall => (4int, 2int),
        DungeonTile::Flat8Wall => (1int, 3int),
        DungeonTile::Flat9Wall => (2int, 3int),
        DungeonTile::Flat10Wall => (3int, 3int),
        DungeonTile::Flat11Wall => (4int, 3int),
        DungeonTile::Void => (8int, 7int),
    }
}

impl DungeonTile {
    /// Position of a tile's image in the texture atlas, as a `(column, row)`
    /// pair in the 10 x 8 tile sheet.
    pub fn get_texture_position(dt: &DungeonTile) -> (r: (u32, u32))
        ensures
            r.0 as int == texture_position_spec(*dt).0,
            r.1 as int == texture_position_spec(*dt).1,
    {
        match dt {
            DungeonTile::TopLeftCorner => (0, 0),
            DungeonTile::TopRightCorner => (5, 0),
            DungeonTile::BottomRightCorner => (5, 4),
            DungeonTile::BottomLeftCorner => (0, 4),
            DungeonTile::WallTop => (1, 0),
            DungeonTile::WallTop0 => (1, 0),
            DungeonTile::WallTop1 => (2, 0),
            DungeonTile::WallTop2 => (3, 0),
            DungeonTile::WallTop3 => (4, 0),
            DungeonTile::WallBottom => (1, 4),
            DungeonTile::WallBottom0 => (1, 4),
            DungeonTile::WallBottom1 => (2, 4),
            DungeonTile::WallBottom2 => (3, 4),
            DungeonTile::WallBottom3 => (4, 4),
            DungeonTile::WallLeft => (0, 1),
            DungeonTile::WallLeft0 => (0, 1),
            DungeonTile::WallLeft1 => (0, 2),
            DungeonTile::WallLeft2 => (0, 3),
            DungeonTile::WallRight => (5, 1),
            DungeonTile::WallRight0 => (5, 1),
            DungeonTile::WallRight1 => (5, 2),
            DungeonTile::WallRight2 => (5, 3),
            DungeonTile::TopLeftCornerOuter => (0, 5),
            DungeonTile::TopRightCornerOuter => (3, 5),
            DungeonTile::WallTopOuter => (0, 5),
            DungeonTile::WallTopOuter0 => (1, 5),
            DungeonTile::WallTopOuter1 => (2, 5),
            DungeonTile::Flat => (6, 0),
            DungeonTile::Flat0 => (6, 0),
            DungeonTile::Flat1 => (7, 0),
            DungeonTile::Flat2 => (8, 0),
            DungeonTile::Flat3 => (9, 0),
            DungeonTile::Flat4 => (6, 1),
            DungeonTile::Flat5 => (7, 1),
            DungeonTile::Flat6 => (8, 1),
            DungeonTile::Flat7 => (9, 1),
            DungeonTile::Flat8 => (6, 2),
            DungeonTile::Flat9 => (7, 2),
            DungeonTile::Flat10 => (8, 2),
            DungeonTile::Flat11 => (9, 2),
            DungeonTile::Flat0Wall => (1, 1),
            DungeonTile::Flat1Wall => (2, 1),
            DungeonTile::Flat2Wall => (3, 1),
            DungeonTile::Flat3Wall => (4, 1),
            DungeonTile::Flat4Wall => (1, 2),
            DungeonTile::Flat7Wall => (4, 2),
            DungeonTile::Flat8Wall => (1, 3),
            DungeonTile::Flat9Wall => (2, 3),
            DungeonTile::Flat10Wall => (3, 3),
            DungeonTile::Flat11Wall => (4, 3),
            DungeonTile::Void => (8, 7),
        }
    }
}

/// A tile grid with at least one column and all columns the same height.
pub open spec fn grid_tiles_wf(t: Seq<Seq<DungeonTile>>) -> bool {
    t.len() > 0 && (forall|i: int| 0 <= i < t.len() ==> (#[trigger] t[i]).len() == t[0].len())
}

/// Law: the classification is a pure function of the grid. Any two tile grids
/// classified from the same block grid are identical, so running the
/// autotiler twice cannot disagree with itself.
pub proof fn lemma_autotile_deterministic(
    g: Seq<Seq<Block>>,
    t1: Seq<Seq<DungeonTile>>,
    t2: Seq<Seq<DungeonTile>>,
)
    requires
        t1 == autotile_spec(g),
        t2 == autotile_spec(g),
    ensures
        t1 == t2,
{
}

} // verus!
