use crate::geometry::{
    abs_i, in_range, lemma_inflate_ge, lemma_inflate_le, normal_x_at, normal_y_at, overlap_x_at,
    overlap_y_at, penetration_at, separated_at, Aabb, Vec2, CONTACT_LIMIT, COORD_LIMIT, SCALE,
};
use crate::level::{grid_h, grid_w, grid_wf, gview, wall_at, Block, MAX_DIM};
use vstd::prelude::*;

verus! {

/// Side length of one grid tile in world units.
pub const TILE_SIZE: i64 = 96;

/// Side length of one grid tile in fixed-point subunits.
pub const TILE_WORLD: i64 = TILE_SIZE * SCALE;

// ------------------------------------------------------------------
// Model of the greedy rectangle merge.
//
// The merge scans the grid in column-major order and, at every wall cell not
// yet covered, grows a rectangle one whole side at a time in the fixed order
// left, right, top, bottom, as far as the grown rectangle keeps consisting
// of walls that no earlier rectangle covers. `vis` is the set of cells the
// rectangles emitted so far cover.
// ------------------------------------------------------------------

/// The cell is a wall that no emitted rectangle covers yet.
pub open spec fn wall_unvisited(g: Seq<Seq<Block>>, vis: Set<(int, int)>, x: int, y: int) -> bool {
    g[x][y] == Block::Wall && !vis.contains((x, y))
}

/// Every cell of `[x0, x1) x [y0, y1)` is an uncovered wall.
pub open spec fn region_ok(
    g: Seq<Seq<Block>>,
    vis: Set<(int, int)>,
    x0: int,
    y0: int,
    x1: int,
    y1: int,
) -> bool {
    forall|x: int, y: int|
        x0 <= x < x1 && y0 <= y < y1 ==> #[trigger] wall_unvisited(g, vis, x, y)
}

/// Final left edge after growing the rectangle leftward.
pub open spec fn grow_left(
    g: Seq<Seq<Block>>,
    vis: Set<(int, int)>,
    x0: int,
    y0: int,
    x1: int,
    y1: int,
) -> int
    decreases x0,
{
    if x0 - 1 >= 0 && region_ok(g, vis, x0 - 1, y0, x1, y1) {
        grow_left(g, vis, x0 - 1, y0, x1, y1)
    } else {
        x0
    }
}

/// Final right edge after growing the rectangle rightward, bounded by `w`.
pub open spec fn grow_right(
    g: Seq<Seq<Block>>,
    vis: Set<(int, int)>,
    x0: int,
    y0: int,
    x1: int,
    y1: int,
    w: int,
) -> int
    decreases w - x1,
{
    if x1 + 1 <= w && region_ok(g, vis, x0, y0, x1 + 1, y1) {
        grow_right(g, vis, x0, y0, x1 + 1, y1, w)
    } else {
        x1
    }
}

/// Final top edge after growing the rectangle upward.
pub open spec fn grow_top(
    g: Seq<Seq<Block>>,
    vis: Set<(int, int)>,
    x0: int,
    y0: int,
    x1: int,
    y1: int,
) -> int
    decreases y0,
{
    if y0 - 1 >= 0 && region_ok(g, vis, x0, y0 - 1, x1, y1) {
        grow_top(g, vis, x0, y0 - 1, x1, y1)
    } else {
        y0
    }
}

/// Final bottom edge after growing the rectangle downward, bounded by `h`.
pub open spec fn grow_bottom(
    g: Seq<Seq<Block>>,
    vis: Set<(int, int)>,
    x0: int,
    y0: int,
    x1: int,
    y1: int,
    h: int,
) -> int
    decreases h - y1,
{
    if y1 + 1 <= h && region_ok(g, vis, x0, y0, x1, y1 + 1) {
        grow_bottom(g, vis, x0, y0, x1, y1 + 1, h)
    } else {
        y1
    }
}

/// The rectangle grown from seed cell `(x, y)`: a 1x1 rectangle extended one
/// side at a time in the order left, right, top, bottom.
pub open spec fn rect_of(
    g: Seq<Seq<Block>>,
    vis: Set<(int, int)>,
    x: int,
    y: int,
    w: int,
    h: int,
) -> (int, int, int, int) {
    let l = grow_left(g, vis, x, y, x + 1, y + 1);
    let r = grow_right(g, vis, l, y, x + 1, y + 1, w);
    let t = grow_top(g, vis, l, y, r, y + 1);
    let b = grow_bottom(g, vis, l, t, r, y + 1, h);
    (l, t, r, b)
}

/// Cell `(x, y)` lies inside the half-open rectangle `r`.
pub open spec fn in_rect(r: (int, int, int, int), x: int, y: int) -> bool {
    r.0 <= x < r.2 && r.1 <= y < r.3
}

/// The set of cells a rectangle covers.
pub open spec fn rect_cells(r: (int, int, int, int)) -> Set<(int, int)> {
    Set::new(|p: (int, int)| in_rect(r, p.0, p.1))
}

pub open spec fn mark(vis: Set<(int, int)>, r: (int, int, int, int)) -> Set<(int, int)> {
    vis.union(rect_cells(r))
}

/// Rectangles emitted by the scan from position `(x, y)` on, with the cells
/// in `vis` already covered. The scan runs column by column, top to bottom
/// inside a column.
pub open spec fn scan(g: Seq<Seq<Block>>, vis: Set<(int, int)>, x: int, y: int) -> Seq<
    (int, int, int, int),
>
    decreases grid_w(g) - x, grid_h(g) - y,
{
    if x < 0 || y < 0 || x >= grid_w(g) {
        Seq::empty()
    } else if y >= grid_h(g) {
        scan(g, vis, x + 1, 0)
    } else if wall_unvisited(g, vis, x, y) {
        let r = rect_of(g, vis, x, y, grid_w(g), grid_h(g));
        seq![r] + scan(g, mark(vis, r), x, y + 1)
    } else {
        scan(g, vis, x, y + 1)
    }
}

/// All rectangles of the greedy merge of a grid.
pub open spec fn merge_spec(g: Seq<Seq<Block>>) -> Seq<(int, int, int, int)> {
    scan(g, Set::empty(), 0, 0)
}

// ------------------------------------------------------------------
// Partition statements.
// ------------------------------------------------------------------

/// The rectangle lies inside the grid and is not empty.
pub open spec fn rect_in_grid(g: Seq<Seq<Block>>, r: (int, int, int, int)) -> bool {
    0 <= r.0 < r.2 <= grid_w(g) && 0 <= r.1 < r.3 <= grid_h(g)
}

/// Every cell of the rectangle is a wall.
pub open spec fn rect_walls(g: Seq<Seq<Block>>, r: (int, int, int, int)) -> bool {
    forall|x: int, y: int| in_rect(r, x, y) ==> #[trigger] wall_at(g, x, y)
}

/// No cell lies in two of the rectangles.
pub open spec fn rects_disjoint(rs: Seq<(int, int, int, int)>) -> bool {
    forall|i: int, j: int, x: int, y: int|
        0 <= i < j < rs.len() && #[trigger] in_rect(rs[i], x, y) ==> !#[trigger] in_rect(
            rs[j],
            x,
            y,
        )
}

/// Some rectangle of the list covers the cell.
pub open spec fn covered(rs: Seq<(int, int, int, int)>, x: int, y: int) -> bool {
    exists|i: int| 0 <= i < rs.len() && #[trigger] in_rect(rs[i], x, y)
}

/// Every wall cell of the grid is covered by some rectangle.
pub open spec fn walls_covered(g: Seq<Seq<Block>>, rs: Seq<(int, int, int, int)>) -> bool {
    forall|x: int, y: int|
        0 <= x < grid_w(g) && 0 <= y < grid_h(g) && #[trigger] wall_at(g, x, y) ==> covered(
            rs,
            x,
            y,
        )
}

// ------------------------------------------------------------------
// The collision field.
// ------------------------------------------------------------------

/// Integer view of a list of cell rectangles.
pub open spec fn rects_view(rs: Seq<(i32, i32, i32, i32)>) -> Seq<(int, int, int, int)> {
    rs.map_values(|t: (i32, i32, i32, i32)| (t.0 as int, t.1 as int, t.2 as int, t.3 as int))
}

/// The rectangles partition the wall cells of the grid: each one is a
/// non-empty all-wall rectangle inside the grid, no cell lies in two of them,
/// and together they cover every wall cell.
pub open spec fn partitions_walls(g: Seq<Seq<Block>>, rs: Seq<(int, int, int, int)>) -> bool {
    &&& forall|i: int|
        0 <= i < rs.len() ==> rect_in_grid(g, #[trigger] rs[i]) && rect_walls(g, rs[i])
    &&& rects_disjoint(rs)
    &&& walls_covered(g, rs)
}

/// Every coordinate of the rectangle is at most `MAX_DIM` in magnitude.
pub open spec fn rect_small(t: (int, int, int, int)) -> bool {
    in_range(t.0, MAX_DIM as int) && in_range(t.1, MAX_DIM as int) && in_range(t.2, MAX_DIM as int)
        && in_range(t.3, MAX_DIM as int)
}

/// World-space collider box of a cell rectangle: each cell edge scaled by the
/// tile size.
pub open spec fn aabb_of_rect(t: (int, int, int, int)) -> Aabb {
    Aabb {
        min: Vec2 { x: (t.0 * TILE_WORLD) as i64, y: (t.1 * TILE_WORLD) as i64 },
        max: Vec2 { x: (t.2 * TILE_WORLD) as i64, y: (t.3 * TILE_WORLD) as i64 },
    }
}

/// The collider boxes of a grid: the greedy merge rectangles, scaled.
pub open spec fn colliders_of(g: Seq<Seq<Block>>) -> Seq<Aabb> {
    merge_spec(g).map_values(|t: (int, int, int, int)| aabb_of_rect(t))
}

/// Entity displacement after testing the colliders from index `i` on against
/// the entity box translated by the displacement accumulated so far, and
/// subtracting `normal * penetration` at every overlapping collider before
/// the next one is tested.
pub open spec fn resolve_disp(cs: Seq<Aabb>, e: Aabb, i: int, dx: int, dy: int) -> (int, int)
    decreases cs.len() - i,
{
    if i < 0 || i >= cs.len() {
        (dx, dy)
    } else {
        let c = cs[i];
        if separated_at(c, e, dx, dy) {
            resolve_disp(cs, e, i + 1, dx, dy)
        } else {
            resolve_disp(
                cs,
                e,
                i + 1,
                dx - normal_x_at(c, e, dx, dy) * penetration_at(c, e, dx, dy),
                dy - normal_y_at(c, e, dx, dy) * penetration_at(c, e, dx, dy),
            )
        }
    }
}

/// The wall rectangles of a level, scaled to world-space collider boxes.
pub struct Collision {
    pub aabbs: Vec<Aabb>,
}

impl Collision {
    /// Every collider box is ordered and lies within `COORD_LIMIT`.
    pub open spec fn wf(self) -> bool {
        forall|i: int|
            0 <= i < self.aabbs@.len() ==> (#[trigger] self.aabbs@[i]).in_limit(COORD_LIMIT as int)
                && self.aabbs@[i].ordered()
    }

    /// Builds the collision field of a level grid: merges the wall cells into
    /// rectangles and scales them into world-space collider boxes.
    pub fn new(blocks: &Vec<Vec<Block>>) -> (r: Collision)
        requires
            grid_wf(gview(*blocks)),
            grid_w(gview(*blocks)) <= MAX_DIM as int,
            grid_h(gview(*blocks)) <= MAX_DIM as int,
        ensures
            r.aabbs@ == colliders_of(gview(*blocks)),
            r.wf(),
    {
        let ghost g = gview(*blocks);
        let bs = Self::find_block_sets(blocks);
        proof {
            assert forall|i: int| 0 <= i < bs@.len() implies rect_small(
                #[trigger] rects_view(bs@)[i],
            ) by {
                assert(rect_in_grid(g, rects_view(bs@)[i]));
            }
        }
        let aabbs = Self::build_aabbs_from_block_sets(&bs);
        proof {
            assert(aabbs@ =~= colliders_of(g));
            assert forall|i: int| 0 <= i < aabbs@.len() implies (#[trigger] aabbs@[i]).in_limit(
                COORD_LIMIT as int,
            ) && aabbs@[i].ordered() by {
                assert(rect_in_grid(g, rects_view(bs@)[i]));
                assert(aabbs@[i] == aabb_of_rect(rects_view(bs@)[i]));
            }
        }
        Collision { aabbs }
    }

    /// Scales a list of cell rectangles into world-space collider boxes.
    #[verifier::loop_isolation(false)]
    pub fn build_aabbs_from_block_sets(blocks: &Vec<(i32, i32, i32, i32)>) -> (r: Vec<Aabb>)
        requires
            forall|i: int| 0 <= i < blocks@.len() ==> rect_small(#[trigger] rects_view(blocks@)[i]),
        ensures
            r@.len() == blocks@.len(),
            forall|i: int|
                0 <= i < r@.len() ==> #[trigger] r@[i] == aabb_of_rect(rects_view(blocks@)[i]),
    {
        let mut r: Vec<Aabb> = Vec::new();
        let mut i: usize = 0;
        while i < blocks.len()
            invariant
                i <= blocks@.len(),
                r@.len() == i,
                forall|k: int|
                    0 <= k < i as int ==> #[trigger] r@[k] == aabb_of_rect(rects_view(blocks@)[k]),
            decreases blocks@.len() - i,
        {
            let (x0, y0, x1, y1) = blocks[i];
            proof {
                assert(rect_small(rects_view(blocks@)[i as int]));
            }
            r.push(
                Aabb::new(
                    Vec2 { x: (x0 as i64) * TILE_WORLD, y: (y0 as i64) * TILE_WORLD },
                    Vec2 { x: (x1 as i64) * TILE_WORLD, y: (y1 as i64) * TILE_WORLD },
                ),
            );
            i += 1;
        }
        r
    }

    /// Resolves an entity against every collider, in list order: the entity
    /// box (given at `position`) is tested against each collider in turn, and
    /// at every overlap the minimum-translation correction
    /// `normal * penetration` is subtracted from the position at once, so
    /// that later colliders see the already-corrected box. Returns the
    /// corrected position.
    #[verifier::loop_isolation(false)]
    pub fn resolve(&self, entity: &Aabb, position: Vec2) -> (r: Vec2)
        requires
            self.wf(),
            entity.in_limit(COORD_LIMIT as int),
            position.in_limit(COORD_LIMIT as int),
        ensures
            r.x as int == position.x + resolve_disp(self.aabbs@, *entity, 0, 0, 0).0,
            r.y as int == position.y + resolve_disp(self.aabbs@, *entity, 0, 0, 0).1,
    {
        let ghost cs = self.aabbs@;
        let ghost e = *entity;
        let mut dx: i64 = 0;
        let mut dy: i64 = 0;
        let mut idx: usize = 0;
        while idx < self.aabbs.len()
            invariant
                idx <= cs.len(),
                in_range(e.min.x + dx, CONTACT_LIMIT as int),
                in_range(e.max.x + dx, CONTACT_LIMIT as int),
                in_range(e.min.y + dy, CONTACT_LIMIT as int),
                in_range(e.max.y + dy, CONTACT_LIMIT as int),
                in_range(dx as int, 5 * COORD_LIMIT as int),
                in_range(dy as int, 5 * COORD_LIMIT as int),
                resolve_disp(cs, e, idx as int, dx as int, dy as int) == resolve_disp(
                    cs,
                    e,
                    0,
                    0,
                    0,
                ),
            decreases cs.len() - idx,
        {
            let c = self.aabbs[idx];
            let shifted = Aabb::new(
                Vec2 { x: entity.min.x + dx, y: entity.min.y + dy },
                Vec2 { x: entity.max.x + dx, y: entity.max.y + dy },
            );
            let contact = c.check_contact(&shifted);
            if contact.intersects {
                proof {
                    let oxv = abs_i(overlap_x_at(c, e, dx as int));
                    let oyv = abs_i(overlap_y_at(c, e, dy as int));
                    lemma_inflate_ge(oxv);
                    lemma_inflate_le(oxv);
                    lemma_inflate_ge(oyv);
                    lemma_inflate_le(oyv);
                }
                dx = dx - contact.min_trans.x * contact.penetration;
                dy = dy - contact.min_trans.y * contact.penetration;
            }
            idx += 1;
        }
        Vec2 { x: position.x + dx, y: position.y + dy }
    }

    /// Greedy merge of the grid's wall cells into rectangles, scanning in
    /// column-major order and growing each rectangle left, right, top, then
    /// bottom. The result is exactly the scan model `merge_spec`, and it
    /// partitions the wall cells.
    #[verifier::loop_isolation(false)]
    pub fn find_block_sets(blocks: &Vec<Vec<Block>>) -> (r: Vec<(i32, i32, i32, i32)>)
        requires
            grid_wf(gview(*blocks)),
            grid_w(gview(*blocks)) <= MAX_DIM as int,
            grid_h(gview(*blocks)) <= MAX_DIM as int,
        ensures
            rects_view(r@) == merge_spec(gview(*blocks)),
            partitions_walls(gview(*blocks), rects_view(r@)),
    {
        let ghost g = gview(*blocks);
        let w = blocks.len();
        let h = blocks[0].len();

        let mut visited: Vec<Vec<bool>> = Vec::new();
        let mut i: usize = 0;
        while i < w
            invariant
                i <= w,
                visited@.len() == i,
                forall|k: int| 0 <= k < i ==> (#[trigger] visited@[k])@.len() == h,
                forall|k: int, l: int| 0 <= k < i && 0 <= l < h ==> !(#[trigger] visited@[k]@[l]),
            decreases w - i,
        {
            let mut row: Vec<bool> = Vec::new();
            let mut j: usize = 0;
            while j < h
                invariant
                    j <= h,
                    row@.len() == j,
                    forall|l: int| 0 <= l < j ==> !(#[trigger] row@[l]),
                decreases h - j,
            {
                row.push(false);
                j += 1;
            }
            visited.push(row);
            i += 1;
        }
        proof {
            assert(vis_view(visited) =~= Set::<(int, int)>::empty());
        }

        let mut result: Vec<(i32, i32, i32, i32)> = Vec::new();
        proof {
            assert(rects_view(result@) =~= Seq::<(int, int, int, int)>::empty());
            assert(rects_view(result@) + scan(g, vis_view(visited), 0, 0) =~= scan(
                g,
                vis_view(visited),
                0,
                0,
            ));
        }

        let mut x: usize = 0;
        while x < w
            invariant
                x <= w,
                visited@.len() == w,
                forall|k: int| 0 <= k < w ==> (#[trigger] visited@[k])@.len() == h,
                forall|i: int|
                    0 <= i < result@.len() ==> rect_in_grid(g, #[trigger] rects_view(result@)[i])
                        && rect_walls(g, rects_view(result@)[i]),
                rects_disjoint(rects_view(result@)),
                forall|a: int, b: int|
                    #[trigger] vis_view(visited).contains((a, b)) ==> covered(
                        rects_view(result@),
                        a,
                        b,
                    ),
                forall|a: int, b: int|
                    #[trigger] covered(rects_view(result@), a, b) ==> vis_view(visited).contains(
                        (a, b),
                    ),
                forall|a: int, b: int|
                    0 <= a < x as int && 0 <= b < h as int && #[trigger] wall_at(g, a, b)
                        ==> vis_view(visited).contains((a, b)),
                rects_view(result@) + scan(g, vis_view(visited), x as int, 0) == merge_spec(g),
            decreases w - x,
        {
            let mut y: usize = 0;
            while y < h
                invariant
                    y <= h,
                    visited@.len() == w,
                    forall|k: int| 0 <= k < w ==> (#[trigger] visited@[k])@.len() == h,
                    forall|i: int|
                        0 <= i < result@.len() ==> rect_in_grid(
                            g,
                            #[trigger] rects_view(result@)[i],
                        ) && rect_walls(g, rects_view(result@)[i]),
                    rects_disjoint(rects_view(result@)),
                    forall|a: int, b: int|
                        #[trigger] vis_view(visited).contains((a, b)) ==> covered(
                            rects_view(result@),
                            a,
                            b,
                        ),
                    forall|a: int, b: int|
                        #[trigger] covered(rects_view(result@), a, b) ==> vis_view(
                            visited,
                        ).contains((a, b)),
                    forall|a: int, b: int|
                        0 <= a < w as int && 0 <= b < h as int && (a < x as int || (a == x as int
                            && b < y as int)) && #[trigger] wall_at(g, a, b) ==> vis_view(
                            visited,
                        ).contains((a, b)),
                    rects_view(result@) + scan(g, vis_view(visited), x as int, y as int)
                        == merge_spec(g),
                decreases h - y,
            {
                if !visited[x][y] && matches!(blocks[x][y], Block::Wall) {
                    let ghost vsold = vis_view(visited);
                    let ghost rvold = rects_view(result@);
                    assert(wall_unvisited(g, vsold, x as int, y as int));
                    let rect = Self::find_block_sets_internal(blocks, w, h, &mut visited, x, y);
                    let ghost t = (rect.0 as int, rect.1 as int, rect.2 as int, rect.3 as int);
                    result.push((rect.0 as i32, rect.1 as i32, rect.2 as i32, rect.3 as i32));
                    proof {
                        assert(rects_view(result@) =~= rvold.push(t));
                        assert(t == rect_of(g, vsold, x as int, y as int, w as int, h as int));
                        assert(vis_view(visited) == mark(vsold, t));

                        // the new rectangle is an all-wall rectangle of uncovered cells
                        assert forall|a: int, b: int| in_rect(t, a, b) implies #[trigger] wall_at(
                            g,
                            a,
                            b,
                        ) && !vsold.contains((a, b)) by {
                            assert(wall_unvisited(g, vsold, a, b));
                        }

                        // disjoint from every earlier rectangle
                        assert forall|i: int, a: int, b: int|
                            0 <= i < rvold.len() && #[trigger] in_rect(rvold[i], a, b) implies !(
                        #[trigger] in_rect(t, a, b)) by {
                            assert(covered(rvold, a, b));
                            if in_rect(t, a, b) {
                                assert(wall_unvisited(g, vsold, a, b));
                            }
                        }
                        assert(rects_disjoint(rects_view(result@)));

                        // covered cells and the visited set stay in step
                        assert forall|a: int, b: int|
                            #[trigger] vis_view(visited).contains((a, b)) implies covered(
                            rects_view(result@),
                            a,
                            b,
                        ) by {
                            if vsold.contains((a, b)) {
                                assert(covered(rvold, a, b));
                                let i = choose|i: int|
                                    0 <= i < rvold.len() && #[trigger] in_rect(rvold[i], a, b);
                                assert(in_rect(rects_view(result@)[i], a, b));
                            } else {
                                assert(in_rect(t, a, b));
                                assert(in_rect(
                                    rects_view(result@)[rvold.len() as int],
                                    a,
                                    b,
                                ));
                            }
                        }
                        assert forall|a: int, b: int|
                            #[trigger] covered(rects_view(result@), a, b) implies vis_view(
                            visited,
                        ).contains((a, b)) by {
                            let i = choose|i: int|
                                0 <= i < rects_view(result@).len() && #[trigger] in_rect(
                                    rects_view(result@)[i],
                                    a,
                                    b,
                                );
                            if i < rvold.len() {
                                assert(in_rect(rvold[i], a, b));
                                assert(covered(rvold, a, b));
                            } else {
                                assert(in_rect(t, a, b));
                            }
                        }

                        // the scan model emits exactly this rectangle here
                        assert(scan(g, vsold, x as int, y as int) == seq![t] + scan(
                            g,
                            mark(vsold, t),
                            x as int,
                            y as int + 1,
                        ));
                        assert(rects_view(result@) + scan(g, vis_view(visited), x as int, y as int
                            + 1) =~= rvold + (seq![t] + scan(
                            g,
                            mark(vsold, t),
                            x as int,
                            y as int + 1,
                        )));

                        // the seed cell is now covered
                        assert(vis_view(visited).contains((x as int, y as int)));
                    }
                } else {
                    proof {
                        assert(!wall_unvisited(g, vis_view(visited), x as int, y as int));
                        assert(scan(g, vis_view(visited), x as int, y as int) == scan(
                            g,
                            vis_view(visited),
                            x as int,
                            y as int + 1,
                        ));
                    }
                }
                y += 1;
            }
            proof {
                assert(scan(g, vis_view(visited), x as int, h as int) == scan(
                    g,
                    vis_view(visited),
                    x as int + 1,
                    0,
                ));
            }
            x += 1;
        }
        proof {
            assert(scan(g, vis_view(visited), w as int, 0) == Seq::<(int, int, int, int)>::empty());
            assert(rects_view(result@) + scan(g, vis_view(visited), w as int, 0) =~= rects_view(
                result@,
            ));
        }
        result
    }
    /// Grows a rectangle from the uncovered wall seed `(x, y)`: one whole
    /// side at a time, in the fixed order left, right, top, bottom, as far as
    /// the grown rectangle keeps consisting of uncovered walls; then marks
    /// every cell of the final rectangle as covered.
    #[verifier::loop_isolation(false)]
    fn find_block_sets_internal(
        blocks: &Vec<Vec<Block>>,
        w: usize,
        h: usize,
        visited: &mut Vec<Vec<bool>>,
        x: usize,
        y: usize,
    ) -> (r: (usize, usize, usize, usize))
        requires
            grid_wf(gview(*blocks)),
            w == grid_w(gview(*blocks)),
            h == grid_h(gview(*blocks)),
            old(visited)@.len() == w,
            forall|i: int| 0 <= i < w ==> (#[trigger] old(visited)@[i])@.len() == h,
            x < w,
            y < h,
            wall_unvisited(gview(*blocks), vis_view(*old(visited)), x as int, y as int),
        ensures
            final(visited)@.len() == w,
            forall|i: int| 0 <= i < w ==> (#[trigger] final(visited)@[i])@.len() == h,
            r.0 as int == rect_of(
                gview(*blocks),
                vis_view(*old(visited)),
                x as int,
                y as int,
                w as int,
                h as int,
            ).0,
            r.1 as int == rect_of(
                gview(*blocks),
                vis_view(*old(visited)),
                x as int,
                y as int,
                w as int,
                h as int,
            ).1,
            r.2 as int == rect_of(
                gview(*blocks),
                vis_view(*old(visited)),
                x as int,
                y as int,
                w as int,
                h as int,
            ).2,
            r.3 as int == rect_of(
                gview(*blocks),
                vis_view(*old(visited)),
                x as int,
                y as int,
                w as int,
                h as int,
            ).3,
            region_ok(
                gview(*blocks),
                vis_view(*old(visited)),
                r.0 as int,
                r.1 as int,
                r.2 as int,
                r.3 as int,
            ),
            r.0 <= x < r.2 <= w && r.1 <= y < r.3 <= h,
            vis_view(*final(visited)) == mark(
                vis_view(*old(visited)),
                (r.0 as int, r.1 as int, r.2 as int, r.3 as int),
            ),
    {
        let ghost g = gview(*blocks);
        let ghost vs0 = vis_view(*old(visited));
        let mut x0 = x;
        let mut y0 = y;
        let mut x1 = x + 1;
        let mut y1 = y + 1;

        while x0 >= 1 && Self::is_block_set(blocks, visited, x0 - 1, y0, x1, y1)
            invariant
                x0 <= x,
                region_ok(g, vs0, x0 as int, y as int, x + 1 as int, y + 1 as int),
                grow_left(g, vs0, x0 as int, y as int, x + 1 as int, y + 1 as int) == grow_left(
                    g,
                    vs0,
                    x as int,
                    y as int,
                    x + 1 as int,
                    y + 1 as int,
                ),
            decreases x0,
        {
            x0 -= 1;
        }
        assert(x0 as int == grow_left(g, vs0, x as int, y as int, x + 1 as int, y + 1 as int));

        while x1 < w && Self::is_block_set(blocks, visited, x0, y0, x1 + 1, y1)
            invariant
                x + 1 <= x1 <= w,
                region_ok(g, vs0, x0 as int, y as int, x1 as int, y + 1 as int),
                grow_right(g, vs0, x0 as int, y as int, x1 as int, y + 1 as int, w as int)
                    == grow_right(
                    g,
                    vs0,
                    x0 as int,
                    y as int,
                    x + 1 as int,
                    y + 1 as int,
                    w as int,
                ),
            decreases w - x1,
        {
            x1 += 1;
        }
        assert(x1 as int == grow_right(
            g,
            vs0,
            x0 as int,
            y as int,
            x + 1 as int,
            y + 1 as int,
            w as int,
        ));

        while y0 >= 1 && Self::is_block_set(blocks, visited, x0, y0 - 1, x1, y1)
            invariant
                y0 <= y,
                region_ok(g, vs0, x0 as int, y0 as int, x1 as int, y + 1 as int),
                grow_top(g, vs0, x0 as int, y0 as int, x1 as int, y + 1 as int) == grow_top(
                    g,
                    vs0,
                    x0 as int,
                    y as int,
                    x1 as int,
                    y + 1 as int,
                ),
            decreases y0,
        {
            y0 -= 1;
        }
        assert(y0 as int == grow_top(g, vs0, x0 as int, y as int, x1 as int, y + 1 as int));

        while y1 < h && Self::is_block_set(blocks, visited, x0, y0, x1, y1 + 1)
            invariant
                y + 1 <= y1 <= h,
                region_ok(g, vs0, x0 as int, y0 as int, x1 as int, y1 as int),
                grow_bottom(g, vs0, x0 as int, y0 as int, x1 as int, y1 as int, h as int)
                    == grow_bottom(
                    g,
                    vs0,
                    x0 as int,
                    y0 as int,
                    x1 as int,
                    y + 1 as int,
                    h as int,
                ),
            decreases h - y1,
        {
            y1 += 1;
        }
        assert(y1 as int == grow_bottom(
            g,
            vs0,
            x0 as int,
            y0 as int,
            x1 as int,
            y + 1 as int,
            h as int,
        ));

        let mut i = x0;
        while i < x1
            invariant
                x0 <= i <= x1,
                visited@.len() == w,
                forall|k: int| 0 <= k < w ==> (#[trigger] visited@[k])@.len() == h,
                vis_view(*visited) == vs0.union(
                    Set::new(
                        |p: (int, int)|
                            x0 as int <= p.0 < i as int && y0 as int <= p.1 < y1 as int,
                    ),
                ),
            decreases x1 - i,
        {
            let mut j = y0;
            while j < y1
                invariant
                    y0 <= j <= y1,
                    i < x1,
                    visited@.len() == w,
                    forall|k: int| 0 <= k < w ==> (#[trigger] visited@[k])@.len() == h,
                    vis_view(*visited) == vs0.union(
                        Set::new(
                            |p: (int, int)|
                                (x0 as int <= p.0 < i as int && y0 as int <= p.1 < y1 as int) || (
                                p.0 == i as int && y0 as int <= p.1 < j as int),
                        ),
                    ),
                decreases y1 - j,
            {
                let ghost pre = *visited;
                visited[i][j] = true;
                proof {
                    let target = vs0.union(
                        Set::new(
                            |p: (int, int)|
                                (x0 as int <= p.0 < i as int && y0 as int <= p.1 < y1 as int) || (
                                p.0 == i as int && y0 as int <= p.1 < j + 1 as int),
                        ),
                    );
                    assert forall|p: (int, int)|
                        vis_view(*visited).contains(p) <==> target.contains(p) by {
                        if p.0 == i as int && p.1 == j as int {
                            assert(visited@[p.0]@[p.1]);
                        } else {
                            if 0 <= p.0 < w as int {
                                assert(visited@[p.0]@ == if p.0 == i as int {
                                    pre@[p.0]@.update(j as int, true)
                                } else {
                                    pre@[p.0]@
                                });
                                if 0 <= p.1 < h as int && p != (i as int, j as int) {
                                    assert(visited@[p.0]@[p.1] == pre@[p.0]@[p.1]);
                                }
                            }
                            assert(vis_view(*visited).contains(p) == vis_view(pre).contains(p));
                        }
                    }
                    assert(vis_view(*visited) =~= target);
                }
                j += 1;
            }
            proof {
                assert(vis_view(*visited) =~= vs0.union(
                    Set::new(
                        |p: (int, int)|
                            x0 as int <= p.0 < i + 1 as int && y0 as int <= p.1 < y1 as int,
                    ),
                ));
            }
            i += 1;
        }
        proof {
            assert(vis_view(*visited) =~= mark(
                vs0,
                (x0 as int, y0 as int, x1 as int, y1 as int),
            ));
        }
        (x0, y0, x1, y1)
    }

    /// Checks whether every cell of `[x0, x1) x [y0, y1)` is a wall that no
    /// earlier rectangle covers, `visited` being the covered cells.
    #[verifier::loop_isolation(false)]
    fn is_block_set(
        blocks: &Vec<Vec<Block>>,
        visited: &Vec<Vec<bool>>,
        x0: usize,
        y0: usize,
        x1: usize,
        y1: usize,
    ) -> (r: bool)
        requires
            grid_wf(gview(*blocks)),
            visited@.len() == grid_w(gview(*blocks)),
            forall|i: int|
                0 <= i < visited@.len() ==> (#[trigger] visited@[i])@.len() == grid_h(
                    gview(*blocks),
                ),
            x1 <= grid_w(gview(*blocks)),
            y1 <= grid_h(gview(*blocks)),
        ensures
            r == region_ok(
                gview(*blocks),
                vis_view(*visited),
                x0 as int,
                y0 as int,
                x1 as int,
                y1 as int,
            ),
    {
        let ghost g = gview(*blocks);
        let ghost vs = vis_view(*visited);
        let mut x = x0;
        while x < x1
            invariant
                x0 <= x,
                x <= x1 || x == x0,
                region_ok(g, vs, x0 as int, y0 as int, x as int, y1 as int),
            decreases x1 - x,
        {
            let mut y = y0;
            while y < y1
                invariant
                    y0 <= y,
                    y <= y1 || y == y0,
                    region_ok(g, vs, x0 as int, y0 as int, x as int, y1 as int),
                    forall|b: int|
                        y0 <= b < y ==> #[trigger] wall_unvisited(g, vs, x as int, b),
                decreases y1 - y,
            {
                if visited[x][y] {
                    assert(!wall_unvisited(g, vs, x as int, y as int));
                    return false;
                }
                if !matches!(blocks[x][y], Block::Wall) {
                    assert(!wall_unvisited(g, vs, x as int, y as int));
                    return false;
                }
                assert(wall_unvisited(g, vs, x as int, y as int));
                y += 1;
            }
            assert forall|a: int, b: int|
                x0 <= a < x + 1 && y0 <= b < y1 implies #[trigger] wall_unvisited(
                g,
                vs,
                a,
                b,
            ) by {}
            x += 1;
        }
        true
    }
}

/// The set of grid cells whose flag in the visited grid is set.
pub open spec fn vis_view(v: Vec<Vec<bool>>) -> Set<(int, int)> {
    Set::new(
        |p: (int, int)|
            0 <= p.0 < v@.len() && 0 <= p.1 < v@[p.0]@.len() && v@[p.0]@[p.1],
    )
}

} // verus!
