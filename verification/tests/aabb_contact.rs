// Separating-axis contact tests. Coordinates are fixed-point subunits:
// `SCALE` (10_000) subunits are one world unit.

use roguelike::geometry::{Aabb, AabbContact, Vec2, SCALE};

fn aabb(min_x: i64, min_y: i64, max_x: i64, max_y: i64) -> Aabb {
    Aabb::new(
        Vec2 { x: min_x * SCALE, y: min_y * SCALE },
        Vec2 { x: max_x * SCALE, y: max_y * SCALE },
    )
}

#[test]
fn test_no_intersection_case1() {
    let a = aabb(10, 10, 20, 20);
    let b = aabb(20, 20, 30, 30);
    assert_eq!(a.check_contact(&b), AabbContact::empty());
    assert_eq!(b.check_contact(&a), AabbContact::empty());
}

#[test]
fn test_no_intersection_case2() {
    let a = aabb(10, 10, 20, 20);
    let b = aabb(11, 20, 19, 30);
    assert_eq!(a.check_contact(&b), AabbContact::empty());
    assert_eq!(b.check_contact(&a), AabbContact::empty());
}

#[test]
fn test_no_intersection_case3() {
    let a = aabb(10, 10, 20, 20);
    let b = aabb(20, 11, 30, 19);
    assert_eq!(a.check_contact(&b), AabbContact::empty());
    assert_eq!(b.check_contact(&a), AabbContact::empty());
}

#[test]
fn test_intersection_case1() {
    let a = aabb(10, 10, 20, 20);
    let b = aabb(15, 15, 30, 30);
    // penetration 5.005 units: the 5-unit overlap inflated by 1.001
    assert_eq!(a.check_contact(&b), AabbContact::new(50_050, Vec2 { x: -1, y: 0 }));
    assert_eq!(b.check_contact(&a), AabbContact::new(50_050, Vec2 { x: 1, y: 0 }));
}

#[test]
fn test_intersection_case2() {
    let a = aabb(10, 10, 20, 20);
    // b spans 18.5..30 vertically: a 1.5-unit overlap on the y axis
    let b = Aabb::new(Vec2 { x: 110_000, y: 185_000 }, Vec2 { x: 190_000, y: 300_000 });
    // penetration 1.5015 units
    assert_eq!(a.check_contact(&b), AabbContact::new(15_015, Vec2 { x: 0, y: -1 }));
    assert_eq!(b.check_contact(&a), AabbContact::new(15_015, Vec2 { x: 0, y: 1 }));
}

#[test]
fn test_intersection_case3() {
    let a = aabb(10, 10, 20, 20);
    // b spans 17.5..30 horizontally: a 2.5-unit overlap on the x axis
    let b = Aabb::new(Vec2 { x: 175_000, y: 110_000 }, Vec2 { x: 300_000, y: 190_000 });
    // penetration 2.5025 units
    assert_eq!(a.check_contact(&b), AabbContact::new(25_025, Vec2 { x: -1, y: 0 }));
    assert_eq!(b.check_contact(&a), AabbContact::new(25_025, Vec2 { x: 1, y: 0 }));
}

#[test]
fn test_aabb_no_intersection_case1() {
    let a = aabb(10, 10, 20, 20);
    let b = aabb(20, 20, 30, 30);
    assert_eq!(a.check_contact(&b), AabbContact::empty());
    assert_eq!(b.check_contact(&a), AabbContact::empty());
}

#[test]
fn test_aabb_no_intersection_case2() {
    let a = aabb(10, 10, 20, 20);
    let b = aabb(11, 20, 19, 30);
    assert_eq!(a.check_contact(&b), AabbContact::empty());
    assert_eq!(b.check_contact(&a), AabbContact::empty());
}

#[test]
fn test_aabb_no_intersection_case3() {
    let a = aabb(10, 10, 20, 20);
    let b = aabb(20, 11, 30, 19);
    assert_eq!(a.check_contact(&b), AabbContact::empty());
    assert_eq!(b.check_contact(&a), AabbContact::empty());
}

#[test]
fn test_aabb_intersection_case1() {
    let a = aabb(10, 10, 20, 20);
    let b = aabb(15, 15, 30, 30);
    assert_eq!(a.check_contact(&b), AabbContact::new(50_050, Vec2 { x: -1, y: 0 }));
    assert_eq!(b.check_contact(&a), AabbContact::new(50_050, Vec2 { x: 1, y: 0 }));
}

#[test]
fn test_aabb_intersection_case2() {
    let a = aabb(10, 10, 20, 20);
    let b = Aabb::new(Vec2 { x: 110_000, y: 185_000 }, Vec2 { x: 190_000, y: 300_000 });
    assert_eq!(a.check_contact(&b), AabbContact::new(15_015, Vec2 { x: 0, y: -1 }));
    assert_eq!(b.check_contact(&a), AabbContact::new(15_015, Vec2 { x: 0, y: 1 }));
}

#[test]
fn test_aabb_intersection_case3() {
    let a = aabb(10, 10, 20, 20);
    let b = Aabb::new(Vec2 { x: 175_000, y: 110_000 }, Vec2 { x: 300_000, y: 190_000 });
    assert_eq!(a.check_contact(&b), AabbContact::new(25_025, Vec2 { x: -1, y: 0 }));
    assert_eq!(b.check_contact(&a), AabbContact::new(25_025, Vec2 { x: 1, y: 0 }));
}
