// Scenario checks of the contact-test laws: symmetry of the penetration
// depth, antiparallel normals, separation after applying the correction, and
// the empty contact for separated boxes.

use roguelike::geometry::{Aabb, AabbContact, Direction, Vec2};

fn aabb(min_x: i64, min_y: i64, max_x: i64, max_y: i64) -> Aabb {
    Aabb::new(Vec2 { x: min_x, y: min_y }, Vec2 { x: max_x, y: max_y })
}

#[test]
fn symmetry_of_penetration_and_normals() {
    let pairs = [
        (aabb(100_000, 100_000, 200_000, 200_000), aabb(150_000, 150_000, 300_000, 300_000)),
        (aabb(0, 0, 50_000, 400_000), aabb(30_000, 100_000, 90_000, 150_000)),
        (aabb(-200_000, -100_000, 0, 100_000), aabb(-40_000, -90_000, 70_000, 60_000)),
    ];
    for (a, b) in pairs {
        let ab = a.check_contact(&b);
        let ba = b.check_contact(&a);
        assert!(ab.intersects && ba.intersects);
        assert_eq!(ab.penetration, ba.penetration);
        assert_eq!(ab.min_trans.x, -ba.min_trans.x);
        assert_eq!(ab.min_trans.y, -ba.min_trans.y);
    }
}

#[test]
fn separation_after_correction() {
    let collider = aabb(100_000, 100_000, 200_000, 200_000);
    let boxes = [
        aabb(150_000, 150_000, 300_000, 300_000),
        aabb(90_000, 110_000, 210_000, 190_000),
        aabb(140_000, 30_000, 160_000, 120_000),
    ];
    for entity in boxes {
        let c = collider.check_contact(&entity);
        assert!(c.intersects);
        // position -= normal * penetration, applied to the whole box
        let shift_x = c.min_trans.x * c.penetration;
        let shift_y = c.min_trans.y * c.penetration;
        let moved = Aabb::new(
            Vec2 { x: entity.min.x - shift_x, y: entity.min.y - shift_y },
            Vec2 { x: entity.max.x - shift_x, y: entity.max.y - shift_y },
        );
        assert!(!collider.check_contact(&moved).intersects);
    }
}

#[test]
fn no_overlap_gives_empty_contact() {
    let a = aabb(0, 0, 100_000, 100_000);
    // touching along an edge: the x gap is exactly zero
    let touching = aabb(100_000, 0, 200_000, 100_000);
    // clearly apart on the y axis
    let apart = aabb(0, 300_000, 100_000, 400_000);
    for b in [touching, apart] {
        let c = a.check_contact(&b);
        assert!(!c.intersects);
        assert_eq!(c.penetration, 0);
        assert_eq!(c.min_trans, Vec2 { x: 0, y: 0 });
        assert_eq!(c, AabbContact::empty());
    }
}

#[test]
fn direction_from_velocity() {
    assert!(matches!(Direction::from_velocity(Vec2 { x: -50, y: 10 }), Direction::Left));
    assert!(matches!(Direction::from_velocity(Vec2 { x: 50, y: -10 }), Direction::Right));
    assert!(matches!(Direction::from_velocity(Vec2 { x: 10, y: -50 }), Direction::Up));
    assert!(matches!(Direction::from_velocity(Vec2 { x: 10, y: 50 }), Direction::Down));
    // below the threshold everything is Down
    assert!(matches!(Direction::from_velocity(Vec2 { x: -1, y: 0 }), Direction::Down));
    assert!(matches!(Direction::from_velocity(Vec2 { x: 0, y: 0 }), Direction::Down));
    // sideways motion that does not dominate falls back to up or down
    assert!(matches!(Direction::from_velocity(Vec2 { x: -50, y: -60 }), Direction::Up));
}
