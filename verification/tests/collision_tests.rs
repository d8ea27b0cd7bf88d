use space_shooter::collision::{
    barrier_collision, hitbox_collide, immovable_collision, standard_collision,
};
use space_shooter::components::{BarrierComponent, BarrierFacing, Motion2DComponent};

fn movable(vx: i64, vy: i64) -> Motion2DComponent {
    Motion2DComponent { velocity_x: vx, velocity_y: vy, immovable: false }
}

#[test]
fn ten_by_ten_boxes_five_apart_overlap() {
    // Two 10x10 boxes (half-extent 5) centered 5 units apart on the x-axis.
    assert!(hitbox_collide(0, 0, 5, 0, 10, 10, 10, 10, 0, 0, 0, 0));
}

#[test]
fn ten_by_ten_boxes_fifteen_apart_do_not_overlap() {
    assert!(!hitbox_collide(0, 0, 15, 0, 10, 10, 10, 10, 0, 0, 0, 0));
}

#[test]
fn touching_edges_do_not_count_as_overlap() {
    // Exactly 10 apart: the intervals only touch, and the test is strict.
    assert!(!hitbox_collide(0, 0, 10, 0, 10, 10, 10, 10, 0, 0, 0, 0));
}

#[test]
fn offsets_shift_the_boxes() {
    // 15 apart but the second box's center is pulled 6 back by its offset.
    assert!(hitbox_collide(0, 0, 15, 0, 10, 10, 10, 10, 0, 0, -6, 0));
}

#[test]
fn overlap_is_symmetric_on_concrete_inputs() {
    let cases: Vec<(i64, i64, i64, i64, i64, i64, i64, i64, i64, i64, i64, i64)> = vec![
        (0, 0, 5, 0, 10, 10, 10, 10, 0, 0, 0, 0),
        (0, 0, 15, 0, 10, 10, 10, 10, 0, 0, 0, 0),
        (-3, 7, 2, -4, 11, 9, 4, 25, 1, -2, 0, 3),
        (100, 200, 90, 180, 7, 7, 50, 3, -5, -5, 5, 5),
    ];
    for (x1, y1, x2, y2, w1, h1, w2, h2, ox1, oy1, ox2, oy2) in cases {
        assert_eq!(
            hitbox_collide(x1, y1, x2, y2, w1, h1, w2, h2, ox1, oy1, ox2, oy2),
            hitbox_collide(x2, y2, x1, y1, w2, h2, w1, h1, ox2, oy2, ox1, oy1),
        );
    }
}

#[test]
fn standard_knockback_takes_incoming_velocity_above_floor() {
    let mut m = movable(1, 2);
    standard_collision(&mut m, (10, -20), 5);
    assert_eq!(m.velocity_x, 10);
    assert_eq!(m.velocity_y, -20);
    assert!(!m.immovable);
}

#[test]
fn standard_knockback_never_falls_below_floor() {
    // A sweep of incoming velocities including zero and the smallest
    // representable nudges.
    let floor: i64 = 5;
    let cases: Vec<(i64, i64)> = vec![
        (0, 0),
        (1, -1),
        (-1, 1),
        (4, -4),
        (5, -5),
        (6, -6),
        (i64::MAX, i64::MIN),
    ];
    for (vx, vy) in cases {
        let mut m = movable(0, 0);
        standard_collision(&mut m, (vx, vy), floor);
        assert!(m.velocity_x.unsigned_abs() >= floor as u64);
        assert!(m.velocity_y.unsigned_abs() >= floor as u64);
    }
}

#[test]
fn standard_knockback_keeps_incoming_direction() {
    let mut m = movable(0, 0);
    standard_collision(&mut m, (3, -2), 5);
    assert_eq!(m.velocity_x, 5);
    assert_eq!(m.velocity_y, -5);
}

#[test]
fn immovable_knockback_reflects_and_floors() {
    let mut m = movable(0, 0);
    immovable_collision(&mut m, (10, -20), 5);
    assert_eq!(m.velocity_x, -10);
    assert_eq!(m.velocity_y, 20);

    let mut small = movable(0, 0);
    immovable_collision(&mut small, (1, 0), 5);
    assert_eq!(small.velocity_x, -5);
    assert_eq!(small.velocity_y, 5);
}

#[test]
fn immovable_knockback_never_falls_below_floor() {
    let floor: i64 = 7;
    for v in [0i64, 1, -1, 6, -6, 7, -7, 8, 1_000_000] {
        let mut m = movable(0, 0);
        immovable_collision(&mut m, (v, v), floor);
        assert!(m.velocity_x.unsigned_abs() >= floor as u64);
        assert!(m.velocity_y.unsigned_abs() >= floor as u64);
    }
}

#[test]
fn barrier_knockback_replaces_only_the_facing_axis() {
    let barrier = BarrierComponent {
        damage: 10,
        enemies_pass: false,
        knockback: 99,
        facing: BarrierFacing::Down,
    };
    let mut m = movable(12, 34);
    barrier_collision(&mut m, &barrier);
    assert_eq!(m.velocity_x, 12);
    assert_eq!(m.velocity_y, -99);

    let right = BarrierComponent {
        damage: 10,
        enemies_pass: false,
        knockback: 40,
        facing: BarrierFacing::Right,
    };
    let mut m2 = movable(12, 34);
    barrier_collision(&mut m2, &right);
    assert_eq!(m2.velocity_x, 40);
    assert_eq!(m2.velocity_y, 34);
}
