use pinball_core::ball::{BALL_RADIUS_MILLI, BALL_RESTITUTION_MILLI};
use pinball_core::geom::Vec2Milli;
use pinball_core::playfield::{
    ball_body_desc, bumper_body_desc, bumper_positions, initial_bumpers, launcher_layout,
    left_flipper_layout, playfield_walls, right_flipper_layout, BodyKind, ShapeDesc,
    BUMPER_COUNT, BUMPER_INDICATOR_RADIUS_MILLI, BUMPER_RADIUS_MILLI, BUMPER_RESTITUTION_MILLI,
};

#[test]
fn walls_cover_the_table_and_only_the_bottom_is_a_sensor() {
    let walls = playfield_walls();
    assert_eq!(walls.len(), 6);
    for (i, w) in walls.iter().enumerate() {
        assert_eq!(w.kind, BodyKind::Static);
        assert_eq!(w.sensor, i == 0);
    }
    let bottom = &walls[0];
    assert_eq!(bottom.position, Vec2Milli { x: 0, y: -640 });
    assert_eq!(bottom.shape, ShapeDesc::Rectangle { width_milli: 730, height_milli: 30 });
    assert_eq!(walls[1].position, Vec2Milli { x: 0, y: 640 });
    assert_eq!(walls[2].position, Vec2Milli { x: -350, y: 0 });
    assert_eq!(walls[3].position, Vec2Milli { x: 350, y: 0 });
    assert_eq!(walls[2].shape, ShapeDesc::Rectangle { width_milli: 30, height_milli: 1300 });
    assert_eq!(walls[4].position, Vec2Milli { x: 250, y: -360 });
    assert_eq!(walls[4].shape, ShapeDesc::Rectangle { width_milli: 30, height_milli: 500 });
    assert_eq!(walls[5].position, Vec2Milli { x: 370, y: 400 });
    assert_eq!(
        walls[5].shape,
        ShapeDesc::Triangle {
            a: Vec2Milli { x: 0, y: 0 },
            b: Vec2Milli { x: 0, y: 250 },
            c: Vec2Milli { x: -200, y: 250 },
        }
    );
}

#[test]
fn bumpers_sit_at_the_layout_positions() {
    let positions = bumper_positions();
    assert_eq!(positions.len(), BUMPER_COUNT);
    assert_eq!(positions[0], Vec2Milli { x: -170, y: 350 });
    assert_eq!(positions[1], Vec2Milli { x: 170, y: 350 });
    assert_eq!(positions[2], Vec2Milli { x: 0, y: 200 });
}

#[test]
fn bumper_bodies_are_static_bouncy_circles() {
    let desc = bumper_body_desc(Vec2Milli { x: 170, y: 350 });
    assert_eq!(desc.kind, BodyKind::Static);
    assert_eq!(desc.shape, ShapeDesc::Circle { radius_milli: BUMPER_RADIUS_MILLI });
    assert_eq!(desc.restitution_milli, BUMPER_RESTITUTION_MILLI);
    assert!(!desc.sensor);
    // The indicator disc sits inside the bumper's outline.
    assert_eq!(BUMPER_INDICATOR_RADIUS_MILLI, 40);
    assert!(BUMPER_INDICATOR_RADIUS_MILLI < BUMPER_RADIUS_MILLI);
}

#[test]
fn initial_bumpers_carry_their_bodies_and_start_unlit() {
    let bumpers = initial_bumpers(&vec![5, 6, 7]);
    assert_eq!(bumpers.len(), 3);
    let positions = bumper_positions();
    for (i, b) in bumpers.iter().enumerate() {
        assert_eq!(b.body, [5u64, 6, 7][i]);
        assert_eq!(b.position, positions[i]);
        assert_eq!(b.indicator.last_hit_millis, 0);
        assert!(!b.indicator.visible);
    }
}

#[test]
fn ball_spawns_dynamic_in_the_launcher_lane() {
    let desc = ball_body_desc();
    assert_eq!(desc.kind, BodyKind::Dynamic);
    assert_eq!(desc.position, Vec2Milli { x: 300, y: -200 });
    assert_eq!(desc.shape, ShapeDesc::Circle { radius_milli: BALL_RADIUS_MILLI });
    assert_eq!(desc.restitution_milli, BALL_RESTITUTION_MILLI);
    assert!(!desc.sensor);
}

#[test]
fn flipper_layouts_pivot_on_their_inner_ends() {
    let left = left_flipper_layout();
    let right = right_flipper_layout();
    assert_eq!(left.position, Vec2Milli { x: -200, y: -400 });
    assert_eq!(right.position, Vec2Milli { x: 100, y: -400 });
    // The pivot sits half the paddle height in from the inner edge:
    // -250/2 + 50/2 = -100, mirrored for the right paddle.
    assert_eq!(left.pivot_offset, Vec2Milli { x: -100, y: 0 });
    assert_eq!(right.pivot_offset, Vec2Milli { x: 100, y: 0 });
    assert_eq!(left.width_milli, 250);
    assert_eq!(left.height_milli, 50);
    assert_eq!(left.mass_milli, 1000);
    assert_eq!(left.restitution_milli, 400);
    assert_eq!(right.restitution_milli, 500);
}

#[test]
fn launcher_sits_at_the_lane_foot_on_a_damped_spring() {
    let l = launcher_layout();
    assert_eq!(l.position, Vec2Milli { x: 300, y: -500 });
    assert_eq!((l.width_milli, l.height_milli), (20, 50));
    assert_eq!(l.mass_milli, 200);
    assert_eq!(l.compliance_micro, 2000);
    assert_eq!(l.damping_milli, 20000);
    assert!(l.rotation_locked);
}
