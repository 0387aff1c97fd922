use pinball_core::bumpers::{
    bumper_impulse, handle_bumper_collisions, hide_expired_bumper_indicators, Bumper, Impulse,
    Indicator, BUMPER_IMPULSE_MILLI, INDICATOR_LIT_MILLIS,
};
use pinball_core::events::CollisionPair;
use pinball_core::geom::Vec2Milli;
use pinball_core::playfield::initial_bumpers;

const BALL: u64 = 99;
const WALL: u64 = 7;

fn table_bumpers() -> Vec<Bumper> {
    initial_bumpers(&vec![10, 11, 12])
}

fn ball_at(x: i64, y: i64) -> Vec2Milli {
    Vec2Milli { x, y }
}

#[test]
fn hit_at_five_seconds_hides_at_five_point_three() {
    // One collision-start event pairing the ball with the second bumper at
    // clock 5.0 s: its indicator stamps 5000 ms and shows; at 5.3 s, with no
    // further hit, the expiry pass hides it.
    let mut bumpers = table_bumpers();
    let events = vec![CollisionPair { first: BALL, second: 11 }];
    handle_bumper_collisions(&events, &mut bumpers, BALL, ball_at(0, 0), 5000);
    assert_eq!(bumpers[1].indicator.last_hit_millis, 5000);
    assert!(bumpers[1].indicator.visible);
    assert_eq!(bumpers[0].indicator, Indicator { last_hit_millis: 0, visible: false });
    assert_eq!(bumpers[2].indicator, Indicator { last_hit_millis: 0, visible: false });

    hide_expired_bumper_indicators(&mut bumpers, 5300);
    assert!(!bumpers[1].indicator.visible);
    assert_eq!(bumpers[1].indicator.last_hit_millis, 5000);
}

#[test]
fn indicator_window_boundaries() {
    // Visible on [T, T + 200), hidden at or after T + 200.
    let mut bumpers = table_bumpers();
    let events = vec![CollisionPair { first: 10, second: BALL }];
    handle_bumper_collisions(&events, &mut bumpers, BALL, ball_at(500, 500), 1000);
    assert!(bumpers[0].indicator.visible);

    hide_expired_bumper_indicators(&mut bumpers, 1000);
    assert!(bumpers[0].indicator.visible);
    hide_expired_bumper_indicators(&mut bumpers, 1199);
    assert!(bumpers[0].indicator.visible);
    hide_expired_bumper_indicators(&mut bumpers, 1200);
    assert!(!bumpers[0].indicator.visible);
}

#[test]
fn rehit_before_expiry_restarts_the_window() {
    let mut bumpers = table_bumpers();
    let hit = vec![CollisionPair { first: 10, second: BALL }];
    handle_bumper_collisions(&hit, &mut bumpers, BALL, ball_at(500, 500), 1000);
    // Re-hit inside the first window: the stamp refreshes to 1150.
    handle_bumper_collisions(&hit, &mut bumpers, BALL, ball_at(500, 500), 1150);
    assert_eq!(bumpers[0].indicator.last_hit_millis, 1150);
    // Past the first window but inside the restarted one: still visible.
    hide_expired_bumper_indicators(&mut bumpers, 1349);
    assert!(bumpers[0].indicator.visible);
    hide_expired_bumper_indicators(&mut bumpers, 1350);
    assert!(!bumpers[0].indicator.visible);
}

#[test]
fn expiry_leaves_unhit_indicators_alone() {
    let mut bumpers = table_bumpers();
    hide_expired_bumper_indicators(&mut bumpers, 30000);
    for b in bumpers.iter() {
        assert_eq!(b.indicator, Indicator { last_hit_millis: 0, visible: false });
    }
}

#[test]
fn impulse_is_outward_with_fixed_magnitude() {
    // Bumper at (0, 200), ball at (30, 260): the commanded direction is the
    // raw difference (30, 60) and the magnitude is the fixed one.
    let r = bumper_impulse(ball_at(0, 200), ball_at(30, 260));
    assert_eq!(
        r,
        Some(Impulse {
            direction: Vec2Milli { x: 30, y: 60 },
            magnitude_milli: BUMPER_IMPULSE_MILLI
        })
    );
    // Parallel to the difference: the cross product of the commanded
    // direction with (ball - bumper) vanishes, and their dot product is
    // positive.
    let d = r.unwrap().direction;
    assert_eq!(d.x * 60 - d.y * 30, 0);
    assert!(d.x * 30 + d.y * 60 > 0);
}

#[test]
fn impulse_on_exact_overlap_is_skipped() {
    assert_eq!(bumper_impulse(ball_at(170, 350), ball_at(170, 350)), None);
}

#[test]
fn tick_emits_one_impulse_per_ball_pairing() {
    let mut bumpers = table_bumpers();
    let ball_pos = ball_at(-100, 400);
    let events = vec![
        // Ball against the first bumper, ball reported second.
        CollisionPair { first: 10, second: BALL },
        // A contact not involving any bumper.
        CollisionPair { first: WALL, second: BALL },
        // The third bumper against something that is not the ball: the
        // indicator lights, but no impulse is commanded.
        CollisionPair { first: 12, second: WALL },
    ];
    let impulses = handle_bumper_collisions(&events, &mut bumpers, BALL, ball_pos, 2500);
    assert_eq!(impulses.len(), 1);
    assert_eq!(
        impulses[0],
        Impulse {
            direction: Vec2Milli { x: -100 - (-170), y: 400 - 350 },
            magnitude_milli: BUMPER_IMPULSE_MILLI
        }
    );
    assert!(bumpers[0].indicator.visible);
    assert!(!bumpers[1].indicator.visible);
    assert!(bumpers[2].indicator.visible);
    assert_eq!(bumpers[2].indicator.last_hit_millis, 2500);
}

#[test]
fn repeated_hits_in_one_tick_stamp_once_and_push_twice() {
    let mut bumpers = table_bumpers();
    let ball_pos = ball_at(0, 0);
    let events = vec![
        CollisionPair { first: 11, second: BALL },
        CollisionPair { first: BALL, second: 11 },
    ];
    let impulses = handle_bumper_collisions(&events, &mut bumpers, BALL, ball_pos, 4000);
    // Both events pair the same bumper with the ball: two impulse commands,
    // one refreshed indicator.
    assert_eq!(impulses.len(), 2);
    assert_eq!(impulses[0], impulses[1]);
    assert_eq!(impulses[0].direction, Vec2Milli { x: -170, y: -350 });
    assert_eq!(bumpers[1].indicator, Indicator { last_hit_millis: 4000, visible: true });
}

#[test]
fn overlapping_ball_lights_the_indicator_but_commands_no_impulse() {
    let mut bumpers = table_bumpers();
    // The ball sits exactly on the third bumper's centre.
    let ball_pos = ball_at(0, 200);
    let events = vec![CollisionPair { first: 12, second: BALL }];
    let impulses = handle_bumper_collisions(&events, &mut bumpers, BALL, ball_pos, 600);
    assert!(impulses.is_empty());
    assert_eq!(bumpers[2].indicator, Indicator { last_hit_millis: 600, visible: true });
}

#[test]
fn indicator_lit_window_is_two_hundred_milliseconds() {
    assert_eq!(INDICATOR_LIT_MILLIS, 200);
    assert_eq!(BUMPER_IMPULSE_MILLI, 35000);
}
