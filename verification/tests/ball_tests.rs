use pinball_core::ball::{
    ball_spawn_state, respawn_command, BallLifecycle, RespawnCommand, BALL_SPAWN_X_MILLI,
    BALL_SPAWN_Y_MILLI,
};
use pinball_core::events::CollisionPair;
use pinball_core::geom::Vec2Milli;

const BALL: u64 = 1;
const BOTTOM_WALL: u64 = 2;
const BUMPER: u64 = 3;

#[test]
fn loss_event_commands_a_respawn_at_the_spawn_point() {
    let events = vec![CollisionPair { first: BALL, second: BOTTOM_WALL }];
    let cmd = respawn_command(&events, BALL, BOTTOM_WALL);
    assert_eq!(
        cmd,
        Some(RespawnCommand {
            position: Vec2Milli { x: BALL_SPAWN_X_MILLI, y: BALL_SPAWN_Y_MILLI },
            velocity: Vec2Milli { x: 0, y: 0 },
        })
    );
}

#[test]
fn loss_is_detected_in_either_participant_order() {
    let reversed = vec![CollisionPair { first: BOTTOM_WALL, second: BALL }];
    assert!(respawn_command(&reversed, BALL, BOTTOM_WALL).is_some());
}

#[test]
fn no_respawn_without_a_loss_event() {
    let events = vec![
        CollisionPair { first: BALL, second: BUMPER },
        CollisionPair { first: BUMPER, second: BOTTOM_WALL },
    ];
    assert_eq!(respawn_command(&events, BALL, BOTTOM_WALL), None);
    assert_eq!(respawn_command(&Vec::new(), BALL, BOTTOM_WALL), None);
}

#[test]
fn respawned_ball_rests_at_the_spawn_point() {
    // After a loss, the next tick starts with exactly one ball, at the fixed
    // spawn point, with zero velocity.
    let mut lifecycle = BallLifecycle { ball: ball_spawn_state(BALL) };
    lifecycle.ball.position = Vec2Milli { x: -120, y: -630 };
    lifecycle.ball.velocity = Vec2Milli { x: 40, y: -900 };

    let events = vec![CollisionPair { first: BOTTOM_WALL, second: BALL }];
    let fresh = 17;
    let cmd = lifecycle.tick(&events, BOTTOM_WALL, fresh);
    assert!(cmd.is_some());
    assert_eq!(lifecycle.ball.body, fresh);
    assert_eq!(
        lifecycle.ball.position,
        Vec2Milli { x: BALL_SPAWN_X_MILLI, y: BALL_SPAWN_Y_MILLI }
    );
    assert_eq!(lifecycle.ball.velocity, Vec2Milli { x: 0, y: 0 });
}

#[test]
fn at_most_one_respawn_per_tick() {
    // Two qualifying events in the same tick still produce one respawn: the
    // first match wins, and the remaining events name a ball that no longer
    // exists.
    let mut lifecycle = BallLifecycle { ball: ball_spawn_state(BALL) };
    let events = vec![
        CollisionPair { first: BALL, second: BOTTOM_WALL },
        CollisionPair { first: BOTTOM_WALL, second: BALL },
    ];
    let cmd = lifecycle.tick(&events, BOTTOM_WALL, 21);
    assert!(cmd.is_some());
    assert_eq!(lifecycle.ball.body, 21);

    // The replaced ball is not named by the drained events, so a second pass
    // over the same tick's queue would change nothing.
    let cmd2 = lifecycle.tick(&events, BOTTOM_WALL, 22);
    assert_eq!(cmd2, None);
    assert_eq!(lifecycle.ball.body, 21);
}

#[test]
fn unrelated_ticks_leave_the_ball_alone() {
    let mut lifecycle = BallLifecycle { ball: ball_spawn_state(BALL) };
    lifecycle.ball.position = Vec2Milli { x: 5, y: 6 };
    let before = lifecycle.ball;
    let events = vec![CollisionPair { first: BALL, second: BUMPER }];
    assert_eq!(lifecycle.tick(&events, BOTTOM_WALL, 33), None);
    assert_eq!(lifecycle.ball, before);
}
