//! Ball lifecycle controller.
//!
//! The table owns exactly one ball. When a collision-start event pairs the
//! ball with the bottom-wall sensor, the ball is lost: the controller
//! recycles it in the same invocation — the old body is destroyed and a new
//! one is created at the fixed spawn point with zero velocity — so no tick
//! ever observes a table without a ball, and at most one respawn happens per
//! tick however many qualifying events arrive.

use crate::events::CollisionPair;
use crate::geom::Vec2Milli;
use vstd::prelude::*;

verus! {

/// Spawn point of the ball, in thousandths of a metre: at the foot of the
/// launcher lane.
pub const BALL_SPAWN_X_MILLI: i64 = 300;

/// See `BALL_SPAWN_X_MILLI`.
pub const BALL_SPAWN_Y_MILLI: i64 = -200;

/// Radius of the ball, in thousandths of a metre.
pub const BALL_RADIUS_MILLI: i64 = 30;

/// Restitution of the ball, in thousandths.
pub const BALL_RESTITUTION_MILLI: i64 = 700;

/// The one dynamic ball, as the controller tracks it: its body handle and
/// the transform the controller last commanded.
#[derive(Clone, Copy, Debug, PartialEq, Eq, Structural)]
pub struct BallState {
    pub body: u64,
    /// Position in thousandths of a metre.
    pub position: Vec2Milli,
    /// Velocity in thousandths of a metre per second.
    pub velocity: Vec2Milli,
}

pub open spec fn spawn_point() -> Vec2Milli {
    Vec2Milli { x: BALL_SPAWN_X_MILLI, y: BALL_SPAWN_Y_MILLI }
}

/// The state of a freshly spawned ball: at the spawn point, at rest.
pub open spec fn spawn_state(body: u64) -> BallState {
    BallState { body, position: spawn_point(), velocity: Vec2Milli { x: 0, y: 0 } }
}

pub fn ball_spawn_state(body: u64) -> (b: BallState)
    ensures
        b == spawn_state(body),
{
    BallState {
        body,
        position: Vec2Milli { x: BALL_SPAWN_X_MILLI, y: BALL_SPAWN_Y_MILLI },
        velocity: Vec2Milli::zero(),
    }
}

/// Some event of the tick pairs the ball with the bottom-wall sensor, in
/// either order.
pub open spec fn ball_lost(events: Seq<CollisionPair>, ball_body: u64, bottom_wall: u64) -> bool {
    exists|k: int| 0 <= k < events.len() && (#[trigger] events[k]).links(ball_body, bottom_wall)
}

/// What the driver must do to recycle the ball: destroy the old body and
/// create the new one with this transform.
#[derive(Clone, Copy, Debug, PartialEq, Eq, Structural)]
pub struct RespawnCommand {
    pub position: Vec2Milli,
    pub velocity: Vec2Milli,
}

/// Scan one tick's collision-start events for a loss of the ball. Exactly
/// when some event pairs the ball with the bottom-wall sensor, one respawn
/// is commanded: the new ball starts at the fixed spawn point with zero
/// velocity.
pub fn respawn_command(events: &Vec<CollisionPair>, ball_body: u64, bottom_wall: u64) -> (r:
    Option<RespawnCommand>)
    ensures
        r is Some <==> ball_lost(events@, ball_body, bottom_wall),
        r is Some ==> r == Some(
            RespawnCommand { position: spawn_point(), velocity: Vec2Milli { x: 0, y: 0 } },
        ),
{
    let mut i: usize = 0;
    while i < events.len()
        invariant
            0 <= i <= events@.len(),
            forall|k: int| 0 <= k < i ==> !(#[trigger] events@[k]).links(ball_body, bottom_wall),
        decreases events@.len() - i,
    {
        if events[i].links_bodies(ball_body, bottom_wall) {
            return Some(
                RespawnCommand {
                    position: Vec2Milli { x: BALL_SPAWN_X_MILLI, y: BALL_SPAWN_Y_MILLI },
                    velocity: Vec2Milli::zero(),
                },
            );
        }
        i += 1;
    }
    None
}

/// The ball lifecycle: it holds exactly one ball at every tick, by
/// construction, so a loss never leaves the table empty.
#[derive(Clone, Copy, Debug, PartialEq, Eq, Structural)]
pub struct BallLifecycle {
    pub ball: BallState,
}

impl BallLifecycle {
    /// One tick: if some event pairs the current ball with the bottom-wall
    /// sensor, the ball is replaced by a fresh one at the spawn point with
    /// zero velocity; otherwise nothing changes.
    pub open spec fn tick_spec(
        self,
        events: Seq<CollisionPair>,
        bottom_wall: u64,
        fresh_body: u64,
    ) -> BallLifecycle {
        if ball_lost(events, self.ball.body, bottom_wall) {
            BallLifecycle { ball: spawn_state(fresh_body) }
        } else {
            self
        }
    }

    /// React to one tick's events. `fresh_body` is the handle the driver
    /// will give the replacement body if a respawn is needed; the returned
    /// command, present exactly on loss, tells the driver to perform it.
    pub fn tick(
        &mut self,
        events: &Vec<CollisionPair>,
        bottom_wall: u64,
        fresh_body: u64,
    ) -> (r: Option<RespawnCommand>)
        ensures
            *final(self) == old(self).tick_spec(events@, bottom_wall, fresh_body),
            r is Some <==> ball_lost(events@, old(self).ball.body, bottom_wall),
            r is Some ==> r == Some(
                RespawnCommand { position: spawn_point(), velocity: Vec2Milli { x: 0, y: 0 } },
            ),
    {
        let r = respawn_command(events, self.ball.body, bottom_wall);
        match r {
            Some(_) => {
                self.ball = ball_spawn_state(fresh_body);
            },
            None => {},
        }
        r
    }
}

/// Ball respawn invariant: whenever a tick's events pair the ball with the
/// bottom-wall sensor, the table still holds exactly one ball at the start
/// of the next tick — the lifecycle state holds one ball by construction —
/// and that ball sits at the fixed spawn point with zero velocity.
pub proof fn lemma_ball_respawn(
    pre: BallLifecycle,
    events: Seq<CollisionPair>,
    bottom_wall: u64,
    fresh_body: u64,
)
    requires
        ball_lost(events, pre.ball.body, bottom_wall),
    ensures
        pre.tick_spec(events, bottom_wall, fresh_body).ball.position == spawn_point(),
        pre.tick_spec(events, bottom_wall, fresh_body).ball.velocity == (Vec2Milli {
            x: 0 as i64,
            y: 0 as i64,
        }),
        pre.tick_spec(events, bottom_wall, fresh_body).ball.body == fresh_body,
{
}

} // verus!
