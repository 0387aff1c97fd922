//! Bumper controller.
//!
//! The table carries three static impact bumpers. When a collision-start
//! event names a bumper, the bumper's indicator lights up, stamped with the
//! simulation clock, and if the opposite participant is the ball the
//! controller commands an instantaneous outward impulse of fixed magnitude,
//! directed from the bumper's centre toward the ball. A separate per-tick
//! pass hides every indicator whose light time has elapsed; the stamp itself
//! is kept, since a later hit overwrites it anyway.
//!
//! The commanded impulse carries the raw (unnormalized) direction vector;
//! the driver rescales it to the fixed magnitude in the solver's units. On
//! exact overlap of ball and bumper the direction would be degenerate, so no
//! impulse is commanded at all.

use crate::events::CollisionPair;
use crate::geom::Vec2Milli;
use vstd::prelude::*;

verus! {

/// How long a hit indicator stays lit, in milliseconds.
pub const INDICATOR_LIT_MILLIS: u64 = 200;

/// Magnitude of the outward impulse on the ball, in thousandths of the
/// solver's impulse unit.
pub const BUMPER_IMPULSE_MILLI: i64 = 35000;

/// The transient visual indicator of one bumper. A zero stamp means the
/// bumper was never hit; every real hit carries a positive clock value.
#[derive(Clone, Copy, Debug, PartialEq, Eq, Structural)]
pub struct Indicator {
    /// Simulation clock of the latest hit, in milliseconds; zero if none.
    pub last_hit_millis: u64,
    pub visible: bool,
}

impl Indicator {
    /// A visible indicator always carries the hit that lit it.
    pub open spec fn wf(self) -> bool {
        self.visible ==> self.last_hit_millis > 0
    }

    /// The light time of the latest hit has fully elapsed at `now_millis`.
    pub open spec fn expired(self, now_millis: u64) -> bool {
        self.last_hit_millis > 0 && now_millis >= self.last_hit_millis + INDICATOR_LIT_MILLIS
    }

    /// The indicator after the expiry pass: hidden once expired, otherwise
    /// untouched; the stamp is kept either way.
    pub open spec fn expire_spec(self, now_millis: u64) -> Indicator {
        Indicator { visible: self.visible && !self.expired(now_millis), ..self }
    }

    pub fn new() -> (ind: Indicator)
        ensures
            ind == (Indicator { last_hit_millis: 0u64, visible: false }),
            ind.wf(),
    {
        Indicator { last_hit_millis: 0, visible: false }
    }

    /// Record a hit at `now_millis`: show the indicator and restamp it. A
    /// repeat hit simply refreshes the stamp, restarting the light window.
    pub fn register_hit(&mut self, now_millis: u64)
        requires
            now_millis > 0,
        ensures
            *final(self) == (Indicator { last_hit_millis: now_millis, visible: true }),
            final(self).wf(),
    {
        self.last_hit_millis = now_millis;
        self.visible = true;
    }

    /// Hide the indicator once its light time has elapsed.
    pub fn expire(&mut self, now_millis: u64)
        requires
            old(self).last_hit_millis <= now_millis,
        ensures
            *final(self) == old(self).expire_spec(now_millis),
            old(self).wf() ==> final(self).wf(),
    {
        if self.last_hit_millis > 0 && now_millis - self.last_hit_millis >= INDICATOR_LIT_MILLIS {
            self.visible = false;
        }
    }
}

/// One static impact bumper and its indicator.
#[derive(Clone, Copy, Debug, PartialEq, Eq, Structural)]
pub struct Bumper {
    /// Handle of the bumper's rigid body.
    pub body: u64,
    /// Fixed centre position, in thousandths of a metre.
    pub position: Vec2Milli,
    pub indicator: Indicator,
}

/// An outward impulse command for the ball. The direction is the raw vector
/// from the bumper's centre to the ball; the driver normalizes it and scales
/// it to the magnitude.
#[derive(Clone, Copy, Debug, PartialEq, Eq, Structural)]
pub struct Impulse {
    pub direction: Vec2Milli,
    pub magnitude_milli: i64,
}

/// The impulse commanded for a ball at `ball_pos` by a bumper at
/// `bumper_pos`: outward along their difference, of fixed magnitude, and
/// none at all on exact overlap, where the direction would be degenerate.
pub open spec fn impulse_spec(bumper_pos: Vec2Milli, ball_pos: Vec2Milli) -> Option<Impulse> {
    if ball_pos == bumper_pos {
        None
    } else {
        Some(
            Impulse {
                direction: ball_pos.spec_sub(bumper_pos),
                magnitude_milli: BUMPER_IMPULSE_MILLI,
            },
        )
    }
}

pub fn bumper_impulse(bumper_pos: Vec2Milli, ball_pos: Vec2Milli) -> (r: Option<Impulse>)
    requires
        bumper_pos.in_bounds(),
        ball_pos.in_bounds(),
    ensures
        r == impulse_spec(bumper_pos, ball_pos),
{
    if ball_pos == bumper_pos {
        None
    } else {
        Some(Impulse { direction: ball_pos.sub(bumper_pos), magnitude_milli: BUMPER_IMPULSE_MILLI })
    }
}

/// Some event of the tick names `body`.
pub open spec fn hit_in(events: Seq<CollisionPair>, body: u64) -> bool {
    exists|k: int| 0 <= k < events.len() && (#[trigger] events[k].involves(body))
}

pub fn hit_by_any(events: &Vec<CollisionPair>, body: u64) -> (r: bool)
    ensures
        r == hit_in(events@, body),
{
    let mut i: usize = 0;
    while i < events.len()
        invariant
            0 <= i <= events@.len(),
            forall|k: int| 0 <= k < i ==> !(#[trigger] events@[k].involves(body)),
        decreases events@.len() - i,
    {
        if events[i].involves_body(body) {
            return true;
        }
        i += 1;
    }
    false
}

/// The event `e` makes bumper `b` push the ball: it names the bumper, the
/// opposite participant is the ball, and the two do not overlap exactly.
pub open spec fn emits(e: CollisionPair, b: Bumper, ball_body: u64, ball_pos: Vec2Milli) -> bool {
    &&& e.involves(b.body)
    &&& e.other(b.body) == ball_body
    &&& ball_pos != b.position
}

/// The impulse bumper `b` addresses to a ball at `ball_pos`.
pub open spec fn outward_impulse(b: Bumper, ball_pos: Vec2Milli) -> Impulse {
    Impulse { direction: ball_pos.spec_sub(b.position), magnitude_milli: BUMPER_IMPULSE_MILLI }
}

/// The impulses one event emits against the first `n` bumpers, in bumper
/// order.
pub open spec fn event_impulses_upto(
    e: CollisionPair,
    bumpers: Seq<Bumper>,
    ball_body: u64,
    ball_pos: Vec2Milli,
    n: int,
) -> Seq<Impulse>
    decreases n,
{
    if n <= 0 {
        Seq::empty()
    } else {
        event_impulses_upto(e, bumpers, ball_body, ball_pos, n - 1) + if emits(
            e,
            bumpers[n - 1],
            ball_body,
            ball_pos,
        ) {
            seq![outward_impulse(bumpers[n - 1], ball_pos)]
        } else {
            Seq::empty()
        }
    }
}

/// The impulses one tick emits: for each event in order, for each bumper in
/// order, one impulse per pairing of that bumper with the ball.
pub open spec fn tick_impulses_upto(
    events: Seq<CollisionPair>,
    bumpers: Seq<Bumper>,
    ball_body: u64,
    ball_pos: Vec2Milli,
    n: int,
) -> Seq<Impulse>
    decreases n,
{
    if n <= 0 {
        Seq::empty()
    } else {
        tick_impulses_upto(events, bumpers, ball_body, ball_pos, n - 1) + event_impulses_upto(
            events[n - 1],
            bumpers,
            ball_body,
            ball_pos,
            bumpers.len() as int,
        )
    }
}

pub open spec fn tick_impulses(
    events: Seq<CollisionPair>,
    bumpers: Seq<Bumper>,
    ball_body: u64,
    ball_pos: Vec2Milli,
) -> Seq<Impulse> {
    tick_impulses_upto(events, bumpers, ball_body, ball_pos, events.len() as int)
}

/// React to one tick's collision-start events: every bumper named by some
/// event lights its indicator, stamped `now_millis`, and every pairing of a
/// bumper with the ball commands one outward impulse. Bumpers named by no
/// event are left untouched.
pub fn handle_bumper_collisions(
    events: &Vec<CollisionPair>,
    bumpers: &mut Vec<Bumper>,
    ball_body: u64,
    ball_position: Vec2Milli,
    now_millis: u64,
) -> (impulses: Vec<Impulse>)
    requires
        now_millis > 0,
        ball_position.in_bounds(),
        forall|j: int|
            0 <= j < old(bumpers)@.len() ==> (#[trigger] old(bumpers)@[j].position).in_bounds(),
    ensures
        final(bumpers)@.len() == old(bumpers)@.len(),
        forall|j: int|
            0 <= j < old(bumpers)@.len() ==> (#[trigger] final(bumpers)@[j]).body == old(bumpers)@[j].body && final(bumpers)@[j].position == old(bumpers)@[j].position,
        forall|j: int|
            0 <= j < old(bumpers)@.len() && hit_in(events@, old(bumpers)@[j].body) ==> (
            #[trigger] final(bumpers)@[j]).indicator == (Indicator {
                last_hit_millis: now_millis,
                visible: true,
            }),
        forall|j: int|
            0 <= j < old(bumpers)@.len() && !hit_in(events@, old(bumpers)@[j].body) ==> (
            #[trigger] final(bumpers)@[j]).indicator == old(bumpers)@[j].indicator,
        impulses@ == tick_impulses(events@, old(bumpers)@, ball_body, ball_position),
{
    let ghost bumpers0 = bumpers@;
    let mut impulses: Vec<Impulse> = Vec::new();
    let mut i: usize = 0;
    while i < events.len()
        invariant
            0 <= i <= events@.len(),
            bumpers@ == bumpers0,
            ball_position.in_bounds(),
            forall|j: int| 0 <= j < bumpers0.len() ==> (#[trigger] bumpers0[j].position).in_bounds(),
            impulses@ == tick_impulses_upto(events@, bumpers0, ball_body, ball_position, i as int),
        decreases events@.len() - i,
    {
        let e = events[i];
        let mut j: usize = 0;
        while j < bumpers.len()
            invariant
                0 <= i < events@.len(),
                0 <= j <= bumpers0.len(),
                bumpers@ == bumpers0,
                e == events@[i as int],
                ball_position.in_bounds(),
                forall|k: int|
                    0 <= k < bumpers0.len() ==> (#[trigger] bumpers0[k].position).in_bounds(),
                impulses@ == tick_impulses_upto(
                    events@,
                    bumpers0,
                    ball_body,
                    ball_position,
                    i as int,
                ) + event_impulses_upto(e, bumpers0, ball_body, ball_position, j as int),
            decreases bumpers0.len() - j,
        {
            let b = bumpers[j];
            let ghost prev = impulses@;
            if e.involves_body(b.body) && e.other_body(b.body) == ball_body {
                match bumper_impulse(b.position, ball_position) {
                    Some(imp) => {
                        impulses.push(imp);
                        assert(imp == outward_impulse(bumpers0[j as int], ball_position));
                        assert(emits(e, bumpers0[j as int], ball_body, ball_position));
                    },
                    None => {
                        assert(!emits(e, bumpers0[j as int], ball_body, ball_position));
                    },
                }
            }
            proof {
                let full = tick_impulses_upto(events@, bumpers0, ball_body, ball_position, i as int);
                let evt = event_impulses_upto(e, bumpers0, ball_body, ball_position, j as int);
                let evt1 = event_impulses_upto(e, bumpers0, ball_body, ball_position, j + 1 as int);
                if emits(e, bumpers0[j as int], ball_body, ball_position) {
                    assert(evt1 == evt + seq![outward_impulse(bumpers0[j as int], ball_position)]);
                    assert(impulses@ =~= full + evt1);
                } else {
                    assert(evt1 =~= evt);
                    assert(impulses@ =~= full + evt1);
                }
            }
            j += 1;
        }
        proof {
            let full = tick_impulses_upto(events@, bumpers0, ball_body, ball_position, i as int);
            let evt = event_impulses_upto(
                e,
                bumpers0,
                ball_body,
                ball_position,
                bumpers0.len() as int,
            );
            assert(tick_impulses_upto(events@, bumpers0, ball_body, ball_position, i + 1 as int)
                == full + evt);
        }
        i += 1;
    }
    proof {
        assert(impulses@ == tick_impulses(events@, bumpers0, ball_body, ball_position));
    }
    let mut j: usize = 0;
    while j < bumpers.len()
        invariant
            0 <= j <= bumpers0.len(),
            bumpers@.len() == bumpers0.len(),
            now_millis > 0,
            forall|k: int|
                0 <= k < bumpers0.len() ==> (#[trigger] bumpers@[k]).body == bumpers0[k].body
                    && bumpers@[k].position == bumpers0[k].position,
            forall|k: int|
                0 <= k < j && hit_in(events@, bumpers0[k].body) ==> (
                #[trigger] bumpers@[k]).indicator == (Indicator {
                    last_hit_millis: now_millis,
                    visible: true,
                }),
            forall|k: int|
                0 <= k < j && !hit_in(events@, bumpers0[k].body) ==> (
                #[trigger] bumpers@[k]).indicator == bumpers0[k].indicator,
            forall|k: int| j <= k < bumpers0.len() ==> #[trigger] bumpers@[k] == bumpers0[k],
        decreases bumpers0.len() - j,
    {
        let mut b = bumpers[j];
        if hit_by_any(events, b.body) {
            b.indicator.register_hit(now_millis);
            bumpers[j] = b;
        }
        j += 1;
    }
    impulses
}

/// The per-tick expiry pass: hide every indicator whose light time has
/// elapsed at `now_millis`; stamps, bodies and positions are untouched.
pub fn hide_expired_bumper_indicators(bumpers: &mut Vec<Bumper>, now_millis: u64)
    requires
        forall|j: int|
            0 <= j < old(bumpers)@.len() ==> (#[trigger] old(bumpers)@[j].indicator).last_hit_millis <= now_millis,
    ensures
        final(bumpers)@.len() == old(bumpers)@.len(),
        forall|j: int|
            0 <= j < old(bumpers)@.len() ==> (#[trigger] final(bumpers)@[j]).body == old(bumpers)@[j].body && final(bumpers)@[j].position == old(bumpers)@[j].position && final(bumpers)@[j].indicator == old(bumpers)@[j].indicator.expire_spec(now_millis),
{
    let ghost bumpers0 = bumpers@;
    let mut j: usize = 0;
    while j < bumpers.len()
        invariant
            0 <= j <= bumpers0.len(),
            bumpers@.len() == bumpers0.len(),
            forall|k: int|
                0 <= k < bumpers0.len() ==> (#[trigger] bumpers0[k].indicator).last_hit_millis
                    <= now_millis,
            forall|k: int|
                0 <= k < j ==> (#[trigger] bumpers@[k]).body == bumpers0[k].body
                    && bumpers@[k].position == bumpers0[k].position && bumpers@[k].indicator
                    == bumpers0[k].indicator.expire_spec(now_millis),
            forall|k: int| j <= k < bumpers0.len() ==> #[trigger] bumpers@[k] == bumpers0[k],
        decreases bumpers0.len() - j,
    {
        let mut b = bumpers[j];
        b.indicator.expire(now_millis);
        bumpers[j] = b;
        j += 1;
    }
}

/// Indicator timing: after a hit at `t_hit`, the expiry pass leaves the
/// indicator visible at every clock before `t_hit + INDICATOR_LIT_MILLIS`
/// and hides it at or after that; a re-hit restamps the indicator, so the
/// same window restarts at the new hit time.
pub proof fn lemma_indicator_timing(t_hit: u64, now_millis: u64)
    requires
        0 < t_hit <= now_millis,
    ensures
        ({
            let lit = Indicator { last_hit_millis: t_hit, visible: true };
            lit.expire_spec(now_millis).visible <==> now_millis < t_hit + INDICATOR_LIT_MILLIS
        }),
{
}

/// Impulse direction: a bumper pushes a ball at a distinct position outward
/// along the line from the bumper's centre through the ball, with the fixed
/// magnitude; the commanded direction is parallel to that line (their cross
/// product vanishes) and points along it (their dot product is positive). On
/// exact overlap no impulse is commanded.
pub proof fn lemma_impulse_direction(bumper_pos: Vec2Milli, ball_pos: Vec2Milli)
    requires
        bumper_pos.in_bounds(),
        ball_pos.in_bounds(),
    ensures
        impulse_spec(bumper_pos, ball_pos) is None <==> ball_pos == bumper_pos,
        ball_pos != bumper_pos ==> impulse_spec(bumper_pos, ball_pos) == Some(
            Impulse {
                direction: ball_pos.spec_sub(bumper_pos),
                magnitude_milli: BUMPER_IMPULSE_MILLI,
            },
        ),
        ball_pos != bumper_pos ==> ball_pos.spec_sub(bumper_pos).cross(
            ball_pos.spec_sub(bumper_pos),
        ) == 0,
        ball_pos != bumper_pos ==> ball_pos.spec_sub(bumper_pos).dot(
            ball_pos.spec_sub(bumper_pos),
        ) > 0,
{
    if ball_pos != bumper_pos {
        let d = ball_pos.spec_sub(bumper_pos);
        assert(d.x != 0 || d.y != 0);
        assert(d.x * d.x + d.y * d.y > 0) by (nonlinear_arith)
            requires
                d.x != 0 || d.y != 0,
        ;
        assert(d.x * d.y - d.y * d.x == 0) by (nonlinear_arith);
    }
}

/// `imp` is the outward impulse that one of the first `n` bumpers, paired
/// with the ball by event `e`, addresses to the ball.
pub open spec fn emitted_by(
    imp: Impulse,
    e: CollisionPair,
    bumpers: Seq<Bumper>,
    ball_body: u64,
    ball_pos: Vec2Milli,
    n: int,
) -> bool {
    exists|j: int|
        0 <= j < n && emits(e, #[trigger] bumpers[j], ball_body, ball_pos) && imp
            == outward_impulse(bumpers[j], ball_pos)
}

/// `imp` is the outward impulse that some bumper at a position distinct from
/// the ball's addresses to the ball.
pub open spec fn addressed_outward(imp: Impulse, bumpers: Seq<Bumper>, ball_pos: Vec2Milli) -> bool {
    exists|j: int|
        0 <= j < bumpers.len() && ball_pos != (#[trigger] bumpers[j]).position && imp
            == outward_impulse(bumpers[j], ball_pos)
}

/// Every impulse one event emits is addressed by one of the first `n`
/// bumpers, outward toward the ball.
proof fn lemma_event_impulses_outward(
    e: CollisionPair,
    bumpers: Seq<Bumper>,
    ball_body: u64,
    ball_pos: Vec2Milli,
    n: int,
)
    requires
        0 <= n <= bumpers.len(),
    ensures
        forall|k: int|
            0 <= k < event_impulses_upto(e, bumpers, ball_body, ball_pos, n).len() ==> emitted_by(
                #[trigger] event_impulses_upto(e, bumpers, ball_body, ball_pos, n)[k],
                e,
                bumpers,
                ball_body,
                ball_pos,
                n,
            ),
    decreases n,
{
    if n > 0 {
        lemma_event_impulses_outward(e, bumpers, ball_body, ball_pos, n - 1);
        let prefix = event_impulses_upto(e, bumpers, ball_body, ball_pos, n - 1);
        let whole = event_impulses_upto(e, bumpers, ball_body, ball_pos, n);
        assert forall|k: int| 0 <= k < whole.len() implies emitted_by(
            whole[k],
            e,
            bumpers,
            ball_body,
            ball_pos,
            n,
        ) by {
            if k < prefix.len() {
                assert(whole[k] == prefix[k]);
                assert(emitted_by(prefix[k], e, bumpers, ball_body, ball_pos, n - 1));
                let j = choose|j: int|
                    0 <= j < n - 1 && emits(e, #[trigger] bumpers[j], ball_body, ball_pos)
                        && prefix[k] == outward_impulse(bumpers[j], ball_pos);
                assert(emits(e, bumpers[j], ball_body, ball_pos));
            } else {
                assert(emits(e, bumpers[n - 1], ball_body, ball_pos));
                assert(whole[k] == outward_impulse(bumpers[n - 1], ball_pos));
            }
        }
    }
}

/// Every impulse a tick emits is addressed by a bumper whose position is
/// distinct from the ball's: it points outward from that bumper's centre
/// toward the ball and carries the fixed magnitude.
pub proof fn lemma_tick_impulses_outward(
    events: Seq<CollisionPair>,
    bumpers: Seq<Bumper>,
    ball_body: u64,
    ball_pos: Vec2Milli,
)
    ensures
        forall|k: int|
            0 <= k < tick_impulses(events, bumpers, ball_body, ball_pos).len()
                ==> addressed_outward(
                #[trigger] tick_impulses(events, bumpers, ball_body, ball_pos)[k],
                bumpers,
                ball_pos,
            ),
{
    lemma_tick_impulses_outward_upto(events, bumpers, ball_body, ball_pos, events.len() as int);
}

proof fn lemma_tick_impulses_outward_upto(
    events: Seq<CollisionPair>,
    bumpers: Seq<Bumper>,
    ball_body: u64,
    ball_pos: Vec2Milli,
    n: int,
)
    requires
        0 <= n <= events.len(),
    ensures
        forall|k: int|
            0 <= k < tick_impulses_upto(events, bumpers, ball_body, ball_pos, n).len()
                ==> addressed_outward(
                #[trigger] tick_impulses_upto(events, bumpers, ball_body, ball_pos, n)[k],
                bumpers,
                ball_pos,
            ),
    decreases n,
{
    if n > 0 {
        lemma_tick_impulses_outward_upto(events, bumpers, ball_body, ball_pos, n - 1);
        let m = bumpers.len() as int;
        lemma_event_impulses_outward(events[n - 1], bumpers, ball_body, ball_pos, m);
        let prefix = tick_impulses_upto(events, bumpers, ball_body, ball_pos, n - 1);
        let evt = event_impulses_upto(events[n - 1], bumpers, ball_body, ball_pos, m);
        let whole = tick_impulses_upto(events, bumpers, ball_body, ball_pos, n);
        assert forall|k: int| 0 <= k < whole.len() implies addressed_outward(
            whole[k],
            bumpers,
            ball_pos,
        ) by {
            if k < prefix.len() {
                assert(whole[k] == prefix[k]);
                assert(addressed_outward(prefix[k], bumpers, ball_pos));
            } else {
                assert(whole[k] == evt[k - prefix.len()]);
                assert(emitted_by(evt[k - prefix.len()], events[n - 1], bumpers, ball_body, ball_pos, m));
                let j = choose|j: int|
                    0 <= j < m && emits(events[n - 1], #[trigger] bumpers[j], ball_body, ball_pos)
                        && evt[k - prefix.len()] == outward_impulse(bumpers[j], ball_pos);
                assert(ball_pos != bumpers[j].position);
            }
        }
    }
}

} // verus!
