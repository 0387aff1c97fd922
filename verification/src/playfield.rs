//! Playfield builder.
//!
//! The static geometry of the table, declared once at startup: the four
//! outer walls, the launcher-lane wall, the upper-right obstruction, the
//! three bumpers, and the initial ball. The controllers never touch these
//! again; the driver turns each description into a rigid body with the
//! collider, restitution and sensor flag given here. The bottom wall is the
//! one sensor: it triggers ball loss and gives no physical response.
//!
//! All lengths are in thousandths of a metre, restitutions in thousandths.

use crate::ball::{BALL_RADIUS_MILLI, BALL_RESTITUTION_MILLI, spawn_point, BALL_SPAWN_X_MILLI, BALL_SPAWN_Y_MILLI};
use crate::bumpers::{Bumper, Indicator};
use crate::geom::Vec2Milli;
use vstd::prelude::*;

verus! {

#[derive(Clone, Copy, Debug, PartialEq, Eq, Structural)]
pub enum BodyKind {
    Static,
    Dynamic,
}

#[derive(Clone, Copy, Debug, PartialEq, Eq, Structural)]
pub enum ShapeDesc {
    Circle { radius_milli: i64 },
    Rectangle { width_milli: i64, height_milli: i64 },
    Triangle { a: Vec2Milli, b: Vec2Milli, c: Vec2Milli },
}

/// A body creation request for the physics collaborator.
#[derive(Clone, Copy, Debug, PartialEq, Eq, Structural)]
pub struct BodyDesc {
    pub kind: BodyKind,
    pub position: Vec2Milli,
    pub shape: ShapeDesc,
    /// Restitution in thousandths; zero for plain walls.
    pub restitution_milli: i64,
    /// A sensor detects contact without a physical collision response.
    pub sensor: bool,
}

/// The bottom wall: the ball-loss sensor region below the flippers.
pub open spec fn bottom_wall_desc() -> BodyDesc {
    BodyDesc {
        kind: BodyKind::Static,
        position: Vec2Milli { x: 0, y: -640i64 },
        shape: ShapeDesc::Rectangle { width_milli: 730, height_milli: 30 },
        restitution_milli: 0,
        sensor: true,
    }
}

pub open spec fn top_wall_desc() -> BodyDesc {
    BodyDesc {
        kind: BodyKind::Static,
        position: Vec2Milli { x: 0, y: 640 },
        shape: ShapeDesc::Rectangle { width_milli: 730, height_milli: 30 },
        restitution_milli: 0,
        sensor: false,
    }
}

pub open spec fn left_wall_desc() -> BodyDesc {
    BodyDesc {
        kind: BodyKind::Static,
        position: Vec2Milli { x: -350i64, y: 0 },
        shape: ShapeDesc::Rectangle { width_milli: 30, height_milli: 1300 },
        restitution_milli: 0,
        sensor: false,
    }
}

pub open spec fn right_wall_desc() -> BodyDesc {
    BodyDesc {
        kind: BodyKind::Static,
        position: Vec2Milli { x: 350, y: 0 },
        shape: ShapeDesc::Rectangle { width_milli: 30, height_milli: 1300 },
        restitution_milli: 0,
        sensor: false,
    }
}

/// The wall separating the launcher lane from the playfield.
pub open spec fn launcher_wall_desc() -> BodyDesc {
    BodyDesc {
        kind: BodyKind::Static,
        position: Vec2Milli { x: 250, y: -360i64 },
        shape: ShapeDesc::Rectangle { width_milli: 30, height_milli: 500 },
        restitution_milli: 0,
        sensor: false,
    }
}

/// The triangular obstruction in the upper right corner, guiding a launched
/// ball onto the playfield.
pub open spec fn obstruction_desc() -> BodyDesc {
    BodyDesc {
        kind: BodyKind::Static,
        position: Vec2Milli { x: 370, y: 400 },
        shape: ShapeDesc::Triangle {
            a: Vec2Milli { x: 0, y: 0 },
            b: Vec2Milli { x: 0, y: 250 },
            c: Vec2Milli { x: -200i64, y: 250 },
        },
        restitution_milli: 0,
        sensor: false,
    }
}

/// All static walls of the table, the ball-loss sensor first. Exactly one
/// entry is a sensor: the bottom wall.
pub fn playfield_walls() -> (walls: Vec<BodyDesc>)
    ensures
        walls@.len() == 6,
        walls@[0] == bottom_wall_desc(),
        walls@[1] == top_wall_desc(),
        walls@[2] == left_wall_desc(),
        walls@[3] == right_wall_desc(),
        walls@[4] == launcher_wall_desc(),
        walls@[5] == obstruction_desc(),
        forall|i: int| 0 <= i < walls@.len() ==> (#[trigger] walls@[i]).kind is Static,
        forall|i: int| 0 <= i < walls@.len() ==> ((#[trigger] walls@[i]).sensor <==> i == 0),
{
    let mut walls: Vec<BodyDesc> = Vec::new();
    walls.push(
        BodyDesc {
            kind: BodyKind::Static,
            position: Vec2Milli { x: 0, y: -640i64 },
            shape: ShapeDesc::Rectangle { width_milli: 730, height_milli: 30 },
            restitution_milli: 0,
            sensor: true,
        },
    );
    walls.push(
        BodyDesc {
            kind: BodyKind::Static,
            position: Vec2Milli { x: 0, y: 640 },
            shape: ShapeDesc::Rectangle { width_milli: 730, height_milli: 30 },
            restitution_milli: 0,
            sensor: false,
        },
    );
    walls.push(
        BodyDesc {
            kind: BodyKind::Static,
            position: Vec2Milli { x: -350i64, y: 0 },
            shape: ShapeDesc::Rectangle { width_milli: 30, height_milli: 1300 },
            restitution_milli: 0,
            sensor: false,
        },
    );
    walls.push(
        BodyDesc {
            kind: BodyKind::Static,
            position: Vec2Milli { x: 350, y: 0 },
            shape: ShapeDesc::Rectangle { width_milli: 30, height_milli: 1300 },
            restitution_milli: 0,
            sensor: false,
        },
    );
    walls.push(
        BodyDesc {
            kind: BodyKind::Static,
            position: Vec2Milli { x: 250, y: -360i64 },
            shape: ShapeDesc::Rectangle { width_milli: 30, height_milli: 500 },
            restitution_milli: 0,
            sensor: false,
        },
    );
    walls.push(
        BodyDesc {
            kind: BodyKind::Static,
            position: Vec2Milli { x: 370, y: 400 },
            shape: ShapeDesc::Triangle {
                a: Vec2Milli { x: 0, y: 0 },
                b: Vec2Milli { x: 0, y: 250 },
                c: Vec2Milli { x: -200i64, y: 250 },
            },
            restitution_milli: 0,
            sensor: false,
        },
    );
    walls
}

/// Outer radius of a bumper body, in thousandths of a metre.
pub const BUMPER_RADIUS_MILLI: i64 = 50;

/// Radius of the indicator disc inside a bumper, in thousandths of a metre.
pub const BUMPER_INDICATOR_RADIUS_MILLI: i64 = 40;

/// Restitution of a bumper, in thousandths.
pub const BUMPER_RESTITUTION_MILLI: i64 = 700;

/// Number of bumpers in the layout.
pub const BUMPER_COUNT: usize = 3;

/// The fixed centre of bumper `i`: two side by side in the upper half and
/// one below, between them.
pub open spec fn bumper_position(i: int) -> Vec2Milli {
    if i == 0 {
        Vec2Milli { x: -170i64, y: 350 }
    } else if i == 1 {
        Vec2Milli { x: 170, y: 350 }
    } else {
        Vec2Milli { x: 0, y: 200 }
    }
}

pub fn bumper_positions() -> (positions: Vec<Vec2Milli>)
    ensures
        positions@.len() == BUMPER_COUNT,
        forall|i: int| 0 <= i < positions@.len() ==> positions@[i] == bumper_position(i),
{
    let mut positions: Vec<Vec2Milli> = Vec::new();
    positions.push(Vec2Milli { x: -170i64, y: 350 });
    positions.push(Vec2Milli { x: 170, y: 350 });
    positions.push(Vec2Milli { x: 0, y: 200 });
    positions
}

/// The body creation request for a bumper at `position`.
pub fn bumper_body_desc(position: Vec2Milli) -> (desc: BodyDesc)
    ensures
        desc == (BodyDesc {
            kind: BodyKind::Static,
            position,
            shape: ShapeDesc::Circle { radius_milli: BUMPER_RADIUS_MILLI },
            restitution_milli: BUMPER_RESTITUTION_MILLI,
            sensor: false,
        }),
{
    BodyDesc {
        kind: BodyKind::Static,
        position,
        shape: ShapeDesc::Circle { radius_milli: BUMPER_RADIUS_MILLI },
        restitution_milli: BUMPER_RESTITUTION_MILLI,
        sensor: false,
    }
}

/// The bumper controller's initial state, given the body handles the driver
/// created for the three bumpers, in layout order: every indicator starts
/// unhit and hidden.
pub fn initial_bumpers(bodies: &Vec<u64>) -> (bumpers: Vec<Bumper>)
    requires
        bodies@.len() == BUMPER_COUNT,
    ensures
        bumpers@.len() == BUMPER_COUNT,
        forall|i: int|
            0 <= i < bumpers@.len() ==> bumpers@[i] == (Bumper {
                body: bodies@[i],
                position: bumper_position(i),
                indicator: Indicator { last_hit_millis: 0u64, visible: false },
            }),
{
    let positions = bumper_positions();
    let mut bumpers: Vec<Bumper> = Vec::new();
    let mut i: usize = 0;
    while i < BUMPER_COUNT
        invariant
            0 <= i <= BUMPER_COUNT,
            bodies@.len() == BUMPER_COUNT,
            positions@.len() == BUMPER_COUNT,
            forall|k: int| 0 <= k < positions@.len() ==> positions@[k] == bumper_position(k),
            bumpers@.len() == i,
            forall|k: int|
                0 <= k < i ==> bumpers@[k] == (Bumper {
                    body: bodies@[k],
                    position: bumper_position(k),
                    indicator: Indicator { last_hit_millis: 0u64, visible: false },
                }),
        decreases BUMPER_COUNT - i,
    {
        bumpers.push(
            Bumper {
                body: bodies[i],
                position: positions[i],
                indicator: Indicator::new(),
            },
        );
        i += 1;
    }
    bumpers
}

/// The body creation request for the initial ball, at the spawn point.
pub fn ball_body_desc() -> (desc: BodyDesc)
    ensures
        desc == (BodyDesc {
            kind: BodyKind::Dynamic,
            position: spawn_point(),
            shape: ShapeDesc::Circle { radius_milli: BALL_RADIUS_MILLI },
            restitution_milli: BALL_RESTITUTION_MILLI,
            sensor: false,
        }),
{
    BodyDesc {
        kind: BodyKind::Dynamic,
        position: Vec2Milli { x: BALL_SPAWN_X_MILLI, y: BALL_SPAWN_Y_MILLI },
        shape: ShapeDesc::Circle { radius_milli: BALL_RADIUS_MILLI },
        restitution_milli: BALL_RESTITUTION_MILLI,
        sensor: false,
    }
}

/// Width of a flipper paddle, in thousandths of a metre.
pub const FLIPPER_WIDTH_MILLI: i64 = 250;

/// Height of a flipper paddle, in thousandths of a metre.
pub const FLIPPER_HEIGHT_MILLI: i64 = 50;

/// Mass of a flipper paddle, in thousandths of a kilogram.
pub const FLIPPER_MASS_MILLI: i64 = 1000;

/// Where one flipper sits and swings: the paddle's centre, the pivot's
/// offset from that centre (on the paddle's inner end, half the paddle
/// height from its edge), the paddle size, and the paddle's restitution —
/// flippers carry rubbers, so they are bouncy.
#[derive(Clone, Copy, Debug, PartialEq, Eq, Structural)]
pub struct FlipperLayout {
    pub position: Vec2Milli,
    pub pivot_offset: Vec2Milli,
    pub width_milli: i64,
    pub height_milli: i64,
    pub mass_milli: i64,
    pub restitution_milli: i64,
}

pub fn left_flipper_layout() -> (l: FlipperLayout)
    ensures
        l == (FlipperLayout {
            position: Vec2Milli { x: -200i64, y: -400i64 },
            pivot_offset: Vec2Milli { x: -100i64, y: 0 },
            width_milli: FLIPPER_WIDTH_MILLI,
            height_milli: FLIPPER_HEIGHT_MILLI,
            mass_milli: FLIPPER_MASS_MILLI,
            restitution_milli: 400i64,
        }),
{
    let pivot_x = -(FLIPPER_WIDTH_MILLI / 2) + FLIPPER_HEIGHT_MILLI / 2;
    FlipperLayout {
        position: Vec2Milli { x: -200i64, y: -400i64 },
        pivot_offset: Vec2Milli { x: pivot_x, y: 0 },
        width_milli: FLIPPER_WIDTH_MILLI,
        height_milli: FLIPPER_HEIGHT_MILLI,
        mass_milli: FLIPPER_MASS_MILLI,
        restitution_milli: 400,
    }
}

pub fn right_flipper_layout() -> (l: FlipperLayout)
    ensures
        l == (FlipperLayout {
            position: Vec2Milli { x: 100, y: -400i64 },
            pivot_offset: Vec2Milli { x: 100, y: 0 },
            width_milli: FLIPPER_WIDTH_MILLI,
            height_milli: FLIPPER_HEIGHT_MILLI,
            mass_milli: FLIPPER_MASS_MILLI,
            restitution_milli: 500i64,
        }),
{
    let pivot_x = FLIPPER_WIDTH_MILLI / 2 - FLIPPER_HEIGHT_MILLI / 2;
    FlipperLayout {
        position: Vec2Milli { x: 100, y: -400i64 },
        pivot_offset: Vec2Milli { x: pivot_x, y: 0 },
        width_milli: FLIPPER_WIDTH_MILLI,
        height_milli: FLIPPER_HEIGHT_MILLI,
        mass_milli: FLIPPER_MASS_MILLI,
        restitution_milli: 500,
    }
}

/// Where the launcher sits and how its spring behaves: a light plunger on a
/// compliant, damped distance joint anchored at the rest point, with its
/// rotation locked to the launch axis.
#[derive(Clone, Copy, Debug, PartialEq, Eq, Structural)]
pub struct LauncherLayout {
    pub position: Vec2Milli,
    pub width_milli: i64,
    pub height_milli: i64,
    /// Mass in thousandths of a kilogram; light, for a responsive spring.
    pub mass_milli: i64,
    /// Compliance of the spring joint, in millionths of a metre per newton.
    pub compliance_micro: i64,
    /// Linear damping of the spring joint, in thousandths; high, to avoid
    /// bouncing.
    pub damping_milli: i64,
    pub rotation_locked: bool,
}

pub fn launcher_layout() -> (l: LauncherLayout)
    ensures
        l == (LauncherLayout {
            position: Vec2Milli { x: 300, y: -500i64 },
            width_milli: 20i64,
            height_milli: 50i64,
            mass_milli: 200i64,
            compliance_micro: 2000i64,
            damping_milli: 20000i64,
            rotation_locked: true,
        }),
{
    LauncherLayout {
        position: Vec2Milli { x: 300, y: -500i64 },
        width_milli: 20,
        height_milli: 50,
        mass_milli: 200,
        compliance_micro: 2000,
        damping_milli: 20000,
        rotation_locked: true,
    }
}

} // verus!
