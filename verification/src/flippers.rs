//! Flipper controller.
//!
//! Each flipper is a paddle swinging about a fixed pivot between two
//! configured joint angles. A boolean input signal drives it: while the
//! signal is held the paddle steps toward its actuated ("up") limit, and
//! while released it steps back toward its rest limit, clamped to the bounds
//! on both sides. Of the possible realizations (dynamic body under torque
//! against a joint limit, or a kinematic body re-oriented each tick) this
//! controller is the kinematic one: the angle is integrated directly, which
//! is deterministic and free of solver jitter near the limits. The driver
//! reads the angle each tick and re-orients the flipper body.
//!
//! The left and right flippers are mirror images: identical magnitudes,
//! opposite signs, independent inputs and state.

use vstd::math::{max, min};
use vstd::prelude::*;

verus! {

/// Angles are kept within a full turn and a margin, so that one step never
/// overflows `i64`.
pub const ANGLE_LIMIT_MRAD: i64 = 7000;

/// Upward swing from the horizontal, in milliradians (20 degrees).
pub const FLIPPER_UP_SWING_MRAD: i64 = 349;

/// Downward swing from the horizontal, in milliradians (35 degrees).
pub const FLIPPER_DOWN_SWING_MRAD: i64 = 611;

/// Angle gained per tick while the input is held, in milliradians.
pub const FLIPPER_RAISE_STEP_MRAD: i64 = 90;

/// Angle lost per tick while the input is released, in milliradians; the
/// restoring motion is weaker than the actuated one.
pub const FLIPPER_LOWER_STEP_MRAD: i64 = 45;

#[derive(Clone, Copy, Debug, PartialEq, Eq, Structural)]
pub enum FlipperSide {
    Left,
    Right,
}

#[derive(Clone, Copy, Debug, PartialEq, Eq, Structural)]
pub struct FlipperConfig {
    /// Lower joint angle bound, in milliradians.
    pub min_mrad: i64,
    /// Upper joint angle bound, in milliradians.
    pub max_mrad: i64,
    /// Step toward the actuated limit per held tick, in milliradians.
    pub raise_step_mrad: i64,
    /// Step toward the rest limit per released tick, in milliradians.
    pub lower_step_mrad: i64,
}

impl FlipperConfig {
    pub open spec fn wf(self) -> bool {
        &&& -ANGLE_LIMIT_MRAD <= self.min_mrad
        &&& self.min_mrad <= self.max_mrad
        &&& self.max_mrad <= ANGLE_LIMIT_MRAD
        &&& 0 < self.raise_step_mrad <= ANGLE_LIMIT_MRAD
        &&& 0 < self.lower_step_mrad <= ANGLE_LIMIT_MRAD
    }
}

#[derive(Clone, Copy, Debug, PartialEq, Eq, Structural)]
pub struct Flipper {
    pub side: FlipperSide,
    pub config: FlipperConfig,
    /// Current joint angle, in milliradians.
    pub angle_mrad: i64,
}

impl Flipper {
    /// The angle stays within the configured bounds.
    pub open spec fn wf(self) -> bool {
        &&& self.config.wf()
        &&& self.config.min_mrad <= self.angle_mrad <= self.config.max_mrad
    }

    /// The joint angle at the fully actuated ("up") limit. The left flipper
    /// rises toward its upper bound; the right one, mirrored, toward its
    /// lower bound.
    pub open spec fn up_limit(self) -> i64 {
        match self.side {
            FlipperSide::Left => self.config.max_mrad,
            FlipperSide::Right => self.config.min_mrad,
        }
    }

    /// The joint angle at the rest ("down") limit, opposite the actuated one.
    pub open spec fn rest_limit(self) -> i64 {
        match self.side {
            FlipperSide::Left => self.config.min_mrad,
            FlipperSide::Right => self.config.max_mrad,
        }
    }

    /// One tick of the flipper state machine: step toward the actuated limit
    /// while the input is held, toward the rest limit while released, always
    /// clamped to the configured bounds.
    pub open spec fn tick_spec(self, pressed: bool) -> Flipper {
        let next = match self.side {
            FlipperSide::Left => if pressed {
                min(self.angle_mrad + self.config.raise_step_mrad, self.config.max_mrad as int)
            } else {
                max(self.angle_mrad - self.config.lower_step_mrad, self.config.min_mrad as int)
            },
            FlipperSide::Right => if pressed {
                max(self.angle_mrad - self.config.raise_step_mrad, self.config.min_mrad as int)
            } else {
                min(self.angle_mrad + self.config.lower_step_mrad, self.config.max_mrad as int)
            },
        };
        Flipper { angle_mrad: next as i64, ..self }
    }

    pub fn tick(&mut self, pressed: bool)
        requires
            old(self).wf(),
        ensures
            *final(self) == old(self).tick_spec(pressed),
            final(self).wf(),
    {
        let cfg = self.config;
        let next: i64 = match self.side {
            FlipperSide::Left => if pressed {
                let raised = self.angle_mrad + cfg.raise_step_mrad;
                if raised < cfg.max_mrad {
                    raised
                } else {
                    cfg.max_mrad
                }
            } else {
                let lowered = self.angle_mrad - cfg.lower_step_mrad;
                if lowered > cfg.min_mrad {
                    lowered
                } else {
                    cfg.min_mrad
                }
            },
            FlipperSide::Right => if pressed {
                let raised = self.angle_mrad - cfg.raise_step_mrad;
                if raised > cfg.min_mrad {
                    raised
                } else {
                    cfg.min_mrad
                }
            } else {
                let lowered = self.angle_mrad + cfg.lower_step_mrad;
                if lowered < cfg.max_mrad {
                    lowered
                } else {
                    cfg.max_mrad
                }
            },
        };
        self.angle_mrad = next;
    }

    /// The state after a whole run of ticks, one input sample per tick.
    pub open spec fn run_spec(self, inputs: Seq<bool>) -> Flipper
        decreases inputs.len(),
    {
        if inputs.len() == 0 {
            self
        } else {
            self.run_spec(inputs.drop_last()).tick_spec(inputs.last())
        }
    }
}

/// The default left flipper: rest at the lower bound, 20 degrees of upward
/// and 35 degrees of downward swing about the horizontal spawn orientation.
pub open spec fn left_flipper_default() -> Flipper {
    Flipper {
        side: FlipperSide::Left,
        config: FlipperConfig {
            min_mrad: (-FLIPPER_DOWN_SWING_MRAD) as i64,
            max_mrad: FLIPPER_UP_SWING_MRAD,
            raise_step_mrad: FLIPPER_RAISE_STEP_MRAD,
            lower_step_mrad: FLIPPER_LOWER_STEP_MRAD,
        },
        angle_mrad: 0,
    }
}

/// The mirror image of a flipper: the opposite side, with all angles negated.
pub open spec fn mirrored(f: Flipper) -> Flipper {
    Flipper {
        side: match f.side {
            FlipperSide::Left => FlipperSide::Right,
            FlipperSide::Right => FlipperSide::Left,
        },
        config: FlipperConfig {
            min_mrad: (-f.config.max_mrad) as i64,
            max_mrad: (-f.config.min_mrad) as i64,
            raise_step_mrad: f.config.raise_step_mrad,
            lower_step_mrad: f.config.lower_step_mrad,
        },
        angle_mrad: (-f.angle_mrad) as i64,
    }
}

pub fn left_flipper() -> (f: Flipper)
    ensures
        f == left_flipper_default(),
        f.wf(),
{
    Flipper {
        side: FlipperSide::Left,
        config: FlipperConfig {
            min_mrad: -FLIPPER_DOWN_SWING_MRAD,
            max_mrad: FLIPPER_UP_SWING_MRAD,
            raise_step_mrad: FLIPPER_RAISE_STEP_MRAD,
            lower_step_mrad: FLIPPER_LOWER_STEP_MRAD,
        },
        angle_mrad: 0,
    }
}

pub fn right_flipper() -> (f: Flipper)
    ensures
        f == mirrored(left_flipper_default()),
        f.wf(),
{
    Flipper {
        side: FlipperSide::Right,
        config: FlipperConfig {
            min_mrad: -FLIPPER_UP_SWING_MRAD,
            max_mrad: FLIPPER_DOWN_SWING_MRAD,
            raise_step_mrad: FLIPPER_RAISE_STEP_MRAD,
            lower_step_mrad: FLIPPER_LOWER_STEP_MRAD,
        },
        angle_mrad: 0,
    }
}

/// For every run of ticks, the flipper's angle remains within its configured
/// bounds, and its side and configuration never change.
pub proof fn lemma_flipper_bounds(f: Flipper, inputs: Seq<bool>)
    requires
        f.wf(),
    ensures
        f.run_spec(inputs).wf(),
        f.run_spec(inputs).side == f.side,
        f.run_spec(inputs).config == f.config,
    decreases inputs.len(),
{
    if inputs.len() > 0 {
        lemma_flipper_bounds(f, inputs.drop_last());
    }
}

/// Held input moves the angle monotonically toward the actuated limit, and
/// strictly until that limit is reached; released input moves it
/// monotonically toward the rest limit, strictly until reached. Neither ever
/// oversteps its limit.
pub proof fn lemma_flipper_monotone(f: Flipper, pressed: bool)
    requires
        f.wf(),
    ensures
        pressed && f.side is Left ==> f.angle_mrad <= f.tick_spec(pressed).angle_mrad <= f.up_limit(),
        pressed && f.side is Right ==> f.up_limit() <= f.tick_spec(pressed).angle_mrad <= f.angle_mrad,
        pressed && f.angle_mrad != f.up_limit() ==> f.tick_spec(pressed).angle_mrad != f.angle_mrad,
        !pressed && f.side is Left ==> f.rest_limit() <= f.tick_spec(pressed).angle_mrad <= f.angle_mrad,
        !pressed && f.side is Right ==> f.angle_mrad <= f.tick_spec(pressed).angle_mrad <= f.rest_limit(),
        !pressed && f.angle_mrad != f.rest_limit() ==> f.tick_spec(pressed).angle_mrad != f.angle_mrad,
{
}

/// Mirror symmetry: ticking the mirror image of a flipper gives the mirror
/// image of the ticked flipper, for the same input.
pub proof fn lemma_flipper_mirror(f: Flipper, pressed: bool)
    requires
        f.wf(),
    ensures
        mirrored(f).wf(),
        mirrored(f).tick_spec(pressed) == mirrored(f.tick_spec(pressed)),
{
}

/// An input signal held for `n` ticks.
pub open spec fn held(n: nat) -> Seq<bool> {
    Seq::new(n, |i: int| true)
}

/// Holding the input for `n` ticks raises a left flipper by `n` steps, capped
/// at the upper bound: the angle first grows by the raise step each tick and
/// then stays pinned at the bound.
pub proof fn lemma_flipper_hold_closed_form(f: Flipper, n: nat)
    requires
        f.wf(),
        f.side is Left,
    ensures
        f.run_spec(held(n)).angle_mrad == min(
            f.angle_mrad + n * f.config.raise_step_mrad,
            f.config.max_mrad as int,
        ),
    decreases n,
{
    if n == 0 {
        assert(held(0) =~= Seq::<bool>::empty());
    } else {
        let prev = (n - 1) as nat;
        assert(held(n).drop_last() =~= held(prev));
        assert(held(n).last());
        lemma_flipper_hold_closed_form(f, prev);
        lemma_flipper_bounds(f, held(prev));
        assert(prev * f.config.raise_step_mrad + f.config.raise_step_mrad == n
            * f.config.raise_step_mrad) by (nonlinear_arith)
            requires
                prev == n - 1,
        ;
        assert(n * f.config.raise_step_mrad >= f.config.raise_step_mrad) by (nonlinear_arith)
            requires
                n >= 1,
                f.config.raise_step_mrad > 0,
        ;
    }
}

} // verus!
