//! Launcher controller.
//!
//! The spring-loaded launcher sits at the foot of the launcher lane. While
//! the charge input is held, the plunger is pulled down the launch axis a
//! fixed step per tick, and its displacement from the rest point is clamped
//! to the configured maximum pull: once at the limit, holding the input
//! longer changes nothing. On the release edge the stored displacement is
//! converted into a one-shot velocity boost for a ball docked at the
//! launcher — of the two historical behaviours (direct velocity set versus
//! spring-restitution-driven release) this controller implements the direct
//! one, a boost proportional to the displacement at release — and the
//! plunger returns to rest.

use vstd::prelude::*;

verus! {

/// Bound on every configured launcher quantity, so that a step and the boost
/// product stay far from `u64` overflow.
pub const LAUNCHER_CONFIG_LIMIT: u64 = 1000000;

/// Maximum pull distance from rest, in thousandths of a metre.
pub const LAUNCHER_MAX_PULL_MILLI: u64 = 80;

/// Pull gained per held tick, in thousandths of a metre.
pub const LAUNCHER_PULL_STEP_MILLI: u64 = 10;

/// Boost velocity per unit of stored displacement, in (thousandths of a
/// metre per second) per thousandth of a metre.
pub const LAUNCHER_BOOST_PER_MILLI: u64 = 50;

#[derive(Clone, Copy, Debug, PartialEq, Eq, Structural)]
pub struct LauncherConfig {
    /// Maximum displacement from rest, in thousandths of a metre.
    pub max_pull_milli: u64,
    /// Displacement gained per held tick, in thousandths of a metre.
    pub pull_step_milli: u64,
    /// Boost velocity per unit of displacement at release.
    pub boost_per_milli: u64,
}

impl LauncherConfig {
    pub open spec fn wf(self) -> bool {
        &&& 0 < self.pull_step_milli <= LAUNCHER_CONFIG_LIMIT
        &&& self.max_pull_milli <= LAUNCHER_CONFIG_LIMIT
        &&& self.boost_per_milli <= LAUNCHER_CONFIG_LIMIT
    }
}

#[derive(Clone, Copy, Debug, PartialEq, Eq, Structural)]
pub struct Launcher {
    pub config: LauncherConfig,
    /// Displacement of the plunger below its rest point, in thousandths of a
    /// metre.
    pub displacement_milli: u64,
    /// The charge input was held on the latest tick.
    pub charging: bool,
}

impl Launcher {
    /// The displacement never exceeds the configured maximum pull, and a
    /// launcher that is not charging rests at zero displacement.
    pub open spec fn wf(self) -> bool {
        &&& self.config.wf()
        &&& self.displacement_milli <= self.config.max_pull_milli
        &&& !self.charging ==> self.displacement_milli == 0
    }

    /// One tick of the launcher state machine, given the charge input.
    pub open spec fn tick_state_spec(self, pressed: bool) -> Launcher {
        if pressed {
            let pulled = self.displacement_milli + self.config.pull_step_milli;
            let clamped = if pulled > self.config.max_pull_milli {
                self.config.max_pull_milli as int
            } else {
                pulled
            };
            Launcher { displacement_milli: clamped as u64, charging: true, ..self }
        } else {
            Launcher { displacement_milli: 0, charging: false, ..self }
        }
    }

    /// The one-shot boost of the tick: present exactly on the release edge,
    /// proportional to the displacement stored at release.
    pub open spec fn tick_boost_spec(self, pressed: bool) -> Option<u64> {
        if !pressed && self.charging {
            Some((self.displacement_milli * self.config.boost_per_milli) as u64)
        } else {
            None
        }
    }

    /// Advance one tick. While held, pull and clamp; while released, rest.
    /// The returned boost, present exactly on the release edge, is the
    /// launch velocity for a ball docked at the launcher, in thousandths of
    /// a metre per second.
    pub fn tick(&mut self, pressed: bool) -> (boost: Option<u64>)
        requires
            old(self).wf(),
        ensures
            *final(self) == old(self).tick_state_spec(pressed),
            boost == old(self).tick_boost_spec(pressed),
            final(self).wf(),
    {
        if pressed {
            let pulled = self.displacement_milli + self.config.pull_step_milli;
            self.displacement_milli = if pulled > self.config.max_pull_milli {
                self.config.max_pull_milli
            } else {
                pulled
            };
            self.charging = true;
            None
        } else {
            let d = self.displacement_milli;
            let per = self.config.boost_per_milli;
            proof {
                assert(d * per <= LAUNCHER_CONFIG_LIMIT * LAUNCHER_CONFIG_LIMIT)
                    by (nonlinear_arith)
                    requires
                        d <= LAUNCHER_CONFIG_LIMIT,
                        per <= LAUNCHER_CONFIG_LIMIT,
                ;
            }
            let boost = if self.charging {
                Some(d * per)
            } else {
                None
            };
            self.displacement_milli = 0;
            self.charging = false;
            boost
        }
    }

    /// The state after a whole run of ticks, one input sample per tick.
    pub open spec fn run_spec(self, inputs: Seq<bool>) -> Launcher
        decreases inputs.len(),
    {
        if inputs.len() == 0 {
            self
        } else {
            self.run_spec(inputs.drop_last()).tick_state_spec(inputs.last())
        }
    }
}

/// The default launcher, at rest.
pub fn launcher_at_rest() -> (l: Launcher)
    ensures
        l == (Launcher {
            config: LauncherConfig {
                max_pull_milli: LAUNCHER_MAX_PULL_MILLI,
                pull_step_milli: LAUNCHER_PULL_STEP_MILLI,
                boost_per_milli: LAUNCHER_BOOST_PER_MILLI,
            },
            displacement_milli: 0u64,
            charging: false,
        }),
        l.wf(),
{
    Launcher {
        config: LauncherConfig {
            max_pull_milli: LAUNCHER_MAX_PULL_MILLI,
            pull_step_milli: LAUNCHER_PULL_STEP_MILLI,
            boost_per_milli: LAUNCHER_BOOST_PER_MILLI,
        },
        displacement_milli: 0,
        charging: false,
    }
}

/// Launcher travel clamp: over every run of ticks, however long the charge
/// input is held, the plunger's displacement from rest never exceeds the
/// configured maximum pull; the configuration itself never changes.
pub proof fn lemma_launcher_travel_clamp(l: Launcher, inputs: Seq<bool>)
    requires
        l.wf(),
    ensures
        l.run_spec(inputs).wf(),
        l.run_spec(inputs).displacement_milli <= l.config.max_pull_milli,
        l.run_spec(inputs).config == l.config,
    decreases inputs.len(),
{
    if inputs.len() > 0 {
        lemma_launcher_travel_clamp(l, inputs.drop_last());
    }
}

/// Command idempotence: repeating the same input once the launcher has
/// settled produces no further effect. Holding the charge at full pull
/// leaves the state unchanged and boosts nothing; repeating the released
/// input at rest does the same.
pub proof fn lemma_launcher_idempotent(l: Launcher, pressed: bool)
    requires
        l.wf(),
    ensures
        pressed && l.charging && l.displacement_milli == l.config.max_pull_milli ==> l.tick_state_spec(
            pressed,
        ) == l && l.tick_boost_spec(pressed) is None,
        !pressed && !l.charging ==> l.tick_state_spec(pressed) == l && l.tick_boost_spec(
            pressed,
        ) is None,
{
}

} // verus!
