//! Collision-start events as the physics solver reports them: one unordered
//! pair of body handles per contact that began this tick.

use vstd::prelude::*;

verus! {

/// A collision-start event. The solver does not guarantee which participant
/// is reported first, so every consumer tests both orders.
#[derive(Clone, Copy, Debug, PartialEq, Eq, Structural)]
pub struct CollisionPair {
    pub first: u64,
    pub second: u64,
}

impl CollisionPair {
    /// The event has `body` on either side.
    pub open spec fn involves(self, body: u64) -> bool {
        self.first == body || self.second == body
    }

    /// The participant opposite `body`; meaningful when `involves(body)`.
    pub open spec fn other(self, body: u64) -> u64 {
        if self.first == body {
            self.second
        } else {
            self.first
        }
    }

    /// The event pairs `a` with `b`, in either order.
    pub open spec fn links(self, a: u64, b: u64) -> bool {
        ||| (self.first == a && self.second == b)
        ||| (self.first == b && self.second == a)
    }

    pub fn involves_body(&self, body: u64) -> (r: bool)
        ensures
            r == self.involves(body),
    {
        self.first == body || self.second == body
    }

    pub fn other_body(&self, body: u64) -> (r: u64)
        ensures
            r == self.other(body),
    {
        if self.first == body {
            self.second
        } else {
            self.first
        }
    }

    pub fn links_bodies(&self, a: u64, b: u64) -> (r: bool)
        ensures
            r == self.links(a, b),
    {
        (self.first == a && self.second == b) || (self.first == b && self.second == a)
    }
}

} // verus!
