//! Collisions between rigid bodies, as the physics engine reports them.

use vstd::prelude::*;

verus! {

/// Two entities have started or stopped touching. Entities are identified by
/// their bits.
#[derive(Clone, Copy, Debug, PartialEq, Eq, Structural)]
pub enum CollisionEvent {
    Started(u64, u64),
    Stopped(u64, u64),
}

impl CollisionEvent {
    /// Whether the two entities have started touching.
    pub open spec fn started(self) -> bool {
        self is Started
    }

    /// The two entities, in the order of the report.
    pub open spec fn pair(self) -> (u64, u64) {
        match self {
            CollisionEvent::Started(first, second) => (first, second),
            CollisionEvent::Stopped(first, second) => (first, second),
        }
    }

    /// Tells whether the two entities have started touching.
    pub fn is_started(&self) -> (started: bool)
        ensures
            started == self.started(),
    {
        match self {
            CollisionEvent::Started(_, _) => true,
            CollisionEvent::Stopped(_, _) => false,
        }
    }

    /// Gives the two entities, in the order of the report.
    pub fn rigid_body_entities(&self) -> (pair: (u64, u64))
        ensures
            pair == self.pair(),
    {
        match self {
            CollisionEvent::Started(first, second) => (*first, *second),
            CollisionEvent::Stopped(first, second) => (*first, *second),
        }
    }
}

} // verus!
