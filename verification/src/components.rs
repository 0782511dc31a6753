//! Plain data attached to game entities.

use vstd::prelude::*;

verus! {

/// A point of the playing field, in whole pixels. The origin is the centre of
/// the window, `x` grows to the right and `y` grows upwards.
#[derive(Clone, Copy, Debug, PartialEq, Eq, Structural)]
pub struct Position {
    pub x: i32,
    pub y: i32,
}

/// Remaining hit points of an entity. An entity is dead once the value is at
/// most zero.
#[derive(Clone, Copy, Debug, PartialEq, Eq, Structural)]
pub struct Health {
    pub value: i32,
}

impl Health {
    /// Whether the hit points have run out.
    pub open spec fn depleted(self) -> bool {
        self.value <= 0
    }

    /// Tells whether the hit points have run out.
    pub fn is_depleted(&self) -> (dead: bool)
        ensures
            dead == self.depleted(),
    {
        self.value <= 0
    }
}

/// Damage an entity deals to what it hits.
#[derive(Clone, Copy, Debug, PartialEq, Eq, Structural)]
pub struct DealsDamage {
    pub amount: i32,
}

/// The side an entity fights on.
#[derive(Clone, Copy, Debug, PartialEq, Eq, Structural)]
pub enum Faction {
    Player,
    Spiders,
}

} // verus!
