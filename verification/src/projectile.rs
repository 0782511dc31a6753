//! Projectiles: what they are made of, and what becomes of them when they
//! hit.

use std::collections::HashSet;
use vstd::prelude::*;
use crate::collision::CollisionEvent;

verus! {

broadcast use vstd::std_specs::hash::group_hash_axioms;

/// The elements a projectile can carry.
#[derive(Clone, Copy, Debug, PartialEq, Eq, Structural)]
pub enum Element {
    Water,
    Fire,
    Earth,
    Air,
}

/// A projectile carries one element, or two at once.
#[derive(Clone, Copy, Debug, PartialEq, Eq, Structural)]
pub enum ProjectileType {
    Single(Element),
    Compound(Element, Element),
}

/// The projectile that a collision destroys, if any: of the two entities of a
/// collision that has started, the first that is a projectile.
pub open spec fn spent(projectiles: Set<u64>, event: CollisionEvent) -> Option<u64> {
    let (first, second) = event.pair();
    if !event.started() {
        None
    } else if projectiles.contains(first) {
        Some(first)
    } else if projectiles.contains(second) {
        Some(second)
    } else {
        None
    }
}

/// The projectiles that a run of collisions destroys, in the order of the
/// collisions. One that hits twice is listed twice.
pub open spec fn all_spent(projectiles: Set<u64>, events: Seq<CollisionEvent>) -> Seq<u64>
    decreases events.len(),
{
    if events.len() == 0 {
        Seq::empty()
    } else {
        match spent(projectiles, events.last()) {
            Some(projectile) => all_spent(projectiles, events.drop_last()).push(projectile),
            None => all_spent(projectiles, events.drop_last()),
        }
    }
}

/// Finds the projectiles to remove after a run of collisions: a projectile is
/// destroyed by whatever it hits.
pub fn projectile_collision(events: &Vec<CollisionEvent>, projectiles: &HashSet<u64>) -> (despawned:
    Vec<u64>)
    ensures
        despawned@ == all_spent(projectiles@, events@),
{
    let mut despawned: Vec<u64> = Vec::new();
    let mut seen: usize = 0;
    assert(events@.take(0) =~= Seq::<CollisionEvent>::empty());
    while seen < events.len()
        invariant
            seen <= events.len(),
            despawned@ == all_spent(projectiles@, events@.take(seen as int)),
        decreases events.len() - seen,
    {
        proof {
            let next = events@.take(seen + 1);
            assert(next.drop_last() =~= events@.take(seen as int));
            assert(next.last() == events@[seen as int]);
        }
        let event = &events[seen];
        if event.is_started() {
            let (e1, e2) = event.rigid_body_entities();
            if projectiles.contains(&e1) {
                despawned.push(e1);
            } else if projectiles.contains(&e2) {
                despawned.push(e2);
            }
        }
        seen = seen + 1;
    }
    assert(events@.take(events.len() as int) =~= events@);
    despawned
}

} // verus!
