//! Health: who dies, and what a touch costs.

use std::collections::HashMap;
use vstd::prelude::*;
use crate::collision::CollisionEvent;
use crate::components::{DealsDamage, Faction, Health};

verus! {

broadcast use vstd::std_specs::hash::group_hash_axioms;

/// Damage an entity deals to what it touches.
pub type DealsContactDamage = DealsDamage;

/// Marks an entity whose death is to be announced.
#[derive(Clone, Copy, Debug, PartialEq, Eq, Structural)]
pub struct NotifyDeath;

/// The announcement that an entity died.
#[derive(Clone, Copy, Debug, PartialEq, Eq, Structural)]
pub struct OnDeathEvent {
    pub entity: u64,
}

/// An entity that can die: its bits, its health, and whether its death is to
/// be announced.
#[derive(Clone, Copy, Debug, PartialEq, Eq, Structural)]
pub struct Mortal {
    pub entity: u64,
    pub health: Health,
    pub notify: Option<NotifyDeath>,
}

/// What the dead leave behind: the entities to remove and the deaths to
/// announce, each in the order in which the dead were found.
#[derive(Debug, PartialEq, Eq)]
pub struct DeathToll {
    pub despawned: Vec<u64>,
    pub announced: Vec<OnDeathEvent>,
}

/// The entities among `mortals` whose health has run out, in order.
pub open spec fn dead(mortals: Seq<Mortal>) -> Seq<u64>
    decreases mortals.len(),
{
    if mortals.len() == 0 {
        Seq::empty()
    } else if mortals.last().health.depleted() {
        dead(mortals.drop_last()).push(mortals.last().entity)
    } else {
        dead(mortals.drop_last())
    }
}

/// The announcements for those among `mortals` whose health has run out and
/// whose death is to be announced, in order.
pub open spec fn announcements(mortals: Seq<Mortal>) -> Seq<OnDeathEvent>
    decreases mortals.len(),
{
    if mortals.len() == 0 {
        Seq::empty()
    } else if mortals.last().health.depleted() && mortals.last().notify is Some {
        announcements(mortals.drop_last()).push(OnDeathEvent { entity: mortals.last().entity })
    } else {
        announcements(mortals.drop_last())
    }
}

/// Finds the entities whose health has reached zero: each is to be removed,
/// and those that ask for it have their death announced.
pub fn death_system(mortals: &Vec<Mortal>) -> (toll: DeathToll)
    ensures
        toll.despawned@ == dead(mortals@),
        toll.announced@ == announcements(mortals@),
{
    let mut despawned: Vec<u64> = Vec::new();
    let mut announced: Vec<OnDeathEvent> = Vec::new();
    let mut seen: usize = 0;
    assert(mortals@.take(0) =~= Seq::<Mortal>::empty());
    while seen < mortals.len()
        invariant
            seen <= mortals.len(),
            despawned@ == dead(mortals@.take(seen as int)),
            announced@ == announcements(mortals@.take(seen as int)),
        decreases mortals.len() - seen,
    {
        let mortal = &mortals[seen];
        proof {
            let next = mortals@.take(seen + 1);
            assert(next.drop_last() =~= mortals@.take(seen as int));
            assert(next.last() == mortals@[seen as int]);
        }
        if mortal.health.value <= 0 {
            despawned.push(mortal.entity);
            if mortal.notify.is_some() {
                announced.push(OnDeathEvent { entity: mortal.entity });
            }
        }
        seen = seen + 1;
    }
    assert(mortals@.take(mortals.len() as int) =~= mortals@);
    DeathToll { despawned, announced }
}

/// Who is hurt by a collision, and by how much: of the two entities, the
/// first that has health is the target, and it is hurt if the other one deals
/// damage for the player. Collisions that have stopped hurt nobody.
pub open spec fn blow(
    healthy: Map<u64, Health>,
    dealers: Map<u64, (Faction, DealsContactDamage)>,
    event: CollisionEvent,
) -> Option<(u64, int)> {
    let (first, second) = event.pair();
    if !event.started() {
        None
    } else if healthy.contains_key(first) {
        if dealers.contains_key(second) && dealers[second].0 == Faction::Player {
            Some((first, dealers[second].1.amount as int))
        } else {
            None
        }
    } else if healthy.contains_key(second) {
        if dealers.contains_key(first) && dealers[first].0 == Faction::Player {
            Some((second, dealers[first].1.amount as int))
        } else {
            None
        }
    } else {
        None
    }
}

/// The health that is left after a blow.
pub open spec fn remaining(health: Health, damage: int) -> int {
    health.value - damage
}

/// The health of everyone after one collision.
pub open spec fn after_contact(
    healthy: Map<u64, Health>,
    dealers: Map<u64, (Faction, DealsContactDamage)>,
    event: CollisionEvent,
) -> Map<u64, Health> {
    match blow(healthy, dealers, event) {
        Some((target, damage)) => healthy.insert(
            target,
            Health { value: remaining(healthy[target], damage) as i32 },
        ),
        None => healthy,
    }
}

/// The health of everyone after a run of collisions, first to last.
pub open spec fn after_contacts(
    healthy: Map<u64, Health>,
    dealers: Map<u64, (Faction, DealsContactDamage)>,
    events: Seq<CollisionEvent>,
) -> Map<u64, Health>
    decreases events.len(),
{
    if events.len() == 0 {
        healthy
    } else {
        after_contact(after_contacts(healthy, dealers, events.drop_last()), dealers, events.last())
    }
}

/// Whether the health left after every blow in a run of collisions is a
/// number that an `i32` can hold.
pub open spec fn damage_fits(
    healthy: Map<u64, Health>,
    dealers: Map<u64, (Faction, DealsContactDamage)>,
    events: Seq<CollisionEvent>,
) -> bool
    decreases events.len(),
{
    if events.len() == 0 {
        true
    } else {
        let before = after_contacts(healthy, dealers, events.drop_last());
        damage_fits(healthy, dealers, events.drop_last()) && match blow(
            before,
            dealers,
            events.last(),
        ) {
            Some((target, damage)) => i32::MIN <= remaining(before[target], damage) <= i32::MAX,
            None => true,
        }
    }
}

/// The damage that an entity deals for the player, if it deals any.
fn player_damage(dealers: &HashMap<u64, (Faction, DealsContactDamage)>, entity: u64) -> (damage:
    Option<i32>)
    ensures
        damage == if dealers@.contains_key(entity) && dealers@[entity].0 == Faction::Player {
            Some(dealers@[entity].1.amount)
        } else {
            None
        },
{
    match dealers.get(&entity) {
        Some((Faction::Player, dealt)) => Some(dealt.amount),
        _ => None,
    }
}

/// Whether the collision number `stop` of a run is the first whose blow
/// leaves more or less health than an `i32` can hold.
pub open spec fn first_misfit(
    healthy: Map<u64, Health>,
    dealers: Map<u64, (Faction, DealsContactDamage)>,
    events: Seq<CollisionEvent>,
    stop: int,
) -> bool {
    &&& 0 <= stop < events.len()
    &&& damage_fits(healthy, dealers, events.take(stop))
    &&& !damage_fits(healthy, dealers, events.take(stop + 1))
}

/// Applies contact damage for a run of collisions, first to last, as long as
/// the health left is a number that an `i32` can hold. Tells whether that was
/// so to the end; if it was not, the collisions before the first misfit have
/// been applied and no other.
pub fn try_contact_damage(
    events: &Vec<CollisionEvent>,
    healthy: &mut HashMap<u64, Health>,
    dealers: &HashMap<u64, (Faction, DealsContactDamage)>,
) -> (done: bool)
    ensures
        done == damage_fits(old(healthy)@, dealers@, events@),
        done ==> final(healthy)@ == after_contacts(old(healthy)@, dealers@, events@),
        !done ==> exists|stop: int|
            first_misfit(old(healthy)@, dealers@, events@, stop) && final(healthy)@
                == after_contacts(old(healthy)@, dealers@, events@.take(stop)),
{
    let ghost start = healthy@;
    let mut seen: usize = 0;
    assert(events@.take(0) =~= Seq::<CollisionEvent>::empty());
    while seen < events.len()
        invariant
            seen <= events.len(),
            start == old(healthy)@,
            damage_fits(start, dealers@, events@.take(seen as int)),
            healthy@ == after_contacts(start, dealers@, events@.take(seen as int)),
        decreases events.len() - seen,
    {
        let ghost before = healthy@;
        proof {
            let next = events@.take(seen + 1);
            assert(next.drop_last() =~= events@.take(seen as int));
            assert(next.last() == events@[seen as int]);
        }
        let event = &events[seen];
        if event.is_started() {
            let (first, second) = event.rigid_body_entities();
            let hit: Option<(u64, i32, i32)> = match healthy.get(&first) {
                Some(health) => match player_damage(dealers, second) {
                    Some(damage) => Some((first, health.value, damage)),
                    None => None,
                },
                None => match healthy.get(&second) {
                    Some(health) => match player_damage(dealers, first) {
                        Some(damage) => Some((second, health.value, damage)),
                        None => None,
                    },
                    None => None,
                },
            };
            match hit {
                Some((target, value, damage)) => {
                    assert(blow(before, dealers@, *event) == Some((target, damage as int)));
                    match value.checked_sub(damage) {
                        Some(left) => {
                            healthy.insert(target, Health { value: left });
                        },
                        None => {
                            proof {
                                let next = events@.take(seen + 1);
                                assert(next.drop_last() =~= events@.take(seen as int));
                                assert(value == before[target].value);
                                assert(remaining(before[target], damage as int) == value - damage);
                                assert(!damage_fits(start, dealers@, next));
                                assert(first_misfit(start, dealers@, events@, seen as int));
                                if damage_fits(start, dealers@, events@) {
                                    lemma_damage_fits_front(start, dealers@, events@, seen + 1);
                                }
                            }
                            return false;
                        },
                    }
                },
                None => {
                    assert(blow(before, dealers@, *event) is None);
                },
            }
        }
        seen = seen + 1;
    }
    assert(events@.take(events.len() as int) =~= events@);
    true
}

/// If the damage of a run of collisions fits, so does that of every front
/// part of the run.
pub proof fn lemma_damage_fits_front(
    healthy: Map<u64, Health>,
    dealers: Map<u64, (Faction, DealsContactDamage)>,
    events: Seq<CollisionEvent>,
    front: int,
)
    requires
        0 <= front <= events.len(),
        damage_fits(healthy, dealers, events),
    ensures
        damage_fits(healthy, dealers, events.take(front)),
    decreases events.len(),
{
    if front < events.len() {
        assert(events.drop_last().take(front) =~= events.take(front));
        lemma_damage_fits_front(healthy, dealers, events.drop_last(), front);
    } else {
        assert(events.take(front) =~= events);
    }
}

/// Applies contact damage for a run of collisions, first to last: of the two
/// entities of a collision that has started, the first that has health loses
/// what the other one deals, if that one deals damage for the player.
pub fn contact_damage(
    events: &Vec<CollisionEvent>,
    healthy: &mut HashMap<u64, Health>,
    dealers: &HashMap<u64, (Faction, DealsContactDamage)>,
)
    requires
        damage_fits(old(healthy)@, dealers@, events@),
    ensures
        final(healthy)@ == after_contacts(old(healthy)@, dealers@, events@),
{
    let done = try_contact_damage(events, healthy, dealers);
    assert(done);
}

} // verus!
