//! Enemies: their kinds and the requests to spawn them.

use std::collections::HashMap;
use vstd::prelude::*;
use crate::collision::CollisionEvent;
use crate::components::{DealsDamage, Faction, Health, Position};
use crate::health::{after_contacts, contact_damage, damage_fits, dead, death_system, Mortal};

pub mod factory;
pub mod grid;
pub mod types;

verus! {

/// Marks an entity as an enemy.
#[derive(Clone, Copy, Debug, PartialEq, Eq, Structural)]
pub struct Enemy;

/// A request to bring one enemy of a given kind into play at a position.
#[derive(Clone, Copy, Debug, PartialEq, Eq, Structural)]
pub struct SpawnEnemyEvent {
    pub position: Position,
    pub enemy_type: types::EnemyType,
}

/// Makes the enemy that each spawn request asks for: the factory's enemy of
/// the kind, put at the position.
pub fn spawn_enemy(
    events: &Vec<SpawnEnemyEvent>,
    enemy_factory: &factory::EnemyFactory,
) -> (bundles: Vec<factory::GenericEnemyBundle>)
    ensures
        bundles@ == Seq::new(events@.len(), |i: int| factory::spawned(events@[i])),
{
    let mut bundles: Vec<factory::GenericEnemyBundle> = Vec::new();
    while bundles.len() < events.len()
        invariant
            bundles.len() <= events.len(),
            bundles@ == Seq::new(bundles@.len(), |i: int| factory::spawned(events@[i])),
        decreases events.len() - bundles.len(),
    {
        let spawn_enemy_event = &events[bundles.len()];
        let mut enemy_bundle = match spawn_enemy_event.enemy_type {
            types::EnemyType::TinySpider => enemy_factory.tiny_spider(),
            types::EnemyType::SmallSpider => enemy_factory.small_spider(),
            types::EnemyType::MediumSpider => enemy_factory.medium_spider(),
        };
        enemy_bundle.position = spawn_enemy_event.position;
        bundles.push(enemy_bundle);
        assert(bundles@ =~= Seq::new(bundles@.len(), |i: int| factory::spawned(events@[i])));
    }
    bundles
}

/// Finds the enemies whose health has reached zero: each is to be removed.
pub fn enemy_die(enemies: &Vec<Mortal>) -> (despawned: Vec<u64>)
    ensures
        despawned@ == dead(enemies@),
{
    death_system(enemies).despawned
}

/// Applies the damage of a run of collisions to the enemies: of the two
/// entities of a collision that has started, the first that is an enemy loses
/// what the other one deals, if that one deals damage for the player.
pub fn enemy_collision(
    collision_events: &Vec<CollisionEvent>,
    enemies: &mut HashMap<u64, Health>,
    damage_dealers: &HashMap<u64, (Faction, DealsDamage)>,
)
    requires
        damage_fits(old(enemies)@, damage_dealers@, collision_events@),
    ensures
        final(enemies)@ == after_contacts(old(enemies)@, damage_dealers@, collision_events@),
{
    contact_damage(collision_events, enemies, damage_dealers);
}

} // verus!
