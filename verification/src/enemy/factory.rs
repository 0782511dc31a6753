//! The enemy factory: what an enemy of each kind is made of.

use vstd::prelude::*;
use crate::components::{Health, Position};
use crate::enemy::types::EnemyType;
use crate::enemy::{Enemy, SpawnEnemyEvent};
use crate::health::NotifyDeath;

verus! {

/// The images of the factory.
#[derive(Clone, Copy, Debug, PartialEq, Eq, Structural)]
pub enum EnemyImage {
    SpiderMedium,
    SpiderSmall,
    SpiderTiny,
}

/// The radius, in pixels, of the sphere that an enemy collides with.
pub const COLLISION_RADIUS: u32 = 8;

/// What makes up an enemy: how it looks, where it stands, how much it
/// endures and how it collides. Every enemy is a kinematic body in the layer
/// of the enemies and collides with the player only.
#[derive(Clone, Copy, Debug, PartialEq, Eq, Structural)]
pub struct GenericEnemyBundle {
    /// The image of the sprite, if one was chosen.
    pub texture: Option<EnemyImage>,
    /// The side of the square sprite, in pixels, if one was chosen.
    pub sprite_size: Option<u32>,
    pub position: Position,
    pub enemy: Enemy,
    pub notify_death: NotifyDeath,
    pub health: Health,
    pub collision_radius: u32,
}

/// An enemy with nothing chosen yet: no image, no size, at the centre, with
/// one hit point.
pub open spec fn plain() -> GenericEnemyBundle {
    GenericEnemyBundle {
        texture: None,
        sprite_size: None,
        position: Position { x: 0, y: 0 },
        enemy: Enemy,
        notify_death: NotifyDeath,
        health: Health { value: 1 },
        collision_radius: COLLISION_RADIUS,
    }
}

/// The side of the sprite of each kind, in pixels.
pub open spec fn sprite_size_of(kind: EnemyType) -> u32 {
    match kind {
        EnemyType::TinySpider => 16,
        EnemyType::SmallSpider => 32,
        EnemyType::MediumSpider => 64,
    }
}

/// The hit points of each kind.
pub open spec fn health_of(kind: EnemyType) -> Health {
    match kind {
        EnemyType::TinySpider => Health { value: 15 },
        EnemyType::SmallSpider => Health { value: 50 },
        EnemyType::MediumSpider => Health { value: 200 },
    }
}

/// The enemy that the factory makes of a kind: every kind shows the image of
/// the tiny spider, at its own size, and stands at the centre.
pub open spec fn made(kind: EnemyType) -> GenericEnemyBundle {
    GenericEnemyBundle {
        texture: Some(EnemyImage::SpiderTiny),
        sprite_size: Some(sprite_size_of(kind)),
        health: health_of(kind),
        ..plain()
    }
}

/// The enemy that answers a spawn request.
pub open spec fn spawned(event: SpawnEnemyEvent) -> GenericEnemyBundle {
    GenericEnemyBundle { position: event.position, ..made(event.enemy_type) }
}

impl Default for GenericEnemyBundle {
    fn default() -> (bundle: GenericEnemyBundle)
        ensures
            bundle == plain(),
    {
        GenericEnemyBundle {
            texture: None,
            sprite_size: None,
            position: Position { x: 0, y: 0 },
            enemy: Enemy,
            notify_death: NotifyDeath,
            health: Health { value: 1 },
            collision_radius: COLLISION_RADIUS,
        }
    }
}

/// Makes enemies.
#[derive(Clone, Copy, Debug, PartialEq, Eq, Structural)]
pub struct EnemyFactory;

impl EnemyFactory {
    pub fn tiny_spider(&self) -> (bundle: GenericEnemyBundle)
        ensures
            bundle == made(EnemyType::TinySpider),
    {
        GenericEnemyBundle {
            texture: Some(EnemyImage::SpiderTiny),
            sprite_size: Some(16),
            health: Health { value: 15 },
            ..Default::default()
        }
    }

    pub fn small_spider(&self) -> (bundle: GenericEnemyBundle)
        ensures
            bundle == made(EnemyType::SmallSpider),
    {
        GenericEnemyBundle {
            texture: Some(EnemyImage::SpiderTiny),
            sprite_size: Some(32),
            health: Health { value: 50 },
            ..Default::default()
        }
    }

    pub fn medium_spider(&self) -> (bundle: GenericEnemyBundle)
        ensures
            bundle == made(EnemyType::MediumSpider),
    {
        GenericEnemyBundle {
            texture: Some(EnemyImage::SpiderTiny),
            sprite_size: Some(64),
            health: Health { value: 200 },
            ..Default::default()
        }
    }
}

} // verus!
