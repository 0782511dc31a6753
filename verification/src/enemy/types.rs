//! The catalogue of enemy kinds.

use vstd::prelude::*;

verus! {

/// The kinds of enemy a wave can spawn.
#[derive(Clone, Copy, Debug, PartialEq, Eq, Structural)]
pub enum EnemyType {
    TinySpider,
    SmallSpider,
    MediumSpider,
}

} // verus!
