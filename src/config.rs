//! Tuning values of the game.

use vstd::prelude::*;

verus! {

/// How the allergy meter reacts to flower heads.
#[derive(Clone, Copy, Debug, PartialEq, Eq, Structural)]
pub struct AllergyConfig {
    /// Largest meter value, in thousandths of a point.
    pub max_value: u32,
    /// Points per second lost when no flower head is near.
    pub base_decay_rate: u32,
    /// Points per second gained right at a flower head.
    pub proximity_multiplier: u32,
    /// Distance, in thousandths of a world unit, under which allergy builds up.
    pub proximity_threshold: u64,
}

/// When a bee sneezes and what it costs.
#[derive(Clone, Copy, Debug, PartialEq, Eq, Structural)]
pub struct SneezeConfig {
    /// Meter value, in thousandths of a point, at which a sneeze comes.
    pub threshold: u32,
    /// Share of the carried pollen dropped by a sneeze, in percent.
    pub drop_percent: u32,
    /// Meter value, in thousandths of a point, right after a sneeze.
    pub post_sneeze_value: u32,
}

#[derive(Clone, Copy, Debug, PartialEq, Eq, Structural)]
pub struct PollenConfig {
    pub base_value: u32,
    pub cache_value: u32,
    pub win_threshold: u32,
}

#[derive(Clone, Copy, Debug, PartialEq, Eq, Structural)]
pub struct MovementConfig {
    /// World units per second.
    pub bee_speed: u32,
    /// World units per second.
    pub flower_head_speed: u32,
}

#[derive(Clone, Copy, Debug, PartialEq, Eq, Structural)]
pub struct GameConfig {
    pub allergy: AllergyConfig,
    pub sneeze: SneezeConfig,
    pub pollen: PollenConfig,
    pub movement: MovementConfig,
}

impl Default for AllergyConfig {
    fn default() -> (c: AllergyConfig)
        ensures
            c.max_value == 100_000,
            c.base_decay_rate == 5,
            c.proximity_multiplier == 100,
            c.proximity_threshold == 200_000,
    {
        AllergyConfig {
            max_value: 100_000,
            base_decay_rate: 5,
            proximity_multiplier: 100,
            proximity_threshold: 200_000,
        }
    }
}

impl Default for SneezeConfig {
    fn default() -> (c: SneezeConfig)
        ensures
            c.threshold == 80_000,
            c.drop_percent == 25,
            c.post_sneeze_value == 20_000,
    {
        SneezeConfig { threshold: 80_000, drop_percent: 25, post_sneeze_value: 20_000 }
    }
}

impl Default for PollenConfig {
    fn default() -> (c: PollenConfig)
        ensures
            c.base_value == 1,
            c.cache_value == 5,
            c.win_threshold == 50,
    {
        PollenConfig { base_value: 1, cache_value: 5, win_threshold: 50 }
    }
}

impl Default for MovementConfig {
    fn default() -> (c: MovementConfig)
        ensures
            c.bee_speed == 150,
            c.flower_head_speed == 50,
    {
        MovementConfig { bee_speed: 150, flower_head_speed: 50 }
    }
}

impl Default for GameConfig {
    fn default() -> (c: GameConfig)
        ensures
            c.allergy.max_value == 100_000,
            c.allergy.base_decay_rate == 5,
            c.allergy.proximity_multiplier == 100,
            c.allergy.proximity_threshold == 200_000,
            c.sneeze.threshold == 80_000,
            c.sneeze.drop_percent == 25,
            c.sneeze.post_sneeze_value == 20_000,
            c.pollen.base_value == 1,
            c.pollen.cache_value == 5,
            c.pollen.win_threshold == 50,
            c.movement.bee_speed == 150,
            c.movement.flower_head_speed == 50,
    {
        GameConfig {
            allergy: AllergyConfig::default(),
            sneeze: SneezeConfig::default(),
            pollen: PollenConfig::default(),
            movement: MovementConfig::default(),
        }
    }
}

} // verus!
