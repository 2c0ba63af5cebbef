//! The tunables of the rules.

use vstd::prelude::*;

verus! {

/// Distances are in world units, speeds in world units per second, the spawn
/// period in nanoseconds.
#[derive(Debug, Clone, Copy, PartialEq, Eq, Structural)]
pub struct Config {
    /// Time between two asteroids.
    pub spawn_period: u64,
    /// How far from the planet an asteroid appears.
    pub spawn_distance: u32,
    /// Radius of an asteroid.
    pub asteroid_radius: u32,
    /// Strength of the push that sends a new asteroid on its way.
    pub asteroid_speed: u32,
    /// Speed of a ship.
    pub ship_speed: u32,
    /// Strength of the push a bumping ship gives an asteroid.
    pub bump_force: u32,
    /// How near an asteroid must be to a ship for the ship to take it as its
    /// target.
    pub trigger_distance: u32,
    /// How far from the planet an asteroid may be and still be worth a chase.
    pub interest_distance: u32,
    /// How near the planet an idle ship comes before it stops: it stands
    /// still at this distance and nearer.
    pub planet_sight: u32,
    /// Half the side of the box in which a click picks up a die.
    pub loot_half_size: u32,
}

impl Default for Config {
    fn default() -> (config: Config)
        ensures
            config == (Config {
                spawn_period: 1_000_000_000,
                spawn_distance: 800,
                asteroid_radius: 10,
                asteroid_speed: 1,
                ship_speed: 2400,
                bump_force: 4,
                trigger_distance: 400,
                interest_distance: 500,
                planet_sight: 100,
                loot_half_size: 25,
            }),
    {
        Config {
            spawn_period: 1_000_000_000,
            spawn_distance: 800,
            asteroid_radius: 10,
            asteroid_speed: 1,
            ship_speed: 2400,
            bump_force: 4,
            trigger_distance: 400,
            interest_distance: 500,
            planet_sight: 100,
            loot_half_size: 25,
        }
    }
}

} // verus!
