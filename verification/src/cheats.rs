//! Development cheats: what each order changes in the ledgers and what it
//! asks of the world. The world positions that the spawning and teleport
//! orders carry stay with the caller, which performs the world effect.

use vstd::prelude::*;
use crate::ledger::{Ledger, spec_balance};
use crate::protocol::{Health, HullKind, Team, spec_opponent};

verus! {

/// A cheat order (the position of a spawn or teleport stays with the
/// caller).
#[derive(Debug, Clone, Copy, PartialEq, Eq, Structural)]
pub enum CheatOrder {
    /// Add ore to the bank without harvesting.
    GiveOre(u32),
    /// Add points without earning them.
    GivePoints(u32),
    /// Spawn an asteroid at the order's position.
    SpawnAsteroid,
    /// Scatter a ring of ore fragments at the order's position.
    SpawnFragments,
    /// Spawn a stationary enemy target drone at the order's position.
    SpawnTargetDrone,
    /// Teleport the player's ship to the order's position.
    Teleport,
    /// Restore the player's ship to full health.
    Heal,
}

/// Player ids of target drones start above this base.
pub const DRONE_ID_BASE: u64 = 90_000;

/// Fragments in a cheat-spawned ring.
pub const CHEAT_FRAGMENTS: u16 = 6;

/// Radius of a cheat-spawned asteroid in world units.
pub const CHEAT_ASTEROID_RADIUS: u16 = 45;

/// What the world must do for a cheat.
#[derive(Debug, Clone, Copy, PartialEq, Eq, Structural)]
pub enum CheatEffect {
    /// Nothing (the order needs a live ship and there is none).
    Nothing,
    /// Points were credited; nothing to do in the world.
    PointsGiven,
    /// Mirror this bank total onto the player's ship, if it is alive.
    MirrorBank(u32),
    /// Spawn an asteroid of this radius at the order's position.
    SpawnAsteroid { radius: u16 },
    /// Scatter this many fragments at the order's position.
    ScatterFragments { count: u16 },
    /// Spawn a stationary drone ship for this player id, team and hull.
    SpawnDrone { player: u64, team: Team, hull: HullKind },
    /// Move the player's ship to the order's position and stop it, if it is
    /// alive.
    Teleport,
    /// Restore the player's ship to full health (see `heal`), if it is
    /// alive.
    Heal,
}

/// Apply a cheat order from `player`, whose live ship (if any) is on
/// `ship_team`: ore and points go straight into the ledgers; a target drone
/// is an enemy fighter with the next drone id, and needs the player's ship
/// to know which side is the enemy; everything else is a world effect.
pub fn apply_cheat(
    order: CheatOrder,
    player: u64,
    ship_team: Option<Team>,
    banks: &mut Ledger,
    points: &mut Ledger,
    drones_spawned: &mut u64,
) -> (r: CheatEffect)
    requires
        order matches CheatOrder::GiveOre(a) ==> spec_balance(old(banks)@, player) + a <= u32::MAX,
        order matches CheatOrder::GivePoints(a) ==> spec_balance(old(points)@, player) + a
            <= u32::MAX,
        order is SpawnTargetDrone ==> *old(drones_spawned) + DRONE_ID_BASE < u64::MAX,
    ensures
        match order {
            CheatOrder::GiveOre(a) => {
                &&& final(banks)@ == old(banks)@.insert(
                    player,
                    (spec_balance(old(banks)@, player) + a) as u32,
                )
                &&& r == CheatEffect::MirrorBank((spec_balance(old(banks)@, player) + a) as u32)
                &&& final(points)@ == old(points)@
                &&& *final(drones_spawned) == *old(drones_spawned)
            },
            CheatOrder::GivePoints(a) => {
                &&& final(points)@ == old(points)@.insert(
                    player,
                    (spec_balance(old(points)@, player) + a) as u32,
                )
                &&& r == CheatEffect::PointsGiven
                &&& final(banks)@ == old(banks)@
                &&& *final(drones_spawned) == *old(drones_spawned)
            },
            CheatOrder::SpawnTargetDrone => {
                &&& final(banks)@ == old(banks)@
                &&& final(points)@ == old(points)@
                &&& match ship_team {
                    None => r == CheatEffect::Nothing && *final(drones_spawned) == *old(
                        drones_spawned,
                    ),
                    Some(t) => {
                        &&& *final(drones_spawned) == *old(drones_spawned) + 1
                        &&& r == CheatEffect::SpawnDrone {
                            player: (DRONE_ID_BASE + *final(drones_spawned)) as u64,
                            team: spec_opponent(t),
                            hull: HullKind::Fighter,
                        }
                    },
                }
            },
            _ => {
                &&& final(banks)@ == old(banks)@
                &&& final(points)@ == old(points)@
                &&& *final(drones_spawned) == *old(drones_spawned)
                &&& r == match order {
                    CheatOrder::SpawnAsteroid => CheatEffect::SpawnAsteroid {
                        radius: CHEAT_ASTEROID_RADIUS,
                    },
                    CheatOrder::SpawnFragments => CheatEffect::ScatterFragments {
                        count: CHEAT_FRAGMENTS,
                    },
                    CheatOrder::Teleport => CheatEffect::Teleport,
                    _ => CheatEffect::Heal,
                }
            },
        },
{
    match order {
        CheatOrder::GiveOre(a) => {
            banks.award(player, a);
            CheatEffect::MirrorBank(banks.get(player))
        },
        CheatOrder::GivePoints(a) => {
            points.award(player, a);
            CheatEffect::PointsGiven
        },
        CheatOrder::SpawnAsteroid => CheatEffect::SpawnAsteroid { radius: CHEAT_ASTEROID_RADIUS },
        CheatOrder::SpawnFragments => CheatEffect::ScatterFragments { count: CHEAT_FRAGMENTS },
        CheatOrder::SpawnTargetDrone => {
            let team = match ship_team {
                Some(t) => t,
                None => return CheatEffect::Nothing,
            };
            *drones_spawned = *drones_spawned + 1;
            CheatEffect::SpawnDrone {
                player: DRONE_ID_BASE + *drones_spawned,
                team: team.opponent(),
                hull: HullKind::Fighter,
            }
        },
        CheatOrder::Teleport => CheatEffect::Teleport,
        CheatOrder::Heal => CheatEffect::Heal,
    }
}

/// The function keys pressed this frame.
#[derive(Debug, Clone, Copy, PartialEq, Eq, Structural)]
pub struct FunctionKeys {
    pub f1: bool,
    pub f2: bool,
    pub f3: bool,
    pub f4: bool,
    pub f5: bool,
    pub f6: bool,
    pub f7: bool,
}

/// Ore or points one cheat key grants.
pub const CHEAT_GRANT: u32 = 50;

/// The cheat the client sends for this frame's function keys (the lowest
/// key wins): F1 ore, F2 asteroid, F3 fragments, F4 target drone, F5
/// teleport, F6 heal, F7 points.
pub fn cheat_for_keys(keys: FunctionKeys) -> (r: Option<CheatOrder>)
    ensures
        r == (if keys.f1 {
            Some(CheatOrder::GiveOre(CHEAT_GRANT))
        } else if keys.f2 {
            Some(CheatOrder::SpawnAsteroid)
        } else if keys.f3 {
            Some(CheatOrder::SpawnFragments)
        } else if keys.f4 {
            Some(CheatOrder::SpawnTargetDrone)
        } else if keys.f5 {
            Some(CheatOrder::Teleport)
        } else if keys.f6 {
            Some(CheatOrder::Heal)
        } else if keys.f7 {
            Some(CheatOrder::GivePoints(CHEAT_GRANT))
        } else {
            None
        }),
{
    if keys.f1 {
        Some(CheatOrder::GiveOre(CHEAT_GRANT))
    } else if keys.f2 {
        Some(CheatOrder::SpawnAsteroid)
    } else if keys.f3 {
        Some(CheatOrder::SpawnFragments)
    } else if keys.f4 {
        Some(CheatOrder::SpawnTargetDrone)
    } else if keys.f5 {
        Some(CheatOrder::Teleport)
    } else if keys.f6 {
        Some(CheatOrder::Heal)
    } else if keys.f7 {
        Some(CheatOrder::GivePoints(CHEAT_GRANT))
    } else {
        None
    }
}

/// Restore a ship to full health.
pub fn heal(health: &mut Health)
    ensures
        final(health).current == old(health).max,
        final(health).max == old(health).max,
{
    health.current = health.max;
}

} // verus!
