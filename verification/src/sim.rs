//! Tuning constants shared by the rules (ticks run at 64 Hz); the numbers
//! are game balance and expected to move.

use vstd::prelude::*;

verus! {

/// Hit points of the starter fighter.
pub const SHIP_HEALTH: u16 = 3;
/// Cargo capacity of the starter fighter.
pub const FIGHTER_CARGO_CAPACITY: u16 = 5;
/// Ticks between two shots of the stock fighter cannon (4 shots/s).
pub const FIRE_COOLDOWN_TICKS: u16 = 16;
/// How long a fire press stays buffered waiting for the cooldown (125 ms).
pub const FIRE_BUFFER_TICKS: i32 = 8;
/// Bullet lifetime (2 s).
pub const BULLET_LIFETIME_TICKS: i32 = 128;
/// Earliest respawn after a death (3 s).
pub const RESPAWN_DELAY_TICKS: i32 = 192;
/// Intermission between a mothership kill and the world reset (10 s).
pub const MATCH_RESET_TICKS: i32 = 640;
/// Ore units moved from hold to bank per deposit step.
pub const DEPOSIT_INTERVAL_TICKS: u32 = 8;
/// Ore carried by one fragment.
pub const FRAGMENT_VALUE: u16 = 1;
/// Points for every hit landed on an enemy ship.
pub const POINTS_PER_HIT: u32 = 1;
/// Points for every ore unit deposited.
pub const POINTS_PER_ORE_DEPOSITED: u32 = 1;
/// Mothership hit points.
pub const MOTHERSHIP_HEALTH: u16 = 400;
/// Flat damage reduction on motherships: small arms bounce off.
pub const MOTHERSHIP_DAMAGE_REDUCTION: u16 = 2;
/// Lag-compensation history length (about 550 ms).
pub const LAG_COMP_HISTORY_TICKS: usize = 35;
/// Cooldown of the blink thruster (3 s).
pub const BLINK_COOLDOWN_TICKS: u16 = 192;

} // verus!
