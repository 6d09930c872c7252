//! Homage's game rules: the fitting catalog and stocking, hull classes and
//! purchase rules, the per-player economy ledgers, team balancing, combat
//! accounting, the match lifecycle, the spawn-screen decisions, the
//! client's controls and cheats, and the sound-effect file framing.

pub mod fittings;
pub mod protocol;
pub mod hulls;
pub mod sim;
pub mod ledger;
pub mod teams;
pub mod unlocks;
pub mod loadout;
pub mod world;
pub mod respawn;
pub mod economy;
pub mod combat;
pub mod firing;
pub mod ids;
pub mod spawn_screen;
pub mod history;
pub mod scoreboard;
pub mod cheats;
pub mod controls;
pub mod sound;
