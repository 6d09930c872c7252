//! The plain data the game rules speak about: teams, hull kinds, fittings,
//! loadouts, hit points and cargo holds. Players and facilities are named
//! by their 64-bit network ids.

use vstd::prelude::*;

verus! {

/// One of the two sides of a match.
#[derive(Debug, Clone, Copy, PartialEq, Eq, Hash, Structural)]
pub enum Team {
    Blue,
    Red,
}

/// The other team.
pub open spec fn spec_opponent(team: Team) -> Team {
    match team {
        Team::Blue => Team::Red,
        Team::Red => Team::Blue,
    }
}

/// Each team is the other's opponent: never itself, and twice over is the
/// team itself.
pub proof fn lemma_opponent_involution(team: Team)
    ensures
        spec_opponent(team) != team,
        spec_opponent(spec_opponent(team)) == team,
{
}

impl Team {
    /// The other team.
    pub fn opponent(self) -> (r: Team)
        ensures
            r == spec_opponent(self),
    {
        match self {
            Team::Blue => Team::Red,
            Team::Red => Team::Blue,
        }
    }
}

/// Which hull a ship is.
#[derive(Debug, Clone, Copy, PartialEq, Eq, Hash, Structural)]
pub enum HullKind {
    Fighter,
    Harvester,
    Corvette,
    Bomber,
    ResourceController,
    StrikeCarrier,
    FleetCarrier,
    Outfitter,
}

/// Every fitting in the game, in catalog order.
#[derive(Debug, Clone, Copy, PartialEq, Eq, Hash, Structural)]
pub enum FittingId {
    PulseCannon,
    ScatterGun,
    LongLance,
    Afterburner,
    BlinkThruster,
    GyroTuning,
    ArmorPlate,
    LightweightFrame,
    CompactedHold,
}

/// Number of fittings in the catalog.
pub const NUM_FITTINGS: usize = 9;

/// A fitting's position in catalog order (also its sort order).
pub open spec fn spec_fitting_index(id: FittingId) -> int {
    match id {
        FittingId::PulseCannon => 0,
        FittingId::ScatterGun => 1,
        FittingId::LongLance => 2,
        FittingId::Afterburner => 3,
        FittingId::BlinkThruster => 4,
        FittingId::GyroTuning => 5,
        FittingId::ArmorPlate => 6,
        FittingId::LightweightFrame => 7,
        FittingId::CompactedHold => 8,
    }
}

/// The fitting at a catalog position.
pub open spec fn spec_fitting_at(i: int) -> FittingId
    recommends
        0 <= i < NUM_FITTINGS,
{
    if i == 0 {
        FittingId::PulseCannon
    } else if i == 1 {
        FittingId::ScatterGun
    } else if i == 2 {
        FittingId::LongLance
    } else if i == 3 {
        FittingId::Afterburner
    } else if i == 4 {
        FittingId::BlinkThruster
    } else if i == 5 {
        FittingId::GyroTuning
    } else if i == 6 {
        FittingId::ArmorPlate
    } else if i == 7 {
        FittingId::LightweightFrame
    } else {
        FittingId::CompactedHold
    }
}

/// Catalog positions and fittings correspond one to one.
pub proof fn lemma_fitting_index_bijection(id: FittingId, i: int)
    ensures
        0 <= spec_fitting_index(id) < NUM_FITTINGS,
        spec_fitting_at(spec_fitting_index(id)) == id,
        0 <= i < NUM_FITTINGS ==> spec_fitting_index(spec_fitting_at(i)) == i,
{
}

impl FittingId {
    /// This fitting's catalog position.
    pub fn index(self) -> (r: usize)
        ensures
            r == spec_fitting_index(self),
    {
        match self {
            FittingId::PulseCannon => 0,
            FittingId::ScatterGun => 1,
            FittingId::LongLance => 2,
            FittingId::Afterburner => 3,
            FittingId::BlinkThruster => 4,
            FittingId::GyroTuning => 5,
            FittingId::ArmorPlate => 6,
            FittingId::LightweightFrame => 7,
            FittingId::CompactedHold => 8,
        }
    }

    /// The fitting at catalog position `i`.
    pub fn at(i: usize) -> (r: FittingId)
        requires
            i < NUM_FITTINGS,
        ensures
            r == spec_fitting_at(i as int),
            spec_fitting_index(r) == i,
    {
        if i == 0 {
            FittingId::PulseCannon
        } else if i == 1 {
            FittingId::ScatterGun
        } else if i == 2 {
            FittingId::LongLance
        } else if i == 3 {
            FittingId::Afterburner
        } else if i == 4 {
            FittingId::BlinkThruster
        } else if i == 5 {
            FittingId::GyroTuning
        } else if i == 6 {
            FittingId::ArmorPlate
        } else if i == 7 {
            FittingId::LightweightFrame
        } else {
            FittingId::CompactedHold
        }
    }
}

/// A ship's chosen fittings, one per slot.
#[derive(Debug, Clone, Copy, PartialEq, Eq, Structural)]
pub struct Loadout {
    pub weapon: FittingId,
    pub utility: Option<FittingId>,
    pub hull_mod: Option<FittingId>,
}

/// The stock loadout: pulse cannon, empty utility and hull-mod slots.
pub open spec fn spec_default_loadout() -> Loadout {
    Loadout { weapon: FittingId::PulseCannon, utility: None, hull_mod: None }
}

impl Default for Loadout {
    fn default() -> (r: Self)
        ensures
            r == spec_default_loadout(),
    {
        Loadout { weapon: FittingId::PulseCannon, utility: None, hull_mod: None }
    }
}

/// Hit points.
#[derive(Debug, Clone, Copy, PartialEq, Eq, Structural)]
pub struct Health {
    pub current: u16,
    pub max: u16,
}

impl Health {
    /// Full health out of `max`.
    pub fn new(max: u16) -> (r: Self)
        ensures
            r.current == max,
            r.max == max,
    {
        Health { current: max, max }
    }
}

/// Undeposited ore aboard a ship.
#[derive(Debug, Clone, Copy, PartialEq, Eq, Structural)]
pub struct CargoHold {
    pub current: u16,
    pub capacity: u16,
}

impl CargoHold {
    /// A hold holding nothing.
    pub fn empty(capacity: u16) -> (r: Self)
        ensures
            r.current == 0,
            r.capacity == capacity,
    {
        CargoHold { current: 0, capacity }
    }

    /// A hold never holds more than it can carry.
    pub open spec fn wf(self) -> bool {
        self.current <= self.capacity
    }
}

/// One tick of input, a superset across all control archetypes: Pilot
/// hulls read the buttons, Gunship hulls the quantized aim angle
/// (`TAU * aim / 65536`), Captain hulls the cursor (half-unit steps).
#[derive(Debug, Clone, Copy, PartialEq, Eq, Structural)]
pub struct ShipInput {
    pub thrust: bool,
    pub brake: bool,
    pub turn_left: bool,
    pub turn_right: bool,
    pub fire: bool,
    pub ability: bool,
    pub aim: u16,
    pub cursor_x: i16,
    pub cursor_y: i16,
}

impl Default for ShipInput {
    fn default() -> (r: Self)
        ensures
            r == (ShipInput {
                thrust: false,
                brake: false,
                turn_left: false,
                turn_right: false,
                fire: false,
                ability: false,
                aim: 0,
                cursor_x: 0,
                cursor_y: 0,
            }),
    {
        ShipInput {
            thrust: false,
            brake: false,
            turn_left: false,
            turn_right: false,
            fire: false,
            ability: false,
            aim: 0,
            cursor_x: 0,
            cursor_y: 0,
        }
    }
}

impl ShipInput {
    /// The self-driving client's input: constantly thrust, turn left and
    /// fire.
    pub fn bot() -> (r: Self)
        ensures
            r == (ShipInput {
                thrust: true,
                brake: false,
                turn_left: true,
                turn_right: false,
                fire: true,
                ability: false,
                aim: 0,
                cursor_x: 0,
                cursor_y: 0,
            }),
    {
        ShipInput { thrust: true, turn_left: true, fire: true, ..ShipInput::default() }
    }
}

/// Server → client: authoritative wealth and unlocks (catalog order).
#[derive(Debug, Clone, PartialEq, Eq)]
pub struct WealthUpdate {
    pub bank: u32,
    pub points: u32,
    pub unlocked: Vec<FittingId>,
}

/// Client → server: what to fly on the next (re)spawn, and where. The
/// facility is named by its entity id.
#[derive(Debug, Clone, Copy, PartialEq, Eq, Structural)]
pub struct SpawnOrder {
    pub hull: HullKind,
    pub spawn_at: Option<u64>,
    pub loadout: Loadout,
}

/// The order that stands when a player never sent one: a free fighter at
/// the mothership with the stock loadout.
pub open spec fn spec_default_spawn_order() -> SpawnOrder {
    SpawnOrder { hull: HullKind::Fighter, spawn_at: None, loadout: spec_default_loadout() }
}

impl SpawnOrder {
    /// The order that stands when a player never sent one.
    pub fn fallback() -> (r: SpawnOrder)
        ensures
            r == spec_default_spawn_order(),
    {
        SpawnOrder { hull: HullKind::Fighter, spawn_at: None, loadout: Loadout::default() }
    }
}

} // verus!
