//! Hull definitions: the integer stats the rules consume (cost, hit
//! points, cargo, weapon cadence and damage), hull classes, and which hulls
//! are facilities.

use vstd::prelude::*;
use crate::fittings::SpawnFacility;
use crate::protocol::HullKind;
use crate::sim;

verus! {

/// How a hull is flown.
#[derive(Debug, Clone, Copy, PartialEq, Eq, Structural)]
pub enum Archetype {
    Pilot,
    Gunship,
    Captain,
}

/// A hull's stock weapon: cadence and per-bullet damage.
#[derive(Debug, Clone, Copy, PartialEq, Eq, Structural)]
pub struct WeaponStats {
    pub cooldown_ticks: u16,
    pub damage: u16,
}

/// The rules-relevant stats of a hull.
#[derive(Debug, Clone, Copy, PartialEq, Eq, Structural)]
pub struct HullStats {
    pub archetype: Archetype,
    /// Resource cost to buy (0 = free default).
    pub cost: u32,
    pub health: u16,
    pub cargo_capacity: u16,
    pub weapon: Option<WeaponStats>,
}

/// The stat table.
pub open spec fn spec_stats(kind: HullKind) -> HullStats {
    match kind {
        HullKind::Fighter => HullStats {
            archetype: Archetype::Pilot,
            cost: 0,
            health: sim::SHIP_HEALTH,
            cargo_capacity: sim::FIGHTER_CARGO_CAPACITY,
            weapon: Some(WeaponStats { cooldown_ticks: sim::FIRE_COOLDOWN_TICKS, damage: 1 }),
        },
        HullKind::Harvester => HullStats {
            archetype: Archetype::Pilot,
            cost: 15,
            health: 5,
            cargo_capacity: 50,
            weapon: Some(WeaponStats { cooldown_ticks: 40, damage: 1 }),
        },
        HullKind::Corvette => HullStats {
            archetype: Archetype::Gunship,
            cost: 25,
            health: 4,
            cargo_capacity: 3,
            weapon: Some(WeaponStats { cooldown_ticks: 9, damage: 1 }),
        },
        HullKind::Bomber => HullStats {
            archetype: Archetype::Pilot,
            cost: 30,
            health: 4,
            cargo_capacity: 2,
            weapon: Some(WeaponStats { cooldown_ticks: 48, damage: 4 }),
        },
        HullKind::ResourceController => HullStats {
            archetype: Archetype::Captain,
            cost: 40,
            health: 12,
            cargo_capacity: 0,
            weapon: None,
        },
        HullKind::StrikeCarrier => HullStats {
            archetype: Archetype::Captain,
            cost: 60,
            health: 20,
            cargo_capacity: 0,
            weapon: None,
        },
        HullKind::FleetCarrier => HullStats {
            archetype: Archetype::Captain,
            cost: 80,
            health: 24,
            cargo_capacity: 0,
            weapon: None,
        },
        HullKind::Outfitter => HullStats {
            archetype: Archetype::Captain,
            cost: 30,
            health: 10,
            cargo_capacity: 0,
            weapon: None,
        },
    }
}

/// The stats of a hull.
pub fn stats(kind: HullKind) -> (r: HullStats)
    ensures
        r == spec_stats(kind),
{
    match kind {
        HullKind::Fighter => HullStats {
            archetype: Archetype::Pilot,
            cost: 0,
            health: sim::SHIP_HEALTH,
            cargo_capacity: sim::FIGHTER_CARGO_CAPACITY,
            weapon: Some(WeaponStats { cooldown_ticks: sim::FIRE_COOLDOWN_TICKS, damage: 1 }),
        },
        HullKind::Harvester => HullStats {
            archetype: Archetype::Pilot,
            cost: 15,
            health: 5,
            cargo_capacity: 50,
            weapon: Some(WeaponStats { cooldown_ticks: 40, damage: 1 }),
        },
        HullKind::Corvette => HullStats {
            archetype: Archetype::Gunship,
            cost: 25,
            health: 4,
            cargo_capacity: 3,
            weapon: Some(WeaponStats { cooldown_ticks: 9, damage: 1 }),
        },
        HullKind::Bomber => HullStats {
            archetype: Archetype::Pilot,
            cost: 30,
            health: 4,
            cargo_capacity: 2,
            weapon: Some(WeaponStats { cooldown_ticks: 48, damage: 4 }),
        },
        HullKind::ResourceController => HullStats {
            archetype: Archetype::Captain,
            cost: 40,
            health: 12,
            cargo_capacity: 0,
            weapon: None,
        },
        HullKind::StrikeCarrier => HullStats {
            archetype: Archetype::Captain,
            cost: 60,
            health: 20,
            cargo_capacity: 0,
            weapon: None,
        },
        HullKind::FleetCarrier => HullStats {
            archetype: Archetype::Captain,
            cost: 80,
            health: 24,
            cargo_capacity: 0,
            weapon: None,
        },
        HullKind::Outfitter => HullStats {
            archetype: Archetype::Captain,
            cost: 30,
            health: 10,
            cargo_capacity: 0,
            weapon: None,
        },
    }
}

/// The purchase price of a hull.
pub open spec fn spec_cost(kind: HullKind) -> u32 {
    spec_stats(kind).cost
}

/// Hulls offered on the loadout screen, in display order.
pub open spec fn spec_purchasable() -> Seq<HullKind> {
    seq![
        HullKind::Fighter,
        HullKind::Harvester,
        HullKind::Corvette,
        HullKind::Bomber,
        HullKind::ResourceController,
        HullKind::StrikeCarrier,
        HullKind::FleetCarrier,
        HullKind::Outfitter,
    ]
}

/// Hulls offered on the loadout screen, in display order.
pub fn purchasable() -> (r: Vec<HullKind>)
    ensures
        r@ == spec_purchasable(),
{
    vec![
        HullKind::Fighter,
        HullKind::Harvester,
        HullKind::Corvette,
        HullKind::Bomber,
        HullKind::ResourceController,
        HullKind::StrikeCarrier,
        HullKind::FleetCarrier,
        HullKind::Outfitter,
    ]
}

/// Where a hull may spawn.
#[derive(Debug, Clone, Copy, PartialEq, Eq, Structural)]
pub enum HullClass {
    /// Fighter, harvester: the mothership or any friendly spawn carrier.
    Economy,
    /// Corvette, bomber: require a live friendly spawn carrier.
    Combat,
    /// Carrier-type hulls: built at the mothership only.
    CarrierType,
    /// Sub-carriers: built at a friendly fleet carrier only.
    SubCarrier,
}

/// The class of a hull.
pub open spec fn spec_class(kind: HullKind) -> HullClass {
    match kind {
        HullKind::Fighter | HullKind::Harvester => HullClass::Economy,
        HullKind::Corvette | HullKind::Bomber => HullClass::Combat,
        HullKind::ResourceController | HullKind::StrikeCarrier | HullKind::FleetCarrier =>
            HullClass::CarrierType,
        HullKind::Outfitter => HullClass::SubCarrier,
    }
}

/// The class of a hull.
pub fn class(kind: HullKind) -> (r: HullClass)
    ensures
        r == spec_class(kind),
{
    match kind {
        HullKind::Fighter | HullKind::Harvester => HullClass::Economy,
        HullKind::Corvette | HullKind::Bomber => HullClass::Combat,
        HullKind::ResourceController | HullKind::StrikeCarrier | HullKind::FleetCarrier =>
            HullClass::CarrierType,
        HullKind::Outfitter => HullClass::SubCarrier,
    }
}

/// Points for destroying a ship of this hull: 4 plus a fifth of its cost.
pub open spec fn spec_kill_bounty(kind: HullKind) -> u32 {
    (4 + spec_cost(kind) / 5) as u32
}

/// Points for destroying a ship of this hull, scaled by its cost.
pub fn kill_bounty(kind: HullKind) -> (r: u32)
    ensures
        r == spec_kill_bounty(kind),
        r == 4 + spec_cost(kind) / 5,
{
    4 + stats(kind).cost / 5
}

/// The display name of a hull.
pub open spec fn spec_display_name(kind: HullKind) -> Seq<char> {
    match kind {
        HullKind::Fighter => "Fighter"@,
        HullKind::Harvester => "Harvester"@,
        HullKind::Corvette => "Corvette"@,
        HullKind::Bomber => "Bomber"@,
        HullKind::ResourceController => "Res. Controller"@,
        HullKind::StrikeCarrier => "Strike Carrier"@,
        HullKind::FleetCarrier => "Fleet Carrier"@,
        HullKind::Outfitter => "Outfitter"@,
    }
}

/// The display name of a hull.
pub fn display_name(kind: HullKind) -> (r: &'static str)
    ensures
        r@ == spec_display_name(kind),
{
    match kind {
        HullKind::Fighter => "Fighter",
        HullKind::Harvester => "Harvester",
        HullKind::Corvette => "Corvette",
        HullKind::Bomber => "Bomber",
        HullKind::ResourceController => "Res. Controller",
        HullKind::StrikeCarrier => "Strike Carrier",
        HullKind::FleetCarrier => "Fleet Carrier",
        HullKind::Outfitter => "Outfitter",
    }
}

/// Carriers that field hulls: the strike carrier and the fleet carrier.
pub open spec fn spec_is_spawn_carrier(kind: HullKind) -> bool {
    kind == HullKind::StrikeCarrier || kind == HullKind::FleetCarrier
}

/// Whether ships can spawn beside a friendly hull of this kind.
pub fn is_spawn_carrier(kind: HullKind) -> (r: bool)
    ensures
        r == spec_is_spawn_carrier(kind),
{
    matches!(kind, HullKind::StrikeCarrier | HullKind::FleetCarrier)
}

/// The facility a hull acts as for docking and stocking, if any.
pub open spec fn spec_facility_of(kind: HullKind) -> Option<SpawnFacility> {
    match kind {
        HullKind::StrikeCarrier => Some(SpawnFacility::StrikeCarrier),
        HullKind::FleetCarrier => Some(SpawnFacility::FleetCarrier),
        HullKind::Outfitter => Some(SpawnFacility::Outfitter),
        _ => None,
    }
}

/// The facility a hull acts as for docking and stocking, if any.
pub fn facility_of(kind: HullKind) -> (r: Option<SpawnFacility>)
    ensures
        r == spec_facility_of(kind),
{
    match kind {
        HullKind::StrikeCarrier => Some(SpawnFacility::StrikeCarrier),
        HullKind::FleetCarrier => Some(SpawnFacility::FleetCarrier),
        HullKind::Outfitter => Some(SpawnFacility::Outfitter),
        _ => None,
    }
}

/// Whether a friendly ship can dock at a hull of this kind.
pub fn is_dockable(kind: HullKind) -> (r: bool)
    ensures
        r == spec_facility_of(kind).is_some(),
{
    facility_of(kind).is_some()
}

/// Whether docking at a hull of this kind deposits the hold (the fleet
/// carrier is a dropoff; the mothership always is).
pub open spec fn spec_is_docking_dropoff(kind: HullKind) -> bool {
    kind == HullKind::FleetCarrier
}

/// Whether docking at a hull of this kind deposits the hold.
pub fn is_docking_dropoff(kind: HullKind) -> (r: bool)
    ensures
        r == spec_is_docking_dropoff(kind),
{
    matches!(kind, HullKind::FleetCarrier)
}

/// Whether a friendly hull of this kind takes deposits from ships hovering
/// nearby (the mobile dropoffs; the mothership always does).
pub open spec fn spec_is_hover_dropoff(kind: HullKind) -> bool {
    kind == HullKind::ResourceController || kind == HullKind::FleetCarrier
}

/// Whether a friendly hull of this kind takes hover deposits.
pub fn is_hover_dropoff(kind: HullKind) -> (r: bool)
    ensures
        r == spec_is_hover_dropoff(kind),
{
    matches!(kind, HullKind::ResourceController | HullKind::FleetCarrier)
}

/// Free hulls are exactly the fighter.
pub proof fn lemma_only_fighter_is_free(kind: HullKind)
    ensures
        spec_cost(kind) == 0 <==> kind == HullKind::Fighter,
{
}

} // verus!
