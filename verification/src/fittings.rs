//! The fitting catalog: points buy match-permanent unlocks; equipping
//! happens at a facility that stocks the fitting.

use vstd::prelude::*;
use crate::hulls;
use crate::protocol::{FittingId, HullKind, NUM_FITTINGS, spec_fitting_at};

verus! {

/// The slot a fitting occupies.
#[derive(Debug, Clone, Copy, PartialEq, Eq, Structural)]
pub enum Slot {
    Weapon,
    Utility,
    HullMod,
}

/// Where a fitting can be equipped from.
#[derive(Debug, Clone, Copy, PartialEq, Eq, Structural)]
pub enum Stocking {
    Everywhere,
    AnyCarrier,
    StrikeCarrierOnly,
    OutfitterOnly,
}

/// The facility a spawn or an undock happens at, for stocking checks.
#[derive(Debug, Clone, Copy, PartialEq, Eq, Structural)]
pub enum SpawnFacility {
    Mothership,
    StrikeCarrier,
    FleetCarrier,
    Outfitter,
}

/// Whether `facility` stocks fittings of the given stocking class.
pub open spec fn spec_stocked_at(stocking: Stocking, facility: SpawnFacility) -> bool {
    match stocking {
        Stocking::Everywhere => true,
        Stocking::AnyCarrier => facility == SpawnFacility::StrikeCarrier
            || facility == SpawnFacility::FleetCarrier,
        Stocking::StrikeCarrierOnly => facility == SpawnFacility::StrikeCarrier,
        Stocking::OutfitterOnly => facility == SpawnFacility::Outfitter,
    }
}

/// Whether a fitting with `stocking` can be equipped at `facility`.
pub fn stocked_at(stocking: Stocking, facility: SpawnFacility) -> (r: bool)
    ensures
        r == spec_stocked_at(stocking, facility),
{
    match stocking {
        Stocking::Everywhere => true,
        Stocking::AnyCarrier => matches!(
            facility,
            SpawnFacility::StrikeCarrier | SpawnFacility::FleetCarrier
        ),
        Stocking::StrikeCarrierOnly => facility == SpawnFacility::StrikeCarrier,
        Stocking::OutfitterOnly => facility == SpawnFacility::Outfitter,
    }
}

/// A catalog entry.
#[derive(Debug, Clone, Copy)]
pub struct FittingDef {
    pub id: FittingId,
    pub name: &'static str,
    pub slot: Slot,
    /// Points to unlock (0 = always unlocked).
    pub cost: u32,
    pub stocking: Stocking,
    pub blurb: &'static str,
}

/// The slot of a fitting.
pub open spec fn spec_slot(id: FittingId) -> Slot {
    match id {
        FittingId::PulseCannon | FittingId::ScatterGun | FittingId::LongLance => Slot::Weapon,
        FittingId::Afterburner | FittingId::BlinkThruster => Slot::Utility,
        FittingId::GyroTuning | FittingId::ArmorPlate | FittingId::LightweightFrame
        | FittingId::CompactedHold => Slot::HullMod,
    }
}

/// The unlock price of a fitting in points.
pub open spec fn spec_unlock_cost(id: FittingId) -> u32 {
    match id {
        FittingId::PulseCannon => 0,
        FittingId::ScatterGun => 8,
        FittingId::LongLance => 20,
        FittingId::Afterburner => 10,
        FittingId::BlinkThruster => 25,
        FittingId::GyroTuning => 8,
        FittingId::ArmorPlate => 8,
        FittingId::LightweightFrame => 15,
        FittingId::CompactedHold => 15,
    }
}

/// Where a fitting is stocked.
pub open spec fn spec_stocking(id: FittingId) -> Stocking {
    match id {
        FittingId::PulseCannon => Stocking::Everywhere,
        FittingId::ScatterGun => Stocking::AnyCarrier,
        FittingId::LongLance => Stocking::StrikeCarrierOnly,
        FittingId::Afterburner => Stocking::Everywhere,
        FittingId::BlinkThruster => Stocking::OutfitterOnly,
        FittingId::GyroTuning => Stocking::Everywhere,
        FittingId::ArmorPlate => Stocking::Everywhere,
        FittingId::LightweightFrame => Stocking::StrikeCarrierOnly,
        FittingId::CompactedHold => Stocking::AnyCarrier,
    }
}

/// The display name of a fitting.
pub open spec fn spec_fitting_name(id: FittingId) -> Seq<char> {
    match id {
        FittingId::PulseCannon => "Pulse Cannon"@,
        FittingId::ScatterGun => "Scatter Gun"@,
        FittingId::LongLance => "Long-Lance Railgun"@,
        FittingId::Afterburner => "Afterburner"@,
        FittingId::BlinkThruster => "Blink Thruster"@,
        FittingId::GyroTuning => "Gyro Tuning"@,
        FittingId::ArmorPlate => "Armor Plate"@,
        FittingId::LightweightFrame => "Lightweight Frame"@,
        FittingId::CompactedHold => "Compacted Hold"@,
    }
}

/// The catalog entry of a fitting.
pub fn def(id: FittingId) -> (r: FittingDef)
    ensures
        r.id == id,
        r.slot == spec_slot(id),
        r.cost == spec_unlock_cost(id),
        r.stocking == spec_stocking(id),
        r.name@ == spec_fitting_name(id),
{
    match id {
        FittingId::PulseCannon => FittingDef { id, name: "Pulse Cannon", slot: Slot::Weapon, cost: 0,
            stocking: Stocking::Everywhere,
            blurb: "Standard-issue autocannon. Reliable, unremarkable, yours." },
        FittingId::ScatterGun => FittingDef { id, name: "Scatter Gun", slot: Slot::Weapon, cost: 8,
            stocking: Stocking::AnyCarrier,
            blurb: "Three-pellet spread, short reach. Ruins knife fights for the other guy." },
        FittingId::LongLance => FittingDef { id, name: "Long-Lance Railgun", slot: Slot::Weapon,
            cost: 20, stocking: Stocking::StrikeCarrierOnly,
            blurb: "Slow cycle, extreme velocity. Leading shots become sniping." },
        FittingId::Afterburner => FittingDef { id, name: "Afterburner", slot: Slot::Utility,
            cost: 10, stocking: Stocking::Everywhere,
            blurb: "Hold SHIFT: +50% thrust, +25% top speed. Heat limits arrive later." },
        FittingId::BlinkThruster => FittingDef { id, name: "Blink Thruster", slot: Slot::Utility,
            cost: 25, stocking: Stocking::OutfitterOnly,
            blurb: "SHIFT: an instant impulse along your nose, 3s cooldown. Be somewhere else." },
        FittingId::GyroTuning => FittingDef { id, name: "Gyro Tuning", slot: Slot::HullMod,
            cost: 8, stocking: Stocking::Everywhere,
            blurb: "+25% turn rate. The cheapest way to feel better." },
        FittingId::ArmorPlate => FittingDef { id, name: "Armor Plate", slot: Slot::HullMod,
            cost: 8, stocking: Stocking::Everywhere,
            blurb: "+2 hull, -10% thrust. Trade dance for endurance." },
        FittingId::LightweightFrame => FittingDef { id, name: "Lightweight Frame",
            slot: Slot::HullMod, cost: 15, stocking: Stocking::StrikeCarrierOnly,
            blurb: "+15% thrust and top speed, -1 hull. Speed is armor, allegedly." },
        FittingId::CompactedHold => FittingDef { id, name: "Compacted Hold", slot: Slot::HullMod,
            cost: 15, stocking: Stocking::AnyCarrier,
            blurb: "+50% cargo capacity, -15% top speed. One more rock." },
    }
}

/// The whole catalog in order, as ids.
pub fn catalog() -> (r: Vec<FittingId>)
    ensures
        r@.len() == NUM_FITTINGS,
        forall|i: int| 0 <= i < NUM_FITTINGS ==> #[trigger] r@[i] == spec_fitting_at(i),
{
    let mut r: Vec<FittingId> = Vec::new();
    let mut i: usize = 0;
    while i < NUM_FITTINGS
        invariant
            i <= NUM_FITTINGS,
            r@.len() == i,
            forall|j: int| 0 <= j < i ==> #[trigger] r@[j] == spec_fitting_at(j),
        decreases NUM_FITTINGS - i,
    {
        r.push(FittingId::at(i));
        i = i + 1;
    }
    r
}

/// Free fittings are exactly the pulse cannon, which is stocked
/// everywhere and fits the weapon slot.
pub proof fn lemma_free_default_weapon(id: FittingId, facility: SpawnFacility)
    ensures
        spec_unlock_cost(id) == 0 <==> id == FittingId::PulseCannon,
        spec_slot(FittingId::PulseCannon) == Slot::Weapon,
        spec_stocked_at(spec_stocking(FittingId::PulseCannon), facility),
{
}

/// Weapon behaviour per fitting, scaled from the hull's stock weapon (the
/// integer part: cadence, pellets per volley, damage per pellet).
#[derive(Debug, Clone, Copy, PartialEq, Eq, Structural)]
pub struct WeaponProfile {
    pub cooldown_ticks: u16,
    pub pellets: u8,
    pub damage: u16,
}

/// `base * num / den`, rounded down, saturating at `u16::MAX`.
pub open spec fn spec_scaled_ticks(base: u16, num: int, den: int) -> u16 {
    let v = base * num / den;
    if v > u16::MAX {
        u16::MAX
    } else {
        v as u16
    }
}

/// The weapon profile of `weapon` on `hull`; `None` for unarmed hulls.
pub open spec fn spec_weapon_profile(weapon: FittingId, hull: HullKind) -> Option<WeaponProfile> {
    match hulls::spec_stats(hull).weapon {
        None => None,
        Some(base) => Some(
            match weapon {
                FittingId::ScatterGun => WeaponProfile {
                    cooldown_ticks: spec_scaled_ticks(base.cooldown_ticks, 8, 5),
                    pellets: 3,
                    damage: 1,
                },
                FittingId::LongLance => WeaponProfile {
                    cooldown_ticks: spec_scaled_ticks(base.cooldown_ticks, 12, 5),
                    pellets: 1,
                    damage: 1,
                },
                _ => WeaponProfile {
                    cooldown_ticks: base.cooldown_ticks,
                    pellets: 1,
                    damage: base.damage,
                },
            },
        ),
    }
}

fn scaled_ticks(base: u16, num: u32, den: u32) -> (r: u16)
    requires
        num <= 16,
        1 <= den,
    ensures
        r == spec_scaled_ticks(base, num as int, den as int),
{
    assert((base as u32) * num <= 65535 * 16) by (nonlinear_arith)
        requires
            base <= 65535,
            num <= 16,
    ;
    let v: u32 = (base as u32) * num / den;
    if v > 65535 {
        65535
    } else {
        v as u16
    }
}

/// Weapon profile per fitting, scaled from the hull's stock weapon: the
/// scatter gun cycles at 1.6x the stock cooldown with three one-damage
/// pellets, the long lance at 2.4x with one one-damage slug, anything else
/// is the stock weapon. Unarmed hulls have no profile.
pub fn weapon_profile(weapon: FittingId, hull: HullKind) -> (r: Option<WeaponProfile>)
    ensures
        r == spec_weapon_profile(weapon, hull),
{
    let base = match hulls::stats(hull).weapon {
        Some(base) => base,
        None => return None,
    };
    Some(
        match weapon {
            FittingId::ScatterGun => WeaponProfile {
                cooldown_ticks: scaled_ticks(base.cooldown_ticks, 8, 5),
                pellets: 3,
                damage: 1,
            },
            FittingId::LongLance => WeaponProfile {
                cooldown_ticks: scaled_ticks(base.cooldown_ticks, 12, 5),
                pellets: 1,
                damage: 1,
            },
            _ => WeaponProfile {
                cooldown_ticks: base.cooldown_ticks,
                pellets: 1,
                damage: base.damage,
            },
        },
    )
}

/// The hit-point change a hull mod makes.
pub open spec fn spec_health_bonus(hull_mod: Option<FittingId>) -> int {
    match hull_mod {
        Some(FittingId::ArmorPlate) => 2,
        Some(FittingId::LightweightFrame) => -1,
        _ => 0,
    }
}

/// The hit-point change a hull mod makes: armor plate +2, lightweight
/// frame -1, anything else nothing.
pub fn health_bonus(hull_mod: Option<FittingId>) -> (r: i32)
    ensures
        r == spec_health_bonus(hull_mod),
{
    match hull_mod {
        Some(FittingId::ArmorPlate) => 2,
        Some(FittingId::LightweightFrame) => -1,
        _ => 0,
    }
}

/// A hull's maximum hit points with a hull mod fitted (never below one).
pub open spec fn spec_max_health(hull: HullKind, hull_mod: Option<FittingId>) -> u16 {
    let h = hulls::spec_stats(hull).health + spec_health_bonus(hull_mod);
    if h < 1 {
        1
    } else {
        h as u16
    }
}

/// A hull's maximum hit points with a hull mod fitted (never below one).
pub fn max_health(hull: HullKind, hull_mod: Option<FittingId>) -> (r: u16)
    ensures
        r == spec_max_health(hull, hull_mod),
        r >= 1,
{
    let h: i32 = hulls::stats(hull).health as i32 + health_bonus(hull_mod);
    if h < 1 {
        1
    } else {
        h as u16
    }
}

/// A hull's cargo capacity with a hull mod fitted: the compacted hold adds
/// half again, rounded down.
pub open spec fn spec_cargo_capacity(hull: HullKind, hull_mod: Option<FittingId>) -> u16 {
    let c = hulls::spec_stats(hull).cargo_capacity;
    match hull_mod {
        Some(FittingId::CompactedHold) => (c * 3 / 2) as u16,
        _ => c,
    }
}

/// A hull's cargo capacity with a hull mod fitted.
pub fn cargo_capacity(hull: HullKind, hull_mod: Option<FittingId>) -> (r: u16)
    ensures
        r == spec_cargo_capacity(hull, hull_mod),
{
    let c = hulls::stats(hull).cargo_capacity;
    match hull_mod {
        Some(FittingId::CompactedHold) => c * 3 / 2,
        _ => c,
    }
}

} // verus!
