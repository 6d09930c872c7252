//! Loadout validation: a requested loadout is reduced to what the player
//! has unlocked and the spawn facility stocks; invalid slots fall back to
//! the defaults rather than blocking the spawn.

use vstd::prelude::*;
use crate::fittings::{self, Slot, SpawnFacility, spec_slot, spec_stocked_at, spec_stocking};
use crate::protocol::{FittingId, Loadout};
use crate::unlocks::{Unlocks, spec_has};

verus! {

/// Whether `fitting` may go into `slot` for `player` at `facility`.
pub open spec fn fitting_ok(
    u: Map<u64, Set<FittingId>>,
    player: u64,
    facility: SpawnFacility,
    fitting: FittingId,
    slot: Slot,
) -> bool {
    &&& spec_slot(fitting) == slot
    &&& spec_has(u, player, fitting)
    &&& spec_stocked_at(spec_stocking(fitting), facility)
}

/// An optional slot's content after validation.
pub open spec fn spec_keep_if_ok(
    u: Map<u64, Set<FittingId>>,
    player: u64,
    facility: SpawnFacility,
    fitting: Option<FittingId>,
    slot: Slot,
) -> Option<FittingId> {
    match fitting {
        Some(f) => if fitting_ok(u, player, facility, f, slot) {
            Some(f)
        } else {
            None
        },
        None => None,
    }
}

/// The validated loadout.
pub open spec fn spec_validate_loadout(
    requested: Loadout,
    facility: SpawnFacility,
    player: u64,
    u: Map<u64, Set<FittingId>>,
) -> Loadout {
    Loadout {
        weapon: if fitting_ok(u, player, facility, requested.weapon, Slot::Weapon) {
            requested.weapon
        } else {
            FittingId::PulseCannon
        },
        utility: spec_keep_if_ok(u, player, facility, requested.utility, Slot::Utility),
        hull_mod: spec_keep_if_ok(u, player, facility, requested.hull_mod, Slot::HullMod),
    }
}

/// Every slot of `l` holds something `player` may equip at `facility`.
pub open spec fn loadout_valid(
    l: Loadout,
    facility: SpawnFacility,
    player: u64,
    u: Map<u64, Set<FittingId>>,
) -> bool {
    &&& fitting_ok(u, player, facility, l.weapon, Slot::Weapon)
    &&& (l.utility matches Some(f) ==> fitting_ok(u, player, facility, f, Slot::Utility))
    &&& (l.hull_mod matches Some(f) ==> fitting_ok(u, player, facility, f, Slot::HullMod))
}

fn keep_if_ok(
    unlocks: &Unlocks,
    player: u64,
    facility: SpawnFacility,
    fitting: Option<FittingId>,
    slot: Slot,
) -> (r: Option<FittingId>)
    ensures
        r == spec_keep_if_ok(unlocks@, player, facility, fitting, slot),
{
    match fitting {
        Some(f) => if ok(unlocks, player, facility, f, slot) {
            Some(f)
        } else {
            None
        },
        None => None,
    }
}

fn ok(unlocks: &Unlocks, player: u64, facility: SpawnFacility, fitting: FittingId, slot: Slot) -> (r:
    bool)
    ensures
        r == fitting_ok(unlocks@, player, facility, fitting, slot),
{
    let d = fittings::def(fitting);
    d.slot == slot && unlocks.has(player, fitting) && fittings::stocked_at(d.stocking, facility)
}

/// Reduce a requested loadout to what `player` has unlocked and `facility`
/// stocks: an invalid weapon falls back to the pulse cannon, an invalid
/// utility or hull mod is dropped.
pub fn validate_loadout(
    requested: Loadout,
    facility: SpawnFacility,
    player: u64,
    unlocks: &Unlocks,
) -> (r: Loadout)
    ensures
        r == spec_validate_loadout(requested, facility, player, unlocks@),
        loadout_valid(r, facility, player, unlocks@),
        fittings::spec_unlock_cost(r.weapon) == 0 || (unlocks@.contains_key(player)
            && unlocks@[player].contains(r.weapon)),
        r.utility matches Some(f) ==> fittings::spec_unlock_cost(f) == 0 || (unlocks@.contains_key(player)
            && unlocks@[player].contains(f)),
        r.hull_mod matches Some(f) ==> fittings::spec_unlock_cost(f) == 0 || (unlocks@.contains_key(
            player,
        ) && unlocks@[player].contains(f)),
{
    proof {
        fittings::lemma_free_default_weapon(FittingId::PulseCannon, facility);
        lemma_validation_equips_only_unlocked_stocked(requested, facility, player, unlocks@);
    }
    Loadout {
        weapon: if ok(unlocks, player, facility, requested.weapon, Slot::Weapon) {
            requested.weapon
        } else {
            FittingId::PulseCannon
        },
        utility: keep_if_ok(unlocks, player, facility, requested.utility, Slot::Utility),
        hull_mod: keep_if_ok(unlocks, player, facility, requested.hull_mod, Slot::HullMod),
    }
}

/// Validation never blocks and never invents: its result is always
/// equippable, a request that is already equippable passes unchanged, and
/// validating twice is validating once.
pub proof fn lemma_validation_is_a_projection(
    requested: Loadout,
    facility: SpawnFacility,
    player: u64,
    u: Map<u64, Set<FittingId>>,
)
    ensures
        loadout_valid(spec_validate_loadout(requested, facility, player, u), facility, player, u),
        loadout_valid(requested, facility, player, u) ==> spec_validate_loadout(
            requested,
            facility,
            player,
            u,
        ) == requested,
        spec_validate_loadout(spec_validate_loadout(requested, facility, player, u), facility, player, u)
            == spec_validate_loadout(requested, facility, player, u),
{
    fittings::lemma_free_default_weapon(FittingId::PulseCannon, facility);
}

/// Validation only ever equips what the player may use there: every fitting
/// it leaves in the loadout is free or in the player's unlock set, fits its
/// slot and is stocked at the facility; a requested fitting that meets all
/// three is kept, and one that does not is replaced (the weapon by the free
/// pulse cannon) or dropped.
pub proof fn lemma_validation_equips_only_unlocked_stocked(
    requested: Loadout,
    facility: SpawnFacility,
    player: u64,
    u: Map<u64, Set<FittingId>>,
)
    ensures
        ({
            let r = spec_validate_loadout(requested, facility, player, u);
            let usable = |f: FittingId, slot: Slot|
                (fittings::spec_unlock_cost(f) == 0 || (u.contains_key(player) && u[player].contains(f)))
                && spec_slot(f) == slot && spec_stocked_at(spec_stocking(f), facility);
            &&& usable(r.weapon, Slot::Weapon)
            &&& (r.utility matches Some(f) ==> usable(f, Slot::Utility) && requested.utility == Some(f))
            &&& (r.hull_mod matches Some(f) ==> usable(f, Slot::HullMod) && requested.hull_mod == Some(f))
            &&& r.weapon == (if usable(requested.weapon, Slot::Weapon) {
                requested.weapon
            } else {
                FittingId::PulseCannon
            })
            &&& (requested.utility matches Some(f) ==> (r.utility == Some(f) <==> usable(f, Slot::Utility)))
            &&& (requested.hull_mod matches Some(f) ==> (r.hull_mod == Some(f) <==> usable(f, Slot::HullMod)))
            &&& (requested.utility is None ==> r.utility is None)
            &&& (requested.hull_mod is None ==> r.hull_mod is None)
        }),
{
    fittings::lemma_free_default_weapon(FittingId::PulseCannon, facility);
}

} // verus!
