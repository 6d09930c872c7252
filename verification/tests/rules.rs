//! Exact values of the rule formulas, every error and outcome variant, and
//! the library's laws on concrete inputs.

use homage::cheats::{self, CheatEffect, CheatOrder};
use homage::combat::{self, MatchState, MothershipHit};
use homage::controls::{self, HeldKeys};
use homage::economy;
use homage::firing::{self, WeaponTimer};
use homage::fittings::{self, Slot, SpawnFacility, Stocking};
use homage::history::PoseHistory;
use homage::hulls::{self, HullClass};
use homage::ids::{self, Lcg};
use homage::ledger::{KdStore, Ledger};
use homage::loadout;
use homage::protocol::{CargoHold, FittingId, Health, HullKind, Loadout, ShipInput, Team};
use homage::respawn::{RespawnStep, RespawnTask};
use homage::scoreboard::{self, RosterRow};
use homage::sim;
use homage::spawn_screen::{
    self, DeadUi, GateError, LoadoutState, ModuleClick, TileLook, WealthCache,
};
use homage::teams::TeamAssignments;
use homage::unlocks::{self, UnlockOutcome, Unlocks};
use homage::world::{self, MothershipView, ShipQuery, ShipView};

// ------------------------------------------------------------------ formulas

#[test]
fn prespawn_hash_values() {
    assert_eq!(ids::bullet_prespawn_hash(1, 0), 6238072747940578789);
    assert_eq!(ids::bullet_prespawn_hash(7, 1234), 7350349602404362495);
    assert_eq!(ids::bullet_prespawn_hash((1u64 << 63) + 5, 65535), 4242645307332208964);
    // the hash separates owners and ticks
    assert_ne!(ids::bullet_prespawn_hash(1, 0), ids::bullet_prespawn_hash(2, 0));
    assert_ne!(ids::bullet_prespawn_hash(1, 0), ids::bullet_prespawn_hash(1, 1));
}

#[test]
fn lcg_stream_values() {
    let mut rng = Lcg(0xA57E401D);
    assert_eq!(rng.next_bits(), 15925636);
    assert_eq!(rng.0, 17510422316554135912);
    assert_eq!(rng.next_bits(), 6145048);
    assert_eq!(rng.0, 6756552409510142103);
    assert_eq!(rng.next_bits(), 8876360);
    assert_eq!(rng.0, 9759661947027678426);
}

#[test]
fn player_hues_stay_in_their_team_band() {
    assert_eq!(ids::player_hue(1, Team::Blue), 217);
    assert_eq!(ids::player_hue(2, Team::Red), 324);
    assert_eq!(ids::player_hue(5, Team::Red), 25);
    assert_eq!(ids::player_hue(123456789, Team::Blue), 213);
    for id in 0..500u64 {
        let blue = ids::player_hue(id, Team::Blue) as i32;
        assert!((170..=250).contains(&blue));
        let red = ids::player_hue(id, Team::Red) as i32;
        assert!(red >= 310 || red <= 30);
    }
}

#[test]
fn spawn_slots_wrap_the_ring() {
    assert_eq!(ids::spawn_slot(3), 3);
    assert_eq!(ids::spawn_slot(16), 0);
    assert_eq!(ids::spawn_slot(35), 3);
}

#[test]
fn kill_bounties_follow_hull_cost() {
    assert_eq!(hulls::kill_bounty(HullKind::Fighter), 4);
    assert_eq!(hulls::kill_bounty(HullKind::Harvester), 7);
    assert_eq!(hulls::kill_bounty(HullKind::Corvette), 9);
    assert_eq!(hulls::kill_bounty(HullKind::Bomber), 10);
    assert_eq!(hulls::kill_bounty(HullKind::ResourceController), 12);
    assert_eq!(hulls::kill_bounty(HullKind::StrikeCarrier), 16);
    assert_eq!(hulls::kill_bounty(HullKind::FleetCarrier), 20);
    assert_eq!(hulls::kill_bounty(HullKind::Outfitter), 10);
}

#[test]
fn hull_table_and_classes() {
    let f = hulls::stats(HullKind::Fighter);
    assert_eq!((f.cost, f.health, f.cargo_capacity), (0, sim::SHIP_HEALTH, sim::FIGHTER_CARGO_CAPACITY));
    assert_eq!(f.weapon.unwrap().cooldown_ticks, sim::FIRE_COOLDOWN_TICKS);
    assert_eq!(hulls::stats(HullKind::Outfitter).cost, 30);
    assert!(hulls::stats(HullKind::StrikeCarrier).weapon.is_none());
    assert_eq!(hulls::class(HullKind::Harvester), HullClass::Economy);
    assert_eq!(hulls::class(HullKind::Corvette), HullClass::Combat);
    assert_eq!(hulls::class(HullKind::FleetCarrier), HullClass::CarrierType);
    assert_eq!(hulls::class(HullKind::Outfitter), HullClass::SubCarrier);
    assert!(hulls::is_spawn_carrier(HullKind::StrikeCarrier));
    assert!(hulls::is_spawn_carrier(HullKind::FleetCarrier));
    assert!(!hulls::is_spawn_carrier(HullKind::Outfitter));
    assert_eq!(hulls::facility_of(HullKind::Outfitter), Some(SpawnFacility::Outfitter));
    assert_eq!(hulls::facility_of(HullKind::Fighter), None);
    assert!(hulls::is_dockable(HullKind::Outfitter));
    assert!(hulls::is_docking_dropoff(HullKind::FleetCarrier));
    assert!(hulls::is_hover_dropoff(HullKind::ResourceController));
    assert!(!hulls::is_hover_dropoff(HullKind::Fighter));
    assert_eq!(hulls::display_name(HullKind::ResourceController), "Res. Controller");
    let for_sale = hulls::purchasable();
    assert!(for_sale.contains(&HullKind::Harvester));
    assert_eq!(for_sale.len(), 8);
    assert_eq!(for_sale[0], HullKind::Fighter);
}

#[test]
fn weapon_profiles_scale_the_stock_cooldown() {
    let scatter = fittings::weapon_profile(FittingId::ScatterGun, HullKind::Fighter).unwrap();
    assert_eq!((scatter.cooldown_ticks, scatter.pellets, scatter.damage), (25, 3, 1));
    let lance = fittings::weapon_profile(FittingId::LongLance, HullKind::Fighter).unwrap();
    assert_eq!((lance.cooldown_ticks, lance.pellets, lance.damage), (38, 1, 1));
    let stock = fittings::weapon_profile(FittingId::PulseCannon, HullKind::Fighter).unwrap();
    assert_eq!(stock.cooldown_ticks, sim::FIRE_COOLDOWN_TICKS);
    assert_eq!(
        fittings::weapon_profile(FittingId::ScatterGun, HullKind::Harvester).unwrap().cooldown_ticks,
        64
    );
    assert_eq!(
        fittings::weapon_profile(FittingId::LongLance, HullKind::Harvester).unwrap().cooldown_ticks,
        96
    );
    assert_eq!(fittings::weapon_profile(FittingId::PulseCannon, HullKind::ResourceController), None);
}

#[test]
fn hull_mods_change_health_and_cargo() {
    assert_eq!(fittings::max_health(HullKind::Fighter, None), 3);
    assert_eq!(fittings::max_health(HullKind::Fighter, Some(FittingId::ArmorPlate)), 5);
    assert_eq!(fittings::max_health(HullKind::Fighter, Some(FittingId::LightweightFrame)), 2);
    assert_eq!(fittings::health_bonus(Some(FittingId::GyroTuning)), 0);
    assert_eq!(fittings::cargo_capacity(HullKind::Harvester, None), 50);
    assert_eq!(fittings::cargo_capacity(HullKind::Harvester, Some(FittingId::CompactedHold)), 75);
    assert_eq!(fittings::cargo_capacity(HullKind::Fighter, Some(FittingId::CompactedHold)), 7);
}

#[test]
fn stocking_per_facility() {
    assert!(fittings::stocked_at(Stocking::Everywhere, SpawnFacility::Mothership));
    assert!(!fittings::stocked_at(Stocking::AnyCarrier, SpawnFacility::Mothership));
    assert!(fittings::stocked_at(Stocking::AnyCarrier, SpawnFacility::FleetCarrier));
    assert!(fittings::stocked_at(Stocking::StrikeCarrierOnly, SpawnFacility::StrikeCarrier));
    assert!(!fittings::stocked_at(Stocking::StrikeCarrierOnly, SpawnFacility::FleetCarrier));
    assert!(fittings::stocked_at(Stocking::OutfitterOnly, SpawnFacility::Outfitter));
    assert!(!fittings::stocked_at(Stocking::OutfitterOnly, SpawnFacility::StrikeCarrier));
    let all = fittings::catalog();
    assert_eq!(all.len(), homage::protocol::NUM_FITTINGS);
    for (i, f) in all.iter().enumerate() {
        assert_eq!(f.index(), i);
        assert_eq!(FittingId::at(i), *f);
    }
    assert_eq!(fittings::def(FittingId::PulseCannon).cost, 0);
    assert_eq!(fittings::def(FittingId::BlinkThruster).cost, 25);
}

// --------------------------------------------------------------------- ticks

#[test]
fn tick_differences_wrap() {
    assert_eq!(firing::tick_diff(2, 65534), 4);
    assert_eq!(firing::tick_diff(65534, 2), -4);
    assert_eq!(firing::tick_diff(100, 100), 0);
    assert!(firing::expired(200, 50, 128));
    assert!(!firing::expired(178, 50, 128));
    assert!(firing::expired(10, 65000, 128));
}

#[test]
fn weapon_never_fires_inside_its_cooldown() {
    let mut w = WeaponTimer::new(sim::FIRE_COOLDOWN_TICKS);
    assert!(firing::fire_step(&mut w, 100, true));
    for t in 101..=116u16 {
        assert!(!firing::fire_step(&mut w, t, true), "fired at {t}");
    }
    assert!(firing::fire_step(&mut w, 117, true));
}

#[test]
fn stale_presses_are_dropped() {
    let mut w = WeaponTimer::new(sim::FIRE_COOLDOWN_TICKS);
    assert!(firing::fire_step(&mut w, 100, true));
    assert!(!firing::fire_step(&mut w, 101, true));
    // the buffered press from tick 101 has expired by tick 120
    assert!(!firing::fire_step(&mut w, 120, false));
    assert_eq!(w.fire_requested, None);
}

#[test]
fn history_keeps_the_newest_window() {
    let mut h: PoseHistory<(i32, i32)> = PoseHistory::new();
    for t in 0..40u16 {
        h.record(t, (t as i32, 0));
    }
    assert_eq!(h.poses.len(), sim::LAG_COMP_HISTORY_TICKS);
    assert_eq!(h.sample(4), None);
    assert_eq!(h.sample(5), Some(((5, 0), (6, 0))));
    assert_eq!(h.sample(39), Some(((39, 0), (39, 0))));
}

// ------------------------------------------------------------- teams, ledgers

#[test]
fn teams_stay_balanced() {
    let mut teams = TeamAssignments::new();
    for p in 1..=101u64 {
        teams.assign(p);
        let (blue, red) = teams.sizes();
        assert!(blue == red || blue == red + 1);
    }
    assert_eq!(teams.assign(1), Team::Blue, "an existing assignment is kept");
    assert_eq!(teams.len(), 101);
    assert_eq!(Team::Blue.opponent(), Team::Red);
    assert_eq!(Team::Blue.opponent().opponent(), Team::Blue);
}

#[test]
fn ledgers_and_tallies() {
    let mut bank = Ledger::new();
    assert_eq!(bank.get(9), 0);
    bank.award(9, 10);
    bank.spend(9, 4);
    assert_eq!(bank.get(9), 6);
    bank.set(9, 40);
    assert_eq!(bank.get(9), 40);
    bank.clear();
    assert_eq!(bank.get(9), 0);
    let mut kd = KdStore::new();
    kd.kill(1);
    kd.kill(1);
    kd.death(1);
    assert_eq!(kd.get(1), (2, 1));
    assert_eq!(kd.get(2), (0, 0));
}

// ---------------------------------------------------------- unlocks, loadout

#[test]
fn unlock_outcomes() {
    let mut u = Unlocks::new();
    let mut points = Ledger::new();
    assert_eq!(
        unlocks::apply_unlock_order(&mut u, &mut points, 1, FittingId::PulseCannon),
        UnlockOutcome::AlreadyOwned
    );
    points.set(1, 7);
    assert_eq!(
        unlocks::apply_unlock_order(&mut u, &mut points, 1, FittingId::ScatterGun),
        UnlockOutcome::CannotAfford
    );
    assert_eq!(points.get(1), 7);
    points.set(1, 8);
    assert_eq!(
        unlocks::apply_unlock_order(&mut u, &mut points, 1, FittingId::ScatterGun),
        UnlockOutcome::Unlocked
    );
    assert_eq!(points.get(1), 0);
    // idempotent: a second order is refused without charging
    points.set(1, 50);
    assert_eq!(
        unlocks::apply_unlock_order(&mut u, &mut points, 1, FittingId::ScatterGun),
        UnlockOutcome::AlreadyOwned
    );
    assert_eq!(points.get(1), 50);
    assert!(u.has(1, FittingId::ScatterGun));
    assert!(!u.has(2, FittingId::ScatterGun));
    let snap = unlocks::wealth_snapshot(&Ledger::new(), &points, &u, 1);
    assert_eq!(snap.points, 50);
    assert_eq!(snap.unlocked, vec![FittingId::ScatterGun], "only bought fittings are listed");
}

#[test]
fn validation_is_a_projection() {
    let mut u = Unlocks::new();
    u.grant(1, FittingId::LongLance);
    u.grant(1, FittingId::ArmorPlate);
    u.grant(1, FittingId::BlinkThruster);
    let wanted = Loadout {
        weapon: FittingId::LongLance,
        utility: Some(FittingId::BlinkThruster),
        hull_mod: Some(FittingId::ArmorPlate),
    };
    let at_mothership = loadout::validate_loadout(wanted, SpawnFacility::Mothership, 1, &u);
    assert_eq!(
        at_mothership,
        Loadout { weapon: FittingId::PulseCannon, utility: None, hull_mod: Some(FittingId::ArmorPlate) }
    );
    assert_eq!(loadout::validate_loadout(at_mothership, SpawnFacility::Mothership, 1, &u), at_mothership);
    assert_eq!(loadout::validate_loadout(wanted, SpawnFacility::StrikeCarrier, 1, &u).weapon, FittingId::LongLance);
    assert_eq!(
        loadout::validate_loadout(wanted, SpawnFacility::Outfitter, 1, &u).utility,
        Some(FittingId::BlinkThruster)
    );
    // a fitting in the wrong slot is dropped
    let odd = Loadout { weapon: FittingId::PulseCannon, utility: Some(FittingId::ArmorPlate), hull_mod: None };
    assert_eq!(loadout::validate_loadout(odd, SpawnFacility::Mothership, 1, &u).utility, None);
}

// ---------------------------------------------------------------- economy

#[test]
fn scooping_picks_the_first_hold_with_room() {
    let full = CargoHold { current: 5, capacity: 5 };
    let room = CargoHold { current: 1, capacity: 5 };
    assert!(!economy::fits(&full, 1));
    assert_eq!(economy::pick_scooper(&vec![full, room, room], 1), Some(1));
    assert_eq!(economy::pick_scooper(&vec![full], 1), None);
    let mut hold = room;
    economy::load(&mut hold, 3);
    assert_eq!(hold.current, 4);
    assert!(economy::deposit_due(16));
    assert!(!economy::deposit_due(17));
}

#[test]
fn deposits_conserve_ore() {
    let mut hold = CargoHold { current: 3, capacity: 5 };
    let mut banks = Ledger::new();
    let mut points = Ledger::new();
    assert_eq!(economy::deposit_step(1, Team::Red, &mut hold, &vec![Team::Blue], &mut banks, &mut points), None);
    assert_eq!(hold.current, 3);
    for expected in 1..=3u32 {
        let r = economy::deposit_step(1, Team::Red, &mut hold, &vec![Team::Blue, Team::Red], &mut banks, &mut points);
        assert_eq!(r, Some(expected));
        assert_eq!(hold.current as u32 + banks.get(1), 3);
    }
    assert_eq!(economy::deposit_step(1, Team::Red, &mut hold, &vec![Team::Red], &mut banks, &mut points), None);
    assert_eq!(points.get(1), 3 * sim::POINTS_PER_ORE_DEPOSITED);
}

#[test]
fn restore_stowed_puts_health_and_cargo_back() {
    let mut health = Health::new(5);
    let mut hold = CargoHold::empty(7);
    economy::restore_stowed(&mut health, &mut hold, 2, 4);
    assert_eq!((health.current, health.max), (2, 5));
    assert_eq!((hold.current, hold.capacity), (4, 7));
}

// ----------------------------------------------------------------- combat

#[test]
fn ship_kills_pay_the_bounty() {
    let mut health = Health::new(3);
    let mut points = Ledger::new();
    let mut kd = KdStore::new();
    assert!(!combat::resolve_ship_hit(1, 2, 1, HullKind::Fighter, &mut health, &mut points, &mut kd));
    assert!(!combat::resolve_ship_hit(1, 2, 1, HullKind::Fighter, &mut health, &mut points, &mut kd));
    assert!(combat::resolve_ship_hit(1, 2, 5, HullKind::Fighter, &mut health, &mut points, &mut kd));
    assert_eq!(health.current, 0);
    assert_eq!(points.get(1), 3 * sim::POINTS_PER_HIT + hulls::kill_bounty(HullKind::Fighter));
    assert_eq!(kd.get(1), (1, 0));
    assert_eq!(kd.get(2), (0, 1));
}

#[test]
fn mothership_hits_bounce_damage_and_destroy() {
    let mut state = MatchState::new();
    let mut health = Health::new(sim::MOTHERSHIP_HEALTH);
    assert_eq!(combat::resolve_mothership_hit(&mut state, &mut health, Team::Red, 2), MothershipHit::Bounced);
    assert_eq!(health.current, sim::MOTHERSHIP_HEALTH);
    assert_eq!(combat::resolve_mothership_hit(&mut state, &mut health, Team::Red, 4), MothershipHit::Damaged);
    assert_eq!(health.current, sim::MOTHERSHIP_HEALTH - 2);
    assert_eq!(
        combat::resolve_mothership_hit(&mut state, &mut health, Team::Red, 1000),
        MothershipHit::Destroyed
    );
    assert_eq!(state.ending, Some((Team::Red, sim::MATCH_RESET_TICKS)));
}

#[test]
fn match_lifecycle_announces_once_and_resets() {
    let mut state = MatchState { ending: Some((Team::Blue, 2)) };
    let mut announced = false;
    let first = combat::match_step(&mut state, &mut announced);
    assert_eq!((first.announce, first.reset), (Some(Team::Blue), false));
    let second = combat::match_step(&mut state, &mut announced);
    assert_eq!((second.announce, second.reset), (None, false));
    let third = combat::match_step(&mut state, &mut announced);
    assert_eq!((third.announce, third.reset), (None, true));
    assert!(state.ending.is_none());
    let idle = combat::match_step(&mut state, &mut announced);
    assert_eq!((idle.announce, idle.reset), (None, false));
    assert!(!announced);
}

#[test]
fn respawn_countdown_waits_for_confirmation() {
    let mut task = combat::scuttle(&mut KdStore::new(), 4, 40, None).respawn.unwrap();
    assert_eq!(task.ticks_remaining, sim::RESPAWN_DELAY_TICKS);
    for _ in 0..sim::RESPAWN_DELAY_TICKS {
        assert!(!task.tick());
    }
    assert!(!task.tick(), "an unconfirmed spawn waits");
    task.confirm();
    assert!(task.tick());
}

// ------------------------------------------------------------------ world

#[test]
fn searches_take_the_first_match() {
    let ships = vec![
        ShipView { entity: 10, owner: 1, team: Team::Blue, kind: HullKind::Fighter },
        ShipView { entity: 11, owner: 2, team: Team::Red, kind: HullKind::StrikeCarrier },
        ShipView { entity: 12, owner: 3, team: Team::Red, kind: HullKind::FleetCarrier },
    ];
    assert_eq!(world::find_ship(&ships, ShipQuery::Entity(12)).map(|s| s.owner), Some(3));
    assert_eq!(world::find_ship(&ships, ShipQuery::SpawnCarrierOf(Team::Red)).map(|s| s.entity), Some(11));
    assert_eq!(world::find_ship(&ships, ShipQuery::FleetCarrierOf(Team::Red)).map(|s| s.entity), Some(12));
    assert_eq!(world::find_ship(&ships, ShipQuery::SpawnCarrierOf(Team::Blue)), None);
    let ms = vec![MothershipView { entity: 1, team: Team::Blue }, MothershipView { entity: 2, team: Team::Red }];
    assert_eq!(world::find_mothership(&ms, 2).map(|m| m.team), Some(Team::Red));
    assert_eq!(world::find_mothership(&ms, 3), None);
}

// ------------------------------------------------------------ spawn screen

#[test]
fn every_gate_error() {
    let (mothership, strike_carrier, fleet_carrier) =
        (SpawnFacility::Mothership, SpawnFacility::StrikeCarrier, SpawnFacility::FleetCarrier);
    assert_eq!(spawn_screen::hull_gate(HullKind::Fighter, None, 0), Err(GateError::NoFacility));
    assert_eq!(
        spawn_screen::hull_gate(HullKind::Corvette, Some(mothership), 100),
        Err(GateError::NeedsSpawnCarrier)
    );
    assert_eq!(
        spawn_screen::hull_gate(HullKind::StrikeCarrier, Some(strike_carrier), 100),
        Err(GateError::NeedsMothership)
    );
    assert_eq!(
        spawn_screen::hull_gate(HullKind::Outfitter, Some(mothership), 100),
        Err(GateError::NeedsFleetCarrier)
    );
    assert_eq!(
        spawn_screen::hull_gate(HullKind::Harvester, Some(mothership), 3),
        Err(GateError::NotEnoughOre { cost: 15, bank: 3 })
    );
    assert_eq!(spawn_screen::hull_gate(HullKind::Harvester, Some(mothership), 15), Ok(()));
    assert_eq!(spawn_screen::hull_gate(HullKind::Outfitter, Some(fleet_carrier), 30), Ok(()));
    assert_eq!(
        spawn_screen::hull_requirement_note(HullKind::Corvette),
        "Requires a live friendly strike or fleet carrier."
    );
}

#[test]
fn module_clicks_unlock_or_equip() {
    let mut state = LoadoutState::default();
    let mut wealth = WealthCache::new();
    wealth.points = 5;
    let facility = Some(SpawnFacility::StrikeCarrier);
    assert_eq!(
        spawn_screen::module_tile_click(&mut state, &wealth, facility, FittingId::ScatterGun),
        ModuleClick::CannotAfford { cost: 8, points: 5 }
    );
    wealth.points = 8;
    assert_eq!(
        spawn_screen::module_tile_click(&mut state, &wealth, facility, FittingId::ScatterGun),
        ModuleClick::RequestUnlock
    );
    wealth.apply_update(0, 0, &vec![FittingId::ScatterGun, FittingId::BlinkThruster]);
    assert!(wealth.has_unlock(FittingId::ScatterGun));
    assert!(wealth.has_unlock(FittingId::PulseCannon));
    assert!(!wealth.has_unlock(FittingId::LongLance));
    assert_eq!(
        spawn_screen::module_tile_click(&mut state, &wealth, facility, FittingId::BlinkThruster),
        ModuleClick::NotStocked
    );
    assert_eq!(
        spawn_screen::module_tile_click(&mut state, &wealth, facility, FittingId::ScatterGun),
        ModuleClick::Equipped
    );
    assert_eq!(state.loadout.weapon, FittingId::ScatterGun);
    assert_eq!(
        spawn_screen::module_tile_look(&state, &wealth, facility, FittingId::ScatterGun),
        TileLook::Selected
    );
    assert_eq!(
        spawn_screen::module_tile_look(&state, &wealth, facility, FittingId::GyroTuning),
        TileLook::Disabled
    );
    assert_eq!(
        spawn_screen::module_tile_look(&state, &wealth, facility, FittingId::PulseCannon),
        TileLook::Available
    );
    // optional slots toggle
    assert_eq!(
        spawn_screen::module_tile_click(&mut state, &wealth, facility, FittingId::Afterburner),
        ModuleClick::CannotAfford { cost: 10, points: 0 }
    );
    wealth.apply_update(0, 0, &vec![FittingId::Afterburner]);
    spawn_screen::module_tile_click(&mut state, &wealth, facility, FittingId::Afterburner);
    assert_eq!(state.loadout.utility, Some(FittingId::Afterburner));
    spawn_screen::module_tile_click(&mut state, &wealth, facility, FittingId::Afterburner);
    assert_eq!(state.loadout.utility, None);
}

#[test]
fn dead_screens_flow() {
    let mut ui = DeadUi::default();
    let mut state = LoadoutState::default();
    let vis = spawn_screen::dead_ui_lifecycle(&mut ui, &mut state, false, false);
    assert_eq!(ui, DeadUi::BattleMap);
    assert!(vis.map && !vis.loadout && !vis.minimap);
    state.hull = HullKind::Corvette;
    let r = spawn_screen::map_facility_click(&mut ui, &mut state, 77, Some(SpawnFacility::Mothership), 100);
    assert_eq!(r, Some(Err(GateError::NeedsSpawnCarrier)));
    assert_eq!(ui, DeadUi::Loadout);
    assert_eq!(state.hull, HullKind::Fighter);
    assert_eq!(state.facility, Some(77));
    assert_eq!(spawn_screen::map_facility_click(&mut ui, &mut state, 78, None, 0), None);
    assert_eq!(
        spawn_screen::hull_tile_click(&mut state, Some(SpawnFacility::Mothership), 0, HullKind::Harvester),
        Err(GateError::NotEnoughOre { cost: 15, bank: 0 })
    );
    assert_eq!(state.hull, HullKind::Fighter);
    assert_eq!(
        spawn_screen::hull_tile_look(&state, Some(SpawnFacility::Mothership), 0, HullKind::Harvester),
        TileLook::Disabled
    );
    assert_eq!(spawn_screen::spawn_button_click(&mut state, Some(SpawnFacility::Mothership), 0), Ok(()));
    assert!(state.confirmed);
    assert_eq!(spawn_screen::screen_keys(ui, false, true, false), DeadUi::BattleMap);
    assert_eq!(spawn_screen::screen_keys(DeadUi::BattleMap, true, false, false), DeadUi::Loadout);
    let vis = spawn_screen::dead_ui_lifecycle(&mut ui, &mut state, true, true);
    assert_eq!(ui, DeadUi::Hidden);
    assert!(!state.confirmed);
    assert!(vis.map && !vis.minimap);
    let own = ShipView { entity: 5, owner: 5, team: Team::Blue, kind: HullKind::StrikeCarrier };
    assert!(spawn_screen::ship_marker_clickable(Some(Team::Blue), own));
    assert!(!spawn_screen::ship_marker_clickable(Some(Team::Red), own));
    assert!(!spawn_screen::ship_marker_clickable(None, own));
}

#[test]
fn wealth_cache_mirrors_the_ship() {
    let mut cache = WealthCache::new();
    cache.mirror_ship(Some(12), None, None);
    assert_eq!((cache.bank, cache.points), (12, 0));
    cache.mirror_ship(None, Some(3), Some(&vec![FittingId::GyroTuning]));
    assert_eq!((cache.bank, cache.points), (12, 3));
    assert!(cache.has_unlock(FittingId::GyroTuning));
}

// -------------------------------------------------------------- scoreboard

#[test]
fn scoreboard_orders_by_points() {
    let row = |player, team, points| RosterRow { player, team, kills: 0, deaths: 0, points };
    let mut rows = vec![row(1, Team::Blue, 3), row(2, Team::Red, 9), row(3, Team::Blue, 7), row(4, Team::Blue, 3)];
    let blue = scoreboard::scoreboard_rows(&rows, Team::Blue);
    assert_eq!(blue.iter().map(|r| r.player).collect::<Vec<_>>(), vec![3, 1, 4]);
    scoreboard::sort_by_points_desc(&mut rows);
    assert_eq!(rows.iter().map(|r| r.points).collect::<Vec<_>>(), vec![9, 7, 3, 3]);
    let mut teams = TeamAssignments::new();
    teams.assign(1);
    let mut points = Ledger::new();
    points.set(1, 4);
    let r = scoreboard::roster_row(1, &teams, &KdStore::new(), &points).unwrap();
    assert_eq!((r.team, r.points, r.kills), (Team::Blue, 4, 0));
    assert_eq!(scoreboard::roster_row(2, &teams, &KdStore::new(), &points), None);
}

// ------------------------------------------------------------------ cheats

#[test]
fn cheats_touch_the_ledgers_or_ask_the_world() {
    let mut banks = Ledger::new();
    let mut points = Ledger::new();
    let mut drones = 0u64;
    banks.set(1, 10);
    assert_eq!(
        cheats::apply_cheat(CheatOrder::GiveOre(50), 1, None, &mut banks, &mut points, &mut drones),
        CheatEffect::MirrorBank(60)
    );
    assert_eq!(banks.get(1), 60);
    assert_eq!(
        cheats::apply_cheat(CheatOrder::GivePoints(7), 1, None, &mut banks, &mut points, &mut drones),
        CheatEffect::PointsGiven
    );
    assert_eq!(points.get(1), 7);
    assert_eq!(
        cheats::apply_cheat(CheatOrder::SpawnTargetDrone, 1, None, &mut banks, &mut points, &mut drones),
        CheatEffect::Nothing
    );
    assert_eq!(drones, 0);
    assert_eq!(
        cheats::apply_cheat(CheatOrder::SpawnTargetDrone, 1, Some(Team::Blue), &mut banks, &mut points, &mut drones),
        CheatEffect::SpawnDrone { player: 90_001, team: Team::Red, hull: HullKind::Fighter }
    );
    assert_eq!(
        cheats::apply_cheat(CheatOrder::SpawnFragments, 1, None, &mut banks, &mut points, &mut drones),
        CheatEffect::ScatterFragments { count: 6 }
    );
    assert_eq!(
        cheats::apply_cheat(CheatOrder::SpawnAsteroid, 1, None, &mut banks, &mut points, &mut drones),
        CheatEffect::SpawnAsteroid { radius: 45 }
    );
    assert_eq!(
        cheats::apply_cheat(CheatOrder::Teleport, 1, None, &mut banks, &mut points, &mut drones),
        CheatEffect::Teleport
    );
    assert_eq!(
        cheats::apply_cheat(CheatOrder::Heal, 1, None, &mut banks, &mut points, &mut drones),
        CheatEffect::Heal
    );
    let mut health = Health { current: 1, max: 5 };
    cheats::heal(&mut health);
    assert_eq!(health.current, 5);
}

#[test]
fn asteroids_crack_and_pay_the_shooter() {
    let mut health = Health::new(3);
    let mut points = Ledger::new();
    assert!(!combat::resolve_asteroid_hit(1, 2, 5, &mut health, &mut points));
    assert_eq!(points.get(1), 0, "hits that do not crack pay nothing");
    assert!(combat::resolve_asteroid_hit(1, 2, 5, &mut health, &mut points));
    assert_eq!(health.current, 0);
    assert_eq!(points.get(1), 5);
}

#[test]
fn docking_round_trip_gives_the_ship_back() {
    let mut banks = Ledger::new();
    let mut points = Ledger::new();
    let mut docked = economy::DockedStates::new();
    let ship = economy::DockingShip {
        player: 3,
        entity: 33,
        team: Team::Red,
        hull: HullKind::Harvester,
        health: 2,
        cargo: 9,
        link: 303,
    };
    let ms = vec![economy::MothershipInRange { entity: 2, team: Team::Red, in_range: false }];
    let facilities =
        vec![economy::ShipInRange { entity: 44, team: Team::Red, kind: HullKind::StrikeCarrier, in_range: true }];
    assert_eq!(economy::dock(ship, &ms, &facilities, &mut banks, &mut points, &mut docked), Some(44));
    assert_eq!(banks.get(3), 0, "a strike carrier is no dropoff");
    let views = vec![ShipView { entity: 44, owner: 4, team: Team::Red, kind: HullKind::StrikeCarrier }];
    let plan = economy::undock(
        3,
        &mut docked,
        &[MothershipView { entity: 2, team: Team::Red }].to_vec(),
        &views,
        &homage::respawn::SpawnChoices::new(),
        &Unlocks::new(),
    )
    .unwrap();
    assert_eq!((plan.stowed.hull, plan.stowed.health, plan.stowed.cargo), (HullKind::Harvester, 2, 9));
    assert!(matches!(plan.site, economy::UndockSite::Beside(s) if s.entity == 44));
    assert_eq!(plan.facility, SpawnFacility::StrikeCarrier);
    assert!(docked.0.is_empty());
    assert!(economy::undock(3, &mut docked, &vec![], &views, &homage::respawn::SpawnChoices::new(), &Unlocks::new())
        .is_none());
}

#[test]
fn module_grids_group_the_catalog_by_slot() {
    assert_eq!(
        spawn_screen::module_grid_fittings(&vec![Slot::Weapon]),
        vec![FittingId::PulseCannon, FittingId::ScatterGun, FittingId::LongLance]
    );
    assert_eq!(
        spawn_screen::module_grid_fittings(&vec![Slot::HullMod, Slot::Utility]),
        vec![
            FittingId::Afterburner,
            FittingId::BlinkThruster,
            FittingId::GyroTuning,
            FittingId::ArmorPlate,
            FittingId::LightweightFrame,
            FittingId::CompactedHold,
        ]
    );
    assert!(spawn_screen::module_grid_fittings(&vec![]).is_empty());
}

#[test]
fn held_keys_make_the_tick_input() {
    let none = HeldKeys {
        w: false,
        up: false,
        s: false,
        down: false,
        a: false,
        left: false,
        d: false,
        right: false,
        shift_left: false,
        shift_right: false,
        space: false,
        mouse_left: false,
    };
    let keys = HeldKeys { w: true, left: true, shift_right: true, ..none };
    let mut tapped = true;
    let input = controls::buffer_input(None, false, Some(keys), &mut tapped, 1234, (-3, 7));
    assert!(input.thrust && input.turn_left && input.ability && input.fire);
    assert!(!input.brake && !input.turn_right);
    assert_eq!((input.aim, input.cursor_x, input.cursor_y), (1234, -3, 7));
    assert!(!tapped, "the tap is consumed");
    let idle = controls::buffer_input(None, false, Some(none), &mut tapped, 0, (0, 0));
    assert!(!idle.fire);
    let mut tapped = true;
    assert_eq!(controls::buffer_input(None, true, Some(none), &mut tapped, 9, (1, 1)), ShipInput::bot());
    assert!(tapped);
    assert_eq!(controls::buffer_input(None, false, None, &mut tapped, 9, (1, 1)), ShipInput::default());
    let scripted = ShipInput { brake: true, ..ShipInput::default() };
    assert_eq!(controls::buffer_input(Some(scripted), true, Some(keys), &mut tapped, 9, (1, 1)), scripted);
}

#[test]
fn function_keys_pick_one_cheat() {
    let none = cheats::FunctionKeys { f1: false, f2: false, f3: false, f4: false, f5: false, f6: false, f7: false };
    assert_eq!(cheats::cheat_for_keys(none), None);
    assert_eq!(cheats::cheat_for_keys(cheats::FunctionKeys { f1: true, f7: true, ..none }), Some(CheatOrder::GiveOre(50)));
    assert_eq!(cheats::cheat_for_keys(cheats::FunctionKeys { f4: true, ..none }), Some(CheatOrder::SpawnTargetDrone));
    assert_eq!(cheats::cheat_for_keys(cheats::FunctionKeys { f7: true, ..none }), Some(CheatOrder::GivePoints(50)));
}

#[test]
fn wav_files_are_framed_exactly() {
    let bytes = homage::sound::wav_bytes(&vec![0, -1, 256]);
    assert_eq!(bytes.len(), 44 + 6);
    assert_eq!(&bytes[0..4], b"RIFF");
    assert_eq!(&bytes[4..8], &42u32.to_le_bytes());
    assert_eq!(&bytes[8..16], b"WAVEfmt ");
    assert_eq!(&bytes[16..20], &16u32.to_le_bytes());
    assert_eq!(&bytes[20..24], &[1, 0, 1, 0]);
    assert_eq!(&bytes[24..28], &44_100u32.to_le_bytes());
    assert_eq!(&bytes[28..32], &88_200u32.to_le_bytes());
    assert_eq!(&bytes[32..36], &[2, 0, 16, 0]);
    assert_eq!(&bytes[36..40], b"data");
    assert_eq!(&bytes[40..44], &6u32.to_le_bytes());
    assert_eq!(&bytes[44..], &[0, 0, 255, 255, 0, 1]);
    assert_eq!(homage::sound::wav_bytes(&vec![]).len(), 44);
}

#[test]
fn bullets_only_hit_enemies_they_swept() {
    let c = |entity, owner, team, swept| combat::HitCandidate { entity, owner, team, swept };
    let candidates = vec![
        c(10, 1, Team::Blue, true),
        c(11, 2, Team::Blue, true),
        c(12, 3, Team::Red, false),
        c(13, 4, Team::Red, true),
        c(14, 5, Team::Red, true),
    ];
    assert_eq!(combat::pick_hit_target(1, Team::Blue, &candidates).map(|h| h.entity), Some(13));
    assert_eq!(combat::pick_hit_target(4, Team::Red, &candidates).map(|h| h.entity), Some(10));
    assert_eq!(combat::pick_hit_target(1, Team::Blue, &vec![c(11, 2, Team::Blue, true)]), None);
}

#[test]
fn motherships_only_take_enemy_fire_during_play() {
    let running = MatchState::new();
    assert!(combat::bullet_meets_mothership(&running, Team::Red, Team::Blue));
    assert!(!combat::bullet_meets_mothership(&running, Team::Blue, Team::Blue));
    let ending = MatchState { ending: Some((Team::Red, 10)) };
    assert!(!combat::bullet_meets_mothership(&ending, Team::Red, Team::Blue));
}

#[test]
fn one_owners_bullets_never_share_a_hash() {
    let mut seen = std::collections::HashSet::new();
    for tick in 0..=u16::MAX {
        assert!(seen.insert(ids::bullet_prespawn_hash(42, tick)), "tick {tick} repeats a hash");
    }
}

#[test]
fn a_released_press_fires_once_or_lapses() {
    // Pressed at 100 while the last shot (at 90) still cools down: fires
    // once, on the first tick the cooldown allows (107), then never again.
    let mut w = WeaponTimer { last_fire_tick: 90, cooldown_ticks: 16, fire_requested: None };
    assert!(!firing::fire_step(&mut w, 100, true));
    let shots: Vec<u16> = (101..140u16).filter(|&t| firing::fire_step(&mut w, t, false)).collect();
    assert_eq!(shots, vec![107]);
    // Pressed at 100 with the last shot at 99: the cooldown outlasts the
    // buffer window, so the press lapses silently at 109.
    let mut w = WeaponTimer { last_fire_tick: 99, cooldown_ticks: 16, fire_requested: None };
    assert!(!firing::fire_step(&mut w, 100, true));
    for t in 101..=108u16 {
        assert!(!firing::fire_step(&mut w, t, false));
        assert_eq!(w.fire_requested, Some(100));
    }
    assert!(!firing::fire_step(&mut w, 109, false));
    assert_eq!(w.fire_requested, None);
    assert!((110..200u16).all(|t| !firing::fire_step(&mut w, t, false)));
}

#[test]
fn respawn_countdowns_spawn_once() {
    let mut task = RespawnTask::after_death(7, 70);
    for _ in 0..sim::RESPAWN_DELAY_TICKS + 10 {
        assert_eq!(task.step(true), RespawnStep::Waiting, "no spawn before the confirmation");
    }
    task.confirm();
    assert_eq!(task.step(true), RespawnStep::Spawn);
    let mut early = RespawnTask::after_death(8, 80);
    early.confirm();
    for _ in 1..sim::RESPAWN_DELAY_TICKS {
        assert_eq!(early.step(true), RespawnStep::Waiting, "no spawn before the delay");
    }
    assert_eq!(early.step(false), RespawnStep::Dropped, "a disconnected player does not spawn");
}

#[test]
fn unlock_orders_get_one_answer() {
    let mut u = Unlocks::new();
    let mut points = Ledger::new();
    let mut banks = Ledger::new();
    banks.set(1, 12);
    points.set(1, 20);
    assert_eq!(unlocks::receive_unlock_orders(&mut u, &mut points, &banks, 1, &vec![]), None);
    let answer = unlocks::receive_unlock_orders(
        &mut u,
        &mut points,
        &banks,
        1,
        &vec![FittingId::ScatterGun, FittingId::ScatterGun, FittingId::LongLance, FittingId::GyroTuning],
    )
    .expect("orders are answered");
    assert_eq!(answer.bank, 12);
    assert_eq!(answer.points, 4, "scatter 8 once, lance unaffordable, gyro 8");
    assert_eq!(answer.unlocked, vec![FittingId::ScatterGun, FittingId::GyroTuning]);
}

#[test]
fn bullets_of_a_vanished_shooter_hit_nothing() {
    let target = vec![combat::HitCandidate { entity: 20, owner: 2, team: Team::Red, swept: true }];
    let alive = vec![combat::ShooterView { player: 1, team: Team::Blue, link: 11 }];
    assert_eq!(combat::bullet_target(1, &alive, &target).map(|h| h.entity), Some(20));
    assert_eq!(combat::bullet_target(3, &alive, &target), None);
    assert_eq!(combat::find_shooter(&alive, 1).map(|s| s.link), Some(11));
}

#[test]
fn outfitters_field_no_hulls() {
    assert_eq!(
        spawn_screen::hull_gate(HullKind::Harvester, Some(SpawnFacility::Outfitter), 100),
        Err(GateError::NotASpawnPoint)
    );
    assert_eq!(
        spawn_screen::hull_gate(HullKind::StrikeCarrier, Some(SpawnFacility::Outfitter), 100),
        Err(GateError::NeedsMothership)
    );
}
