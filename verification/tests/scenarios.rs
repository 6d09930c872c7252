//! Gameplay scenarios driven through the rules: purchases, fittings,
//! points, the economy, docking and the match lifecycle.

use homage::combat::{self, MatchState, MothershipHit};
use homage::economy::{
    self, DockedStates, DockingShip, MothershipInRange, ShipInRange, UndockSite,
};
use homage::fittings::{self, SpawnFacility};
use homage::hulls;
use homage::ledger::{KdStore, Ledger};
use homage::protocol::{CargoHold, FittingId, Health, HullKind, Loadout, SpawnOrder, Team};
use homage::respawn::{SpawnChoices, SpawnSite};
use homage::scoreboard;
use homage::sim;
use homage::spawn_screen::WealthCache;
use homage::teams::TeamAssignments;
use homage::unlocks::{self, UnlockOutcome, Unlocks};
use homage::world::{MothershipView, ShipView};
use homage::firing::{self, WeaponTimer};

/// The server-side rule state of a match.
struct Server {
    teams: TeamAssignments,
    banks: Ledger,
    points: Ledger,
    kd: KdStore,
    unlocks: Unlocks,
    choices: SpawnChoices,
    docked: DockedStates,
    ships: Vec<ShipView>,
    motherships: Vec<MothershipView>,
}

const BLUE_MOTHERSHIP: u64 = 9001;
const RED_MOTHERSHIP: u64 = 9002;

fn ship_entity(player: u64) -> u64 {
    1000 + player
}

impl Server {
    /// Players connect in order; each spawns as a free fighter.
    fn new(players: &[u64]) -> Self {
        let mut s = Server {
            teams: TeamAssignments::new(),
            banks: Ledger::new(),
            points: Ledger::new(),
            kd: KdStore::new(),
            unlocks: Unlocks::new(),
            choices: SpawnChoices::new(),
            docked: DockedStates::new(),
            ships: Vec::new(),
            motherships: vec![
                MothershipView { entity: BLUE_MOTHERSHIP, team: Team::Blue },
                MothershipView { entity: RED_MOTHERSHIP, team: Team::Red },
            ],
        };
        for &p in players {
            let team = s.teams.assign(p);
            s.ships.push(ShipView { entity: ship_entity(p), owner: p, team, kind: HullKind::Fighter });
        }
        s
    }

    fn team(&self, player: u64) -> Team {
        self.teams.get(player).unwrap()
    }

    fn hull(&self, player: u64) -> Option<HullKind> {
        self.ships.iter().find(|s| s.owner == player).map(|s| s.kind)
    }

    fn order(&mut self, player: u64, hull: HullKind, spawn_at: Option<u64>, loadout: Loadout) {
        self.choices.record(player, SpawnOrder { hull, spawn_at, loadout });
    }

    /// `shooter` kills `victim`'s fighter with stock one-damage shots.
    fn kill(&mut self, shooter: u64, victim: u64) {
        let kind = self.hull(victim).unwrap();
        let mut health = Health::new(fittings::max_health(kind, None));
        loop {
            let killed = combat::resolve_ship_hit(
                shooter, victim, 1, kind, &mut health, &mut self.points, &mut self.kd,
            );
            if killed {
                break;
            }
        }
        self.ships.retain(|s| s.owner != victim);
    }

    /// `player` respawns from their standing order.
    fn respawn(&mut self, player: u64) -> homage::respawn::RespawnPlan {
        let plan = homage::respawn::plan_respawn(
            player,
            &mut self.teams,
            &mut self.banks,
            &self.choices,
            &self.unlocks,
            &self.ships,
            &self.motherships,
        );
        self.ships.push(ShipView { entity: ship_entity(player), owner: player, team: plan.team, kind: plan.kind });
        plan
    }
}

#[test]
fn spawn_order_buys_a_harvester_on_respawn() {
    let mut net = Server::new(&[1, 2]);
    let cost = hulls::stats(HullKind::Harvester).cost;
    net.banks.set(2, cost + 5);
    net.order(2, HullKind::Harvester, None, Loadout::default());
    net.kill(1, 2);
    let plan = net.respawn(2);
    assert_eq!(plan.kind, HullKind::Harvester, "victim never respawned as a harvester");
    assert_eq!(net.banks.get(2), 5, "harvester cost not deducted");
    assert_eq!(
        fittings::cargo_capacity(plan.kind, plan.loadout.hull_mod),
        hulls::stats(HullKind::Harvester).cargo_capacity,
        "harvester stats not applied"
    );
}

#[test]
fn broke_players_fall_back_to_the_free_fighter() {
    let mut net = Server::new(&[1, 2]);
    net.banks.set(2, 3);
    net.order(2, HullKind::Harvester, None, Loadout::default());
    net.kill(1, 2);
    let plan = net.respawn(2);
    assert_eq!(plan.kind, HullKind::Fighter, "broke player should get the free fighter");
    assert_eq!(net.banks.get(2), 3, "no money should move on a fallback");
}

#[test]
fn corvette_is_denied_without_a_carrier() {
    let mut net = Server::new(&[1, 2]);
    net.banks.set(2, 100);
    net.order(2, HullKind::Corvette, None, Loadout::default());
    net.kill(1, 2);
    let plan = net.respawn(2);
    assert_eq!(plan.kind, HullKind::Fighter, "combat hull must be denied with no friendly carrier");
    assert_eq!(net.banks.get(2), 100, "denied purchase must not charge");
}

#[test]
fn self_destruct_swaps_hulls_solo() {
    let mut net = Server::new(&[1]);
    net.banks.set(1, 100);
    let mut hold = CargoHold::empty(fittings::cargo_capacity(HullKind::Fighter, None));
    hold.current = hold.capacity;
    net.order(1, HullKind::Harvester, None, Loadout::default());
    let aftermath = combat::scuttle(&mut net.kd, 1, 77, Some(hold));
    net.ships.retain(|s| s.owner != 1);
    assert_eq!(aftermath.respawn.unwrap().ticks_remaining, sim::RESPAWN_DELAY_TICKS);
    assert!(
        aftermath.fragments as usize >= sim::FIGHTER_CARGO_CAPACITY as usize,
        "scuttling should scatter the hold"
    );
    assert_eq!(net.respawn(1).kind, HullKind::Harvester, "never respawned as the ordered harvester");
}

#[test]
fn outfitter_chain_and_docked_refit() {
    let mut net = Server::new(&[1, 2, 3, 4, 5, 6]);
    assert_eq!(net.team(2), net.team(4));
    assert_eq!(net.team(2), net.team(6));

    // An outfitter with no fleet carrier alive is denied (no charge).
    net.banks.set(2, 200);
    net.order(2, HullKind::Outfitter, None, Loadout::default());
    net.kill(1, 2);
    assert_eq!(net.respawn(2).kind, HullKind::Fighter, "outfitter must be denied without a fleet carrier");
    assert_eq!(net.banks.get(2), 200, "denied build must not charge");

    // Client 4 builds the fleet carrier; client 2 then builds the outfitter at it.
    net.banks.set(4, 200);
    net.order(4, HullKind::FleetCarrier, None, Loadout::default());
    net.kill(1, 4);
    assert_eq!(net.respawn(4).kind, HullKind::FleetCarrier);
    net.order(2, HullKind::Outfitter, Some(ship_entity(4)), Loadout::default());
    net.kill(1, 2);
    let plan = net.respawn(2);
    assert_eq!(plan.kind, HullKind::Outfitter);
    assert_eq!(net.banks.get(2), 200 - 30, "outfitter costs 30");
    assert!(
        matches!(plan.site, SpawnSite::Carrier(s) if s.entity == ship_entity(4)),
        "outfitter must be built beside the fleet carrier"
    );

    // Client 6 unlocks blink, docks at the outfitter, refits and undocks.
    net.points.award(6, 50);
    assert_eq!(
        unlocks::apply_unlock_order(&mut net.unlocks, &mut net.points, 6, FittingId::BlinkThruster),
        UnlockOutcome::Unlocked
    );
    let bank_before = net.banks.get(6);
    let ship = DockingShip {
        player: 6,
        entity: ship_entity(6),
        team: net.team(6),
        hull: HullKind::Fighter,
        health: 3,
        cargo: 0,
        link: 66,
    };
    let candidates: Vec<ShipInRange> = net
        .ships
        .iter()
        .map(|s| ShipInRange { entity: s.entity, team: s.team, kind: s.kind, in_range: s.owner == 2 })
        .collect();
    let ms: Vec<MothershipInRange> = net
        .motherships
        .iter()
        .map(|m| MothershipInRange { entity: m.entity, team: m.team, in_range: false })
        .collect();
    let facility = economy::dock(ship, &ms, &candidates, &mut net.banks, &mut net.points, &mut net.docked);
    assert_eq!(facility, Some(ship_entity(2)), "dock never stowed the ship");
    net.ships.retain(|s| s.owner != 6);

    net.order(
        6,
        HullKind::Fighter,
        None,
        Loadout { utility: Some(FittingId::BlinkThruster), ..Default::default() },
    );
    let plan = economy::undock(6, &mut net.docked, &net.motherships, &net.ships, &net.choices, &net.unlocks)
        .expect("undock must be immediate (no respawn delay)");
    assert!(
        matches!(plan.site, UndockSite::Beside(s) if s.entity == ship_entity(2)),
        "must undock at the outfitter"
    );
    assert_eq!(plan.stowed.hull, HullKind::Fighter, "hull preserved");
    assert_eq!(
        plan.loadout.utility,
        Some(FittingId::BlinkThruster),
        "the outfitter's exclusive must equip on undock"
    );
    assert_eq!(net.banks.get(6), bank_before, "undocking is free");
}

#[test]
fn docking_at_a_fleet_carrier_deposits_the_hold() {
    let mut net = Server::new(&[1, 2, 3, 4]);
    net.banks.set(4, 200);
    net.order(4, HullKind::FleetCarrier, None, Loadout::default());
    net.kill(1, 4);
    assert_eq!(net.respawn(4).kind, HullKind::FleetCarrier);

    let ship = DockingShip {
        player: 2,
        entity: ship_entity(2),
        team: net.team(2),
        hull: HullKind::Fighter,
        health: 3,
        cargo: sim::FIGHTER_CARGO_CAPACITY,
        link: 22,
    };
    let candidates: Vec<ShipInRange> = net
        .ships
        .iter()
        .map(|s| ShipInRange { entity: s.entity, team: s.team, kind: s.kind, in_range: s.owner == 4 })
        .collect();
    let facility = economy::dock(ship, &Vec::new(), &candidates, &mut net.banks, &mut net.points, &mut net.docked);
    assert_eq!(facility, Some(ship_entity(4)), "dock never stowed the ship");
    assert_eq!(
        net.banks.get(2),
        sim::FIGHTER_CARGO_CAPACITY as u32,
        "docking at a dropoff must deposit the (whole) hold"
    );
    net.ships.retain(|s| s.owner != 2);
    let plan = economy::undock(2, &mut net.docked, &net.motherships, &net.ships, &net.choices, &net.unlocks)
        .unwrap();
    let mut health = Health::new(3);
    let mut hold = CargoHold::empty(sim::FIGHTER_CARGO_CAPACITY);
    economy::restore_stowed(&mut health, &mut hold, plan.stowed.health, plan.stowed.cargo);
    assert_eq!(hold.current, 0, "hold comes back empty after the deposit");
}

#[test]
fn docking_requires_being_at_the_facility() {
    let mut net = Server::new(&[1]);
    let ship = DockingShip {
        player: 1,
        entity: ship_entity(1),
        team: net.team(1),
        hull: HullKind::Fighter,
        health: 3,
        cargo: 0,
        link: 11,
    };
    let ms: Vec<MothershipInRange> = net
        .motherships
        .iter()
        .map(|m| MothershipInRange { entity: m.entity, team: m.team, in_range: false })
        .collect();
    let facility = economy::dock(ship, &ms, &Vec::new(), &mut net.banks, &mut net.points, &mut net.docked);
    assert_eq!(facility, None, "an out-of-range dock request must be ignored");
}

#[test]
fn unlock_spends_points_and_survives_death() {
    let mut net = Server::new(&[1]);
    net.points.award(1, 50);
    let cost = fittings::def(FittingId::ScatterGun).cost;
    unlocks::apply_unlock_order(&mut net.unlocks, &mut net.points, 1, FittingId::ScatterGun);
    assert_eq!(net.points.get(1), 50 - cost, "unlock never charged");
    assert_eq!(
        unlocks::apply_unlock_order(&mut net.unlocks, &mut net.points, 1, FittingId::ScatterGun),
        UnlockOutcome::AlreadyOwned
    );
    assert_eq!(net.points.get(1), 50 - cost, "double charge");
    combat::scuttle(&mut net.kd, 1, 11, None);
    net.ships.retain(|s| s.owner != 1);
    net.respawn(1);
    assert_eq!(net.points.get(1), 50 - cost, "points must persist");
    assert!(net.unlocks.has(1, FittingId::ScatterGun));
}

#[test]
fn loadout_respects_facility_stocking() {
    let mut net = Server::new(&[1]);
    net.points.award(1, 100);
    unlocks::apply_unlock_order(&mut net.unlocks, &mut net.points, 1, FittingId::ScatterGun);
    unlocks::apply_unlock_order(&mut net.unlocks, &mut net.points, 1, FittingId::ArmorPlate);
    net.order(
        1,
        HullKind::Fighter,
        None,
        Loadout { weapon: FittingId::ScatterGun, utility: None, hull_mod: Some(FittingId::ArmorPlate) },
    );
    combat::scuttle(&mut net.kd, 1, 11, None);
    net.ships.retain(|s| s.owner != 1);
    let plan = net.respawn(1);
    assert_eq!(
        plan.loadout.weapon,
        FittingId::PulseCannon,
        "carrier-stocked weapon must fall back at the mothership"
    );
    assert_eq!(plan.loadout.hull_mod, Some(FittingId::ArmorPlate));
    assert_eq!(
        fittings::max_health(plan.kind, plan.loadout.hull_mod),
        sim::SHIP_HEALTH + 2,
        "armor plate must add hull"
    );
}

#[test]
fn scatter_gun_fires_three_pellets() {
    let mut net = Server::new(&[1, 2, 3, 4]);
    net.banks.set(4, 100);
    net.order(4, HullKind::StrikeCarrier, None, Loadout::default());
    net.kill(1, 4);
    assert_eq!(net.respawn(4).kind, HullKind::StrikeCarrier);
    net.points.award(2, 50);
    unlocks::apply_unlock_order(&mut net.unlocks, &mut net.points, 2, FittingId::ScatterGun);
    net.order(
        2,
        HullKind::Fighter,
        Some(ship_entity(4)),
        Loadout { weapon: FittingId::ScatterGun, ..Default::default() },
    );
    combat::scuttle(&mut net.kd, 2, 22, None);
    net.ships.retain(|s| s.owner != 2);
    let plan = net.respawn(2);
    assert_eq!(plan.loadout.weapon, FittingId::ScatterGun, "scatter gun should equip at the carrier");
    let profile = fittings::weapon_profile(plan.loadout.weapon, plan.kind).unwrap();
    assert_eq!(profile.pellets, 3, "one scatter volley should be 3 pellets");
}

#[test]
fn unlocking_while_dead_reports_back() {
    let mut net = Server::new(&[1]);
    net.points.award(1, 50);
    combat::scuttle(&mut net.kd, 1, 11, None);
    net.ships.retain(|s| s.owner != 1);
    unlocks::apply_unlock_order(&mut net.unlocks, &mut net.points, 1, FittingId::Afterburner);
    let cost = fittings::def(FittingId::Afterburner).cost;
    assert_eq!(net.points.get(1), 50 - cost, "unlock never processed while dead");
    let update = unlocks::wealth_snapshot(&net.banks, &net.points, &net.unlocks, 1);
    let mut cache = WealthCache::new();
    cache.apply_update(update.bank, update.points, &update.unlocked);
    assert_eq!(cache.points, 50 - cost);
    assert!(cache.has_unlock(FittingId::Afterburner), "dead client never learned about its unlock");
}

#[test]
fn combat_awards_points_and_they_survive_death() {
    let mut net = Server::new(&[1, 2]);
    net.kill(1, 2);
    let expected = sim::SHIP_HEALTH as u32 * sim::POINTS_PER_HIT + hulls::kill_bounty(HullKind::Fighter);
    assert_eq!(net.points.get(1), expected, "kill should pay {expected} (3 hits + fighter bounty)");
    combat::scuttle(&mut net.kd, 1, 11, None);
    net.ships.retain(|s| s.owner != 1);
    net.respawn(1);
    assert_eq!(net.points.get(1), expected, "points must survive death");
}

#[test]
fn deposits_award_points() {
    let mut net = Server::new(&[1]);
    let team = net.team(1);
    let mut hold = CargoHold::empty(sim::FIGHTER_CARGO_CAPACITY);
    hold.current = hold.capacity;
    let capacity = hold.capacity as u32;
    let mut tick: u32 = 0;
    while hold.current > 0 && tick < 512 {
        if economy::deposit_due(tick) {
            economy::deposit_step(1, team, &mut hold, &vec![team], &mut net.banks, &mut net.points);
        }
        tick += 1;
    }
    assert_eq!(hold.current, 0, "deposit never completed");
    assert_eq!(
        net.points.get(1),
        capacity * sim::POINTS_PER_ORE_DEPOSITED,
        "each deposited unit should pay a point"
    );
}

#[test]
fn roster_replicates_kd_and_points_to_everyone() {
    let mut net = Server::new(&[1, 2]);
    net.kill(1, 2);
    let killer_points =
        sim::SHIP_HEALTH as u32 * sim::POINTS_PER_HIT + hulls::kill_bounty(HullKind::Fighter);
    let r1 = scoreboard::roster_row(1, &net.teams, &net.kd, &net.points).unwrap();
    let r2 = scoreboard::roster_row(2, &net.teams, &net.kd, &net.points).unwrap();
    assert_eq!((r1.player, r1.kills, r1.deaths, r1.points), (1, 1, 0, killer_points));
    assert_eq!((r2.player, r2.kills, r2.deaths), (2, 0, 1));
    net.respawn(2);
    let r2 = scoreboard::roster_row(2, &net.teams, &net.kd, &net.points).unwrap();
    assert_eq!(r2.deaths, 1, "death must persist after respawn");
}

#[test]
fn depositing_at_the_mothership_banks_resources() {
    let mut net = Server::new(&[1]);
    let team = net.team(1);
    let mut hold = CargoHold::empty(sim::FIGHTER_CARGO_CAPACITY);
    hold.current = hold.capacity;
    let capacity = hold.capacity as u32;
    for tick in 0..512u32 {
        if economy::deposit_due(tick) {
            economy::deposit_step(1, team, &mut hold, &vec![team], &mut net.banks, &mut net.points);
        }
    }
    assert_eq!(net.banks.get(1), capacity, "deposit never completed");
    assert_eq!(hold.current, 0);
}

#[test]
fn enemy_dropoffs_refuse_your_ore() {
    let mut net = Server::new(&[1]);
    let team = net.team(1);
    let mut hold = CargoHold::empty(sim::FIGHTER_CARGO_CAPACITY);
    hold.current = hold.capacity;
    for tick in 0..256u32 {
        if economy::deposit_due(tick) {
            economy::deposit_step(1, team, &mut hold, &vec![team.opponent()], &mut net.banks, &mut net.points);
        }
    }
    assert_eq!(net.banks.get(1), 0, "enemy dropoff accepted a deposit");
    assert_eq!(hold.current, hold.capacity, "cargo drained at an enemy dropoff");
}

#[test]
fn flying_over_a_fragment_scoops_it() {
    let holds = vec![CargoHold::empty(sim::FIGHTER_CARGO_CAPACITY)];
    let who = economy::pick_scooper(&holds, sim::FRAGMENT_VALUE);
    assert_eq!(who, Some(0));
    let mut hold = holds[0];
    economy::load(&mut hold, sim::FRAGMENT_VALUE);
    assert_eq!(hold.current, sim::FRAGMENT_VALUE, "fragment was never scooped");
}

#[test]
fn a_full_hold_rejects_further_scooping() {
    let mut hold = CargoHold::empty(sim::FIGHTER_CARGO_CAPACITY);
    hold.current = hold.capacity;
    assert_eq!(
        economy::pick_scooper(&vec![hold], sim::FRAGMENT_VALUE),
        None,
        "full ship should leave ore floating"
    );
}

#[test]
fn dying_with_cargo_drops_it_and_keeps_the_bank() {
    let mut net = Server::new(&[1, 2]);
    // Victim (client 2) has banked ore AND a full hold.
    net.banks.set(2, 7);
    let mut hold = CargoHold::empty(fittings::cargo_capacity(HullKind::Fighter, None));
    hold.current = hold.capacity;
    let dropped_expected = hold.current as usize;
    assert!(dropped_expected > 0);
    net.kill(1, 2);
    let aftermath = combat::after_kill(2, Some(22), Some(hold));
    assert!(aftermath.fragments as usize >= dropped_expected, "expected >= {dropped_expected} dropped fragments");
    assert_eq!(net.banks.get(2), 7, "bank must survive death");
    assert!(aftermath.respawn.is_some(), "target never respawned");
    let plan = net.respawn(2);
    let fresh = CargoHold::empty(fittings::cargo_capacity(plan.kind, plan.loadout.hull_mod));
    assert_eq!(fresh.current, 0);
    assert_eq!(net.banks.get(2), 7, "respawned ship's bank");
}

#[test]
fn target_drone_takes_hits_and_stays_dead() {
    let mut net = Server::new(&[1]);
    let mut drones = 0u64;
    let effect = homage::cheats::apply_cheat(
        homage::cheats::CheatOrder::SpawnTargetDrone,
        1,
        Some(net.team(1)),
        &mut net.banks,
        &mut net.points,
        &mut drones,
    );
    let homage::cheats::CheatEffect::SpawnDrone { player: drone, team, hull } = effect else {
        panic!("drone never spawned");
    };
    assert_ne!(team, net.team(1));
    net.ships.push(ShipView { entity: ship_entity(drone), owner: drone, team, kind: hull });
    assert_eq!(net.ships.len(), 2);

    // Shoot it dead.
    let mut health = Health::new(fittings::max_health(hull, None));
    let target = vec![combat::HitCandidate { entity: ship_entity(drone), owner: drone, team, swept: true }];
    let mut died = false;
    for _ in 0..16 {
        let hit = combat::pick_hit_target(1, net.team(1), &target).expect("bullet must connect");
        if combat::resolve_ship_hit(1, hit.owner, 1, hull, &mut health, &mut net.points, &mut net.kd) {
            died = true;
            break;
        }
    }
    assert!(died, "drone never died");
    net.ships.retain(|s| s.owner != drone);
    assert_eq!(net.ships.len(), 1);

    // And it must not respawn: no client flies it.
    assert_eq!(combat::after_kill(drone, None, None).respawn, None, "drones must stay dead");
}

#[test]
fn resource_controller_is_a_mobile_dropoff() {
    let mut net = Server::new(&[1, 2, 3]);
    assert_eq!(net.team(1), net.team(3), "clients 1 and 3 should share a team");
    net.banks.set(3, 100);
    net.order(3, HullKind::ResourceController, None, Loadout::default());
    net.kill(2, 3);
    assert_eq!(net.respawn(3).kind, HullKind::ResourceController);
    assert!(hulls::is_hover_dropoff(HullKind::ResourceController));
    let team = net.team(1);
    let before = net.banks.get(1);
    let mut hold = CargoHold::empty(sim::FIGHTER_CARGO_CAPACITY);
    hold.current = hold.capacity;
    for tick in 0..512u32 {
        if economy::deposit_due(tick) {
            economy::deposit_step(1, team, &mut hold, &vec![net.team(3)], &mut net.banks, &mut net.points);
        }
    }
    assert_eq!(hold.current, 0, "hauler never finished depositing at the controller");
    assert_eq!(
        net.banks.get(1) - before,
        sim::FIGHTER_CARGO_CAPACITY as u32,
        "deposit at a friendly controller should bank the full hold"
    );
}

#[test]
fn torpedoes_kill_the_mothership_and_the_match_resets() {
    let mut net = Server::new(&[1, 2, 3, 4]);
    let team1 = net.team(1);
    let team2 = team1.opponent();
    let mut state = MatchState::new();

    // Small arms bounce off.
    let mut health2 = Health::new(sim::MOTHERSHIP_HEALTH);
    let stock = fittings::weapon_profile(FittingId::PulseCannon, HullKind::Fighter).unwrap();
    for _ in 0..12 {
        assert_eq!(
            combat::resolve_mothership_hit(&mut state, &mut health2, team1, stock.damage),
            MothershipHit::Bounced
        );
    }
    assert_eq!(
        (health2.current, health2.max),
        (sim::MOTHERSHIP_HEALTH, sim::MOTHERSHIP_HEALTH),
        "small arms must bounce off the mothership"
    );

    // Client 4 becomes team 2's carrier so client 2 can field a bomber.
    net.banks.set(4, 100);
    net.order(4, HullKind::StrikeCarrier, None, Loadout::default());
    net.kill(1, 4);
    assert_eq!(net.respawn(4).kind, HullKind::StrikeCarrier);
    net.banks.set(2, 100);
    net.order(2, HullKind::Bomber, Some(ship_entity(4)), Loadout::default());
    combat::scuttle(&mut net.kd, 2, 22, None);
    net.ships.retain(|s| s.owner != 2);
    let plan = net.respawn(2);
    assert_eq!(plan.kind, HullKind::Bomber);
    let torpedo = fittings::weapon_profile(plan.loadout.weapon, plan.kind).unwrap();

    // Torpedoes get through.
    let mut health1 = Health::new(sim::MOTHERSHIP_HEALTH);
    combat::resolve_mothership_hit(&mut state, &mut health1, team2, torpedo.damage);
    assert!(health1.current < health1.max, "torpedoes must damage the mothership");
    health1.current = 1;
    assert_eq!(
        combat::resolve_mothership_hit(&mut state, &mut health1, team2, torpedo.damage),
        MothershipHit::Destroyed,
        "the killing blow never landed"
    );

    // Everyone hears who won, then the world resets.
    net.points.award(2, 3);
    let mut announced = false;
    let first = combat::match_step(&mut state, &mut announced);
    assert_eq!(first.announce, Some(team2));
    let mut steps = 1;
    loop {
        let step = combat::match_step(&mut state, &mut announced);
        assert_eq!(step.announce, None);
        steps += 1;
        if step.reset {
            break;
        }
    }
    assert_eq!(steps, sim::MATCH_RESET_TICKS + 1);
    combat::clear_ledgers(&mut net.banks, &mut net.points, &mut net.unlocks, &mut net.kd, &mut net.docked);
    assert_eq!(net.banks.get(2), 0, "banks must reset");
    assert_eq!(net.points.get(2), 0, "points must reset");
    assert!(state.ending.is_none());
}

#[test]
fn give_ore_cheat_fills_the_bank() {
    let mut net = Server::new(&[1]);
    net.banks.award(1, 50);
    assert_eq!(net.banks.get(1), 50);
}

#[test]
fn fire_tap_during_cooldown_is_buffered_not_eaten() {
    let mut weapon = WeaponTimer::new(sim::FIRE_COOLDOWN_TICKS);
    let mut bullets = 0;
    let mut tick: u16 = 1000;
    // first tap: four ticks of fire
    for _ in 0..4 {
        if firing::fire_step(&mut weapon, tick, true) {
            bullets += 1;
        }
        tick += 1;
    }
    assert_eq!(bullets, 1, "first tap never produced a bullet");
    // released for 8 ticks, then a 3-tick tap during the cooldown
    for _ in 0..8 {
        if firing::fire_step(&mut weapon, tick, false) {
            bullets += 1;
        }
        tick += 1;
    }
    for _ in 0..3 {
        if firing::fire_step(&mut weapon, tick, true) {
            bullets += 1;
        }
        tick += 1;
    }
    for _ in 0..64 {
        if firing::fire_step(&mut weapon, tick, false) {
            bullets += 1;
        }
        tick += 1;
    }
    assert!(bullets >= 2, "buffered fire tap was eaten by the cooldown");
}

#[test]
fn clients_connect_and_replicate() {
    let net = Server::new(&[1, 2]);
    assert_eq!(net.ships.len(), 2, "server never spawned both ships");
    for p in [1u64, 2] {
        let found = homage::world::find_ship(&net.ships, homage::world::ShipQuery::Entity(ship_entity(p)));
        assert_eq!(found.map(|s| s.owner), Some(p));
    }
}

#[test]
fn bullets_kill_and_respawn() {
    let mut net = Server::new(&[1, 2]);
    let mut weapon = WeaponTimer::new(sim::FIRE_COOLDOWN_TICKS);
    let mut health = Health::new(fittings::max_health(HullKind::Fighter, None));
    let mut hits = 0;
    let mut died = false;
    for tick in 0..300u16 {
        if firing::fire_step(&mut weapon, tick, true) {
            hits += 1;
            if combat::resolve_ship_hit(1, 2, 1, HullKind::Fighter, &mut health, &mut net.points, &mut net.kd) {
                died = true;
                break;
            }
        }
    }
    assert!(hits > 0, "no bullet ever hit the target");
    assert!(died, "target never died");
    net.ships.retain(|s| s.owner != 2);
    let mut task = homage::respawn::RespawnTask::after_death(2, 22);
    task.confirm();
    let mut ready = false;
    for _ in 0..=sim::RESPAWN_DELAY_TICKS {
        if task.tick() {
            ready = true;
            break;
        }
    }
    assert!(ready, "target never respawned");
    let plan = net.respawn(2);
    assert_eq!(plan.kind, HullKind::Fighter);
    assert_eq!(fittings::max_health(plan.kind, plan.loadout.hull_mod), sim::SHIP_HEALTH);
}

#[test]
fn teams_balance_and_ships_spawn_at_their_anchor() {
    let mut net = Server::new(&[1, 2]);
    assert_ne!(net.team(1), net.team(2), "two players should split teams");
    for (killer, p) in [(2u64, 1u64), (1, 2)] {
        net.kill(killer, p);
        let plan = net.respawn(p);
        assert_eq!(plan.team, net.team(p));
        assert_eq!(plan.site, SpawnSite::Mothership, "ship {p} must spawn at its mothership");
        assert_eq!(plan.facility, SpawnFacility::Mothership);
    }
}

#[test]
fn motherships_replicate_to_clients() {
    let net = Server::new(&[1]);
    for (entity, team) in [(BLUE_MOTHERSHIP, Team::Blue), (RED_MOTHERSHIP, Team::Red)] {
        let m = homage::world::find_mothership(&net.motherships, entity);
        assert_eq!(m.map(|m| m.team), Some(team), "no {team:?} mothership");
    }
}
