//! Respawning: the death countdown, the standing spawn orders, and the
//! purchase decision that turns an order into a hull, a spawn site and a
//! validated loadout. Combat hulls need a live friendly spawn carrier,
//! sub-carriers a friendly fleet carrier, carrier-types build at the
//! mothership; a hull the player cannot have or afford becomes the free
//! fighter and costs nothing.

use vstd::prelude::*;
use std::collections::HashMap;
use crate::fittings::SpawnFacility;
use crate::hulls::{self, HullClass, spec_class, spec_cost};
use crate::ledger::{Ledger, spec_balance};
use crate::loadout::{self, spec_validate_loadout, loadout_valid};
use crate::protocol::{HullKind, Loadout, SpawnOrder, Team, spec_default_spawn_order};
use crate::teams::{TeamAssignments, spec_assigned_team};
use crate::unlocks::Unlocks;
use crate::world::{MothershipView, ShipQuery, ShipView, find_mothership, find_ship, lemma_find_sound, spec_find, spec_find_mothership};

verus! {

broadcast use vstd::std_specs::hash::group_hash_axioms;

/// A dead player's respawn countdown. The countdown is the earliest spawn
/// moment; the spawn itself waits for the player's confirmation.
#[derive(Debug, Clone, Copy, PartialEq, Eq, Structural)]
pub struct RespawnTask {
    pub client_id: u64,
    pub link: u64,
    pub ticks_remaining: i32,
    pub confirmed: bool,
}

impl RespawnTask {
    /// A fresh countdown after a death.
    pub fn after_death(client_id: u64, link: u64) -> (r: RespawnTask)
        ensures
            r == (RespawnTask {
                client_id,
                link,
                ticks_remaining: crate::sim::RESPAWN_DELAY_TICKS,
                confirmed: false,
            }),
    {
        RespawnTask {
            client_id,
            link,
            ticks_remaining: crate::sim::RESPAWN_DELAY_TICKS,
            confirmed: false,
        }
    }

    /// Advance one tick; true when the player should spawn now (the delay
    /// has run out and the spawn was confirmed).
    pub fn tick(&mut self) -> (ready: bool)
        requires
            old(self).ticks_remaining > i32::MIN,
        ensures
            final(self).ticks_remaining == old(self).ticks_remaining - 1,
            final(self).client_id == old(self).client_id,
            final(self).link == old(self).link,
            final(self).confirmed == old(self).confirmed,
            ready == (final(self).ticks_remaining <= 0 && old(self).confirmed),
    {
        self.ticks_remaining = self.ticks_remaining - 1;
        self.ticks_remaining <= 0 && self.confirmed
    }

    /// The player clicked deploy (early confirms are remembered).
    pub fn confirm(&mut self)
        ensures
            *final(self) == (RespawnTask { confirmed: true, ..*old(self) }),
    {
        self.confirmed = true;
    }
}

/// A respawn's loadout is validated against what its spawn point really
/// stocks: a ship spawning beside a fleet carrier is stocked as at a fleet
/// carrier, beside a strike carrier as at a strike carrier, and at the
/// mothership ring as at the mothership; the carrier is a live friendly
/// spawn carrier from the ships handed in; and every fitting of the loadout
/// is free or unlocked by the player, and stocked at that facility.
pub proof fn lemma_respawn_stocks_as_its_site(
    player: u64,
    team: Team,
    order: SpawnOrder,
    ships: Seq<ShipView>,
    ms: Seq<MothershipView>,
    bank: u32,
    u: Map<u64, Set<crate::protocol::FittingId>>,
)
    ensures
        ({
            let p = spec_plan(player, team, order, ships, ms, bank, u);
            &&& p.site == SpawnSite::Mothership ==> p.facility == SpawnFacility::Mothership
            &&& p.site matches SpawnSite::Carrier(s) ==> {
                &&& ships.contains(s)
                &&& s.team == team
                &&& (s.kind == HullKind::FleetCarrier || s.kind == HullKind::StrikeCarrier)
                &&& s.kind == HullKind::FleetCarrier ==> p.facility == SpawnFacility::FleetCarrier
                &&& s.kind == HullKind::StrikeCarrier ==> p.facility == SpawnFacility::StrikeCarrier
            }
            &&& crate::fittings::spec_stocked_at(crate::fittings::spec_stocking(p.loadout.weapon), p.facility)
            &&& crate::fittings::spec_unlock_cost(p.loadout.weapon) == 0 || (u.contains_key(player)
                && u[player].contains(p.loadout.weapon))
            &&& p.loadout.utility matches Some(f) ==> crate::fittings::spec_stocked_at(
                crate::fittings::spec_stocking(f),
                p.facility,
            ) && (crate::fittings::spec_unlock_cost(f) == 0 || (u.contains_key(player)
                && u[player].contains(f)))
            &&& p.loadout.hull_mod matches Some(f) ==> crate::fittings::spec_stocked_at(
                crate::fittings::spec_stocking(f),
                p.facility,
            ) && (crate::fittings::spec_unlock_cost(f) == 0 || (u.contains_key(player)
                && u[player].contains(f)))
        }),
{
    lemma_find_sound(ships, ShipQuery::FleetCarrierOf(team));
    lemma_find_sound(ships, ShipQuery::SpawnCarrierOf(team));
    match order.spawn_at {
        Some(e) => lemma_find_sound(ships, ShipQuery::Entity(e)),
        None => {},
    }
    let p = spec_plan(player, team, order, ships, ms, bank, u);
    crate::loadout::lemma_validation_equips_only_unlocked_stocked(order.loadout, p.facility, player, u);
}

/// What a respawn countdown does on one tick.
#[derive(Debug, Clone, Copy, PartialEq, Eq, Structural)]
pub enum RespawnStep {
    /// Still counting down or waiting for the confirmation.
    Waiting,
    /// Due, but the client disconnected while dead: the countdown is
    /// dropped and nothing spawns.
    Dropped,
    /// Due: the countdown is dropped and the player's ship spawns now.
    Spawn,
}

/// One tick of a countdown whose client link is (or is not) still alive:
/// the new countdown and what happens.
pub open spec fn spec_respawn_step(task: RespawnTask, link_alive: bool) -> (RespawnTask, RespawnStep) {
    let t = RespawnTask { ticks_remaining: (task.ticks_remaining - 1) as i32, ..task };
    if t.ticks_remaining > 0 || !t.confirmed {
        (t, RespawnStep::Waiting)
    } else if link_alive {
        (t, RespawnStep::Spawn)
    } else {
        (t, RespawnStep::Dropped)
    }
}

impl RespawnTask {
    /// Advance one tick. When the countdown has run out and the spawn was
    /// confirmed the countdown is over: the ship spawns if the client is
    /// still connected, and nothing spawns if not.
    pub fn step(&mut self, link_alive: bool) -> (r: RespawnStep)
        requires
            old(self).ticks_remaining > i32::MIN,
        ensures
            (*final(self), r) == spec_respawn_step(*old(self), link_alive),
    {
        let ready = self.tick();
        if !ready {
            RespawnStep::Waiting
        } else if link_alive {
            RespawnStep::Spawn
        } else {
            RespawnStep::Dropped
        }
    }
}

/// Whether a confirmation arrives within the first `n` ticks of a run.
pub open spec fn confirmed_within(confirms: Seq<bool>, n: int) -> bool
    decreases n,
{
    if n <= 0 || confirms.len() == 0 {
        false
    } else {
        confirms[0] || confirmed_within(confirms.drop_first(), n - 1)
    }
}

/// A countdown driven tick by tick, a confirmation possibly arriving before
/// each tick (`confirms`) and the client link alive or not at each tick
/// (`links`), until it is over: what each tick did.
pub open spec fn spec_respawn_run(task: RespawnTask, confirms: Seq<bool>, links: Seq<bool>) -> Seq<
    RespawnStep,
>
    decreases confirms.len(),
{
    if confirms.len() == 0 || links.len() != confirms.len() {
        Seq::empty()
    } else {
        let t1 = if confirms[0] {
            RespawnTask { confirmed: true, ..task }
        } else {
            task
        };
        let (t2, step) = spec_respawn_step(t1, links[0]);
        if step == RespawnStep::Waiting {
            seq![step] + spec_respawn_run(t2, confirms.drop_first(), links.drop_first())
        } else {
            seq![step]
        }
    }
}

/// A respawn countdown spawns at most once: tick `k` of a run ends the
/// countdown exactly when, by then, the spawn was confirmed and the delay
/// has run out (`ticks_remaining - (k + 1) <= 0`); that tick is the last one
/// of the run, it spawns the ship if the client is still connected and
/// spawns nothing if not, and every earlier tick only waits.
pub proof fn lemma_respawn_spawns_once(task: RespawnTask, confirms: Seq<bool>, links: Seq<bool>)
    requires
        links.len() == confirms.len(),
        task.ticks_remaining - confirms.len() > i32::MIN,
    ensures
        ({
            let run = spec_respawn_run(task, confirms, links);
            &&& run.len() <= confirms.len()
            &&& forall|k: int|
                0 <= k < run.len() ==> (#[trigger] run[k] != RespawnStep::Waiting <==> ((task.confirmed
                    || confirmed_within(confirms, k + 1)) && task.ticks_remaining - (k + 1) <= 0))
            &&& forall|k: int| 0 <= k < run.len() && #[trigger] run[k] != RespawnStep::Waiting ==> k == run.len() - 1
            &&& forall|k: int| 0 <= k < run.len() && #[trigger] run[k] == RespawnStep::Spawn ==> links[k]
            &&& forall|k: int| 0 <= k < run.len() && #[trigger] run[k] == RespawnStep::Dropped ==> !links[k]
            &&& run.len() < confirms.len() ==> run.len() > 0 && run[run.len() - 1] != RespawnStep::Waiting
        }),
    decreases confirms.len(),
{
    if confirms.len() > 0 {
        let t1 = if confirms[0] {
            RespawnTask { confirmed: true, ..task }
        } else {
            task
        };
        let (t2, step) = spec_respawn_step(t1, links[0]);
        let run = spec_respawn_run(task, confirms, links);
        if step == RespawnStep::Waiting {
            let cs = confirms.drop_first();
            let ls = links.drop_first();
            lemma_respawn_spawns_once(t2, cs, ls);
            let rest = spec_respawn_run(t2, cs, ls);
            assert(run == seq![step] + rest);
            assert forall|k: int| 1 <= k <= cs.len() implies #[trigger] confirmed_within(confirms, k)
                == (confirms[0] || confirmed_within(cs, k - 1)) by {}
            assert forall|k: int| 0 <= k < run.len() implies (#[trigger] run[k] != RespawnStep::Waiting
                <==> ((task.confirmed || confirmed_within(confirms, k + 1)) && task.ticks_remaining - (k
                + 1) <= 0)) by {
                if k > 0 {
                    assert(run[k] == rest[k - 1]);
                    assert(confirmed_within(confirms, k + 1) == (confirms[0] || confirmed_within(cs, k)));
                } else {
                    assert(confirmed_within(confirms, 1) == (confirms[0] || confirmed_within(cs, 0)));
                }
            }
            assert forall|k: int| 0 <= k < run.len() && #[trigger] run[k] == RespawnStep::Spawn implies links[k] by {
                if k > 0 {
                    assert(run[k] == rest[k - 1]);
                }
            }
            assert forall|k: int| 0 <= k < run.len() && #[trigger] run[k] == RespawnStep::Dropped implies !links[k] by {
                if k > 0 {
                    assert(run[k] == rest[k - 1]);
                }
            }
            assert forall|k: int| 0 <= k < run.len() && #[trigger] run[k] != RespawnStep::Waiting implies k == run.len() - 1 by {
                if k > 0 {
                    assert(run[k] == rest[k - 1]);
                }
            }
            if run.len() < confirms.len() {
                assert(run[run.len() - 1] == rest[rest.len() - 1]);
            }
        } else {
            assert(run == seq![step]);
            assert(confirmed_within(confirms, 1) == (confirms[0] || confirmed_within(confirms.drop_first(), 0)));
        }
    }
}

/// Each player's standing spawn order.
pub struct SpawnChoices(pub HashMap<u64, SpawnOrder>);

impl View for SpawnChoices {
    type V = Map<u64, SpawnOrder>;

    open spec fn view(&self) -> Map<u64, SpawnOrder> {
        self.0@
    }
}

/// The order standing for `player`: the last one sent, or the free fighter.
pub open spec fn spec_standing_order(c: Map<u64, SpawnOrder>, player: u64) -> SpawnOrder {
    if c.contains_key(player) {
        c[player]
    } else {
        spec_default_spawn_order()
    }
}

impl SpawnChoices {
    /// No orders yet.
    pub fn new() -> (r: SpawnChoices)
        ensures
            r@ == Map::<u64, SpawnOrder>::empty(),
    {
        SpawnChoices(HashMap::new())
    }

    /// Remember the latest order of `player`.
    pub fn record(&mut self, player: u64, order: SpawnOrder)
        ensures
            final(self)@ == old(self)@.insert(player, order),
    {
        self.0.insert(player, order);
    }

    /// The order standing for `player`.
    pub fn standing(&self, player: u64) -> (r: SpawnOrder)
        ensures
            r == spec_standing_order(self@, player),
    {
        match self.0.get(&player) {
            Some(o) => *o,
            None => SpawnOrder::fallback(),
        }
    }
}

/// Where a ship spawns.
#[derive(Debug, Clone, Copy, PartialEq, Eq, Structural)]
pub enum SpawnSite {
    /// On the ring around the team's mothership.
    Mothership,
    /// Beside this friendly carrier.
    Carrier(ShipView),
}

/// What a respawn turns into.
#[derive(Debug, Clone, Copy, PartialEq, Eq, Structural)]
pub struct RespawnPlan {
    pub team: Team,
    pub kind: HullKind,
    pub site: SpawnSite,
    pub facility: SpawnFacility,
    pub loadout: Loadout,
    /// Ore charged for the hull.
    pub cost: u32,
}

/// The facility the order names, if it is a live friendly spawn carrier.
pub open spec fn spec_requested_carrier(order: SpawnOrder, team: Team, ships: Seq<ShipView>) -> Option<
    ShipView,
> {
    match order.spawn_at {
        None => None,
        Some(e) => match spec_find(ships, ShipQuery::Entity(e)) {
            Some(s) => if s.team == team && hulls::spec_is_spawn_carrier(s.kind) {
                Some(s)
            } else {
                None
            },
            None => None,
        },
    }
}

/// Whether the order names the team's own mothership.
pub open spec fn spec_requested_mothership(
    order: SpawnOrder,
    team: Team,
    ms: Seq<MothershipView>,
) -> bool {
    match order.spawn_at {
        None => false,
        Some(e) => match spec_find_mothership(ms, e) {
            Some(m) => m.team == team,
            None => false,
        },
    }
}

/// The carrier the ordered hull would spawn beside, by its class.
pub open spec fn spec_carrier_spawn(
    order: SpawnOrder,
    team: Team,
    ships: Seq<ShipView>,
    ms: Seq<MothershipView>,
) -> Option<ShipView> {
    let requested = spec_requested_carrier(order, team, ships);
    match spec_class(order.hull) {
        HullClass::CarrierType => None,
        HullClass::SubCarrier => match requested {
            Some(s) => if s.kind == HullKind::FleetCarrier {
                Some(s)
            } else {
                spec_find(ships, ShipQuery::FleetCarrierOf(team))
            },
            None => spec_find(ships, ShipQuery::FleetCarrierOf(team)),
        },
        HullClass::Combat => match requested {
            Some(s) => Some(s),
            None => spec_find(ships, ShipQuery::SpawnCarrierOf(team)),
        },
        HullClass::Economy => if spec_requested_mothership(order, team, ms) {
            None
        } else {
            requested
        },
    }
}

/// Whether the ordered hull may spawn at all.
pub open spec fn spec_allowed(order: SpawnOrder, carrier: Option<ShipView>) -> bool {
    match spec_class(order.hull) {
        HullClass::Combat | HullClass::SubCarrier => carrier.is_some(),
        _ => true,
    }
}

/// Whether the order is bought (allowed and affordable).
pub open spec fn spec_bought(
    order: SpawnOrder,
    team: Team,
    ships: Seq<ShipView>,
    ms: Seq<MothershipView>,
    bank: u32,
) -> bool {
    spec_allowed(order, spec_carrier_spawn(order, team, ships, ms)) && bank >= spec_cost(order.hull)
}

/// The facility a spawn site stocks as.
pub open spec fn spec_site_facility(site: SpawnSite) -> SpawnFacility {
    match site {
        SpawnSite::Mothership => SpawnFacility::Mothership,
        SpawnSite::Carrier(s) => if s.kind == HullKind::FleetCarrier {
            SpawnFacility::FleetCarrier
        } else {
            SpawnFacility::StrikeCarrier
        },
    }
}

/// The respawn plan for `player` on `team`.
pub open spec fn spec_plan(
    player: u64,
    team: Team,
    order: SpawnOrder,
    ships: Seq<ShipView>,
    ms: Seq<MothershipView>,
    bank: u32,
    u: Map<u64, Set<crate::protocol::FittingId>>,
) -> RespawnPlan {
    let bought = spec_bought(order, team, ships, ms, bank);
    let kind = if bought {
        order.hull
    } else {
        HullKind::Fighter
    };
    let carrier = spec_carrier_spawn(order, team, ships, ms);
    let site = if spec_class(kind) == HullClass::CarrierType {
        SpawnSite::Mothership
    } else {
        match carrier {
            Some(s) => SpawnSite::Carrier(s),
            None => SpawnSite::Mothership,
        }
    };
    let facility = spec_site_facility(site);
    RespawnPlan {
        team,
        kind,
        site,
        facility,
        loadout: spec_validate_loadout(order.loadout, facility, player, u),
        cost: if bought {
            spec_cost(order.hull)
        } else {
            0
        },
    }
}

/// Plan a respawn: assign (or recall) the player's team, take the standing
/// order, decide the hull (the ordered one if allowed and affordable, else
/// the free fighter), where it spawns and at which facility the loadout is
/// validated, and charge the hull's cost to the player's bank.
pub fn plan_respawn(
    player: u64,
    teams: &mut TeamAssignments,
    banks: &mut Ledger,
    choices: &SpawnChoices,
    unlocks: &Unlocks,
    ships: &Vec<ShipView>,
    motherships: &Vec<MothershipView>,
) -> (r: RespawnPlan)
    requires
        old(teams).wf(),
        old(teams)@.len() < usize::MAX,
    ensures
        final(teams).wf(),
        r.team == spec_assigned_team(old(teams)@, player),
        final(teams)@ == old(teams)@.insert(player, r.team),
        r == spec_plan(
            player,
            r.team,
            spec_standing_order(choices@, player),
            ships@,
            motherships@,
            spec_balance(old(banks)@, player),
            unlocks@,
        ),
        final(banks)@ == old(banks)@.insert(player, (spec_balance(old(banks)@, player) - r.cost) as u32),
        r.site == SpawnSite::Mothership ==> r.facility == SpawnFacility::Mothership,
        r.site matches SpawnSite::Carrier(s) ==> (s.kind == HullKind::FleetCarrier ==> r.facility
            == SpawnFacility::FleetCarrier) && (s.kind == HullKind::StrikeCarrier ==> r.facility
            == SpawnFacility::StrikeCarrier),
{
    let team = teams.assign(player);
    let order = choices.standing(player);
    let requested_carrier = match order.spawn_at {
        None => None,
        Some(e) => match find_ship(ships, ShipQuery::Entity(e)) {
            Some(s) => if s.team == team && hulls::is_spawn_carrier(s.kind) {
                Some(s)
            } else {
                None
            },
            None => None,
        },
    };
    let requested_mothership = match order.spawn_at {
        None => false,
        Some(e) => match find_mothership(motherships, e) {
            Some(m) => m.team == team,
            None => false,
        },
    };
    let carrier = match hulls::class(order.hull) {
        HullClass::CarrierType => None,
        HullClass::SubCarrier => match requested_carrier {
            Some(s) => if s.kind == HullKind::FleetCarrier {
                Some(s)
            } else {
                find_ship(ships, ShipQuery::FleetCarrierOf(team))
            },
            None => find_ship(ships, ShipQuery::FleetCarrierOf(team)),
        },
        HullClass::Combat => match requested_carrier {
            Some(s) => Some(s),
            None => find_ship(ships, ShipQuery::SpawnCarrierOf(team)),
        },
        HullClass::Economy => if requested_mothership {
            None
        } else {
            requested_carrier
        },
    };
    let allowed = match hulls::class(order.hull) {
        HullClass::Combat | HullClass::SubCarrier => carrier.is_some(),
        _ => true,
    };
    let bank = banks.get(player);
    let price = hulls::stats(order.hull).cost;
    let bought = allowed && bank >= price;
    let (kind, cost) = if bought {
        (order.hull, price)
    } else {
        (HullKind::Fighter, 0)
    };
    banks.set(player, bank - cost);
    let site = if hulls::class(kind) == HullClass::CarrierType {
        SpawnSite::Mothership
    } else {
        match carrier {
            Some(s) => SpawnSite::Carrier(s),
            None => SpawnSite::Mothership,
        }
    };
    let facility = match site {
        SpawnSite::Mothership => SpawnFacility::Mothership,
        SpawnSite::Carrier(s) => if s.kind == HullKind::FleetCarrier {
            SpawnFacility::FleetCarrier
        } else {
            SpawnFacility::StrikeCarrier
        },
    };
    let loadout = loadout::validate_loadout(order.loadout, facility, player, unlocks);
    proof {
        lemma_respawn_stocks_as_its_site(
            player,
            team,
            order,
            ships@,
            motherships@,
            bank,
            unlocks@,
        );
    }
    RespawnPlan { team, kind, site, facility, loadout, cost }
}

/// Purchases are honest: the hull spawned is the ordered one or the free
/// fighter, exactly its price is charged when it is the ordered one and
/// nothing otherwise, and the charge never exceeds the bank.
pub proof fn lemma_respawn_charges_exactly_the_hull(
    player: u64,
    team: Team,
    order: SpawnOrder,
    ships: Seq<ShipView>,
    ms: Seq<MothershipView>,
    bank: u32,
    u: Map<u64, Set<crate::protocol::FittingId>>,
)
    ensures
        ({
            let p = spec_plan(player, team, order, ships, ms, bank, u);
            &&& p.kind == order.hull || p.kind == HullKind::Fighter
            &&& p.cost <= bank
            &&& p.cost == (if p.kind == order.hull { spec_cost(order.hull) } else { 0 })
        }),
{
}

/// Spawn-site rules: a combat hull only ever spawns beside a friendly
/// spawn carrier, a sub-carrier beside a friendly fleet carrier, and a
/// carrier-type hull at the mothership; the loadout is always equippable at
/// the facility it spawns from.
pub proof fn lemma_respawn_respects_hull_classes(
    player: u64,
    team: Team,
    order: SpawnOrder,
    ships: Seq<ShipView>,
    ms: Seq<MothershipView>,
    bank: u32,
    u: Map<u64, Set<crate::protocol::FittingId>>,
)
    ensures
        ({
            let p = spec_plan(player, team, order, ships, ms, bank, u);
            &&& spec_class(p.kind) == HullClass::Combat ==> (p.site matches SpawnSite::Carrier(s) && s.team
                == team && hulls::spec_is_spawn_carrier(s.kind) && ships.contains(s))
            &&& spec_class(p.kind) == HullClass::SubCarrier ==> (p.site matches SpawnSite::Carrier(s)
                && s.team == team && s.kind == HullKind::FleetCarrier && ships.contains(s))
            &&& spec_class(p.kind) == HullClass::CarrierType ==> p.site == SpawnSite::Mothership
            &&& loadout_valid(p.loadout, p.facility, player, u)
        }),
{
    lemma_find_sound(ships, ShipQuery::FleetCarrierOf(team));
    lemma_find_sound(ships, ShipQuery::SpawnCarrierOf(team));
    match order.spawn_at {
        Some(e) => lemma_find_sound(ships, ShipQuery::Entity(e)),
        None => {},
    }
    let p = spec_plan(player, team, order, ships, ms, bank, u);
    crate::loadout::lemma_validation_is_a_projection(order.loadout, p.facility, player, u);
}

} // verus!
