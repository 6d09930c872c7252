//! The ore economy: scooping fragments into holds, depositing at friendly
//! dropoffs one unit per deposit step, and docking at facilities (which
//! banks the whole hold at a dropoff) with the matching undock.

use vstd::prelude::*;
use std::collections::HashMap;
use crate::fittings::SpawnFacility;
use crate::hulls;
use crate::ledger::{Ledger, spec_balance};
use crate::loadout::{self, spec_validate_loadout};
use crate::protocol::{CargoHold, FittingId, Health, HullKind, Loadout, Team};
use crate::respawn::{SpawnChoices, spec_standing_order};
use crate::sim;
use crate::unlocks::Unlocks;
use crate::world::{
    MothershipView, ShipQuery, ShipView, find_mothership, find_ship, spec_find, spec_find_mothership,
};

verus! {

broadcast use vstd::std_specs::hash::group_hash_axioms;

// ------------------------------------------------------------------ scooping

/// Whether a fragment worth `value` fits into `hold`.
pub open spec fn spec_fits(hold: CargoHold, value: u16) -> bool {
    hold.current + value <= hold.capacity
}

/// Whether a fragment worth `value` fits into `hold`.
pub fn fits(hold: &CargoHold, value: u16) -> (r: bool)
    requires
        hold.current + value <= u16::MAX,
    ensures
        r == spec_fits(*hold, value),
{
    hold.current + value <= hold.capacity
}

/// Scoop a fragment worth `value` into a hold it fits into.
pub fn load(hold: &mut CargoHold, value: u16)
    requires
        spec_fits(*old(hold), value),
    ensures
        final(hold).current == old(hold).current + value,
        final(hold).capacity == old(hold).capacity,
        final(hold).wf(),
{
    hold.current = hold.current + value;
}

/// The first of the holds in scooping range that a fragment fits into.
pub open spec fn spec_pick_scooper(holds: Seq<CargoHold>, value: u16) -> Option<int>
    decreases holds.len(),
{
    if holds.len() == 0 {
        None
    } else if spec_fits(holds[0], value) {
        Some(0)
    } else {
        match spec_pick_scooper(holds.drop_first(), value) {
            Some(i) => Some(i + 1),
            None => None,
        }
    }
}

/// Which of the ships in scooping range takes a fragment worth `value`:
/// the first whose hold it fits into; a full hold leaves the ore floating.
pub fn pick_scooper(holds: &Vec<CargoHold>, value: u16) -> (r: Option<usize>)
    requires
        forall|i: int| 0 <= i < holds@.len() ==> #[trigger] holds@[i].current + value <= u16::MAX,
    ensures
        r == (match spec_pick_scooper(holds@, value) {
            Some(i) => Some(i as usize),
            None => None::<usize>,
        }),
        r matches Some(i) ==> i < holds@.len() && spec_fits(holds@[i as int], value),
{
    let mut i: usize = 0;
    assert(holds@.skip(0) =~= holds@);
    while i < holds.len()
        invariant
            i <= holds@.len(),
            forall|k: int| 0 <= k < holds@.len() ==> #[trigger] holds@[k].current + value <= u16::MAX,
            spec_pick_scooper(holds@, value) == (match spec_pick_scooper(
                holds@.skip(i as int),
                value,
            ) {
                Some(j) => Some(j + i),
                None => None::<int>,
            }),
        decreases holds@.len() - i,
    {
        proof {
            assert(holds@.skip(i as int)[0] == holds@[i as int]);
            assert(holds@.skip(i as int).drop_first() =~= holds@.skip(i + 1));
        }
        if fits(&holds[i], value) {
            return Some(i);
        }
        i = i + 1;
    }
    None
}

// ---------------------------------------------------------------- depositing

/// Deposits happen on every `DEPOSIT_INTERVAL_TICKS`-th tick.
pub fn deposit_due(tick: u32) -> (r: bool)
    ensures
        r == (tick % sim::DEPOSIT_INTERVAL_TICKS == 0),
{
    tick % sim::DEPOSIT_INTERVAL_TICKS == 0
}

/// Whether one of the dropoffs in range (given by team) is friendly.
pub open spec fn spec_at_friendly_dropoff(team: Team, dropoffs_in_range: Seq<Team>) -> bool {
    exists|i: int| 0 <= i < dropoffs_in_range.len() && dropoffs_in_range[i] == team
}

/// One deposit step for one ship: a ship with ore aboard next to a
/// friendly dropoff moves one unit from its hold into its player's bank
/// and earns the deposit points. Enemy dropoffs refuse ore. Returns the new
/// bank total when a unit moved.
pub fn deposit_step(
    player: u64,
    team: Team,
    hold: &mut CargoHold,
    dropoffs_in_range: &Vec<Team>,
    banks: &mut Ledger,
    points: &mut Ledger,
) -> (r: Option<u32>)
    requires
        spec_balance(old(banks)@, player) < u32::MAX,
        spec_balance(old(points)@, player) + sim::POINTS_PER_ORE_DEPOSITED <= u32::MAX,
    ensures
        ({
            let moves = old(hold).current > 0 && spec_at_friendly_dropoff(team, dropoffs_in_range@);
            &&& moves ==> {
                &&& final(hold).current == old(hold).current - 1
                &&& final(banks)@ == old(banks)@.insert(
                    player,
                    (spec_balance(old(banks)@, player) + 1) as u32,
                )
                &&& final(points)@ == old(points)@.insert(
                    player,
                    (spec_balance(old(points)@, player) + sim::POINTS_PER_ORE_DEPOSITED) as u32,
                )
                &&& r == Some((spec_balance(old(banks)@, player) + 1) as u32)
            }
            &&& !moves ==> {
                &&& final(hold).current == old(hold).current
                &&& final(banks)@ == old(banks)@
                &&& final(points)@ == old(points)@
                &&& r is None
            }
            &&& final(hold).capacity == old(hold).capacity
            // ore is conserved: whatever leaves the hold lands in the bank
            &&& final(hold).current + spec_balance(final(banks)@, player) == old(hold).current
                + spec_balance(old(banks)@, player)
        }),
{
    if hold.current == 0 {
        return None;
    }
    let mut at_dropoff = false;
    let mut i: usize = 0;
    while i < dropoffs_in_range.len()
        invariant
            i <= dropoffs_in_range@.len(),
            at_dropoff == exists|k: int| 0 <= k < i && dropoffs_in_range@[k] == team,
        decreases dropoffs_in_range@.len() - i,
    {
        if dropoffs_in_range[i] == team {
            at_dropoff = true;
        }
        i = i + 1;
    }
    if !at_dropoff {
        return None;
    }
    hold.current = hold.current - 1;
    banks.award(player, 1);
    points.award(player, sim::POINTS_PER_ORE_DEPOSITED);
    Some(banks.get(player))
}

// ------------------------------------------------------------------- docking

/// A ship stowed at a facility for a refit.
#[derive(Debug, Clone, Copy, PartialEq, Eq, Structural)]
pub struct DockedShip {
    pub hull: HullKind,
    pub health: u16,
    pub cargo: u16,
    pub facility: u64,
    pub link: u64,
    pub team: Team,
}

/// Ships stowed at facilities, per player.
pub struct DockedStates(pub HashMap<u64, DockedShip>);

impl View for DockedStates {
    type V = Map<u64, DockedShip>;

    open spec fn view(&self) -> Map<u64, DockedShip> {
        self.0@
    }
}

impl DockedStates {
    /// Nobody docked.
    pub fn new() -> (r: DockedStates)
        ensures
            r@ == Map::<u64, DockedShip>::empty(),
    {
        DockedStates(HashMap::new())
    }

    /// Forget every stowed ship (a new match).
    pub fn clear(&mut self)
        ensures
            final(self)@ == Map::<u64, DockedShip>::empty(),
    {
        self.0.clear();
    }
}

/// A mothership considered for docking, with whether the ship is within
/// its docking radius.
#[derive(Debug, Clone, Copy, PartialEq, Eq, Structural)]
pub struct MothershipInRange {
    pub entity: u64,
    pub team: Team,
    pub in_range: bool,
}

/// A ship considered as a docking facility, with whether the docking ship
/// is within its docking radius.
#[derive(Debug, Clone, Copy, PartialEq, Eq, Structural)]
pub struct ShipInRange {
    pub entity: u64,
    pub team: Team,
    pub kind: HullKind,
    pub in_range: bool,
}

/// The first friendly mothership in docking range.
pub open spec fn spec_dock_mothership(ms: Seq<MothershipInRange>, team: Team) -> Option<u64>
    decreases ms.len(),
{
    if ms.len() == 0 {
        None
    } else if ms[0].team == team && ms[0].in_range {
        Some(ms[0].entity)
    } else {
        spec_dock_mothership(ms.drop_first(), team)
    }
}

/// The first other friendly dockable ship in docking range.
pub open spec fn spec_dock_ship(ships: Seq<ShipInRange>, me: u64, team: Team) -> Option<ShipInRange>
    decreases ships.len(),
{
    if ships.len() == 0 {
        None
    } else if ships[0].entity != me && ships[0].team == team && hulls::spec_facility_of(
        ships[0].kind,
    ).is_some() && ships[0].in_range {
        Some(ships[0])
    } else {
        spec_dock_ship(ships.drop_first(), me, team)
    }
}

/// Where a dock request stows the ship: the first friendly mothership in
/// range (a dropoff), else the first other friendly dockable ship in range
/// (a dropoff when it is a fleet carrier). (facility, is_dropoff)
pub open spec fn spec_dock_target(
    ms: Seq<MothershipInRange>,
    ships: Seq<ShipInRange>,
    me: u64,
    team: Team,
) -> Option<(u64, bool)> {
    match spec_dock_mothership(ms, team) {
        Some(e) => Some((e, true)),
        None => match spec_dock_ship(ships, me, team) {
            Some(s) => Some((s.entity, hulls::spec_is_docking_dropoff(s.kind))),
            None => None,
        },
    }
}

/// The mothership a dock picks is a friendly one in range from the list,
/// and there is one whenever the list holds a friendly mothership in range.
proof fn lemma_dock_mothership_friendly(ms: Seq<MothershipInRange>, team: Team)
    ensures
        spec_dock_mothership(ms, team) matches Some(e) ==> exists|i: int|
            0 <= i < ms.len() && #[trigger] ms[i].entity == e && ms[i].team == team && ms[i].in_range,
        (exists|i: int| 0 <= i < ms.len() && #[trigger] ms[i].team == team && ms[i].in_range)
            ==> spec_dock_mothership(ms, team) is Some,
    decreases ms.len(),
{
    if ms.len() > 0 {
        lemma_dock_mothership_friendly(ms.drop_first(), team);
        if let Some(e) = spec_dock_mothership(ms.drop_first(), team) {
            let k = choose|k: int|
                0 <= k < ms.drop_first().len() && #[trigger] ms.drop_first()[k].entity == e
                    && ms.drop_first()[k].team == team && ms.drop_first()[k].in_range;
            assert(ms[k + 1].entity == e);
        }
        if exists|i: int| 0 <= i < ms.len() && #[trigger] ms[i].team == team && ms[i].in_range {
            let i = choose|i: int| 0 <= i < ms.len() && #[trigger] ms[i].team == team && ms[i].in_range;
            if i > 0 {
                assert(ms.drop_first()[i - 1].team == team);
            }
        }
    }
}

/// The ship a dock picks is another friendly dockable ship in range from
/// the list, and there is one whenever the list holds such a ship.
proof fn lemma_dock_ship_friendly(ships: Seq<ShipInRange>, me: u64, team: Team)
    ensures
        spec_dock_ship(ships, me, team) matches Some(s) ==> {
            &&& ships.contains(s)
            &&& s.team == team
            &&& s.in_range
            &&& s.entity != me
            &&& hulls::spec_facility_of(s.kind) is Some
        },
        (exists|i: int|
            0 <= i < ships.len() && #[trigger] ships[i].team == team && ships[i].in_range
                && ships[i].entity != me && hulls::spec_facility_of(ships[i].kind) is Some)
            ==> spec_dock_ship(ships, me, team) is Some,
    decreases ships.len(),
{
    if ships.len() > 0 {
        lemma_dock_ship_friendly(ships.drop_first(), me, team);
        if let Some(s) = spec_dock_ship(ships.drop_first(), me, team) {
            if !(ships[0].entity != me && ships[0].team == team && hulls::spec_facility_of(
                ships[0].kind,
            ).is_some() && ships[0].in_range) {
                let k = choose|k: int| 0 <= k < ships.drop_first().len() && ships.drop_first()[k] == s;
                assert(ships[k + 1] == s);
            }
        }
        if exists|i: int|
            0 <= i < ships.len() && #[trigger] ships[i].team == team && ships[i].in_range
                && ships[i].entity != me && hulls::spec_facility_of(ships[i].kind) is Some {
            let i = choose|i: int|
                0 <= i < ships.len() && #[trigger] ships[i].team == team && ships[i].in_range
                    && ships[i].entity != me && hulls::spec_facility_of(ships[i].kind) is Some;
            if i > 0 {
                assert(ships.drop_first()[i - 1].team == team);
            }
        }
    }
}

/// Docking only ever stows a ship at a facility of its own team that it is
/// in range of: a mothership from the list, or another ship from the list
/// that takes docks. The dock is refused exactly when no such facility is
/// in the lists, and the hold is banked exactly at motherships and fleet
/// carriers.
pub proof fn lemma_dock_only_at_friendly_facilities(
    ms: Seq<MothershipInRange>,
    ships: Seq<ShipInRange>,
    me: u64,
    team: Team,
)
    ensures
        spec_dock_target(ms, ships, me, team) matches Some((e, dropoff)) ==> {
            ||| (exists|i: int|
                0 <= i < ms.len() && #[trigger] ms[i].entity == e && ms[i].team == team && ms[i].in_range)
                && dropoff
            ||| (exists|i: int|
                0 <= i < ships.len() && #[trigger] ships[i].entity == e && ships[i].team == team
                    && ships[i].in_range && ships[i].entity != me && hulls::spec_facility_of(
                    ships[i].kind,
                ) is Some && dropoff == (ships[i].kind == HullKind::FleetCarrier))
        },
        spec_dock_target(ms, ships, me, team) is None <==> {
            &&& !exists|i: int| 0 <= i < ms.len() && #[trigger] ms[i].team == team && ms[i].in_range
            &&& !exists|i: int|
                0 <= i < ships.len() && #[trigger] ships[i].team == team && ships[i].in_range
                    && ships[i].entity != me && hulls::spec_facility_of(ships[i].kind) is Some
        },
{
    lemma_dock_mothership_friendly(ms, team);
    lemma_dock_ship_friendly(ships, me, team);
    if let Some(s) = spec_dock_ship(ships, me, team) {
        let k = choose|k: int| 0 <= k < ships.len() && ships[k] == s;
        assert(ships[k].entity == s.entity);
    }
}

fn dock_mothership(ms: &Vec<MothershipInRange>, team: Team) -> (r: Option<u64>)
    ensures
        r == spec_dock_mothership(ms@, team),
{
    let mut i: usize = 0;
    assert(ms@.skip(0) =~= ms@);
    while i < ms.len()
        invariant
            i <= ms@.len(),
            spec_dock_mothership(ms@, team) == spec_dock_mothership(ms@.skip(i as int), team),
        decreases ms@.len() - i,
    {
        proof {
            assert(ms@.skip(i as int)[0] == ms@[i as int]);
            assert(ms@.skip(i as int).drop_first() =~= ms@.skip(i + 1));
        }
        if ms[i].team == team && ms[i].in_range {
            return Some(ms[i].entity);
        }
        i = i + 1;
    }
    None
}

fn dock_ship(ships: &Vec<ShipInRange>, me: u64, team: Team) -> (r: Option<ShipInRange>)
    ensures
        r == spec_dock_ship(ships@, me, team),
{
    let mut i: usize = 0;
    assert(ships@.skip(0) =~= ships@);
    while i < ships.len()
        invariant
            i <= ships@.len(),
            spec_dock_ship(ships@, me, team) == spec_dock_ship(ships@.skip(i as int), me, team),
        decreases ships@.len() - i,
    {
        proof {
            assert(ships@.skip(i as int)[0] == ships@[i as int]);
            assert(ships@.skip(i as int).drop_first() =~= ships@.skip(i + 1));
        }
        let s = ships[i];
        if s.entity != me && s.team == team && hulls::is_dockable(s.kind) && s.in_range {
            return Some(s);
        }
        i = i + 1;
    }
    None
}

/// The docking ship.
#[derive(Debug, Clone, Copy, PartialEq, Eq, Structural)]
pub struct DockingShip {
    pub player: u64,
    pub entity: u64,
    pub team: Team,
    pub hull: HullKind,
    pub health: u16,
    /// Ore aboard (zero for hulls without a hold).
    pub cargo: u16,
    pub link: u64,
}

/// The record of a ship stowed at `facility`; its hold is empty when it
/// was banked on docking.
pub open spec fn spec_stowed(ship: DockingShip, facility: u64, banked: bool) -> DockedShip {
    DockedShip {
        hull: ship.hull,
        health: ship.health,
        cargo: if banked {
            0
        } else {
            ship.cargo
        },
        facility,
        link: ship.link,
        team: ship.team,
    }
}

/// Handle a dock request: stow the ship at the nearest eligible facility,
/// bank its hold (with deposit points) when the facility is a dropoff, and
/// remember the stowed ship. Returns the facility, or `None` (nothing
/// changes) when no friendly facility is in range.
pub fn dock(
    ship: DockingShip,
    motherships: &Vec<MothershipInRange>,
    ships: &Vec<ShipInRange>,
    banks: &mut Ledger,
    points: &mut Ledger,
    docked: &mut DockedStates,
) -> (r: Option<u64>)
    requires
        spec_balance(old(banks)@, ship.player) + ship.cargo <= u32::MAX,
        spec_balance(old(points)@, ship.player) + ship.cargo * sim::POINTS_PER_ORE_DEPOSITED
            <= u32::MAX,
    ensures
        match spec_dock_target(motherships@, ships@, ship.entity, ship.team) {
            None => {
                &&& r is None
                &&& final(banks)@ == old(banks)@
                &&& final(points)@ == old(points)@
                &&& final(docked)@ == old(docked)@
            },
            Some((facility, dropoff)) => {
                let banked = dropoff && ship.cargo > 0;
                &&& r == Some(facility)
                &&& banked ==> final(banks)@ == old(banks)@.insert(
                    ship.player,
                    (spec_balance(old(banks)@, ship.player) + ship.cargo) as u32,
                )
                &&& banked ==> final(points)@ == old(points)@.insert(
                    ship.player,
                    (spec_balance(old(points)@, ship.player) + ship.cargo
                        * sim::POINTS_PER_ORE_DEPOSITED) as u32,
                )
                &&& !banked ==> final(banks)@ == old(banks)@ && final(points)@ == old(points)@
                // ore is conserved: the stowed hold plus the bank is what was aboard plus banked
                &&& final(docked)@[ship.player].cargo + spec_balance(final(banks)@, ship.player)
                    == ship.cargo + spec_balance(old(banks)@, ship.player)
                &&& final(docked)@ == old(docked)@.insert(
                    ship.player,
                    spec_stowed(ship, facility, banked),
                )
            },
        },
        r matches Some(e) ==> (exists|i: int|
            0 <= i < motherships@.len() && #[trigger] motherships@[i].entity == e && motherships@[i].team
                == ship.team && motherships@[i].in_range) || (exists|i: int|
            0 <= i < ships@.len() && #[trigger] ships@[i].entity == e && ships@[i].team == ship.team
                && ships@[i].in_range && ships@[i].entity != ship.entity),
{
    proof {
        lemma_dock_only_at_friendly_facilities(motherships@, ships@, ship.entity, ship.team);
    }
    let target = match dock_mothership(motherships, ship.team) {
        Some(e) => Some((e, true)),
        None => match dock_ship(ships, ship.entity, ship.team) {
            Some(s) => Some((s.entity, hulls::is_docking_dropoff(s.kind))),
            None => None,
        },
    };
    let (facility, dropoff) = match target {
        Some(t) => t,
        None => return None,
    };
    let mut cargo_left = ship.cargo;
    if dropoff && cargo_left > 0 {
        banks.award(ship.player, cargo_left as u32);
        points.award(ship.player, cargo_left as u32 * sim::POINTS_PER_ORE_DEPOSITED);
        cargo_left = 0;
    }
    docked.0.insert(
        ship.player,
        DockedShip {
            hull: ship.hull,
            health: ship.health,
            cargo: cargo_left,
            facility,
            link: ship.link,
            team: ship.team,
        },
    );
    Some(facility)
}

/// Where an undocked ship reappears.
#[derive(Debug, Clone, Copy, PartialEq, Eq, Structural)]
pub enum UndockSite {
    /// On the ring around this mothership.
    Mothership(u64),
    /// Beside this facility ship.
    Beside(ShipView),
    /// The facility is gone: on the ring around the team's home anchor.
    Home,
}

/// An undock: the stowed ship comes back where it docked, refitted.
#[derive(Debug, Clone, Copy, PartialEq, Eq, Structural)]
pub struct UndockPlan {
    pub stowed: DockedShip,
    pub site: UndockSite,
    pub facility: SpawnFacility,
    pub loadout: Loadout,
}

/// The site and stocking facility of a stowed ship's facility entity: a
/// mothership, a live dockable ship, or gone.
pub open spec fn spec_undock_site(
    facility: u64,
    ms: Seq<MothershipView>,
    ships: Seq<ShipView>,
) -> (UndockSite, SpawnFacility) {
    if spec_find_mothership(ms, facility).is_some() {
        (UndockSite::Mothership(facility), SpawnFacility::Mothership)
    } else {
        match spec_find(ships, ShipQuery::Entity(facility)) {
            Some(s) => match hulls::spec_facility_of(s.kind) {
                Some(f) => (UndockSite::Beside(s), f),
                None => (UndockSite::Home, SpawnFacility::Mothership),
            },
            None => (UndockSite::Home, SpawnFacility::Mothership),
        }
    }
}

/// What `spec_find_mothership` returns has the entity asked for and is one
/// of the motherships.
proof fn lemma_find_mothership_sound(ms: Seq<MothershipView>, entity: u64)
    ensures
        spec_find_mothership(ms, entity) matches Some(m) ==> m.entity == entity && ms.contains(m),
    decreases ms.len(),
{
    if ms.len() > 0 {
        lemma_find_mothership_sound(ms.drop_first(), entity);
        if let Some(m) = spec_find_mothership(ms.drop_first(), entity) {
            if ms[0].entity != entity {
                let j = choose|j: int| 0 <= j < ms.drop_first().len() && ms.drop_first()[j] == m;
                assert(ms[j + 1] == m);
            }
        }
    }
}

/// An undocked ship comes back where it docked and is refitted from that
/// facility's stock: at a mothership of that entity (stocked as the
/// mothership), beside the facility ship of that entity (stocked as a strike
/// carrier, fleet carrier or outfitter by the ship's kind), or, once that
/// facility is gone, at home (stocked as the mothership).
pub proof fn lemma_undock_at_its_facility(facility: u64, ms: Seq<MothershipView>, ships: Seq<ShipView>)
    ensures
        ({
            let (site, stock) = spec_undock_site(facility, ms, ships);
            &&& site matches UndockSite::Mothership(e) ==> e == facility && stock == SpawnFacility::Mothership
                && exists|i: int| 0 <= i < ms.len() && #[trigger] ms[i].entity == facility
            &&& site matches UndockSite::Beside(s) ==> {
                &&& s.entity == facility
                &&& ships.contains(s)
                &&& s.kind == HullKind::StrikeCarrier ==> stock == SpawnFacility::StrikeCarrier
                &&& s.kind == HullKind::FleetCarrier ==> stock == SpawnFacility::FleetCarrier
                &&& s.kind == HullKind::Outfitter ==> stock == SpawnFacility::Outfitter
                &&& (s.kind == HullKind::StrikeCarrier || s.kind == HullKind::FleetCarrier || s.kind
                    == HullKind::Outfitter)
            }
            &&& site == UndockSite::Home ==> stock == SpawnFacility::Mothership
        }),
{
    lemma_find_mothership_sound(ms, facility);
    crate::world::lemma_find_sound(ships, ShipQuery::Entity(facility));
    if let Some(m) = spec_find_mothership(ms, facility) {
        let i = choose|i: int| 0 <= i < ms.len() && ms[i] == m;
        assert(ms[i].entity == facility);
    }
}

/// Undock a docked player (their spawn confirmation while docked): the
/// stowed ship comes back at its facility with its loadout revalidated
/// against that facility's stock, immediately and for free. `None` when the
/// player is not docked.
pub fn undock(
    player: u64,
    docked: &mut DockedStates,
    motherships: &Vec<MothershipView>,
    ships: &Vec<ShipView>,
    choices: &SpawnChoices,
    unlocks: &Unlocks,
) -> (r: Option<UndockPlan>)
    ensures
        !old(docked)@.contains_key(player) ==> r is None && final(docked)@ == old(docked)@,
        old(docked)@.contains_key(player) ==> {
            let stowed = old(docked)@[player];
            let (site, facility) = spec_undock_site(stowed.facility, motherships@, ships@);
            &&& final(docked)@ == old(docked)@.remove(player)
            &&& r == Some(
                UndockPlan {
                    stowed,
                    site,
                    facility,
                    loadout: spec_validate_loadout(
                        spec_standing_order(choices@, player).loadout,
                        facility,
                        player,
                        unlocks@,
                    ),
                },
            )
        },
{
    let stowed = match docked.0.remove(&player) {
        Some(s) => s,
        None => return None,
    };
    let (site, facility) = if find_mothership(motherships, stowed.facility).is_some() {
        (UndockSite::Mothership(stowed.facility), SpawnFacility::Mothership)
    } else {
        match find_ship(ships, ShipQuery::Entity(stowed.facility)) {
            Some(s) => match hulls::facility_of(s.kind) {
                Some(f) => (UndockSite::Beside(s), f),
                None => (UndockSite::Home, SpawnFacility::Mothership),
            },
            None => (UndockSite::Home, SpawnFacility::Mothership),
        }
    };
    let requested = choices.standing(player).loadout;
    let loadout = loadout::validate_loadout(requested, facility, player, unlocks);
    Some(UndockPlan { stowed, site, facility, loadout })
}

/// Docking round trip: undocking a player right after they docked gives
/// back the ship as it docked (same hull, health, link and team, its hold
/// less what the dropoff banked) at the facility it docked at, and for a
/// player who was not docked before, leaves the stowed ships as they were.
pub proof fn lemma_undock_returns_the_docked_ship(
    d: Map<u64, DockedShip>,
    ship: DockingShip,
    facility: u64,
    banked: bool,
)
    ensures
        ({
            let after_dock = d.insert(ship.player, spec_stowed(ship, facility, banked));
            let back = after_dock[ship.player];
            &&& after_dock.contains_key(ship.player)
            &&& back.hull == ship.hull
            &&& back.health == ship.health
            &&& back.link == ship.link
            &&& back.team == ship.team
            &&& back.facility == facility
            &&& back.cargo == (if banked { 0 } else { ship.cargo })
            &&& !d.contains_key(ship.player) ==> after_dock.remove(ship.player) == d
        }),
{
    let after_dock = d.insert(ship.player, spec_stowed(ship, facility, banked));
    if !d.contains_key(ship.player) {
        assert(after_dock.remove(ship.player) =~= d);
    }
}

/// Put a freshly respawned ship back into its stowed condition: health and
/// cargo as stowed, clamped to what the new ship can hold.
pub fn restore_stowed(health: &mut Health, hold: &mut CargoHold, stowed_health: u16, stowed_cargo: u16)
    ensures
        final(health).max == old(health).max,
        final(health).current == (if stowed_health < old(health).max {
            stowed_health
        } else {
            old(health).max
        }),
        final(hold).capacity == old(hold).capacity,
        final(hold).current == (if stowed_cargo < old(hold).capacity {
            stowed_cargo
        } else {
            old(hold).capacity
        }),
        final(hold).wf(),
        final(health).current <= final(health).max,
{
    health.current = if stowed_health < health.max {
        stowed_health
    } else {
        health.max
    };
    hold.current = if stowed_cargo < hold.capacity {
        stowed_cargo
    } else {
        hold.capacity
    };
}

} // verus!
