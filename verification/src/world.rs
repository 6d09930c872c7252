//! Plain views of the live world that the rules decide over: ships (which
//! may be facilities) and motherships, named by entity id. Where a rule
//! picks "the first" of several candidates, the order is the order of the
//! sequence handed in.

use vstd::prelude::*;
use crate::hulls;
use crate::protocol::{HullKind, Team};

verus! {

/// A live ship.
#[derive(Debug, Clone, Copy, PartialEq, Eq, Structural)]
pub struct ShipView {
    pub entity: u64,
    pub owner: u64,
    pub team: Team,
    pub kind: HullKind,
}

/// A team's mothership.
#[derive(Debug, Clone, Copy, PartialEq, Eq, Structural)]
pub struct MothershipView {
    pub entity: u64,
    pub team: Team,
}

/// Which ship a search is after.
#[derive(Debug, Clone, Copy, PartialEq, Eq, Structural)]
pub enum ShipQuery {
    /// The ship with this entity id.
    Entity(u64),
    /// A spawn carrier (strike or fleet carrier) of this team.
    SpawnCarrierOf(Team),
    /// A fleet carrier of this team.
    FleetCarrierOf(Team),
}

/// Whether `ship` answers `query`.
pub open spec fn spec_matches(query: ShipQuery, ship: ShipView) -> bool {
    match query {
        ShipQuery::Entity(e) => ship.entity == e,
        ShipQuery::SpawnCarrierOf(t) => ship.team == t && hulls::spec_is_spawn_carrier(ship.kind),
        ShipQuery::FleetCarrierOf(t) => ship.team == t && ship.kind == HullKind::FleetCarrier,
    }
}

/// The first ship of `ships` answering `query`.
pub open spec fn spec_find(ships: Seq<ShipView>, query: ShipQuery) -> Option<ShipView>
    decreases ships.len(),
{
    if ships.len() == 0 {
        None
    } else if spec_matches(query, ships[0]) {
        Some(ships[0])
    } else {
        spec_find(ships.drop_first(), query)
    }
}

/// What `spec_find` returns answers the query and is one of the ships.
pub proof fn lemma_find_sound(ships: Seq<ShipView>, query: ShipQuery)
    ensures
        spec_find(ships, query) matches Some(s) ==> spec_matches(query, s) && ships.contains(s),
        spec_find(ships, query) is None ==> forall|i: int|
            0 <= i < ships.len() ==> !spec_matches(query, #[trigger] ships[i]),
    decreases ships.len(),
{
    if ships.len() > 0 {
        lemma_find_sound(ships.drop_first(), query);
        if spec_find(ships, query) is None {
            assert forall|i: int| 0 <= i < ships.len() implies !spec_matches(
                query,
                #[trigger] ships[i],
            ) by {
                if i > 0 {
                    assert(ships[i] == ships.drop_first()[i - 1]);
                }
            }
        }
        if let Some(s) = spec_find(ships.drop_first(), query) {
            if !spec_matches(query, ships[0]) {
                let j = choose|j: int| 0 <= j < ships.drop_first().len() && ships.drop_first()[j] == s;
                assert(ships[j + 1] == s);
            }
        }
    }
}

/// The first ship of `ships` answering `query`.
pub fn find_ship(ships: &Vec<ShipView>, query: ShipQuery) -> (r: Option<ShipView>)
    ensures
        r == spec_find(ships@, query),
{
    let mut i: usize = 0;
    assert(ships@.skip(0) =~= ships@);
    while i < ships.len()
        invariant
            i <= ships@.len(),
            spec_find(ships@, query) == spec_find(ships@.skip(i as int), query),
        decreases ships@.len() - i,
    {
        let s = ships[i];
        proof {
            assert(ships@.skip(i as int)[0] == s);
            assert(ships@.skip(i as int).drop_first() =~= ships@.skip(i + 1));
        }
        let hit = match query {
            ShipQuery::Entity(e) => s.entity == e,
            ShipQuery::SpawnCarrierOf(t) => s.team == t && hulls::is_spawn_carrier(s.kind),
            ShipQuery::FleetCarrierOf(t) => s.team == t && s.kind == HullKind::FleetCarrier,
        };
        if hit {
            return Some(s);
        }
        i = i + 1;
    }
    proof {
        assert(ships@.skip(i as int).len() == 0);
    }
    None
}

/// The first mothership of `ms` with entity id `entity`.
pub open spec fn spec_find_mothership(ms: Seq<MothershipView>, entity: u64) -> Option<MothershipView>
    decreases ms.len(),
{
    if ms.len() == 0 {
        None
    } else if ms[0].entity == entity {
        Some(ms[0])
    } else {
        spec_find_mothership(ms.drop_first(), entity)
    }
}

/// The first mothership of `ms` with entity id `entity`.
pub fn find_mothership(ms: &Vec<MothershipView>, entity: u64) -> (r: Option<MothershipView>)
    ensures
        r == spec_find_mothership(ms@, entity),
{
    let mut i: usize = 0;
    assert(ms@.skip(0) =~= ms@);
    while i < ms.len()
        invariant
            i <= ms@.len(),
            spec_find_mothership(ms@, entity) == spec_find_mothership(ms@.skip(i as int), entity),
        decreases ms@.len() - i,
    {
        let m = ms[i];
        proof {
            assert(ms@.skip(i as int)[0] == m);
            assert(ms@.skip(i as int).drop_first() =~= ms@.skip(i + 1));
        }
        if m.entity == entity {
            return Some(m);
        }
        i = i + 1;
    }
    proof {
        assert(ms@.skip(i as int).len() == 0);
    }
    None
}

} // verus!
