//! The spawn/docked screens' decisions: which screen is up, what the
//! selected facility can field (agreeing with the
//! server's purchase rules), unlock-or-equip clicks on module tiles, tile
//! highlights, and the client's cache of its own wealth.

use vstd::prelude::*;
use crate::fittings::{self, Slot, SpawnFacility, spec_slot, spec_stocked_at, spec_stocking};
use crate::hulls::{self, HullClass, spec_class, spec_cost};
use crate::protocol::{FittingId, HullKind, Loadout, Team, spec_fitting_index};
use crate::respawn::{SpawnSite, spec_plan};
use crate::unlocks::{mask_has, mask_set};
use crate::world::{MothershipView, ShipQuery, ShipView, find_mothership, find_ship, spec_find, spec_find_mothership};

verus! {

/// Which dead-time screen is up.
#[derive(Debug, Clone, Copy, PartialEq, Eq, Structural)]
pub enum DeadUi {
    Hidden,
    BattleMap,
    Loadout,
}

impl Default for DeadUi {
    fn default() -> (r: Self)
        ensures
            r == DeadUi::Hidden,
    {
        DeadUi::Hidden
    }
}

/// The player's in-progress spawn decision.
#[derive(Debug, Clone, Copy, PartialEq, Eq, Structural)]
pub struct LoadoutState {
    pub hull: HullKind,
    pub facility: Option<u64>,
    pub loadout: Loadout,
    pub confirmed: bool,
}

impl Default for LoadoutState {
    fn default() -> (r: Self)
        ensures
            r == (LoadoutState {
                hull: HullKind::Fighter,
                facility: None,
                loadout: crate::protocol::spec_default_loadout(),
                confirmed: false,
            }),
    {
        LoadoutState {
            hull: HullKind::Fighter,
            facility: None,
            loadout: Loadout::default(),
            confirmed: false,
        }
    }
}

/// Which screens show this frame.
#[derive(Debug, Clone, Copy, PartialEq, Eq, Structural)]
pub struct ScreenVisibility {
    pub map: bool,
    pub loadout: bool,
    pub minimap: bool,
}

/// Death opens the map (the facility is the shop); being alive hides both
/// screens and clears the confirmation. While flying, holding M shows the
/// map view-only, otherwise the corner minimap shows.
pub fn dead_ui_lifecycle(ui: &mut DeadUi, state: &mut LoadoutState, alive: bool, map_key_held: bool) -> (r:
    ScreenVisibility)
    ensures
        alive ==> *final(ui) == DeadUi::Hidden && *final(state) == (LoadoutState {
            confirmed: false,
            ..*old(state)
        }),
        !alive && *old(ui) == DeadUi::Hidden ==> *final(ui) == DeadUi::BattleMap && *final(state) == (
        LoadoutState { facility: None, ..*old(state) }),
        !alive && *old(ui) != DeadUi::Hidden ==> *final(ui) == *old(ui) && *final(state) == *old(
            state,
        ),
        r.map == (*final(ui) == DeadUi::BattleMap || (alive && map_key_held)),
        r.loadout == (*final(ui) == DeadUi::Loadout),
        r.minimap == (alive && !map_key_held),
{
    if alive {
        *ui = DeadUi::Hidden;
        state.confirmed = false;
    } else if *ui == DeadUi::Hidden {
        *ui = DeadUi::BattleMap;
        state.facility = None;
    }
    let alive_map = alive && map_key_held;
    ScreenVisibility {
        map: *ui == DeadUi::BattleMap || alive_map,
        loadout: *ui == DeadUi::Loadout,
        minimap: alive && !alive_map,
    }
}

/// Key handling between the two screens: L goes from the map to the
/// loadout screen, M or Escape back.
pub fn screen_keys(ui: DeadUi, l_pressed: bool, m_pressed: bool, escape_pressed: bool) -> (r: DeadUi)
    ensures
        r == (match ui {
            DeadUi::BattleMap => if l_pressed {
                DeadUi::Loadout
            } else {
                DeadUi::BattleMap
            },
            DeadUi::Loadout => if m_pressed || escape_pressed {
                DeadUi::BattleMap
            } else {
                DeadUi::Loadout
            },
            DeadUi::Hidden => DeadUi::Hidden,
        }),
{
    match ui {
        DeadUi::BattleMap => if l_pressed {
            DeadUi::Loadout
        } else {
            DeadUi::BattleMap
        },
        DeadUi::Loadout => if m_pressed || escape_pressed {
            DeadUi::BattleMap
        } else {
            DeadUi::Loadout
        },
        DeadUi::Hidden => DeadUi::Hidden,
    }
}

/// The facility kind of the selected spawn point: a mothership, a facility
/// ship, or nothing usable.
pub open spec fn spec_selected_facility(
    selection: Option<u64>,
    ms: Seq<MothershipView>,
    ships: Seq<ShipView>,
) -> Option<SpawnFacility> {
    match selection {
        None => None,
        Some(e) => if spec_find_mothership(ms, e).is_some() {
            Some(SpawnFacility::Mothership)
        } else {
            match spec_find(ships, ShipQuery::Entity(e)) {
                Some(s) => hulls::spec_facility_of(s.kind),
                None => None,
            }
        },
    }
}

/// The facility kind of the selected spawn point.
pub fn selected_facility(
    selection: Option<u64>,
    motherships: &Vec<MothershipView>,
    ships: &Vec<ShipView>,
) -> (r: Option<SpawnFacility>)
    ensures
        r == spec_selected_facility(selection, motherships@, ships@),
{
    let e = match selection {
        None => return None,
        Some(e) => e,
    };
    if find_mothership(motherships, e).is_some() {
        return Some(SpawnFacility::Mothership);
    }
    match find_ship(ships, ShipQuery::Entity(e)) {
        Some(s) => hulls::facility_of(s.kind),
        None => None,
    }
}

/// Why a hull cannot be deployed from the selection.
#[derive(Debug, Clone, Copy, PartialEq, Eq, Structural)]
pub enum GateError {
    /// No spawn point selected yet.
    NoFacility,
    /// Combat hulls deploy from a spawn carrier.
    NeedsSpawnCarrier,
    /// Carrier-type hulls are built at the mothership.
    NeedsMothership,
    /// The selected facility fields no hulls (an outfitter only refits
    /// docked ships).
    NotASpawnPoint,
    /// Sub-carriers are built at a fleet carrier.
    NeedsFleetCarrier,
    /// The bank does not cover the hull.
    NotEnoughOre { cost: u32, bank: u32 },
}

/// Whether a facility can field hulls of a class.
pub open spec fn spec_class_ok(class: HullClass, facility: SpawnFacility) -> bool {
    match class {
        HullClass::Economy => facility == SpawnFacility::Mothership || facility
            == SpawnFacility::StrikeCarrier || facility == SpawnFacility::FleetCarrier,
        HullClass::Combat => facility == SpawnFacility::StrikeCarrier || facility
            == SpawnFacility::FleetCarrier,
        HullClass::CarrierType => facility == SpawnFacility::Mothership,
        HullClass::SubCarrier => facility == SpawnFacility::FleetCarrier,
    }
}

/// Whether a hull may deploy from a facility with this bank, and why not.
pub open spec fn spec_hull_gate(kind: HullKind, facility: Option<SpawnFacility>, bank: u32) -> Result<
    (),
    GateError,
> {
    match facility {
        None => Err(GateError::NoFacility),
        Some(f) => if !spec_class_ok(spec_class(kind), f) {
            Err(
                match spec_class(kind) {
                    HullClass::Combat => GateError::NeedsSpawnCarrier,
                    HullClass::SubCarrier => GateError::NeedsFleetCarrier,
                    HullClass::CarrierType => GateError::NeedsMothership,
                    HullClass::Economy => GateError::NotASpawnPoint,
                },
            )
        } else if spec_cost(kind) > bank {
            Err(GateError::NotEnoughOre { cost: spec_cost(kind), bank })
        } else {
            Ok(())
        },
    }
}

/// Can this hull be bought and fielded from the selected facility right
/// now? The error says why not.
pub fn hull_gate(kind: HullKind, facility: Option<SpawnFacility>, bank: u32) -> (r: Result<(), GateError>)
    ensures
        r == spec_hull_gate(kind, facility, bank),
        r is Ok <==> (facility matches Some(f) && fields_hull(kind, f) && hulls::spec_cost(kind) <= bank),
{
    proof {
        lemma_hull_gate_table(kind, facility, bank);
    }
    let f = match facility {
        None => return Err(GateError::NoFacility),
        Some(f) => f,
    };
    let class = hulls::class(kind);
    let class_ok = match class {
        HullClass::Economy => matches!(
            f,
            SpawnFacility::Mothership | SpawnFacility::StrikeCarrier | SpawnFacility::FleetCarrier
        ),
        HullClass::Combat => matches!(f, SpawnFacility::StrikeCarrier | SpawnFacility::FleetCarrier),
        HullClass::CarrierType => f == SpawnFacility::Mothership,
        HullClass::SubCarrier => f == SpawnFacility::FleetCarrier,
    };
    if !class_ok {
        return Err(
            match class {
                HullClass::Combat => GateError::NeedsSpawnCarrier,
                HullClass::SubCarrier => GateError::NeedsFleetCarrier,
                HullClass::CarrierType => GateError::NeedsMothership,
                HullClass::Economy => GateError::NotASpawnPoint,
            },
        );
    }
    let cost = hulls::stats(kind).cost;
    if cost > bank {
        return Err(GateError::NotEnoughOre { cost, bank });
    }
    Ok(())
}

/// Which hulls each spawn point fields: fighters and harvesters at the
/// mothership or any strike or fleet carrier; corvettes and bombers at a
/// strike or fleet carrier; resource controllers and the carriers at the
/// mothership; outfitters at a fleet carrier; nothing at an outfitter.
pub open spec fn fields_hull(kind: HullKind, facility: SpawnFacility) -> bool {
    let carrier = facility == SpawnFacility::StrikeCarrier || facility == SpawnFacility::FleetCarrier;
    match kind {
        HullKind::Fighter | HullKind::Harvester => facility == SpawnFacility::Mothership || carrier,
        HullKind::Corvette | HullKind::Bomber => carrier,
        HullKind::ResourceController | HullKind::StrikeCarrier | HullKind::FleetCarrier => facility
            == SpawnFacility::Mothership,
        HullKind::Outfitter => facility == SpawnFacility::FleetCarrier,
    }
}

/// A hull may deploy exactly when the selected spawn point
/// fields it and the bank covers its price; a spawn point that fields it
/// with too small a bank is refused for the ore, naming price and bank; one
/// that does not field it is refused naming where the hull can come from;
/// with nothing selected it is refused for that.
pub proof fn lemma_hull_gate_table(kind: HullKind, facility: Option<SpawnFacility>, bank: u32)
    ensures
        facility is None ==> spec_hull_gate(kind, facility, bank) == Err::<(), GateError>(GateError::NoFacility),
        facility matches Some(f) ==> {
            &&& spec_hull_gate(kind, facility, bank) is Ok <==> fields_hull(kind, f) && spec_cost(kind) <= bank
            &&& fields_hull(kind, f) && spec_cost(kind) > bank ==> spec_hull_gate(kind, facility, bank)
                == Err::<(), GateError>(GateError::NotEnoughOre { cost: spec_cost(kind), bank })
            &&& !fields_hull(kind, f) ==> spec_hull_gate(kind, facility, bank) == Err::<(), GateError>(
                match kind {
                    HullKind::Fighter | HullKind::Harvester => GateError::NotASpawnPoint,
                    HullKind::Corvette | HullKind::Bomber => GateError::NeedsSpawnCarrier,
                    HullKind::Outfitter => GateError::NeedsFleetCarrier,
                    _ => GateError::NeedsMothership,
                },
            )
        },
{
}

/// The loadout screen is honest: when it lets a hull deploy from a live friendly
/// facility, the server's respawn of that order buys exactly that hull,
/// charges its price, and spawns it at that facility.
pub proof fn lemma_gate_agrees_with_respawn(
    player: u64,
    team: Team,
    order: crate::protocol::SpawnOrder,
    ships: Seq<ShipView>,
    ms: Seq<MothershipView>,
    bank: u32,
    u: Map<u64, Set<FittingId>>,
)
    requires
        order.spawn_at matches Some(e) && ({
            ||| spec_find_mothership(ms, e) matches Some(m) && m.team == team && spec_find(
                ships,
                ShipQuery::Entity(e),
            ) is None
            ||| spec_find_mothership(ms, e) is None && (spec_find(ships, ShipQuery::Entity(e)) matches Some(
                s,
            ) && s.team == team)
        }),
        spec_hull_gate(order.hull, spec_selected_facility(order.spawn_at, ms, ships), bank) is Ok,
    ensures
        ({
            let p = spec_plan(player, team, order, ships, ms, bank, u);
            &&& p.kind == order.hull
            &&& p.cost == spec_cost(order.hull)
            &&& (spec_selected_facility(order.spawn_at, ms, ships) == Some(SpawnFacility::Mothership)
                ==> p.site == SpawnSite::Mothership)
            &&& (spec_selected_facility(order.spawn_at, ms, ships) != Some(SpawnFacility::Mothership)
                ==> p.site == SpawnSite::Carrier(spec_find(ships, ShipQuery::Entity(order.spawn_at->0))->0))
        }),
{
}

/// The requirement shown under a hull on the loadout screen.
pub open spec fn spec_requirement_note(kind: HullKind) -> Seq<char> {
    match spec_class(kind) {
        HullClass::Economy => "Spawns at the mothership or any friendly carrier."@,
        HullClass::Combat => "Requires a live friendly strike or fleet carrier."@,
        HullClass::CarrierType => "Built at the mothership only."@,
        HullClass::SubCarrier => "Built at a friendly fleet carrier only."@,
    }
}

/// The requirement shown under a hull on the loadout screen.
pub fn hull_requirement_note(kind: HullKind) -> (r: &'static str)
    ensures
        r@ == spec_requirement_note(kind),
{
    match hulls::class(kind) {
        HullClass::Economy => "Spawns at the mothership or any friendly carrier.",
        HullClass::Combat => "Requires a live friendly strike or fleet carrier.",
        HullClass::CarrierType => "Built at the mothership only.",
        HullClass::SubCarrier => "Built at a friendly fleet carrier only.",
    }
}

/// Whether a ship's map marker is a clickable spawn point for a player of
/// `own_team` (unknown while the own ship was never seen): friendly ships
/// that field hulls.
pub fn ship_marker_clickable(own_team: Option<Team>, ship: ShipView) -> (r: bool)
    ensures
        r == (own_team == Some(ship.team) && hulls::spec_is_spawn_carrier(ship.kind)),
{
    match own_team {
        Some(t) => t == ship.team && hulls::is_spawn_carrier(ship.kind),
        None => false,
    }
}

/// A client's last-known wealth: bank, points and unlocked fittings (as a
/// bit set over catalog positions).
#[derive(Debug, Clone, Copy, PartialEq, Eq, Structural)]
pub struct WealthCache {
    pub bank: u32,
    pub points: u32,
    pub unlocked: u16,
}

impl WealthCache {
    /// Nothing known yet.
    pub fn new() -> (r: WealthCache)
        ensures
            r == (WealthCache { bank: 0, points: 0, unlocked: 0 }),
    {
        WealthCache { bank: 0, points: 0, unlocked: 0 }
    }

    /// The unlocked fittings.
    pub open spec fn unlocked_set(&self) -> Set<FittingId> {
        mask_set(self.unlocked)
    }

    /// Whether the player may use `fitting`: free ones always, others once
    /// unlocked.
    pub fn has_unlock(&self, fitting: FittingId) -> (r: bool)
        ensures
            r == (fittings::spec_unlock_cost(fitting) == 0 || self.unlocked_set().contains(fitting)),
    {
        if fittings::def(fitting).cost == 0 {
            return true;
        }
        let bit: u16 = 1u16 << (fitting.index() as u16);
        proof {
            assert(self.unlocked_set().contains(fitting) == mask_has(self.unlocked, fitting));
        }
        self.unlocked & bit != 0
    }

    /// Mirror what the live ship carries (each part only when the ship has
    /// it); the cache keeps its values while dead.
    pub fn mirror_ship(&mut self, bank: Option<u32>, points: Option<u32>, unlocked: Option<&Vec<FittingId>>)
        ensures
            final(self).bank == (match bank {
                Some(b) => b,
                None => old(self).bank,
            }),
            final(self).points == (match points {
                Some(p) => p,
                None => old(self).points,
            }),
            unlocked is None ==> final(self).unlocked == old(self).unlocked,
            unlocked matches Some(u) ==> final(self).unlocked_set() == u@.to_set(),
    {
        let b = match bank {
            Some(b) => b,
            None => self.bank,
        };
        let p = match points {
            Some(p) => p,
            None => self.points,
        };
        match unlocked {
            Some(u) => self.apply_update(b, p, u),
            None => {
                self.bank = b;
                self.points = p;
            },
        }
    }

    /// Take an authoritative wealth snapshot.
    pub fn apply_update(&mut self, bank: u32, points: u32, unlocked: &Vec<FittingId>)
        ensures
            final(self).bank == bank,
            final(self).points == points,
            final(self).unlocked_set() == unlocked@.to_set(),
    {
        let mut mask: u16 = 0;
        let mut i: usize = 0;
        proof {
            crate::unlocks::lemma_mask_empty_pub();
            assert(unlocked@.take(0).to_set() =~= Set::<FittingId>::empty());
        }
        while i < unlocked.len()
            invariant
                i <= unlocked@.len(),
                mask_set(mask) == unlocked@.take(i as int).to_set(),
            decreases unlocked@.len() - i,
        {
            let f = unlocked[i];
            proof {
                crate::unlocks::lemma_mask_insert_pub(mask, f);
                assert(unlocked@.take(i + 1) =~= unlocked@.take(i as int).push(f));
                unlocked@.take(i as int).lemma_push_to_set_commute(f);
            }
            mask = mask | (1u16 << (f.index() as u16));
            i = i + 1;
        }
        proof {
            assert(unlocked@.take(unlocked@.len() as int) =~= unlocked@);
        }
        self.bank = bank;
        self.points = points;
        self.unlocked = mask;
    }
}

/// The module tiles of a grid showing `slots`: the catalog's fittings of
/// those slots, in catalog order.
pub fn module_grid_fittings(slots: &Vec<Slot>) -> (r: Vec<FittingId>)
    ensures
        r@ == crate::unlocks::catalog_seq().filter(|f: FittingId| slots@.contains(spec_slot(f))),
{
    let ghost p = |f: FittingId| slots@.contains(spec_slot(f));
    let mut r: Vec<FittingId> = Vec::new();
    let mut i: usize = 0;
    while i < crate::protocol::NUM_FITTINGS
        invariant
            i <= crate::protocol::NUM_FITTINGS,
            r@ == crate::unlocks::catalog_seq().take(i as int).filter(p),
            p == (|f: FittingId| slots@.contains(spec_slot(f))),
        decreases crate::protocol::NUM_FITTINGS - i,
    {
        let f = FittingId::at(i);
        let slot = fittings::def(f).slot;
        let mut shown = false;
        let mut k: usize = 0;
        while k < slots.len()
            invariant
                k <= slots@.len(),
                shown == exists|j: int| 0 <= j < k && slots@[j] == slot,
            decreases slots@.len() - k,
        {
            if slots[k] == slot {
                shown = true;
            }
            k = k + 1;
        }
        proof {
            let cs = crate::unlocks::catalog_seq();
            assert(cs.take(i + 1) =~= cs.take(i as int).push(f));
            cs.take(i as int).lemma_filter_push(f, p);
        }
        if shown {
            r.push(f);
        }
        i = i + 1;
    }
    proof {
        assert(crate::unlocks::catalog_seq().take(crate::protocol::NUM_FITTINGS as int)
            =~= crate::unlocks::catalog_seq());
    }
    r
}

/// What a click on a module tile does.
#[derive(Debug, Clone, Copy, PartialEq, Eq, Structural)]
pub enum ModuleClick {
    /// Locked and unaffordable: show the price and the points on hand.
    CannotAfford { cost: u32, points: u32 },
    /// Locked and affordable: send an unlock order.
    RequestUnlock,
    /// Unlocked but not stocked at the selected facility.
    NotStocked,
    /// Equipped (or unequipped): send the updated spawn order.
    Equipped,
}

/// A slot toggled by an optional fitting: selecting the fitting already
/// there empties it.
pub open spec fn spec_toggle(current: Option<FittingId>, fitting: FittingId) -> Option<FittingId> {
    if current == Some(fitting) {
        None
    } else {
        Some(fitting)
    }
}

/// The loadout after equipping `fitting` into its slot.
pub open spec fn spec_equip(l: Loadout, fitting: FittingId) -> Loadout {
    match spec_slot(fitting) {
        Slot::Weapon => Loadout { weapon: fitting, ..l },
        Slot::Utility => Loadout { utility: spec_toggle(l.utility, fitting), ..l },
        Slot::HullMod => Loadout { hull_mod: spec_toggle(l.hull_mod, fitting), ..l },
    }
}

/// Unlock-or-equip: a locked tile is a purchase attempt; an unlocked tile
/// equips (optional slots toggle) when the selected facility stocks it.
pub fn module_tile_click(
    state: &mut LoadoutState,
    wealth: &WealthCache,
    facility: Option<SpawnFacility>,
    fitting: FittingId,
) -> (r: ModuleClick)
    ensures
        ({
            let owned = fittings::spec_unlock_cost(fitting) == 0 || wealth.unlocked_set().contains(
                fitting,
            );
            let stocked = facility matches Some(f) && spec_stocked_at(spec_stocking(fitting), f);
            &&& !owned && wealth.points < fittings::spec_unlock_cost(fitting) ==> r
                == ModuleClick::CannotAfford {
                cost: fittings::spec_unlock_cost(fitting),
                points: wealth.points,
            } && *final(state) == *old(state)
            &&& !owned && wealth.points >= fittings::spec_unlock_cost(fitting) ==> r
                == ModuleClick::RequestUnlock && *final(state) == *old(state)
            &&& owned && !stocked ==> r == ModuleClick::NotStocked && *final(state) == *old(state)
            &&& owned && stocked ==> r == ModuleClick::Equipped && *final(state) == (LoadoutState {
                loadout: spec_equip(old(state).loadout, fitting),
                ..*old(state)
            })
        }),
{
    let d = fittings::def(fitting);
    if !wealth.has_unlock(fitting) {
        if wealth.points < d.cost {
            return ModuleClick::CannotAfford { cost: d.cost, points: wealth.points };
        }
        return ModuleClick::RequestUnlock;
    }
    let stocked = match facility {
        Some(f) => fittings::stocked_at(d.stocking, f),
        None => false,
    };
    if !stocked {
        return ModuleClick::NotStocked;
    }
    match d.slot {
        Slot::Weapon => {
            state.loadout.weapon = fitting;
        },
        Slot::Utility => {
            state.loadout.utility = if state.loadout.utility == Some(fitting) {
                None
            } else {
                Some(fitting)
            };
        },
        Slot::HullMod => {
            state.loadout.hull_mod = if state.loadout.hull_mod == Some(fitting) {
                None
            } else {
                Some(fitting)
            };
        },
    }
    ModuleClick::Equipped
}

/// Select a hull tile: if it may deploy from the selected facility
/// the hull is chosen (send the updated order), else nothing changes and
/// the error says why.
pub fn hull_tile_click(state: &mut LoadoutState, facility: Option<SpawnFacility>, bank: u32, kind: HullKind) -> (r:
    Result<(), GateError>)
    ensures
        r == spec_hull_gate(kind, facility, bank),
        r is Ok ==> *final(state) == (LoadoutState { hull: kind, ..*old(state) }),
        r is Err ==> *final(state) == *old(state),
{
    let gate = hull_gate(kind, facility, bank);
    if gate.is_ok() {
        state.hull = kind;
    }
    gate
}

/// Pick a spawn point on the map (only while the map is up): the selection
/// moves to the facility, the screen flips to the loadout, and a standing
/// hull the facility cannot field resets to the fighter (the error says
/// why). Returns `None` when the click is ignored.
pub fn map_facility_click(
    ui: &mut DeadUi,
    state: &mut LoadoutState,
    facility_entity: u64,
    facility: Option<SpawnFacility>,
    bank: u32,
) -> (r: Option<Result<(), GateError>>)
    ensures
        *old(ui) != DeadUi::BattleMap ==> r is None && *final(ui) == *old(ui) && *final(state) == *old(
            state,
        ),
        *old(ui) == DeadUi::BattleMap ==> {
            let gate = spec_hull_gate(old(state).hull, facility, bank);
            &&& r == Some(gate)
            &&& *final(ui) == DeadUi::Loadout
            &&& final(state).facility == Some(facility_entity)
            &&& final(state).hull == (if gate is Ok {
                old(state).hull
            } else {
                HullKind::Fighter
            })
            &&& final(state).loadout == old(state).loadout
            &&& final(state).confirmed == old(state).confirmed
        },
{
    if *ui != DeadUi::BattleMap {
        return None;
    }
    state.facility = Some(facility_entity);
    let gate = hull_gate(state.hull, facility, bank);
    if gate.is_err() {
        state.hull = HullKind::Fighter;
    }
    *ui = DeadUi::Loadout;
    Some(gate)
}

/// Press SPAWN: when the chosen hull may deploy, confirm (send the
/// order and the confirmation); else nothing changes and the error says
/// why.
pub fn spawn_button_click(state: &mut LoadoutState, facility: Option<SpawnFacility>, bank: u32) -> (r:
    Result<(), GateError>)
    ensures
        r == spec_hull_gate(old(state).hull, facility, bank),
        r is Ok ==> *final(state) == (LoadoutState { confirmed: true, ..*old(state) }),
        r is Err ==> *final(state) == *old(state),
{
    let gate = hull_gate(state.hull, facility, bank);
    if gate.is_ok() {
        state.confirmed = true;
    }
    gate
}

/// How a tile is drawn.
#[derive(Debug, Clone, Copy, PartialEq, Eq, Structural)]
pub enum TileLook {
    Selected,
    Available,
    Disabled,
}

/// A module tile: selected when equipped, available when unlocked and
/// stocked here, disabled otherwise.
pub fn module_tile_look(
    state: &LoadoutState,
    wealth: &WealthCache,
    facility: Option<SpawnFacility>,
    fitting: FittingId,
) -> (r: TileLook)
    ensures
        r == (if state.loadout.weapon == fitting || state.loadout.utility == Some(fitting)
            || state.loadout.hull_mod == Some(fitting) {
            TileLook::Selected
        } else if (fittings::spec_unlock_cost(fitting) == 0 || wealth.unlocked_set().contains(
            fitting,
        )) && (facility matches Some(f) && spec_stocked_at(spec_stocking(fitting), f)) {
            TileLook::Available
        } else {
            TileLook::Disabled
        }),
{
    if state.loadout.weapon == fitting || state.loadout.utility == Some(fitting)
        || state.loadout.hull_mod == Some(fitting) {
        return TileLook::Selected;
    }
    let stocked = match facility {
        Some(f) => fittings::stocked_at(fittings::def(fitting).stocking, f),
        None => false,
    };
    if wealth.has_unlock(fitting) && stocked {
        TileLook::Available
    } else {
        TileLook::Disabled
    }
}

/// A hull tile: selected when chosen, disabled when it may not deploy,
/// available otherwise.
pub fn hull_tile_look(state: &LoadoutState, facility: Option<SpawnFacility>, bank: u32, kind: HullKind) -> (r:
    TileLook)
    ensures
        r == (if kind == state.hull {
            TileLook::Selected
        } else if spec_hull_gate(kind, facility, bank) is Err {
            TileLook::Disabled
        } else {
            TileLook::Available
        }),
{
    if kind == state.hull {
        TileLook::Selected
    } else if hull_gate(kind, facility, bank).is_err() {
        TileLook::Disabled
    } else {
        TileLook::Available
    }
}

} // verus!
