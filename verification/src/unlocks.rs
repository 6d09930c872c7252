//! Match-permanent fitting unlocks: points are spent once per fitting and
//! the unlock survives death. Each player's unlocks are a bit set over the
//! catalog positions.

use vstd::prelude::*;
use std::collections::HashMap;
use crate::fittings;
use crate::ledger::{Ledger, spec_balance};
use crate::protocol::{FittingId, NUM_FITTINGS, WealthUpdate, spec_fitting_at, spec_fitting_index};

verus! {

broadcast use vstd::std_specs::hash::group_hash_axioms;

/// Whether bit set `mask` holds `fitting`.
pub open spec fn mask_has(mask: u16, fitting: FittingId) -> bool {
    mask & (1u16 << (spec_fitting_index(fitting) as u16)) != 0
}

/// The fittings a bit set holds.
pub open spec fn mask_set(mask: u16) -> Set<FittingId> {
    Set::new(|f: FittingId| mask_has(mask, f))
}

proof fn lemma_bit_insert(m: u16, i: u16, j: u16)
    requires
        i < 16,
        j < 16,
    ensures
        ((m | (1u16 << i)) & (1u16 << j) != 0) == ((m & (1u16 << j) != 0) || i == j),
        (0u16 & (1u16 << j)) == 0,
{
    assert(((m | (1u16 << i)) & (1u16 << j) != 0) == ((m & (1u16 << j) != 0) || i == j))
        by (bit_vector)
        requires
            i < 16,
            j < 16,
    ;
    assert((0u16 & (1u16 << j)) == 0) by (bit_vector);
}

proof fn lemma_mask_insert(m: u16, f: FittingId)
    ensures
        mask_set(m | (1u16 << (spec_fitting_index(f) as u16))) == mask_set(m).insert(f),
{
    let m2 = m | (1u16 << (spec_fitting_index(f) as u16));
    assert forall|g: FittingId|
        #[trigger] mask_set(m2).contains(g) == mask_set(m).insert(f).contains(g) by {
        lemma_bit_insert(m, spec_fitting_index(f) as u16, spec_fitting_index(g) as u16);
        crate::protocol::lemma_fitting_index_bijection(f, 0);
        crate::protocol::lemma_fitting_index_bijection(g, 0);
        assert(mask_set(m2).contains(g) == mask_has(m2, g));
        assert(mask_set(m).contains(g) == mask_has(m, g));
    }
    assert(mask_set(m2) =~= mask_set(m).insert(f));
}

proof fn lemma_mask_empty()
    ensures
        mask_set(0u16) == Set::<FittingId>::empty(),
{
    assert forall|g: FittingId| !mask_has(0u16, g) by {
        lemma_bit_insert(0, 0, spec_fitting_index(g) as u16);
    }
    assert(mask_set(0u16) =~= Set::<FittingId>::empty());
}

/// A bit set with one more fitting set holds one more fitting.
pub proof fn lemma_mask_insert_pub(m: u16, f: FittingId)
    ensures
        mask_set(m | (1u16 << (spec_fitting_index(f) as u16))) == mask_set(m).insert(f),
{
    lemma_mask_insert(m, f);
}

/// The empty bit set holds nothing.
pub proof fn lemma_mask_empty_pub()
    ensures
        mask_set(0u16) == Set::<FittingId>::empty(),
{
    lemma_mask_empty();
}

/// Whether an unlock view records `player` owning `fitting`.
pub open spec fn spec_owned(u: Map<u64, Set<FittingId>>, player: u64, fitting: FittingId) -> bool {
    u.contains_key(player) && u[player].contains(fitting)
}

/// Whether `player` may use `fitting`: free fittings always, others once
/// unlocked.
pub open spec fn spec_has(u: Map<u64, Set<FittingId>>, player: u64, fitting: FittingId) -> bool {
    fittings::spec_unlock_cost(fitting) == 0 || spec_owned(u, player, fitting)
}

/// Match-permanent fitting unlocks per player.
pub struct Unlocks(pub HashMap<u64, u16>);

impl View for Unlocks {
    type V = Map<u64, Set<FittingId>>;

    open spec fn view(&self) -> Map<u64, Set<FittingId>> {
        self.0@.map_values(|m: u16| mask_set(m))
    }
}

/// What an unlock order did.
#[derive(Debug, Clone, Copy, PartialEq, Eq, Structural)]
pub enum UnlockOutcome {
    /// The fitting was already usable; nothing was charged.
    AlreadyOwned,
    /// The player's points do not cover the price; nothing changed.
    CannotAfford,
    /// The price was charged and the fitting is now owned.
    Unlocked,
}

impl Unlocks {
    /// Nobody owns anything.
    pub fn new() -> (r: Unlocks)
        ensures
            r@ == Map::<u64, Set<FittingId>>::empty(),
    {
        let r = Unlocks(HashMap::new());
        assert(r@ =~= Map::<u64, Set<FittingId>>::empty());
        r
    }

    fn mask(&self, player: u64) -> (r: u16)
        ensures
            self.0@.contains_key(player) ==> r == self.0@[player],
            !self.0@.contains_key(player) ==> r == 0,
    {
        match self.0.get(&player) {
            Some(m) => *m,
            None => 0,
        }
    }

    /// Whether `player` may use `fitting` (free fittings always).
    pub fn has(&self, player: u64, fitting: FittingId) -> (r: bool)
        ensures
            r == spec_has(self@, player, fitting),
    {
        if fittings::def(fitting).cost == 0 {
            return true;
        }
        let m = self.mask(player);
        let bit: u16 = 1u16 << (fitting.index() as u16);
        proof {
            if !self.0@.contains_key(player) {
                lemma_bit_insert(0, 0, spec_fitting_index(fitting) as u16);
            }
        }
        m & bit != 0
    }

    /// Record that `player` owns `fitting`.
    pub fn grant(&mut self, player: u64, fitting: FittingId)
        ensures
            final(self)@ == old(self)@.insert(
                player,
                (if old(self)@.contains_key(player) { old(self)@[player] } else { Set::empty() }).insert(fitting),
            ),
    {
        let m = self.mask(player);
        let bit: u16 = 1u16 << (fitting.index() as u16);
        proof {
            lemma_mask_insert(m, fitting);
            lemma_mask_empty();
        }
        self.0.insert(player, m | bit);
        proof {
            let old_set = if old(self)@.contains_key(player) {
                old(self)@[player]
            } else {
                Set::empty()
            };
            assert(mask_set(m) == old_set);
            assert(self@ =~= old(self)@.insert(player, old_set.insert(fitting)));
        }
    }

    /// Forget every unlock (a new match).
    pub fn clear(&mut self)
        ensures
            final(self)@ == Map::<u64, Set<FittingId>>::empty(),
    {
        self.0.clear();
        assert(self@ =~= Map::<u64, Set<FittingId>>::empty());
    }

    /// The fittings `player` owns, in catalog order.
    pub fn owned_list(&self, player: u64) -> (r: Vec<FittingId>)
        ensures
            r@ == catalog_seq().filter(|f: FittingId| spec_owned(self@, player, f)),
    {
        let m = self.mask(player);
        let ghost p = |f: FittingId| spec_owned(self@, player, f);
        let mut r: Vec<FittingId> = Vec::new();
        let mut i: usize = 0;
        while i < NUM_FITTINGS
            invariant
                i <= NUM_FITTINGS,
                r@ == catalog_seq().take(i as int).filter(p),
                self.0@.contains_key(player) ==> m == self.0@[player],
                !self.0@.contains_key(player) ==> m == 0,
                p == (|f: FittingId| spec_owned(self@, player, f)),
            decreases NUM_FITTINGS - i,
        {
            let f = FittingId::at(i);
            let bit: u16 = 1u16 << (i as u16);
            proof {
                assert(catalog_seq().take(i + 1) =~= catalog_seq().take(i as int).push(f));
                catalog_seq().take(i as int).lemma_filter_push(f, p);
                if !self.0@.contains_key(player) {
                    lemma_bit_insert(0, 0, i as u16);
                }
            }
            if m & bit != 0 {
                r.push(f);
            }
            i = i + 1;
        }
        proof {
            assert(catalog_seq().take(NUM_FITTINGS as int) =~= catalog_seq());
        }
        r
    }
}

/// The catalog in order.
pub open spec fn catalog_seq() -> Seq<FittingId> {
    Seq::new(NUM_FITTINGS as nat, |i: int| spec_fitting_at(i))
}

/// Spend points to unlock a fitting. Already usable fittings cost nothing
/// and change nothing; an unaffordable one changes nothing; otherwise the
/// price is debited and the fitting is owned from now on.
pub fn apply_unlock_order(
    unlocks: &mut Unlocks,
    points: &mut Ledger,
    player: u64,
    fitting: FittingId,
) -> (r: UnlockOutcome)
    ensures
        spec_has(old(unlocks)@, player, fitting) ==> {
            &&& r == UnlockOutcome::AlreadyOwned
            &&& final(unlocks)@ == old(unlocks)@
            &&& final(points)@ == old(points)@
        },
        !spec_has(old(unlocks)@, player, fitting)
            && spec_balance(old(points)@, player) < fittings::spec_unlock_cost(fitting) ==> {
            &&& r == UnlockOutcome::CannotAfford
            &&& final(unlocks)@ == old(unlocks)@
            &&& final(points)@ == old(points)@
        },
        !spec_has(old(unlocks)@, player, fitting)
            && spec_balance(old(points)@, player) >= fittings::spec_unlock_cost(fitting) ==> {
            &&& r == UnlockOutcome::Unlocked
            &&& final(points)@ == old(points)@.insert(
                player,
                (spec_balance(old(points)@, player) - fittings::spec_unlock_cost(fitting)) as u32,
            )
            &&& final(unlocks)@ == old(unlocks)@.insert(
                player,
                (if old(unlocks)@.contains_key(player) { old(unlocks)@[player] } else { Set::empty() }).insert(fitting),
            )
        },
{
    if unlocks.has(player, fitting) {
        return UnlockOutcome::AlreadyOwned;
    }
    let cost = fittings::def(fitting).cost;
    if points.get(player) < cost {
        return UnlockOutcome::CannotAfford;
    }
    points.spend(player, cost);
    unlocks.grant(player, fitting);
    UnlockOutcome::Unlocked
}

/// The authoritative wealth snapshot of `player`: bank, points, and owned
/// fittings in catalog order.
pub fn wealth_snapshot(banks: &Ledger, points: &Ledger, unlocks: &Unlocks, player: u64) -> (r: WealthUpdate)
    ensures
        r.bank == spec_balance(banks@, player),
        r.points == spec_balance(points@, player),
        r.unlocked@ == catalog_seq().filter(|f: FittingId| spec_owned(unlocks@, player, f)),
{
    WealthUpdate { bank: banks.get(player), points: points.get(player), unlocked: unlocks.owned_list(player) }
}

/// The unlocks and points after one unlock order (see
/// `apply_unlock_order`).
pub open spec fn spec_apply_unlock(
    u: Map<u64, Set<FittingId>>,
    pts: Map<u64, u32>,
    player: u64,
    fitting: FittingId,
) -> (Map<u64, Set<FittingId>>, Map<u64, u32>) {
    if spec_has(u, player, fitting) || spec_balance(pts, player) < fittings::spec_unlock_cost(fitting) {
        (u, pts)
    } else {
        (
            u.insert(
                player,
                (if u.contains_key(player) { u[player] } else { Set::empty() }).insert(fitting),
            ),
            pts.insert(player, (spec_balance(pts, player) - fittings::spec_unlock_cost(fitting)) as u32),
        )
    }
}

/// The unlocks and points after a player's orders, taken in order.
pub open spec fn spec_apply_unlocks(
    u: Map<u64, Set<FittingId>>,
    pts: Map<u64, u32>,
    player: u64,
    orders: Seq<FittingId>,
) -> (Map<u64, Set<FittingId>>, Map<u64, u32>)
    decreases orders.len(),
{
    if orders.len() == 0 {
        (u, pts)
    } else {
        let (u1, p1) = spec_apply_unlocks(u, pts, player, orders.drop_last());
        spec_apply_unlock(u1, p1, player, orders.last())
    }
}

/// Handle one tick's unlock orders from `player`, in order. A player who
/// sent orders is answered with exactly one authoritative wealth snapshot,
/// taken after all of them; a player who sent none gets no answer.
pub fn receive_unlock_orders(
    unlocks: &mut Unlocks,
    points: &mut Ledger,
    banks: &Ledger,
    player: u64,
    orders: &Vec<FittingId>,
) -> (r: Option<WealthUpdate>)
    ensures
        (final(unlocks)@, final(points)@) == spec_apply_unlocks(old(unlocks)@, old(points)@, player, orders@),
        orders@.len() == 0 ==> r is None,
        orders@.len() > 0 ==> r is Some,
        r matches Some(w) ==> {
            &&& w.bank == spec_balance(banks@, player)
            &&& w.points == spec_balance(final(points)@, player)
            &&& w.unlocked@ == catalog_seq().filter(|f: FittingId| spec_owned(final(unlocks)@, player, f))
        },
{
    let ghost u0 = unlocks@;
    let ghost p0 = points@;
    let mut i: usize = 0;
    while i < orders.len()
        invariant
            i <= orders@.len(),
            (unlocks@, points@) == spec_apply_unlocks(u0, p0, player, orders@.take(i as int)),
        decreases orders@.len() - i,
    {
        proof {
            assert(orders@.take(i + 1).drop_last() =~= orders@.take(i as int));
            assert(orders@.take(i + 1).last() == orders@[i as int]);
        }
        apply_unlock_order(unlocks, points, player, orders[i]);
        i = i + 1;
    }
    proof {
        assert(orders@.take(orders@.len() as int) =~= orders@);
    }
    if orders.len() == 0 {
        None
    } else {
        Some(wealth_snapshot(banks, points, unlocks, player))
    }
}

/// After a successful unlock the fitting is usable, and a second order for
/// it is refused without charging: unlocking is idempotent.
pub proof fn lemma_unlock_is_idempotent(u: Map<u64, Set<FittingId>>, player: u64, fitting: FittingId)
    ensures
        spec_has(
            u.insert(player, (if u.contains_key(player) { u[player] } else { Set::empty() }).insert(fitting)),
            player,
            fitting,
        ),
{
}

} // verus!
