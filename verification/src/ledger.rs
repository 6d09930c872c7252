//! Per-player ledgers that outlive ships: the resource bank, the points
//! ledger, and the kill/death tallies. Players are keyed by network id.

use vstd::prelude::*;
use std::collections::HashMap;

verus! {

broadcast use vstd::std_specs::hash::group_hash_axioms;

/// A player's balance in a ledger view: absent players hold zero.
pub open spec fn spec_balance(m: Map<u64, u32>, player: u64) -> u32 {
    if m.contains_key(player) {
        m[player]
    } else {
        0
    }
}

/// A per-player `u32` ledger (resource bank or points).
pub struct Ledger(pub HashMap<u64, u32>);

impl View for Ledger {
    type V = Map<u64, u32>;

    open spec fn view(&self) -> Map<u64, u32> {
        self.0@
    }
}

/// The authoritative store of deposited resources per player.
pub type Banks = Ledger;

/// The authoritative points ledger per player.
pub type PointsStore = Ledger;

impl Ledger {
    /// An empty ledger.
    pub fn new() -> (r: Ledger)
        ensures
            r@ == Map::<u64, u32>::empty(),
    {
        Ledger(HashMap::new())
    }

    /// A player's balance (zero if never credited).
    pub fn get(&self, player: u64) -> (r: u32)
        ensures
            r == spec_balance(self@, player),
    {
        match self.0.get(&player) {
            Some(v) => *v,
            None => 0,
        }
    }

    /// Overwrite a player's balance.
    pub fn set(&mut self, player: u64, amount: u32)
        ensures
            final(self)@ == old(self)@.insert(player, amount),
    {
        self.0.insert(player, amount);
    }

    /// Credit `amount` to a player.
    pub fn award(&mut self, player: u64, amount: u32)
        requires
            spec_balance(old(self)@, player) + amount <= u32::MAX,
        ensures
            final(self)@ == old(self)@.insert(player, (spec_balance(old(self)@, player) + amount) as u32),
    {
        let total = self.get(player) + amount;
        self.0.insert(player, total);
    }

    /// Debit `amount` from a player who holds at least that much.
    pub fn spend(&mut self, player: u64, amount: u32)
        requires
            amount <= spec_balance(old(self)@, player),
        ensures
            final(self)@ == old(self)@.insert(player, (spec_balance(old(self)@, player) - amount) as u32),
    {
        let total = self.get(player) - amount;
        self.0.insert(player, total);
    }

    /// Forget every balance (a new match).
    pub fn clear(&mut self)
        ensures
            final(self)@ == Map::<u64, u32>::empty(),
    {
        self.0.clear();
    }
}

/// A player's (kills, deaths) in a tally view: absent players have none.
pub open spec fn spec_kd(m: Map<u64, (u32, u32)>, player: u64) -> (u32, u32) {
    if m.contains_key(player) {
        m[player]
    } else {
        (0, 0)
    }
}

/// Kill/death tallies per player (scoreboard data; survives death).
pub struct KdStore(pub HashMap<u64, (u32, u32)>);

impl View for KdStore {
    type V = Map<u64, (u32, u32)>;

    open spec fn view(&self) -> Map<u64, (u32, u32)> {
        self.0@
    }
}

impl KdStore {
    /// No tallies.
    pub fn new() -> (r: KdStore)
        ensures
            r@ == Map::<u64, (u32, u32)>::empty(),
    {
        KdStore(HashMap::new())
    }

    /// A player's (kills, deaths).
    pub fn get(&self, player: u64) -> (r: (u32, u32))
        ensures
            r == spec_kd(self@, player),
    {
        match self.0.get(&player) {
            Some(v) => *v,
            None => (0, 0),
        }
    }

    /// Count a kill for `player`.
    pub fn kill(&mut self, player: u64)
        requires
            spec_kd(old(self)@, player).0 < u32::MAX,
        ensures
            final(self)@ == old(self)@.insert(
                player,
                ((spec_kd(old(self)@, player).0 + 1) as u32, spec_kd(old(self)@, player).1),
            ),
    {
        let (k, d) = self.get(player);
        self.0.insert(player, (k + 1, d));
    }

    /// Count a death for `player`.
    pub fn death(&mut self, player: u64)
        requires
            spec_kd(old(self)@, player).1 < u32::MAX,
        ensures
            final(self)@ == old(self)@.insert(
                player,
                (spec_kd(old(self)@, player).0, (spec_kd(old(self)@, player).1 + 1) as u32),
            ),
    {
        let (k, d) = self.get(player);
        self.0.insert(player, (k, d + 1));
    }

    /// Forget every tally (a new match).
    pub fn clear(&mut self)
        ensures
            final(self)@ == Map::<u64, (u32, u32)>::empty(),
    {
        self.0.clear();
    }
}

} // verus!
