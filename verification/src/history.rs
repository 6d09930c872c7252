//! Lag-compensation history: each ship's recent post-physics positions by
//! tick, so a bullet can be tested against the target as the shooter saw
//! it. Positions are opaque here; the caller interpolates between the two
//! samples returned.

use vstd::prelude::*;
use std::collections::VecDeque;
use crate::sim::LAG_COMP_HISTORY_TICKS;

verus! {

/// The last `n` entries of `s` (all of it when shorter).
pub open spec fn spec_keep_last<A>(s: Seq<A>, n: nat) -> Seq<A> {
    if s.len() > n {
        s.skip(s.len() - n)
    } else {
        s
    }
}

/// The first position at or after `from` recorded for `tick`.
pub open spec fn spec_tick_index<P>(s: Seq<(u16, P)>, tick: u16, from: int) -> Option<int>
    decreases s.len() - from,
{
    if from < 0 || from >= s.len() {
        None
    } else if s[from].0 == tick {
        Some(from)
    } else {
        spec_tick_index(s, tick, from + 1)
    }
}

/// The samples for `tick`: its position and the next recorded one (or the
/// same again when it is the newest).
pub open spec fn spec_sample<P>(s: Seq<(u16, P)>, tick: u16) -> Option<(P, P)> {
    match spec_tick_index(s, tick, 0) {
        None => None,
        Some(i) => Some(
            (
                s[i].1,
                if i + 1 < s.len() {
                    s[i + 1].1
                } else {
                    s[i].1
                },
            ),
        ),
    }
}

/// A ship's recent positions, oldest first.
pub struct PoseHistory<P> {
    pub poses: VecDeque<(u16, P)>,
}

impl<P: Copy> PoseHistory<P> {
    /// Nothing recorded.
    pub fn new() -> (r: PoseHistory<P>)
        ensures
            r.poses@ == Seq::<(u16, P)>::empty(),
    {
        PoseHistory { poses: VecDeque::new() }
    }

    /// Record the position of `tick`, keeping only the newest
    /// `LAG_COMP_HISTORY_TICKS` entries.
    pub fn record(&mut self, tick: u16, position: P)
        ensures
            final(self).poses@ == spec_keep_last(
                old(self).poses@.push((tick, position)),
                LAG_COMP_HISTORY_TICKS as nat,
            ),
            final(self).poses@.len() <= LAG_COMP_HISTORY_TICKS,
    {
        let ghost pushed = self.poses@.push((tick, position));
        self.poses.push_back((tick, position));
        while self.poses.len() > LAG_COMP_HISTORY_TICKS
            invariant
                self.poses@.len() <= pushed.len(),
                self.poses@ == pushed.skip(pushed.len() - self.poses@.len()),
                pushed.len() > LAG_COMP_HISTORY_TICKS ==> self.poses@.len() >= LAG_COMP_HISTORY_TICKS,
                pushed.len() <= LAG_COMP_HISTORY_TICKS ==> self.poses@.len() == pushed.len(),
            decreases self.poses@.len(),
        {
            self.poses.pop_front();
            proof {
                assert(self.poses@ =~= pushed.skip(pushed.len() - self.poses@.len()));
            }
        }
        proof {
            if pushed.len() <= LAG_COMP_HISTORY_TICKS {
                assert(self.poses@ =~= pushed);
            }
        }
    }

    /// The position recorded for `tick` and the one after it (the newest
    /// entry is paired with itself); `None` when `tick` is not in the
    /// history.
    pub fn sample(&self, tick: u16) -> (r: Option<(P, P)>)
        ensures
            r == spec_sample(self.poses@, tick),
    {
        let mut i: usize = 0;
        while i < self.poses.len()
            invariant
                i <= self.poses@.len(),
                spec_tick_index(self.poses@, tick, 0) == spec_tick_index(self.poses@, tick, i as int),
            decreases self.poses@.len() - i,
        {
            if self.poses[i].0 == tick {
                let start = self.poses[i].1;
                let end = if i + 1 < self.poses.len() {
                    self.poses[i + 1].1
                } else {
                    start
                };
                return Some((start, end));
            }
            i = i + 1;
        }
        None
    }
}

} // verus!
