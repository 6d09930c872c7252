//! Firing cadence with input buffering, and tick-based lifetimes. Ticks
//! are 16-bit counters that wrap; two ticks are compared by their wrapped
//! difference, which is exact while they are less than half a wrap apart.

use vstd::prelude::*;
use crate::sim;

verus! {

/// `a - b` on wrapping 16-bit ticks, read as a signed 16-bit value.
pub open spec fn spec_tick_diff(a: u16, b: u16) -> i32 {
    let d = if a >= b {
        a - b
    } else {
        a - b + 65536
    };
    if d >= 32768 {
        (d - 65536) as i32
    } else {
        d as i32
    }
}

/// `a - b` on wrapping 16-bit ticks, read as a signed 16-bit value.
pub fn tick_diff(a: u16, b: u16) -> (r: i32)
    ensures
        r == spec_tick_diff(a, b),
        -32768 <= r < 32768,
{
    let d: u16 = a.wrapping_sub(b);
    if d >= 32768 {
        d as i32 - 65536
    } else {
        d as i32
    }
}

/// Adding `k` ticks (less than half a wrap) is seen as `k` ticks later.
pub proof fn lemma_tick_diff_advance(b: u16, k: int)
    requires
        0 <= k < 32768,
    ensures
        spec_tick_diff(((b + k) % 65536) as u16, b) == k,
{
}

/// A weapon's cadence state: last shot, cooldown, and a buffered press.
#[derive(Debug, Clone, Copy, PartialEq, Eq, Structural)]
pub struct WeaponTimer {
    pub last_fire_tick: u16,
    pub cooldown_ticks: u16,
    pub fire_requested: Option<u16>,
}

impl WeaponTimer {
    /// A weapon that has never fired.
    pub fn new(cooldown_ticks: u16) -> (r: WeaponTimer)
        ensures
            r == (WeaponTimer { last_fire_tick: 0, cooldown_ticks, fire_requested: None }),
    {
        WeaponTimer { last_fire_tick: 0, cooldown_ticks, fire_requested: None }
    }
}

/// Whether `now` is still inside the cooldown after the last shot.
pub open spec fn spec_cooling(w: WeaponTimer, now: u16) -> bool {
    let since = spec_tick_diff(now, w.last_fire_tick);
    -(w.cooldown_ticks as int) <= since <= w.cooldown_ticks
}

/// One tick of the weapon: (new state, fired).
pub open spec fn spec_fire_step(w: WeaponTimer, now: u16, pressed: bool) -> (WeaponTimer, bool) {
    let requested = if pressed {
        Some(now)
    } else {
        w.fire_requested
    };
    match requested {
        None => (WeaponTimer { fire_requested: None, ..w }, false),
        Some(r) => if spec_tick_diff(now, r) > sim::FIRE_BUFFER_TICKS {
            (WeaponTimer { fire_requested: None, ..w }, false)
        } else if spec_cooling(w, now) {
            (WeaponTimer { fire_requested: Some(r), ..w }, false)
        } else {
            (WeaponTimer { last_fire_tick: now, fire_requested: None, ..w }, true)
        },
    }
}

/// Advance the weapon by one tick with this tick's fire button. A press is
/// remembered for `FIRE_BUFFER_TICKS` ticks and honoured on the first tick
/// the cooldown allows, so a press during cooldown is never eaten.
pub fn fire_step(w: &mut WeaponTimer, now: u16, pressed: bool) -> (fired: bool)
    ensures
        (*final(w), fired) == spec_fire_step(*old(w), now, pressed),
{
    if pressed {
        w.fire_requested = Some(now);
    }
    let requested = match w.fire_requested {
        Some(r) => r,
        None => return false,
    };
    if tick_diff(now, requested) > sim::FIRE_BUFFER_TICKS {
        w.fire_requested = None;
        return false;
    }
    let since = tick_diff(now, w.last_fire_tick);
    let cd = w.cooldown_ticks as i32;
    if -cd <= since && since <= cd {
        return false;
    }
    w.last_fire_tick = now;
    w.fire_requested = None;
    true
}

/// Cadence: a weapon never fires at a tick within its cooldown of its last
/// shot, whatever is pressed.
pub proof fn lemma_no_fire_within_cooldown(w: WeaponTimer, now: u16, pressed: bool)
    requires
        spec_cooling(w, now),
    ensures
        !spec_fire_step(w, now, pressed).1,
{
}

/// Buffering: a press that the cooldown blocks fires, without a second
/// press, on a later tick within the buffer window once the cooldown
/// allows.
pub proof fn lemma_buffered_press_fires(w: WeaponTimer, t: u16, later: u16)
    requires
        spec_cooling(w, t),
        0 <= spec_tick_diff(later, t) <= sim::FIRE_BUFFER_TICKS,
        !spec_cooling(w, later),
    ensures
        ({
            let (w1, fired1) = spec_fire_step(w, t, true);
            &&& !fired1
            &&& spec_fire_step(w1, later, false).1
        }),
{
}

/// The `k`-th of a run of consecutive ticks starting at `start`.
pub open spec fn tick_at(start: int, k: int) -> u16 {
    ((start + k) % 65536) as u16
}

/// A buffered press from tick `r` is still waiting at tick `t`: inside
/// the buffer window but blocked by the cooldown.
pub open spec fn still_waiting(w: WeaponTimer, r: u16, t: u16) -> bool {
    spec_tick_diff(t, r) <= sim::FIRE_BUFFER_TICKS && spec_cooling(w, t)
}

/// `n` consecutive ticks from `start` with the fire button released: the
/// final state and, per tick, whether a shot was fired.
pub open spec fn spec_fire_run(w: WeaponTimer, start: int, n: nat) -> (WeaponTimer, Seq<bool>)
    decreases n,
{
    if n == 0 {
        (w, Seq::empty())
    } else {
        let (w1, fired) = spec_fire_step(w, tick_at(start, 0), false);
        let (wn, rest) = spec_fire_run(w1, start + 1, (n - 1) as nat);
        (wn, seq![fired] + rest)
    }
}

/// With nothing buffered and the button released, a weapon stays as it is
/// and never fires.
proof fn lemma_idle_run(w: WeaponTimer, start: int, n: nat)
    requires
        w.fire_requested is None,
    ensures
        spec_fire_run(w, start, n).0 == w,
        spec_fire_run(w, start, n).1.len() == n,
        forall|k: int| 0 <= k < n ==> !#[trigger] spec_fire_run(w, start, n).1[k],
    decreases n,
{
    if n > 0 {
        lemma_idle_run(w, start + 1, (n - 1) as nat);
        let rest = spec_fire_run(w, start + 1, (n - 1) as nat).1;
        assert forall|k: int| 0 <= k < n implies !#[trigger] spec_fire_run(w, start, n).1[k] by {
            if k > 0 {
                assert(spec_fire_run(w, start, n).1[k] == rest[k - 1]);
            }
        }
    }
}

/// A released press is honoured exactly once or lapses: over any run of
/// consecutive ticks after a press at `r` (with the button released), the
/// weapon fires on tick `k` exactly when the press was still waiting on
/// every earlier tick of the run and on tick `k` is inside the buffer window
/// with the cooldown over; so it fires at most once, and the press stays
/// buffered only while it keeps waiting (otherwise it is spent or has
/// lapsed, and nothing fires after).
pub proof fn lemma_buffered_press_fires_once(w: WeaponTimer, r: u16, start: int, n: nat)
    requires
        w.fire_requested == Some(r),
    ensures
        ({
            let (wn, fired) = spec_fire_run(w, start, n);
            &&& fired.len() == n
            &&& forall|k: int|
                0 <= k < n ==> (#[trigger] fired[k] <==> ((forall|j: int|
                    0 <= j < k ==> #[trigger] still_waiting(w, r, tick_at(start, j)))
                    && spec_tick_diff(tick_at(start, k), r) <= sim::FIRE_BUFFER_TICKS && !spec_cooling(
                    w,
                    tick_at(start, k),
                )))
            &&& forall|i: int, j: int| 0 <= i < n && 0 <= j < n && #[trigger] fired[i] && #[trigger] fired[j]
                ==> i == j
            &&& wn.fire_requested == (if forall|j: int|
                0 <= j < n ==> #[trigger] still_waiting(w, r, tick_at(start, j)) {
                Some(r)
            } else {
                None
            })
        }),
    decreases n,
{
    if n > 0 {
        let t0 = tick_at(start, 0);
        let (w1, f0) = spec_fire_step(w, t0, false);
        let (wn, fired) = spec_fire_run(w, start, n);
        let rest = spec_fire_run(w1, start + 1, (n - 1) as nat).1;
        assert forall|k: int| 0 <= k < n - 1 implies #[trigger] tick_at(start + 1, k) == tick_at(start, k + 1) by {}
        if still_waiting(w, r, t0) {
            assert(w1 == w);
            lemma_buffered_press_fires_once(w, r, start + 1, (n - 1) as nat);
            assert forall|k: int|
                0 <= k < n implies (#[trigger] fired[k] <==> ((forall|j: int|
                    0 <= j < k ==> #[trigger] still_waiting(w, r, tick_at(start, j)))
                    && spec_tick_diff(tick_at(start, k), r) <= sim::FIRE_BUFFER_TICKS && !spec_cooling(
                    w,
                    tick_at(start, k),
                ))) by {
                if k > 0 {
                    assert(fired[k] == rest[k - 1]);
                    assert((forall|j: int| 0 <= j < k ==> #[trigger] still_waiting(w, r, tick_at(start, j)))
                        <==> (forall|j: int|
                        0 <= j < k - 1 ==> #[trigger] still_waiting(w, r, tick_at(start + 1, j)))) by {
                        if forall|j: int| 0 <= j < k - 1 ==> #[trigger] still_waiting(w, r, tick_at(start + 1, j)) {
                            assert forall|j: int| 0 <= j < k implies #[trigger] still_waiting(w, r, tick_at(start, j)) by {
                                if j > 0 {
                                    assert(still_waiting(w, r, tick_at(start + 1, j - 1)));
                                }
                            }
                        }
                        if forall|j: int| 0 <= j < k ==> #[trigger] still_waiting(w, r, tick_at(start, j)) {
                            assert forall|j: int| 0 <= j < k - 1 implies #[trigger] still_waiting(w, r, tick_at(start + 1, j)) by {
                                assert(still_waiting(w, r, tick_at(start, j + 1)));
                            }
                        }
                    }
                }
            }
            assert((forall|j: int| 0 <= j < n ==> #[trigger] still_waiting(w, r, tick_at(start, j)))
                <==> (forall|j: int|
                0 <= j < n - 1 ==> #[trigger] still_waiting(w, r, tick_at(start + 1, j)))) by {
                if forall|j: int| 0 <= j < n - 1 ==> #[trigger] still_waiting(w, r, tick_at(start + 1, j)) {
                    assert forall|j: int| 0 <= j < n implies #[trigger] still_waiting(w, r, tick_at(start, j)) by {
                        if j > 0 {
                            assert(still_waiting(w, r, tick_at(start + 1, j - 1)));
                        }
                    }
                }
                if forall|j: int| 0 <= j < n ==> #[trigger] still_waiting(w, r, tick_at(start, j)) {
                    assert forall|j: int| 0 <= j < n - 1 implies #[trigger] still_waiting(w, r, tick_at(start + 1, j)) by {
                        assert(still_waiting(w, r, tick_at(start, j + 1)));
                    }
                }
            }
            assert(!f0);
            assert(fired[0] == f0);
        } else {
            assert(w1.fire_requested is None);
            lemma_idle_run(w1, start + 1, (n - 1) as nat);
            assert forall|k: int|
                0 <= k < n implies (#[trigger] fired[k] <==> ((forall|j: int|
                    0 <= j < k ==> #[trigger] still_waiting(w, r, tick_at(start, j)))
                    && spec_tick_diff(tick_at(start, k), r) <= sim::FIRE_BUFFER_TICKS && !spec_cooling(
                    w,
                    tick_at(start, k),
                ))) by {
                if k > 0 {
                    assert(fired[k] == rest[k - 1]);
                    assert(!still_waiting(w, r, tick_at(start, 0)));
                }
            }
            assert(!still_waiting(w, r, tick_at(start, 0)));
        }
    }
}

/// Whether something spawned at `origin` with `lifetime_ticks` to live has
/// expired at `now`.
pub fn expired(now: u16, origin: u16, lifetime_ticks: i32) -> (r: bool)
    ensures
        r == (spec_tick_diff(now, origin) > lifetime_ticks),
{
    tick_diff(now, origin) > lifetime_ticks
}

} // verus!
