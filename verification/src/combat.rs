//! Combat accounting and the match lifecycle: hits on ships pay points,
//! kills pay the victim's bounty and count on the scoreboard; motherships
//! shrug off small arms behind flat damage reduction, and a mothership kill
//! ends the match, which resets after an intermission.

use vstd::prelude::*;
use crate::economy::DockedStates;
use crate::hulls;
use crate::ledger::{KdStore, Ledger, spec_balance, spec_kd};
use crate::protocol::{CargoHold, Health, HullKind, Team};
use crate::sim;
use crate::unlocks::Unlocks;

verus! {

/// A ship a bullet might have hit this tick: whether the bullet's sweep
/// crossed the ship's hit circle at the shooter's rewound view is measured
/// by the caller.
#[derive(Debug, Clone, Copy, PartialEq, Eq, Structural)]
pub struct HitCandidate {
    pub entity: u64,
    pub owner: u64,
    pub team: Team,
    pub swept: bool,
}

/// No friendly fire: a bullet only connects with the other team's ships
/// (and never with its shooter's own).
pub open spec fn spec_can_hit(shooter: u64, shooter_team: Team, c: HitCandidate) -> bool {
    c.owner != shooter && c.team != shooter_team
}

/// The first candidate the bullet can hit and did sweep.
pub open spec fn spec_pick_hit(shooter: u64, shooter_team: Team, cs: Seq<HitCandidate>) -> Option<
    HitCandidate,
>
    decreases cs.len(),
{
    if cs.len() == 0 {
        None
    } else if spec_can_hit(shooter, shooter_team, cs[0]) && cs[0].swept {
        Some(cs[0])
    } else {
        spec_pick_hit(shooter, shooter_team, cs.drop_first())
    }
}

/// Which ship a bullet hits: the first enemy ship (in the order given)
/// whose hit circle the bullet swept; `None` when it flies on.
pub fn pick_hit_target(shooter: u64, shooter_team: Team, candidates: &Vec<HitCandidate>) -> (r: Option<
    HitCandidate,
>)
    ensures
        r == spec_pick_hit(shooter, shooter_team, candidates@),
{
    let mut i: usize = 0;
    assert(candidates@.skip(0) =~= candidates@);
    while i < candidates.len()
        invariant
            i <= candidates@.len(),
            spec_pick_hit(shooter, shooter_team, candidates@) == spec_pick_hit(
                shooter,
                shooter_team,
                candidates@.skip(i as int),
            ),
        decreases candidates@.len() - i,
    {
        proof {
            assert(candidates@.skip(i as int)[0] == candidates@[i as int]);
            assert(candidates@.skip(i as int).drop_first() =~= candidates@.skip(i + 1));
        }
        let c = candidates[i];
        if c.owner != shooter && c.team != shooter_team && c.swept {
            return Some(c);
        }
        i = i + 1;
    }
    None
}

/// A live player ship that may own bullets in flight: its player, team and
/// client link.
#[derive(Debug, Clone, Copy, PartialEq, Eq, Structural)]
pub struct ShooterView {
    pub player: u64,
    pub team: Team,
    pub link: u64,
}

/// The first live ship of `owner`.
pub open spec fn spec_find_shooter(shooters: Seq<ShooterView>, owner: u64) -> Option<ShooterView>
    decreases shooters.len(),
{
    if shooters.len() == 0 {
        None
    } else if shooters[0].player == owner {
        Some(shooters[0])
    } else {
        spec_find_shooter(shooters.drop_first(), owner)
    }
}

/// The live ship of a bullet's owner: its team (which decides friend and
/// foe) and link (whose delay rewinds the hit test); `None` once that ship is
/// gone.
pub fn find_shooter(shooters: &Vec<ShooterView>, owner: u64) -> (r: Option<ShooterView>)
    ensures
        r == spec_find_shooter(shooters@, owner),
{
    let mut i: usize = 0;
    assert(shooters@.skip(0) =~= shooters@);
    while i < shooters.len()
        invariant
            i <= shooters@.len(),
            spec_find_shooter(shooters@, owner) == spec_find_shooter(shooters@.skip(i as int), owner),
        decreases shooters@.len() - i,
    {
        proof {
            assert(shooters@.skip(i as int)[0] == shooters@[i as int]);
            assert(shooters@.skip(i as int).drop_first() =~= shooters@.skip(i + 1));
        }
        if shooters[i].player == owner {
            return Some(shooters[i]);
        }
        i = i + 1;
    }
    None
}

/// Which ship a bullet of `owner` hits: none when the owner's ship is gone
/// (without it the hit cannot be rewound fairly, so the bullet flies on),
/// else the first enemy ship it swept.
pub fn bullet_target(owner: u64, shooters: &Vec<ShooterView>, candidates: &Vec<HitCandidate>) -> (r: Option<
    HitCandidate,
>)
    ensures
        r == (match spec_find_shooter(shooters@, owner) {
            None => None,
            Some(s) => spec_pick_hit(owner, s.team, candidates@),
        }),
{
    match find_shooter(shooters, owner) {
        None => None,
        Some(s) => pick_hit_target(owner, s.team, candidates),
    }
}

/// No friendly fire: whatever a bullet hits is an enemy ship, not the
/// shooter's own, that the bullet swept, and one of the candidates.
pub proof fn lemma_no_friendly_fire(shooter: u64, shooter_team: Team, cs: Seq<HitCandidate>)
    ensures
        spec_pick_hit(shooter, shooter_team, cs) matches Some(c) ==> {
            &&& c.team != shooter_team
            &&& c.owner != shooter
            &&& c.swept
            &&& cs.contains(c)
        },
    decreases cs.len(),
{
    if cs.len() > 0 {
        lemma_no_friendly_fire(shooter, shooter_team, cs.drop_first());
        if !(spec_can_hit(shooter, shooter_team, cs[0]) && cs[0].swept) {
            if let Some(c) = spec_pick_hit(shooter, shooter_team, cs.drop_first()) {
                let k = choose|k: int| 0 <= k < cs.drop_first().len() && cs.drop_first()[k] == c;
                assert(cs[k + 1] == c);
            }
        }
    }
}

/// Apply a hit of `damage` from `shooter` on `target`'s ship: hit points
/// drop (never below zero), the shooter earns the per-hit points, and if
/// the ship is destroyed the shooter also earns the victim hull's bounty and
/// a kill while the target records a death. Returns whether the ship died.
pub fn resolve_ship_hit(
    shooter: u64,
    target: u64,
    damage: u16,
    victim_hull: HullKind,
    health: &mut Health,
    points: &mut Ledger,
    kd: &mut KdStore,
) -> (killed: bool)
    requires
        shooter != target,
        spec_balance(old(points)@, shooter) + sim::POINTS_PER_HIT + hulls::spec_kill_bounty(victim_hull)
            <= u32::MAX,
        spec_kd(old(kd)@, shooter).0 < u32::MAX,
        spec_kd(old(kd)@, target).1 < u32::MAX,
    ensures
        final(health).max == old(health).max,
        final(health).current == (if damage >= old(health).current {
            0
        } else {
            old(health).current - damage
        }),
        killed == (final(health).current == 0),
        final(points)@ == old(points)@.insert(
            shooter,
            (spec_balance(old(points)@, shooter) + sim::POINTS_PER_HIT + if killed {
                hulls::spec_kill_bounty(victim_hull)
            } else {
                0
            }) as u32,
        ),
        killed ==> final(kd)@ == old(kd)@.insert(
            shooter,
            ((spec_kd(old(kd)@, shooter).0 + 1) as u32, spec_kd(old(kd)@, shooter).1),
        ).insert(target, (spec_kd(old(kd)@, target).0, (spec_kd(old(kd)@, target).1 + 1) as u32)),
        !killed ==> final(kd)@ == old(kd)@,
{
    health.current = health.current.saturating_sub(damage);
    points.award(shooter, sim::POINTS_PER_HIT);
    if health.current == 0 {
        points.award(shooter, hulls::kill_bounty(victim_hull));
        kd.kill(shooter);
        kd.death(target);
        true
    } else {
        false
    }
}

/// Apply a bullet of `damage` to an asteroid: hit points drop (never below
/// zero) and, when the asteroid cracks, the shooter earns `crack_points`
/// (which the caller derives from the asteroid's size). Returns whether it
/// cracked.
pub fn resolve_asteroid_hit(
    shooter: u64,
    damage: u16,
    crack_points: u32,
    health: &mut Health,
    points: &mut Ledger,
) -> (cracked: bool)
    requires
        spec_balance(old(points)@, shooter) + crack_points <= u32::MAX,
    ensures
        final(health).max == old(health).max,
        final(health).current == (if damage >= old(health).current {
            0
        } else {
            old(health).current - damage
        }),
        cracked == (final(health).current == 0),
        cracked ==> final(points)@ == old(points)@.insert(
            shooter,
            (spec_balance(old(points)@, shooter) + crack_points) as u32,
        ),
        !cracked ==> final(points)@ == old(points)@,
{
    health.current = health.current.saturating_sub(damage);
    if health.current == 0 {
        points.award(shooter, crack_points);
        true
    } else {
        false
    }
}

/// What follows a ship's destruction in the world.
#[derive(Debug, Clone, Copy, PartialEq, Eq, Structural)]
pub struct KillAftermath {
    /// The victim's respawn countdown; `None` for ships no client flies
    /// (target drones), which just die.
    pub respawn: Option<crate::respawn::RespawnTask>,
    /// One-unit ore fragments to scatter where it died: its whole hold.
    pub fragments: u16,
}

/// After `victim`'s ship is destroyed: its undeposited ore scatters as
/// fragments, and if a client (`link`) flies it, its respawn countdown
/// starts.
pub fn after_kill(victim: u64, link: Option<u64>, hold: Option<CargoHold>) -> (r: KillAftermath)
    ensures
        r.respawn == (match link {
            Some(l) => Some(
                crate::respawn::RespawnTask {
                    client_id: victim,
                    link: l,
                    ticks_remaining: sim::RESPAWN_DELAY_TICKS,
                    confirmed: false,
                },
            ),
            None => None,
        }),
        r.fragments == (match hold {
            Some(h) => h.current,
            None => 0,
        }),
{
    let respawn = match link {
        Some(l) => Some(crate::respawn::RespawnTask::after_death(victim, l)),
        None => None,
    };
    let fragments = match hold {
        Some(h) => h.current,
        None => 0,
    };
    KillAftermath { respawn, fragments }
}

/// Scuttle on request: a death like any other (it counts on the
/// scoreboard, scatters the hold and starts the respawn countdown); the
/// bank is untouched.
pub fn scuttle(kd: &mut KdStore, player: u64, link: u64, hold: Option<CargoHold>) -> (r: KillAftermath)
    requires
        spec_kd(old(kd)@, player).1 < u32::MAX,
    ensures
        final(kd)@ == old(kd)@.insert(
            player,
            (spec_kd(old(kd)@, player).0, (spec_kd(old(kd)@, player).1 + 1) as u32),
        ),
        r.respawn == Some(
            crate::respawn::RespawnTask {
                client_id: player,
                link,
                ticks_remaining: sim::RESPAWN_DELAY_TICKS,
                confirmed: false,
            },
        ),
        r.fragments == (match hold {
            Some(h) => h.current,
            None => 0,
        }),
{
    kd.death(player);
    after_kill(player, Some(link), hold)
}

/// Whether a match is ending: the winner and the intermission ticks left.
#[derive(Debug, Clone, Copy)]
pub struct MatchState {
    pub ending: Option<(Team, i32)>,
}

impl MatchState {
    /// A match in progress.
    pub fn new() -> (r: MatchState)
        ensures
            r.ending is None,
    {
        MatchState { ending: None }
    }
}

/// What a bullet did to a mothership.
#[derive(Debug, Clone, Copy, PartialEq, Eq, Structural)]
pub enum MothershipHit {
    /// Damage reduction absorbed it all.
    Bounced,
    /// Hit points dropped.
    Damaged,
    /// Hit points reached zero: the match is over.
    Destroyed,
}

/// Whether a bullet from `shooter_team` can touch a mothership of
/// `mothership_team` at all: only while the match is running (motherships
/// are out of play during the intermission), and never its own team's.
pub fn bullet_meets_mothership(state: &MatchState, shooter_team: Team, mothership_team: Team) -> (r: bool)
    ensures
        r == (state.ending is None && shooter_team != mothership_team),
{
    state.ending.is_none() && shooter_team != mothership_team
}

/// Damage that gets through a mothership's flat reduction.
pub open spec fn spec_mothership_damage(damage: u16) -> u16 {
    if damage <= sim::MOTHERSHIP_DAMAGE_REDUCTION {
        0
    } else {
        (damage - sim::MOTHERSHIP_DAMAGE_REDUCTION) as u16
    }
}

/// Apply an enemy bullet of `damage` to a mothership: flat damage reduction
/// first (small arms bounce off), then hit points drop; at zero the
/// shooter's team wins and the intermission starts.
pub fn resolve_mothership_hit(
    state: &mut MatchState,
    health: &mut Health,
    shooter_team: Team,
    damage: u16,
) -> (r: MothershipHit)
    ensures
        final(health).max == old(health).max,
        spec_mothership_damage(damage) == 0 ==> {
            &&& r == MothershipHit::Bounced
            &&& *final(health) == *old(health)
            &&& *final(state) == *old(state)
        },
        spec_mothership_damage(damage) > 0 ==> {
            &&& final(health).current == (if spec_mothership_damage(damage) >= old(health).current {
                0
            } else {
                old(health).current - spec_mothership_damage(damage)
            })
            &&& final(health).current == 0 ==> r == MothershipHit::Destroyed && final(state).ending
                == Some((shooter_team, sim::MATCH_RESET_TICKS))
            &&& final(health).current > 0 ==> r == MothershipHit::Damaged && *final(state)
                == *old(state)
        },
        final(health).current <= old(health).current,
{
    let through = damage.saturating_sub(sim::MOTHERSHIP_DAMAGE_REDUCTION);
    if through == 0 {
        return MothershipHit::Bounced;
    }
    health.current = health.current.saturating_sub(through);
    if health.current == 0 {
        state.ending = Some((shooter_team, sim::MATCH_RESET_TICKS));
        MothershipHit::Destroyed
    } else {
        MothershipHit::Damaged
    }
}

/// Small arms bounce off motherships: every weapon on every hull except
/// the bomber's torpedo does no damage through the flat reduction, while the
/// torpedo gets through.
pub proof fn lemma_only_torpedoes_hurt_motherships(weapon: crate::protocol::FittingId, hull: HullKind)
    ensures
        crate::fittings::spec_weapon_profile(weapon, hull) matches Some(p) ==> (spec_mothership_damage(
            p.damage,
        ) > 0 <==> (hull == HullKind::Bomber && weapon != crate::protocol::FittingId::ScatterGun
            && weapon != crate::protocol::FittingId::LongLance)),
{
}

/// What the match lifecycle does this tick.
#[derive(Debug, Clone, Copy, PartialEq, Eq, Structural)]
pub struct MatchStep {
    /// Tell every client this winner (once per match end).
    pub announce: Option<Team>,
    /// Reset the world now: clear the ledgers, rebuild motherships and the
    /// asteroid field, and send everyone back through the spawn screen.
    pub reset: bool,
}

/// Advance the intermission by one tick: announce the winner once, count
/// down, and reset when the countdown has run out.
pub fn match_step(state: &mut MatchState, announced: &mut bool) -> (r: MatchStep)
    ensures
        match old(state).ending {
            None => {
                &&& r == MatchStep { announce: None, reset: false }
                &&& *final(announced) == false
                &&& *final(state) == *old(state)
            },
            Some((winner, ticks)) => {
                &&& r.announce == (if *old(announced) {
                    None
                } else {
                    Some(winner)
                })
                &&& *final(announced) == true
                &&& ticks > 0 ==> !r.reset && final(state).ending == Some((winner, (ticks - 1) as i32))
                &&& ticks <= 0 ==> r.reset && final(state).ending is None
            },
        },
{
    let (winner, ticks) = match state.ending {
        None => {
            *announced = false;
            return MatchStep { announce: None, reset: false };
        },
        Some(e) => e,
    };
    let announce = if !*announced {
        *announced = true;
        Some(winner)
    } else {
        None
    };
    if ticks > 0 {
        state.ending = Some((winner, ticks - 1));
        MatchStep { announce, reset: false }
    } else {
        state.ending = None;
        MatchStep { announce, reset: true }
    }
}

/// Clear every per-player ledger for a fresh match: banks, points, unlocks,
/// kill/death tallies and stowed ships.
pub fn clear_ledgers(
    banks: &mut Ledger,
    points: &mut Ledger,
    unlocks: &mut Unlocks,
    kd: &mut KdStore,
    docked: &mut DockedStates,
)
    ensures
        final(banks)@ == Map::<u64, u32>::empty(),
        final(points)@ == Map::<u64, u32>::empty(),
        final(unlocks)@ == Map::<u64, Set<crate::protocol::FittingId>>::empty(),
        final(kd)@ == Map::<u64, (u32, u32)>::empty(),
        final(docked)@ == Map::<u64, crate::economy::DockedShip>::empty(),
{
    banks.clear();
    points.clear();
    unlocks.clear();
    kd.clear();
    docked.clear();
}

} // verus!
