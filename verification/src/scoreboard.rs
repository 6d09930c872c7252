//! The replicated roster and the scoreboard: one row per known player
//! (team, kills, deaths, points), shown per team with the highest points
//! first.

use vstd::prelude::*;
use crate::ledger::{KdStore, Ledger, spec_balance, spec_kd};
use crate::protocol::Team;
use crate::teams::TeamAssignments;

verus! {

/// A scoreboard row.
#[derive(Debug, Clone, Copy, PartialEq, Eq, Structural)]
pub struct RosterRow {
    pub player: u64,
    pub team: Team,
    pub kills: u32,
    pub deaths: u32,
    pub points: u32,
}

/// The roster row of a known player: their team, tallies and points
/// (zero when none recorded); `None` for a player with no team.
pub fn roster_row(player: u64, teams: &TeamAssignments, kd: &KdStore, points: &Ledger) -> (r: Option<
    RosterRow,
>)
    ensures
        !teams@.contains_key(player) ==> r is None,
        teams@.contains_key(player) ==> r == Some(
            RosterRow {
                player,
                team: teams@[player],
                kills: spec_kd(kd@, player).0,
                deaths: spec_kd(kd@, player).1,
                points: spec_balance(points@, player),
            },
        ),
{
    let team = match teams.get(player) {
        Some(t) => t,
        None => return None,
    };
    let (kills, deaths) = kd.get(player);
    Some(RosterRow { player, team, kills, deaths, points: points.get(player) })
}

/// Rows ordered by points, highest first.
pub open spec fn sorted_by_points_desc(s: Seq<RosterRow>) -> bool {
    forall|a: int, b: int| 0 <= a < b < s.len() ==> s[a].points >= s[b].points
}

/// Rows with exactly `points` points.
pub open spec fn has_points(points: u32) -> spec_fn(RosterRow) -> bool {
    |r: RosterRow| r.points == points
}

/// The rows with `points` points, in their order in `s`.
pub open spec fn points_class(s: Seq<RosterRow>, points: u32) -> Seq<RosterRow> {
    s.filter(has_points(points))
}

/// Swapping two neighbouring rows with different points leaves the order
/// among rows of equal points alone.
proof fn lemma_swap_keeps_classes(s: Seq<RosterRow>, j: int, p: u32)
    requires
        0 < j < s.len(),
        s[j - 1].points != s[j].points,
    ensures
        points_class(s.update(j - 1, s[j]).update(j, s[j - 1]), p) == points_class(s, p),
{
    let x = s[j - 1];
    let y = s[j];
    let pre = s.take(j - 1);
    let post = s.skip(j + 1);
    let f = has_points(p);
    assert(s =~= pre.push(x).push(y) + post);
    assert(s.update(j - 1, y).update(j, x) =~= pre.push(y).push(x) + post);
    Seq::filter_distributes_over_add(pre.push(x).push(y), post, f);
    Seq::filter_distributes_over_add(pre.push(y).push(x), post, f);
    pre.lemma_filter_push(x, f);
    pre.lemma_filter_push(y, f);
    pre.push(x).lemma_filter_push(y, f);
    pre.push(y).lemma_filter_push(x, f);
}

/// The rows of one team.
pub open spec fn team_rows(s: Seq<RosterRow>, team: Team) -> Seq<RosterRow> {
    s.filter(|r: RosterRow| r.team == team)
}

/// Sort rows by points, highest first (insertion sort; rows with equal
/// points keep their order).
pub fn sort_by_points_desc(v: &mut Vec<RosterRow>)
    ensures
        sorted_by_points_desc(final(v)@),
        forall|p: u32| #[trigger] points_class(final(v)@, p) == points_class(old(v)@, p),
        final(v)@.to_multiset() == old(v)@.to_multiset(),
        final(v)@.len() == old(v)@.len(),
{
    let n = v.len();
    let mut i: usize = 1;
    if n == 0 {
        return;
    }
    while i < n
        invariant
            1 <= i <= n,
            n == v@.len(),
            v@.to_multiset() == old(v)@.to_multiset(),
            forall|p: u32| #[trigger] points_class(v@, p) == points_class(old(v)@, p),
            sorted_by_points_desc(v@.take(i as int)),
        decreases n - i,
    {
        let mut j: usize = i;
        proof {
            assert forall|a: int, b: int| 0 <= a < b <= i && a != j && b != j implies #[trigger] v@[a].points
                >= #[trigger] v@[b].points by {
                assert(v@.take(i as int)[a] == v@[a]);
                assert(v@.take(i as int)[b] == v@[b]);
            }
        }
        while j > 0 && v[j - 1].points < v[j].points
            invariant
                0 <= j <= i < n,
                n == v@.len(),
                v@.to_multiset() == old(v)@.to_multiset(),
                forall|p: u32| #[trigger] points_class(v@, p) == points_class(old(v)@, p),
                forall|a: int, b: int|
                    0 <= a < b <= i && a != j && b != j ==> #[trigger] v@[a].points >= #[trigger] v@[b].points,
                forall|b: int| j < b <= i ==> v@[j as int].points > #[trigger] v@[b].points,
            decreases j,
        {
            let x = v[j - 1];
            let y = v[j];
            let ghost before = v@;
            v.set(j - 1, y);
            v.set(j, x);
            proof {
                broadcast use vstd::multiset::group_multiset_axioms;
                assert(v@ =~= before.update(j - 1, y).update(j as int, x));
                vstd::seq_lib::to_multiset_update(before, j - 1, y);
                vstd::seq_lib::to_multiset_update(before.update(j - 1, y), j as int, x);
                vstd::seq_lib::to_multiset_contains(before, x);
                assert(before.contains(x));
                assert(before.to_multiset().count(x) > 0);
                assert(v@.to_multiset() =~= before.to_multiset());
                assert forall|p: u32| #[trigger] points_class(v@, p) == points_class(before, p) by {
                    lemma_swap_keeps_classes(before, j as int, p);
                }
            }
            j = j - 1;
        }
        proof {
            assert forall|a: int, b: int| 0 <= a < b < i + 1 implies #[trigger] v@.take(i + 1)[a].points
                >= #[trigger] v@.take(i + 1)[b].points by {
                if a == j && j > 0 {
                    assert(v@[j - 1].points >= v@[j as int].points);
                }
            }
        }
        i = i + 1;
    }
    proof {
        assert(v@.take(n as int) =~= v@);
    }
}

/// The scoreboard section of one team: its rows, highest points first.
pub fn scoreboard_rows(all: &Vec<RosterRow>, team: Team) -> (r: Vec<RosterRow>)
    ensures
        sorted_by_points_desc(r@),
        forall|p: u32| #[trigger] points_class(r@, p) == points_class(team_rows(all@, team), p),
        r@.to_multiset() == team_rows(all@, team).to_multiset(),
{
    let mut rows: Vec<RosterRow> = Vec::new();
    let mut i: usize = 0;
    while i < all.len()
        invariant
            i <= all@.len(),
            rows@ == team_rows(all@.take(i as int), team),
        decreases all@.len() - i,
    {
        proof {
            assert(all@.take(i + 1) =~= all@.take(i as int).push(all@[i as int]));
            all@.take(i as int).lemma_filter_push(all@[i as int], |r: RosterRow| r.team == team);
        }
        if all[i].team == team {
            rows.push(all[i]);
        }
        i = i + 1;
    }
    proof {
        assert(all@.take(all@.len() as int) =~= all@);
    }
    sort_by_points_desc(&mut rows);
    rows
}

} // verus!
