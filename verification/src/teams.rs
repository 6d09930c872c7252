//! Team assignment: a new player joins the smaller team (Blue on a tie);
//! assignments persist through death and disconnect.

use vstd::prelude::*;
use std::collections::HashMap;
use crate::protocol::Team;

verus! {

broadcast use vstd::std_specs::hash::group_hash_axioms;

/// The players a team-assignment view puts on `team`.
pub open spec fn team_members(m: Map<u64, Team>, team: Team) -> Set<u64> {
    m.dom().filter(|k: u64| m[k] == team)
}

/// How many players a team-assignment view puts on `team`.
pub open spec fn team_size(m: Map<u64, Team>, team: Team) -> nat {
    team_members(m, team).len()
}

/// The two teams partition the known players.
pub proof fn lemma_team_sizes_sum(m: Map<u64, Team>)
    requires
        m.dom().finite(),
    ensures
        team_size(m, Team::Blue) + team_size(m, Team::Red) == m.len(),
{
    let b = team_members(m, Team::Blue);
    let r = team_members(m, Team::Red);
    assert(b.disjoint(r));
    assert(b + r =~= m.dom());
    m.dom().lemma_len_filter(|k: u64| m[k] == Team::Blue);
    m.dom().lemma_len_filter(|k: u64| m[k] == Team::Red);
    vstd::set_lib::lemma_set_disjoint_lens(b, r);
}

/// The team `client` ends up on: its existing assignment, or else the team
/// with fewer players (Blue on a tie).
pub open spec fn spec_assigned_team(m: Map<u64, Team>, client: u64) -> Team {
    if m.contains_key(client) {
        m[client]
    } else if team_size(m, Team::Blue) <= team_size(m, Team::Red) {
        Team::Blue
    } else {
        Team::Red
    }
}

/// Adding a new player to `team` grows that team by one and leaves the
/// other team's size alone.
pub proof fn lemma_team_size_insert(m: Map<u64, Team>, client: u64, team: Team, other: Team)
    requires
        m.dom().finite(),
        !m.contains_key(client),
        other != team,
    ensures
        team_size(m.insert(client, team), team) == team_size(m, team) + 1,
        team_size(m.insert(client, team), other) == team_size(m, other),
{
    let m2 = m.insert(client, team);
    assert(team_members(m2, team) =~= team_members(m, team).insert(client));
    assert(team_members(m2, other) =~= team_members(m, other));
    m.dom().lemma_len_filter(|k: u64| m[k] == team);
}

/// Team balance: when the two teams differ by at most one player, they
/// still do after a new player is assigned.
pub proof fn lemma_assignment_keeps_teams_balanced(m: Map<u64, Team>, client: u64)
    requires
        m.dom().finite(),
        !m.contains_key(client),
        team_size(m, Team::Blue) <= team_size(m, Team::Red) + 1,
        team_size(m, Team::Red) <= team_size(m, Team::Blue) + 1,
    ensures
        ({
            let m2 = m.insert(client, spec_assigned_team(m, client));
            &&& team_size(m2, Team::Blue) <= team_size(m2, Team::Red) + 1
            &&& team_size(m2, Team::Red) <= team_size(m2, Team::Blue) + 1
        }),
{
    let t = spec_assigned_team(m, client);
    lemma_team_size_insert(m, client, t, crate::protocol::spec_opponent(t));
}

/// Which team each known player is on.
pub struct TeamAssignments {
    map: HashMap<u64, Team>,
    blue: usize,
    red: usize,
}

impl View for TeamAssignments {
    type V = Map<u64, Team>;

    closed spec fn view(&self) -> Map<u64, Team> {
        self.map@
    }
}

impl TeamAssignments {
    /// The cached team sizes agree with the assignments.
    pub closed spec fn wf(&self) -> bool {
        &&& self.blue == team_size(self.map@, Team::Blue)
        &&& self.red == team_size(self.map@, Team::Red)
        &&& self.blue + self.red == self.map@.len()
    }

    /// Nobody assigned yet.
    pub fn new() -> (r: TeamAssignments)
        ensures
            r.wf(),
            r@ == Map::<u64, Team>::empty(),
    {
        let r = TeamAssignments { map: HashMap::new(), blue: 0, red: 0 };
        assert(team_members(r.map@, Team::Blue) =~= Set::empty());
        assert(team_members(r.map@, Team::Red) =~= Set::empty());
        r
    }

    /// Number of known players.
    pub fn len(&self) -> (r: usize)
        ensures
            r == self@.len(),
    {
        self.map.len()
    }

    /// The team of a known player.
    pub fn get(&self, client: u64) -> (r: Option<Team>)
        ensures
            r == (if self@.contains_key(client) { Some(self@[client]) } else { None::<Team> }),
    {
        match self.map.get(&client) {
            Some(t) => Some(*t),
            None => None,
        }
    }

    /// Players on each team: (blue, red).
    pub fn sizes(&self) -> (r: (usize, usize))
        requires
            self.wf(),
        ensures
            r.0 == team_size(self@, Team::Blue),
            r.1 == team_size(self@, Team::Red),
    {
        (self.blue, self.red)
    }

    /// The existing assignment, or the team with fewer assigned players
    /// (Blue on a tie), which is then remembered.
    pub fn assign(&mut self, client: u64) -> (r: Team)
        requires
            old(self).wf(),
            old(self)@.len() < usize::MAX,
        ensures
            final(self).wf(),
            r == spec_assigned_team(old(self)@, client),
            final(self)@ == old(self)@.insert(client, r),
    {
        if let Some(team) = self.map.get(&client) {
            let t = *team;
            proof {
                assert(self.map@.insert(client, t) =~= self.map@);
            }
            return t;
        }
        let ghost m = self.map@;
        let team = if self.blue <= self.red { Team::Blue } else { Team::Red };
        proof {
            lemma_team_size_insert(m, client, team, crate::protocol::spec_opponent(team));
            assert(m.insert(client, team).len() == m.len() + 1);
        }
        self.map.insert(client, team);
        if team == Team::Blue {
            self.blue = self.blue + 1;
        } else {
            self.red = self.red + 1;
        }
        team
    }
}

} // verus!
