//! The team registry: at most one team per channel.

use crate::team::{adjusted, fresh_team, GroupView, PermissionGroup, Team, TeamView};
use std::collections::HashMap;
use vstd::prelude::*;
use vstd::seq_lib::{commutative_foldl, lemma_fold_left_permutation};
use vstd::std_specs::iter::IteratorSpec;

verus! {

broadcast use vstd::std_specs::hash::group_hash_axioms;

/// The registry after a creation request for `channel`: a channel that is
/// already bound keeps its team, a free one gets a fresh team.
pub open spec fn bind(m: Map<u64, TeamView>, channel: u64, group: GroupView) -> Map<
    u64,
    TeamView,
> {
    if m.contains_key(channel) {
        m
    } else {
        m.insert(channel, fresh_team(channel, group))
    }
}

/// The registry after adding `delta` to the score of the team bound to
/// `channel`; unchanged where no team is bound to it.
pub open spec fn adjust(m: Map<u64, TeamView>, channel: u64, delta: int) -> Map<u64, TeamView> {
    if m.contains_key(channel) {
        m.insert(channel, adjusted(m[channel], delta))
    } else {
        m
    }
}

/// Whether adding `delta` to the score of the team bound to `channel`
/// stays within the range of a stored score. True where no team is bound.
pub open spec fn adjustable(m: Map<u64, TeamView>, channel: u64, delta: int) -> bool {
    m.contains_key(channel) ==> i64::MIN <= m[channel].score + delta <= i64::MAX
}

/// A request that changes the registry.
pub enum Request {
    /// Bind a fresh team to `channel` with the permission group `group`.
    Create { channel: u64, group: GroupView },
    /// Add `delta` to the score of the team bound to `channel`.
    Adjust { channel: u64, delta: int },
}

/// The registry after one request.
pub open spec fn apply(m: Map<u64, TeamView>, request: Request) -> Map<u64, TeamView> {
    match request {
        Request::Create { channel, group } => bind(m, channel, group),
        Request::Adjust { channel, delta } => adjust(m, channel, delta),
    }
}

/// The registry after a sequence of requests, served one after another.
pub open spec fn replay(m: Map<u64, TeamView>, requests: Seq<Request>) -> Map<u64, TeamView> {
    requests.fold_left(m, |m: Map<u64, TeamView>, request: Request| apply(m, request))
}

/// The sum of a sequence of score changes.
pub open spec fn total(deltas: Seq<int>) -> int {
    deltas.fold_left(0int, |sum: int, delta: int| sum + delta)
}

/// The registry after the score changes `deltas` to the team of `channel`,
/// served one after another.
pub open spec fn adjust_each(m: Map<u64, TeamView>, channel: u64, deltas: Seq<int>) -> Map<
    u64,
    TeamView,
> {
    deltas.fold_left(m, |m: Map<u64, TeamView>, delta: int| adjust(m, channel, delta))
}

/// A channel that no creation request names is unbound after any sequence
/// of requests on a registry in which it was unbound; so it is on a
/// registry that started empty.
pub proof fn lemma_unbound_until_created(
    m: Map<u64, TeamView>,
    requests: Seq<Request>,
    channel: u64,
)
    requires
        !m.contains_key(channel),
        forall|i: int|
            0 <= i < requests.len() ==> (#[trigger] requests[i] matches Request::Create {
                channel: created,
                ..
            } ==> created != channel),
    ensures
        !replay(m, requests).contains_key(channel),
        !replay(Map::empty(), requests).contains_key(channel),
    decreases requests.len(),
{
    if requests.len() > 0 {
        lemma_unbound_until_created(m, requests.drop_last(), channel);
        lemma_unbound_until_created(Map::empty(), requests.drop_last(), channel);
        assert(requests.last() == requests[requests.len() - 1]);
    }
}

/// Creation is idempotent: a second creation on the same channel changes
/// nothing, whatever group it names, and a channel that was free is bound
/// to the group of the first creation with score zero.
pub proof fn lemma_creation_keeps_first_group(
    m: Map<u64, TeamView>,
    channel: u64,
    first: GroupView,
    second: GroupView,
)
    ensures
        bind(bind(m, channel, first), channel, second) == bind(m, channel, first),
        !m.contains_key(channel) ==> bind(bind(m, channel, first), channel, second)[channel]
            == fresh_team(channel, first),
        m.contains_key(channel) ==> bind(bind(m, channel, first), channel, second) == m,
{
}

/// Two score changes have the same effect in either order, on one channel
/// or on two.
pub proof fn lemma_adjustments_commute(
    m: Map<u64, TeamView>,
    c1: u64,
    d1: int,
    c2: u64,
    d2: int,
)
    ensures
        adjust(adjust(m, c1, d1), c2, d2) == adjust(adjust(m, c2, d2), c1, d1),
{
    assert(adjust(adjust(m, c1, d1), c2, d2) =~= adjust(adjust(m, c2, d2), c1, d1));
}

/// No update is lost: after the score changes `deltas` to the team of
/// `channel`, its score is the score before plus the sum of all changes,
/// and nothing else in the registry differs.
pub proof fn lemma_adjustments_add_up(m: Map<u64, TeamView>, channel: u64, deltas: Seq<int>)
    ensures
        adjust_each(m, channel, deltas) == adjust(m, channel, total(deltas)),
        m.contains_key(channel) ==> adjust_each(m, channel, deltas)[channel].score
            == m[channel].score + total(deltas),
        !m.contains_key(channel) ==> adjust_each(m, channel, deltas) == m,
    decreases deltas.len(),
{
    if deltas.len() > 0 {
        lemma_adjustments_add_up(m, channel, deltas.drop_last());
        assert(adjust(adjust(m, channel, total(deltas.drop_last())), channel, deltas.last())
            =~= adjust(m, channel, total(deltas)));
    } else {
        assert(adjust(m, channel, 0) =~= m);
    }
}

/// The order in which score changes to one channel are served does not
/// matter: two sequences that hold the same changes, each as often as the
/// other, leave the same registry.
pub proof fn lemma_adjustments_in_any_order(
    m: Map<u64, TeamView>,
    channel: u64,
    deltas: Seq<int>,
    reordered: Seq<int>,
)
    requires
        deltas.to_multiset() == reordered.to_multiset(),
    ensures
        total(deltas) == total(reordered),
        adjust_each(m, channel, deltas) == adjust_each(m, channel, reordered),
{
    let step = |m: Map<u64, TeamView>, delta: int| adjust(m, channel, delta);
    assert(commutative_foldl(step)) by {
        assert forall|x: int, y: int, v: Map<u64, TeamView>| #[trigger]
            step(step(v, x), y) == step(step(v, y), x) by {
            lemma_adjustments_commute(v, channel, x, channel, y);
        }
    }
    lemma_fold_left_permutation(deltas, reordered, step, m);
    let plus = |sum: int, delta: int| sum + delta;
    assert(commutative_foldl(plus));
    lemma_fold_left_permutation(deltas, reordered, plus, 0int);
}

/// Whether `list` shows the registry `m` whole: one entry for each bound
/// channel, each equal to the team bound to its channel, in any order.
pub open spec fn lists(m: Map<u64, TeamView>, list: Seq<Team>) -> bool {
    &&& list.len() == m.len()
    &&& forall|i: int|
        0 <= i < list.len() ==> m.contains_key(#[trigger] list[i].channel) && m[list[i].channel]
            == list[i]@
    &&& forall|i: int, j: int|
        0 <= i < j < list.len() ==> #[trigger] list[i].channel != #[trigger] list[j].channel
    &&& forall|c: u64| #[trigger]
        m.contains_key(c) ==> exists|i: int| 0 <= i < list.len() && #[trigger] list[i].channel == c
}

/// What the registry keeps for one bound channel.
struct Standing {
    group: PermissionGroup,
    score: i64,
}

/// All teams, keyed by the channel each is bound to.
pub struct Teams {
    teams: HashMap<u64, Standing>,
}

impl View for Teams {
    type V = Map<u64, TeamView>;

    closed spec fn view(&self) -> Map<u64, TeamView> {
        Map::new(
            |c: u64| self.teams@.contains_key(c),
            |c: u64|
                TeamView {
                    channel: c,
                    group: self.teams@[c].group@,
                    score: self.teams@[c].score as int,
                },
        )
    }
}

impl Teams {
    /// An empty registry.
    pub fn new() -> (teams: Teams)
        ensures
            teams@ == Map::<u64, TeamView>::empty(),
    {
        let teams = Teams { teams: HashMap::new() };
        assert(teams@ =~= Map::<u64, TeamView>::empty());
        teams
    }

    /// Binds a fresh team with score zero to `channel`, unless a team is
    /// bound to it already: then nothing changes.
    pub fn create_team(&mut self, channel: u64, group: PermissionGroup)
        ensures
            final(self)@ == bind(old(self)@, channel, group@),
    {
        if !self.teams.contains_key(&channel) {
            self.teams.insert(channel, Standing { group, score: 0 });
            assert(final(self)@ =~= bind(old(self)@, channel, group@));
        }
    }

    /// A copy of the team bound to `channel`, if there is one.
    pub fn get_team(&self, channel: u64) -> (found: Option<Team>)
        ensures
            found is Some <==> self@.contains_key(channel),
            found matches Some(team) ==> team@ == self@[channel] && team.channel == channel,
    {
        match self.teams.get(&channel) {
            Some(standing) => Some(
                Team { channel, group: standing.group.clone(), score: standing.score },
            ),
            None => None,
        }
    }

    /// Adds `delta` to the score of the team bound to `channel` and returns
    /// a copy of the updated team. Where no team is bound to `channel`,
    /// returns `None` and changes nothing.
    pub fn adjust_score(&mut self, channel: u64, delta: i64) -> (updated: Option<Team>)
        requires
            adjustable(old(self)@, channel, delta as int),
        ensures
            final(self)@ == adjust(old(self)@, channel, delta as int),
            updated is Some <==> old(self)@.contains_key(channel),
            updated matches Some(team) ==> team@ == adjusted(old(self)@[channel], delta as int),
            !old(self)@.contains_key(channel) ==> final(self)@ == old(self)@,
    {
        match self.teams.get(&channel) {
            Some(standing) => {
                let group = standing.group.clone();
                let score: i64 = standing.score + delta;
                let copy = Team { channel, group: group.clone(), score };
                self.teams.insert(channel, Standing { group, score });
                assert(final(self)@ =~= adjust(old(self)@, channel, delta as int));
                Some(copy)
            },
            None => None,
        }
    }

    /// A copy of every team, in no particular order.
    pub fn list_teams(&self) -> (list: Vec<Team>)
        ensures
            lists(self@, list@),
    {
        let mut list: Vec<Team> = Vec::new();
        let ghost entries = self.teams.iter().remaining();
        for entry in it: self.teams.iter()
            invariant
                it.seq() == entries,
                list@.len() == it.index(),
                forall|j: int|
                    0 <= j < list@.len() ==> {
                        &&& (#[trigger] list@[j]).channel == *entries[j].0
                        &&& list@[j].group == entries[j].1.group
                        &&& list@[j].score == entries[j].1.score
                    },
        {
            let (channel, standing) = entry;
            list.push(Team { channel: *channel, group: standing.group.clone(), score: standing.score });
        }
        proof {
            assert(self@.dom() =~= self.teams@.dom());
            assert(entries.no_duplicates());
            assert forall|c: u64| #[trigger] self@.contains_key(c) implies exists|i: int|
                0 <= i < list@.len() && #[trigger] list@[i].channel == c by {
                let pair = (&c, &self.teams@[c]);
                assert(entries.contains(pair));
                let i = choose|i: int| 0 <= i < entries.len() && entries[i] == pair;
                assert(list@[i].channel == c);
            }
            assert forall|i: int, j: int| 0 <= i < j < list@.len() implies #[trigger] list@[i].channel
                != #[trigger] list@[j].channel by {
                if list@[i].channel == list@[j].channel {
                    assert(self.teams@[*entries[i].0] == *entries[i].1);
                    assert(self.teams@[*entries[j].0] == *entries[j].1);
                    assert(entries[i] == entries[j]);
                }
            }
        }
        list
    }

    /// The number of teams.
    pub fn len(&self) -> (n: usize)
        ensures
            n == self@.len(),
    {
        assert(self@.dom() =~= self.teams@.dom());
        self.teams.len()
    }
}

} // verus!
