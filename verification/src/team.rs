//! Teams and the permission groups they are bound to.

use vstd::prelude::*;

verus! {

/// A handle on a platform-side permission group: its identifier, the
/// community it belongs to, and the display name it had when the handle
/// was taken.
#[derive(Debug)]
pub struct PermissionGroup {
    pub id: u64,
    pub community: u64,
    pub name: String,
}

/// The mathematical value of a [`PermissionGroup`].
pub struct GroupView {
    pub id: u64,
    pub community: u64,
    pub name: Seq<char>,
}

impl View for PermissionGroup {
    type V = GroupView;

    open spec fn view(&self) -> GroupView {
        GroupView { id: self.id, community: self.community, name: self.name@ }
    }
}

impl Clone for PermissionGroup {
    fn clone(&self) -> (copy: Self)
        ensures
            copy == *self,
    {
        PermissionGroup { id: self.id, community: self.community, name: self.name.clone() }
    }
}

impl PermissionGroup {
    /// A handle from an identifier, a community and a display name.
    pub fn new(id: u64, community: u64, name: &str) -> (group: Self)
        ensures
            group@ == (GroupView { id, community, name: name@ }),
    {
        PermissionGroup { id, community, name: name.to_owned() }
    }
}

/// One competing group: the channel it is bound to, its permission group
/// and its score.
#[derive(Debug)]
pub struct Team {
    pub channel: u64,
    pub group: PermissionGroup,
    pub score: i64,
}

/// The mathematical value of a [`Team`]. The score is an unbounded integer.
pub struct TeamView {
    pub channel: u64,
    pub group: GroupView,
    pub score: int,
}

impl View for Team {
    type V = TeamView;

    open spec fn view(&self) -> TeamView {
        TeamView { channel: self.channel, group: self.group@, score: self.score as int }
    }
}

impl Clone for Team {
    fn clone(&self) -> (copy: Self)
        ensures
            copy == *self,
    {
        Team { channel: self.channel, group: self.group.clone(), score: self.score }
    }
}

/// The team that creation binds to `channel`: the given group, score zero.
pub open spec fn fresh_team(channel: u64, group: GroupView) -> TeamView {
    TeamView { channel, group, score: 0 }
}

/// The team `team` with `delta` added to its score.
pub open spec fn adjusted(team: TeamView, delta: int) -> TeamView {
    TeamView { channel: team.channel, group: team.group, score: team.score + delta }
}

impl Team {
    /// A new team for `channel`, bound to `group`, with score zero.
    pub fn new(channel: u64, group: PermissionGroup) -> (team: Self)
        ensures
            team@ == fresh_team(channel, group@),
    {
        Team { channel, group, score: 0 }
    }
}

} // verus!
