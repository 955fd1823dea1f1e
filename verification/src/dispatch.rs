//! The command engine: it routes an invocation, asks the platform what it
//! has to know, and turns the answer into a registry change and a response.

use crate::colour::{blue_of, green_of, pack_rgb, red_of};
use crate::gate::{host_among, is_authorized, HostRoleConfig, Membership};
use crate::invocation::{values, ArgValue, ArgView, CommandOption, Invocation, Route};
use crate::plan::{
    adjust_action, adjust_outcome, begins, completes, create_action, edit_step, edited_reply,
    id_reply, integers, privileged_step, requested_colour, requested_name,
};
use crate::registry::{bind, Teams};
use crate::reply::{
    format_adjusted, format_edit_failed, format_id, format_recolored, format_renamed,
    format_score_board, ADJUST_WRONG_TYPE, CREATED, CREATE_INVALID, EDIT_INVALID, EDIT_NO_TEAM,
    INVALID_COMMAND, INVALID_SCORE_OPTION, INVALID_TEAM_OPTION, INVALID_USER, MISSING_TEAM,
    NOT_CONFIGURED, NO_COMMUNITY, NO_MEMBER, PERMISSION_DENIED, PONG, SCORE_OUT_OF_RANGE,
};
use crate::step::{
    GroupChange, GroupChangeView, GroupEdit, Pending, Privileged, Step, StepView,
};
use crate::team::{PermissionGroup, TeamView};
use vstd::prelude::*;
use vstd::string::*;

verus! {

/// The value of an optional group change.
pub open spec fn change_view(change: Option<GroupChange>) -> Option<GroupChangeView> {
    match change {
        Some(change) => Some(change@),
        None => None,
    }
}

/// The text of an optional failure description.
pub open spec fn failure_view(failure: Option<&str>) -> Option<Seq<char>> {
    match failure {
        Some(failure) => Some(failure@),
        None => None,
    }
}

fn reply_id(args: &Vec<CommandOption>) -> (text: String)
    ensures
        text@ == id_reply(values(args@)),
{
    if args.len() > 0 {
        match &args[0].value {
            ArgValue::User { tag, id } => format_id(tag, *id),
            _ => String::from_str(INVALID_USER),
        }
    } else {
        String::from_str(INVALID_USER)
    }
}

fn name_change(args: &Vec<CommandOption>) -> (change: Option<GroupChange>)
    ensures
        change_view(change) == requested_name(values(args@)),
{
    if args.len() > 0 {
        match &args[0].value {
            ArgValue::Text(name) => Some(GroupChange::Name(name.clone())),
            _ => None,
        }
    } else {
        None
    }
}

fn integer_args(args: &Vec<CommandOption>) -> (found: Vec<i64>)
    ensures
        found@ == integers(values(args@)),
{
    let mut found: Vec<i64> = Vec::new();
    let mut i: usize = 0;
    assert(values(args@.take(0)) =~= Seq::<ArgView>::empty());
    while i < args.len()
        invariant
            i <= args@.len(),
            found@ == integers(values(args@.take(i as int))),
        decreases args@.len() - i,
    {
        match &args[i].value {
            ArgValue::Integer(n) => {
                found.push(*n);
            },
            _ => {},
        }
        proof {
            let now = values(args@.take(i as int + 1));
            assert(now.drop_last() =~= values(args@.take(i as int)));
            assert(now.last() == args@[i as int].value@);
        }
        i += 1;
    }
    assert(args@.take(i as int) =~= args@);
    found
}

fn colour_change(args: &Vec<CommandOption>) -> (change: Option<GroupChange>)
    ensures
        change_view(change) == requested_colour(values(args@)),
{
    let found = integer_args(args);
    if found.len() >= 3 && 0 <= found[0] && found[0] <= 255 && 0 <= found[1] && found[1] <= 255
        && 0 <= found[2] && found[2] <= 255 {
        let colour = pack_rgb(found[0] as u8, found[1] as u8, found[2] as u8);
        Some(GroupChange::Colour(colour))
    } else {
        None
    }
}

fn read_create(args: &Vec<CommandOption>) -> (action: Privileged)
    ensures
        action@ == create_action(values(args@)),
{
    if args.len() >= 2 {
        match &args[0].value {
            ArgValue::Channel(channel) => match &args[1].value {
                ArgValue::Role(group) => Privileged::Create {
                    channel: *channel,
                    group: group.clone(),
                },
                _ => Privileged::CreateInvalid,
            },
            _ => Privileged::CreateInvalid,
        }
    } else {
        Privileged::CreateInvalid
    }
}

fn read_adjust(inv: &Invocation) -> (action: Privileged)
    ensures
        action@ == adjust_action(inv@),
{
    let args = inv.arguments();
    let amount = if args.len() > 0 {
        match &args[0].value {
            ArgValue::Integer(n) => Some(*n),
            _ => None,
        }
    } else {
        None
    };
    Privileged::Adjust { origin: inv.channel, amount }
}

/// The response once the platform has made the change `edit`, or has
/// refused it with the description `failure`.
pub fn group_edited(edit: &GroupEdit, failure: Option<&str>) -> (reply: String)
    ensures
        reply@ == edited_reply(edit@, failure_view(failure)),
{
    match failure {
        Some(failure) => format_edit_failed(failure),
        None => match &edit.change {
            GroupChange::Name(name) => format_renamed(name.as_str()),
            GroupChange::Colour(colour) => format_recolored(
                red_of(*colour),
                green_of(*colour),
                blue_of(*colour),
            ),
        },
    }
}

/// The state of the engine: the registry and the host configuration.
pub struct HandlerView {
    pub teams: Map<u64, TeamView>,
    pub host: Option<u64>,
}

/// The command engine with the state it owns.
pub struct Handler {
    teams: Teams,
    host_role: HostRoleConfig,
}

impl View for Handler {
    type V = HandlerView;

    closed spec fn view(&self) -> HandlerView {
        HandlerView { teams: self.teams@, host: self.host_role@ }
    }
}

impl Handler {
    /// An engine with no team and no host group.
    pub fn new() -> (handler: Handler)
        ensures
            handler@.teams == Map::<u64, TeamView>::empty(),
            handler@.host is None,
    {
        Handler { teams: Teams::new(), host_role: HostRoleConfig::new() }
    }

    /// Binds a fresh team to `channel`, unless one is bound to it already.
    pub fn create_team(&mut self, channel: u64, group: PermissionGroup)
        ensures
            final(self)@.teams == bind(old(self)@.teams, channel, group@),
            final(self)@.host == old(self)@.host,
    {
        self.teams.create_team(channel, group);
    }

    /// The registry.
    pub fn teams(&self) -> (teams: &Teams)
        ensures
            teams@ == self@.teams,
    {
        &self.teams
    }

    /// The configured host group, if any.
    pub fn host_role(&self) -> (host: Option<u64>)
        ensures
            host == self@.host,
    {
        self.host_role.get()
    }

    /// Takes in the permission groups of a community that has become
    /// ready: its host group, if it has one, becomes the configured one.
    pub fn ready(&mut self, groups: &Vec<PermissionGroup>)
        ensures
            final(self)@.teams == old(self)@.teams,
            final(self)@.host == match host_among(groups@) {
                Some(id) => Some(id),
                None => old(self)@.host,
            },
    {
        self.host_role.sync(groups);
    }

    fn plan_edit(&self, channel: Option<u64>, change: Option<GroupChange>) -> (step: Step)
        ensures
            step@ == edit_step(self@.teams, channel, change_view(change)),
    {
        match change {
            Some(change) => match channel {
                Some(channel) => match self.teams.get_team(channel) {
                    Some(team) => Step::EditGroup(
                        GroupEdit { group: team.group.id, community: team.group.community, change },
                    ),
                    None => Step::Reply(String::from_str(EDIT_NO_TEAM)),
                },
                None => Step::Reply(String::from_str(EDIT_INVALID)),
            },
            None => Step::Reply(String::from_str(EDIT_INVALID)),
        }
    }

    fn plan_privileged(&self, inv: &Invocation, action: Privileged) -> (step: Step)
        ensures
            step@ == privileged_step(self@.host, inv@, action@),
    {
        match self.host_role.get() {
            None => Step::Reply(String::from_str(NOT_CONFIGURED)),
            Some(group) => match inv.actor {
                None => Step::Reply(String::from_str(NO_MEMBER)),
                Some(actor) => match inv.community {
                    None => Step::Reply(String::from_str(NO_COMMUNITY)),
                    Some(community) => Step::CheckMembership(
                        Pending { actor, community, group, action },
                    ),
                },
            },
        }
    }

    /// Decides what an invocation calls for: a response, or a question to
    /// the platform. Nothing in the engine changes.
    pub fn interaction_create(&self, inv: &Invocation) -> (step: Step)
        ensures
            begins(self@.host, self@.teams, inv@, step@),
            inv@.route == Route::UnknownCommand ==> step@ == StepView::Reply(INVALID_COMMAND@),
    {
        match inv.route() {
            Route::Ping => Step::Reply(String::from_str(PONG)),
            Route::Id => Step::Reply(reply_id(inv.arguments())),
            Route::Rename => self.plan_edit(inv.channel, name_change(inv.arguments())),
            Route::Recolor => self.plan_edit(inv.channel, colour_change(inv.arguments())),
            Route::Create => self.plan_privileged(inv, read_create(inv.arguments())),
            Route::ScoreList => {
                let list = self.teams.list_teams();
                Step::Reply(format_score_board(&list))
            },
            Route::ScoreAdjust => self.plan_privileged(inv, read_adjust(inv)),
            Route::UnknownCommand => Step::Reply(String::from_str(INVALID_COMMAND)),
            Route::UnknownTeamOption => Step::Reply(String::from_str(INVALID_TEAM_OPTION)),
            Route::UnknownScoreOption => Step::Reply(String::from_str(INVALID_SCORE_OPTION)),
        }
    }

    fn adjust_team(&mut self, channel: Option<u64>, amount: Option<i64>) -> (reply: String)
        ensures
            (final(self)@.teams, reply@) == adjust_outcome(
                old(self)@.teams,
                channel,
                amount,
            ),
            final(self)@.host == old(self)@.host,
    {
        let team = match channel {
            Some(channel) => self.teams.get_team(channel),
            None => None,
        };
        match team {
            None => String::from_str(MISSING_TEAM),
            Some(team) => match amount {
                None => String::from_str(ADJUST_WRONG_TYPE),
                Some(delta) => match team.score.checked_add(delta) {
                    None => String::from_str(SCORE_OUT_OF_RANGE),
                    Some(total) => {
                        self.teams.adjust_score(team.channel, delta);
                        format_adjusted(delta, total)
                    },
                },
            },
        }
    }

    /// Finishes a privileged command once the platform has said whether
    /// its actor holds the group that was asked about. The command takes
    /// effect only if that group is the configured host group and the
    /// actor holds it.
    pub fn membership_checked(&mut self, pending: Pending, holds: bool) -> (reply: String)
        ensures
            (final(self)@.teams, reply@) == completes(
                old(self)@.host,
                old(self)@.teams,
                pending@,
                holds,
            ),
            final(self)@.host == old(self)@.host,
    {
        let answer = Membership {
            actor: pending.actor,
            community: pending.community,
            group: pending.group,
            holds,
        };
        let host = self.host_role.get();
        if host.is_none() {
            String::from_str(NOT_CONFIGURED)
        } else if !is_authorized(&answer, host) {
            String::from_str(PERMISSION_DENIED)
        } else {
            match pending.action {
                Privileged::Create { channel, group } => {
                    self.teams.create_team(channel, group);
                    String::from_str(CREATED)
                },
                Privileged::CreateInvalid => String::from_str(CREATE_INVALID),
                Privileged::Adjust { origin, amount } => self.adjust_team(origin, amount),
            }
        }
    }
}

} // verus!
