//! The engine's decisions as mathematical functions of the invocation, the
//! registry and the host configuration.

use crate::colour::{blue, green, lemma_components_of_packed, packed, red};
use crate::gate::{authorized, Membership};
use crate::invocation::{arg_at, ArgView, Request, Route};
use crate::registry::{adjust, bind, lists};
use crate::reply::{
    adjusted_text, edit_failed_text, id_text, recolored_text, renamed_text, score_board,
    ADJUST_WRONG_TYPE, CREATED, CREATE_INVALID, EDIT_INVALID, EDIT_NO_TEAM, INVALID_COMMAND,
    INVALID_SCORE_OPTION, INVALID_TEAM_OPTION, INVALID_USER, MISSING_TEAM, NOT_CONFIGURED,
    NO_COMMUNITY, NO_MEMBER, PERMISSION_DENIED, PONG, SCORE_OUT_OF_RANGE,
};
use crate::step::{GroupChangeView, GroupEditView, PendingView, PrivilegedView, StepView};
use crate::team::{Team, TeamView};
use vstd::prelude::*;

verus! {

/// The response to `id`: the tag and identifier of the user that the
/// first argument refers to.
pub open spec fn id_reply(args: Seq<ArgView>) -> Seq<char> {
    match arg_at(args, 0) {
        ArgView::User { tag, id } => id_text(tag, id),
        _ => INVALID_USER@,
    }
}

/// The step that edits the group of the team bound to `channel`, or the
/// response that says why there is none to edit.
pub open spec fn edit_step(
    teams: Map<u64, TeamView>,
    channel: Option<u64>,
    change: Option<GroupChangeView>,
) -> StepView {
    match (change, channel) {
        (Some(change), Some(channel)) => if teams.contains_key(channel) {
            StepView::EditGroup(
                GroupEditView {
                    group: teams[channel].group.id,
                    community: teams[channel].group.community,
                    change,
                },
            )
        } else {
            StepView::Reply(EDIT_NO_TEAM@)
        },
        _ => StepView::Reply(EDIT_INVALID@),
    }
}

/// The change that `team rename` asks for: the first argument as the new
/// name, where it is a string.
pub open spec fn requested_name(args: Seq<ArgView>) -> Option<GroupChangeView> {
    match arg_at(args, 0) {
        ArgView::Text(name) => Some(GroupChangeView::Name(name)),
        _ => None,
    }
}

/// The integer arguments among `args`, in order.
pub open spec fn integers(args: Seq<ArgView>) -> Seq<i64>
    decreases args.len(),
{
    if args.len() == 0 {
        Seq::empty()
    } else {
        match args.last() {
            ArgView::Integer(n) => integers(args.drop_last()).push(n),
            _ => integers(args.drop_last()),
        }
    }
}

/// Whether `n` is a colour component.
pub open spec fn is_component(n: i64) -> bool {
    0 <= n <= 255
}

/// The change that `team recolor` asks for: the first three integer
/// arguments as red, green and blue, where each is a colour component.
pub open spec fn requested_colour(args: Seq<ArgView>) -> Option<GroupChangeView> {
    let found = integers(args);
    if found.len() >= 3 && is_component(found[0]) && is_component(found[1]) && is_component(
        found[2],
    ) {
        Some(
            GroupChangeView::Colour(
                packed(found[0] as u8, found[1] as u8, found[2] as u8) as u32,
            ),
        )
    } else {
        None
    }
}

/// What `team create` does once authorized: it binds the channel of the
/// first argument to the permission group of the second.
pub open spec fn create_action(args: Seq<ArgView>) -> PrivilegedView {
    match (arg_at(args, 0), arg_at(args, 1)) {
        (ArgView::Channel(channel), ArgView::Role(group)) => PrivilegedView::Create {
            channel,
            group,
        },
        _ => PrivilegedView::CreateInvalid,
    }
}

/// What `team score adjust` does once authorized: it adds the integer of
/// the first argument to the score of the team of the origin channel.
pub open spec fn adjust_action(inv: Request) -> PrivilegedView {
    PrivilegedView::Adjust {
        origin: inv.channel,
        amount: match arg_at(inv.args, 0) {
            ArgView::Integer(n) => Some(n),
            _ => None,
        },
    }
}

/// The step for a privileged command: without a host group, an invoking
/// actor or an origin community the response says so; otherwise the
/// platform is asked whether the actor holds the host group.
pub open spec fn privileged_step(
    host: Option<u64>,
    inv: Request,
    action: PrivilegedView,
) -> StepView {
    match host {
        None => StepView::Reply(NOT_CONFIGURED@),
        Some(group) => match inv.actor {
            None => StepView::Reply(NO_MEMBER@),
            Some(actor) => match inv.community {
                None => StepView::Reply(NO_COMMUNITY@),
                Some(community) => StepView::CheckMembership(
                    PendingView { actor, community, group, action },
                ),
            },
        },
    }
}

/// Whether `step` is what the engine decides on receiving `inv` while the
/// registry is `teams` and the host configuration is `host`. Every route
/// fixes the step but the score list, which may show the teams in any
/// order.
pub open spec fn begins(
    host: Option<u64>,
    teams: Map<u64, TeamView>,
    inv: Request,
    step: StepView,
) -> bool {
    match inv.route {
        Route::Ping => step == StepView::Reply(PONG@),
        Route::Id => step == StepView::Reply(id_reply(inv.args)),
        Route::Rename => step == edit_step(teams, inv.channel, requested_name(inv.args)),
        Route::Recolor => step == edit_step(teams, inv.channel, requested_colour(inv.args)),
        Route::Create => step == privileged_step(host, inv, create_action(inv.args)),
        Route::ScoreList => exists|list: Seq<Team>| #[trigger]
            lists(teams, list) && step == StepView::Reply(score_board(list)),
        Route::ScoreAdjust => step == privileged_step(host, inv, adjust_action(inv)),
        Route::UnknownCommand => step == StepView::Reply(INVALID_COMMAND@),
        Route::UnknownTeamOption => step == StepView::Reply(INVALID_TEAM_OPTION@),
        Route::UnknownScoreOption => step == StepView::Reply(INVALID_SCORE_OPTION@),
    }
}

/// The registry and the response after an authorized adjustment of the
/// score of the team of `channel` by `amount`.
pub open spec fn adjust_outcome(
    teams: Map<u64, TeamView>,
    channel: Option<u64>,
    amount: Option<i64>,
) -> (Map<u64, TeamView>, Seq<char>) {
    match channel {
        Some(channel) if teams.contains_key(channel) => match amount {
            None => (teams, ADJUST_WRONG_TYPE@),
            Some(delta) => {
                let total = teams[channel].score + delta;
                if i64::MIN <= total <= i64::MAX {
                    (adjust(teams, channel, delta as int), adjusted_text(delta as int, total))
                } else {
                    (teams, SCORE_OUT_OF_RANGE@)
                }
            },
        },
        _ => (teams, MISSING_TEAM@),
    }
}

/// The registry and the response after the platform has answered the
/// membership question of `pending` with `holds`.
pub open spec fn completes(
    host: Option<u64>,
    teams: Map<u64, TeamView>,
    pending: PendingView,
    holds: bool,
) -> (Map<u64, TeamView>, Seq<char>) {
    let answer = Membership {
        actor: pending.actor,
        community: pending.community,
        group: pending.group,
        holds,
    };
    if host is None {
        (teams, NOT_CONFIGURED@)
    } else if !authorized(answer, host) {
        (teams, PERMISSION_DENIED@)
    } else {
        match pending.action {
            PrivilegedView::Create { channel, group } => (bind(teams, channel, group), CREATED@),
            PrivilegedView::CreateInvalid => (teams, CREATE_INVALID@),
            PrivilegedView::Adjust { origin, amount } => adjust_outcome(teams, origin, amount),
        }
    }
}

/// A privileged command changes nothing in the registry unless a host
/// group is configured, the platform was asked about that group, and the
/// actor holds it. The response then says which of the two failed.
pub proof fn lemma_unauthorized_changes_nothing(
    host: Option<u64>,
    teams: Map<u64, TeamView>,
    pending: PendingView,
    holds: bool,
)
    requires
        !(host == Some(pending.group) && holds),
    ensures
        completes(host, teams, pending, holds).0 == teams,
        host is None ==> completes(host, teams, pending, holds).1 == NOT_CONFIGURED@,
        host is Some ==> completes(host, teams, pending, holds).1 == PERMISSION_DENIED@,
{
}

/// The response once the platform has made, or refused, the change `edit`:
/// `failure` is the platform's description of a refusal.
pub open spec fn edited_reply(edit: GroupEditView, failure: Option<Seq<char>>) -> Seq<char> {
    match failure {
        Some(failure) => edit_failed_text(failure),
        None => match edit.change {
            GroupChangeView::Name(name) => renamed_text(name),
            GroupChangeView::Colour(colour) => recolored_text(
                red(colour) as u8,
                green(colour) as u8,
                blue(colour) as u8,
            ),
        },
    }
}

/// A recolor that the platform made is confirmed with the components that
/// were asked for.
pub proof fn lemma_recolor_confirms_request(group: u64, community: u64, r: u8, g: u8, b: u8)
    ensures
        edited_reply(
            GroupEditView {
                group,
                community,
                change: GroupChangeView::Colour(packed(r, g, b) as u32),
            },
            None,
        ) == recolored_text(r, g, b),
{
    lemma_components_of_packed(r, g, b);
}

} // verus!
