//! The response texts of the command engine.

use crate::team::{Team, TeamView};
use crate::text::{append_i64, append_u64, decimal, decimal_nat};
use vstd::prelude::*;
use vstd::string::*;

verus! {

/// The response to `ping`.
pub const PONG: &'static str = "pong";

/// The response to `id` without a user argument.
pub const INVALID_USER: &'static str = "Please provide a valid user";

/// The response to `team rename` and `team recolor` on a channel that no
/// team is bound to.
pub const EDIT_NO_TEAM: &'static str = "Failed to rename team, could not find team";

/// The response to `team rename` and `team recolor` whose arguments or
/// origin channel cannot be used.
pub const EDIT_INVALID: &'static str = "Failed to rename team, invalid argument or channel id";

/// The response that confirms `team create`.
pub const CREATED: &'static str = "Created new team";

/// The response to `team create` whose arguments are not a channel and a
/// permission group.
pub const CREATE_INVALID: &'static str = "Failed to create team, unknown channel or role";

/// The response to a privileged command that carries no invoking actor.
pub const NO_MEMBER: &'static str = "No member for interaction";

/// The response to a privileged command that carries no origin community.
pub const NO_COMMUNITY: &'static str = "No guild for interaction";

/// The response to `team score list` while no team is registered.
pub const NO_TEAMS: &'static str = "No teams created";

/// The response to `team score adjust` whose argument is not an integer.
pub const ADJUST_WRONG_TYPE: &'static str = "Adjustment wrong type, could not adjust";

/// The response to `team score adjust` on a channel that no team is bound
/// to.
pub const MISSING_TEAM: &'static str = "Missing team, could not adjust";

/// The response to `team score adjust` whose result would leave the range
/// of a stored score.
pub const SCORE_OUT_OF_RANGE: &'static str = "Score out of range, could not adjust";

/// The response to `team score` with an unknown nested subcommand.
pub const INVALID_SCORE_OPTION: &'static str = "Invalid team->score suboption";

/// The response to `team` with an unknown subcommand.
pub const INVALID_TEAM_OPTION: &'static str = "Invalid team suboption";

/// The response to an unknown top-level command.
pub const INVALID_COMMAND: &'static str = "Invalid command.";

/// The fixed response to a privileged command from an actor who is not a
/// host.
pub const PERMISSION_DENIED: &'static str =
    "You do not have permission to use this command and it has been reported to the local authorities. Spend your last moments repenting.";

/// The response to a privileged command while no host group is configured.
pub const NOT_CONFIGURED: &'static str = "Host role is not configured";

/// The response to `id`: the user's display tag and identifier.
pub open spec fn id_text(tag: Seq<char>, id: u64) -> Seq<char> {
    tag + "'s id is "@ + decimal_nat(id as nat)
}

/// The response that confirms a rename.
pub open spec fn renamed_text(name: Seq<char>) -> Seq<char> {
    "Team name is now "@ + name
}

/// The response that confirms a recolor, with the three components.
pub open spec fn recolored_text(red: u8, green: u8, blue: u8) -> Seq<char> {
    "Team color is now ("@ + decimal_nat(red as nat) + ", "@ + decimal_nat(green as nat) + ", "@
        + decimal_nat(blue as nat) + ")"@
}

/// The response to a rename or recolor that the platform refused, with the
/// platform's description of the failure.
pub open spec fn edit_failed_text(failure: Seq<char>) -> Seq<char> {
    "Failed to rename team: "@ + failure
}

/// The response that confirms a score adjustment.
pub open spec fn adjusted_text(delta: int, total: int) -> Seq<char> {
    "Team score adjusted by "@ + decimal(delta) + ", score is now "@ + decimal(total)
        + " in total"@
}

/// One line of the score list: the team's name and score.
pub open spec fn score_line(team: TeamView) -> Seq<char> {
    team.group.name + ": "@ + decimal(team.score)
}

/// The lines of the given teams, in their order, separated by `", "`.
pub open spec fn score_lines(list: Seq<Team>) -> Seq<char>
    decreases list.len(),
{
    if list.len() == 0 {
        Seq::empty()
    } else if list.len() == 1 {
        score_line(list[0]@)
    } else {
        score_lines(list.drop_last()) + ", "@ + score_line(list.last()@)
    }
}

/// The score list of the given teams.
pub open spec fn score_board(list: Seq<Team>) -> Seq<char> {
    if list.len() == 0 {
        NO_TEAMS@
    } else {
        score_lines(list)
    }
}

/// Writes the response to `id`.
pub fn format_id(tag: &str, id: u64) -> (text: String)
    ensures
        text@ == id_text(tag@, id),
{
    let mut text = String::from_str(tag);
    text.append("'s id is ");
    append_u64(&mut text, id);
    text
}

/// Writes the response that confirms a rename.
pub fn format_renamed(name: &str) -> (text: String)
    ensures
        text@ == renamed_text(name@),
{
    let mut text = String::from_str("Team name is now ");
    text.append(name);
    text
}

/// Writes the response that confirms a recolor.
pub fn format_recolored(red: u8, green: u8, blue: u8) -> (text: String)
    ensures
        text@ == recolored_text(red, green, blue),
{
    let mut text = String::from_str("Team color is now (");
    append_u64(&mut text, red as u64);
    text.append(", ");
    append_u64(&mut text, green as u64);
    text.append(", ");
    append_u64(&mut text, blue as u64);
    text.append(")");
    text
}

/// Writes the response to a rename or recolor that the platform refused.
pub fn format_edit_failed(failure: &str) -> (text: String)
    ensures
        text@ == edit_failed_text(failure@),
{
    let mut text = String::from_str("Failed to rename team: ");
    text.append(failure);
    text
}

/// Writes the response that confirms a score adjustment.
pub fn format_adjusted(delta: i64, total: i64) -> (text: String)
    ensures
        text@ == adjusted_text(delta as int, total as int),
{
    let mut text = String::from_str("Team score adjusted by ");
    append_i64(&mut text, delta);
    text.append(", score is now ");
    append_i64(&mut text, total);
    text.append(" in total");
    text
}

/// Appends a team's line of the score list to `out`.
fn append_score_line(out: &mut String, team: &Team)
    ensures
        final(out)@ == old(out)@ + score_line(team@),
{
    out.append(team.group.name.as_str());
    out.append(": ");
    append_i64(out, team.score);
    assert(final(out)@ =~= old(out)@ + score_line(team@));
}

/// Writes the score list of `list`: one line for each team in the order
/// given, joined by `", "`, or the fixed text for an empty list.
pub fn format_score_board(list: &Vec<Team>) -> (text: String)
    ensures
        text@ == score_board(list@),
{
    if list.len() == 0 {
        return String::from_str(NO_TEAMS);
    }
    let mut text = String::new();
    append_score_line(&mut text, &list[0]);
    assert(list@.take(1) =~= seq![list@[0]]);
    assert(text@ =~= score_lines(list@.take(1)));
    let mut i: usize = 1;
    while i < list.len()
        invariant
            1 <= i <= list@.len(),
            text@ == score_lines(list@.take(i as int)),
        decreases list@.len() - i,
    {
        text.append(", ");
        append_score_line(&mut text, &list[i]);
        proof {
            let shown = list@.take(i as int + 1);
            assert(shown.drop_last() =~= list@.take(i as int));
            assert(shown.last() == list@[i as int]);
            assert(text@ =~= score_lines(shown));
        }
        i += 1;
    }
    assert(list@.take(i as int) =~= list@);
    text
}

} // verus!
