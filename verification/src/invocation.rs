//! Structured command invocations and the routing tree that reads them.

use crate::team::{GroupView, PermissionGroup};
use vstd::prelude::*;
use vstd::string::*;

verus! {

/// One typed argument of an invocation.
#[derive(Debug)]
pub enum ArgValue {
    /// A string.
    Text(String),
    /// An integer.
    Integer(i64),
    /// A reference to a user: display tag and identifier.
    User { tag: String, id: u64 },
    /// A reference to a channel.
    Channel(u64),
    /// A reference to a permission group.
    Role(PermissionGroup),
    /// A value of any other kind, or none.
    Other,
}

/// The mathematical value of an [`ArgValue`].
pub enum ArgView {
    Text(Seq<char>),
    Integer(i64),
    User { tag: Seq<char>, id: u64 },
    Channel(u64),
    Role(GroupView),
    Other,
}

impl View for ArgValue {
    type V = ArgView;

    open spec fn view(&self) -> ArgView {
        match self {
            ArgValue::Text(text) => ArgView::Text(text@),
            ArgValue::Integer(n) => ArgView::Integer(*n),
            ArgValue::User { tag, id } => ArgView::User { tag: tag@, id: *id },
            ArgValue::Channel(id) => ArgView::Channel(*id),
            ArgValue::Role(group) => ArgView::Role(group@),
            ArgValue::Other => ArgView::Other,
        }
    }
}

/// One option of an invocation. At a subcommand level its name selects the
/// subcommand and `options` holds the level below; at the innermost level
/// it is an argument and `value` holds what was given for it.
#[derive(Debug)]
pub struct CommandOption {
    pub name: String,
    pub value: ArgValue,
    pub options: Vec<CommandOption>,
}

/// A command request: the top-level command name, the options below it,
/// and who invoked it from where.
#[derive(Debug)]
pub struct Invocation {
    pub command: String,
    pub options: Vec<CommandOption>,
    pub actor: Option<u64>,
    pub channel: Option<u64>,
    pub community: Option<u64>,
}

/// Where the routing tree sends an invocation.
#[derive(Clone, Copy, Debug, PartialEq, Eq, Structural)]
pub enum Route {
    Ping,
    Id,
    Rename,
    Recolor,
    Create,
    ScoreList,
    ScoreAdjust,
    /// The top-level command name is not known.
    UnknownCommand,
    /// The command is `team`, with no subcommand or an unknown one.
    UnknownTeamOption,
    /// The subcommand is `team score`, with no nested subcommand or an
    /// unknown one.
    UnknownScoreOption,
}

/// The route below `team score`, chosen by the name of the first option
/// of that level.
pub open spec fn score_route(options: Seq<CommandOption>) -> Route {
    if options.len() == 0 {
        Route::UnknownScoreOption
    } else if options[0].name@ == "list"@ {
        Route::ScoreList
    } else if options[0].name@ == "adjust"@ {
        Route::ScoreAdjust
    } else {
        Route::UnknownScoreOption
    }
}

/// The route below `team`, chosen by the name of the first option of that
/// level.
pub open spec fn team_route(options: Seq<CommandOption>) -> Route {
    if options.len() == 0 {
        Route::UnknownTeamOption
    } else if options[0].name@ == "rename"@ {
        Route::Rename
    } else if options[0].name@ == "recolor"@ {
        Route::Recolor
    } else if options[0].name@ == "create"@ {
        Route::Create
    } else if options[0].name@ == "score"@ {
        score_route(options[0].options@)
    } else {
        Route::UnknownTeamOption
    }
}

/// The route of an invocation: each level is chosen by exact match of its
/// name, and a name that matches nothing ends the search at its level.
pub open spec fn route_of(command: Seq<char>, options: Seq<CommandOption>) -> Route {
    if command == "ping"@ {
        Route::Ping
    } else if command == "id"@ {
        Route::Id
    } else if command == "team"@ {
        team_route(options)
    } else {
        Route::UnknownCommand
    }
}

/// The options that hold the arguments of an invocation routed to
/// `route`: those of the level that the route ends at.
pub open spec fn arguments_of(options: Seq<CommandOption>, route: Route) -> Seq<CommandOption> {
    match route {
        Route::Rename | Route::Recolor | Route::Create => options[0].options@,
        Route::ScoreList | Route::ScoreAdjust => options[0].options@[0].options@,
        _ => options,
    }
}

/// The values of a list of options, in order.
pub open spec fn values(options: Seq<CommandOption>) -> Seq<ArgView> {
    Seq::new(options.len(), |i: int| options[i].value@)
}

/// The value at position `i`, or [`ArgView::Other`] where the list has no
/// such position.
pub open spec fn arg_at(args: Seq<ArgView>, i: int) -> ArgView {
    if 0 <= i < args.len() {
        args[i]
    } else {
        ArgView::Other
    }
}

/// What an invocation asks for: the route that its names select, the
/// arguments of the level that the route ends at, and the invoking actor,
/// origin channel and origin community.
pub struct Request {
    pub route: Route,
    pub args: Seq<ArgView>,
    pub actor: Option<u64>,
    pub channel: Option<u64>,
    pub community: Option<u64>,
}

impl View for Invocation {
    type V = Request;

    open spec fn view(&self) -> Request {
        let route = route_of(self.command@, self.options@);
        Request {
            route,
            args: values(arguments_of(self.options@, route)),
            actor: self.actor,
            channel: self.channel,
            community: self.community,
        }
    }
}

/// Whether `name` is exactly the text `word`.
pub fn is_named(name: &String, word: &str) -> (same: bool)
    ensures
        same == (name@ == word@),
{
    *name == String::from_str(word)
}

fn route_score(options: &Vec<CommandOption>) -> (route: Route)
    ensures
        route == score_route(options@),
{
    if options.len() == 0 {
        Route::UnknownScoreOption
    } else if is_named(&options[0].name, "list") {
        Route::ScoreList
    } else if is_named(&options[0].name, "adjust") {
        Route::ScoreAdjust
    } else {
        Route::UnknownScoreOption
    }
}

fn route_team(options: &Vec<CommandOption>) -> (route: Route)
    ensures
        route == team_route(options@),
{
    if options.len() == 0 {
        Route::UnknownTeamOption
    } else if is_named(&options[0].name, "rename") {
        Route::Rename
    } else if is_named(&options[0].name, "recolor") {
        Route::Recolor
    } else if is_named(&options[0].name, "create") {
        Route::Create
    } else if is_named(&options[0].name, "score") {
        route_score(&options[0].options)
    } else {
        Route::UnknownTeamOption
    }
}

impl Invocation {
    /// Routes the invocation through the command tree.
    pub fn route(&self) -> (route: Route)
        ensures
            route == route_of(self.command@, self.options@),
            route == self@.route,
    {
        if is_named(&self.command, "ping") {
            Route::Ping
        } else if is_named(&self.command, "id") {
            Route::Id
        } else if is_named(&self.command, "team") {
            route_team(&self.options)
        } else {
            Route::UnknownCommand
        }
    }

    /// The options that hold the arguments of the invocation: those of the
    /// level that its route ends at.
    pub fn arguments(&self) -> (options: &Vec<CommandOption>)
        ensures
            options@ == arguments_of(self.options@, self@.route),
            values(options@) == self@.args,
    {
        match self.route() {
            Route::Rename | Route::Recolor | Route::Create => &self.options[0].options,
            Route::ScoreList | Route::ScoreAdjust => &self.options[0].options[0].options,
            _ => &self.options,
        }
    }
}

/// A command name that is none of the known ones routes to
/// [`Route::UnknownCommand`], whatever follows it.
pub proof fn lemma_unknown_command(command: Seq<char>, options: Seq<CommandOption>)
    requires
        command != "ping"@,
        command != "id"@,
        command != "team"@,
    ensures
        route_of(command, options) == Route::UnknownCommand,
{
}

} // verus!
