use team_registry::dispatch::{group_edited, Handler};
use team_registry::invocation::{ArgValue, CommandOption, Invocation};
use team_registry::reply::{
    ADJUST_WRONG_TYPE, CREATED, CREATE_INVALID, EDIT_INVALID, EDIT_NO_TEAM, INVALID_COMMAND,
    INVALID_SCORE_OPTION, INVALID_TEAM_OPTION, INVALID_USER, MISSING_TEAM, NOT_CONFIGURED,
    NO_COMMUNITY, NO_MEMBER, NO_TEAMS, PERMISSION_DENIED, PONG, SCORE_OUT_OF_RANGE,
};
use team_registry::step::{GroupChange, GroupEdit, Pending, Privileged, Step};
use team_registry::team::PermissionGroup;

const GENERAL: u64 = 100;
const LOBBY: u64 = 101;
const HOST: u64 = 900;
const ACTOR: u64 = 7;
const GUILD: u64 = 1;

fn argument(value: ArgValue) -> CommandOption {
    CommandOption { name: "arg".to_string(), value, options: Vec::new() }
}

fn subcommand(name: &str, options: Vec<CommandOption>) -> CommandOption {
    CommandOption { name: name.to_string(), value: ArgValue::Other, options }
}

fn invocation(command: &str, path: &[&str], args: Vec<ArgValue>) -> Invocation {
    let mut options: Vec<CommandOption> = args.into_iter().map(argument).collect();
    for name in path.iter().rev() {
        options = vec![subcommand(name, options)];
    }
    Invocation {
        command: command.to_string(),
        options,
        actor: Some(ACTOR),
        channel: Some(GENERAL),
        community: Some(GUILD),
    }
}

fn red_team() -> PermissionGroup {
    PermissionGroup::new(11, GUILD, "Red Team")
}

fn configured() -> Handler {
    let mut handler = Handler::new();
    handler.ready(&vec![PermissionGroup::new(5, GUILD, "Everyone"), PermissionGroup::new(HOST, GUILD, "Host")]);
    handler
}

fn with_red_team() -> Handler {
    let mut handler = configured();
    handler.create_team(GENERAL, red_team());
    handler
}

fn reply(step: Step) -> String {
    match step {
        Step::Reply(text) => text,
        other => panic!("expected a reply, got {:?}", other),
    }
}

fn pending(step: Step) -> Pending {
    match step {
        Step::CheckMembership(pending) => pending,
        other => panic!("expected a membership check, got {:?}", other),
    }
}

fn edit(step: Step) -> GroupEdit {
    match step {
        Step::EditGroup(edit) => edit,
        other => panic!("expected a group edit, got {:?}", other),
    }
}

fn create_invocation() -> Invocation {
    invocation(
        "team",
        &["create"],
        vec![ArgValue::Channel(GENERAL), ArgValue::Role(red_team())],
    )
}

fn adjust_invocation(amount: i64) -> Invocation {
    invocation("team", &["score", "adjust"], vec![ArgValue::Integer(amount)])
}

#[test]
fn new_handler_has_no_state() {
    let handler = Handler::new();
    assert_eq!(handler.host_role(), None);
    assert_eq!(handler.teams().len(), 0);
}

#[test]
fn ready_records_host_group() {
    let handler = configured();
    assert_eq!(handler.host_role(), Some(HOST));
    assert_eq!(handler.teams().len(), 0);
}

#[test]
fn ready_without_host_leaves_configuration() {
    let mut handler = Handler::new();
    handler.ready(&vec![PermissionGroup::new(5, GUILD, "Everyone")]);
    assert_eq!(handler.host_role(), None);
    handler.ready(&vec![PermissionGroup::new(HOST, GUILD, "Host")]);
    handler.ready(&vec![PermissionGroup::new(5, GUILD, "host")]);
    assert_eq!(handler.host_role(), Some(HOST));
}

#[test]
fn ping_answers_pong() {
    let handler = Handler::new();
    let text = reply(handler.interaction_create(&invocation("ping", &[], vec![])));
    assert_eq!(text, "pong");
    assert_eq!(text, PONG);
}

#[test]
fn unknown_command_is_invalid() {
    let handler = with_red_team();
    let text = reply(handler.interaction_create(&invocation("dance", &[], vec![])));
    assert_eq!(text, "Invalid command.");
    assert_eq!(text, INVALID_COMMAND);
    assert_eq!(handler.teams().len(), 1);
    assert_eq!(handler.teams().get_team(GENERAL).unwrap().score, 0);
}

#[test]
fn unknown_team_option_is_invalid() {
    let handler = configured();
    let text = reply(handler.interaction_create(&invocation("team", &["disband"], vec![])));
    assert_eq!(text, "Invalid team suboption");
    assert_eq!(text, INVALID_TEAM_OPTION);
    let text = reply(handler.interaction_create(&invocation("team", &[], vec![])));
    assert_eq!(text, INVALID_TEAM_OPTION);
}

#[test]
fn unknown_score_option_is_invalid() {
    let handler = configured();
    let text = reply(handler.interaction_create(&invocation("team", &["score", "reset"], vec![])));
    assert_eq!(text, "Invalid team->score suboption");
    assert_eq!(text, INVALID_SCORE_OPTION);
    let text = reply(handler.interaction_create(&invocation("team", &["score"], vec![])));
    assert_eq!(text, INVALID_SCORE_OPTION);
}

#[test]
fn id_shows_tag_and_identifier() {
    let handler = Handler::new();
    let inv = invocation(
        "id",
        &[],
        vec![ArgValue::User { tag: "ferris#0042".to_string(), id: 175928847299117063 }],
    );
    assert_eq!(reply(handler.interaction_create(&inv)), "ferris#0042's id is 175928847299117063");
}

#[test]
fn id_without_user_asks_for_one() {
    let handler = Handler::new();
    let inv = invocation("id", &[], vec![ArgValue::Integer(4)]);
    assert_eq!(reply(handler.interaction_create(&inv)), "Please provide a valid user");
    let inv = invocation("id", &[], vec![]);
    assert_eq!(reply(handler.interaction_create(&inv)), INVALID_USER);
    let inv = invocation("id", &[], vec![ArgValue::Other]);
    assert_eq!(reply(handler.interaction_create(&inv)), INVALID_USER);
}

#[test]
fn create_by_non_host_is_denied() {
    let mut handler = configured();
    let asked = pending(handler.interaction_create(&create_invocation()));
    assert_eq!(asked.actor, ACTOR);
    assert_eq!(asked.community, GUILD);
    assert_eq!(asked.group, HOST);
    let text = handler.membership_checked(asked, false);
    assert_eq!(text, PERMISSION_DENIED);
    assert_eq!(
        text,
        "You do not have permission to use this command and it has been reported to the local authorities. Spend your last moments repenting."
    );
    assert!(handler.teams().get_team(GENERAL).is_none());
    assert_eq!(handler.teams().len(), 0);
}

#[test]
fn create_by_host_registers_team() {
    let mut handler = configured();
    let asked = pending(handler.interaction_create(&create_invocation()));
    let text = handler.membership_checked(asked, true);
    assert_eq!(text, "Created new team");
    assert_eq!(text, CREATED);
    let team = handler.teams().get_team(GENERAL).unwrap();
    assert_eq!(team.channel, GENERAL);
    assert_eq!(team.group.id, 11);
    assert_eq!(team.group.name, "Red Team");
    assert_eq!(team.score, 0);
    assert_eq!(handler.teams().len(), 1);
}

#[test]
fn create_twice_keeps_first_team() {
    let mut handler = with_red_team();
    let again = invocation(
        "team",
        &["create"],
        vec![ArgValue::Channel(GENERAL), ArgValue::Role(PermissionGroup::new(12, GUILD, "Blue Team"))],
    );
    let asked = pending(handler.interaction_create(&again));
    assert_eq!(handler.membership_checked(asked, true), CREATED);
    let team = handler.teams().get_team(GENERAL).unwrap();
    assert_eq!(team.group.id, 11);
    assert_eq!(team.group.name, "Red Team");
}

#[test]
fn create_with_wrong_arguments_fails() {
    let mut handler = configured();
    let swapped = invocation(
        "team",
        &["create"],
        vec![ArgValue::Role(red_team()), ArgValue::Channel(GENERAL)],
    );
    let asked = pending(handler.interaction_create(&swapped));
    assert!(matches!(asked.action, Privileged::CreateInvalid));
    let text = handler.membership_checked(asked, true);
    assert_eq!(text, "Failed to create team, unknown channel or role");
    assert_eq!(text, CREATE_INVALID);
    assert_eq!(handler.teams().len(), 0);

    let short = invocation("team", &["create"], vec![ArgValue::Channel(GENERAL)]);
    let asked = pending(handler.interaction_create(&short));
    assert_eq!(handler.membership_checked(asked, true), CREATE_INVALID);
    assert_eq!(handler.teams().len(), 0);
}

#[test]
fn create_with_wrong_arguments_by_non_host_is_denied() {
    let mut handler = configured();
    let short = invocation("team", &["create"], vec![]);
    let asked = pending(handler.interaction_create(&short));
    assert_eq!(handler.membership_checked(asked, false), PERMISSION_DENIED);
}

#[test]
fn privileged_commands_need_configuration() {
    let handler = Handler::new();
    let text = reply(handler.interaction_create(&create_invocation()));
    assert_eq!(text, NOT_CONFIGURED);
    assert_ne!(text, PERMISSION_DENIED);
    let text = reply(handler.interaction_create(&adjust_invocation(5)));
    assert_eq!(text, NOT_CONFIGURED);
}

#[test]
fn completion_needs_configuration() {
    let mut handler = Handler::new();
    let asked = Pending {
        actor: ACTOR,
        community: GUILD,
        group: HOST,
        action: Privileged::Create { channel: GENERAL, group: red_team() },
    };
    assert_eq!(handler.membership_checked(asked, true), NOT_CONFIGURED);
    assert_eq!(handler.teams().len(), 0);
}

#[test]
fn completion_needs_answer_about_host_group() {
    let mut handler = configured();
    let asked = Pending {
        actor: ACTOR,
        community: GUILD,
        group: HOST + 1,
        action: Privileged::Create { channel: GENERAL, group: red_team() },
    };
    assert_eq!(handler.membership_checked(asked, true), PERMISSION_DENIED);
    assert_eq!(handler.teams().len(), 0);
}

#[test]
fn privileged_commands_need_member() {
    let handler = configured();
    let mut inv = create_invocation();
    inv.actor = None;
    let text = reply(handler.interaction_create(&inv));
    assert_eq!(text, "No member for interaction");
    assert_eq!(text, NO_MEMBER);
    let mut inv = adjust_invocation(1);
    inv.actor = None;
    assert_eq!(reply(handler.interaction_create(&inv)), NO_MEMBER);
}

#[test]
fn privileged_commands_need_community() {
    let handler = configured();
    let mut inv = create_invocation();
    inv.community = None;
    assert_eq!(reply(handler.interaction_create(&inv)), NO_COMMUNITY);
}

#[test]
fn adjust_reports_running_total() {
    let mut handler = with_red_team();
    let asked = pending(handler.interaction_create(&adjust_invocation(5)));
    assert_eq!(
        handler.membership_checked(asked, true),
        "Team score adjusted by 5, score is now 5 in total"
    );
    let asked = pending(handler.interaction_create(&adjust_invocation(-2)));
    assert_eq!(
        handler.membership_checked(asked, true),
        "Team score adjusted by -2, score is now 3 in total"
    );
    assert_eq!(handler.teams().get_team(GENERAL).unwrap().score, 3);
}

#[test]
fn adjust_by_non_host_is_denied() {
    let mut handler = with_red_team();
    let asked = pending(handler.interaction_create(&adjust_invocation(5)));
    assert_eq!(handler.membership_checked(asked, false), PERMISSION_DENIED);
    assert_eq!(handler.teams().get_team(GENERAL).unwrap().score, 0);
}

#[test]
fn adjust_without_team_fails() {
    let mut handler = with_red_team();
    let mut inv = adjust_invocation(5);
    inv.channel = Some(LOBBY);
    let asked = pending(handler.interaction_create(&inv));
    let text = handler.membership_checked(asked, true);
    assert_eq!(text, "Missing team, could not adjust");
    assert_eq!(text, MISSING_TEAM);
    let mut inv = adjust_invocation(5);
    inv.channel = None;
    let asked = pending(handler.interaction_create(&inv));
    assert_eq!(handler.membership_checked(asked, true), MISSING_TEAM);
    assert_eq!(handler.teams().get_team(GENERAL).unwrap().score, 0);
    assert_eq!(handler.teams().len(), 1);
}

#[test]
fn adjust_with_wrong_argument_fails() {
    let mut handler = with_red_team();
    let inv = invocation("team", &["score", "adjust"], vec![ArgValue::Text("5".to_string())]);
    let asked = pending(handler.interaction_create(&inv));
    let text = handler.membership_checked(asked, true);
    assert_eq!(text, "Adjustment wrong type, could not adjust");
    assert_eq!(text, ADJUST_WRONG_TYPE);
    let inv = invocation("team", &["score", "adjust"], vec![]);
    let asked = pending(handler.interaction_create(&inv));
    assert_eq!(handler.membership_checked(asked, true), ADJUST_WRONG_TYPE);
    assert_eq!(handler.teams().get_team(GENERAL).unwrap().score, 0);
}

#[test]
fn adjust_out_of_range_changes_nothing() {
    let mut handler = with_red_team();
    let asked = pending(handler.interaction_create(&adjust_invocation(i64::MAX)));
    assert_eq!(
        handler.membership_checked(asked, true),
        "Team score adjusted by 9223372036854775807, score is now 9223372036854775807 in total"
    );
    let asked = pending(handler.interaction_create(&adjust_invocation(1)));
    assert_eq!(handler.membership_checked(asked, true), SCORE_OUT_OF_RANGE);
    assert_eq!(handler.teams().get_team(GENERAL).unwrap().score, i64::MAX);
    let asked = pending(handler.interaction_create(&adjust_invocation(i64::MIN)));
    assert_eq!(
        handler.membership_checked(asked, true),
        "Team score adjusted by -9223372036854775808, score is now -1 in total"
    );
}

#[test]
fn score_list_without_teams() {
    let handler = configured();
    let text = reply(handler.interaction_create(&invocation("team", &["score", "list"], vec![])));
    assert_eq!(text, "No teams created");
    assert_eq!(text, NO_TEAMS);
}

#[test]
fn score_list_with_one_team() {
    let mut handler = with_red_team();
    let asked = pending(handler.interaction_create(&adjust_invocation(-4)));
    handler.membership_checked(asked, true);
    let text = reply(handler.interaction_create(&invocation("team", &["score", "list"], vec![])));
    assert_eq!(text, "Red Team: -4");
}

#[test]
fn score_list_with_two_teams() {
    let mut handler = with_red_team();
    handler.create_team(LOBBY, PermissionGroup::new(12, GUILD, "Blue Team"));
    let asked = pending(handler.interaction_create(&adjust_invocation(12)));
    handler.membership_checked(asked, true);
    let text = reply(handler.interaction_create(&invocation("team", &["score", "list"], vec![])));
    assert!(
        text == "Red Team: 12, Blue Team: 0" || text == "Blue Team: 0, Red Team: 12",
        "unexpected list: {}",
        text
    );
}

#[test]
fn score_list_needs_no_host() {
    let mut handler = Handler::new();
    handler.create_team(GENERAL, red_team());
    let mut inv = invocation("team", &["score", "list"], vec![]);
    inv.actor = None;
    inv.community = None;
    inv.channel = None;
    assert_eq!(reply(handler.interaction_create(&inv)), "Red Team: 0");
}

#[test]
fn rename_asks_for_group_edit() {
    let handler = with_red_team();
    let inv = invocation("team", &["rename"], vec![ArgValue::Text("Crimson".to_string())]);
    let asked = edit(handler.interaction_create(&inv));
    assert_eq!(asked.group, 11);
    assert_eq!(asked.community, GUILD);
    match &asked.change {
        GroupChange::Name(name) => assert_eq!(name, "Crimson"),
        other => panic!("expected a rename, got {:?}", other),
    }
    assert_eq!(group_edited(&asked, None), "Team name is now Crimson");
    assert_eq!(
        group_edited(&asked, Some("Http(Forbidden)")),
        "Failed to rename team: Http(Forbidden)"
    );
}

#[test]
fn rename_needs_no_host() {
    let mut handler = Handler::new();
    handler.create_team(GENERAL, red_team());
    let inv = invocation("team", &["rename"], vec![ArgValue::Text("Crimson".to_string())]);
    assert_eq!(edit(handler.interaction_create(&inv)).group, 11);
}

#[test]
fn rename_without_team_fails() {
    let handler = configured();
    let inv = invocation("team", &["rename"], vec![ArgValue::Text("Crimson".to_string())]);
    let text = reply(handler.interaction_create(&inv));
    assert_eq!(text, "Failed to rename team, could not find team");
    assert_eq!(text, EDIT_NO_TEAM);
}

#[test]
fn rename_with_wrong_argument_fails() {
    let handler = with_red_team();
    let inv = invocation("team", &["rename"], vec![ArgValue::Integer(3)]);
    let text = reply(handler.interaction_create(&inv));
    assert_eq!(text, "Failed to rename team, invalid argument or channel id");
    assert_eq!(text, EDIT_INVALID);
    let inv = invocation("team", &["rename"], vec![]);
    assert_eq!(reply(handler.interaction_create(&inv)), EDIT_INVALID);
    let mut inv = invocation("team", &["rename"], vec![ArgValue::Text("Crimson".to_string())]);
    inv.channel = None;
    assert_eq!(reply(handler.interaction_create(&inv)), EDIT_INVALID);
}

#[test]
fn rename_leaves_registry_name() {
    let handler = with_red_team();
    let inv = invocation("team", &["rename"], vec![ArgValue::Text("Crimson".to_string())]);
    let asked = edit(handler.interaction_create(&inv));
    group_edited(&asked, None);
    assert_eq!(handler.teams().get_team(GENERAL).unwrap().group.name, "Red Team");
}

#[test]
fn recolor_packs_components() {
    let handler = with_red_team();
    let inv = invocation(
        "team",
        &["recolor"],
        vec![ArgValue::Integer(255), ArgValue::Integer(128), ArgValue::Integer(1)],
    );
    let asked = edit(handler.interaction_create(&inv));
    assert_eq!(asked.group, 11);
    match asked.change {
        GroupChange::Colour(colour) => assert_eq!(colour, 0xFF8001),
        ref other => panic!("expected a recolor, got {:?}", other),
    }
    assert_eq!(group_edited(&asked, None), "Team color is now (255, 128, 1)");
    assert_eq!(group_edited(&asked, Some("Http(Forbidden)")), "Failed to rename team: Http(Forbidden)");
}

#[test]
fn recolor_reads_components_in_order() {
    let handler = with_red_team();
    let inv = invocation(
        "team",
        &["recolor"],
        vec![ArgValue::Integer(1), ArgValue::Integer(2), ArgValue::Integer(3)],
    );
    let asked = edit(handler.interaction_create(&inv));
    match asked.change {
        GroupChange::Colour(colour) => assert_eq!(colour, 1 * 65536 + 2 * 256 + 3),
        ref other => panic!("expected a recolor, got {:?}", other),
    }
    assert_eq!(group_edited(&asked, None), "Team color is now (1, 2, 3)");
}

#[test]
fn recolor_accepts_the_ends_of_the_range() {
    let handler = with_red_team();
    let black = invocation(
        "team",
        &["recolor"],
        vec![ArgValue::Integer(0), ArgValue::Integer(0), ArgValue::Integer(0)],
    );
    let asked = edit(handler.interaction_create(&black));
    assert_eq!(group_edited(&asked, None), "Team color is now (0, 0, 0)");
    let white = invocation(
        "team",
        &["recolor"],
        vec![ArgValue::Integer(255), ArgValue::Integer(255), ArgValue::Integer(255)],
    );
    let asked = edit(handler.interaction_create(&white));
    match asked.change {
        GroupChange::Colour(colour) => assert_eq!(colour, 0xFFFFFF),
        ref other => panic!("expected a recolor, got {:?}", other),
    }
    assert_eq!(group_edited(&asked, None), "Team color is now (255, 255, 255)");
}

#[test]
fn recolor_rejects_components_out_of_range() {
    let handler = with_red_team();
    for bad in [256, -1, i64::MAX, i64::MIN, 511] {
        for position in 0..3 {
            let mut components = vec![10, 20, 30];
            components[position] = bad;
            let args = components.into_iter().map(ArgValue::Integer).collect();
            let inv = invocation("team", &["recolor"], args);
            assert_eq!(reply(handler.interaction_create(&inv)), EDIT_INVALID);
        }
    }
}

#[test]
fn recolor_needs_three_integers() {
    let handler = with_red_team();
    let inv = invocation(
        "team",
        &["recolor"],
        vec![ArgValue::Integer(1), ArgValue::Integer(2)],
    );
    assert_eq!(reply(handler.interaction_create(&inv)), EDIT_INVALID);
    let inv = invocation("team", &["recolor"], vec![]);
    assert_eq!(reply(handler.interaction_create(&inv)), EDIT_INVALID);
}

#[test]
fn recolor_skips_other_arguments() {
    let handler = with_red_team();
    let inv = invocation(
        "team",
        &["recolor"],
        vec![
            ArgValue::Integer(9),
            ArgValue::Text("x".to_string()),
            ArgValue::Integer(8),
            ArgValue::Other,
            ArgValue::Integer(7),
            ArgValue::Integer(300),
        ],
    );
    let asked = edit(handler.interaction_create(&inv));
    assert_eq!(group_edited(&asked, None), "Team color is now (9, 8, 7)");
}

#[test]
fn recolor_without_team_or_channel_fails() {
    let handler = configured();
    let args = || vec![ArgValue::Integer(1), ArgValue::Integer(2), ArgValue::Integer(3)];
    let inv = invocation("team", &["recolor"], args());
    assert_eq!(reply(handler.interaction_create(&inv)), EDIT_NO_TEAM);
    let mut inv = invocation("team", &["recolor"], args());
    inv.channel = None;
    assert_eq!(reply(handler.interaction_create(&inv)), EDIT_INVALID);
}

#[test]
fn edited_colour_shows_low_bits_only() {
    let asked = GroupEdit { group: 11, community: GUILD, change: GroupChange::Colour(0xAB010203) };
    assert_eq!(group_edited(&asked, None), "Team color is now (1, 2, 3)");
}

#[test]
fn arguments_are_read_at_the_routed_level() {
    let handler = with_red_team();
    let mut inv = invocation("team", &["rename"], vec![ArgValue::Text("Crimson".to_string())]);
    inv.options.push(argument(ArgValue::Text("Scarlet".to_string())));
    inv.options[0].value = ArgValue::Text("Ruby".to_string());
    let asked = edit(handler.interaction_create(&inv));
    match &asked.change {
        GroupChange::Name(name) => assert_eq!(name, "Crimson"),
        other => panic!("expected a rename, got {:?}", other),
    }
}

#[test]
fn only_the_first_option_selects_the_subcommand() {
    let handler = with_red_team();
    let mut inv = invocation("team", &["score", "list"], vec![]);
    inv.options.push(subcommand("rename", vec![argument(ArgValue::Text("x".to_string()))]));
    assert_eq!(reply(handler.interaction_create(&inv)), "Red Team: 0");
    let mut inv = invocation("team", &["dance"], vec![]);
    inv.options.push(subcommand("score", vec![subcommand("list", vec![])]));
    assert_eq!(reply(handler.interaction_create(&inv)), INVALID_TEAM_OPTION);
}

#[test]
fn recolor_in_another_community() {
    let mut handler = Handler::new();
    handler.create_team(LOBBY, PermissionGroup::new(21, 77, "Far Team"));
    let mut inv = invocation(
        "team",
        &["recolor"],
        vec![ArgValue::Integer(0), ArgValue::Integer(0), ArgValue::Integer(255)],
    );
    inv.channel = Some(LOBBY);
    let asked = edit(handler.interaction_create(&inv));
    assert_eq!(asked.group, 21);
    assert_eq!(asked.community, 77);
    match asked.change {
        GroupChange::Colour(colour) => assert_eq!(colour, 255),
        ref other => panic!("expected a recolor, got {:?}", other),
    }
}
