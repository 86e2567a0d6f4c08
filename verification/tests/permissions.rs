use deltav_bot::discord::action::{Action, Answer, Run};
use deltav_bot::discord::error::{DbError, HandledError};
use deltav_bot::discord::ids::{GuildId, RoleId, UserId};
use deltav_bot::discord::permissions::check::{
    check_permissions_command, check_permissions_component, CheckStage, Command, CommandCheck,
    ComponentCheck, NOT_AUTHORIZED,
};
use deltav_bot::discord::permissions::data::{Permission, PermissionFlags, Permissions, ALL_BITS};
use deltav_bot::discord::permissions::{
    check_id_args, perms_add, perms_breakdown, perms_get, perms_remove, BreakDown, BreakStage,
    ChangePermissions, GetPermissions, PermsStage,
};
use deltav_bot::discord::store::Statement;
use deltav_bot::discord::texts::Text;
use deltav_bot::discord::{
    event_handler, grant_result, initialize, start_result, Event, Operator, Reaction,
};

fn flags(list: &[Permission]) -> PermissionFlags {
    let mut out = PermissionFlags::empty();
    for p in list {
        out = out.union(p.flags());
    }
    out
}

fn drive<R: Run>(run: R, answers: Vec<Answer>) -> Vec<Action> {
    let mut actions = Vec::new();
    let mut run = run;
    for answer in answers {
        let (next, action) = run.step(answer);
        run = next;
        actions.push(action);
    }
    actions
}

fn reply_of(action: &Action) -> String {
    match action {
        Action::Reply(text) => text.render(),
        other => panic!("no reply: {other:?}"),
    }
}

#[test]
fn flags_are_a_set() {
    let a = flags(&[Permission::ContentReviewer, Permission::PermissionsView]);
    assert_eq!(a.bits(), 6);
    assert!(a.has(Permission::ContentReviewer));
    assert!(!a.has(Permission::PermissionsEdit));
    let b = a.difference(Permission::ContentReviewer.flags());
    assert_eq!(b, Permission::PermissionsView.flags());
    assert!(a.contains(b));
    assert!(!b.contains(a));
    assert!(a.contains(PermissionFlags::empty()));
    assert!(PermissionFlags::empty().is_empty());
    assert_eq!(PermissionFlags::all().bits(), ALL_BITS);
    assert_eq!(PermissionFlags::from_bits(31), Some(PermissionFlags::all()));
    assert_eq!(PermissionFlags::from_bits(32), None);
    assert_eq!(PermissionFlags::from_bits(u64::MAX), None);
}

#[test]
fn flags_have_names() {
    assert_eq!(
        PermissionFlags::list(),
        vec![
            "CONTENT_REVIEW_CONFIG",
            "CONTENT_REVIEWER",
            "PERMISSIONS_VIEW",
            "PERMISSIONS_EDIT",
            "PR_FEEDS_EDIT"
        ]
    );
    for (i, name) in PermissionFlags::list().into_iter().enumerate() {
        let by_index = PermissionFlags::from_index(i).unwrap();
        assert_eq!(PermissionFlags::from_name(name), Some(by_index));
        assert_eq!(by_index.name(), name);
        assert_eq!(by_index.localized_name("de"), None);
    }
    assert_eq!(PermissionFlags::from_index(5), None);
    assert_eq!(PermissionFlags::from_name("permissions_view"), None);
    assert_eq!(
        flags(&[Permission::PrFeedsEdit, Permission::ContentReviewer]).iter_names(),
        vec![Permission::ContentReviewer, Permission::PrFeedsEdit]
    );
}

#[test]
fn unknown_flags_are_asked_for_and_remembered() {
    let mut known = Permissions::new();
    assert_eq!(known.cached(7), None);
    assert_eq!(Permissions::get_flags_statement(7), Statement::SelectFlags { snowflake: 7 });
    assert_eq!(known.get_flags(7, Ok(Some(2))), Ok(Permission::ContentReviewer.flags()));
    assert_eq!(known.cached(7), Some(Permission::ContentReviewer.flags()));
    assert_eq!(known.get_flags(7, Err(DbError::Other)), Ok(Permission::ContentReviewer.flags()));
    assert_eq!(known.get_flags(8, Ok(None)), Ok(PermissionFlags::empty()));
    assert_eq!(known.get_flags(9, Ok(Some(32))), Err(HandledError::InternalError));
    assert_eq!(known.get_flags(9, Ok(Some(-1))), Err(HandledError::InternalError));
    assert_eq!(known.get_flags(9, Err(DbError::Other)), Err(HandledError::InternalError));
    assert_eq!(known.cached(9), None);
}

#[test]
fn flags_are_checked() {
    let mut known = Permissions::new();
    let reviewer = Permission::ContentReviewer.flags();
    assert!(known.has_flags(1, reviewer, Ok(Some(3))));
    assert!(!known.has_flags(2, reviewer, Ok(Some(1))));
    assert!(!known.has_flags(3, reviewer, Err(DbError::Other)));
    assert!(known.has_flags(2, PermissionFlags::empty(), Ok(None)));
}

#[test]
fn flags_are_set() {
    let mut known = Permissions::new();
    let edit = Permission::PermissionsEdit.flags();
    assert_eq!(
        Permissions::set_flags_statement(5, edit),
        Statement::UpsertFlags { snowflake: 5, flags: 8 }
    );
    assert_eq!(
        Permissions::set_flags_statement(5, PermissionFlags::empty()),
        Statement::DeleteFlags { snowflake: 5 }
    );
    assert_eq!(known.set_flags(5, edit, Err(DbError::Other)), Err(HandledError::InternalError));
    assert_eq!(known.set_flags(5, edit, Err(DbError::RowNotFound)), Err(HandledError::InternalError));
    assert_eq!(known.cached(5), None);
    assert_eq!(known.set_flags(5, edit, Ok(())), Ok(()));
    assert_eq!(known.cached(5), Some(edit));
    assert_eq!(known.cached(6), None);
    assert_eq!(known.set_flags(5, PermissionFlags::empty(), Err(DbError::RowNotFound)), Ok(()));
    assert_eq!(known.cached(5), Some(edit));
    assert_eq!(known.set_flags(5, PermissionFlags::empty(), Ok(())), Ok(()));
    assert_eq!(known.cached(5), Some(PermissionFlags::empty()));
}

#[test]
fn flags_are_added_and_removed() {
    let mut known = Permissions::new();
    let view = Permission::PermissionsView.flags();
    assert_eq!(
        known.add_flags_statement(5, view, Ok(Some(2))),
        Ok(Statement::UpsertFlags { snowflake: 5, flags: 6 })
    );
    assert_eq!(known.add_flags(5, view, Ok(Some(2)), Ok(())), Ok(()));
    assert!(known.has_flags(5, view, Err(DbError::Other)));
    assert_eq!(
        known.remove_flags_statement(5, PermissionFlags::all(), Ok(None)),
        Ok(Statement::DeleteFlags { snowflake: 5 })
    );
    assert_eq!(known.remove_flags(5, view, Ok(None), Ok(())), Ok(()));
    assert!(!known.has_flags(5, view, Ok(Some(31))));
    assert!(known.has_flags(5, Permission::ContentReviewer.flags(), Ok(None)));
    assert_eq!(
        known.add_flags(5, view, Ok(None), Err(DbError::Other)),
        Err(HandledError::InternalError)
    );
    assert!(!known.has_flags(5, view, Ok(Some(31))));
    assert_eq!(
        known.add_flags_statement(6, view, Err(DbError::Other)),
        Err(HandledError::InternalError)
    );
    assert_eq!(
        known.remove_flags(6, view, Err(DbError::Other), Ok(())),
        Err(HandledError::InternalError)
    );
}

fn command_check() -> CommandCheck {
    CommandCheck {
        author: UserId::new(1),
        permission: Permission::ContentReviewer,
        stage: CheckStage::New,
    }
}

#[test]
fn a_user_with_the_permission_is_allowed() {
    let (check, action) = check_permissions_command(command_check(), Answer::Start);
    assert!(matches!(action, Action::HasFlags(1, Permission::ContentReviewer)));
    let (_, action) = check_permissions_command(check, Answer::Holds(true));
    assert!(matches!(action, Action::Allow(true)));
}

#[test]
fn a_user_whose_role_has_the_permission_is_allowed() {
    let roles = vec![RoleId::new(10), RoleId::new(11)];
    let actions = drive(
        command_check(),
        vec![
            Answer::Start,
            Answer::Holds(false),
            Answer::Roles(Some(roles)),
            Answer::Holds(false),
            Answer::Holds(true),
        ],
    );
    assert!(matches!(actions[1], Action::AuthorRoles));
    assert!(matches!(actions[2], Action::HasFlags(10, _)));
    assert!(matches!(actions[3], Action::HasFlags(11, _)));
    assert!(matches!(actions[4], Action::Allow(true)));
}

#[test]
fn a_user_without_the_permission_is_told() {
    let actions = drive(
        command_check(),
        vec![
            Answer::Start,
            Answer::Holds(false),
            Answer::Roles(Some(vec![RoleId::new(10)])),
            Answer::Holds(false),
            Answer::Done,
        ],
    );
    assert_eq!(reply_of(&actions[3]), "You are not authorized to use this feature.");
    assert!(matches!(actions[4], Action::Allow(false)));
    let actions = drive(
        command_check(),
        vec![Answer::Start, Answer::Holds(false), Answer::Roles(None), Answer::Failed],
    );
    assert_eq!(reply_of(&actions[2]), NOT_AUTHORIZED);
    assert!(matches!(actions[3], Action::Abort(None)));
}

fn component_check(guild: Option<GuildId>) -> ComponentCheck {
    ComponentCheck {
        user: UserId::new(1),
        guild,
        permission: Permission::ContentReviewer,
        stage: CheckStage::New,
    }
}

#[test]
fn a_press_outside_of_a_guild_is_not_allowed() {
    let actions = drive(component_check(None), vec![Answer::Start, Answer::Holds(false)]);
    assert!(matches!(actions[1], Action::Allow(false)));
    let actions = drive(component_check(None), vec![Answer::Start, Answer::Holds(true)]);
    assert!(matches!(actions[1], Action::Allow(true)));
}

#[test]
fn a_press_is_allowed_by_role() {
    let guild = GuildId::new(9);
    let (check, action) = check_permissions_component(component_check(Some(guild)), Answer::Start);
    assert!(matches!(action, Action::HasFlags(1, _)));
    let (check, action) = check_permissions_component(check, Answer::Holds(false));
    assert!(matches!(action, Action::MemberRoles(g, u) if g == guild && u == UserId::new(1)));
    let (check, action) =
        check_permissions_component(check, Answer::Roles(Some(vec![RoleId::new(3)])));
    assert!(matches!(action, Action::HasFlags(3, _)));
    let (_, action) = check_permissions_component(check, Answer::Holds(true));
    assert!(matches!(action, Action::Allow(true)));
}

#[test]
fn a_press_is_refused() {
    let guild = Some(GuildId::new(9));
    let actions = drive(
        component_check(guild),
        vec![Answer::Start, Answer::Holds(false), Answer::Roles(Some(vec![])), Answer::Done],
    );
    assert!(matches!(
        actions[2],
        Action::Respond { text: Text::Plain(NOT_AUTHORIZED), ephemeral: true }
    ));
    assert!(matches!(actions[3], Action::Allow(false)));
    let actions = drive(
        component_check(guild),
        vec![Answer::Start, Answer::Holds(false), Answer::Roles(None), Answer::Done],
    );
    assert!(matches!(
        actions[2],
        Action::Respond { text: Text::Plain("An internal error occurred."), ephemeral: true }
    ));
    assert!(matches!(actions[3], Action::Abort(None)));
}

#[test]
fn a_command_does_nothing_without_permission() {
    let run = Command::New {
        author: UserId::new(1),
        body: ChangePermissions {
            user: Some(UserId::new(2)),
            role: None,
            permission: Permission::PermissionsView,
            gives: true,
            stage: PermsStage::New,
        },
    };
    let actions = drive(
        run,
        vec![
            Answer::Start,
            Answer::Holds(false),
            Answer::Roles(Some(vec![RoleId::new(3)])),
            Answer::Holds(false),
            Answer::Done,
            Answer::Updated(Ok(())),
        ],
    );
    assert!(matches!(actions[0], Action::HasFlags(1, Permission::PermissionsEdit)));
    assert!(matches!(actions[2], Action::HasFlags(3, Permission::PermissionsEdit)));
    assert_eq!(reply_of(&actions[3]), NOT_AUTHORIZED);
    assert!(matches!(actions[4], Action::Finish));
    assert!(matches!(actions[5], Action::Finish));
}

#[test]
fn exactly_one_of_user_and_role() {
    let user = UserId::new(4);
    let role = RoleId::new(5);
    assert_eq!(check_id_args(None, Some(user)), Ok(4));
    assert_eq!(check_id_args(Some(role), None), Ok(5));
    assert_eq!(
        check_id_args(Some(role), Some(user)),
        Err("You may only specify one of: user, role")
    );
    assert_eq!(check_id_args(None, None), Err("You must specify exactly one of: user, role"));
}

fn get_command(user: Option<UserId>) -> Command<GetPermissions> {
    Command::New {
        author: UserId::new(1),
        body: GetPermissions { user, role: None, stage: PermsStage::New },
    }
}

#[test]
fn permissions_are_shown() {
    let (run, _) = perms_get(get_command(Some(UserId::new(2))), Answer::Start);
    let (run, action) = perms_get(run, Answer::Holds(true));
    assert!(matches!(action, Action::GetFlags(2)));
    let found = flags(&[Permission::PermissionsView, Permission::PrFeedsEdit]);
    let (run, action) = perms_get(run, Answer::Flags(Ok(found)));
    assert_eq!(reply_of(&action), "- `PERMISSIONS_VIEW`\n- `PR_FEEDS_EDIT`\n");
    let (_, action) = perms_get(run, Answer::Done);
    assert!(matches!(action, Action::Finish));
}

#[test]
fn no_permissions_are_shown() {
    let actions = drive(
        get_command(Some(UserId::new(2))),
        vec![Answer::Start, Answer::Holds(true), Answer::Flags(Ok(PermissionFlags::empty()))],
    );
    assert_eq!(reply_of(&actions[2]), "No permissions granted.");
    let actions = drive(
        get_command(Some(UserId::new(2))),
        vec![
            Answer::Start,
            Answer::Holds(true),
            Answer::Flags(Err(HandledError::InternalError)),
        ],
    );
    assert_eq!(reply_of(&actions[2]), "Failed to retrieve flags: An internal error occurred.");
    let actions = drive(get_command(None), vec![Answer::Start, Answer::Holds(true)]);
    assert_eq!(reply_of(&actions[1]), "You must specify exactly one of: user, role");
}

fn change_command(gives: bool) -> Command<ChangePermissions> {
    Command::New {
        author: UserId::new(1),
        body: ChangePermissions {
            user: None,
            role: Some(RoleId::new(8)),
            permission: Permission::ContentReviewer,
            gives,
            stage: PermsStage::New,
        },
    }
}

#[test]
fn permissions_are_given() {
    let (run, _) = perms_add(change_command(true), Answer::Start);
    let (run, action) = perms_add(run, Answer::Holds(true));
    assert!(matches!(action, Action::AddFlags(8, Permission::ContentReviewer)));
    let (_, action) = perms_add(run, Answer::Updated(Ok(())));
    assert_eq!(reply_of(&action), "Added `CONTENT_REVIEWER` flag.");
}

#[test]
fn permissions_are_taken() {
    let (run, _) = perms_remove(change_command(false), Answer::Start);
    let (run, action) = perms_remove(run, Answer::Holds(true));
    assert!(matches!(action, Action::RemoveFlags(8, Permission::ContentReviewer)));
    let (_, action) = perms_remove(run, Answer::Updated(Ok(())));
    assert_eq!(reply_of(&action), "Removed `CONTENT_REVIEWER` flag.");
    let actions = drive(
        change_command(false),
        vec![
            Answer::Start,
            Answer::Holds(true),
            Answer::Updated(Err(HandledError::InternalError)),
        ],
    );
    assert_eq!(reply_of(&actions[2]), "Failed to add flag: An internal error occurred.");
}

fn breakdown_command() -> Command<BreakDown> {
    Command::New {
        author: UserId::new(1),
        body: BreakDown { user: UserId::new(2), stage: BreakStage::New },
    }
}

#[test]
fn permissions_are_broken_down() {
    let (run, _) = perms_breakdown(breakdown_command(), Answer::Start);
    let (run, action) = perms_breakdown(run, Answer::Holds(true));
    assert!(matches!(action, Action::GetFlags(2)));
    let (run, action) =
        perms_breakdown(run, Answer::Flags(Ok(Permission::ContentReviewer.flags())));
    assert!(matches!(action, Action::AuthorRoles));
    let roles = vec![RoleId::new(5), RoleId::new(6)];
    let (run, action) = perms_breakdown(run, Answer::Roles(Some(roles)));
    assert!(matches!(action, Action::GetFlags(5)));
    let (run, action) = perms_breakdown(run, Answer::Flags(Ok(PermissionFlags::empty())));
    assert!(matches!(action, Action::GetFlags(6)));
    let (_, action) =
        perms_breakdown(run, Answer::Flags(Ok(flags(&[Permission::PermissionsEdit]))));
    assert_eq!(
        reply_of(&action),
        "## Permissions breakdown for <@2>\n### User\n- `CONTENT_REVIEWER`\n### Role <@&6>\n- `PERMISSIONS_EDIT`\n"
    );
}

#[test]
fn a_breakdown_stops_at_an_error() {
    let actions = drive(
        breakdown_command(),
        vec![
            Answer::Start,
            Answer::Holds(true),
            Answer::Flags(Err(HandledError::InternalError)),
            Answer::Roles(Some(vec![RoleId::new(5), RoleId::new(6)])),
            Answer::Flags(Err(HandledError::InternalError)),
            Answer::Done,
        ],
    );
    assert_eq!(
        reply_of(&actions[4]),
        "## Permissions breakdown for <@2>\nEncountered an error while checking permissions of role <@&5>: An internal error occurred."
    );
    assert!(matches!(actions[5], Action::Finish));
}

#[test]
fn an_empty_breakdown() {
    let actions = drive(
        breakdown_command(),
        vec![
            Answer::Start,
            Answer::Holds(true),
            Answer::Flags(Ok(PermissionFlags::empty())),
            Answer::Roles(None),
        ],
    );
    assert_eq!(reply_of(&actions[3]), "No permissions granted.");
}

#[test]
fn the_operator_gets_every_permission() {
    assert_eq!(initialize(None), Operator::Absent);
    assert_eq!(initialize(Some("me")), Operator::Invalid);
    assert_eq!(initialize(Some("12")), Operator::Grant(12, PermissionFlags::all()));
}

#[test]
fn a_failed_grant_ends_the_start() {
    let refused = Err(HandledError::InternalError);
    let granting = initialize(Some("12"));
    assert_eq!(grant_result(granting, Ok(())), Ok(()));
    assert_eq!(grant_result(granting, refused), Err(()));
    assert_eq!(start_result(granting, Ok(()), true), Ok(()));
    assert_eq!(start_result(granting, refused, true), Err(()));
    assert_eq!(start_result(granting, Ok(()), false), Err(()));
    for operator in [initialize(None), initialize(Some("-1"))] {
        assert_eq!(grant_result(operator, refused), Ok(()));
        assert_eq!(start_result(operator, refused, true), Ok(()));
        assert_eq!(start_result(operator, Ok(()), false), Err(()));
    }
    let flags = PermissionFlags::all();
    let failed = Permissions::new().set_flags(12, flags, Err(DbError::RowNotFound));
    assert_eq!(start_result(granting, failed, true), Err(()));
}

#[test]
fn events_are_reacted_to() {
    let bot = UserId::new(1);
    let other = UserId::new(2);
    assert_eq!(event_handler(Event::Ready, bot), Reaction::StartTasks);
    let own_pin = Event::Message { author: bot, announces_pin: true };
    assert_eq!(event_handler(own_pin, bot), Reaction::DeleteMessage);
    let own = Event::Message { author: bot, announces_pin: false };
    assert_eq!(event_handler(own, bot), Reaction::Nothing);
    let pin = Event::Message { author: other, announces_pin: true };
    assert_eq!(event_handler(pin, bot), Reaction::Nothing);
    assert_eq!(event_handler(Event::Other, bot), Reaction::Nothing);
}
