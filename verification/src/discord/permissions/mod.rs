//! Permissions, and the commands that show and change them.

pub mod check;
pub mod data;

pub use check::{check_permissions_command, check_permissions_component};

use vstd::prelude::*;
use vstd::string::*;

use crate::discord::action::{
    action_on, after, closes_with, closes_with_error, Action, Answer, Flow, Run,
};
use crate::discord::error::HandledError;
use crate::discord::ids::{RoleId, UserId};
use crate::discord::permissions::check::{Body, Command};
use crate::discord::permissions::data::{Permission, PermissionFlags, Snowflake};
use crate::discord::texts::{permission_lines, push_permission_lines, Text};
use crate::text::decimal::{decimal, push_u64};

verus! {

/// Who is meant by a command that takes either a user or a role; what to answer, where it was
/// given both or neither.
pub open spec fn id_args(role: Option<RoleId>, user: Option<UserId>) -> Result<
    Snowflake,
    &'static str,
> {
    match (role, user) {
        (Some(_), Some(_)) => Err("You may only specify one of: user, role"),
        (Some(r), None) => Ok(r@),
        (None, Some(u)) => Ok(u@),
        (None, None) => Err("You must specify exactly one of: user, role"),
    }
}

/// Who is meant by a command that takes either a user or a role; what to answer, where it was
/// given both or neither.
pub fn check_id_args(role: Option<RoleId>, user: Option<UserId>) -> (r: Result<
    Snowflake,
    &'static str,
>)
    ensures
        r == id_args(role, user),
{
    match (role, user) {
        (Some(_), Some(_)) => Err("You may only specify one of: user, role"),
        (Some(r), None) => Ok(r.get()),
        (None, Some(u)) => Ok(u.get()),
        (None, None) => Err("You must specify exactly one of: user, role"),
    }
}

/// How far a command has got.
#[derive(Clone, Copy, Debug, PartialEq, Eq, Structural)]
pub enum PermsStage {
    New,
    Working,
    /// The last reply is under way.
    Closing,
    Over,
}

/// A look at the permissions of a user or role.
#[derive(Debug)]
pub struct GetPermissions {
    pub user: Option<UserId>,
    pub role: Option<RoleId>,
    pub stage: PermsStage,
}

impl GetPermissions {
    /// The run at another stage.
    pub open spec fn at(self, stage: PermsStage) -> GetPermissions {
        GetPermissions { stage, ..self }
    }

    fn with(self, stage: PermsStage) -> (r: GetPermissions)
        ensures
            r == self.at(stage),
    {
        GetPermissions { user: self.user, role: self.role, stage }
    }
}

impl Flow for GetPermissions {
    open spec fn next(self, answer: Answer) -> (Self, Action) {
        match (self.stage, answer) {
            (PermsStage::New, Answer::Start) => match id_args(self.role, self.user) {
                Ok(id) => (self.at(PermsStage::Working), Action::GetFlags(id)),
                Err(reason) => (
                    self.at(PermsStage::Closing),
                    Action::Reply(Text::Plain(reason)),
                ),
            },
            (PermsStage::Working, Answer::Flags(Ok(flags))) => (
                self.at(PermsStage::Closing),
                Action::Reply(Text::Granted(flags)),
            ),
            (PermsStage::Working, Answer::Flags(Err(error))) => (
                self.at(PermsStage::Closing),
                Action::Reply(
                    Text::Error { before: "Failed to retrieve flags: ", error, after: "" },
                ),
            ),
            (PermsStage::Closing, Answer::Done) => (self.at(PermsStage::Over), Action::Finish),
            _ => (self.at(PermsStage::Over), Action::Abort(None)),
        }
    }
}

impl Run for GetPermissions {
    fn step(self, answer: Answer) -> (r: (Self, Action)) {
        match (self.stage, answer) {
            (PermsStage::New, Answer::Start) => match check_id_args(self.role, self.user) {
                Ok(id) => (self.with(PermsStage::Working), Action::GetFlags(id)),
                Err(reason) => (
                    self.with(PermsStage::Closing),
                    Action::Reply(Text::Plain(reason)),
                ),
            },
            (PermsStage::Working, Answer::Flags(flags)) => match flags {
                Ok(flags) => (
                    self.with(PermsStage::Closing),
                    Action::Reply(Text::Granted(flags)),
                ),
                Err(error) => (
                    self.with(PermsStage::Closing),
                    Action::Reply(
                        Text::Error { before: "Failed to retrieve flags: ", error, after: "" },
                    ),
                ),
            },
            (PermsStage::Closing, Answer::Done) => (self.with(PermsStage::Over), Action::Finish),
            _ => (self.with(PermsStage::Over), Action::Abort(None)),
        }
    }
}

impl Body for GetPermissions {
    open spec fn needs() -> Permission {
        Permission::PermissionsView
    }

    fn needed() -> (r: Permission) {
        Permission::PermissionsView
    }
}

/// A step of the command that shows the permissions of a user or role.
pub fn perms_get(run: Command<GetPermissions>, answer: Answer) -> (r: (
    Command<GetPermissions>,
    Action,
))
    ensures
        r == run.next(answer),
{
    run.step(answer)
}

/// A permission that is given to a user or role, or taken from it.
#[derive(Debug)]
pub struct ChangePermissions {
    pub user: Option<UserId>,
    pub role: Option<RoleId>,
    pub permission: Permission,
    /// Whether the permission is given; if not, it is taken.
    pub gives: bool,
    pub stage: PermsStage,
}

impl ChangePermissions {
    /// The run at another stage.
    pub open spec fn at(self, stage: PermsStage) -> ChangePermissions {
        ChangePermissions { stage, ..self }
    }

    fn with(self, stage: PermsStage) -> (r: ChangePermissions)
        ensures
            r == self.at(stage),
    {
        ChangePermissions {
            user: self.user,
            role: self.role,
            permission: self.permission,
            gives: self.gives,
            stage,
        }
    }
}

impl Flow for ChangePermissions {
    open spec fn next(self, answer: Answer) -> (Self, Action) {
        match (self.stage, answer) {
            (PermsStage::New, Answer::Start) => match id_args(self.role, self.user) {
                Ok(id) => (
                    self.at(PermsStage::Working),
                    if self.gives {
                        Action::AddFlags(id, self.permission)
                    } else {
                        Action::RemoveFlags(id, self.permission)
                    },
                ),
                Err(reason) => (
                    self.at(PermsStage::Closing),
                    Action::Reply(Text::Plain(reason)),
                ),
            },
            (PermsStage::Working, Answer::Updated(Ok(_))) => (
                self.at(PermsStage::Closing),
                Action::Reply(
                    if self.gives {
                        Text::PermissionAdded(self.permission)
                    } else {
                        Text::PermissionRemoved(self.permission)
                    },
                ),
            ),
            (PermsStage::Working, Answer::Updated(Err(error))) => (
                self.at(PermsStage::Closing),
                Action::Reply(Text::Error { before: "Failed to add flag: ", error, after: "" }),
            ),
            (PermsStage::Closing, Answer::Done) => (self.at(PermsStage::Over), Action::Finish),
            _ => (self.at(PermsStage::Over), Action::Abort(None)),
        }
    }
}

impl Run for ChangePermissions {
    fn step(self, answer: Answer) -> (r: (Self, Action)) {
        let permission = self.permission;
        let gives = self.gives;
        match (self.stage, answer) {
            (PermsStage::New, Answer::Start) => match check_id_args(self.role, self.user) {
                Ok(id) => {
                    let change = if gives {
                        Action::AddFlags(id, permission)
                    } else {
                        Action::RemoveFlags(id, permission)
                    };
                    (self.with(PermsStage::Working), change)
                },
                Err(reason) => (
                    self.with(PermsStage::Closing),
                    Action::Reply(Text::Plain(reason)),
                ),
            },
            (PermsStage::Working, Answer::Updated(updated)) => match updated {
                Ok(_) => {
                    let text = if gives {
                        Text::PermissionAdded(permission)
                    } else {
                        Text::PermissionRemoved(permission)
                    };
                    (self.with(PermsStage::Closing), Action::Reply(text))
                },
                Err(error) => (
                    self.with(PermsStage::Closing),
                    Action::Reply(Text::Error { before: "Failed to add flag: ", error, after: "" }),
                ),
            },
            (PermsStage::Closing, Answer::Done) => (self.with(PermsStage::Over), Action::Finish),
            _ => (self.with(PermsStage::Over), Action::Abort(None)),
        }
    }
}

impl Body for ChangePermissions {
    open spec fn needs() -> Permission {
        Permission::PermissionsEdit
    }

    fn needed() -> (r: Permission) {
        Permission::PermissionsEdit
    }
}

/// A step of the command that gives a permission.
pub fn perms_add(run: Command<ChangePermissions>, answer: Answer) -> (r: (
    Command<ChangePermissions>,
    Action,
))
    ensures
        r == run.next(answer),
{
    run.step(answer)
}

/// A step of the command that takes a permission.
pub fn perms_remove(run: Command<ChangePermissions>, answer: Answer) -> (r: (
    Command<ChangePermissions>,
    Action,
))
    ensures
        r == run.next(answer),
{
    run.step(answer)
}

proof fn lemma_change_args_stay(run: ChangePermissions, answers: Seq<Answer>)
    ensures
        after(run, answers) == run.at(after(run, answers).stage),
    decreases answers.len(),
{
    if answers.len() > 0 {
        lemma_change_args_stay(run, answers.drop_last());
    }
}

/// Permissions change as asked for: what is given or taken is the permission that the command
/// names, and only of the one user or role that it names.
pub proof fn law_changes_are_as_asked(run: ChangePermissions, answers: Seq<Answer>)
    requires
        answers.len() > 0,
    ensures
        match action_on(run, answers) {
            Action::AddFlags(id, permission) => {
                &&& run.gives
                &&& permission == run.permission
                &&& id_args(run.role, run.user) == Ok::<Snowflake, &'static str>(id)
            },
            Action::RemoveFlags(id, permission) => {
                &&& !run.gives
                &&& permission == run.permission
                &&& id_args(run.role, run.user) == Ok::<Snowflake, &'static str>(id)
            },
            _ => true,
        },
{
    lemma_change_args_stay(run, answers.drop_last());
}

/// The permissions that were found, of a user and of roles, one behind the other.
#[derive(Debug)]
pub enum Sections {
    Empty,
    /// The permissions of a role, or of the user where there is no role.
    Behind { before: Box<Sections>, role: Option<RoleId>, flags: PermissionFlags },
}

/// The heading over the permissions of a role, or of the user.
pub open spec fn heading(role: Option<RoleId>) -> Seq<char> {
    match role {
        Some(id) => "### Role <@&"@ + decimal(id@ as nat) + ">\n"@,
        None => "### User\n"@,
    }
}

impl Sections {
    /// The sections with one more behind them; one without permissions is left out.
    pub open spec fn and(self, role: Option<RoleId>, flags: PermissionFlags) -> Sections {
        if flags@ == 0 {
            self
        } else {
            Sections::Behind { before: Box::new(self), role, flags }
        }
    }

    /// The text of the sections.
    pub open spec fn text(self) -> Seq<char>
        decreases self,
    {
        match self {
            Sections::Empty => Seq::empty(),
            Sections::Behind { before, role, flags } => before.text() + heading(role)
                + permission_lines(flags.granted()),
        }
    }

    fn followed_by(self, role: Option<RoleId>, flags: PermissionFlags) -> (r: Sections)
        ensures
            r == self.and(role, flags),
    {
        if flags.is_empty() {
            self
        } else {
            Sections::Behind { before: Box::new(self), role, flags }
        }
    }

    /// Appends the text of the sections.
    pub fn push_text(&self, out: &mut String)
        ensures
            final(out)@ == old(out)@ + self.text(),
        decreases self,
    {
        match self {
            Sections::Empty => {
                assert(out@ =~= old(out)@ + self.text());
            },
            Sections::Behind { before, role, flags } => {
                before.push_text(out);
                match role {
                    Some(id) => {
                        out.append("### Role <@&");
                        push_u64(out, id.get());
                        out.append(">\n");
                    },
                    None => out.append("### User\n"),
                }
                push_permission_lines(out, *flags);
                assert(out@ =~= old(out)@ + self.text());
            },
        }
    }
}

/// A breakdown: the permissions of a user, and of roles.
#[derive(Debug)]
pub struct Breakdown {
    pub user: UserId,
    pub sections: Sections,
    /// The role whose permissions could not be found out, and why; nothing was asked after it.
    pub failure: Option<(RoleId, HandledError)>,
}

impl Breakdown {
    /// What the breakdown says.
    pub open spec fn text(self) -> Seq<char> {
        let head = "## Permissions breakdown for <@"@ + decimal(self.user@ as nat) + ">\n"@;
        match self.failure {
            Some((role, error)) => head + self.sections.text()
                + "Encountered an error while checking permissions of role <@&"@ + decimal(
                role@ as nat,
            ) + ">: "@ + error.text(),
            None => if self.sections is Empty {
                "No permissions granted."@
            } else {
                head + self.sections.text()
            },
        }
    }

    /// What the breakdown says.
    pub fn render(&self) -> (r: String)
        ensures
            r@ == self.text(),
    {
        let mut out = "## Permissions breakdown for <@".to_owned();
        push_u64(&mut out, self.user.get());
        out.append(">\n");
        self.sections.push_text(&mut out);
        match self.failure {
            Some((role, error)) => {
                out.append("Encountered an error while checking permissions of role <@&");
                push_u64(&mut out, role.get());
                out.append(">: ");
                out.append(error.message());
                out
            },
            None => match self.sections {
                Sections::Empty => "No permissions granted.".to_owned(),
                _ => out,
            },
        }
    }
}

/// The gathering of a breakdown. The roles are those of the one who gave the command.
#[derive(Debug)]
pub struct BreakDown {
    pub user: UserId,
    pub stage: BreakStage,
}

/// How far the gathering has got.
#[derive(Debug)]
pub enum BreakStage {
    New,
    User,
    Roles { sections: Sections },
    Role { sections: Sections, roles: Vec<RoleId>, at: usize },
    /// The last reply is under way.
    Closing,
    Over,
}

impl BreakDown {
    /// The run at another stage.
    pub open spec fn to(self, stage: BreakStage) -> BreakDown {
        BreakDown { stage, ..self }
    }

    /// Ends with the breakdown.
    pub open spec fn close(self, sections: Sections, failure: Option<(RoleId, HandledError)>) -> (
        BreakDown,
        Action,
    ) {
        (
            self.to(BreakStage::Closing),
            Action::Reply(Text::Breakdown(Breakdown { user: self.user, sections, failure })),
        )
    }

    /// Goes on with the roles from a place on.
    pub open spec fn ask_role(self, sections: Sections, roles: Vec<RoleId>, at: int) -> (
        BreakDown,
        Action,
    ) {
        if at < roles@.len() {
            (
                self.to(BreakStage::Role { sections, roles, at: at as usize }),
                Action::GetFlags(roles@[at]@),
            )
        } else {
            self.close(sections, None)
        }
    }

    fn closed(self, sections: Sections, failure: Option<(RoleId, HandledError)>) -> (r: (
        BreakDown,
        Action,
    ))
        ensures
            r == self.close(sections, failure),
    {
        let user = self.user;
        (
            BreakDown { user, stage: BreakStage::Closing },
            Action::Reply(Text::Breakdown(Breakdown { user, sections, failure })),
        )
    }

    fn next_role(self, sections: Sections, roles: Vec<RoleId>, at: usize) -> (r: (BreakDown, Action))
        ensures
            r == self.ask_role(sections, roles, at as int),
    {
        if at < roles.len() {
            let role = roles[at];
            (
                BreakDown { user: self.user, stage: BreakStage::Role { sections, roles, at } },
                Action::GetFlags(role.get()),
            )
        } else {
            self.closed(sections, None)
        }
    }
}

impl Flow for BreakDown {
    open spec fn next(self, answer: Answer) -> (Self, Action) {
        match (self.stage, answer) {
            (BreakStage::New, Answer::Start) => (
                self.to(BreakStage::User),
                Action::GetFlags(self.user@),
            ),
            (BreakStage::User, Answer::Flags(flags)) => (
                self.to(
                    BreakStage::Roles {
                        sections: match flags {
                            Ok(x) => Sections::Empty.and(None, x),
                            Err(_) => Sections::Empty,
                        },
                    },
                ),
                Action::AuthorRoles,
            ),
            (BreakStage::Roles { sections }, Answer::Roles(Some(roles))) => self.ask_role(
                sections,
                roles,
                0,
            ),
            (BreakStage::Roles { sections }, Answer::Roles(None)) => self.close(sections, None),
            (
                BreakStage::Role { sections, roles, at },
                Answer::Flags(flags),
            ) => if at >= roles@.len() {
                (self.to(BreakStage::Over), Action::Abort(None))
            } else {
                match flags {
                    Ok(x) => self.ask_role(
                        sections.and(Some(roles@[at as int]), x),
                        roles,
                        at + 1,
                    ),
                    Err(error) => self.close(sections, Some((roles@[at as int], error))),
                }
            },
            (BreakStage::Closing, Answer::Done) => (self.to(BreakStage::Over), Action::Finish),
            _ => (self.to(BreakStage::Over), Action::Abort(None)),
        }
    }
}

impl Run for BreakDown {
    fn step(self, answer: Answer) -> (r: (Self, Action)) {
        let user = self.user;
        let run = BreakDown { user, stage: BreakStage::Over };
        match (self.stage, answer) {
            (BreakStage::New, Answer::Start) => (
                BreakDown { user, stage: BreakStage::User },
                Action::GetFlags(user.get()),
            ),
            (BreakStage::User, Answer::Flags(flags)) => {
                let sections = match flags {
                    Ok(x) => Sections::Empty.followed_by(None, x),
                    Err(_) => Sections::Empty,
                };
                (BreakDown { user, stage: BreakStage::Roles { sections } }, Action::AuthorRoles)
            },
            (BreakStage::Roles { sections }, Answer::Roles(roles)) => match roles {
                Some(roles) => run.next_role(sections, roles, 0),
                None => run.closed(sections, None),
            },
            (BreakStage::Role { sections, roles, at }, Answer::Flags(flags)) => {
                if at >= roles.len() {
                    return (run, Action::Abort(None));
                }
                let role = roles[at];
                match flags {
                    Ok(x) => run.next_role(sections.followed_by(Some(role), x), roles, at + 1),
                    Err(error) => run.closed(sections, Some((role, error))),
                }
            },
            (BreakStage::Closing, Answer::Done) => (run, Action::Finish),
            _ => (run, Action::Abort(None)),
        }
    }
}

impl Body for BreakDown {
    open spec fn needs() -> Permission {
        Permission::PermissionsView
    }

    fn needed() -> (r: Permission) {
        Permission::PermissionsView
    }
}

/// A step of the command that shows where the permissions of a user come from.
pub fn perms_breakdown(run: Command<BreakDown>, answer: Answer) -> (r: (Command<BreakDown>, Action))
    ensures
        r == run.next(answer),
{
    run.step(answer)
}

/// Who is meant by a command is the one user or the one role that it names; that it names both or
/// neither is told.
pub proof fn law_one_user_or_role_is_meant(role: RoleId, user: UserId)
    ensures
        id_args(Some(role), None) == Ok::<Snowflake, &'static str>(role@),
        id_args(None, Some(user)) == Ok::<Snowflake, &'static str>(user@),
        id_args(Some(role), Some(user)) matches Err(words) && words@
            == "You may only specify one of: user, role"@,
        id_args(None, None) matches Err(words) && words@
            == "You must specify exactly one of: user, role"@,
{
}

/// Permissions are shown and changed as asked, and the user is told what came of it.
pub proof fn law_permissions_are_handled_as_asked(
    get: GetPermissions,
    change: ChangePermissions,
    flags: PermissionFlags,
    error: HandledError,
    id: Snowflake,
    reason: &'static str,
)
    requires
        get.stage is New,
        change.stage is New,
    ensures
        ({
            let (g, asking) = get.next(Answer::Start);
            let (c, changing) = change.next(Answer::Start);
            &&& id_args(get.role, get.user) == Err::<Snowflake, &'static str>(reason)
                ==> closes_with((g, asking), Text::Plain(reason))
            &&& id_args(get.role, get.user) == Ok::<Snowflake, &'static str>(id) ==> {
                &&& asking == Action::GetFlags(id)
                &&& closes_with(g.next(Answer::Flags(Ok(flags))), Text::Granted(flags))
                &&& closes_with_error(
                    g.next(Answer::Flags(Err(error))),
                    "Failed to retrieve flags: ",
                    error,
                )
            }
            &&& id_args(change.role, change.user) == Err::<Snowflake, &'static str>(reason)
                ==> closes_with((c, changing), Text::Plain(reason))
            &&& id_args(change.role, change.user) == Ok::<Snowflake, &'static str>(id) ==> {
                &&& change.gives ==> {
                    &&& changing == Action::AddFlags(id, change.permission)
                    &&& closes_with(
                        c.next(Answer::Updated(Ok(()))),
                        Text::PermissionAdded(change.permission),
                    )
                }
                &&& !change.gives ==> {
                    &&& changing == Action::RemoveFlags(id, change.permission)
                    &&& closes_with(
                        c.next(Answer::Updated(Ok(()))),
                        Text::PermissionRemoved(change.permission),
                    )
                }
                &&& closes_with_error(
                    c.next(Answer::Updated(Err(error))),
                    "Failed to add flag: ",
                    error,
                )
            }
        }),
{
}

/// Looking at permissions takes the permission to view them, and changing them that to edit them.
pub proof fn law_permissions_take_a_permission(
    author: UserId,
    get: GetPermissions,
    change: ChangePermissions,
    break_down: BreakDown,
)
    ensures
        (Command::New { author, body: get }).next(Answer::Start).1 == Action::HasFlags(
            author@,
            Permission::PermissionsView,
        ),
        (Command::New { author, body: change }).next(Answer::Start).1 == Action::HasFlags(
            author@,
            Permission::PermissionsEdit,
        ),
        (Command::New { author, body: break_down }).next(Answer::Start).1 == Action::HasFlags(
            author@,
            Permission::PermissionsView,
        ),
{
}

/// What a breakdown says of a role, or of the user: nothing where there are no permissions.
pub open spec fn section_text(role: Option<RoleId>, flags: PermissionFlags) -> Seq<char> {
    if flags@ == 0 {
        Seq::empty()
    } else {
        heading(role) + permission_lines(flags.granted())
    }
}

/// What a breakdown says of the first roles of a list.
pub open spec fn role_sections(
    roles: Seq<RoleId>,
    held: spec_fn(u64) -> PermissionFlags,
    n: int,
) -> Seq<char>
    decreases n,
{
    if n <= 0 {
        Seq::empty()
    } else {
        role_sections(roles, held, n - 1) + section_text(Some(roles[n - 1]), held(roles[n - 1]@))
    }
}

/// What the questions about roles come to within a number of steps, when they get true answers.
pub open spec fn asked_on(
    step: (BreakDown, Action),
    held: spec_fn(u64) -> PermissionFlags,
    steps: nat,
) -> (BreakDown, Action)
    decreases steps,
{
    match step.1 {
        Action::GetFlags(id) => if steps == 0 {
            step
        } else {
            asked_on(step.0.next(Answer::Flags(Ok(held(id)))), held, (steps - 1) as nat)
        },
        _ => step,
    }
}

proof fn lemma_section_added(sections: Sections, role: Option<RoleId>, flags: PermissionFlags)
    ensures
        sections.and(role, flags).text() == sections.text() + section_text(role, flags),
{
    assert(sections.and(role, flags).text() =~= sections.text() + section_text(role, flags));
}

proof fn lemma_roles_asked(
    run: BreakDown,
    sections: Sections,
    roles: Vec<RoleId>,
    at: int,
    held: spec_fn(u64) -> PermissionFlags,
    head: Seq<char>,
    steps: nat,
)
    requires
        0 <= at <= roles@.len(),
        steps >= roles@.len() - at,
        sections.text() == head + role_sections(roles@, held, at),
    ensures
        match asked_on(run.ask_role(sections, roles, at), held, steps).1 {
            Action::Reply(Text::Breakdown(breakdown)) => {
                &&& breakdown.user == run.user
                &&& breakdown.failure is None
                &&& breakdown.sections.text() == head + role_sections(
                    roles@,
                    held,
                    roles@.len() as int,
                )
            },
            _ => false,
        },
    decreases roles@.len() - at,
{
    assert(roles@.len() == roles.len());
    if at < roles@.len() {
        let flags = held(roles@[at]@);
        let more = sections.and(Some(roles@[at]), flags);
        lemma_section_added(sections, Some(roles@[at]), flags);
        assert(more.text() =~= head + role_sections(roles@, held, at + 1));
        let asked = run.to(BreakStage::Role { sections, roles, at: at as usize });
        assert(asked.ask_role(more, roles, at + 1) == run.ask_role(more, roles, at + 1));
        lemma_roles_asked(run, more, roles, at + 1, held, head, (steps - 1) as nat);
    }
}

/// A breakdown is complete and in order: it tells of the user first and then of every role, each with
/// what they hold, and leaves out only those that hold nothing.
pub proof fn law_breakdown_is_complete(
    run: BreakDown,
    roles: Vec<RoleId>,
    held: spec_fn(u64) -> PermissionFlags,
    steps: nat,
)
    requires
        run.stage is New,
        steps >= roles@.len(),
    ensures
        ({
            let (r1, a1) = run.next(Answer::Start);
            let (r2, a2) = r1.next(Answer::Flags(Ok(held(run.user@))));
            &&& a1 == Action::GetFlags(run.user@)
            &&& a2 == Action::AuthorRoles
            &&& match asked_on(r2.next(Answer::Roles(Some(roles))), held, steps).1 {
                Action::Reply(Text::Breakdown(breakdown)) => {
                    &&& breakdown.user == run.user
                    &&& breakdown.failure is None
                    &&& breakdown.sections.text() == section_text(None, held(run.user@))
                        + role_sections(roles@, held, roles@.len() as int)
                },
                _ => false,
            }
        }),
{
    let flags = held(run.user@);
    let head = section_text(None, flags);
    let sections = Sections::Empty.and(None, flags);
    lemma_section_added(Sections::Empty, None, flags);
    assert(sections.text() =~= head + role_sections(roles@, held, 0));
    let r2 = run.next(Answer::Start).0.next(Answer::Flags(Ok(flags))).0;
    lemma_roles_asked(r2, sections, roles, 0, held, head, steps);
}

/// A breakdown names its user at its head and every role at its own; it says so where there is nothing to
/// tell, and which role could not be looked at, and why.
pub proof fn law_breakdown_names_everyone(
    user: UserId,
    sections: Sections,
    role: RoleId,
    error: HandledError,
    flags: PermissionFlags,
)
    ensures
        ({
            let head = "## Permissions breakdown for <@"@ + decimal(user@ as nat) + ">\n"@;
            let whole = Breakdown { user, sections, failure: None };
            let broken = Breakdown { user, sections, failure: Some((role, error)) };
            &&& !(sections is Empty) ==> whole.text() == head + sections.text()
            &&& sections is Empty ==> whole.text() == "No permissions granted."@
            &&& broken.text() == head + sections.text()
                + "Encountered an error while checking permissions of role <@&"@ + decimal(
                role@ as nat,
            ) + ">: "@ + error.text()
            &&& heading(None) == "### User\n"@
            &&& heading(Some(role)) == "### Role <@&"@ + decimal(role@ as nat) + ">\n"@
            &&& flags@ != 0 ==> sections.and(Some(role), flags).text() == sections.text() + heading(
                Some(role),
            ) + permission_lines(flags.granted())
            &&& flags@ == 0 ==> sections.and(Some(role), flags) == sections
        }),
{
}

/// A breakdown stops at the first role that cannot be looked at, and tells of it; that the user could
/// not be looked at is passed over.
pub proof fn law_breakdown_tells_of_failures(
    run: BreakDown,
    role: RoleId,
    roles: Vec<RoleId>,
    error: HandledError,
)
    requires
        run.stage is New,
        roles@ == seq![role],
    ensures
        ({
            let (r1, a1) = run.next(Answer::Start);
            let (r2, a2) = r1.next(Answer::Flags(Err(error)));
            let (r3, a3) = r2.next(Answer::Roles(Some(roles)));
            &&& a1 == Action::GetFlags(run.user@)
            &&& a2 == Action::AuthorRoles
            &&& a3 == Action::GetFlags(role@)
            &&& closes_with(
                r3.next(Answer::Flags(Err(error))),
                Text::Breakdown(
                    Breakdown {
                        user: run.user,
                        sections: Sections::Empty,
                        failure: Some((role, error)),
                    },
                ),
            )
            &&& closes_with(
                r2.next(Answer::Roles(None)),
                Text::Breakdown(
                    Breakdown { user: run.user, sections: Sections::Empty, failure: None },
                ),
            )
        }),
{
}

} // verus!
