//! Who may do what.

use vstd::prelude::*;

use crate::discord::action::{action_on, after, closes_with, Action, Answer, Flow, Run};
use crate::discord::ids::{GuildId, RoleId, UserId};
use crate::discord::permissions::data::Permission;
use crate::discord::texts::Text;

verus! {

/// What someone reads who lacks a permission.
pub const NOT_AUTHORIZED: &'static str = "You are not authorized to use this feature.";

/// The question whether the one who gave a command has a permission: of their own, or through one
/// of their roles.
#[derive(Debug)]
pub struct CommandCheck {
    pub author: UserId,
    pub permission: Permission,
    pub stage: CheckStage,
}

/// How far the question has been answered.
#[derive(Debug)]
pub enum CheckStage {
    New,
    /// Asked about the user.
    User,
    /// Asked for the roles of the user.
    Roles,
    /// Asked about one of the roles.
    Role { roles: Vec<RoleId>, at: usize },
    /// Telling the user that they lack the permission.
    Refusing,
    /// Telling the user that something failed.
    Failing,
    Over,
}

impl CommandCheck {
    /// The check at another stage.
    pub open spec fn at(self, stage: CheckStage) -> CommandCheck {
        CommandCheck { stage, ..self }
    }

    /// Goes on with the roles from a place on; where there are none left, the user lacks the
    /// permission.
    pub open spec fn ask_role(self, roles: Vec<RoleId>, at: int) -> (CommandCheck, Action) {
        if at < roles@.len() {
            (
                self.at(CheckStage::Role { roles, at: at as usize }),
                Action::HasFlags(roles@[at]@, self.permission),
            )
        } else {
            (self.at(CheckStage::Refusing), Action::Reply(Text::Plain(NOT_AUTHORIZED)))
        }
    }

    fn next_role(self, roles: Vec<RoleId>, at: usize) -> (r: (CommandCheck, Action))
        ensures
            r == self.ask_role(roles, at as int),
    {
        if at < roles.len() {
            let role = roles[at];
            (
                CommandCheck { stage: CheckStage::Role { roles, at }, ..self },
                Action::HasFlags(role.get(), self.permission),
            )
        } else {
            (
                CommandCheck { stage: CheckStage::Refusing, ..self },
                Action::Reply(Text::Plain(NOT_AUTHORIZED)),
            )
        }
    }
}

impl Flow for CommandCheck {
    open spec fn next(self, answer: Answer) -> (Self, Action) {
        match (self.stage, answer) {
            (CheckStage::New, Answer::Start) => (
                self.at(CheckStage::User),
                Action::HasFlags(self.author@, self.permission),
            ),
            (CheckStage::User, Answer::Holds(true)) => (
                self.at(CheckStage::Over),
                Action::Allow(true),
            ),
            (CheckStage::User, Answer::Holds(false)) => (
                self.at(CheckStage::Roles),
                Action::AuthorRoles,
            ),
            (CheckStage::Roles, Answer::Roles(Some(roles))) => self.ask_role(roles, 0),
            (CheckStage::Roles, Answer::Roles(None)) => (
                self.at(CheckStage::Refusing),
                Action::Reply(Text::Plain(NOT_AUTHORIZED)),
            ),
            (CheckStage::Role { .. }, Answer::Holds(true)) => (
                self.at(CheckStage::Over),
                Action::Allow(true),
            ),
            (CheckStage::Role { roles, at }, Answer::Holds(false)) => if at < roles@.len() {
                self.ask_role(roles, at + 1)
            } else {
                (self.at(CheckStage::Over), Action::Abort(None))
            },
            (CheckStage::Refusing, Answer::Done) => (
                self.at(CheckStage::Over),
                Action::Allow(false),
            ),
            _ => (self.at(CheckStage::Over), Action::Abort(None)),
        }
    }
}

impl Run for CommandCheck {
    fn step(self, answer: Answer) -> (r: (Self, Action)) {
        let author = self.author;
        let permission = self.permission;
        let over = CommandCheck { author, permission, stage: CheckStage::Over };
        match (self.stage, answer) {
            (CheckStage::New, Answer::Start) => (
                CommandCheck { author, permission, stage: CheckStage::User },
                Action::HasFlags(author.get(), permission),
            ),
            (CheckStage::User, Answer::Holds(held)) => if held {
                (over, Action::Allow(true))
            } else {
                (
                    CommandCheck { author, permission, stage: CheckStage::Roles },
                    Action::AuthorRoles,
                )
            },
            (CheckStage::Roles, Answer::Roles(Some(roles))) => over.next_role(roles, 0),
            (CheckStage::Roles, Answer::Roles(None)) => (
                CommandCheck { author, permission, stage: CheckStage::Refusing },
                Action::Reply(Text::Plain(NOT_AUTHORIZED)),
            ),
            (CheckStage::Role { roles, at }, Answer::Holds(held)) => if held {
                (over, Action::Allow(true))
            } else if at < roles.len() {
                over.next_role(roles, at + 1)
            } else {
                (over, Action::Abort(None))
            },
            (CheckStage::Refusing, Answer::Done) => (over, Action::Allow(false)),
            _ => (over, Action::Abort(None)),
        }
    }
}

/// The question whether the one who pressed a button has a permission: of their own, or through
/// one of their roles in the guild.
#[derive(Debug)]
pub struct ComponentCheck {
    pub user: UserId,
    /// The guild in which the button was pressed, if it was in one.
    pub guild: Option<GuildId>,
    pub permission: Permission,
    pub stage: CheckStage,
}

impl ComponentCheck {
    /// The check at another stage.
    pub open spec fn at(self, stage: CheckStage) -> ComponentCheck {
        ComponentCheck { stage, ..self }
    }

    /// Goes on with the roles from a place on; where there are none left, the user lacks the
    /// permission.
    pub open spec fn ask_role(self, roles: Vec<RoleId>, at: int) -> (ComponentCheck, Action) {
        if at < roles@.len() {
            (
                self.at(CheckStage::Role { roles, at: at as usize }),
                Action::HasFlags(roles@[at]@, self.permission),
            )
        } else {
            (
                self.at(CheckStage::Refusing),
                Action::Respond { text: Text::Plain(NOT_AUTHORIZED), ephemeral: true },
            )
        }
    }

    fn next_role(self, roles: Vec<RoleId>, at: usize) -> (r: (ComponentCheck, Action))
        ensures
            r == self.ask_role(roles, at as int),
    {
        if at < roles.len() {
            let role = roles[at];
            (
                ComponentCheck { stage: CheckStage::Role { roles, at }, ..self },
                Action::HasFlags(role.get(), self.permission),
            )
        } else {
            (
                ComponentCheck { stage: CheckStage::Refusing, ..self },
                Action::Respond { text: Text::Plain(NOT_AUTHORIZED), ephemeral: true },
            )
        }
    }
}

impl Flow for ComponentCheck {
    open spec fn next(self, answer: Answer) -> (Self, Action) {
        match (self.stage, answer) {
            (CheckStage::New, Answer::Start) => (
                self.at(CheckStage::User),
                Action::HasFlags(self.user@, self.permission),
            ),
            (CheckStage::User, Answer::Holds(true)) => (
                self.at(CheckStage::Over),
                Action::Allow(true),
            ),
            (CheckStage::User, Answer::Holds(false)) => match self.guild {
                Some(guild) => (
                    self.at(CheckStage::Roles),
                    Action::MemberRoles(guild, self.user),
                ),
                None => (self.at(CheckStage::Over), Action::Allow(false)),
            },
            (CheckStage::Roles, Answer::Roles(Some(roles))) => self.ask_role(roles, 0),
            (CheckStage::Roles, Answer::Roles(None)) => (
                self.at(CheckStage::Failing),
                Action::Respond {
                    text: Text::Plain("An internal error occurred."),
                    ephemeral: true,
                },
            ),
            (CheckStage::Role { .. }, Answer::Holds(true)) => (
                self.at(CheckStage::Over),
                Action::Allow(true),
            ),
            (CheckStage::Role { roles, at }, Answer::Holds(false)) => if at < roles@.len() {
                self.ask_role(roles, at + 1)
            } else {
                (self.at(CheckStage::Over), Action::Abort(None))
            },
            (CheckStage::Refusing, Answer::Done) => (
                self.at(CheckStage::Over),
                Action::Allow(false),
            ),
            _ => (self.at(CheckStage::Over), Action::Abort(None)),
        }
    }
}

impl Run for ComponentCheck {
    fn step(self, answer: Answer) -> (r: (Self, Action)) {
        let user = self.user;
        let guild = self.guild;
        let permission = self.permission;
        let over = ComponentCheck { user, guild, permission, stage: CheckStage::Over };
        match (self.stage, answer) {
            (CheckStage::New, Answer::Start) => (
                ComponentCheck { stage: CheckStage::User, ..over },
                Action::HasFlags(user.get(), permission),
            ),
            (CheckStage::User, Answer::Holds(held)) => if held {
                (over, Action::Allow(true))
            } else {
                match guild {
                    Some(id) => (
                        ComponentCheck { stage: CheckStage::Roles, ..over },
                        Action::MemberRoles(id, user),
                    ),
                    None => (over, Action::Allow(false)),
                }
            },
            (CheckStage::Roles, Answer::Roles(Some(roles))) => over.next_role(roles, 0),
            (CheckStage::Roles, Answer::Roles(None)) => (
                ComponentCheck { stage: CheckStage::Failing, ..over },
                Action::Respond {
                    text: Text::Plain("An internal error occurred."),
                    ephemeral: true,
                },
            ),
            (CheckStage::Role { roles, at }, Answer::Holds(held)) => if held {
                (over, Action::Allow(true))
            } else if at < roles.len() {
                over.next_role(roles, at + 1)
            } else {
                (over, Action::Abort(None))
            },
            (CheckStage::Refusing, Answer::Done) => (over, Action::Allow(false)),
            _ => (over, Action::Abort(None)),
        }
    }
}

/// A step of the question whether the one who gave a command has a permission. It ends with
/// `Action::Allow`, or with the error that kept the bot from asking or from telling.
pub fn check_permissions_command(check: CommandCheck, answer: Answer) -> (r: (CommandCheck, Action))
    ensures
        r == check.next(answer),
{
    check.step(answer)
}

/// A step of the question whether the one who pressed a button has a permission. It ends with
/// `Action::Allow`, or with the error that kept the bot from asking or from telling.
pub fn check_permissions_component(check: ComponentCheck, answer: Answer) -> (r: (
    ComponentCheck,
    Action,
))
    ensures
        r == check.next(answer),
{
    check.step(answer)
}

/// The true answer to an action of a check, given who holds the permission and which roles the
/// user has. Whatever is to be said can be said.
pub open spec fn true_answer(
    action: Action,
    holds: spec_fn(u64) -> bool,
    roles: Option<Vec<RoleId>>,
) -> Answer {
    match action {
        Action::HasFlags(id, _) => Answer::Holds(holds(id)),
        Action::AuthorRoles => Answer::Roles(roles),
        Action::MemberRoles(_, _) => Answer::Roles(roles),
        _ => Answer::Done,
    }
}

/// What a run comes to within a number of steps, when it gets true answers.
pub open spec fn settled<F: Flow>(
    run: F,
    action: Action,
    holds: spec_fn(u64) -> bool,
    roles: Option<Vec<RoleId>>,
    steps: nat,
) -> Action
    decreases steps,
{
    if steps == 0 || action.ends() {
        action
    } else {
        let (later, next) = run.next(true_answer(action, holds, roles));
        settled(later, next, holds, roles, (steps - 1) as nat)
    }
}

/// Whether a user has the permission, of their own or through one of their roles.
pub open spec fn entitled(
    user: UserId,
    holds: spec_fn(u64) -> bool,
    roles: Option<Vec<RoleId>>,
) -> bool {
    holds(user@) || (roles is Some && exists|i: int|
        0 <= i < roles->0@.len() && holds(#[trigger] roles->0@[i]@))
}

proof fn lemma_command_roles(
    check: CommandCheck,
    holds: spec_fn(u64) -> bool,
    roles: Vec<RoleId>,
    at: int,
    steps: nat,
)
    requires
        0 <= at <= roles@.len(),
        steps >= roles@.len() - at + 2,
    ensures
        ({
            let (run, action) = check.ask_role(roles, at);
            settled(run, action, holds, Some(roles), steps) == Action::Allow(
                exists|i: int| at <= i < roles@.len() && holds(#[trigger] roles@[i]@),
            )
        }),
    decreases roles@.len() - at,
{
    let (run, action) = check.ask_role(roles, at);
    let all = exists|i: int| at <= i < roles@.len() && holds(#[trigger] roles@[i]@);
    assert(roles@.len() == roles.len());
    if at < roles@.len() {
        let (later, next) = run.next(true_answer(action, holds, Some(roles)));
        if holds(roles@[at]@) {
            assert(all);
            assert(settled(later, next, holds, Some(roles), (steps - 1) as nat) == next);
        } else {
            lemma_command_roles(run, holds, roles, at + 1, (steps - 1) as nat);
            let rest = exists|i: int| at + 1 <= i < roles@.len() && holds(#[trigger] roles@[i]@);
            if all {
                let i = choose|i: int| at <= i < roles@.len() && holds(#[trigger] roles@[i]@);
                assert(at + 1 <= i);
            }
            assert(rest == all);
        }
    } else {
        let (later, next) = run.next(Answer::Done);
        assert(settled(later, next, holds, Some(roles), (steps - 1) as nat) == next);
    }
}

proof fn lemma_component_roles(
    check: ComponentCheck,
    holds: spec_fn(u64) -> bool,
    roles: Vec<RoleId>,
    at: int,
    steps: nat,
)
    requires
        0 <= at <= roles@.len(),
        steps >= roles@.len() - at + 2,
    ensures
        ({
            let (run, action) = check.ask_role(roles, at);
            settled(run, action, holds, Some(roles), steps) == Action::Allow(
                exists|i: int| at <= i < roles@.len() && holds(#[trigger] roles@[i]@),
            )
        }),
    decreases roles@.len() - at,
{
    let (run, action) = check.ask_role(roles, at);
    let all = exists|i: int| at <= i < roles@.len() && holds(#[trigger] roles@[i]@);
    assert(roles@.len() == roles.len());
    if at < roles@.len() {
        let (later, next) = run.next(true_answer(action, holds, Some(roles)));
        if holds(roles@[at]@) {
            assert(all);
            assert(settled(later, next, holds, Some(roles), (steps - 1) as nat) == next);
        } else {
            lemma_component_roles(run, holds, roles, at + 1, (steps - 1) as nat);
            let rest = exists|i: int| at + 1 <= i < roles@.len() && holds(#[trigger] roles@[i]@);
            if all {
                let i = choose|i: int| at <= i < roles@.len() && holds(#[trigger] roles@[i]@);
                assert(at + 1 <= i);
            }
            assert(rest == all);
        }
    } else {
        let (later, next) = run.next(Answer::Done);
        assert(settled(later, next, holds, Some(roles), (steps - 1) as nat) == next);
    }
}

/// The one who gave a command is allowed exactly if they have the permission, of their own or
/// through one of their roles.
pub proof fn law_command_allowed_iff_entitled(
    check: CommandCheck,
    holds: spec_fn(u64) -> bool,
    roles: Option<Vec<RoleId>>,
    steps: nat,
)
    requires
        check.stage is New,
        steps >= 4 + (match roles {
            Some(x) => x@.len(),
            None => 0,
        }),
    ensures
        ({
            let (run, action) = check.next(Answer::Start);
            settled(run, action, holds, roles, steps)
        }) == Action::Allow(entitled(check.author, holds, roles)),
{
    let (run, action) = check.next(Answer::Start);
    let (second, asked) = run.next(Answer::Holds(holds(check.author@)));
    assert(settled(run, action, holds, roles, steps) == settled(
        second,
        asked,
        holds,
        roles,
        (steps - 1) as nat,
    ));
    if !holds(check.author@) {
        let (third, then_asked) = second.next(Answer::Roles(roles));
        assert(settled(second, asked, holds, roles, (steps - 1) as nat) == settled(
            third,
            then_asked,
            holds,
            roles,
            (steps - 2) as nat,
        ));
        match roles {
            Some(x) => {
                lemma_command_roles(second, holds, x, 0, (steps - 2) as nat);
            },
            None => {
                let (fourth, last) = third.next(Answer::Done);
                assert(settled(third, then_asked, holds, roles, (steps - 2) as nat) == settled(
                    fourth,
                    last,
                    holds,
                    roles,
                    (steps - 3) as nat,
                ));
            },
        }
    }
}

/// The one who pressed a button in a guild is allowed exactly if they have the permission, of
/// their own or through one of their roles.
pub proof fn law_component_allowed_iff_entitled(
    check: ComponentCheck,
    holds: spec_fn(u64) -> bool,
    roles: Vec<RoleId>,
    steps: nat,
)
    requires
        check.stage is New,
        check.guild is Some,
        steps >= 4 + roles@.len(),
    ensures
        ({
            let (run, action) = check.next(Answer::Start);
            settled(run, action, holds, Some(roles), steps)
        }) == Action::Allow(entitled(check.user, holds, Some(roles))),
{
    let all = Some(roles);
    let (run, action) = check.next(Answer::Start);
    let (second, asked) = run.next(Answer::Holds(holds(check.user@)));
    assert(settled(run, action, holds, all, steps) == settled(
        second,
        asked,
        holds,
        all,
        (steps - 1) as nat,
    ));
    if !holds(check.user@) {
        let (third, then_asked) = second.next(Answer::Roles(all));
        assert(settled(second, asked, holds, all, (steps - 1) as nat) == settled(
            third,
            then_asked,
            holds,
            all,
            (steps - 2) as nat,
        ));
        lemma_component_roles(second, holds, roles, 0, (steps - 2) as nat);
    }
}

/// What a command does once it is allowed.
pub trait Body: Run {
    /// The permission that the command takes.
    spec fn needs() -> Permission;

    /// The permission that the command takes.
    fn needed() -> (r: Permission)
        ensures
            r == Self::needs(),
    ;
}

/// A command: whoever gives it has to have its permission.
pub enum Command<B> {
    New { author: UserId, body: B },
    Checking { check: CommandCheck, body: B },
    Allowed { body: B },
    Over,
}

impl<B: Body> Flow for Command<B> {
    open spec fn next(self, answer: Answer) -> (Self, Action) {
        match self {
            Command::New { author, body } => {
                let check = CommandCheck { author, permission: B::needs(), stage: CheckStage::New };
                let (later, action) = check.next(answer);
                (Command::Checking { check: later, body }, action)
            },
            Command::Checking { check, body } => {
                let (later, action) = check.next(answer);
                match action {
                    Action::Allow(true) => {
                        let (begun, first) = body.next(Answer::Start);
                        (Command::Allowed { body: begun }, first)
                    },
                    Action::Allow(false) => (Command::Over, Action::Finish),
                    _ => (Command::Checking { check: later, body }, action),
                }
            },
            Command::Allowed { body } => {
                let (later, action) = body.next(answer);
                (Command::Allowed { body: later }, action)
            },
            Command::Over => (Command::Over, Action::Finish),
        }
    }
}

impl<B: Body> Run for Command<B> {
    fn step(self, answer: Answer) -> (r: (Self, Action)) {
        match self {
            Command::New { author, body } => {
                let check = CommandCheck {
                    author,
                    permission: B::needed(),
                    stage: CheckStage::New,
                };
                let (later, action) = check.step(answer);
                (Command::Checking { check: later, body }, action)
            },
            Command::Checking { check, body } => {
                let (later, action) = check.step(answer);
                match action {
                    Action::Allow(true) => {
                        let (begun, first) = body.step(Answer::Start);
                        (Command::Allowed { body: begun }, first)
                    },
                    Action::Allow(false) => (Command::Over, Action::Finish),
                    other => (Command::Checking { check: later, body }, other),
                }
            },
            Command::Allowed { body } => {
                let (later, action) = body.step(answer);
                (Command::Allowed { body: later }, action)
            },
            Command::Over => (Command::Over, Action::Finish),
        }
    }
}

/// Whether an action does no more than find out about the permission, tell that it is lacking, or
/// end the command.
pub open spec fn is_harmless(action: Action, permission: Permission) -> bool {
    match action {
        Action::HasFlags(_, p) => p == permission,
        Action::AuthorRoles => true,
        Action::Reply(text) => text == Text::Plain(NOT_AUTHORIZED),
        Action::Finish => true,
        Action::Abort(None) => true,
        _ => false,
    }
}

proof fn lemma_still_outside<B: Body>(author: UserId, body: B, answers: Seq<Answer>)
    requires
        forall|i: int| 0 <= i < answers.len() ==> #[trigger] answers[i] != Answer::Holds(true),
    ensures
        ({
            let run = after(Command::New { author, body }, answers);
            &&& run is New ==> answers.len() == 0
            &&& !(run is Allowed)
            &&& run matches Command::Checking { check, .. } ==> check.permission == B::needs()
            &&& run matches Command::New { body: b, .. } ==> b == body
        }),
        answers.len() > 0 ==> is_harmless(
            action_on(Command::New { author, body }, answers),
            B::needs(),
        ),
    decreases answers.len(),
{
    if answers.len() > 0 {
        assert(answers.last() == answers[answers.len() - 1]);
        let before = answers.drop_last();
        assert forall|i: int| 0 <= i < before.len() implies #[trigger] before[i] != Answer::Holds(
            true,
        ) by {
            assert(before[i] == answers[i]);
        }
        lemma_still_outside(author, body, before);
    }
}

/// Whoever is not found to have the permission gets nothing done: as long as no answer says that
/// they, or one of their roles, have it, a command only asks for it, tells that it is lacking, or
/// ends.
pub proof fn law_nothing_without_permission<B: Body>(author: UserId, body: B, answers: Seq<Answer>)
    requires
        answers.len() > 0,
        forall|i: int| 0 <= i < answers.len() ==> #[trigger] answers[i] != Answer::Holds(true),
    ensures
        is_harmless(action_on(Command::New { author, body }, answers), B::needs()),
{
    lemma_still_outside(author, body, answers);
}

/// A command begins with the question whether its author has its permission. Once that is so, the
/// command itself begins, and goes on with every answer from there.
pub proof fn law_commands_begin_once_allowed<B: Body>(author: UserId, body: B, answer: Answer)
    ensures
        ({
            let (r1, a1) = (Command::New { author, body }).next(Answer::Start);
            let (r2, a2) = r1.next(Answer::Holds(true));
            let (begun, first) = body.next(Answer::Start);
            &&& a1 == Action::HasFlags(author@, B::needs())
            &&& a2 == first
            &&& r2.next(answer).1 == begun.next(answer).1
            &&& r2.next(answer).0 == (Command::Allowed { body: begun.next(answer).0 })
        }),
{
}

/// Whoever lacks a permission, and has no roles that are known, is told so; the command then ends.
pub proof fn law_refusal_is_told<B: Body>(author: UserId, body: B, role: RoleId, roles: Vec<RoleId>)
    requires
        roles@ == seq![role],
    ensures
        ({
            let words = Text::Plain("You are not authorized to use this feature.");
            let (r1, a1) = (Command::New { author, body }).next(Answer::Start);
            let (r2, a2) = r1.next(Answer::Holds(false));
            let (r3, a3) = r2.next(Answer::Roles(Some(roles)));
            &&& a2 == Action::AuthorRoles
            &&& closes_with(r2.next(Answer::Roles(None)), words)
            &&& a3 == Action::HasFlags(role@, B::needs())
            &&& closes_with(r3.next(Answer::Holds(false)), words)
            &&& r3.next(Answer::Holds(true)).1 == body.next(Answer::Start).1
        }),
{
}

/// Whoever presses a button without its permission is told so, for their eyes only; outside of a
/// guild they are not allowed at all.
pub proof fn law_press_is_refused(check: ComponentCheck, role: RoleId, roles: Vec<RoleId>)
    requires
        check.stage is New,
        roles@ == seq![role],
    ensures
        ({
            let (r1, a1) = check.next(Answer::Start);
            let (r2, a2) = r1.next(Answer::Holds(false));
            let (r3, a3) = r2.next(Answer::Roles(Some(roles)));
            let (r4, a4) = r3.next(Answer::Holds(false));
            &&& a1 == Action::HasFlags(check.user@, check.permission)
            &&& r1.next(Answer::Holds(true)).1 == Action::Allow(true)
            &&& check.guild is None ==> a2 == Action::Allow(false)
            &&& check.guild is Some ==> {
                &&& a2 == Action::MemberRoles(check.guild->0, check.user)
                &&& a3 == Action::HasFlags(role@, check.permission)
                &&& r3.next(Answer::Holds(true)).1 == Action::Allow(true)
                &&& a4 == (Action::Respond {
                    text: Text::Plain("You are not authorized to use this feature."),
                    ephemeral: true,
                })
                &&& r4.next(Answer::Done).1 == Action::Allow(false)
                &&& r2.next(Answer::Roles(None)).1 == (Action::Respond {
                    text: Text::Plain("An internal error occurred."),
                    ephemeral: true,
                })
                &&& !(r2.next(Answer::Roles(None)).0.next(Answer::Done).1 is Allow)
            }
        }),
{
}

} // verus!
