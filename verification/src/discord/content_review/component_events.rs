//! Presses on the buttons of the content review.

use vstd::prelude::*;
use vstd::string::*;

use crate::discord::action::{action_on, Action, Answer, Flow, Run, Task};
use crate::discord::content_review::consts::{
    component_id, BUTTON_ID_ACTION_MUTE_REMINDERS, BUTTON_ID_ACTION_NOT_NEEDED,
    BUTTON_ID_ACTION_START_PRIVATE, BUTTON_ID_ACTION_START_PUBLIC, BUTTON_ID_ACTION_VIEW_ISSUES,
    INTERACTION_ID_PREFIX,
};
use crate::discord::ids::{GuildId, RoleId, UserId};
use crate::discord::permissions::check::{CheckStage, ComponentCheck};
use crate::discord::permissions::data::Permission;
use crate::discord::texts::Text;
use crate::text::chars::{
    has_prefix, law_split_joined, law_split_whole, same_text, split, split_on, starts_with, views,
};
use crate::text::decimal::{decimal, is_digit, law_decimal_reads_back, law_u64_round_trip, parse_u64, u64_from};

verus! {

/// Whether an identifier belongs to the content review.
pub open spec fn is_ours(custom_id: Seq<char>) -> bool {
    has_prefix(custom_id, INTERACTION_ID_PREFIX@ + "_"@)
}

/// Whether an identifier belongs to the content review.
pub fn accepts(custom_id: &str) -> (r: bool)
    ensures
        r == is_ours(custom_id@),
{
    let mut prefix = INTERACTION_ID_PREFIX.to_owned();
    prefix.append("_");
    starts_with(custom_id, prefix.as_str())
}

/// The action and the pull request that the identifier of a button stands for: the second and the
/// third of three parts.
pub open spec fn button_parts(custom_id: Seq<char>) -> Option<(Seq<char>, u64)> {
    let parts = split_on(custom_id, '_');
    if parts.len() != 3 {
        None
    } else {
        match u64_from(parts[2]) {
            Some(pr_id) => Some((parts[1], pr_id)),
            None => None,
        }
    }
}

fn read_button(custom_id: &str) -> (r: Option<(String, u64)>)
    ensures
        match r {
            Some((action, pr_id)) => button_parts(custom_id@) == Some((action@, pr_id)),
            None => button_parts(custom_id@) is None,
        },
{
    let mut parts = split(custom_id, '_');
    assert(views(parts@).len() == parts@.len());
    if parts.len() != 3 {
        return None;
    }
    assert(views(parts@)[2] == parts@[2]@);
    assert(views(parts@)[1] == parts@[1]@);
    match parse_u64(parts[2].as_str()) {
        Some(pr_id) => {
            let action = parts[1].clone();
            Some((action, pr_id))
        },
        None => None,
    }
}

/// What follows a press on the button with a given action, if there is such a button.
pub open spec fn task_of(action: Seq<char>, pr_id: u64) -> Option<Task> {
    if action == BUTTON_ID_ACTION_START_PUBLIC@ {
        Some(Task::StartReview { pr_id, private: false })
    } else if action == BUTTON_ID_ACTION_START_PRIVATE@ {
        Some(Task::StartReview { pr_id, private: true })
    } else if action == BUTTON_ID_ACTION_NOT_NEEDED@ {
        Some(Task::NoReviewNeeded { pr_id })
    } else if action == BUTTON_ID_ACTION_MUTE_REMINDERS@ {
        Some(Task::MuteReminders { pr_id })
    } else if action == BUTTON_ID_ACTION_VIEW_ISSUES@ {
        Some(Task::ViewIssues { pr_id })
    } else {
        None
    }
}

fn to_task(action: &str, pr_id: u64) -> (r: Option<Task>)
    ensures
        r == task_of(action@, pr_id),
{
    if same_text(action, BUTTON_ID_ACTION_START_PUBLIC) {
        Some(Task::StartReview { pr_id, private: false })
    } else if same_text(action, BUTTON_ID_ACTION_START_PRIVATE) {
        Some(Task::StartReview { pr_id, private: true })
    } else if same_text(action, BUTTON_ID_ACTION_NOT_NEEDED) {
        Some(Task::NoReviewNeeded { pr_id })
    } else if same_text(action, BUTTON_ID_ACTION_MUTE_REMINDERS) {
        Some(Task::MuteReminders { pr_id })
    } else if same_text(action, BUTTON_ID_ACTION_VIEW_ISSUES) {
        Some(Task::ViewIssues { pr_id })
    } else {
        None
    }
}

/// What follows a press on the button with a given identifier, if there is such a button.
pub open spec fn pressed(custom_id: Seq<char>) -> Option<Task> {
    match button_parts(custom_id) {
        Some((action, pr_id)) => task_of(action, pr_id),
        None => None,
    }
}

/// The use of a button or menu.
#[derive(Debug)]
pub struct ComponentRun {
    pub custom_id: String,
    /// Whether it is a button.
    pub is_button: bool,
    /// Who used it.
    pub user: UserId,
    /// The guild in which it was used, if it was in one.
    pub guild: Option<GuildId>,
    pub stage: ComponentStage,
}

/// How far that has got.
#[derive(Debug)]
pub enum ComponentStage {
    New,
    Checking { check: ComponentCheck, task: Option<Task> },
    /// The last action is under way; whether it succeeds makes no difference.
    Closing,
    Over,
}

impl ComponentRun {
    /// The run at another stage.
    pub open spec fn at(self, stage: ComponentStage) -> ComponentRun {
        ComponentRun { stage, ..self }
    }

    /// Does a step of the question whether the user may use the button, and lets the task take
    /// over once they are allowed.
    pub open spec fn proceed(
        self,
        check: ComponentCheck,
        task: Option<Task>,
        answer: Answer,
    ) -> (ComponentRun, Action) {
        let (later, action) = check.next(answer);
        match action {
            Action::Allow(true) => (
                self.at(ComponentStage::Over),
                match task {
                    Some(t) => Action::Spawn(t),
                    None => Action::Finish,
                },
            ),
            Action::Allow(false) => (self.at(ComponentStage::Over), Action::Finish),
            Action::Abort(_) => (self.at(ComponentStage::Over), Action::Finish),
            _ => (self.at(ComponentStage::Checking { check: later, task }), action),
        }
    }

    fn with(self, stage: ComponentStage) -> (r: ComponentRun)
        ensures
            r == self.at(stage),
    {
        ComponentRun {
            custom_id: self.custom_id,
            is_button: self.is_button,
            user: self.user,
            guild: self.guild,
            stage,
        }
    }

    fn proceeded(self, check: ComponentCheck, task: Option<Task>, answer: Answer) -> (r: (
        ComponentRun,
        Action,
    ))
        ensures
            r == self.proceed(check, task, answer),
    {
        let (later, action) = check.step(answer);
        match action {
            Action::Allow(true) => {
                let last = match task {
                    Some(t) => Action::Spawn(t),
                    None => Action::Finish,
                };
                (self.with(ComponentStage::Over), last)
            },
            Action::Allow(false) => (self.with(ComponentStage::Over), Action::Finish),
            Action::Abort(_) => (self.with(ComponentStage::Over), Action::Finish),
            other => (self.with(ComponentStage::Checking { check: later, task }), other),
        }
    }
}

impl Flow for ComponentRun {
    open spec fn next(self, answer: Answer) -> (Self, Action) {
        match (self.stage, answer) {
            (ComponentStage::New, Answer::Start) => if !self.is_button {
                (self.at(ComponentStage::Over), Action::Finish)
            } else {
                match button_parts(self.custom_id@) {
                    Some((action, pr_id)) => self.proceed(
                        ComponentCheck {
                            user: self.user,
                            guild: self.guild,
                            permission: Permission::ContentReviewer,
                            stage: CheckStage::New,
                        },
                        task_of(action, pr_id),
                        answer,
                    ),
                    None => (
                        self.at(ComponentStage::Closing),
                        Action::Respond {
                            text: Text::Plain("An internal error occurred."),
                            ephemeral: false,
                        },
                    ),
                }
            },
            (ComponentStage::Checking { check, task }, _) => self.proceed(check, task, answer),
            _ => (self.at(ComponentStage::Over), Action::Finish),
        }
    }
}

impl Run for ComponentRun {
    fn step(self, answer: Answer) -> (r: (Self, Action)) {
        let run = ComponentRun {
            custom_id: self.custom_id,
            is_button: self.is_button,
            user: self.user,
            guild: self.guild,
            stage: ComponentStage::Over,
        };
        match (self.stage, answer) {
            (ComponentStage::New, Answer::Start) => {
                if !run.is_button {
                    return (run, Action::Finish);
                }
                match read_button(run.custom_id.as_str()) {
                    Some((action, pr_id)) => {
                        let check = ComponentCheck {
                            user: run.user,
                            guild: run.guild,
                            permission: Permission::ContentReviewer,
                            stage: CheckStage::New,
                        };
                        let task = to_task(action.as_str(), pr_id);
                        run.proceeded(check, task, Answer::Start)
                    },
                    None => (
                        run.with(ComponentStage::Closing),
                        Action::Respond {
                            text: Text::Plain("An internal error occurred."),
                            ephemeral: false,
                        },
                    ),
                }
            },
            (ComponentStage::Checking { check, task }, answer) => run.proceeded(
                check,
                task,
                answer,
            ),
            _ => (run, Action::Finish),
        }
    }
}

/// A step of dealing with the use of a button or menu.
pub fn cr_component_task(run: ComponentRun, answer: Answer) -> (r: (ComponentRun, Action))
    ensures
        r == run.next(answer),
{
    run.step(answer)
}

proof fn lemma_digits_hold_no_separator(n: nat)
    ensures
        !decimal(n).contains('_'),
{
    law_decimal_reads_back(n);
    if decimal(n).contains('_') {
        let k = choose|k: int| 0 <= k < decimal(n).len() && decimal(n)[k] == '_';
        assert(is_digit(decimal(n)[k]));
    }
}

/// The identifier that a button is given is read back as its action and its pull request.
pub proof fn law_button_reads_back(action: Seq<char>, pr_id: u64)
    requires
        !action.contains('_'),
    ensures
        is_ours(component_id(action, pr_id)),
        button_parts(component_id(action, pr_id)) == Some((action, pr_id)),
{
    reveal_strlit("cr");
    reveal_strlit("_");
    let prefix = INTERACTION_ID_PREFIX@;
    let number = decimal(pr_id as nat);
    let whole = component_id(action, pr_id);
    let tail = action.push('_') + number;
    assert(!prefix.contains('_'));
    assert(whole =~= prefix.push('_') + tail);
    law_split_joined(prefix, '_', tail);
    law_split_joined(action, '_', number);
    lemma_digits_hold_no_separator(pr_id as nat);
    law_split_whole(number, '_');
    assert(split_on(whole, '_') =~= seq![prefix, action, number]);
    law_u64_round_trip(pr_id);
    assert(whole.take((prefix + "_"@).len() as int) =~= prefix + "_"@);
}

/// Every button that the bot offers leads to the task that it is offered for, and for the pull
/// request that it is offered with.
pub proof fn law_buttons_lead_to_their_tasks(pr_id: u64)
    ensures
        pressed(component_id(BUTTON_ID_ACTION_START_PUBLIC@, pr_id)) == Some(Task::StartReview { pr_id, private: false }),
        pressed(component_id(BUTTON_ID_ACTION_START_PRIVATE@, pr_id)) == Some(Task::StartReview { pr_id, private: true }),
        pressed(component_id(BUTTON_ID_ACTION_NOT_NEEDED@, pr_id)) == Some(Task::NoReviewNeeded { pr_id }),
        pressed(component_id(BUTTON_ID_ACTION_MUTE_REMINDERS@, pr_id)) == Some(Task::MuteReminders { pr_id }),
        pressed(component_id(BUTTON_ID_ACTION_VIEW_ISSUES@, pr_id)) == Some(Task::ViewIssues { pr_id }),
{
    reveal_strlit("startPublic");
    reveal_strlit("startPrivate");
    reveal_strlit("notNeeded");
    reveal_strlit("muteReminders");
    reveal_strlit("viewIssues");
    assert(BUTTON_ID_ACTION_START_PUBLIC@.len() == 11);
    assert(BUTTON_ID_ACTION_START_PRIVATE@.len() == 12);
    assert(BUTTON_ID_ACTION_NOT_NEEDED@.len() == 9);
    assert(BUTTON_ID_ACTION_MUTE_REMINDERS@.len() == 13);
    assert(BUTTON_ID_ACTION_VIEW_ISSUES@.len() == 10);
    law_button_reads_back(BUTTON_ID_ACTION_START_PUBLIC@, pr_id);
    law_button_reads_back(BUTTON_ID_ACTION_START_PRIVATE@, pr_id);
    law_button_reads_back(BUTTON_ID_ACTION_NOT_NEEDED@, pr_id);
    law_button_reads_back(BUTTON_ID_ACTION_MUTE_REMINDERS@, pr_id);
    law_button_reads_back(BUTTON_ID_ACTION_VIEW_ISSUES@, pr_id);
}

proof fn lemma_no_task_yet(run: ComponentRun, answers: Seq<Answer>)
    requires
        run.stage is New,
        forall|i: int| 0 <= i < answers.len() ==> #[trigger] answers[i] != Answer::Holds(true),
    ensures
        answers.len() > 0 ==> !(action_on(run, answers) is Spawn),
    decreases answers.len(),
{
    if answers.len() > 0 {
        assert(answers.last() == answers[answers.len() - 1]);
        let before = answers.drop_last();
        assert forall|i: int| 0 <= i < before.len() implies #[trigger] before[i] != Answer::Holds(
            true,
        ) by {
            assert(before[i] == answers[i]);
        }
        lemma_no_task_yet(run, before);
    }
}

/// Whoever is not found to be entitled starts no task: as long as no answer says that they, or
/// one of their roles, have the permission, a press on a button leads to none.
pub proof fn law_no_task_without_permission(run: ComponentRun, answers: Seq<Answer>)
    requires
        run.stage is New,
        answers.len() > 0,
        forall|i: int| 0 <= i < answers.len() ==> #[trigger] answers[i] != Answer::Holds(true),
    ensures
        !(action_on(run, answers) is Spawn),
{
    lemma_no_task_yet(run, answers);
}

/// A press on a button of the content review starts its task for its pull request, once the user is
/// found to have the permission for it: one button starts a public review and another a private one,
/// one declares a review unnecessary, one stops reminders, and one shows the issues.
pub proof fn law_presses_start_their_tasks(run: ComponentRun, pr_id: u64)
    requires
        run.stage is New,
        run.is_button,
    ensures
        ({
            let (r1, a1) = run.next(Answer::Start);
            let (r2, a2) = r1.next(Answer::Holds(true));
            let number = decimal(pr_id as nat);
            &&& run.custom_id@ == "cr_startPublic_"@ + number ==> a2 == Action::Spawn(
                Task::StartReview { pr_id, private: false },
            )
            &&& run.custom_id@ == "cr_startPrivate_"@ + number ==> a2 == Action::Spawn(
                Task::StartReview { pr_id, private: true },
            )
            &&& run.custom_id@ == "cr_notNeeded_"@ + number ==> a2 == Action::Spawn(
                Task::NoReviewNeeded { pr_id },
            )
            &&& run.custom_id@ == "cr_muteReminders_"@ + number ==> a2 == Action::Spawn(
                Task::MuteReminders { pr_id },
            )
            &&& run.custom_id@ == "cr_viewIssues_"@ + number ==> a2 == Action::Spawn(
                Task::ViewIssues { pr_id },
            )
            &&& a2 is Spawn ==> a1 == Action::HasFlags(run.user@, Permission::ContentReviewer)
        }),
{
    reveal_strlit("cr");
    reveal_strlit("_");
    reveal_strlit("startPublic");
    reveal_strlit("startPrivate");
    reveal_strlit("notNeeded");
    reveal_strlit("muteReminders");
    reveal_strlit("viewIssues");
    reveal_strlit("cr_startPublic_");
    reveal_strlit("cr_startPrivate_");
    reveal_strlit("cr_notNeeded_");
    reveal_strlit("cr_muteReminders_");
    reveal_strlit("cr_viewIssues_");
    let number = decimal(pr_id as nat);
    assert(component_id("startPublic"@, pr_id) =~= "cr_startPublic_"@ + number);
    assert(component_id("startPrivate"@, pr_id) =~= "cr_startPrivate_"@ + number);
    assert(component_id("notNeeded"@, pr_id) =~= "cr_notNeeded_"@ + number);
    assert(component_id("muteReminders"@, pr_id) =~= "cr_muteReminders_"@ + number);
    assert(component_id("viewIssues"@, pr_id) =~= "cr_viewIssues_"@ + number);
    law_buttons_lead_to_their_tasks(pr_id);
    law_button_reads_back("startPublic"@, pr_id);
    law_button_reads_back("startPrivate"@, pr_id);
    law_button_reads_back("notNeeded"@, pr_id);
    law_button_reads_back("muteReminders"@, pr_id);
    law_button_reads_back("viewIssues"@, pr_id);
}

/// What is no button is left alone; a button that cannot be read is answered with an error; and one
/// that is not known starts nothing.
pub proof fn law_other_presses_start_nothing(run: ComponentRun, any: Answer)
    requires
        run.stage is New,
    ensures
        ({
            let (r1, a1) = run.next(Answer::Start);
            &&& !run.is_button ==> a1 == Action::Finish
            &&& run.is_button && split_on(run.custom_id@, '_').len() != 3 ==> {
                &&& a1 == (Action::Respond {
                    text: Text::Plain("An internal error occurred."),
                    ephemeral: false,
                })
                &&& r1.next(any).1 == Action::Finish
            }
            &&& pressed(run.custom_id@) is None ==> !(r1.next(any).1 is Spawn)
            &&& run.is_button && button_parts(run.custom_id@) is Some && pressed(run.custom_id@)
                is None ==> r1.next(Answer::Holds(true)).1 == Action::Finish
        }),
{
}

/// A permission that is held through a role counts as much as one of the user's own: a press in a guild
/// then starts the same task. Whoever has neither starts none, and is told so.
pub proof fn law_roles_count_for_presses(
    run: ComponentRun,
    guild: GuildId,
    role: RoleId,
    roles: Vec<RoleId>,
    any: Answer,
)
    requires
        run.stage is New,
        run.is_button,
        run.guild == Some(guild),
        button_parts(run.custom_id@) is Some,
        roles@ == seq![role],
    ensures
        ({
            let (r1, a1) = run.next(Answer::Start);
            let (r2, a2) = r1.next(Answer::Holds(false));
            let (r3, a3) = r2.next(Answer::Roles(Some(roles)));
            let (r4, a4) = r3.next(Answer::Holds(false));
            &&& a1 == Action::HasFlags(run.user@, Permission::ContentReviewer)
            &&& a2 == Action::MemberRoles(guild, run.user)
            &&& a3 == Action::HasFlags(role@, Permission::ContentReviewer)
            &&& r3.next(Answer::Holds(true)).1 == r1.next(Answer::Holds(true)).1
            &&& a4 == (Action::Respond {
                text: Text::Plain("You are not authorized to use this feature."),
                ephemeral: true,
            })
            &&& r4.next(any).1 == Action::Finish
        }),
{
}

} // verus!
