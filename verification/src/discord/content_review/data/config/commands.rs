//! The commands that change the settings of the content review.

use vstd::prelude::*;

use crate::discord::action::{
    action_on, after, closes_with, closes_with_error, did, lemma_answered, lemma_did, was_answered,
    Action, Answer, Flow, Run,
};
use crate::discord::content_review::data::config::ignored::{IgnoreCriterion, IgnoredKind};
use crate::discord::content_review::data::config::Setting;
use crate::discord::content_review::data::forums::{
    delete_forum_by_channel_statement, ForumRecord,
};
use crate::discord::error::{DbError, HandledError};
use crate::discord::ids::{column_of, ChannelId, RoleId, UserId};
use crate::discord::permissions::check::{Body, Command};
use crate::discord::permissions::data::Permission;
use crate::discord::store::Statement;
use crate::discord::texts::Text;
use crate::text::decimal::{i64_from, parse_i64};

verus! {

/// The settings that a user gave, as far as they gave them.
#[derive(Debug)]
pub struct ConfigArgs {
    pub intake_cr_forum: Option<ChannelId>,
    pub public_cr_forum: Option<ChannelId>,
    pub private_cr_forum: Option<ChannelId>,
    pub gh_label_approved: Option<String>,
    pub gh_label_denied: Option<String>,
    pub gh_label_no_review: Option<String>,
    pub gh_label_under_review: Option<String>,
    pub gh_label_changes_requested: Option<String>,
    pub review_ping_role: Option<RoleId>,
}

/// A list of the one setting, or an empty list.
pub open spec fn given(setting: Option<Setting>) -> Seq<Setting> {
    match setting {
        Some(x) => seq![x],
        None => Seq::empty(),
    }
}

impl ConfigArgs {
    /// The settings that were given, in the order in which they are made.
    pub open spec fn in_order(self) -> Seq<Setting> {
        given(
            match self.intake_cr_forum {
                Some(x) => Some(Setting::IntakeForum(x)),
                None => None,
            },
        ) + given(
            match self.public_cr_forum {
                Some(x) => Some(Setting::PublicForum(x)),
                None => None,
            },
        ) + given(
            match self.private_cr_forum {
                Some(x) => Some(Setting::PrivateForum(x)),
                None => None,
            },
        ) + given(
            match self.gh_label_no_review {
                Some(x) => Some(Setting::NoReviewLabel(x)),
                None => None,
            },
        ) + given(
            match self.gh_label_under_review {
                Some(x) => Some(Setting::UnderReviewLabel(x)),
                None => None,
            },
        ) + given(
            match self.gh_label_approved {
                Some(x) => Some(Setting::ApprovedLabel(x)),
                None => None,
            },
        ) + given(
            match self.gh_label_denied {
                Some(x) => Some(Setting::DeniedLabel(x)),
                None => None,
            },
        ) + given(
            match self.review_ping_role {
                Some(x) => Some(Setting::ReviewPingRole(x)),
                None => None,
            },
        ) + given(
            match self.gh_label_changes_requested {
                Some(x) => Some(Setting::ChangesRequestedLabel(x)),
                None => None,
            },
        )
    }

    /// The settings that were given, in the order in which they are made.
    pub fn settings(self) -> (r: Vec<Setting>)
        ensures
            r@ == self.in_order(),
    {
        let mut out: Vec<Setting> = Vec::new();
        push_given(
            &mut out,
            match self.intake_cr_forum {
                Some(x) => Some(Setting::IntakeForum(x)),
                None => None,
            },
        );
        assert(out@ =~= given(
            match self.intake_cr_forum {
                Some(x) => Some(Setting::IntakeForum(x)),
                None => None,
            },
        ));
        push_given(
            &mut out,
            match self.public_cr_forum {
                Some(x) => Some(Setting::PublicForum(x)),
                None => None,
            },
        );
        push_given(
            &mut out,
            match self.private_cr_forum {
                Some(x) => Some(Setting::PrivateForum(x)),
                None => None,
            },
        );
        push_given(
            &mut out,
            match self.gh_label_no_review {
                Some(x) => Some(Setting::NoReviewLabel(x)),
                None => None,
            },
        );
        push_given(
            &mut out,
            match self.gh_label_under_review {
                Some(x) => Some(Setting::UnderReviewLabel(x)),
                None => None,
            },
        );
        push_given(
            &mut out,
            match self.gh_label_approved {
                Some(x) => Some(Setting::ApprovedLabel(x)),
                None => None,
            },
        );
        push_given(
            &mut out,
            match self.gh_label_denied {
                Some(x) => Some(Setting::DeniedLabel(x)),
                None => None,
            },
        );
        push_given(
            &mut out,
            match self.review_ping_role {
                Some(x) => Some(Setting::ReviewPingRole(x)),
                None => None,
            },
        );
        push_given(
            &mut out,
            match self.gh_label_changes_requested {
                Some(x) => Some(Setting::ChangesRequestedLabel(x)),
                None => None,
            },
        );
        out
    }
}

fn push_given(out: &mut Vec<Setting>, setting: Option<Setting>)
    ensures
        final(out)@ == old(out)@ + given(setting),
{
    match setting {
        Some(x) => {
            out.push(x);
            assert(out@ =~= old(out)@ + seq![x]);
        },
        None => {
            assert(out@ =~= old(out)@ + Seq::<Setting>::empty());
        },
    }
}

/// What a user reads before the error when a setting could not be made.
pub open spec fn refusal(setting: Setting) -> &'static str {
    match setting {
        Setting::IntakeForum(_) => "Failed to set intake forum: ",
        Setting::PublicForum(_) => "Failed to set public forum: ",
        Setting::PrivateForum(_) => "Failed to set private forum: ",
        Setting::NoReviewLabel(_) => "Failed to set no review needed label: ",
        Setting::UnderReviewLabel(_) => "Failed to set under review label: ",
        Setting::ApprovedLabel(_) => "Failed to set approved label: ",
        Setting::DeniedLabel(_) => "Failed to set denied label: ",
        Setting::ReviewPingRole(_) => "Failed to set review ping role: ",
        Setting::ChangesRequestedLabel(_) => "Failed to set changes requested label: ",
    }
}

fn to_refusal(setting: &Setting) -> (r: &'static str)
    ensures
        r == refusal(*setting),
{
    match setting {
        Setting::IntakeForum(_) => "Failed to set intake forum: ",
        Setting::PublicForum(_) => "Failed to set public forum: ",
        Setting::PrivateForum(_) => "Failed to set private forum: ",
        Setting::NoReviewLabel(_) => "Failed to set no review needed label: ",
        Setting::UnderReviewLabel(_) => "Failed to set under review label: ",
        Setting::ApprovedLabel(_) => "Failed to set approved label: ",
        Setting::DeniedLabel(_) => "Failed to set denied label: ",
        Setting::ReviewPingRole(_) => "Failed to set review ping role: ",
        Setting::ChangesRequestedLabel(_) => "Failed to set changes requested label: ",
    }
}

/// What a user reads when all went well.
pub const PROCESSED: &'static str = "Processed without errors.";

/// The making of settings.
#[derive(Debug)]
pub struct Configure {
    /// The settings to be made, in order.
    pub settings: Vec<Setting>,
    pub stage: ConfigureStage,
}

/// How far the making of settings has got.
#[derive(Debug)]
pub enum ConfigureStage {
    New,
    Making { at: usize },
    /// Telling that all settings were made.
    Processed,
    /// Telling that one was not.
    Closing,
    Over,
}

impl Configure {
    /// The run at another stage.
    pub open spec fn to(self, stage: ConfigureStage) -> Configure {
        Configure { stage, ..self }
    }

    /// Goes on with the settings from a place on.
    pub open spec fn make(self, at: int) -> (Configure, Action) {
        if at < self.settings@.len() {
            (
                self.to(ConfigureStage::Making { at: at as usize }),
                Action::Configure(self.settings@[at]),
            )
        } else {
            (self.to(ConfigureStage::Processed), Action::Reply(Text::Plain(PROCESSED)))
        }
    }

    fn made(self, at: usize) -> (r: (Configure, Action))
        ensures
            r == self.make(at as int),
    {
        if at < self.settings.len() {
            let setting = self.settings[at].clone();
            (
                Configure { settings: self.settings, stage: ConfigureStage::Making { at } },
                Action::Configure(setting),
            )
        } else {
            (
                Configure { settings: self.settings, stage: ConfigureStage::Processed },
                Action::Reply(Text::Plain(PROCESSED)),
            )
        }
    }
}

impl Flow for Configure {
    open spec fn next(self, answer: Answer) -> (Self, Action) {
        match (self.stage, answer) {
            (ConfigureStage::New, Answer::Start) => self.make(0),
            (
                ConfigureStage::Making { at },
                Answer::Updated(updated),
            ) => if at >= self.settings@.len() {
                (self.to(ConfigureStage::Over), Action::Abort(None))
            } else {
                match updated {
                    Ok(_) => self.make(at + 1),
                    Err(error) => (
                        self.to(ConfigureStage::Closing),
                        Action::Reply(
                            Text::Error {
                                before: refusal(self.settings@[at as int]),
                                error,
                                after: "",
                            },
                        ),
                    ),
                }
            },
            (ConfigureStage::Processed, Answer::Done) => (
                self.to(ConfigureStage::Over),
                Action::Finish,
            ),
            (ConfigureStage::Closing, Answer::Done) => (
                self.to(ConfigureStage::Over),
                Action::Finish,
            ),
            _ => (self.to(ConfigureStage::Over), Action::Abort(None)),
        }
    }
}

impl Run for Configure {
    fn step(self, answer: Answer) -> (r: (Self, Action)) {
        let run = Configure { settings: self.settings, stage: ConfigureStage::Over };
        match (self.stage, answer) {
            (ConfigureStage::New, Answer::Start) => run.made(0),
            (ConfigureStage::Making { at }, Answer::Updated(updated)) => {
                if at >= run.settings.len() {
                    return (run, Action::Abort(None));
                }
                match updated {
                    Ok(_) => run.made(at + 1),
                    Err(error) => {
                        let before = to_refusal(&run.settings[at]);
                        (
                            Configure { settings: run.settings, stage: ConfigureStage::Closing },
                            Action::Reply(Text::Error { before, error, after: "" }),
                        )
                    },
                }
            },
            (ConfigureStage::Processed, Answer::Done) => (run, Action::Finish),
            (ConfigureStage::Closing, Answer::Done) => (run, Action::Finish),
            _ => (run, Action::Abort(None)),
        }
    }
}

impl Body for Configure {
    open spec fn needs() -> Permission {
        Permission::ContentReviewConfig
    }

    fn needed() -> (r: Permission) {
        Permission::ContentReviewConfig
    }
}

/// A step of the command that makes settings.
pub fn cr_config(run: Command<Configure>, answer: Answer) -> (r: (Command<Configure>, Action))
    ensures
        r == run.next(answer),
{
    run.step(answer)
}

impl Configure {
    /// What holds of a run, that began as `first`, after some answers.
    pub open spec fn holds(self, first: Configure, answers: Seq<Answer>) -> bool {
        &&& self.settings == first.settings
        &&& match self.stage {
            ConfigureStage::Making { at } => {
                &&& at < self.settings@.len()
                &&& forall|k: int|
                    0 <= k <= at ==> did(
                        first,
                        answers,
                        Action::Configure(#[trigger] self.settings@[k]),
                    )
            },
            ConfigureStage::Processed => forall|k: int|
                0 <= k < self.settings@.len() ==> did(
                    first,
                    answers,
                    Action::Configure(#[trigger] self.settings@[k]),
                ),
            _ => true,
        }
    }
}

proof fn lemma_configure_holds(first: Configure, answers: Seq<Answer>)
    requires
        first.stage is New,
    ensures
        after(first, answers).holds(first, answers),
    decreases answers.len(),
{
    if answers.len() > 0 {
        let before = answers.drop_last();
        lemma_configure_holds(first, before);
        lemma_did(first, answers);
        let now = after(first, before);
        let later = after(first, answers);
        assert(first.settings@.len() == first.settings.len());
        let n = match later.stage {
            ConfigureStage::Making { at } => at + 1,
            ConfigureStage::Processed => later.settings@.len() as int,
            _ => 0,
        };
        assert forall|k: int| 0 <= k < n implies did(
            first,
            answers,
            Action::Configure(#[trigger] later.settings@[k]),
        ) by {
            assert(now.settings@[k] == later.settings@[k]);
            if let ConfigureStage::Making { at } = now.stage {
                if k <= at {
                    assert(did(first, before, Action::Configure(now.settings@[k])));
                }
            }
        }
    }
}

/// When a user is told that all was processed, every setting that they gave was made.
pub proof fn law_all_settings_are_made(first: Configure, answers: Seq<Answer>, k: int)
    requires
        first.stage is New,
        after(first, answers).stage is Processed,
        0 <= k < first.settings@.len(),
    ensures
        did(first, answers, Action::Configure(first.settings@[k])),
{
    lemma_configure_holds(first, answers);
    assert(after(first, answers).settings@[k] == first.settings@[k]);
}

/// How far a command of one statement has got.
#[derive(Clone, Copy, Debug, PartialEq, Eq, Structural)]
pub enum PlainStage {
    New,
    Working,
    /// Telling that it failed, before telling that it is done.
    Failing,
    /// The last reply is under way.
    Closing,
    Over,
}

/// The addition, or the change, of a forum.
#[derive(Debug)]
pub struct UpsertForum {
    pub record: ForumRecord,
    pub stage: PlainStage,
}

impl Flow for UpsertForum {
    open spec fn next(self, answer: Answer) -> (Self, Action) {
        match (self.stage, answer) {
            (PlainStage::New, Answer::Start) => (
                UpsertForum { stage: PlainStage::Working, ..self },
                Action::Database(self.record.upsertion()),
            ),
            (PlainStage::Working, Answer::Written(Ok(_))) => (
                UpsertForum { stage: PlainStage::Closing, ..self },
                Action::Reply(Text::Plain(PROCESSED)),
            ),
            (PlainStage::Working, Answer::Written(Err(_))) => (
                UpsertForum { stage: PlainStage::Closing, ..self },
                Action::Reply(
                    Text::Error {
                        before: "Failed to upsert forum: ",
                        error: HandledError::InternalError,
                        after: "",
                    },
                ),
            ),
            (PlainStage::Closing, Answer::Done) => (
                UpsertForum { stage: PlainStage::Over, ..self },
                Action::Finish,
            ),
            _ => (UpsertForum { stage: PlainStage::Over, ..self }, Action::Abort(None)),
        }
    }
}

impl Run for UpsertForum {
    fn step(self, answer: Answer) -> (r: (Self, Action)) {
        let record = self.record;
        match (self.stage, answer) {
            (PlainStage::New, Answer::Start) => (
                UpsertForum { record, stage: PlainStage::Working },
                Action::Database(record.upsert_statement()),
            ),
            (PlainStage::Working, Answer::Written(written)) => match written {
                Ok(_) => (
                    UpsertForum { record, stage: PlainStage::Closing },
                    Action::Reply(Text::Plain(PROCESSED)),
                ),
                Err(_) => (
                    UpsertForum { record, stage: PlainStage::Closing },
                    Action::Reply(
                        Text::Error {
                            before: "Failed to upsert forum: ",
                            error: HandledError::InternalError,
                            after: "",
                        },
                    ),
                ),
            },
            (PlainStage::Closing, Answer::Done) => (
                UpsertForum { record, stage: PlainStage::Over },
                Action::Finish,
            ),
            _ => (UpsertForum { record, stage: PlainStage::Over }, Action::Abort(None)),
        }
    }
}

impl Body for UpsertForum {
    open spec fn needs() -> Permission {
        Permission::ContentReviewConfig
    }

    fn needed() -> (r: Permission) {
        Permission::ContentReviewConfig
    }
}

/// A step of the command that adds or changes a forum.
pub fn cr_forum_upsert(run: Command<UpsertForum>, answer: Answer) -> (r: (
    Command<UpsertForum>,
    Action,
))
    ensures
        r == run.next(answer),
{
    run.step(answer)
}

/// The removal of a forum.
#[derive(Debug)]
pub struct DeleteForum {
    pub forum: ChannelId,
    pub stage: PlainStage,
}

impl Flow for DeleteForum {
    open spec fn next(self, answer: Answer) -> (Self, Action) {
        match (self.stage, answer) {
            (PlainStage::New, Answer::Start) => (
                DeleteForum { stage: PlainStage::Working, ..self },
                Action::Database(Statement::DeleteForum { channel_id: column_of(self.forum@) }),
            ),
            (PlainStage::Working, Answer::Written(Ok(_))) => (
                DeleteForum { stage: PlainStage::Closing, ..self },
                Action::Reply(Text::Plain(PROCESSED)),
            ),
            (PlainStage::Working, Answer::Written(Err(_))) => (
                DeleteForum { stage: PlainStage::Closing, ..self },
                Action::Reply(
                    Text::Error {
                        before: "Failed to delete forum ",
                        error: HandledError::InternalError,
                        after: ".",
                    },
                ),
            ),
            (PlainStage::Closing, Answer::Done) => (
                DeleteForum { stage: PlainStage::Over, ..self },
                Action::Finish,
            ),
            _ => (DeleteForum { stage: PlainStage::Over, ..self }, Action::Abort(None)),
        }
    }
}

impl Run for DeleteForum {
    fn step(self, answer: Answer) -> (r: (Self, Action)) {
        let forum = self.forum;
        match (self.stage, answer) {
            (PlainStage::New, Answer::Start) => (
                DeleteForum { forum, stage: PlainStage::Working },
                Action::Database(delete_forum_by_channel_statement(forum)),
            ),
            (PlainStage::Working, Answer::Written(written)) => match written {
                Ok(_) => (
                    DeleteForum { forum, stage: PlainStage::Closing },
                    Action::Reply(Text::Plain(PROCESSED)),
                ),
                Err(_) => (
                    DeleteForum { forum, stage: PlainStage::Closing },
                    Action::Reply(
                        Text::Error {
                            before: "Failed to delete forum ",
                            error: HandledError::InternalError,
                            after: ".",
                        },
                    ),
                ),
            },
            (PlainStage::Closing, Answer::Done) => (
                DeleteForum { forum, stage: PlainStage::Over },
                Action::Finish,
            ),
            _ => (DeleteForum { forum, stage: PlainStage::Over }, Action::Abort(None)),
        }
    }
}

impl Body for DeleteForum {
    open spec fn needs() -> Permission {
        Permission::ContentReviewConfig
    }

    fn needed() -> (r: Permission) {
        Permission::ContentReviewConfig
    }
}

/// A step of the command that removes a forum.
pub fn cr_forum_delete(run: Command<DeleteForum>, answer: Answer) -> (r: (
    Command<DeleteForum>,
    Action,
))
    ensures
        r == run.next(answer),
{
    run.step(answer)
}

/// The listing of the criteria by which pull requests are ignored.
#[derive(Debug)]
pub struct ListIgnored {
    pub stage: PlainStage,
}

impl Flow for ListIgnored {
    open spec fn next(self, answer: Answer) -> (Self, Action) {
        match (self.stage, answer) {
            (PlainStage::New, Answer::Start) => (
                ListIgnored { stage: PlainStage::Working },
                Action::ListCriteria,
            ),
            (PlainStage::Working, Answer::Criteria(criteria)) => (
                ListIgnored { stage: PlainStage::Closing },
                Action::Reply(Text::Criteria(criteria)),
            ),
            (PlainStage::Closing, Answer::Done) => (
                ListIgnored { stage: PlainStage::Over },
                Action::Finish,
            ),
            _ => (ListIgnored { stage: PlainStage::Over }, Action::Abort(None)),
        }
    }
}

impl Run for ListIgnored {
    fn step(self, answer: Answer) -> (r: (Self, Action)) {
        match (self.stage, answer) {
            (PlainStage::New, Answer::Start) => (
                ListIgnored { stage: PlainStage::Working },
                Action::ListCriteria,
            ),
            (PlainStage::Working, Answer::Criteria(criteria)) => (
                ListIgnored { stage: PlainStage::Closing },
                Action::Reply(Text::Criteria(criteria)),
            ),
            (PlainStage::Closing, Answer::Done) => (
                ListIgnored { stage: PlainStage::Over },
                Action::Finish,
            ),
            _ => (ListIgnored { stage: PlainStage::Over }, Action::Abort(None)),
        }
    }
}

impl Body for ListIgnored {
    open spec fn needs() -> Permission {
        Permission::ContentReviewConfig
    }

    fn needed() -> (r: Permission) {
        Permission::ContentReviewConfig
    }
}

/// A step of the command that lists the criteria.
pub fn cr_ignored_list(run: Command<ListIgnored>, answer: Answer) -> (r: (
    Command<ListIgnored>,
    Action,
))
    ensures
        r == run.next(answer),
{
    run.step(answer)
}

/// The addition of a criterion.
#[derive(Debug)]
pub struct AddIgnored {
    pub kind: IgnoredKind,
    pub value: String,
    pub stage: PlainStage,
}

/// What a user reads when a criterion was added.
pub const CRITERION_ADDED: &'static str = "Successfully added ignore criterion.";

impl Flow for AddIgnored {
    open spec fn next(self, answer: Answer) -> (Self, Action) {
        match (self.stage, answer) {
            (PlainStage::New, Answer::Start) => (
                AddIgnored { stage: PlainStage::Working, ..self },
                Action::AddCriterion(self.kind, self.value),
            ),
            (PlainStage::Working, Answer::Updated(Ok(_))) => (
                AddIgnored { stage: PlainStage::Closing, ..self },
                Action::Reply(Text::Plain(CRITERION_ADDED)),
            ),
            (PlainStage::Working, Answer::Updated(Err(error))) => (
                AddIgnored { stage: PlainStage::Failing, ..self },
                Action::Reply(
                    Text::Error { before: "Failed to add ignore criterion: ", error, after: "" },
                ),
            ),
            (PlainStage::Failing, Answer::Done) => (
                AddIgnored { stage: PlainStage::Closing, ..self },
                Action::Reply(Text::Plain(CRITERION_ADDED)),
            ),
            (PlainStage::Closing, Answer::Done) => (
                AddIgnored { stage: PlainStage::Over, ..self },
                Action::Finish,
            ),
            _ => (AddIgnored { stage: PlainStage::Over, ..self }, Action::Abort(None)),
        }
    }
}

impl Run for AddIgnored {
    fn step(self, answer: Answer) -> (r: (Self, Action)) {
        let kind = self.kind;
        let value = self.value;
        match (self.stage, answer) {
            (PlainStage::New, Answer::Start) => {
                let added = value.clone();
                (
                    AddIgnored { kind, value, stage: PlainStage::Working },
                    Action::AddCriterion(kind, added),
                )
            },
            (PlainStage::Working, Answer::Updated(updated)) => match updated {
                Ok(_) => (
                    AddIgnored { kind, value, stage: PlainStage::Closing },
                    Action::Reply(Text::Plain(CRITERION_ADDED)),
                ),
                Err(error) => (
                    AddIgnored { kind, value, stage: PlainStage::Failing },
                    Action::Reply(
                        Text::Error { before: "Failed to add ignore criterion: ", error, after: "" },
                    ),
                ),
            },
            (PlainStage::Failing, Answer::Done) => (
                AddIgnored { kind, value, stage: PlainStage::Closing },
                Action::Reply(Text::Plain(CRITERION_ADDED)),
            ),
            (PlainStage::Closing, Answer::Done) => (
                AddIgnored { kind, value, stage: PlainStage::Over },
                Action::Finish,
            ),
            _ => (AddIgnored { kind, value, stage: PlainStage::Over }, Action::Abort(None)),
        }
    }
}

impl Body for AddIgnored {
    open spec fn needs() -> Permission {
        Permission::ContentReviewConfig
    }

    fn needed() -> (r: Permission) {
        Permission::ContentReviewConfig
    }
}

/// A step of the command that adds a criterion.
pub fn cr_ignored_add(run: Command<AddIgnored>, answer: Answer) -> (r: (Command<AddIgnored>, Action))
    ensures
        r == run.next(answer),
{
    run.step(answer)
}

/// The removal of a criterion.
#[derive(Debug)]
pub struct RemoveIgnored {
    /// The number of the criterion, as the user wrote it.
    pub id: String,
    pub stage: PlainStage,
}

/// What a user reads when a criterion was removed.
pub const CRITERION_REMOVED: &'static str = "Successfully removed ignore criterion.";

impl Flow for RemoveIgnored {
    open spec fn next(self, answer: Answer) -> (Self, Action) {
        match (self.stage, answer) {
            (PlainStage::New, Answer::Start) => match i64_from(self.id@) {
                Some(id) => (
                    RemoveIgnored { stage: PlainStage::Working, ..self },
                    Action::RemoveCriterion(id),
                ),
                None => (
                    RemoveIgnored { stage: PlainStage::Closing, ..self },
                    Action::Reply(Text::Plain("Specified ID is invalid.")),
                ),
            },
            (PlainStage::Working, Answer::Updated(Ok(_))) => (
                RemoveIgnored { stage: PlainStage::Closing, ..self },
                Action::Reply(Text::Plain(CRITERION_REMOVED)),
            ),
            (PlainStage::Working, Answer::Updated(Err(error))) => (
                RemoveIgnored { stage: PlainStage::Failing, ..self },
                Action::Reply(
                    Text::Error { before: "Failed to remove ignore criterion: ", error, after: "" },
                ),
            ),
            (PlainStage::Failing, Answer::Done) => (
                RemoveIgnored { stage: PlainStage::Closing, ..self },
                Action::Reply(Text::Plain(CRITERION_REMOVED)),
            ),
            (PlainStage::Closing, Answer::Done) => (
                RemoveIgnored { stage: PlainStage::Over, ..self },
                Action::Finish,
            ),
            _ => (RemoveIgnored { stage: PlainStage::Over, ..self }, Action::Abort(None)),
        }
    }
}

impl Run for RemoveIgnored {
    fn step(self, answer: Answer) -> (r: (Self, Action)) {
        let id = self.id;
        match (self.stage, answer) {
            (PlainStage::New, Answer::Start) => match parse_i64(id.as_str()) {
                Some(number) => (
                    RemoveIgnored { id, stage: PlainStage::Working },
                    Action::RemoveCriterion(number),
                ),
                None => (
                    RemoveIgnored { id, stage: PlainStage::Closing },
                    Action::Reply(Text::Plain("Specified ID is invalid.")),
                ),
            },
            (PlainStage::Working, Answer::Updated(updated)) => match updated {
                Ok(_) => (
                    RemoveIgnored { id, stage: PlainStage::Closing },
                    Action::Reply(Text::Plain(CRITERION_REMOVED)),
                ),
                Err(error) => (
                    RemoveIgnored { id, stage: PlainStage::Failing },
                    Action::Reply(
                        Text::Error {
                            before: "Failed to remove ignore criterion: ",
                            error,
                            after: "",
                        },
                    ),
                ),
            },
            (PlainStage::Failing, Answer::Done) => (
                RemoveIgnored { id, stage: PlainStage::Closing },
                Action::Reply(Text::Plain(CRITERION_REMOVED)),
            ),
            (PlainStage::Closing, Answer::Done) => (
                RemoveIgnored { id, stage: PlainStage::Over },
                Action::Finish,
            ),
            _ => (RemoveIgnored { id, stage: PlainStage::Over }, Action::Abort(None)),
        }
    }
}

impl Body for RemoveIgnored {
    open spec fn needs() -> Permission {
        Permission::ContentReviewConfig
    }

    fn needed() -> (r: Permission) {
        Permission::ContentReviewConfig
    }
}

/// A step of the command that removes a criterion.
pub fn cr_ignored_remove(run: Command<RemoveIgnored>, answer: Answer) -> (r: (
    Command<RemoveIgnored>,
    Action,
))
    ensures
        r == run.next(answer),
{
    run.step(answer)
}

proof fn lemma_given(a: Seq<Setting>, setting: Option<Setting>, x: Setting)
    ensures
        (a + given(setting)).contains(x) <==> a.contains(x) || setting == Some(x),
{
    let all = a + given(setting);
    if a.contains(x) {
        let i = choose|i: int| 0 <= i < a.len() && a[i] == x;
        assert(all[i] == x);
    }
    if setting == Some(x) {
        assert(all[a.len() as int] == x);
    }
    if all.contains(x) {
        let i = choose|i: int| 0 <= i < all.len() && all[i] == x;
        if i < a.len() {
            assert(a[i] == x);
        }
    }
}

/// What a user gives is what is set: each value under its own name, and nothing that was not given.
pub proof fn law_given_settings_are_made(args: ConfigArgs, setting: Setting)
    ensures
        args.in_order().contains(setting) <==> match setting {
            Setting::IntakeForum(x) => args.intake_cr_forum == Some(x),
            Setting::PublicForum(x) => args.public_cr_forum == Some(x),
            Setting::PrivateForum(x) => args.private_cr_forum == Some(x),
            Setting::NoReviewLabel(x) => args.gh_label_no_review == Some(x),
            Setting::UnderReviewLabel(x) => args.gh_label_under_review == Some(x),
            Setting::ApprovedLabel(x) => args.gh_label_approved == Some(x),
            Setting::DeniedLabel(x) => args.gh_label_denied == Some(x),
            Setting::ReviewPingRole(x) => args.review_ping_role == Some(x),
            Setting::ChangesRequestedLabel(x) => args.gh_label_changes_requested == Some(x),
        },
{
    let s1 = match args.intake_cr_forum {
        Some(x) => Some(Setting::IntakeForum(x)),
        None => None,
    };
    let s2 = match args.public_cr_forum {
        Some(x) => Some(Setting::PublicForum(x)),
        None => None,
    };
    let s3 = match args.private_cr_forum {
        Some(x) => Some(Setting::PrivateForum(x)),
        None => None,
    };
    let s4 = match args.gh_label_no_review {
        Some(x) => Some(Setting::NoReviewLabel(x)),
        None => None,
    };
    let s5 = match args.gh_label_under_review {
        Some(x) => Some(Setting::UnderReviewLabel(x)),
        None => None,
    };
    let s6 = match args.gh_label_approved {
        Some(x) => Some(Setting::ApprovedLabel(x)),
        None => None,
    };
    let s7 = match args.gh_label_denied {
        Some(x) => Some(Setting::DeniedLabel(x)),
        None => None,
    };
    let s8 = match args.review_ping_role {
        Some(x) => Some(Setting::ReviewPingRole(x)),
        None => None,
    };
    let s9 = match args.gh_label_changes_requested {
        Some(x) => Some(Setting::ChangesRequestedLabel(x)),
        None => None,
    };
    let none = Seq::<Setting>::empty();
    assert(none + given(s1) =~= given(s1));
    lemma_given(none, s1, setting);
    lemma_given(given(s1), s2, setting);
    lemma_given(given(s1) + given(s2), s3, setting);
    let a = given(s1) + given(s2) + given(s3);
    lemma_given(a, s4, setting);
    lemma_given(a + given(s4), s5, setting);
    lemma_given(a + given(s4) + given(s5), s6, setting);
    let b = a + given(s4) + given(s5) + given(s6);
    lemma_given(b, s7, setting);
    lemma_given(b + given(s7), s8, setting);
    lemma_given(b + given(s7) + given(s8), s9, setting);
}

impl Configure {
    /// Whether a setting was made, and the database took it.
    pub open spec fn took(self, answers: Seq<Answer>, setting: Setting) -> bool {
        was_answered(self, answers, Action::Configure(setting), Answer::Updated(Ok(())))
    }

    /// Which settings were taken after some answers.
    pub open spec fn has_taken(self, first: Configure, answers: Seq<Answer>) -> bool {
        &&& self.settings == first.settings
        &&& match self.stage {
            ConfigureStage::Making { at } => {
                &&& answers.len() > 0
                &&& at < self.settings@.len()
                &&& action_on(first, answers) == Action::Configure(self.settings@[at as int])
                &&& forall|k: int|
                    0 <= k < at ==> first.took(answers, #[trigger] self.settings@[k])
            },
            ConfigureStage::Processed => {
                &&& answers.len() > 0
                &&& action_on(first, answers) is Reply
                &&& forall|k: int|
                    0 <= k < self.settings@.len() ==> first.took(
                        answers,
                        #[trigger] self.settings@[k],
                    )
            },
            ConfigureStage::Closing => answers.len() > 0 && action_on(first, answers) is Reply,
            _ => true,
        }
    }
}

proof fn lemma_configure_takes(first: Configure, answers: Seq<Answer>)
    requires
        first.stage is New,
    ensures
        after(first, answers).has_taken(first, answers),
    decreases answers.len(),
{
    if answers.len() > 0 {
        let before = answers.drop_last();
        lemma_configure_takes(first, before);
        lemma_answered(first, answers);
        let now = after(first, before);
        let later = after(first, answers);
        assert(first.settings@.len() == first.settings.len());
        if let Answer::Updated(Ok(nothing)) = answers.last() {
            assert(nothing == ());
        }
        let n = match later.stage {
            ConfigureStage::Making { at } => at as int,
            ConfigureStage::Processed => later.settings@.len() as int,
            _ => 0,
        };
        assert forall|k: int| 0 <= k < n implies first.took(
            answers,
            #[trigger] later.settings@[k],
        ) by {
            if let ConfigureStage::Making { at } = now.stage {
                assert(now.settings@[k] == later.settings@[k]);
                if k < at {
                    assert(first.took(before, now.settings@[k]));
                } else {
                    assert(was_answered(
                        first,
                        answers,
                        action_on(first, before),
                        answers.last(),
                    ));
                }
            }
        }
    }
}

/// Whoever is told that all was processed has all of it: every setting that they gave was made, and
/// the database took it.
pub proof fn law_told_processed_is_made(first: Configure, answers: Seq<Answer>, k: int)
    requires
        first.stage is New,
        answers.len() > 0,
        action_on(first, answers) matches Action::Reply(Text::Plain(_)),
        0 <= k < first.settings@.len(),
    ensures
        first.took(answers, first.settings@[k]),
{
    lemma_configure_takes(first, answers.drop_last());
    lemma_configure_takes(first, answers);
    assert(after(first, answers).settings@[k] == first.settings@[k]);
}

/// The making of settings goes through them one by one, and does not end in silence: it finishes
/// only once it has told the user that all was processed, or which setting was refused, and why.
pub proof fn law_configuring_is_answered(first: Configure, answers: Seq<Answer>)
    requires
        first.stage is New,
        answers.len() > 0,
    ensures
        action_on(first, answers) is Finish ==> answers.len() > 1 && action_on(
            first,
            answers.drop_last(),
        ) is Reply && answers.last() is Done,
        match action_on(first, answers) {
            Action::Reply(Text::Plain(words)) => words@ == "Processed without errors."@,
            Action::Reply(Text::Error { before, error, after }) => {
                &&& answers.len() > 1
                &&& answers.last() == Answer::Updated(Err(error))
                &&& action_on(first, answers.drop_last()) matches Action::Configure(setting)
                    && first.settings@.contains(setting) && before@ == match setting {
                    Setting::IntakeForum(_) => "Failed to set intake forum: "@,
                    Setting::PublicForum(_) => "Failed to set public forum: "@,
                    Setting::PrivateForum(_) => "Failed to set private forum: "@,
                    Setting::NoReviewLabel(_) => "Failed to set no review needed label: "@,
                    Setting::UnderReviewLabel(_) => "Failed to set under review label: "@,
                    Setting::ApprovedLabel(_) => "Failed to set approved label: "@,
                    Setting::DeniedLabel(_) => "Failed to set denied label: "@,
                    Setting::ReviewPingRole(_) => "Failed to set review ping role: "@,
                    Setting::ChangesRequestedLabel(_) => "Failed to set changes requested label: "@,
                }
                &&& after@ == ""@
            },
            Action::Reply(_) => false,
            Action::Configure(setting) => first.settings@.contains(setting),
            Action::Finish => true,
            Action::Abort(None) => true,
            _ => false,
        },
{
    lemma_configure_takes(first, answers.drop_last());
    lemma_configure_takes(first, answers);
}

/// The making of settings begins with the first of them and goes on to the next while they are taken.
pub proof fn law_settings_are_made_in_order(first: Configure, setting: Setting, other: Setting)
    requires
        first.stage is New,
        first.settings@ == seq![setting, other],
    ensures
        ({
            let (r1, a1) = first.next(Answer::Start);
            let (r2, a2) = r1.next(Answer::Updated(Ok(())));
            let (r3, a3) = r2.next(Answer::Updated(Ok(())));
            &&& a1 == Action::Configure(setting)
            &&& a2 == Action::Configure(other)
            &&& closes_with((r3, a3), Text::Plain("Processed without errors."))
        }),
{
    assert(first.settings@.len() == first.settings.len());
}

/// A forum is added, changed or removed as asked, with each tag in its own place, and the user is
/// told what came of it.
pub proof fn law_forums_change_as_asked(upsert: UpsertForum, delete: DeleteForum, error: DbError)
    requires
        upsert.stage is New,
        delete.stage is New,
    ensures
        ({
            let record = upsert.record;
            let (u, asked) = upsert.next(Answer::Start);
            let (d, removed) = delete.next(Answer::Start);
            &&& asked == Action::Database(
                Statement::UpsertForum {
                    channel_id: column_of(record.channel_id@),
                    private: record.private,
                    tag_cr_approved: column_of(record.tag_cr_approved@),
                    tag_cr_denied: column_of(record.tag_cr_denied@),
                    tag_cr_test_merge: column_of(record.tag_cr_test_merge@),
                    tag_pr_closed: column_of(record.tag_pr_closed@),
                    tag_pr_merged: column_of(record.tag_pr_merged@),
                },
            )
            &&& closes_with(
                u.next(Answer::Written(Ok(()))),
                Text::Plain("Processed without errors."),
            )
            &&& closes_with_error(
                u.next(Answer::Written(Err(error))),
                "Failed to upsert forum: ",
                HandledError::InternalError,
            )
            &&& removed == Action::Database(
                Statement::DeleteForum { channel_id: column_of(delete.forum@) },
            )
            &&& closes_with(
                d.next(Answer::Written(Ok(()))),
                Text::Plain("Processed without errors."),
            )
            &&& closes_with(
                d.next(Answer::Written(Err(error))),
                Text::Error {
                    before: "Failed to delete forum ",
                    error: HandledError::InternalError,
                    after: ".",
                },
            )
        }),
{
}

/// Criteria are listed, added and removed as asked, and the user is told what came of it.
pub proof fn law_criteria_change_as_asked(
    list: ListIgnored,
    add: AddIgnored,
    remove: RemoveIgnored,
    criteria: Vec<IgnoreCriterion>,
    error: HandledError,
    id: i64,
)
    requires
        list.stage is New,
        add.stage is New,
        remove.stage is New,
    ensures
        ({
            let (l, listing) = list.next(Answer::Start);
            let (a, adding) = add.next(Answer::Start);
            let (r, removing) = remove.next(Answer::Start);
            let added = Text::Plain("Successfully added ignore criterion.");
            let removed = Text::Plain("Successfully removed ignore criterion.");
            &&& listing == Action::ListCriteria
            &&& closes_with(l.next(Answer::Criteria(criteria)), Text::Criteria(criteria))
            &&& adding == Action::AddCriterion(add.kind, add.value)
            &&& closes_with(a.next(Answer::Updated(Ok(()))), added)
            &&& a.next(Answer::Updated(Err(error))).1 == Action::Reply(
                Text::Error { before: "Failed to add ignore criterion: ", error, after: "" },
            )
            &&& closes_with(a.next(Answer::Updated(Err(error))).0.next(Answer::Done), added)
            &&& i64_from(remove.id@) is None ==> closes_with(
                (r, removing),
                Text::Plain("Specified ID is invalid."),
            )
            &&& i64_from(remove.id@) == Some(id) ==> {
                &&& removing == Action::RemoveCriterion(id)
                &&& closes_with(r.next(Answer::Updated(Ok(()))), removed)
                &&& r.next(Answer::Updated(Err(error))).1 == Action::Reply(
                    Text::Error { before: "Failed to remove ignore criterion: ", error, after: "" },
                )
                &&& closes_with(r.next(Answer::Updated(Err(error))).0.next(Answer::Done), removed)
            }
        }),
{
}

/// Every command that changes or lists settings takes the permission to configure the content
/// review.
pub proof fn law_settings_take_a_permission(
    author: UserId,
    configure: Configure,
    upsert: UpsertForum,
    delete: DeleteForum,
    list: ListIgnored,
    add: AddIgnored,
    remove: RemoveIgnored,
)
    ensures
        ({
            let asked = Action::HasFlags(author@, Permission::ContentReviewConfig);
            &&& (Command::New { author, body: configure }).next(Answer::Start).1 == asked
            &&& (Command::New { author, body: upsert }).next(Answer::Start).1 == asked
            &&& (Command::New { author, body: delete }).next(Answer::Start).1 == asked
            &&& (Command::New { author, body: list }).next(Answer::Start).1 == asked
            &&& (Command::New { author, body: add }).next(Answer::Start).1 == asked
            &&& (Command::New { author, body: remove }).next(Answer::Start).1 == asked
        }),
{
}

} // verus!
