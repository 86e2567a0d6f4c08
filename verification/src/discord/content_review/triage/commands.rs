//! The commands that end a review or ask for changes.

use vstd::prelude::*;

use crate::discord::action::{
    action_on, after, closes_with, closes_with_error, did, lemma_answered, lemma_did,
    lemma_did_before, was_answered, Action, Answer, Flow, GuildChannel, LabelRemoval,
    LabelSetting, Run, ThreadEdit,
};
use crate::discord::content_review::data::discussions::DiscussionRecord;
use crate::discord::content_review::data::forums::ForumRecord;
use crate::discord::content_review::notices::{is_blank, Card, Comment};
use crate::discord::content_review::util::{
    get_channel_discussion, try_remove_label, ChannelLookup, Found, Located, LookupStage, GONE,
};
use crate::discord::error::{DbError, HandledError};
use crate::discord::ids::{column_of, value_of, ChannelId, ForumTagId, UserId};
use crate::discord::permissions::check::{Body, Command};
use crate::discord::permissions::data::Permission;
use crate::discord::store::{DiscussionRow, Statement};
use crate::discord::texts::Text;
use crate::text::chars::copy_text;

verus! {

/// How a review ended.
#[derive(Clone, Copy, Debug, PartialEq, Eq, Structural)]
pub enum CrOutcome {
    TestMerge,
    Approved,
    Denied,
}

impl CrOutcome {
    /// What the outcome is called.
    pub open spec fn name_text(self) -> Seq<char> {
        match self {
            CrOutcome::TestMerge => "Test-Merge"@,
            CrOutcome::Approved => "Approved"@,
            CrOutcome::Denied => "Denied"@,
        }
    }

    /// What the outcome is called.
    pub fn name(self) -> (r: &'static str)
        ensures
            r@ == self.name_text(),
    {
        match self {
            CrOutcome::TestMerge => "Test-Merge",
            CrOutcome::Approved => "Approved",
            CrOutcome::Denied => "Denied",
        }
    }
}

/// The end of a review.
#[derive(Debug)]
pub struct Complete {
    pub args: CompleteArgs,
    pub stage: CompleteStage,
}

/// What the command was given.
#[derive(Debug)]
pub struct CompleteArgs {
    /// The channel that the command was given in.
    pub channel: ChannelId,
    pub author_name: String,
    pub outcome: CrOutcome,
    pub comment: Option<String>,
}

/// How far the end of a review has got.
#[derive(Debug)]
pub enum CompleteStage {
    New,
    Locating(ChannelLookup),
    UnderReviewLabel { found: Found },
    OutcomeLabel { found: Found, under_review: String },
    Deferring { found: Found, under_review: String, label: String },
    Labeling { found: Found, under_review: String },
    ClosingPull { found: Found, under_review: String },
    /// Telling that the pull request could not be closed.
    PullOpen { found: Found, under_review: String },
    Muting { found: Found, under_review: String },
    /// Telling that the reminders could not be stopped.
    NotMuted { found: Found, under_review: String },
    RemovingUnderReview { found: Found, under_review: String },
    /// Telling that the label could not be removed.
    UnderReviewKept { found: Found },
    ChangesLabel { found: Found },
    RemovingChanges { found: Found, label: String },
    /// Telling that the label could not be removed.
    ChangesKept { found: Found },
    Commenting { found: Found },
    Showing { found: Found },
    Tagging { thread: ChannelId },
    /// Telling that the thread could not be tagged.
    NotTagged { thread: ChannelId },
    Archiving,
    /// The last reply is under way.
    Closing,
    Over,
}

/// The tag that a thread gets for an outcome.
pub open spec fn outcome_tag(found: Found, outcome: CrOutcome) -> ForumTagId {
    match outcome {
        CrOutcome::TestMerge => found.forum.tag_cr_test_merge,
        CrOutcome::Approved => found.forum.tag_cr_approved,
        CrOutcome::Denied => found.forum.tag_cr_denied,
    }
}

impl Complete {
    /// The run at another stage.
    pub open spec fn at(self, stage: CompleteStage) -> Complete {
        Complete { stage, ..self }
    }

    /// Ends with a reply.
    pub open spec fn close(self, text: Text) -> (Complete, Action) {
        (self.at(CompleteStage::Closing), Action::Reply(text))
    }

    /// Does a step of the search for the discussion, and asks for the first label once it is found.
    pub open spec fn locate(self, lookup: ChannelLookup, answer: Answer) -> (Complete, Action) {
        match lookup.next(answer) {
            Located::Ask(later, action) => (self.at(CompleteStage::Locating(later)), action),
            Located::Lost(error) => self.close(
                Text::Error { before: "Error: ", error, after: "" },
            ),
            Located::Here(found) => (
                self.at(CompleteStage::UnderReviewLabel { found }),
                Action::ReadLabel(LabelSetting::UnderReview),
            ),
        }
    }

    /// Stops the reminders, if there are any.
    pub open spec fn mute(self, found: Found, under_review: String) -> (Complete, Action) {
        if found.discussion.review_days_next_micros is None {
            self.unlabel(found, under_review)
        } else {
            (
                self.at(CompleteStage::Muting { found, under_review }),
                Action::Database(
                    Statement::ClearNextReminder { pr_id: column_of(found.discussion.pr_id) },
                ),
            )
        }
    }

    /// Removes the label of pull requests under review.
    pub open spec fn unlabel(self, found: Found, under_review: String) -> (Complete, Action) {
        (
            self.at(CompleteStage::RemovingUnderReview { found, under_review }),
            Action::RemoveLabel(found.discussion.pr_id, under_review),
        )
    }

    /// Asks for the label of pull requests that need changes.
    pub open spec fn ask_changes_label(self, found: Found) -> (Complete, Action) {
        (
            self.at(CompleteStage::ChangesLabel { found }),
            Action::ReadLabel(LabelSetting::ChangesRequested),
        )
    }

    /// Writes the outcome under the pull request.
    pub open spec fn announce(self, found: Found) -> (Complete, Action) {
        (
            self.at(CompleteStage::Commenting { found }),
            Action::PostComment(
                found.discussion.pr_id,
                Comment::Consensus {
                    outcome: self.args.outcome,
                    comment: self.args.comment,
                    by: self.args.author_name,
                },
            ),
        )
    }

    /// Puts the thread into the archive.
    pub open spec fn archive(self, thread: ChannelId) -> (Complete, Action) {
        (self.at(CompleteStage::Archiving), Action::EditThread(thread, ThreadEdit::Archive))
    }
}

impl Flow for Complete {
    open spec fn next(self, answer: Answer) -> (Self, Action) {
        match (self.stage, answer) {
            (CompleteStage::New, Answer::Start) => self.locate(
                ChannelLookup { thread: self.args.channel, stage: LookupStage::New },
                answer,
            ),
            (CompleteStage::Locating(lookup), _) => self.locate(lookup, answer),
            (CompleteStage::UnderReviewLabel { found }, Answer::LabelIs(Some(under_review))) => (
                self.at(CompleteStage::OutcomeLabel { found, under_review }),
                Action::ReadLabel(
                    if self.args.outcome == CrOutcome::Denied {
                        LabelSetting::Denied
                    } else {
                        LabelSetting::Approved
                    },
                ),
            ),
            (CompleteStage::UnderReviewLabel { .. }, Answer::LabelIs(None)) => self.close(
                Text::Plain("Can't close with unset Under Review label."),
            ),
            (CompleteStage::OutcomeLabel { found, under_review }, Answer::LabelIs(Some(label))) => (
                self.at(CompleteStage::Deferring { found, under_review, label }),
                Action::Defer,
            ),
            (CompleteStage::OutcomeLabel { .. }, Answer::LabelIs(None)) => self.close(
                Text::Plain(
                    if self.args.outcome == CrOutcome::Denied {
                        "Can't close with unset CR Denied label."
                    } else {
                        "Can't close with unset CR Approved label."
                    },
                ),
            ),
            (CompleteStage::Deferring { found, under_review, label }, Answer::Done) => (
                self.at(CompleteStage::Labeling { found, under_review }),
                Action::AddLabel(found.discussion.pr_id, label),
            ),
            (
                CompleteStage::Labeling { found, under_review },
                Answer::Done,
            ) => if self.args.outcome == CrOutcome::Denied {
                (
                    self.at(CompleteStage::ClosingPull { found, under_review }),
                    Action::ClosePull(found.discussion.pr_id),
                )
            } else {
                self.mute(found, under_review)
            },
            (CompleteStage::Labeling { .. }, _) => self.close(
                Text::Plain(
                    if self.args.outcome == CrOutcome::Denied {
                        "Failed to add CR Denied GitHub label."
                    } else {
                        "Failed to add CR Approved GitHub label."
                    },
                ),
            ),
            (CompleteStage::ClosingPull { found, under_review }, Answer::Done) => self.mute(
                found,
                under_review,
            ),
            (CompleteStage::ClosingPull { found, under_review }, _) => (
                self.at(CompleteStage::PullOpen { found, under_review }),
                Action::Reply(Text::Plain("Failed to close PR.")),
            ),
            (CompleteStage::PullOpen { found, under_review }, Answer::Done) => self.mute(
                found,
                under_review,
            ),
            (CompleteStage::Muting { found, under_review }, Answer::Written(Ok(_))) => self.unlabel(
                Found {
                    discussion: DiscussionRecord {
                        review_days_next_micros: None,
                        ..found.discussion
                    },
                    ..found
                },
                under_review,
            ),
            (CompleteStage::Muting { found, under_review }, Answer::Written(Err(_))) => (
                self.at(CompleteStage::NotMuted { found, under_review }),
                Action::Reply(
                    Text::Error {
                        before: "Failed to disable reminders during closing: ",
                        error: HandledError::InternalError,
                        after: "",
                    },
                ),
            ),
            (CompleteStage::NotMuted { found, under_review }, Answer::Done) => self.unlabel(
                found,
                under_review,
            ),
            (
                CompleteStage::RemovingUnderReview { found, under_review },
                Answer::LabelRemoval(removal),
            ) => if removal == LabelRemoval::Refused(GONE) {
                (
                    self.at(CompleteStage::UnderReviewKept { found }),
                    Action::Reply(Text::LabelNotRemoved(under_review)),
                )
            } else {
                self.ask_changes_label(found)
            },
            (CompleteStage::UnderReviewKept { found }, Answer::Done) => self.ask_changes_label(
                found,
            ),
            (CompleteStage::ChangesLabel { found }, Answer::LabelIs(Some(label))) => (
                self.at(CompleteStage::RemovingChanges { found, label }),
                Action::RemoveLabel(found.discussion.pr_id, label),
            ),
            (CompleteStage::ChangesLabel { found }, Answer::LabelIs(None)) => self.announce(found),
            (
                CompleteStage::RemovingChanges { found, label },
                Answer::LabelRemoval(removal),
            ) => if removal == LabelRemoval::Refused(GONE) {
                (
                    self.at(CompleteStage::ChangesKept { found }),
                    Action::Reply(Text::LabelNotRemoved(label)),
                )
            } else {
                self.announce(found)
            },
            (CompleteStage::ChangesKept { found }, Answer::Done) => self.announce(found),
            (CompleteStage::Commenting { found }, Answer::Done) => (
                self.at(CompleteStage::Showing { found }),
                Action::ReplyCard(
                    Card::Closed {
                        outcome: self.args.outcome,
                        comment: self.args.comment,
                        by: self.args.author_name,
                    },
                ),
            ),
            (CompleteStage::Commenting { .. }, _) => self.close(
                Text::Plain("Failed to create GitHub comment."),
            ),
            (CompleteStage::Showing { found }, Answer::Done) => (
                self.at(CompleteStage::Tagging { thread: found.channel.id }),
                Action::EditThread(
                    found.channel.id,
                    ThreadEdit::AddTag {
                        applied: found.channel.applied_tags,
                        tag: outcome_tag(found, self.args.outcome),
                        archive: false,
                    },
                ),
            ),
            (CompleteStage::Tagging { thread }, Answer::Done) => self.archive(thread),
            (CompleteStage::Tagging { thread }, _) => (
                self.at(CompleteStage::NotTagged { thread }),
                Action::Reply(Text::Plain("Failed to label thread. Lacking permissions?")),
            ),
            (CompleteStage::NotTagged { thread }, Answer::Done) => self.archive(thread),
            (CompleteStage::Archiving, Answer::Done) => (
                self.at(CompleteStage::Over),
                Action::Finish,
            ),
            (CompleteStage::Archiving, _) => self.close(
                Text::Plain("Failed to archive thread. Lacking permissions?"),
            ),
            (CompleteStage::Closing, Answer::Done) => (
                self.at(CompleteStage::Over),
                Action::Finish,
            ),
            _ => (self.at(CompleteStage::Over), Action::Abort(None)),
        }
    }
}

impl Complete {
    fn located(self, lookup: ChannelLookup, answer: Answer) -> (r: (Complete, Action))
        ensures
            r == self.locate(lookup, answer),
    {
        let args = self.args;
        match get_channel_discussion(lookup, answer) {
            Located::Ask(later, action) => (
                Complete { args, stage: CompleteStage::Locating(later) },
                action,
            ),
            Located::Lost(error) => (
                Complete { args, stage: CompleteStage::Closing },
                Action::Reply(Text::Error { before: "Error: ", error, after: "" }),
            ),
            Located::Here(found) => (
                Complete { args, stage: CompleteStage::UnderReviewLabel { found } },
                Action::ReadLabel(LabelSetting::UnderReview),
            ),
        }
    }

    fn closed(self, text: Text) -> (r: (Complete, Action))
        ensures
            r == self.close(text),
    {
        (Complete { args: self.args, stage: CompleteStage::Closing }, Action::Reply(text))
    }

    fn muted(self, found: Found, under_review: String) -> (r: (Complete, Action))
        ensures
            r == self.mute(found, under_review),
    {
        match found.discussion.disable_reminders_statement() {
            None => self.unlabeled(found, under_review),
            Some(statement) => (
                Complete { args: self.args, stage: CompleteStage::Muting { found, under_review } },
                Action::Database(statement),
            ),
        }
    }

    fn unlabeled(self, found: Found, under_review: String) -> (r: (Complete, Action))
        ensures
            r == self.unlabel(found, under_review),
    {
        let pr_id: u64 = found.discussion.pr_id;
        let label = under_review.clone();
        (
            Complete {
                args: self.args,
                stage: CompleteStage::RemovingUnderReview { found, under_review },
            },
            Action::RemoveLabel(pr_id, label),
        )
    }

    fn asked_changes_label(self, found: Found) -> (r: (Complete, Action))
        ensures
            r == self.ask_changes_label(found),
    {
        (
            Complete { args: self.args, stage: CompleteStage::ChangesLabel { found } },
            Action::ReadLabel(LabelSetting::ChangesRequested),
        )
    }

    fn announced(self, found: Found) -> (r: (Complete, Action))
        ensures
            r == self.announce(found),
    {
        let pr_id: u64 = found.discussion.pr_id;
        let comment = Comment::Consensus {
            outcome: self.args.outcome,
            comment: copy_text(&self.args.comment),
            by: self.args.author_name.clone(),
        };
        (
            Complete { args: self.args, stage: CompleteStage::Commenting { found } },
            Action::PostComment(pr_id, comment),
        )
    }

    fn archived(self, thread: ChannelId) -> (r: (Complete, Action))
        ensures
            r == self.archive(thread),
    {
        (
            Complete { args: self.args, stage: CompleteStage::Archiving },
            Action::EditThread(thread, ThreadEdit::Archive),
        )
    }
}

impl Run for Complete {
    fn step(self, answer: Answer) -> (r: (Self, Action)) {
        let denied = self.args.outcome == CrOutcome::Denied;
        let args = self.args;
        match (self.stage, answer) {
            (CompleteStage::New, Answer::Start) => {
                let lookup = ChannelLookup { thread: args.channel, stage: LookupStage::New };
                (Complete { args, stage: CompleteStage::Over }).located(lookup, Answer::Start)
            },
            (CompleteStage::Locating(lookup), answer) => (Complete {
                args,
                stage: CompleteStage::Over,
            }).located(lookup, answer),
            (CompleteStage::UnderReviewLabel { found }, Answer::LabelIs(label)) => match label {
                Some(under_review) => {
                    let wanted = if denied {
                        LabelSetting::Denied
                    } else {
                        LabelSetting::Approved
                    };
                    (
                        Complete {
                            args,
                            stage: CompleteStage::OutcomeLabel { found, under_review },
                        },
                        Action::ReadLabel(wanted),
                    )
                },
                None => (Complete { args, stage: CompleteStage::Over }).closed(
                    Text::Plain("Can't close with unset Under Review label."),
                ),
            },
            (CompleteStage::OutcomeLabel { found, under_review }, Answer::LabelIs(label)) => {
                match label {
                    Some(label) => (
                        Complete {
                            args,
                            stage: CompleteStage::Deferring { found, under_review, label },
                        },
                        Action::Defer,
                    ),
                    None => {
                        let reason = if denied {
                            "Can't close with unset CR Denied label."
                        } else {
                            "Can't close with unset CR Approved label."
                        };
                        (Complete { args, stage: CompleteStage::Over }).closed(Text::Plain(reason))
                    },
                }
            },
            (CompleteStage::Deferring { found, under_review, label }, Answer::Done) => {
                let pr_id: u64 = found.discussion.pr_id;
                (
                    Complete { args, stage: CompleteStage::Labeling { found, under_review } },
                    Action::AddLabel(pr_id, label),
                )
            },
            (CompleteStage::Labeling { found, under_review }, answer) => match answer {
                Answer::Done => if denied {
                    let pr_id: u64 = found.discussion.pr_id;
                    (
                        Complete { args, stage: CompleteStage::ClosingPull { found, under_review } },
                        Action::ClosePull(pr_id),
                    )
                } else {
                    (Complete { args, stage: CompleteStage::Over }).muted(found, under_review)
                },
                _ => {
                    let reason = if denied {
                        "Failed to add CR Denied GitHub label."
                    } else {
                        "Failed to add CR Approved GitHub label."
                    };
                    (Complete { args, stage: CompleteStage::Over }).closed(Text::Plain(reason))
                },
            },
            (CompleteStage::ClosingPull { found, under_review }, answer) => match answer {
                Answer::Done => (Complete { args, stage: CompleteStage::Over }).muted(
                    found,
                    under_review,
                ),
                // closing is not essential, the pull request is marked already
                _ => (
                    Complete { args, stage: CompleteStage::PullOpen { found, under_review } },
                    Action::Reply(Text::Plain("Failed to close PR.")),
                ),
            },
            (CompleteStage::PullOpen { found, under_review }, Answer::Done) => (Complete {
                args,
                stage: CompleteStage::Over,
            }).muted(found, under_review),
            (CompleteStage::Muting { found, under_review }, Answer::Written(written)) => {
                match written {
                    Ok(_) => {
                        let mut found = found;
                        let _ = found.discussion.disable_reminders(Ok(()));
                        (Complete { args, stage: CompleteStage::Over }).unlabeled(
                            found,
                            under_review,
                        )
                    },
                    Err(_) => (
                        Complete { args, stage: CompleteStage::NotMuted { found, under_review } },
                        Action::Reply(
                            Text::Error {
                                before: "Failed to disable reminders during closing: ",
                                error: HandledError::InternalError,
                                after: "",
                            },
                        ),
                    ),
                }
            },
            (CompleteStage::NotMuted { found, under_review }, Answer::Done) => (Complete {
                args,
                stage: CompleteStage::Over,
            }).unlabeled(found, under_review),
            (
                CompleteStage::RemovingUnderReview { found, under_review },
                Answer::LabelRemoval(removal),
            ) => match try_remove_label(under_review, removal) {
                Some(text) => (
                    Complete { args, stage: CompleteStage::UnderReviewKept { found } },
                    Action::Reply(text),
                ),
                None => (Complete { args, stage: CompleteStage::Over }).asked_changes_label(found),
            },
            (CompleteStage::UnderReviewKept { found }, Answer::Done) => (Complete {
                args,
                stage: CompleteStage::Over,
            }).asked_changes_label(found),
            (CompleteStage::ChangesLabel { found }, Answer::LabelIs(label)) => match label {
                Some(label) => {
                    let pr_id: u64 = found.discussion.pr_id;
                    let name = label.clone();
                    (
                        Complete { args, stage: CompleteStage::RemovingChanges { found, label } },
                        Action::RemoveLabel(pr_id, name),
                    )
                },
                None => (Complete { args, stage: CompleteStage::Over }).announced(found),
            },
            (
                CompleteStage::RemovingChanges { found, label },
                Answer::LabelRemoval(removal),
            ) => match try_remove_label(label, removal) {
                Some(text) => (
                    Complete { args, stage: CompleteStage::ChangesKept { found } },
                    Action::Reply(text),
                ),
                None => (Complete { args, stage: CompleteStage::Over }).announced(found),
            },
            (CompleteStage::ChangesKept { found }, Answer::Done) => (Complete {
                args,
                stage: CompleteStage::Over,
            }).announced(found),
            (CompleteStage::Commenting { found }, answer) => match answer {
                Answer::Done => {
                    let card = Card::Closed {
                        outcome: args.outcome,
                        comment: copy_text(&args.comment),
                        by: args.author_name.clone(),
                    };
                    (
                        Complete { args, stage: CompleteStage::Showing { found } },
                        Action::ReplyCard(card),
                    )
                },
                _ => (Complete { args, stage: CompleteStage::Over }).closed(
                    Text::Plain("Failed to create GitHub comment."),
                ),
            },
            (CompleteStage::Showing { found }, Answer::Done) => {
                let tag = match args.outcome {
                    CrOutcome::TestMerge => found.forum.tag_cr_test_merge,
                    CrOutcome::Approved => found.forum.tag_cr_approved,
                    CrOutcome::Denied => found.forum.tag_cr_denied,
                };
                let thread = found.channel.id;
                (
                    Complete { args, stage: CompleteStage::Tagging { thread } },
                    Action::EditThread(
                        thread,
                        ThreadEdit::AddTag {
                            applied: found.channel.applied_tags,
                            tag,
                            archive: false,
                        },
                    ),
                )
            },
            (CompleteStage::Tagging { thread }, answer) => match answer {
                Answer::Done => (Complete { args, stage: CompleteStage::Over }).archived(thread),
                _ => (
                    Complete { args, stage: CompleteStage::NotTagged { thread } },
                    Action::Reply(Text::Plain("Failed to label thread. Lacking permissions?")),
                ),
            },
            (CompleteStage::NotTagged { thread }, Answer::Done) => (Complete {
                args,
                stage: CompleteStage::Over,
            }).archived(thread),
            (CompleteStage::Archiving, answer) => match answer {
                Answer::Done => (Complete { args, stage: CompleteStage::Over }, Action::Finish),
                _ => (Complete { args, stage: CompleteStage::Over }).closed(
                    Text::Plain("Failed to archive thread. Lacking permissions?"),
                ),
            },
            (CompleteStage::Closing, Answer::Done) => (
                Complete { args, stage: CompleteStage::Over },
                Action::Finish,
            ),
            _ => (Complete { args, stage: CompleteStage::Over }, Action::Abort(None)),
        }
    }
}

impl Body for Complete {
    open spec fn needs() -> Permission {
        Permission::ContentReviewer
    }

    fn needed() -> (r: Permission) {
        Permission::ContentReviewer
    }
}

/// A step of the command that determines the outcome of the review, applies labels and notifies
/// the author.
pub fn cr_complete(run: Command<Complete>, answer: Answer) -> (r: (Command<Complete>, Action))
    ensures
        r == run.next(answer),
{
    run.step(answer)
}

proof fn lemma_args_stay(run: Complete, answers: Seq<Answer>)
    ensures
        after(run, answers).args == run.args,
    decreases answers.len(),
{
    if answers.len() > 0 {
        lemma_args_stay(run, answers.drop_last());
    }
}

/// Only denied pull requests are closed.
pub proof fn law_only_denied_pulls_are_closed(run: Complete, answers: Seq<Answer>)
    requires
        answers.len() > 0,
        action_on(run, answers) is ClosePull,
    ensures
        run.args.outcome == CrOutcome::Denied,
{
    lemma_args_stay(run, answers.drop_last());
}

/// What is written under the pull request and what is shown in the thread agree with the command:
/// its outcome, its comment and the one who gave it.
pub proof fn law_announcements_agree(run: Complete, answers: Seq<Answer>)
    requires
        answers.len() > 0,
    ensures
        match action_on(run, answers) {
            Action::PostComment(_, comment) => comment == (Comment::Consensus {
                outcome: run.args.outcome,
                comment: run.args.comment,
                by: run.args.author_name,
            }),
            Action::ReplyCard(card) => card == (Card::Closed {
                outcome: run.args.outcome,
                comment: run.args.comment,
                by: run.args.author_name,
            }),
            _ => true,
        },
{
    lemma_args_stay(run, answers.drop_last());
}

/// Adds a label to a pull request.
pub open spec fn adding(pr_id: u64, label: String) -> Action {
    Action::AddLabel(pr_id, label)
}

/// Removes a label from a pull request.
pub open spec fn removing(pr_id: u64, label: String) -> Action {
    Action::RemoveLabel(pr_id, label)
}

/// Whether a label was read from the settings.
pub open spec fn label_read<F: Flow>(
    run: F,
    answers: Seq<Answer>,
    setting: LabelSetting,
    label: String,
) -> bool {
    was_answered(run, answers, Action::ReadLabel(setting), Answer::LabelIs(Some(label)))
}

/// Whether the label of a setting was added to a pull request.
pub open spec fn label_added<F: Flow>(
    run: F,
    answers: Seq<Answer>,
    setting: LabelSetting,
    pr_id: u64,
) -> bool {
    exists|label: String|
        did(run, answers, #[trigger] adding(pr_id, label)) && label_read(
            run,
            answers,
            setting,
            label,
        )
}

/// Whether it was asked to remove the label of a setting from a pull request.
pub open spec fn label_removed<F: Flow>(
    run: F,
    answers: Seq<Answer>,
    setting: LabelSetting,
    pr_id: u64,
) -> bool {
    exists|label: String|
        did(run, answers, #[trigger] removing(pr_id, label)) && label_read(
            run,
            answers,
            setting,
            label,
        )
}

proof fn lemma_labels_stay<F: Flow>(
    run: F,
    answers: Seq<Answer>,
    setting: LabelSetting,
    pr_id: u64,
)
    requires
        answers.len() > 0,
    ensures
        label_added(run, answers.drop_last(), setting, pr_id) ==> label_added(
            run,
            answers,
            setting,
            pr_id,
        ),
        label_removed(run, answers.drop_last(), setting, pr_id) ==> label_removed(
            run,
            answers,
            setting,
            pr_id,
        ),
{
    let before = answers.drop_last();
    lemma_did(run, answers);
    lemma_answered(run, answers);
    if label_added(run, before, setting, pr_id) {
        let label = choose|label: String|
            did(run, before, #[trigger] adding(pr_id, label)) && label_read(
                run,
                before,
                setting,
                label,
            );
        assert(did(run, answers, adding(pr_id, label)));
        assert(label_read(run, answers, setting, label));
    }
    if label_removed(run, before, setting, pr_id) {
        let label = choose|label: String|
            did(run, before, #[trigger] removing(pr_id, label)) && label_read(
                run,
                before,
                setting,
                label,
            );
        assert(did(run, answers, removing(pr_id, label)));
        assert(label_read(run, answers, setting, label));
    }
}

/// The setting that holds the label for an outcome.
pub open spec fn outcome_setting(outcome: CrOutcome) -> LabelSetting {
    if outcome == CrOutcome::Denied {
        LabelSetting::Denied
    } else {
        LabelSetting::Approved
    }
}

impl Complete {
    /// Whether the pull request got the label of its outcome and was asked to be closed exactly
    /// if it is denied.
    pub open spec fn marked(self, answers: Seq<Answer>, pr_id: u64) -> bool {
        &&& label_added(self, answers, outcome_setting(self.args.outcome), pr_id)
        &&& self.args.outcome == CrOutcome::Denied <==> did(
            self,
            answers,
            Action::ClosePull(pr_id),
        )
    }

    /// Whether the pull request was released from its review: no reminder is left, or they were
    /// told to stop, and the label of a review was asked to be taken away.
    pub open spec fn released(self, answers: Seq<Answer>, found: Found) -> bool {
        &&& found.discussion.review_days_next_micros is None || self.silenced(answers, found)
        &&& label_removed(self, answers, LabelSetting::UnderReview, found.discussion.pr_id)
    }

    /// Whether the reminders were told to stop.
    pub open spec fn silenced(self, answers: Seq<Answer>, found: Found) -> bool {
        did(
            self,
            answers,
            Action::Database(
                Statement::ClearNextReminder { pr_id: column_of(found.discussion.pr_id) },
            ),
        )
    }

    /// Whether the label of a request for changes was asked to be taken away, or none is set.
    pub open spec fn settled(self, answers: Seq<Answer>, pr_id: u64) -> bool {
        ||| was_answered(
            self,
            answers,
            Action::ReadLabel(LabelSetting::ChangesRequested),
            Answer::LabelIs(None),
        )
        ||| label_removed(self, answers, LabelSetting::ChangesRequested, pr_id)
    }

    /// Whether the outcome was written under the pull request.
    pub open spec fn wrote_outcome(self, answers: Seq<Answer>, pr_id: u64) -> bool {
        did(
            self,
            answers,
            Action::PostComment(
                pr_id,
                Comment::Consensus {
                    outcome: self.args.outcome,
                    comment: self.args.comment,
                    by: self.args.author_name,
                },
            ),
        )
    }

    /// Whether the pull request was marked and released.
    pub open spec fn parted(self, answers: Seq<Answer>, found: Found) -> bool {
        self.marked(answers, found.discussion.pr_id) && self.released(answers, found)
    }

    /// Whether the review of a pull request is over everywhere but in its thread.
    pub open spec fn concluded(self, answers: Seq<Answer>, found: Found) -> bool {
        &&& self.marked(answers, found.discussion.pr_id)
        &&& self.released(answers, found)
        &&& self.settled(answers, found.discussion.pr_id)
        &&& self.wrote_outcome(answers, found.discussion.pr_id)
    }

    /// What the run has done after some answers.
    pub open spec fn has_done(self, first: Complete, answers: Seq<Answer>) -> bool {
        match self.stage {
            CompleteStage::UnderReviewLabel { .. } => {
                &&& answers.len() > 0
                &&& action_on(first, answers) == Action::ReadLabel(LabelSetting::UnderReview)
            },
            CompleteStage::OutcomeLabel { under_review, .. } => {
                &&& answers.len() > 0
                &&& action_on(first, answers) == Action::ReadLabel(
                    outcome_setting(first.args.outcome),
                )
                &&& label_read(first, answers, LabelSetting::UnderReview, under_review)
            },
            CompleteStage::Deferring { under_review, label, .. } => {
                &&& label_read(first, answers, outcome_setting(first.args.outcome), label)
                &&& label_read(first, answers, LabelSetting::UnderReview, under_review)
            },
            CompleteStage::Labeling { found, under_review } => {
                &&& label_added(
                    first,
                    answers,
                    outcome_setting(first.args.outcome),
                    found.discussion.pr_id,
                )
                &&& label_read(first, answers, LabelSetting::UnderReview, under_review)
            },
            CompleteStage::ClosingPull { found, under_review } => {
                &&& first.marked(answers, found.discussion.pr_id)
                &&& label_read(first, answers, LabelSetting::UnderReview, under_review)
            },
            CompleteStage::PullOpen { found, under_review } => {
                &&& first.marked(answers, found.discussion.pr_id)
                &&& label_read(first, answers, LabelSetting::UnderReview, under_review)
            },
            CompleteStage::Muting { found, under_review } => {
                &&& first.marked(answers, found.discussion.pr_id)
                &&& first.silenced(answers, found)
                &&& label_read(first, answers, LabelSetting::UnderReview, under_review)
            },
            CompleteStage::NotMuted { found, under_review } => {
                &&& first.marked(answers, found.discussion.pr_id)
                &&& first.silenced(answers, found)
                &&& label_read(first, answers, LabelSetting::UnderReview, under_review)
            },
            CompleteStage::RemovingUnderReview { found, .. } => first.parted(answers, found),
            CompleteStage::UnderReviewKept { found } => first.parted(answers, found),
            CompleteStage::ChangesLabel { found } => {
                &&& answers.len() > 0
                &&& action_on(first, answers) == Action::ReadLabel(LabelSetting::ChangesRequested)
                &&& first.parted(answers, found)
            },
            CompleteStage::RemovingChanges { found, .. } => {
                &&& first.parted(answers, found)
                &&& first.settled(answers, found.discussion.pr_id)
            },
            CompleteStage::ChangesKept { found } => {
                &&& first.parted(answers, found)
                &&& first.settled(answers, found.discussion.pr_id)
            },
            CompleteStage::Commenting { found } => first.concluded(answers, found),
            CompleteStage::Showing { found } => first.concluded(answers, found),
            _ => true,
        }
    }
}

proof fn lemma_only_denied_close(first: Complete, answers: Seq<Answer>)
    ensures
        forall|pr_id: u64| #[trigger]
            did(first, answers, Action::ClosePull(pr_id)) ==> first.args.outcome
                == CrOutcome::Denied,
    decreases answers.len(),
{
    if answers.len() > 0 {
        lemma_only_denied_close(first, answers.drop_last());
        lemma_did_before(first, answers);
        if action_on(first, answers) is ClosePull {
            law_only_denied_pulls_are_closed(first, answers);
        }
    } else {
        reveal(did);
    }
}

proof fn lemma_done_stays(first: Complete, answers: Seq<Answer>)
    requires
        answers.len() > 0,
    ensures
        forall|pr_id: u64| #[trigger]
            first.marked(answers.drop_last(), pr_id) ==> first.marked(answers, pr_id),
        forall|found: Found| #[trigger]
            first.released(answers.drop_last(), found) ==> first.released(answers, found),
        forall|pr_id: u64| #[trigger]
            first.settled(answers.drop_last(), pr_id) ==> first.settled(answers, pr_id),
{
    let before = answers.drop_last();
    lemma_did(first, answers);
    lemma_answered(first, answers);
    lemma_only_denied_close(first, answers);
    assert forall|pr_id: u64| #[trigger] first.marked(before, pr_id) implies first.marked(
        answers,
        pr_id,
    ) by {
        lemma_labels_stay(first, answers, outcome_setting(first.args.outcome), pr_id);
    }
    assert forall|found: Found| #[trigger] first.released(before, found) implies first.released(
        answers,
        found,
    ) by {
        lemma_labels_stay(first, answers, LabelSetting::UnderReview, found.discussion.pr_id);
    }
    assert forall|pr_id: u64| #[trigger] first.settled(before, pr_id) implies first.settled(
        answers,
        pr_id,
    ) by {
        lemma_labels_stay(first, answers, LabelSetting::ChangesRequested, pr_id);
    }
}

#[verifier::rlimit(60)]
proof fn lemma_completion_does(first: Complete, answers: Seq<Answer>)
    requires
        first.stage is New,
    ensures
        after(first, answers).has_done(first, answers),
    decreases answers.len(),
{
    if answers.len() > 0 {
        let before = answers.drop_last();
        lemma_completion_does(first, before);
        lemma_args_stay(first, before);
        lemma_did(first, answers);
        lemma_answered(first, answers);
        lemma_done_stays(first, answers);
        lemma_only_denied_close(first, answers);
        let now = after(first, before);
        let action = now.next(answers.last()).1;
        assert(did(first, answers, action));
        match action {
            Action::AddLabel(pr_id, label) => {
                assert(did(first, answers, adding(pr_id, label)));
            },
            Action::RemoveLabel(pr_id, label) => {
                assert(did(first, answers, removing(pr_id, label)));
            },
            _ => {},
        }
        if let CompleteStage::Labeling { found, .. } = now.stage {
            lemma_labels_stay(
                first,
                answers,
                outcome_setting(first.args.outcome),
                found.discussion.pr_id,
            );
        }
    }
}

/// When the outcome of a review is shown in its thread, the review is over everywhere: the pull
/// request got the label that is set for its outcome, was asked to be closed exactly if it is
/// denied, has no reminder that was not told to stop, and the outcome is written under it; the
/// labels of a review and of a request for changes were asked to be removed. The thread then gets
/// the tag of the outcome.
pub proof fn law_completed_review_is_over(run: Complete, answers: Seq<Answer>)
    requires
        run.stage is New,
    ensures
        after(run, answers).stage matches CompleteStage::Showing { found } ==> run.concluded(
            answers,
            found,
        ),
        answers.len() > 0 ==> match action_on(run, answers) {
            Action::EditThread(thread, ThreadEdit::AddTag { applied, tag, archive }) => {
                exists|found: Found|
                    {
                        &&& #[trigger] run.concluded(answers.drop_last(), found)
                        &&& thread == found.channel.id
                        &&& applied == found.channel.applied_tags
                        &&& tag == outcome_tag(found, run.args.outcome)
                        &&& !archive
                    }
            },
            _ => true,
        },
{
    lemma_completion_does(run, answers);
    if answers.len() > 0 {
        let before = answers.drop_last();
        lemma_completion_does(run, before);
        lemma_args_stay(run, before);
        if let CompleteStage::Showing { found } = after(run, before).stage {
            assert(run.concluded(before, found));
        }
    }
}

/// No label is added to a pull request but the one that is set for the outcome of its review.
pub proof fn law_only_outcome_labels_are_added(
    run: Complete,
    answers: Seq<Answer>,
    pr_id: u64,
    label: String,
)
    requires
        run.stage is New,
        did(run, answers, Action::AddLabel(pr_id, label)),
    ensures
        label_read(run, answers, outcome_setting(run.args.outcome), label),
    decreases answers.len(),
{
    if answers.len() > 0 {
        let before = answers.drop_last();
        lemma_did_before(run, answers);
        lemma_answered(run, answers);
        if did(run, before, Action::AddLabel(pr_id, label)) {
            law_only_outcome_labels_are_added(run, before, pr_id, label);
        } else {
            lemma_completion_does(run, before);
        }
    } else {
        reveal(did);
    }
}

/// The search of a command for its discussion: the channel must be a thread of a registered forum
/// with a discussion, and each thing that is missing is told.
pub proof fn law_completion_finds_its_discussion(
    run: Complete,
    channel: GuildChannel,
    parent: ChannelId,
    forum: ForumRecord,
    row: DiscussionRow,
)
    requires
        run.stage is New,
        channel.parent == Some(parent),
    ensures
        ({
            let (r1, a1) = run.next(Answer::Start);
            let (r2, a2) = r1.next(Answer::Channel(Some(channel)));
            let (r3, a3) = r2.next(Answer::Forum(Some(forum)));
            let (r4, a4) = r3.next(Answer::Discussion(Ok(row)));
            &&& a1 == Action::CurrentChannel
            &&& a2 == Action::Database(Statement::SelectForum { channel_id: column_of(parent@) })
            &&& a3 == Action::Database(
                Statement::SelectDiscussionByThread { thread_id: column_of(run.args.channel@) },
            )
            &&& a4 == Action::ReadLabel(LabelSetting::UnderReview)
            &&& closes_with_error(
                r1.next(Answer::Channel(None)),
                "Error: ",
                HandledError::UserfacingError("Must be in a guild channel."),
            )
            &&& forall|loose: GuildChannel|
                loose.parent is None ==> closes_with_error(
                    #[trigger] r1.next(Answer::Channel(Some(loose))),
                    "Error: ",
                    HandledError::UserfacingError("Must be in a forum channel."),
                )
            &&& closes_with_error(
                r2.next(Answer::Forum(None)),
                "Error: ",
                HandledError::UserfacingError("Must be in a registered CR forum."),
            )
            &&& forall|error: DbError|
                closes_with_error(
                    #[trigger] r3.next(Answer::Discussion(Err(error))),
                    "Error: ",
                    HandledError::UserfacingError("There is no PR associated with this thread."),
                )
        }),
{
}

/// A review is completed as the command says, for every pull request, outcome, comment and label:
/// the label of the outcome is added, a denied pull request is closed, the reminders stop if there
/// are any, the labels of a review and of a request for changes go, the outcome is written under the
/// pull request and shown in the thread, and the thread is tagged for the outcome and archived.
/// What fails is told; only what must not be missing ends the command.
pub proof fn law_review_is_completed_as_asked(
    run: Complete,
    channel: GuildChannel,
    parent: ChannelId,
    forum: ForumRecord,
    row: DiscussionRow,
    under_review: String,
    label: String,
    first_removal: LabelRemoval,
    changes: Option<String>,
    second_removal: LabelRemoval,
)
    requires
        run.stage is New,
        channel.parent == Some(parent),
        first_removal != LabelRemoval::Refused(410),
        second_removal != LabelRemoval::Refused(410),
    ensures
        ({
            let denied = run.args.outcome is Denied;
            let timed = row.review_days_next_micros is Some;
            let pr_id = value_of(row.pr_id);
            let r4 = run.next(Answer::Start).0.next(Answer::Channel(Some(channel))).0.next(
                Answer::Forum(Some(forum)),
            ).0.next(Answer::Discussion(Ok(row))).0;
            let (r5, a5) = r4.next(Answer::LabelIs(Some(under_review)));
            let (r6, a6) = r5.next(Answer::LabelIs(Some(label)));
            let (r7, a7) = r6.next(Answer::Done);
            let (r8, a8) = r7.next(Answer::Done);
            let (r9, a9) = if denied {
                r8.next(Answer::Done)
            } else {
                (r8, a8)
            };
            let (r10, a10) = if timed {
                r9.next(Answer::Written(Ok(())))
            } else {
                (r9, a9)
            };
            let (r11, a11) = r10.next(Answer::LabelRemoval(first_removal));
            let (r12, a12) = r11.next(Answer::LabelIs(changes));
            let (r13, a13) = if changes is Some {
                r12.next(Answer::LabelRemoval(second_removal))
            } else {
                (r12, a12)
            };
            let (r14, a14) = r13.next(Answer::Done);
            let (r15, a15) = r14.next(Answer::Done);
            let (r16, a16) = r15.next(Answer::Done);
            let (r17, a17) = r16.next(Answer::Done);
            &&& denied ==> a5 == Action::ReadLabel(LabelSetting::Denied)
            &&& !denied ==> a5 == Action::ReadLabel(LabelSetting::Approved)
            &&& a6 == Action::Defer
            &&& a7 == Action::AddLabel(pr_id, label)
            &&& denied ==> a8 == Action::ClosePull(pr_id)
            &&& timed ==> a9 == Action::Database(
                Statement::ClearNextReminder { pr_id: row.pr_id },
            )
            &&& a10 == Action::RemoveLabel(pr_id, under_review)
            &&& a11 == Action::ReadLabel(LabelSetting::ChangesRequested)
            &&& changes is Some ==> a12 == Action::RemoveLabel(pr_id, changes->0)
            &&& a13 == Action::PostComment(
                pr_id,
                Comment::Consensus {
                    outcome: run.args.outcome,
                    comment: run.args.comment,
                    by: run.args.author_name,
                },
            )
            &&& a14 == Action::ReplyCard(
                Card::Closed {
                    outcome: run.args.outcome,
                    comment: run.args.comment,
                    by: run.args.author_name,
                },
            )
            &&& a15 == Action::EditThread(
                channel.id,
                ThreadEdit::AddTag {
                    applied: channel.applied_tags,
                    tag: match run.args.outcome {
                        CrOutcome::TestMerge => forum.tag_cr_test_merge,
                        CrOutcome::Approved => forum.tag_cr_approved,
                        CrOutcome::Denied => forum.tag_cr_denied,
                    },
                    archive: false,
                },
            )
            &&& a16 == Action::EditThread(channel.id, ThreadEdit::Archive)
            &&& a17 == Action::Finish
            // what ends the command
            &&& r6.next(Answer::Failed).1 == Action::Abort(None)
            &&& r14.next(Answer::Failed).1 == Action::Abort(None)
            &&& closes_with(
                r4.next(Answer::LabelIs(None)),
                Text::Plain("Can't close with unset Under Review label."),
            )
            &&& denied ==> closes_with(
                r5.next(Answer::LabelIs(None)),
                Text::Plain("Can't close with unset CR Denied label."),
            )
            &&& !denied ==> closes_with(
                r5.next(Answer::LabelIs(None)),
                Text::Plain("Can't close with unset CR Approved label."),
            )
            &&& denied ==> closes_with(
                r7.next(Answer::Failed),
                Text::Plain("Failed to add CR Denied GitHub label."),
            )
            &&& !denied ==> closes_with(
                r7.next(Answer::Failed),
                Text::Plain("Failed to add CR Approved GitHub label."),
            )
            &&& closes_with(
                r13.next(Answer::Failed),
                Text::Plain("Failed to create GitHub comment."),
            )
            &&& closes_with(
                r16.next(Answer::Failed),
                Text::Plain("Failed to archive thread. Lacking permissions?"),
            )
            // what is told on the way
            &&& denied ==> {
                let (told, telling) = r8.next(Answer::Failed);
                &&& telling == Action::Reply(Text::Plain("Failed to close PR."))
                &&& told.next(Answer::Done) == (r9, a9)
            }
            &&& timed ==> forall|error: DbError|
                {
                    let (told, telling) = #[trigger] r9.next(Answer::Written(Err(error)));
                    &&& telling == Action::Reply(
                        Text::Error {
                            before: "Failed to disable reminders during closing: ",
                            error: HandledError::InternalError,
                            after: "",
                        },
                    )
                    &&& told.next(Answer::Done).1 == a10
                }
            &&& {
                let (told, telling) = r10.next(
                    Answer::LabelRemoval(LabelRemoval::Refused(410)),
                );
                &&& telling == Action::Reply(Text::LabelNotRemoved(under_review))
                &&& told.next(Answer::Done) == (r11, a11)
            }
            &&& changes is Some ==> {
                let (told, telling) = r12.next(
                    Answer::LabelRemoval(LabelRemoval::Refused(410)),
                );
                &&& telling == Action::Reply(Text::LabelNotRemoved(changes->0))
                &&& told.next(Answer::Done) == (r13, a13)
            }
            &&& {
                let (told, telling) = r15.next(Answer::Failed);
                &&& telling == Action::Reply(
                    Text::Plain("Failed to label thread. Lacking permissions?"),
                )
                &&& told.next(Answer::Done) == (r16, a16)
            }
        }),
{
    crate::discord::ids::law_value_round_trip(row.pr_id);
}

/// Whether what a command did went well: the answer is of the kind that the action asks for, and
/// tells of success. That no label is set for a request for changes is no failure.
pub open spec fn went_well(action: Action, answer: Answer) -> bool {
    match action {
        Action::CurrentChannel => answer matches Answer::Channel(Some(channel))
            && channel.parent is Some,
        Action::Database(Statement::SelectForum { .. }) => answer matches Answer::Forum(Some(_)),
        Action::Database(Statement::SelectDiscussionByThread { .. }) => answer matches
            Answer::Discussion(Ok(_)),
        Action::Database(_) => answer matches Answer::Written(Ok(_)),
        Action::ReadLabel(setting) => answer matches Answer::LabelIs(label) && (label is Some
            || setting == LabelSetting::ChangesRequested),
        Action::RemoveLabel(_, _) => answer == Answer::LabelRemoval(LabelRemoval::Removed),
        Action::Finish => false,
        _ => answer is Done,
    }
}

/// Whether a run began at its beginning and all that it did went well.
pub open spec fn unhindered<F: Flow>(run: F, answers: Seq<Answer>) -> bool {
    &&& answers.len() > 0 ==> answers[0] is Start
    &&& forall|n: int|
        0 < n < answers.len() ==> went_well(#[trigger] action_on(run, answers.take(n)), answers[n])
}

proof fn lemma_unhindered<F: Flow>(run: F, answers: Seq<Answer>)
    requires
        unhindered(run, answers),
        answers.len() > 0,
    ensures
        unhindered(run, answers.drop_last()),
        answers.len() > 1 ==> went_well(action_on(run, answers.drop_last()), answers.last()),
        answers.len() == 1 ==> answers.last() is Start,
{
    let before = answers.drop_last();
    assert forall|n: int| 0 < n < before.len() implies went_well(
        #[trigger] action_on(run, before.take(n)),
        before[n],
    ) by {
        assert(before.take(n) =~= answers.take(n));
        assert(went_well(action_on(run, answers.take(n)), answers[n]));
    }
    if answers.len() > 1 {
        let n = answers.len() - 1;
        assert(answers.take(n) =~= before);
        assert(went_well(action_on(run, answers.take(n)), answers[n]));
    }
}

impl Complete {
    /// Whether the thread of a discussion was tagged for the outcome.
    pub open spec fn tagged(self, answers: Seq<Answer>, found: Found) -> bool {
        did(
            self,
            answers,
            Action::EditThread(
                found.channel.id,
                ThreadEdit::AddTag {
                    applied: found.channel.applied_tags,
                    tag: outcome_tag(found, self.args.outcome),
                    archive: false,
                },
            ),
        )
    }

    /// Whether the review of a pull request is over: it is concluded, and its thread is tagged and
    /// in the archive.
    pub open spec fn completed(self, answers: Seq<Answer>) -> bool {
        exists|found: Found|
            {
                &&& #[trigger] self.concluded(answers, found)
                &&& self.tagged(answers, found)
                &&& did(self, answers, Action::EditThread(found.channel.id, ThreadEdit::Archive))
            }
    }

    /// What the run has done in the thread after some answers.
    pub open spec fn has_put_away(self, first: Complete, answers: Seq<Answer>) -> bool {
        match self.stage {
            CompleteStage::Tagging { thread } => exists|found: Found|
                {
                    &&& #[trigger] first.concluded(answers, found)
                    &&& first.tagged(answers, found)
                    &&& found.channel.id == thread
                },
            CompleteStage::NotTagged { thread } => exists|found: Found|
                {
                    &&& #[trigger] first.concluded(answers, found)
                    &&& first.tagged(answers, found)
                    &&& found.channel.id == thread
                },
            CompleteStage::Archiving => {
                &&& answers.len() > 0
                &&& action_on(first, answers) matches Action::EditThread(_, ThreadEdit::Archive)
                &&& first.completed(answers)
            },
            CompleteStage::Closing => answers.len() > 0 && action_on(first, answers) is Reply,
            _ => true,
        }
    }

    /// What a run waits for while nothing has failed, and how many answers it has got.
    pub open spec fn is_underway(self, first: Complete, answers: Seq<Answer>) -> bool {
        let action = action_on(first, answers);
        let n = answers.len();
        match self.stage {
            CompleteStage::New => n == 0,
            CompleteStage::Locating(lookup) => match lookup.stage {
                LookupStage::New => false,
                LookupStage::Channel => n == 1 && action is CurrentChannel,
                LookupStage::Forum { .. } => n == 2 && action matches Action::Database(
                    Statement::SelectForum { .. },
                ),
                LookupStage::Discussion { .. } => n == 3 && action matches Action::Database(
                    Statement::SelectDiscussionByThread { .. },
                ),
            },
            CompleteStage::UnderReviewLabel { .. } => n == 4 && action == Action::ReadLabel(
                LabelSetting::UnderReview,
            ),
            CompleteStage::OutcomeLabel { .. } => n == 5 && action == Action::ReadLabel(
                outcome_setting(first.args.outcome),
            ),
            CompleteStage::Deferring { .. } => n == 6 && action is Defer,
            CompleteStage::Labeling { .. } => n == 7 && action is AddLabel,
            CompleteStage::ClosingPull { .. } => n == 8 && action is ClosePull,
            CompleteStage::Muting { .. } => n <= 9 && action matches Action::Database(
                Statement::ClearNextReminder { .. },
            ),
            CompleteStage::RemovingUnderReview { .. } => n <= 10 && action is RemoveLabel,
            CompleteStage::ChangesLabel { .. } => n <= 11 && action is ReadLabel,
            CompleteStage::RemovingChanges { .. } => n <= 12 && action is RemoveLabel,
            CompleteStage::Commenting { .. } => n <= 13 && action is PostComment,
            CompleteStage::Showing { .. } => n <= 14 && action is ReplyCard,
            CompleteStage::Tagging { .. } => n <= 15 && action is EditThread,
            CompleteStage::Archiving => n <= 16 && action is EditThread,
            CompleteStage::Over => n <= 17 && action is Finish,
            _ => false,
        }
    }
}

proof fn lemma_concluded_stays(first: Complete, answers: Seq<Answer>, found: Found)
    requires
        answers.len() > 0,
        first.concluded(answers.drop_last(), found),
    ensures
        first.concluded(answers, found),
{
    lemma_did(first, answers);
    lemma_done_stays(first, answers);
}

proof fn lemma_completion_puts_away(first: Complete, answers: Seq<Answer>)
    requires
        first.stage is New,
    ensures
        after(first, answers).has_put_away(first, answers),
    decreases answers.len(),
{
    if answers.len() > 0 {
        let before = answers.drop_last();
        let now = after(first, before);
        lemma_completion_puts_away(first, before);
        lemma_completion_does(first, before);
        lemma_args_stay(first, before);
        lemma_did(first, answers);
        assert(did(first, answers, now.next(answers.last()).1));
        match now.stage {
            CompleteStage::Showing { found } => {
                lemma_concluded_stays(first, answers, found);
                if answers.last() is Done {
                    assert(first.concluded(answers, found) && first.tagged(answers, found));
                }
            },
            CompleteStage::Tagging { thread } => {
                let found = choose|found: Found|
                    {
                        &&& #[trigger] first.concluded(before, found)
                        &&& first.tagged(before, found)
                        &&& found.channel.id == thread
                    };
                lemma_concluded_stays(first, answers, found);
                assert(first.tagged(answers, found));
            },
            CompleteStage::NotTagged { thread } => {
                let found = choose|found: Found|
                    {
                        &&& #[trigger] first.concluded(before, found)
                        &&& first.tagged(before, found)
                        &&& found.channel.id == thread
                    };
                lemma_concluded_stays(first, answers, found);
                assert(first.tagged(answers, found));
            },
            _ => {},
        }
    }
}

/// A completion never ends in silence, whatever the answers are: when it finishes, it has just told
/// the user something, or else the review is over everywhere: concluded, and the thread tagged for
/// the outcome and just put into the archive.
pub proof fn law_completion_finishes_when_over(run: Complete, answers: Seq<Answer>)
    requires
        run.stage is New,
        answers.len() > 0,
        action_on(run, answers) is Finish,
    ensures
        answers.len() > 1,
        answers.last() is Done,
        !(action_on(run, answers.drop_last()) is Reply) ==> {
            &&& action_on(run, answers.drop_last()) matches Action::EditThread(
                _,
                ThreadEdit::Archive,
            )
            &&& run.completed(answers.drop_last())
        },
{
    let before = answers.drop_last();
    lemma_completion_puts_away(run, before);
    match after(run, before).stage {
        CompleteStage::Locating(lookup) => {
            assert(!(lookup.next(answers.last()) matches Located::Ask(_, Action::Finish)));
        },
        _ => {},
    }
}

proof fn lemma_completion_underway(first: Complete, answers: Seq<Answer>)
    requires
        first.stage is New,
        unhindered(first, answers),
    ensures
        after(first, answers).is_underway(first, answers),
    decreases answers.len(),
{
    if answers.len() > 0 {
        let before = answers.drop_last();
        lemma_unhindered(first, answers);
        lemma_completion_underway(first, before);
        lemma_args_stay(first, before);
    }
}

/// While nothing fails, a completion tells of nothing that went wrong and goes on; it comes to its
/// end within 17 answers, and then the review is over everywhere.
pub proof fn law_unhindered_completion_gets_there(run: Complete, answers: Seq<Answer>)
    requires
        run.stage is New,
        answers.len() > 0,
        unhindered(run, answers),
    ensures
        answers.len() <= 17,
        !(action_on(run, answers) is Reply),
        action_on(run, answers).ends() ==> {
            &&& action_on(run, answers) is Finish
            &&& run.completed(answers.drop_last())
        },
{
    let before = answers.drop_last();
    lemma_unhindered(run, answers);
    lemma_completion_underway(run, before);
    lemma_completion_underway(run, answers);
    if action_on(run, answers) is Finish {
        law_completion_finishes_when_over(run, answers);
    }
}

/// A request for changes.
#[derive(Debug)]
pub struct RequestChanges {
    pub args: RequestArgs,
    pub stage: RequestStage,
}

/// What the command was given.
#[derive(Debug)]
pub struct RequestArgs {
    /// The channel that the command was given in.
    pub channel: ChannelId,
    pub author_name: String,
}

/// How far the request has got.
#[derive(Debug)]
pub enum RequestStage {
    New,
    Locating(ChannelLookup),
    UnderReviewLabel { found: Found },
    ChangesLabel { found: Found, under_review: String },
    Form { found: Found, under_review: String, changes: String },
    Commenting { found: Found, under_review: String, changes: String, description: String },
    Showing { found: Found, under_review: String, changes: String },
    Labeling { found: Found, under_review: String },
    Removing { found: Found, under_review: String },
    /// Telling that the label could not be removed.
    Kept { found: Found },
    Muting,
    /// The last reply is under way.
    Closing,
    Over,
}

impl RequestChanges {
    /// The run at another stage.
    pub open spec fn at(self, stage: RequestStage) -> RequestChanges {
        RequestChanges { stage, ..self }
    }

    /// Ends with a reply.
    pub open spec fn close(self, text: Text) -> (RequestChanges, Action) {
        (self.at(RequestStage::Closing), Action::Reply(text))
    }

    /// Does a step of the search for the discussion, and asks for the first label once it is found.
    pub open spec fn locate(self, lookup: ChannelLookup, answer: Answer) -> (
        RequestChanges,
        Action,
    ) {
        match lookup.next(answer) {
            Located::Ask(later, action) => (self.at(RequestStage::Locating(later)), action),
            Located::Lost(error) => self.close(
                Text::Error { before: "Error: ", error, after: "" },
            ),
            Located::Here(found) => (
                self.at(RequestStage::UnderReviewLabel { found }),
                Action::ReadLabel(LabelSetting::UnderReview),
            ),
        }
    }

    /// Shows the request in the thread.
    pub open spec fn show(
        self,
        found: Found,
        under_review: String,
        changes: String,
        description: String,
    ) -> (RequestChanges, Action) {
        (
            self.at(RequestStage::Showing { found, under_review, changes }),
            Action::ReplyCard(
                Card::ChangesRequested { description, by: self.args.author_name },
            ),
        )
    }

    /// Stops the reminders, if there are any.
    pub open spec fn mute(self, found: Found) -> (RequestChanges, Action) {
        if found.discussion.review_days_next_micros is None {
            (self.at(RequestStage::Over), Action::Finish)
        } else {
            (
                self.at(RequestStage::Muting),
                Action::Database(
                    Statement::ClearNextReminder { pr_id: column_of(found.discussion.pr_id) },
                ),
            )
        }
    }
}

impl Flow for RequestChanges {
    open spec fn next(self, answer: Answer) -> (Self, Action) {
        match (self.stage, answer) {
            (RequestStage::New, Answer::Start) => self.locate(
                ChannelLookup { thread: self.args.channel, stage: LookupStage::New },
                answer,
            ),
            (RequestStage::Locating(lookup), _) => self.locate(lookup, answer),
            (RequestStage::UnderReviewLabel { found }, Answer::LabelIs(Some(under_review))) => (
                self.at(RequestStage::ChangesLabel { found, under_review }),
                Action::ReadLabel(LabelSetting::ChangesRequested),
            ),
            (RequestStage::UnderReviewLabel { .. }, Answer::LabelIs(None)) => self.close(
                Text::Plain("Can't process change request with under review label unset."),
            ),
            (
                RequestStage::ChangesLabel { found, under_review },
                Answer::LabelIs(Some(changes)),
            ) => (
                self.at(RequestStage::Form { found, under_review, changes }),
                Action::ShowChangesForm,
            ),
            (RequestStage::ChangesLabel { .. }, Answer::LabelIs(None)) => self.close(
                Text::Plain("Can't process change request with changes requested label unset."),
            ),
            (
                RequestStage::Form { found, under_review, changes },
                Answer::ChangesForm(Ok(Some(description))),
            ) => if description@.len() == 0 {
                self.show(found, under_review, changes, description)
            } else {
                (
                    self.at(
                        RequestStage::Commenting { found, under_review, changes, description },
                    ),
                    Action::PostComment(
                        found.discussion.pr_id,
                        Comment::ChangesRequested { description, by: self.args.author_name },
                    ),
                )
            },
            (RequestStage::Form { .. }, Answer::ChangesForm(Ok(None))) => self.close(
                Text::Plain("Modal timed out."),
            ),
            (
                RequestStage::Commenting { found, under_review, changes, description },
                Answer::Done,
            ) => self.show(found, under_review, changes, description),
            (RequestStage::Commenting { .. }, _) => self.close(
                Text::Plain("Failed to create GitHub comment"),
            ),
            (RequestStage::Showing { found, under_review, changes }, Answer::Done) => (
                self.at(RequestStage::Labeling { found, under_review }),
                Action::AddLabel(found.discussion.pr_id, changes),
            ),
            (RequestStage::Labeling { found, under_review }, Answer::Done) => (
                self.at(RequestStage::Removing { found, under_review }),
                Action::RemoveLabel(found.discussion.pr_id, under_review),
            ),
            (RequestStage::Labeling { .. }, _) => self.close(
                Text::Plain("Failed to set changes requested label"),
            ),
            (
                RequestStage::Removing { found, under_review },
                Answer::LabelRemoval(removal),
            ) => if removal == LabelRemoval::Refused(GONE) {
                (
                    self.at(RequestStage::Kept { found }),
                    Action::Reply(Text::LabelNotRemoved(under_review)),
                )
            } else {
                self.mute(found)
            },
            (RequestStage::Kept { found }, Answer::Done) => self.mute(found),
            (RequestStage::Muting, Answer::Written(Ok(_))) => (
                self.at(RequestStage::Over),
                Action::Finish,
            ),
            (RequestStage::Muting, Answer::Written(Err(_))) => self.close(
                Text::Error {
                    before: "Failed to disable reminders upon change request: ",
                    error: HandledError::InternalError,
                    after: "",
                },
            ),
            (RequestStage::Closing, Answer::Done) => (
                self.at(RequestStage::Over),
                Action::Finish,
            ),
            _ => (self.at(RequestStage::Over), Action::Abort(None)),
        }
    }
}

impl RequestChanges {
    fn closed(self, text: Text) -> (r: (RequestChanges, Action))
        ensures
            r == self.close(text),
    {
        (RequestChanges { args: self.args, stage: RequestStage::Closing }, Action::Reply(text))
    }

    fn located(self, lookup: ChannelLookup, answer: Answer) -> (r: (RequestChanges, Action))
        ensures
            r == self.locate(lookup, answer),
    {
        let args = self.args;
        match get_channel_discussion(lookup, answer) {
            Located::Ask(later, action) => (
                RequestChanges { args, stage: RequestStage::Locating(later) },
                action,
            ),
            Located::Lost(error) => (
                RequestChanges { args, stage: RequestStage::Closing },
                Action::Reply(Text::Error { before: "Error: ", error, after: "" }),
            ),
            Located::Here(found) => (
                RequestChanges { args, stage: RequestStage::UnderReviewLabel { found } },
                Action::ReadLabel(LabelSetting::UnderReview),
            ),
        }
    }

    fn shown(self, found: Found, under_review: String, changes: String, description: String) -> (r: (
        RequestChanges,
        Action,
    ))
        ensures
            r == self.show(found, under_review, changes, description),
    {
        let by = self.args.author_name.clone();
        (
            RequestChanges {
                args: self.args,
                stage: RequestStage::Showing { found, under_review, changes },
            },
            Action::ReplyCard(Card::ChangesRequested { description, by }),
        )
    }

    fn muted(self, found: Found) -> (r: (RequestChanges, Action))
        ensures
            r == self.mute(found),
    {
        match found.discussion.disable_reminders_statement() {
            None => (RequestChanges { args: self.args, stage: RequestStage::Over }, Action::Finish),
            Some(statement) => (
                RequestChanges { args: self.args, stage: RequestStage::Muting },
                Action::Database(statement),
            ),
        }
    }
}

impl Run for RequestChanges {
    fn step(self, answer: Answer) -> (r: (Self, Action)) {
        let by = self.args.author_name.clone();
        let channel = self.args.channel;
        let run = RequestChanges { args: self.args, stage: RequestStage::Over };
        match (self.stage, answer) {
            (RequestStage::New, Answer::Start) => run.located(
                ChannelLookup { thread: channel, stage: LookupStage::New },
                Answer::Start,
            ),
            (RequestStage::Locating(lookup), answer) => run.located(lookup, answer),
            (RequestStage::UnderReviewLabel { found }, Answer::LabelIs(label)) => match label {
                Some(under_review) => (
                    RequestChanges {
                        args: run.args,
                        stage: RequestStage::ChangesLabel { found, under_review },
                    },
                    Action::ReadLabel(LabelSetting::ChangesRequested),
                ),
                None => run.closed(
                    Text::Plain("Can't process change request with under review label unset."),
                ),
            },
            (RequestStage::ChangesLabel { found, under_review }, Answer::LabelIs(label)) => {
                match label {
                    Some(changes) => (
                        RequestChanges {
                            args: run.args,
                            stage: RequestStage::Form { found, under_review, changes },
                        },
                        Action::ShowChangesForm,
                    ),
                    None => run.closed(
                        Text::Plain(
                            "Can't process change request with changes requested label unset.",
                        ),
                    ),
                }
            },
            (
                RequestStage::Form { found, under_review, changes },
                Answer::ChangesForm(Ok(entered)),
            ) => match entered {
                Some(description) => {
                    if is_blank(&description) {
                        return run.shown(found, under_review, changes, description);
                    }
                    let pr_id: u64 = found.discussion.pr_id;
                    let comment = Comment::ChangesRequested {
                        description: description.clone(),
                        by,
                    };
                    (
                        RequestChanges {
                            args: run.args,
                            stage: RequestStage::Commenting {
                                found,
                                under_review,
                                changes,
                                description,
                            },
                        },
                        Action::PostComment(pr_id, comment),
                    )
                },
                None => run.closed(Text::Plain("Modal timed out.")),
            },
            (
                RequestStage::Commenting { found, under_review, changes, description },
                answer,
            ) => match answer {
                Answer::Done => run.shown(found, under_review, changes, description),
                _ => run.closed(Text::Plain("Failed to create GitHub comment")),
            },
            (RequestStage::Showing { found, under_review, changes }, Answer::Done) => {
                let pr_id: u64 = found.discussion.pr_id;
                (
                    RequestChanges {
                        args: run.args,
                        stage: RequestStage::Labeling { found, under_review },
                    },
                    Action::AddLabel(pr_id, changes),
                )
            },
            (RequestStage::Labeling { found, under_review }, answer) => match answer {
                Answer::Done => {
                    let pr_id: u64 = found.discussion.pr_id;
                    let label = under_review.clone();
                    (
                        RequestChanges {
                            args: run.args,
                            stage: RequestStage::Removing { found, under_review },
                        },
                        Action::RemoveLabel(pr_id, label),
                    )
                },
                _ => run.closed(Text::Plain("Failed to set changes requested label")),
            },
            (RequestStage::Removing { found, under_review }, Answer::LabelRemoval(removal)) => {
                match try_remove_label(under_review, removal) {
                    Some(text) => (
                        RequestChanges { args: run.args, stage: RequestStage::Kept { found } },
                        Action::Reply(text),
                    ),
                    None => run.muted(found),
                }
            },
            (RequestStage::Kept { found }, Answer::Done) => run.muted(found),
            (RequestStage::Muting, Answer::Written(written)) => match written {
                Ok(_) => (run, Action::Finish),
                Err(_) => run.closed(
                    Text::Error {
                        before: "Failed to disable reminders upon change request: ",
                        error: HandledError::InternalError,
                        after: "",
                    },
                ),
            },
            (RequestStage::Closing, Answer::Done) => (run, Action::Finish),
            _ => (run, Action::Abort(None)),
        }
    }
}

impl Body for RequestChanges {
    open spec fn needs() -> Permission {
        Permission::ContentReviewer
    }

    fn needed() -> (r: Permission) {
        Permission::ContentReviewer
    }
}

/// A step of the command that requests changes from the author.
pub fn cr_request_changes(run: Command<RequestChanges>, answer: Answer) -> (r: (
    Command<RequestChanges>,
    Action,
))
    ensures
        r == run.next(answer),
{
    run.step(answer)
}

impl RequestChanges {
    /// Whether anything was written under a pull request.
    pub open spec fn commented(self, answers: Seq<Answer>) -> bool {
        exists|pr_id: u64, comment: Comment|
            #[trigger] did(self, answers, Action::PostComment(pr_id, comment))
    }

    /// Whether the form was filled in.
    pub open spec fn described(self, answers: Seq<Answer>, description: String) -> bool {
        was_answered(
            self,
            answers,
            Action::ShowChangesForm,
            Answer::ChangesForm(Ok(Some(description))),
        )
    }

    /// Whether the changes were written under the pull request, if the form says any, and nothing
    /// was written if it does not; and whether they were shown in the thread.
    pub open spec fn worded(self, answers: Seq<Answer>, pr_id: u64, description: String) -> bool {
        &&& self.described(answers, description)
        &&& if description@.len() == 0 {
            !self.commented(answers)
        } else {
            did(
                self,
                answers,
                Action::PostComment(
                    pr_id,
                    Comment::ChangesRequested { description, by: self.args.author_name },
                ),
            )
        }
        &&& did(
            self,
            answers,
            Action::ReplyCard(Card::ChangesRequested { description, by: self.args.author_name }),
        )
    }

    /// Whether the changes were asked for as the form says.
    pub open spec fn asked_for(self, answers: Seq<Answer>, pr_id: u64) -> bool {
        exists|description: String| #[trigger] self.worded(answers, pr_id, description)
    }

    /// Whether the request has reached the pull request: the changes were asked for, the label of
    /// a request for changes was added, and that of a review was asked to be removed.
    pub open spec fn requested(self, answers: Seq<Answer>, found: Found) -> bool {
        let pr_id = found.discussion.pr_id;
        &&& self.asked_for(answers, pr_id)
        &&& label_added(self, answers, LabelSetting::ChangesRequested, pr_id)
        &&& label_removed(self, answers, LabelSetting::UnderReview, pr_id)
    }

    /// What the run has done after some answers.
    pub open spec fn has_done(self, first: RequestChanges, answers: Seq<Answer>) -> bool {
        match self.stage {
            RequestStage::New => !first.commented(answers),
            RequestStage::Locating(_) => !first.commented(answers),
            RequestStage::UnderReviewLabel { .. } => {
                &&& answers.len() > 0
                &&& action_on(first, answers) == Action::ReadLabel(LabelSetting::UnderReview)
                &&& !first.commented(answers)
            },
            RequestStage::ChangesLabel { under_review, .. } => {
                &&& answers.len() > 0
                &&& action_on(first, answers) == Action::ReadLabel(LabelSetting::ChangesRequested)
                &&& label_read(first, answers, LabelSetting::UnderReview, under_review)
                &&& !first.commented(answers)
            },
            RequestStage::Form { under_review, changes, .. } => {
                &&& answers.len() > 0
                &&& action_on(first, answers) == Action::ShowChangesForm
                &&& label_read(first, answers, LabelSetting::UnderReview, under_review)
                &&& label_read(first, answers, LabelSetting::ChangesRequested, changes)
                &&& !first.commented(answers)
            },
            RequestStage::Commenting { found, under_review, changes, description } => {
                &&& label_read(first, answers, LabelSetting::UnderReview, under_review)
                &&& label_read(first, answers, LabelSetting::ChangesRequested, changes)
                &&& first.described(answers, description)
                &&& description@.len() > 0
                &&& did(
                    first,
                    answers,
                    Action::PostComment(
                        found.discussion.pr_id,
                        Comment::ChangesRequested { description, by: first.args.author_name },
                    ),
                )
            },
            RequestStage::Showing { found, under_review, changes } => {
                &&& label_read(first, answers, LabelSetting::UnderReview, under_review)
                &&& label_read(first, answers, LabelSetting::ChangesRequested, changes)
                &&& first.asked_for(answers, found.discussion.pr_id)
            },
            RequestStage::Labeling { found, under_review } => {
                &&& label_read(first, answers, LabelSetting::UnderReview, under_review)
                &&& label_added(
                    first,
                    answers,
                    LabelSetting::ChangesRequested,
                    found.discussion.pr_id,
                )
                &&& first.asked_for(answers, found.discussion.pr_id)
            },
            RequestStage::Removing { found, .. } => first.requested(answers, found),
            RequestStage::Kept { found } => first.requested(answers, found),
            RequestStage::Muting => {
                &&& answers.len() > 0
                &&& exists|found: Found| #[trigger]
                    first.requested(answers, found) && action_on(first, answers) == silencing(found)
            },
            _ => true,
        }
    }
}

/// Tells the reminders of a discussion to stop.
pub open spec fn silencing(found: Found) -> Action {
    Action::Database(Statement::ClearNextReminder { pr_id: column_of(found.discussion.pr_id) })
}

proof fn lemma_request_args_stay(run: RequestChanges, answers: Seq<Answer>)
    ensures
        after(run, answers).args == run.args,
    decreases answers.len(),
{
    if answers.len() > 0 {
        lemma_request_args_stay(run, answers.drop_last());
    }
}

proof fn lemma_asked_for_stays(first: RequestChanges, answers: Seq<Answer>, pr_id: u64)
    requires
        answers.len() > 0,
        first.asked_for(answers.drop_last(), pr_id),
        !(action_on(first, answers) is PostComment),
    ensures
        first.asked_for(answers, pr_id),
{
    let before = answers.drop_last();
    lemma_did(first, answers);
    lemma_did_before(first, answers);
    lemma_answered(first, answers);
    let description = choose|description: String| #[trigger]
        first.worded(before, pr_id, description);
    assert(first.worded(answers, pr_id, description));
}

proof fn lemma_requested_stays(first: RequestChanges, answers: Seq<Answer>, found: Found)
    requires
        answers.len() > 0,
        first.requested(answers.drop_last(), found),
        !(action_on(first, answers) is PostComment),
    ensures
        first.requested(answers, found),
{
    lemma_asked_for_stays(first, answers, found.discussion.pr_id);
    lemma_labels_stay(first, answers, LabelSetting::ChangesRequested, found.discussion.pr_id);
    lemma_labels_stay(first, answers, LabelSetting::UnderReview, found.discussion.pr_id);
}

proof fn lemma_request_does(first: RequestChanges, answers: Seq<Answer>)
    requires
        first.stage is New,
    ensures
        after(first, answers).has_done(first, answers),
    decreases answers.len(),
{
    if answers.len() > 0 {
        let before = answers.drop_last();
        lemma_request_does(first, before);
        lemma_request_args_stay(first, before);
        lemma_did(first, answers);
        lemma_did_before(first, answers);
        lemma_answered(first, answers);
        let now = after(first, before);
        let answer = answers.last();
        let action = now.next(answer).1;
        assert(did(first, answers, action));
        match (now.stage, answer) {
            (
                RequestStage::Form { found, .. },
                Answer::ChangesForm(Ok(Some(description))),
            ) => {
                if description@.len() == 0 {
                    assert(first.worded(answers, found.discussion.pr_id, description));
                }
            },
            (RequestStage::Commenting { found, description, .. }, Answer::Done) => {
                assert(first.worded(answers, found.discussion.pr_id, description));
            },
            (RequestStage::Showing { found, changes, .. }, Answer::Done) => {
                lemma_asked_for_stays(first, answers, found.discussion.pr_id);
                assert(did(first, answers, adding(found.discussion.pr_id, changes)));
            },
            (RequestStage::Labeling { found, under_review }, Answer::Done) => {
                lemma_asked_for_stays(first, answers, found.discussion.pr_id);
                lemma_labels_stay(
                    first,
                    answers,
                    LabelSetting::ChangesRequested,
                    found.discussion.pr_id,
                );
                assert(did(first, answers, removing(found.discussion.pr_id, under_review)));
            },
            (RequestStage::Removing { found, .. }, _) => {
                lemma_requested_stays(first, answers, found);
            },
            (RequestStage::Kept { found }, _) => {
                lemma_requested_stays(first, answers, found);
            },
            _ => {},
        }
    } else {
        reveal(did);
    }
}

/// When a request for changes ends without a complaint, all of it was done: a comment was written
/// under the pull request exactly if there is any text, the label that is set for a request for
/// changes was added, the label of a review was asked to be removed, and no reminder is left.
pub proof fn law_requested_changes_are_made(run: RequestChanges, answers: Seq<Answer>)
    requires
        run.stage is New,
        answers.len() > 0,
        action_on(run, answers) is Finish,
        !(after(run, answers.drop_last()).stage is Closing),
    ensures
        exists|found: Found|
            {
                &&& #[trigger] run.requested(answers, found)
                &&& found.discussion.review_days_next_micros is None || was_answered(
                    run,
                    answers,
                    silencing(found),
                    Answer::Written(Ok(())),
                )
            },
{
    let before = answers.drop_last();
    lemma_request_does(run, before);
    lemma_answered(run, answers);
    match after(run, before).stage {
        RequestStage::Removing { found, .. } => {
            lemma_requested_stays(run, answers, found);
        },
        RequestStage::Kept { found } => {
            lemma_requested_stays(run, answers, found);
        },
        RequestStage::Muting => {
            let found = choose|found: Found| #[trigger]
                run.requested(before, found) && action_on(run, before) == silencing(found);
            lemma_requested_stays(run, answers, found);
            if let Answer::Written(Ok(nothing)) = answers.last() {
                assert(nothing == ());
            }
            assert(answers.last() == Answer::Written(Ok(())));
        },
        RequestStage::Locating(lookup) => {
            assert(!(lookup.next(answers.last()) matches Located::Ask(_, Action::Finish)));
        },
        _ => {},
    }
}

/// Changes are requested as the form says, for every pull request, label and text: a text is written
/// under the pull request and shown in the thread, an empty one is only shown; the label of a request
/// for changes is added and that of a review removed, and the reminders stop if there are any. What
/// is missing or fails is told.
pub proof fn law_changes_are_requested_as_asked(
    run: RequestChanges,
    channel: GuildChannel,
    parent: ChannelId,
    forum: ForumRecord,
    row: DiscussionRow,
    under_review: String,
    changes: String,
    description: String,
    removal: LabelRemoval,
)
    requires
        run.stage is New,
        channel.parent == Some(parent),
        removal != LabelRemoval::Refused(410),
    ensures
        ({
            let worded = description@.len() > 0;
            let timed = row.review_days_next_micros is Some;
            let pr_id = value_of(row.pr_id);
            let by = run.args.author_name;
            let (r1, a1) = run.next(Answer::Start);
            let (r2, a2) = r1.next(Answer::Channel(Some(channel)));
            let (r3, a3) = r2.next(Answer::Forum(Some(forum)));
            let (r4, a4) = r3.next(Answer::Discussion(Ok(row)));
            let (r5, a5) = r4.next(Answer::LabelIs(Some(under_review)));
            let (r6, a6) = r5.next(Answer::LabelIs(Some(changes)));
            let (r7, a7) = r6.next(Answer::ChangesForm(Ok(Some(description))));
            let (r8, a8) = if worded {
                r7.next(Answer::Done)
            } else {
                (r7, a7)
            };
            let (r9, a9) = r8.next(Answer::Done);
            let (r10, a10) = r9.next(Answer::Done);
            let (r11, a11) = r10.next(Answer::LabelRemoval(removal));
            let (r12, a12) = if timed {
                r11.next(Answer::Written(Ok(())))
            } else {
                (r11, a11)
            };
            &&& a1 == Action::CurrentChannel
            &&& a2 == Action::Database(Statement::SelectForum { channel_id: column_of(parent@) })
            &&& a3 == Action::Database(
                Statement::SelectDiscussionByThread { thread_id: column_of(run.args.channel@) },
            )
            &&& a4 == Action::ReadLabel(LabelSetting::UnderReview)
            &&& a5 == Action::ReadLabel(LabelSetting::ChangesRequested)
            &&& a6 == Action::ShowChangesForm
            &&& worded ==> a7 == Action::PostComment(
                pr_id,
                Comment::ChangesRequested { description, by },
            )
            &&& a8 == Action::ReplyCard(Card::ChangesRequested { description, by })
            &&& a9 == Action::AddLabel(pr_id, changes)
            &&& a10 == Action::RemoveLabel(pr_id, under_review)
            &&& timed ==> a11 == Action::Database(
                Statement::ClearNextReminder { pr_id: row.pr_id },
            )
            &&& a12 == Action::Finish
            // what is missing or fails
            &&& r6.next(Answer::ChangesForm(Err(()))).1 == Action::Abort(None)
            &&& r8.next(Answer::Failed).1 == Action::Abort(None)
            &&& closes_with_error(
                r1.next(Answer::Channel(None)),
                "Error: ",
                HandledError::UserfacingError("Must be in a guild channel."),
            )
            &&& closes_with_error(
                r2.next(Answer::Forum(None)),
                "Error: ",
                HandledError::UserfacingError("Must be in a registered CR forum."),
            )
            &&& forall|error: DbError|
                closes_with_error(
                    #[trigger] r3.next(Answer::Discussion(Err(error))),
                    "Error: ",
                    HandledError::UserfacingError("There is no PR associated with this thread."),
                )
            &&& closes_with(
                r4.next(Answer::LabelIs(None)),
                Text::Plain("Can't process change request with under review label unset."),
            )
            &&& closes_with(
                r5.next(Answer::LabelIs(None)),
                Text::Plain("Can't process change request with changes requested label unset."),
            )
            &&& closes_with(
                r6.next(Answer::ChangesForm(Ok(None))),
                Text::Plain("Modal timed out."),
            )
            &&& worded ==> closes_with(
                r7.next(Answer::Failed),
                Text::Plain("Failed to create GitHub comment"),
            )
            &&& closes_with(
                r9.next(Answer::Failed),
                Text::Plain("Failed to set changes requested label"),
            )
            &&& {
                let (told, telling) = r10.next(
                    Answer::LabelRemoval(LabelRemoval::Refused(410)),
                );
                &&& telling == Action::Reply(Text::LabelNotRemoved(under_review))
                &&& told.next(Answer::Done) == (r11, a11)
            }
            &&& timed ==> forall|error: DbError|
                closes_with_error(
                    #[trigger] r11.next(Answer::Written(Err(error))),
                    "Failed to disable reminders upon change request: ",
                    HandledError::InternalError,
                )
        }),
{
    crate::discord::ids::law_value_round_trip(row.pr_id);
}

impl RequestChanges {
    /// What a run that is about to end has just done.
    pub open spec fn is_ending(self, first: RequestChanges, answers: Seq<Answer>) -> bool {
        match self.stage {
            RequestStage::Closing => answers.len() > 0 && action_on(first, answers) is Reply,
            _ => true,
        }
    }
}

proof fn lemma_request_ending(first: RequestChanges, answers: Seq<Answer>)
    requires
        first.stage is New,
    ensures
        after(first, answers).is_ending(first, answers),
    decreases answers.len(),
{
    if answers.len() > 0 {
        lemma_request_ending(first, answers.drop_last());
    }
}

/// A request for changes never ends in silence, whatever the answers are: when it finishes, it has
/// just told the user something, or all of it was done.
pub proof fn law_request_finishes_when_made(run: RequestChanges, answers: Seq<Answer>)
    requires
        run.stage is New,
        answers.len() > 0,
        action_on(run, answers) is Finish,
    ensures
        answers.len() > 1,
        !(action_on(run, answers.drop_last()) is Reply && answers.last() is Done) ==> exists|
            found: Found,
        |
            {
                &&& #[trigger] run.requested(answers, found)
                &&& found.discussion.review_days_next_micros is None || was_answered(
                    run,
                    answers,
                    silencing(found),
                    Answer::Written(Ok(())),
                )
            },
{
    let before = answers.drop_last();
    lemma_request_ending(run, before);
    if !(after(run, before).stage is Closing) {
        law_requested_changes_are_made(run, answers);
    }
    if let RequestStage::Locating(lookup) = after(run, before).stage {
        assert(!(lookup.next(answers.last()) matches Located::Ask(_, Action::Finish)));
    }
}

/// These commands take the permission of the content review.
pub proof fn law_ending_a_review_takes_a_permission(
    author: UserId,
    complete: Complete,
    request: RequestChanges,
)
    ensures
        ({
            let asked = Action::HasFlags(author@, Permission::ContentReviewer);
            &&& (Command::New { author, body: complete }).next(Answer::Start).1 == asked
            &&& (Command::New { author, body: request }).next(Answer::Start).1 == asked
        }),
{
}

} // verus!
