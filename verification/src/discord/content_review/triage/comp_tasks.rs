//! The buttons of the triage.

use vstd::prelude::*;

use crate::clock::{add_days, days_after, seconds_of, to_seconds, LAST_MICROS};
use crate::discord::action::{
    action_on, after, did, lemma_answered, lemma_did, was_answered, Action, Answer, Flow,
    ForumSetting, GuildChannel, LabelSetting, NewThread, ReviewSettings, Run,
};
use crate::discord::content_review::data::discussions::{by_pr_result, DiscussionRecord};
use crate::discord::content_review::data::forums::ForumRecord;
use crate::discord::content_review::notices::{Comment, Post};
use crate::discord::content_review::triage::commands::label_read;
use crate::discord::error::{DbError, HandledError};
use crate::discord::ids::{column_of, value_of, ChannelId, RoleId, UserId};
use crate::discord::store::{DiscussionRow, Statement};
use crate::discord::texts::Text;
use crate::text::chars::copy_text;
use crate::text::decimal::{parse_u64, u64_from};

verus! {

/// The longest that a review may take, in days.
pub const MAX_REVIEW_DAYS: u64 = 90;

/// The forum that a channel belongs to, if it could be fetched and belongs to one.
pub open spec fn parent_of(channel: Option<GuildChannel>) -> Option<ChannelId> {
    match channel {
        Some(c) => c.parent,
        None => None,
    }
}

fn to_parent(channel: Option<GuildChannel>) -> (r: Option<ChannelId>)
    ensures
        r == parent_of(channel),
{
    match channel {
        Some(c) => c.parent,
        None => None,
    }
}

/// The first part of every triage: finds the discussion, and makes sure that its thread is in the
/// intake forum.
#[derive(Debug)]
pub enum Preamble {
    New { pr_id: u64 },
    Lookup,
    Channel { discussion: DiscussionRecord },
    Intake { discussion: DiscussionRecord, parent: ChannelId },
}

/// What a step of the first part comes to.
#[derive(Debug)]
pub enum Triage {
    Ask(Preamble, Action),
    Ready { parent_forum: ChannelId, intake_forum: ChannelId, discussion: DiscussionRecord },
    Refused(HandledError),
}

impl Preamble {
    /// What a step comes to.
    pub open spec fn next(self, answer: Answer) -> Triage {
        match (self, answer) {
            (Preamble::New { pr_id }, Answer::Start) => Triage::Ask(
                Preamble::Lookup,
                Action::Database(Statement::SelectDiscussionByPr { pr_id: column_of(pr_id) }),
            ),
            (Preamble::Lookup, Answer::Discussion(row)) => match by_pr_result(row) {
                Some(discussion) => Triage::Ask(
                    Preamble::Channel { discussion },
                    Action::FetchChannel(discussion.thread_id),
                ),
                None => Triage::Refused(HandledError::InternalError),
            },
            (Preamble::Channel { discussion }, Answer::Channel(channel)) => match parent_of(
                channel,
            ) {
                Some(parent) => Triage::Ask(
                    Preamble::Intake { discussion, parent },
                    Action::ReadForum(ForumSetting::Intake),
                ),
                None => Triage::Refused(HandledError::InternalError),
            },
            (Preamble::Intake { discussion, parent }, Answer::ForumIs(forum)) => match forum {
                Some(intake) => if parent == intake {
                    Triage::Ready { parent_forum: parent, intake_forum: intake, discussion }
                } else {
                    Triage::Refused(HandledError::InternalError)
                },
                None => Triage::Refused(
                    HandledError::UserfacingError(
                        "Can't process triage button press with intake forum unset.",
                    ),
                ),
            },
            _ => Triage::Refused(HandledError::InternalError),
        }
    }
}

/// A step of the first part of a triage.
pub fn triage_preamble(run: Preamble, answer: Answer) -> (r: Triage)
    ensures
        r == run.next(answer),
{
    match (run, answer) {
        (Preamble::New { pr_id }, Answer::Start) => Triage::Ask(
            Preamble::Lookup,
            Action::Database(DiscussionRecord::get_by_pr_statement(pr_id)),
        ),
        (Preamble::Lookup, Answer::Discussion(row)) => match DiscussionRecord::get_by_pr(row) {
            Some(discussion) => {
                let thread = discussion.thread_id;
                Triage::Ask(Preamble::Channel { discussion }, Action::FetchChannel(thread))
            },
            None => Triage::Refused(HandledError::InternalError),
        },
        (Preamble::Channel { discussion }, Answer::Channel(channel)) => match to_parent(channel) {
            Some(parent) => Triage::Ask(
                Preamble::Intake { discussion, parent },
                Action::ReadForum(ForumSetting::Intake),
            ),
            None => Triage::Refused(HandledError::InternalError),
        },
        (Preamble::Intake { discussion, parent }, Answer::ForumIs(forum)) => match forum {
            Some(intake) => {
                if parent != intake {
                    return Triage::Refused(HandledError::InternalError);
                }
                Triage::Ready { parent_forum: parent, intake_forum: intake, discussion }
            },
            None => Triage::Refused(
                HandledError::UserfacingError(
                    "Can't process triage button press with intake forum unset.",
                ),
            ),
        },
        _ => Triage::Refused(HandledError::InternalError),
    }
}

/// The start of a review, by a press on one of two buttons.
#[derive(Debug)]
pub struct StartReview {
    pub pr_id: u64,
    pub private: bool,
    /// Who pressed the button.
    pub user: UserId,
    pub user_name: String,
    pub stage: ReviewStage,
}

/// A discussion on its way from the intake forum to a review.
#[derive(Debug)]
pub struct Moving {
    pub discussion: DiscussionRecord,
    pub forum: ChannelId,
    pub thread: ChannelId,
    pub intake_thread: ChannelId,
    pub days: u64,
}

/// How far the start of a review has got.
#[derive(Debug)]
pub enum ReviewStage {
    New,
    Preamble(Preamble),
    Forum { discussion: DiscussionRecord },
    Label { discussion: DiscussionRecord, forum: ChannelId },
    Form { discussion: DiscussionRecord, forum: ChannelId, label: String },
    Clock {
        discussion: DiscussionRecord,
        forum: ChannelId,
        label: String,
        days: u64,
        reasoning: Option<String>,
    },
    Labeling {
        discussion: DiscussionRecord,
        forum: ChannelId,
        days: u64,
        due: i64,
        reasoning: Option<String>,
    },
    Ping {
        discussion: DiscussionRecord,
        forum: ChannelId,
        days: u64,
        due: i64,
        reasoning: Option<String>,
    },
    Posting {
        discussion: DiscussionRecord,
        forum: ChannelId,
        days: u64,
        reasoning: Option<String>,
    },
    Commenting(Moving),
    SettingForum(Moving),
    SettingThread(Moving),
    SettingTriagedBy(Moving),
    DeletingBody(Moving),
    TimerClock(Moving),
    SettingTimer { moving: Moving, next_micros: i64 },
    Removing { discussion: DiscussionRecord },
    /// Telling what went wrong; whether that succeeds makes no difference.
    Telling,
    Over,
}

impl StartReview {
    /// The run at another stage.
    pub open spec fn at(self, stage: ReviewStage) -> StartReview {
        StartReview { stage, ..self }
    }

    /// Tells what went wrong, and ends.
    pub open spec fn fail(self, error: HandledError) -> (StartReview, Action) {
        (
            self.at(ReviewStage::Telling),
            Action::Respond {
                text: Text::Error { before: "Error: ", error, after: "" },
                ephemeral: false,
            },
        )
    }

    /// Tells the user a reason why it could not be done, and ends.
    pub open spec fn refuse(self, reason: &'static str) -> (StartReview, Action) {
        self.fail(HandledError::UserfacingError(reason))
    }

    /// Goes on once the database has been written to.
    pub open spec fn once(
        self,
        written: Answer,
        stage: ReviewStage,
        action: Action,
    ) -> (StartReview, Action) {
        match written {
            Answer::Written(Ok(_)) => (self.at(stage), action),
            _ => self.fail(HandledError::InternalError),
        }
    }
}

impl Flow for StartReview {
    open spec fn next(self, answer: Answer) -> (Self, Action) {
        match (self.stage, answer) {
            (ReviewStage::New, Answer::Start) => self.prepare(
                Preamble::New { pr_id: self.pr_id },
                answer,
            ),
            (ReviewStage::Preamble(preamble), _) => self.prepare(preamble, answer),
            (ReviewStage::Forum { discussion }, Answer::ForumIs(Some(forum))) => (
                self.at(ReviewStage::Label { discussion, forum }),
                Action::ReadLabel(LabelSetting::UnderReview),
            ),
            (ReviewStage::Forum { discussion }, Answer::ForumIs(None)) => if self.private {
                self.refuse("Can't process review start with private forum unset.")
            } else {
                self.refuse("Can't process review start with public forum unset.")
            },
            (ReviewStage::Label { discussion, forum }, Answer::LabelIs(Some(label))) => (
                self.at(ReviewStage::Form { discussion, forum, label }),
                Action::ShowReviewForm,
            ),
            (ReviewStage::Label { .. }, Answer::LabelIs(None)) => self.refuse(
                "Can't process review start with under review label unset.",
            ),
            (
                ReviewStage::Form { discussion, forum, label },
                Answer::ReviewForm(Ok(Some(settings))),
            ) => match u64_from(settings.review_time_days@) {
                Some(days) => if days > MAX_REVIEW_DAYS {
                    self.refuse("Invalid review time provided. It can't be longer than 90 days.")
                } else {
                    (
                        self.at(
                            ReviewStage::Clock {
                                discussion,
                                forum,
                                label,
                                days,
                                reasoning: settings.reasoning,
                            },
                        ),
                        Action::ReadClock,
                    )
                },
                None => self.refuse("Failed to parse review time."),
            },
            (ReviewStage::Form { .. }, Answer::ReviewForm(Ok(None))) => self.refuse("test"),
            (
                ReviewStage::Clock { discussion, forum, label, days, reasoning },
                Answer::Now(now),
            ) => match days_after(now, days) {
                Some(due) => (
                    self.at(ReviewStage::Labeling { discussion, forum, days, due, reasoning }),
                    Action::AddLabel(discussion.pr_id, label),
                ),
                None => self.fail(HandledError::InternalError),
            },
            (
                ReviewStage::Labeling { discussion, forum, days, due, reasoning },
                Answer::Done,
            ) => (
                self.at(ReviewStage::Ping { discussion, forum, days, due, reasoning }),
                Action::ReadPingRole,
            ),
            (ReviewStage::Labeling { .. }, _) => self.refuse(
                "Failed to set under review label on GitHub.",
            ),
            (
                ReviewStage::Ping { discussion, forum, days, due, reasoning },
                Answer::PingRoleIs(ping),
            ) => (
                self.at(ReviewStage::Posting { discussion, forum, days, reasoning }),
                Action::CreatePost(
                    forum,
                    Post::Review {
                        pr_id: discussion.pr_id,
                        pr_title: discussion.pr_title,
                        pr_author: discussion.pr_author,
                        pr_body: discussion.pr_body,
                        triaged_by: self.user_name,
                        reasoning,
                        days,
                        due: seconds_of(due) as i64,
                        ping,
                    },
                ),
            ),
            (
                ReviewStage::Posting { discussion, forum, days, reasoning },
                Answer::Posted(Some(thread)),
            ) => (
                self.at(
                    ReviewStage::Commenting(
                        Moving {
                            discussion,
                            forum,
                            thread: thread.id,
                            intake_thread: discussion.thread_id,
                            days,
                        },
                    ),
                ),
                Action::PostComment(
                    discussion.pr_id,
                    Comment::ReviewStarted {
                        by: self.user_name,
                        private: self.private,
                        reasoning,
                        guild: thread.guild,
                        thread: thread.id,
                        days,
                    },
                ),
            ),
            (ReviewStage::Posting { .. }, _) => self.refuse("Failed to create forum post."),
            (ReviewStage::Commenting(moving), Answer::Done) => (
                self.at(ReviewStage::SettingForum(moving)),
                Action::Database(
                    Statement::UpdateForum {
                        pr_id: column_of(moving.discussion.pr_id),
                        forum_id: column_of(moving.forum@),
                    },
                ),
            ),
            (ReviewStage::Commenting(_), _) => self.refuse("Failed to add GitHub comment."),
            (ReviewStage::SettingForum(moving), _) => self.once(
                answer,
                ReviewStage::SettingThread(
                    Moving {
                        discussion: DiscussionRecord {
                            forum_id: moving.forum,
                            ..moving.discussion
                        },
                        ..moving
                    },
                ),
                Action::Database(
                    Statement::UpdateThread {
                        pr_id: column_of(moving.discussion.pr_id),
                        thread_id: column_of(moving.thread@),
                    },
                ),
            ),
            (ReviewStage::SettingThread(moving), _) => self.once(
                answer,
                ReviewStage::SettingTriagedBy(
                    Moving {
                        discussion: DiscussionRecord {
                            thread_id: moving.thread,
                            ..moving.discussion
                        },
                        ..moving
                    },
                ),
                Action::Database(
                    Statement::UpdateTriagedBy {
                        pr_id: column_of(moving.discussion.pr_id),
                        triaged_by: column_of(self.user@),
                    },
                ),
            ),
            (ReviewStage::SettingTriagedBy(moving), _) => self.once(
                answer,
                ReviewStage::DeletingBody(
                    Moving {
                        discussion: DiscussionRecord {
                            triaged_by: Some(self.user),
                            ..moving.discussion
                        },
                        ..moving
                    },
                ),
                Action::Database(
                    Statement::ClearBody { pr_id: column_of(moving.discussion.pr_id) },
                ),
            ),
            (ReviewStage::DeletingBody(moving), _) => self.once(
                answer,
                ReviewStage::TimerClock(moving),
                Action::ReadClock,
            ),
            (ReviewStage::TimerClock(moving), Answer::Now(now)) => match days_after(now, 1) {
                Some(next_micros) => (
                    self.at(ReviewStage::SettingTimer { moving, next_micros }),
                    Action::Database(
                        Statement::UpdateReviewTime {
                            pr_id: column_of(moving.discussion.pr_id),
                            total: column_of(moving.days),
                            passed: 0,
                            next_micros,
                        },
                    ),
                ),
                None => (
                    self.at(ReviewStage::Over),
                    Action::Fault("The calendar has no next day."),
                ),
            },
            (ReviewStage::SettingTimer { moving, next_micros }, _) => self.once(
                answer,
                ReviewStage::Removing {
                    discussion: DiscussionRecord {
                        review_days_total: Some(moving.days),
                        review_days_passed: Some(0),
                        review_days_next_micros: Some(next_micros),
                        ..moving.discussion
                    },
                },
                Action::DeleteThread(moving.intake_thread),
            ),
            (ReviewStage::Removing { .. }, Answer::Done) => (
                self.at(ReviewStage::Over),
                Action::Finish,
            ),
            (ReviewStage::Removing { .. }, _) => self.refuse("Failed to delete intake discussion."),
            (ReviewStage::Telling, _) => (self.at(ReviewStage::Over), Action::Finish),
            (ReviewStage::Over, _) => (self, Action::Finish),
            _ => self.fail(HandledError::InternalError),
        }
    }
}

impl StartReview {
    /// Does a step of the first part, and asks for the forum once that is done.
    pub open spec fn prepare(self, preamble: Preamble, answer: Answer) -> (StartReview, Action) {
        match preamble.next(answer) {
            Triage::Ask(later, action) => (self.at(ReviewStage::Preamble(later)), action),
            Triage::Refused(error) => self.fail(error),
            Triage::Ready { discussion, .. } => (
                self.at(ReviewStage::Forum { discussion }),
                Action::ReadForum(
                    if self.private {
                        ForumSetting::Private
                    } else {
                        ForumSetting::Public
                    },
                ),
            ),
        }
    }

    fn with(self, stage: ReviewStage) -> (r: StartReview)
        ensures
            r == self.at(stage),
    {
        StartReview {
            pr_id: self.pr_id,
            private: self.private,
            user: self.user,
            user_name: self.user_name,
            stage,
        }
    }

    fn failed(self, error: HandledError) -> (r: (StartReview, Action))
        ensures
            r == self.fail(error),
    {
        (
            self.with(ReviewStage::Telling),
            Action::Respond {
                text: Text::Error { before: "Error: ", error, after: "" },
                ephemeral: false,
            },
        )
    }

    fn refused(self, reason: &'static str) -> (r: (StartReview, Action))
        ensures
            r == self.refuse(reason),
    {
        self.failed(HandledError::UserfacingError(reason))
    }

    fn prepared(self, preamble: Preamble, answer: Answer) -> (r: (StartReview, Action))
        ensures
            r == self.prepare(preamble, answer),
    {
        match triage_preamble(preamble, answer) {
            Triage::Ask(later, action) => (self.with(ReviewStage::Preamble(later)), action),
            Triage::Refused(error) => self.failed(error),
            Triage::Ready { discussion, .. } => {
                let forum = if self.private {
                    ForumSetting::Private
                } else {
                    ForumSetting::Public
                };
                (self.with(ReviewStage::Forum { discussion }), Action::ReadForum(forum))
            },
        }
    }
}

impl Run for StartReview {
    fn step(self, answer: Answer) -> (r: (Self, Action)) {
        let user_name = self.user_name.clone();
        let run = StartReview {
            pr_id: self.pr_id,
            private: self.private,
            user: self.user,
            user_name: self.user_name,
            stage: ReviewStage::Over,
        };
        match (self.stage, answer) {
            (ReviewStage::New, Answer::Start) => {
                let pr_id: u64 = run.pr_id;
                run.prepared(Preamble::New { pr_id }, Answer::Start)
            },
            (ReviewStage::Preamble(preamble), answer) => run.prepared(preamble, answer),
            (ReviewStage::Forum { discussion }, Answer::ForumIs(found)) => match found {
                Some(forum) => (
                    run.with(ReviewStage::Label { discussion, forum }),
                    Action::ReadLabel(LabelSetting::UnderReview),
                ),
                None => if run.private {
                    run.refused("Can't process review start with private forum unset.")
                } else {
                    run.refused("Can't process review start with public forum unset.")
                },
            },
            (ReviewStage::Label { discussion, forum }, Answer::LabelIs(found)) => match found {
                Some(label) => (
                    run.with(ReviewStage::Form { discussion, forum, label }),
                    Action::ShowReviewForm,
                ),
                None => run.refused("Can't process review start with under review label unset."),
            },
            (
                ReviewStage::Form { discussion, forum, label },
                Answer::ReviewForm(Ok(entered)),
            ) => match entered {
                Some(settings) => match parse_u64(settings.review_time_days.as_str()) {
                    Some(days) => {
                        if days > MAX_REVIEW_DAYS {
                            return run.refused(
                                "Invalid review time provided. It can't be longer than 90 days.",
                            );
                        }
                        (
                            run.with(
                                ReviewStage::Clock {
                                    discussion,
                                    forum,
                                    label,
                                    days,
                                    reasoning: settings.reasoning,
                                },
                            ),
                            Action::ReadClock,
                        )
                    },
                    None => run.refused("Failed to parse review time."),
                },
                None => run.refused("test"),
            },
            (
                ReviewStage::Clock { discussion, forum, label, days, reasoning },
                Answer::Now(now),
            ) => match add_days(now, days) {
                Some(due) => {
                    let pr_id: u64 = discussion.pr_id;
                    (
                        run.with(ReviewStage::Labeling { discussion, forum, days, due, reasoning }),
                        Action::AddLabel(pr_id, label),
                    )
                },
                None => run.failed(HandledError::InternalError),
            },
            (ReviewStage::Labeling { discussion, forum, days, due, reasoning }, answer) => {
                match answer {
                    Answer::Done => (
                        run.with(ReviewStage::Ping { discussion, forum, days, due, reasoning }),
                        Action::ReadPingRole,
                    ),
                    _ => run.refused("Failed to set under review label on GitHub."),
                }
            },
            (
                ReviewStage::Ping { discussion, forum, days, due, reasoning },
                Answer::PingRoleIs(ping),
            ) => {
                let post = Post::Review {
                    pr_id: discussion.pr_id,
                    pr_title: discussion.pr_title.clone(),
                    pr_author: discussion.pr_author.clone(),
                    pr_body: copy_text(&discussion.pr_body),
                    triaged_by: user_name,
                    reasoning: copy_text(&reasoning),
                    days,
                    due: to_seconds(due),
                    ping,
                };
                (
                    run.with(ReviewStage::Posting { discussion, forum, days, reasoning }),
                    Action::CreatePost(forum, post),
                )
            },
            (ReviewStage::Posting { discussion, forum, days, reasoning }, answer) => match answer {
                Answer::Posted(Some(thread)) => {
                    let comment = Comment::ReviewStarted {
                        by: user_name,
                        private: run.private,
                        reasoning,
                        guild: thread.guild,
                        thread: thread.id,
                        days,
                    };
                    let pr_id: u64 = discussion.pr_id;
                    let intake_thread = discussion.thread_id;
                    let moving = Moving {
                        discussion,
                        forum,
                        thread: thread.id,
                        intake_thread,
                        days,
                    };
                    (
                        run.with(ReviewStage::Commenting(moving)),
                        Action::PostComment(pr_id, comment),
                    )
                },
                _ => run.refused("Failed to create forum post."),
            },
            (ReviewStage::Commenting(moving), answer) => match answer {
                Answer::Done => {
                    let statement = moving.discussion.set_forum_id_statement(moving.forum);
                    (run.with(ReviewStage::SettingForum(moving)), Action::Database(statement))
                },
                _ => run.refused("Failed to add GitHub comment."),
            },
            (ReviewStage::SettingForum(moving), answer) => match answer {
                Answer::Written(Ok(_)) => {
                    let mut moving = moving;
                    let forum = moving.forum;
                    let _ = moving.discussion.set_forum_id(forum, Ok(()));
                    let statement = moving.discussion.set_thread_id_statement(moving.thread);
                    (run.with(ReviewStage::SettingThread(moving)), Action::Database(statement))
                },
                _ => run.failed(HandledError::InternalError),
            },
            (ReviewStage::SettingThread(moving), answer) => match answer {
                Answer::Written(Ok(_)) => {
                    let mut moving = moving;
                    let thread = moving.thread;
                    let _ = moving.discussion.set_thread_id(thread, Ok(()));
                    let statement = moving.discussion.set_triaged_by_statement(run.user);
                    (run.with(ReviewStage::SettingTriagedBy(moving)), Action::Database(statement))
                },
                _ => run.failed(HandledError::InternalError),
            },
            (ReviewStage::SettingTriagedBy(moving), answer) => match answer {
                Answer::Written(Ok(_)) => {
                    let mut moving = moving;
                    let _ = moving.discussion.set_triaged_by(run.user, Ok(()));
                    let statement = moving.discussion.delete_body_statement();
                    (run.with(ReviewStage::DeletingBody(moving)), Action::Database(statement))
                },
                _ => run.failed(HandledError::InternalError),
            },
            (ReviewStage::DeletingBody(moving), answer) => match answer {
                Answer::Written(Ok(_)) => (
                    run.with(ReviewStage::TimerClock(moving)),
                    Action::ReadClock,
                ),
                _ => run.failed(HandledError::InternalError),
            },
            (ReviewStage::TimerClock(moving), Answer::Now(now)) => {
                match DiscussionRecord::next_micros_after(now) {
                    Some(next_micros) => {
                        let statement = moving.discussion.setup_review_time_statement(
                            moving.days,
                            next_micros,
                        );
                        (
                            run.with(ReviewStage::SettingTimer { moving, next_micros }),
                            Action::Database(statement),
                        )
                    },
                    None => (run, Action::Fault("The calendar has no next day.")),
                }
            },
            (ReviewStage::SettingTimer { moving, next_micros }, answer) => match answer {
                Answer::Written(Ok(_)) => {
                    let mut moving = moving;
                    let days: u64 = moving.days;
                    let _ = moving.discussion.setup_review_time(days, next_micros, Ok(()));
                    (
                        run.with(ReviewStage::Removing { discussion: moving.discussion }),
                        Action::DeleteThread(moving.intake_thread),
                    )
                },
                _ => run.failed(HandledError::InternalError),
            },
            (ReviewStage::Removing { .. }, answer) => match answer {
                Answer::Done => (run, Action::Finish),
                _ => run.refused("Failed to delete intake discussion."),
            },
            (ReviewStage::Telling, _) => (run, Action::Finish),
            (ReviewStage::Over, _) => (run, Action::Finish),
            _ => run.failed(HandledError::InternalError),
        }
    }
}

/// A step of the start of a review.
pub fn start_review_task(run: StartReview, answer: Answer) -> (r: (StartReview, Action))
    ensures
        r == run.next(answer),
{
    run.step(answer)
}

/// Whether a channel was found to belong to a forum.
pub open spec fn saw_parent(answers: Seq<Answer>, forum: ChannelId) -> bool {
    exists|i: int|
        0 <= i < answers.len() && (#[trigger] answers[i] matches Answer::Channel(channel)
            && parent_of(channel) == Some(forum))
}

/// Whether the intake forum was found to be the forum that a channel belongs to.
pub open spec fn was_in_intake(answers: Seq<Answer>) -> bool {
    exists|forum: ChannelId, i: int| #[trigger]
        saw_parent(answers, forum) && 0 <= i < answers.len() && #[trigger] answers[i]
            == Answer::ForumIs(Some(forum))
}

proof fn lemma_seen_stays(answers: Seq<Answer>)
    requires
        answers.len() > 0,
    ensures
        forall|forum: ChannelId| #[trigger]
            saw_parent(answers.drop_last(), forum) ==> saw_parent(answers, forum),
        was_in_intake(answers.drop_last()) ==> was_in_intake(answers),
{
    let before = answers.drop_last();
    assert forall|forum: ChannelId| #[trigger] saw_parent(before, forum) implies saw_parent(
        answers,
        forum,
    ) by {
        let i = choose|i: int|
            0 <= i < before.len() && (#[trigger] before[i] matches Answer::Channel(channel)
                && parent_of(channel) == Some(forum));
        assert(answers[i] == before[i]);
    }
    if was_in_intake(before) {
        let (forum, i) = choose|forum: ChannelId, i: int| #[trigger]
            saw_parent(before, forum) && 0 <= i < before.len() && #[trigger] before[i]
                == Answer::ForumIs(Some(forum));
        assert(saw_parent(answers, forum));
        assert(answers[i] == before[i]);
    }
}

/// What holds of the first part of a triage after some answers.
pub open spec fn preamble_holds(preamble: Preamble, answers: Seq<Answer>) -> bool {
    preamble matches Preamble::Intake { parent, .. } ==> saw_parent(answers, parent)
}

proof fn lemma_preamble_step(preamble: Preamble, answers: Seq<Answer>)
    requires
        answers.len() > 0,
        preamble_holds(preamble, answers.drop_last()),
    ensures
        match preamble.next(answers.last()) {
            Triage::Ask(later, _) => preamble_holds(later, answers),
            Triage::Ready { .. } => was_in_intake(answers),
            Triage::Refused(_) => true,
        },
{
    lemma_seen_stays(answers);
    let n = answers.len() - 1;
    assert(answers[n] == answers.last());
    match (preamble, answers.last()) {
        (Preamble::Channel { discussion }, Answer::Channel(channel)) => {
            if parent_of(channel) is Some {
                assert(saw_parent(answers, parent_of(channel)->0));
            }
        },
        (Preamble::Intake { discussion, parent }, Answer::ForumIs(Some(intake))) => {
            if parent == intake {
                assert(saw_parent(answers, parent) && answers[n] == Answer::ForumIs(Some(parent)));
            }
        },
        _ => {},
    }
}

impl StartReview {
    /// What holds of the run after some answers: past its first part, the thread was in the intake
    /// forum, and no review is set to last too long.
    pub open spec fn holds(self, answers: Seq<Answer>) -> bool {
        match self.stage {
            ReviewStage::New => true,
            ReviewStage::Telling => true,
            ReviewStage::Over => true,
            ReviewStage::Preamble(preamble) => preamble_holds(preamble, answers),
            ReviewStage::Forum { .. } => was_in_intake(answers),
            ReviewStage::Label { .. } => was_in_intake(answers),
            ReviewStage::Form { .. } => was_in_intake(answers),
            ReviewStage::Clock { days, .. } => was_in_intake(answers) && days <= MAX_REVIEW_DAYS,
            ReviewStage::Labeling { days, .. } => was_in_intake(answers) && days <= MAX_REVIEW_DAYS,
            ReviewStage::Ping { days, .. } => was_in_intake(answers) && days <= MAX_REVIEW_DAYS,
            ReviewStage::Posting { days, .. } => was_in_intake(answers) && days <= MAX_REVIEW_DAYS,
            ReviewStage::Commenting(m) => was_in_intake(answers) && m.days <= MAX_REVIEW_DAYS,
            ReviewStage::SettingForum(m) => was_in_intake(answers) && m.days <= MAX_REVIEW_DAYS,
            ReviewStage::SettingThread(m) => {
                &&& was_in_intake(answers)
                &&& m.days <= MAX_REVIEW_DAYS
                &&& m.discussion.forum_id == m.forum
            },
            ReviewStage::SettingTriagedBy(m) => {
                &&& was_in_intake(answers)
                &&& m.days <= MAX_REVIEW_DAYS
                &&& m.discussion.forum_id == m.forum
                &&& m.discussion.thread_id == m.thread
            },
            ReviewStage::DeletingBody(m) => self.moved(m, answers),
            ReviewStage::TimerClock(m) => self.moved(m, answers),
            ReviewStage::SettingTimer { moving, .. } => self.moved(moving, answers),
            ReviewStage::Removing { discussion } => {
                &&& was_in_intake(answers)
                &&& discussion.triaged_by == Some(self.user)
                &&& discussion.review_days_total is Some
                &&& discussion.review_days_total->0 <= MAX_REVIEW_DAYS
                &&& discussion.review_days_passed == Some(0u64)
                &&& discussion.review_days_next_micros is Some
            },
        }
    }

    /// What holds of a discussion that was moved to its review.
    pub open spec fn moved(self, m: Moving, answers: Seq<Answer>) -> bool {
        &&& was_in_intake(answers)
        &&& m.days <= MAX_REVIEW_DAYS
        &&& m.discussion.forum_id == m.forum
        &&& m.discussion.thread_id == m.thread
        &&& m.discussion.triaged_by == Some(self.user)
    }
}

proof fn lemma_review_holds(run: StartReview, answers: Seq<Answer>)
    requires
        run.stage is New,
    ensures
        after(run, answers).holds(answers),
        after(run, answers).user == run.user,
    decreases answers.len(),
{
    if answers.len() > 0 {
        let before = answers.drop_last();
        lemma_review_holds(run, before);
        lemma_seen_stays(answers);
        let now = after(run, before);
        match now.stage {
            ReviewStage::New => {
                lemma_preamble_step(Preamble::New { pr_id: now.pr_id }, answers);
            },
            ReviewStage::Preamble(preamble) => {
                lemma_preamble_step(preamble, answers);
            },
            _ => {},
        }
    }
}

/// Whether an action changes anything on GitHub, in the database or in a forum.
pub open spec fn has_effect(action: Action) -> bool {
    match action {
        Action::AddLabel(_, _) => true,
        Action::PostComment(_, _) => true,
        Action::CreatePost(_, _) => true,
        Action::DeleteThread(_) => true,
        Action::Database(Statement::SelectDiscussionByPr { .. }) => false,
        Action::Database(_) => true,
        _ => false,
    }
}

/// A review is started only from the intake forum: until the thread of the discussion was found
/// to be there, nothing is changed.
pub proof fn law_review_starts_from_intake(run: StartReview, answers: Seq<Answer>)
    requires
        run.stage is New,
        answers.len() > 0,
        has_effect(action_on(run, answers)),
    ensures
        was_in_intake(answers.drop_last()),
{
    lemma_review_holds(run, answers.drop_last());
}

/// No review is announced, or set in the database, to last longer than `MAX_REVIEW_DAYS`.
pub proof fn law_reviews_are_bounded(run: StartReview, answers: Seq<Answer>)
    requires
        run.stage is New,
        answers.len() > 0,
    ensures
        match action_on(run, answers) {
            Action::PostComment(_, Comment::ReviewStarted { days, .. }) => days <= MAX_REVIEW_DAYS,
            Action::CreatePost(_, Post::Review { days, .. }) => days <= MAX_REVIEW_DAYS,
            Action::Database(Statement::UpdateReviewTime { total, passed, .. }) => 0 <= total
                <= MAX_REVIEW_DAYS && passed == 0,
            _ => true,
        },
{
    lemma_review_holds(run, answers.drop_last());
    let now = after(run, answers.drop_last());
    if let ReviewStage::TimerClock(m) = now.stage {
        let d = m.days;
        assert(d <= 90 ==> 0 <= (d as i64) && (d as i64) <= 90) by (bit_vector);
    }
}

/// The words with which the user is told what went wrong.
pub open spec fn failure_notice(error: HandledError) -> Action {
    Action::Respond { text: Text::Error { before: "Error: ", error, after: "" }, ephemeral: false }
}

/// Whether the user was told what went wrong.
pub open spec fn was_told<F: Flow>(first: F, answers: Seq<Answer>) -> bool {
    exists|error: HandledError| did(first, answers, #[trigger] failure_notice(error))
}

proof fn lemma_told<F: Flow>(first: F, answers: Seq<Answer>)
    requires
        answers.len() > 0,
    ensures
        was_told(first, answers.drop_last()) ==> was_told(first, answers),
        forall|error: HandledError|
            action_on(first, answers) == #[trigger] failure_notice(error) ==> was_told(
                first,
                answers,
            ),
{
    lemma_did(first, answers);
    let before = answers.drop_last();
    if was_told(first, before) {
        let error = choose|error: HandledError|
            did(first, before, #[trigger] failure_notice(error));
        assert(did(first, answers, failure_notice(error)));
    }
    assert forall|error: HandledError|
        action_on(first, answers) == #[trigger] failure_notice(error) implies was_told(
        first,
        answers,
    ) by {
        assert(did(first, answers, failure_notice(error)));
    }
}

impl StartReview {
    /// Whether the database was told the forum of a review.
    pub open spec fn wrote_forum(self, answers: Seq<Answer>, pr_id: u64, forum: ChannelId) -> bool {
        did(
            self,
            answers,
            Action::Database(
                Statement::UpdateForum { pr_id: column_of(pr_id), forum_id: column_of(forum@) },
            ),
        )
    }

    /// Whether the database was told the thread of a review.
    pub open spec fn wrote_thread(self, answers: Seq<Answer>, pr_id: u64, thread: ChannelId) -> bool {
        did(
            self,
            answers,
            Action::Database(
                Statement::UpdateThread { pr_id: column_of(pr_id), thread_id: column_of(thread@) },
            ),
        )
    }

    /// Whether the database was told who triaged the pull request.
    pub open spec fn wrote_triaged_by(self, answers: Seq<Answer>, pr_id: u64) -> bool {
        did(
            self,
            answers,
            Action::Database(
                Statement::UpdateTriagedBy {
                    pr_id: column_of(pr_id),
                    triaged_by: column_of(self.user@),
                },
            ),
        )
    }

    /// Whether the database was told to forget the description.
    pub open spec fn cleared_body(self, answers: Seq<Answer>, pr_id: u64) -> bool {
        did(self, answers, Action::Database(Statement::ClearBody { pr_id: column_of(pr_id) }))
    }

    /// Whether the database was told of the review clock.
    pub open spec fn wrote_clock(
        self,
        answers: Seq<Answer>,
        pr_id: u64,
        days: u64,
        next_micros: i64,
    ) -> bool {
        did(
            self,
            answers,
            Action::Database(
                Statement::UpdateReviewTime {
                    pr_id: column_of(pr_id),
                    total: column_of(days),
                    passed: 0,
                    next_micros,
                },
            ),
        )
    }

    /// Whether a discussion was moved to its review in the database too: its forum, its thread and
    /// the one who triaged it are written, and its description is forgotten.
    pub open spec fn wrote_move(self, answers: Seq<Answer>, m: Moving) -> bool {
        &&& self.wrote_forum(answers, m.discussion.pr_id, m.forum)
        &&& self.wrote_thread(answers, m.discussion.pr_id, m.thread)
        &&& self.wrote_triaged_by(answers, m.discussion.pr_id)
        &&& self.cleared_body(answers, m.discussion.pr_id)
    }

    /// Whether a discussion is under review, and the database was told all of it.
    pub open spec fn started(self, answers: Seq<Answer>, discussion: DiscussionRecord) -> bool {
        &&& discussion.triaged_by == Some(self.user)
        &&& discussion.review_days_total is Some
        &&& discussion.review_days_total->0 <= MAX_REVIEW_DAYS
        &&& discussion.review_days_passed == Some(0u64)
        &&& discussion.review_days_next_micros is Some
        &&& self.wrote_forum(answers, discussion.pr_id, discussion.forum_id)
        &&& self.wrote_thread(answers, discussion.pr_id, discussion.thread_id)
        &&& self.wrote_triaged_by(answers, discussion.pr_id)
        &&& self.cleared_body(answers, discussion.pr_id)
        &&& self.wrote_clock(
            answers,
            discussion.pr_id,
            discussion.review_days_total->0,
            discussion.review_days_next_micros->0,
        )
    }

    /// Whether the run has an end that the user knows of: a review was started, or they were told
    /// why not. The one other end is that of the calendar.
    pub open spec fn is_answered(self, answers: Seq<Answer>) -> bool {
        ||| was_told(self, answers)
        ||| exists|discussion: DiscussionRecord| #[trigger] self.started(answers, discussion)
        ||| did(self, answers, Action::Fault("The calendar has no next day."))
    }

    /// What the run has written after some answers.
    pub open spec fn has_written(self, first: StartReview, answers: Seq<Answer>) -> bool {
        match self.stage {
            ReviewStage::SettingForum(m) => first.wrote_forum(
                answers,
                m.discussion.pr_id,
                m.forum,
            ),
            ReviewStage::SettingThread(m) => {
                &&& first.wrote_forum(answers, m.discussion.pr_id, m.forum)
                &&& first.wrote_thread(answers, m.discussion.pr_id, m.thread)
            },
            ReviewStage::SettingTriagedBy(m) => {
                &&& first.wrote_forum(answers, m.discussion.pr_id, m.forum)
                &&& first.wrote_thread(answers, m.discussion.pr_id, m.thread)
                &&& first.wrote_triaged_by(answers, m.discussion.pr_id)
            },
            ReviewStage::DeletingBody(m) => first.wrote_move(answers, m),
            ReviewStage::TimerClock(m) => first.wrote_move(answers, m),
            ReviewStage::SettingTimer { moving, next_micros } => {
                &&& first.wrote_move(answers, moving)
                &&& first.wrote_clock(answers, moving.discussion.pr_id, moving.days, next_micros)
            },
            ReviewStage::Removing { discussion } => first.started(answers, discussion),
            ReviewStage::Telling => was_told(first, answers),
            ReviewStage::Over => first.is_answered(answers),
            _ => true,
        }
    }
}

proof fn lemma_started_stays(first: StartReview, answers: Seq<Answer>)
    requires
        answers.len() > 0,
    ensures
        forall|discussion: DiscussionRecord| #[trigger]
            first.started(answers.drop_last(), discussion) ==> first.started(answers, discussion),
        first.is_answered(answers.drop_last()) ==> first.is_answered(answers),
{
    lemma_did(first, answers);
    lemma_told(first, answers);
    let before = answers.drop_last();
    if exists|discussion: DiscussionRecord| #[trigger] first.started(before, discussion) {
        let discussion = choose|discussion: DiscussionRecord| #[trigger]
            first.started(before, discussion);
        assert(first.started(answers, discussion));
    }
}

proof fn lemma_review_writes(first: StartReview, answers: Seq<Answer>)
    requires
        first.stage is New,
    ensures
        after(first, answers).has_written(first, answers),
    decreases answers.len(),
{
    if answers.len() > 0 {
        let before = answers.drop_last();
        lemma_review_writes(first, before);
        lemma_review_holds(first, before);
        lemma_review_holds(first, answers);
        lemma_did(first, answers);
        lemma_told(first, answers);
        lemma_started_stays(first, answers);
        let now = after(first, before);
        let action = now.next(answers.last()).1;
        assert(action == action_on(first, answers));
        if let Action::Respond { text: Text::Error { error, .. }, .. } = action {
            assert(action == failure_notice(error));
        }
        if let ReviewStage::Removing { discussion } = now.stage {
            assert(first.started(answers, discussion));
        }
    }
}

/// When the thread in the intake forum is removed, the discussion has its new forum and thread,
/// the one who triaged it, and a review clock that stands at its beginning; all of that was written
/// to the database.
pub proof fn law_started_review_is_complete(run: StartReview, answers: Seq<Answer>)
    requires
        run.stage is New,
    ensures
        after(run, answers).stage matches ReviewStage::Removing { discussion } ==> {
            &&& discussion.well_formed()
            &&& run.started(answers, discussion)
        },
{
    lemma_review_writes(run, answers);
}

/// The start of a review never ends in silence: a run is over only once the review was started, or
/// the user was told why it was not, or the calendar has come to its end.
pub proof fn law_review_start_is_answered(run: StartReview, answers: Seq<Answer>)
    requires
        run.stage is New,
        after(run, answers).stage is Over,
    ensures
        run.is_answered(answers),
{
    lemma_review_writes(run, answers);
}

impl StartReview {
    /// Whether a step tells the user of an error, and the run is over after it, whether or not they
    /// could be told.
    pub open spec fn tells(step: (StartReview, Action), error: HandledError) -> bool {
        &&& step.1 == (Action::Respond {
            text: Text::Error { before: "Error: ", error, after: "" },
            ephemeral: false,
        })
        &&& forall|answer: Answer| (#[trigger] step.0.next(answer)).1 == Action::Finish
    }

    /// Whether a step tells the user of a reason, and the run is over after it.
    pub open spec fn explains(step: (StartReview, Action), reason: &'static str) -> bool {
        Self::tells(step, HandledError::UserfacingError(reason))
    }
}

/// The start of a review goes from the press on a button to the form: the discussion of the pull
/// request is looked up, its thread is found to be in the intake forum, and the forum is the public
/// or the private one, as the button says. What is missing on the way is told to the user, and
/// nothing is done.
pub proof fn law_review_begins_with_a_form(
    run: StartReview,
    row: DiscussionRow,
    channel: GuildChannel,
    intake: ChannelId,
    forum: ChannelId,
    label: String,
)
    requires
        run.stage is New,
        channel.parent == Some(intake),
    ensures
        ({
            let (r1, a1) = run.next(Answer::Start);
            let (r2, a2) = r1.next(Answer::Discussion(Ok(row)));
            let (r3, a3) = r2.next(Answer::Channel(Some(channel)));
            let (r4, a4) = r3.next(Answer::ForumIs(Some(intake)));
            let (r5, a5) = r4.next(Answer::ForumIs(Some(forum)));
            let (r6, a6) = r5.next(Answer::LabelIs(Some(label)));
            &&& a1 == Action::Database(Statement::SelectDiscussionByPr { pr_id: column_of(run.pr_id) })
            &&& a2 == Action::FetchChannel(row.thread_id)
            &&& a3 == Action::ReadForum(ForumSetting::Intake)
            &&& run.private ==> a4 == Action::ReadForum(ForumSetting::Private)
            &&& !run.private ==> a4 == Action::ReadForum(ForumSetting::Public)
            &&& a5 == Action::ReadLabel(LabelSetting::UnderReview)
            &&& a6 == Action::ShowReviewForm
            // what may be missing
            &&& forall|error: DbError|
                StartReview::tells(
                    #[trigger] r1.next(Answer::Discussion(Err(error))),
                    HandledError::InternalError,
                )
            &&& StartReview::tells(r2.next(Answer::Channel(None)), HandledError::InternalError)
            &&& forall|other: ChannelId|
                other != intake ==> StartReview::tells(
                    #[trigger] r3.next(Answer::ForumIs(Some(other))),
                    HandledError::InternalError,
                )
            &&& StartReview::explains(
                r3.next(Answer::ForumIs(None)),
                "Can't process triage button press with intake forum unset.",
            )
            &&& run.private ==> StartReview::explains(
                r4.next(Answer::ForumIs(None)),
                "Can't process review start with private forum unset.",
            )
            &&& !run.private ==> StartReview::explains(
                r4.next(Answer::ForumIs(None)),
                "Can't process review start with public forum unset.",
            )
            &&& StartReview::explains(
                r5.next(Answer::LabelIs(None)),
                "Can't process review start with under review label unset.",
            )
        }),
{
}

/// What a team member enters for a review decides what becomes of it: as many days as they say, up
/// to 90, with their reasoning. What is no number, or is too large a number, is told to them, and
/// nothing is done.
pub proof fn law_review_form_decides(
    run: StartReview,
    row: DiscussionRow,
    channel: GuildChannel,
    intake: ChannelId,
    forum: ChannelId,
    label: String,
    settings: ReviewSettings,
    days: u64,
)
    requires
        run.stage is New,
        channel.parent == Some(intake),
    ensures
        ({
            let form = run.next(Answer::Start).0.next(Answer::Discussion(Ok(row))).0.next(
                Answer::Channel(Some(channel)),
            ).0.next(Answer::ForumIs(Some(intake))).0.next(Answer::ForumIs(Some(forum))).0.next(
                Answer::LabelIs(Some(label)),
            ).0;
            let step = form.next(Answer::ReviewForm(Ok(Some(settings))));
            &&& u64_from(settings.review_time_days@) is None ==> StartReview::explains(
                step,
                "Failed to parse review time.",
            )
            &&& u64_from(settings.review_time_days@) == Some(days) && days > 90
                ==> StartReview::explains(
                step,
                "Invalid review time provided. It can't be longer than 90 days.",
            )
            &&& u64_from(settings.review_time_days@) == Some(days) && days <= 90 ==> step.1
                == Action::ReadClock
            &&& StartReview::explains(form.next(Answer::ReviewForm(Ok(None))), "test")
            &&& StartReview::tells(
                form.next(Answer::ReviewForm(Err(()))),
                HandledError::InternalError,
            )
        }),
{
}

/// A review is started as the button and the form say, for every pull request, forum, label, number
/// of days and thread: the pull request is labelled, the review is posted in the forum and announced
/// on GitHub as public or private, with the reasoning, the days, the thread and the one who pressed
/// the button; then the database learns all of it, the clock runs from now on with a reminder after
/// one day, and the thread in the intake forum goes. Whatever fails on the way ends it, and the user
/// is told.
pub proof fn law_review_is_started_as_asked(
    run: StartReview,
    row: DiscussionRow,
    channel: GuildChannel,
    intake: ChannelId,
    forum: ChannelId,
    label: String,
    settings: ReviewSettings,
    days: u64,
    now: i64,
    due: i64,
    ping: Option<RoleId>,
    thread: NewThread,
    later: i64,
    tomorrow: i64,
)
    requires
        run.stage is New,
        channel.parent == Some(intake),
        u64_from(settings.review_time_days@) == Some(days),
        days <= 90,
        due == now + days * 86_400_000_000,
        tomorrow == later + 86_400_000_000,
        0 <= now,
        0 <= later,
        due <= LAST_MICROS,
        tomorrow <= LAST_MICROS,
    ensures
        ({
            let form = run.next(Answer::Start).0.next(Answer::Discussion(Ok(row))).0.next(
                Answer::Channel(Some(channel)),
            ).0.next(Answer::ForumIs(Some(intake))).0.next(Answer::ForumIs(Some(forum))).0.next(
                Answer::LabelIs(Some(label)),
            ).0;
            let pr_id = value_of(row.pr_id);
            let (r1, a1) = form.next(Answer::ReviewForm(Ok(Some(settings))));
            let (r2, a2) = r1.next(Answer::Now(now));
            let (r3, a3) = r2.next(Answer::Done);
            let (r4, a4) = r3.next(Answer::PingRoleIs(ping));
            let (r5, a5) = r4.next(Answer::Posted(Some(thread)));
            let (r6, a6) = r5.next(Answer::Done);
            let (r7, a7) = r6.next(Answer::Written(Ok(())));
            let (r8, a8) = r7.next(Answer::Written(Ok(())));
            let (r9, a9) = r8.next(Answer::Written(Ok(())));
            let (r10, a10) = r9.next(Answer::Written(Ok(())));
            let (r11, a11) = r10.next(Answer::Now(later));
            let (r12, a12) = r11.next(Answer::Written(Ok(())));
            &&& a1 == Action::ReadClock
            &&& a2 == Action::AddLabel(pr_id, label)
            &&& a3 == Action::ReadPingRole
            &&& a4 matches Action::CreatePost(place, post) && place == forum && post == (
            Post::Review {
                pr_id,
                pr_title: row.pr_title,
                pr_author: row.pr_author,
                pr_body: row.pr_body,
                triaged_by: run.user_name,
                reasoning: settings.reasoning,
                days,
                due: (due as int / 1_000_000) as i64,
                ping,
            })
            &&& a5 == Action::PostComment(
                pr_id,
                Comment::ReviewStarted {
                    by: run.user_name,
                    private: run.private,
                    reasoning: settings.reasoning,
                    guild: thread.guild,
                    thread: thread.id,
                    days,
                },
            )
            &&& a6 == Action::Database(
                Statement::UpdateForum { pr_id: row.pr_id, forum_id: column_of(forum@) },
            )
            &&& a7 == Action::Database(
                Statement::UpdateThread { pr_id: row.pr_id, thread_id: column_of(thread.id@) },
            )
            &&& a8 == Action::Database(
                Statement::UpdateTriagedBy { pr_id: row.pr_id, triaged_by: column_of(run.user@) },
            )
            &&& a9 == Action::Database(Statement::ClearBody { pr_id: row.pr_id })
            &&& a10 == Action::ReadClock
            &&& a11 == Action::Database(
                Statement::UpdateReviewTime {
                    pr_id: row.pr_id,
                    total: days as i64,
                    passed: 0,
                    next_micros: tomorrow,
                },
            )
            &&& a12 == Action::DeleteThread(row.thread_id)
            &&& r12.next(Answer::Done).1 == Action::Finish
            // what may fail
            &&& StartReview::explains(
                r2.next(Answer::Failed),
                "Failed to set under review label on GitHub.",
            )
            &&& StartReview::explains(
                r4.next(Answer::Posted(None)),
                "Failed to create forum post.",
            )
            &&& StartReview::explains(r5.next(Answer::Failed), "Failed to add GitHub comment.")
            &&& forall|error: DbError|
                {
                    &&& StartReview::tells(
                        #[trigger] r6.next(Answer::Written(Err(error))),
                        HandledError::InternalError,
                    )
                    &&& StartReview::tells(
                        r7.next(Answer::Written(Err(error))),
                        HandledError::InternalError,
                    )
                    &&& StartReview::tells(
                        r8.next(Answer::Written(Err(error))),
                        HandledError::InternalError,
                    )
                    &&& StartReview::tells(
                        r9.next(Answer::Written(Err(error))),
                        HandledError::InternalError,
                    )
                    &&& StartReview::tells(
                        r11.next(Answer::Written(Err(error))),
                        HandledError::InternalError,
                    )
                }
            &&& StartReview::explains(
                r12.next(Answer::Failed),
                "Failed to delete intake discussion.",
            )
        }),
{
    crate::discord::ids::law_value_round_trip(row.pr_id);
    assert(days <= 90 ==> (days as i64) == days) by (bit_vector);
}

impl StartReview {
    /// Whether the discussion of the pull request was found.
    pub open spec fn was_found(self, answers: Seq<Answer>, discussion: DiscussionRecord) -> bool {
        exists|row: DiscussionRow| #[trigger]
            was_answered(
                self,
                answers,
                Action::Database(Statement::SelectDiscussionByPr { pr_id: column_of(self.pr_id) }),
                Answer::Discussion(Ok(row)),
            ) && by_pr_result(Ok(row)) == Some(discussion)
    }

    /// Whether a forum was read from the setting that the button stands for.
    pub open spec fn forum_read(self, answers: Seq<Answer>, forum: ChannelId) -> bool {
        was_answered(
            self,
            answers,
            Action::ReadForum(
                if self.private {
                    ForumSetting::Private
                } else {
                    ForumSetting::Public
                },
            ),
            Answer::ForumIs(Some(forum)),
        )
    }

    /// Whether days and reasoning were entered.
    pub open spec fn was_entered(
        self,
        answers: Seq<Answer>,
        days: u64,
        reasoning: Option<String>,
    ) -> bool {
        exists|settings: ReviewSettings| #[trigger]
            was_answered(
                self,
                answers,
                Action::ShowReviewForm,
                Answer::ReviewForm(Ok(Some(settings))),
            ) && u64_from(settings.review_time_days@) == Some(days) && settings.reasoning
                == reasoning
    }

    /// Whether the clock was seen to stand a number of days before a point in time.
    pub open spec fn is_due(self, answers: Seq<Answer>, days: u64, due: i64) -> bool {
        exists|now: i64| #[trigger]
            was_answered(self, answers, Action::ReadClock, Answer::Now(now)) && due == now + days
                * 86_400_000_000
    }

    /// Whether a thread was started in a forum.
    pub open spec fn was_posted(
        self,
        answers: Seq<Answer>,
        forum: ChannelId,
        thread: NewThread,
    ) -> bool {
        exists|post: Post| #[trigger]
            was_answered(
                self,
                answers,
                Action::CreatePost(forum, post),
                Answer::Posted(Some(thread)),
            )
    }

    /// What is known of a discussion that is about to be moved.
    pub open spec fn knows_settings(
        self,
        answers: Seq<Answer>,
        discussion: DiscussionRecord,
        forum: ChannelId,
        days: u64,
        reasoning: Option<String>,
    ) -> bool {
        &&& self.was_found(answers, discussion)
        &&& self.forum_read(answers, forum)
        &&& self.was_entered(answers, days, reasoning)
    }

    /// What is known of a discussion that is being moved.
    pub open spec fn knows_move(self, answers: Seq<Answer>, m: Moving) -> bool {
        exists|d: DiscussionRecord, thread: NewThread, reasoning: Option<String>|
            {
                &&& #[trigger] self.knows_settings(answers, d, m.forum, m.days, reasoning)
                &&& #[trigger] self.was_posted(answers, m.forum, thread)
                &&& thread.id == m.thread
                &&& d.pr_id == m.discussion.pr_id
                &&& d.thread_id == m.intake_thread
            }
    }

    /// Whether a post is that of the review that was decided upon.
    pub open spec fn is_as_decided(
        self,
        answers: Seq<Answer>,
        forum: ChannelId,
        post: Post,
    ) -> bool {
        match post {
            Post::Review { triaged_by, reasoning, days, due, .. } => {
                &&& self.forum_read(answers, forum)
                &&& triaged_by == self.user_name
                &&& self.was_entered(answers, days, reasoning)
                &&& self.ends_at(answers, days, due)
                &&& exists|d: DiscussionRecord| #[trigger] self.presents(answers, d, post)
            },
            _ => false,
        }
    }

    /// Whether a second is the one in which a number of days from now end.
    pub open spec fn ends_at(self, answers: Seq<Answer>, days: u64, due: i64) -> bool {
        exists|micros: i64| #[trigger]
            self.is_due(answers, days, micros) && due == micros as int / 1_000_000
    }

    /// Whether a post is about the pull request of a discussion that was found.
    pub open spec fn presents(
        self,
        answers: Seq<Answer>,
        d: DiscussionRecord,
        post: Post,
    ) -> bool {
        &&& self.was_found(answers, d)
        &&& post matches Post::Review { pr_id, pr_title, pr_author, pr_body, .. } && pr_id == d.pr_id
            && pr_title == d.pr_title && pr_author == d.pr_author && pr_body == d.pr_body
    }

    /// What is known at a stage of a run that began as this one.
    pub open spec fn knows(self, answers: Seq<Answer>, stage: ReviewStage) -> bool {
        match stage {
            ReviewStage::Preamble(Preamble::Lookup) => {
                &&& answers.len() > 0
                &&& action_on(self, answers) == Action::Database(
                    Statement::SelectDiscussionByPr { pr_id: column_of(self.pr_id) },
                )
            },
            ReviewStage::Preamble(Preamble::New { .. }) => false,
            ReviewStage::Preamble(Preamble::Channel { discussion }) => self.was_found(
                answers,
                discussion,
            ),
            ReviewStage::Preamble(Preamble::Intake { discussion, .. }) => self.was_found(
                answers,
                discussion,
            ),
            ReviewStage::Forum { discussion } => {
                &&& answers.len() > 0
                &&& action_on(self, answers) == Action::ReadForum(
                    if self.private {
                        ForumSetting::Private
                    } else {
                        ForumSetting::Public
                    },
                )
                &&& self.was_found(answers, discussion)
            },
            ReviewStage::Label { discussion, forum } => {
                &&& answers.len() > 0
                &&& action_on(self, answers) == Action::ReadLabel(LabelSetting::UnderReview)
                &&& self.was_found(answers, discussion)
                &&& self.forum_read(answers, forum)
            },
            ReviewStage::Form { discussion, forum, label } => {
                &&& answers.len() > 0
                &&& action_on(self, answers) == Action::ShowReviewForm
                &&& self.was_found(answers, discussion)
                &&& self.forum_read(answers, forum)
                &&& label_read(self, answers, LabelSetting::UnderReview, label)
            },
            ReviewStage::Clock { discussion, forum, label, days, reasoning } => {
                &&& answers.len() > 0
                &&& action_on(self, answers) == Action::ReadClock
                &&& self.knows_settings(answers, discussion, forum, days, reasoning)
                &&& label_read(self, answers, LabelSetting::UnderReview, label)
            },
            ReviewStage::Labeling { discussion, forum, days, due, reasoning } => {
                &&& self.knows_settings(answers, discussion, forum, days, reasoning)
                &&& self.is_due(answers, days, due)
            },
            ReviewStage::Ping { discussion, forum, days, due, reasoning } => {
                &&& self.knows_settings(answers, discussion, forum, days, reasoning)
                &&& self.is_due(answers, days, due)
            },
            ReviewStage::Posting { discussion, forum, days, reasoning } => {
                &&& answers.len() > 0
                &&& action_on(self, answers) matches Action::CreatePost(place, _) && place == forum
                &&& self.knows_settings(answers, discussion, forum, days, reasoning)
            },
            ReviewStage::Commenting(m) => self.knows_move(answers, m),
            ReviewStage::SettingForum(m) => self.knows_move(answers, m),
            ReviewStage::SettingThread(m) => self.knows_move(answers, m),
            ReviewStage::SettingTriagedBy(m) => self.knows_move(answers, m),
            ReviewStage::DeletingBody(m) => self.knows_move(answers, m),
            ReviewStage::TimerClock(m) => {
                &&& answers.len() > 0
                &&& action_on(self, answers) == Action::ReadClock
                &&& self.knows_move(answers, m)
            },
            ReviewStage::SettingTimer { moving, .. } => self.knows_move(answers, moving),
            _ => true,
        }
    }
}

proof fn lemma_known_stays(first: StartReview, answers: Seq<Answer>)
    requires
        answers.len() > 0,
    ensures
        forall|d: DiscussionRecord| #[trigger]
            first.was_found(answers.drop_last(), d) ==> first.was_found(answers, d),
        forall|f: ChannelId| #[trigger]
            first.forum_read(answers.drop_last(), f) ==> first.forum_read(answers, f),
        forall|days: u64, reasoning: Option<String>| #[trigger]
            first.was_entered(answers.drop_last(), days, reasoning) ==> first.was_entered(
                answers,
                days,
                reasoning,
            ),
        forall|days: u64, due: i64| #[trigger]
            first.is_due(answers.drop_last(), days, due) ==> first.is_due(answers, days, due),
        forall|forum: ChannelId, thread: NewThread| #[trigger]
            first.was_posted(answers.drop_last(), forum, thread) ==> first.was_posted(
                answers,
                forum,
                thread,
            ),
        forall|m: Moving| #[trigger]
            first.knows_move(answers.drop_last(), m) ==> first.knows_move(answers, m),
        forall|label: String| #[trigger]
            label_read(first, answers.drop_last(), LabelSetting::UnderReview, label) ==> label_read(
                first,
                answers,
                LabelSetting::UnderReview,
                label,
            ),
{
    let before = answers.drop_last();
    lemma_answered(first, answers);
    let question = Action::Database(
        Statement::SelectDiscussionByPr { pr_id: column_of(first.pr_id) },
    );
    assert forall|d: DiscussionRecord| #[trigger] first.was_found(before, d) implies first.was_found(
        answers,
        d,
    ) by {
        let row = choose|row: DiscussionRow| #[trigger]
            was_answered(first, before, question, Answer::Discussion(Ok(row))) && by_pr_result(
                Ok(row),
            ) == Some(d);
        assert(was_answered(first, answers, question, Answer::Discussion(Ok(row))));
    }
    assert forall|days: u64, reasoning: Option<String>| #[trigger]
        first.was_entered(before, days, reasoning) implies first.was_entered(
        answers,
        days,
        reasoning,
    ) by {
        let settings = choose|settings: ReviewSettings| #[trigger]
            was_answered(
                first,
                before,
                Action::ShowReviewForm,
                Answer::ReviewForm(Ok(Some(settings))),
            ) && u64_from(settings.review_time_days@) == Some(days) && settings.reasoning
                == reasoning;
        assert(was_answered(
            first,
            answers,
            Action::ShowReviewForm,
            Answer::ReviewForm(Ok(Some(settings))),
        ));
    }
    assert forall|days: u64, due: i64| #[trigger]
        first.is_due(before, days, due) implies first.is_due(answers, days, due) by {
        let now = choose|now: i64| #[trigger]
            was_answered(first, before, Action::ReadClock, Answer::Now(now)) && due == now + days
                * 86_400_000_000;
        assert(was_answered(first, answers, Action::ReadClock, Answer::Now(now)));
    }
    assert forall|forum: ChannelId, thread: NewThread| #[trigger]
        first.was_posted(before, forum, thread) implies first.was_posted(
        answers,
        forum,
        thread,
    ) by {
        let post = choose|post: Post| #[trigger]
            was_answered(
                first,
                before,
                Action::CreatePost(forum, post),
                Answer::Posted(Some(thread)),
            );
        assert(was_answered(
            first,
            answers,
            Action::CreatePost(forum, post),
            Answer::Posted(Some(thread)),
        ));
    }
    assert forall|m: Moving| #[trigger] first.knows_move(before, m) implies first.knows_move(
        answers,
        m,
    ) by {
        let (d, thread, reasoning) = choose|
            d: DiscussionRecord,
            thread: NewThread,
            reasoning: Option<String>,
        |
            {
                &&& #[trigger] first.knows_settings(before, d, m.forum, m.days, reasoning)
                &&& #[trigger] first.was_posted(before, m.forum, thread)
                &&& thread.id == m.thread
                &&& d.pr_id == m.discussion.pr_id
                &&& d.thread_id == m.intake_thread
            };
        assert(first.knows_settings(answers, d, m.forum, m.days, reasoning));
        assert(first.was_posted(answers, m.forum, thread));
    }
}

proof fn lemma_same_move(first: StartReview, answers: Seq<Answer>, m: Moving, later: Moving)
    requires
        first.knows_move(answers, m),
        later.forum == m.forum,
        later.thread == m.thread,
        later.days == m.days,
        later.intake_thread == m.intake_thread,
        later.discussion.pr_id == m.discussion.pr_id,
    ensures
        first.knows_move(answers, later),
{
    let (d, thread, reasoning) = choose|
        d: DiscussionRecord,
        thread: NewThread,
        reasoning: Option<String>,
    |
        {
            &&& #[trigger] first.knows_settings(answers, d, m.forum, m.days, reasoning)
            &&& #[trigger] first.was_posted(answers, m.forum, thread)
            &&& thread.id == m.thread
            &&& d.pr_id == m.discussion.pr_id
            &&& d.thread_id == m.intake_thread
        };
    assert(first.knows_settings(answers, d, later.forum, later.days, reasoning));
    assert(first.was_posted(answers, later.forum, thread));
}

proof fn lemma_start_stays(run: StartReview, answers: Seq<Answer>)
    ensures
        after(run, answers).pr_id == run.pr_id,
        after(run, answers).private == run.private,
        after(run, answers).user == run.user,
        after(run, answers).user_name == run.user_name,
    decreases answers.len(),
{
    if answers.len() > 0 {
        lemma_start_stays(run, answers.drop_last());
    }
}

#[verifier::rlimit(60)]
proof fn lemma_review_knows(first: StartReview, answers: Seq<Answer>)
    requires
        first.stage is New,
    ensures
        first.knows(answers, after(first, answers).stage),
    decreases answers.len(),
{
    if answers.len() > 0 {
        let before = answers.drop_last();
        let now = after(first, before);
        let answer = answers.last();
        lemma_review_knows(first, before);
        lemma_start_stays(first, before);
        lemma_answered(first, answers);
        lemma_known_stays(first, answers);
        match (now.stage, answer) {
            (ReviewStage::Preamble(Preamble::Lookup), Answer::Discussion(Ok(row))) => {
                assert(was_answered(
                    first,
                    answers,
                    action_on(first, before),
                    Answer::Discussion(Ok(row)),
                ));
                assert(first.was_found(answers, by_pr_result(Ok(row))->0));
            },
            (
                ReviewStage::Form { discussion, forum, label },
                Answer::ReviewForm(Ok(Some(settings))),
            ) => {
                assert(was_answered(
                    first,
                    answers,
                    Action::ShowReviewForm,
                    Answer::ReviewForm(Ok(Some(settings))),
                ));
            },
            (ReviewStage::Clock { days, .. }, Answer::Now(at)) => {
                assert(was_answered(first, answers, Action::ReadClock, Answer::Now(at)));
            },
            (
                ReviewStage::Posting { discussion, forum, days, reasoning },
                Answer::Posted(Some(thread)),
            ) => {
                assert(was_answered(first, answers, action_on(first, before), answer));
                assert(first.was_posted(answers, forum, thread));
                assert(first.knows_settings(answers, discussion, forum, days, reasoning));
                if let ReviewStage::Commenting(m) = after(first, answers).stage {
                    assert(m.forum == forum && m.days == days && m.thread == thread.id);
                    assert(first.knows_settings(answers, discussion, m.forum, m.days, reasoning));
                    assert(first.was_posted(answers, m.forum, thread));
                    assert(first.knows_move(answers, m));
                }
            },
            (ReviewStage::SettingForum(m), _) => {
                if let ReviewStage::SettingThread(later) = after(first, answers).stage {
                    lemma_same_move(first, answers, m, later);
                }
            },
            (ReviewStage::SettingThread(m), _) => {
                if let ReviewStage::SettingTriagedBy(later) = after(first, answers).stage {
                    lemma_same_move(first, answers, m, later);
                }
            },
            (ReviewStage::SettingTriagedBy(m), _) => {
                if let ReviewStage::DeletingBody(later) = after(first, answers).stage {
                    lemma_same_move(first, answers, m, later);
                }
            },
            _ => {},
        }
    }
}

/// What is announced of a review on GitHub is what was decided, whatever the answers are: the
/// comment calls the review private exactly if it is, the days and the reasoning are those of the
/// form, the thread is the one that was just started, and the name is that of the one who pressed
/// the button. Only the label that is set for reviews is added.
pub proof fn law_announced_review_is_as_decided(run: StartReview, answers: Seq<Answer>)
    requires
        run.stage is New,
        answers.len() > 0,
    ensures
        ({
            let before = answers.drop_last();
            match action_on(run, answers) {
                Action::AddLabel(pr_id, label) => {
                    &&& label_read(run, before, LabelSetting::UnderReview, label)
                    &&& exists|d: DiscussionRecord| #[trigger]
                        run.was_found(before, d) && d.pr_id == pr_id
                },
                Action::PostComment(
                    pr_id,
                    Comment::ReviewStarted { by, private, reasoning, guild, thread, days },
                ) => {
                    &&& by == run.user_name
                    &&& private == run.private
                    &&& run.was_entered(before, days, reasoning)
                    &&& answers.last() == Answer::Posted(Some(NewThread { id: thread, guild }))
                    &&& exists|d: DiscussionRecord| #[trigger]
                        run.was_found(before, d) && d.pr_id == pr_id
                },
                Action::PostComment(_, _) => false,
                _ => true,
            }
        }),
{
    let before = answers.drop_last();
    lemma_review_knows(run, before);
    lemma_start_stays(run, before);
    match (after(run, before).stage, answers.last()) {
        (
            ReviewStage::Posting { discussion, forum, days, reasoning },
            Answer::Posted(Some(thread)),
        ) => {
            assert(run.was_found(before, discussion));
        },
        (ReviewStage::Clock { discussion, .. }, _) => {
            assert(run.was_found(before, discussion));
        },
        _ => {},
    }
}

proof fn lemma_seconds_fit(micros: i64)
    ensures
        seconds_of(micros) as i64 == micros as int / 1_000_000,
{
}

/// A review is posted in the forum that the button stands for, whatever the answers are, with the
/// days and the reasoning of the form, the end that many days from now, and the pull request that
/// was found.
pub proof fn law_posted_review_is_as_decided(run: StartReview, answers: Seq<Answer>)
    requires
        run.stage is New,
        answers.len() > 0,
    ensures
        match action_on(run, answers) {
            Action::CreatePost(forum, post) => run.is_as_decided(
                answers.drop_last(),
                forum,
                post,
            ),
            _ => true,
        },
{
    let before = answers.drop_last();
    lemma_review_knows(run, before);
    lemma_start_stays(run, before);
    if let ReviewStage::Ping { discussion, forum, days, due, reasoning } = after(
        run,
        before,
    ).stage {
        assert(run.was_found(before, discussion));
        assert(run.is_due(before, days, due));
        lemma_seconds_fit(due);
        let seconds = seconds_of(due) as i64;
        if let Answer::PingRoleIs(ping) = answers.last() {
            let post = Post::Review {
                pr_id: discussion.pr_id,
                pr_title: discussion.pr_title,
                pr_author: discussion.pr_author,
                pr_body: discussion.pr_body,
                triaged_by: run.user_name,
                reasoning,
                days,
                due: seconds,
                ping,
            };
            assert(run.ends_at(before, days, seconds));
            assert(run.presents(before, discussion, post));
            assert(run.is_as_decided(before, forum, post));
            assert(action_on(run, answers) == Action::CreatePost(forum, post));
        }
    }
}

/// What is written of a review is what was decided, whatever the answers are: the forum that the
/// button stands for, the thread that was started there, the one who pressed the button, the days
/// that were entered with a first reminder after one day, all of the pull request that was found.
/// The thread that goes is the one that the discussion had.
pub proof fn law_written_review_is_as_decided(run: StartReview, answers: Seq<Answer>)
    requires
        run.stage is New,
        answers.len() > 0,
    ensures
        ({
            let before = answers.drop_last();
            match action_on(run, answers) {
                Action::Database(Statement::UpdateForum { pr_id, forum_id }) => exists|m: Moving|
                    {
                        &&& #[trigger] run.knows_move(before, m)
                        &&& pr_id == column_of(m.discussion.pr_id)
                        &&& forum_id == column_of(m.forum@)
                    },
                Action::Database(Statement::UpdateThread { pr_id, thread_id }) => exists|m: Moving|
                    {
                        &&& #[trigger] run.knows_move(before, m)
                        &&& pr_id == column_of(m.discussion.pr_id)
                        &&& thread_id == column_of(m.thread@)
                    },
                Action::Database(Statement::UpdateTriagedBy { pr_id, triaged_by }) => {
                    &&& triaged_by == column_of(run.user@)
                    &&& exists|m: Moving| #[trigger]
                        run.knows_move(before, m) && pr_id == column_of(m.discussion.pr_id)
                },
                Action::Database(Statement::ClearBody { pr_id }) => exists|m: Moving| #[trigger]
                    run.knows_move(before, m) && pr_id == column_of(m.discussion.pr_id),
                Action::Database(
                    Statement::UpdateReviewTime { pr_id, total, passed, next_micros },
                ) => {
                    &&& passed == 0
                    &&& answers.last() matches Answer::Now(now) && next_micros == now
                        + 86_400_000_000
                    &&& exists|m: Moving|
                        {
                            &&& #[trigger] run.knows_move(before, m)
                            &&& pr_id == column_of(m.discussion.pr_id)
                            &&& total == column_of(m.days)
                        }
                },
                Action::DeleteThread(thread) => exists|m: Moving| #[trigger]
                    run.knows_move(before, m) && thread == m.intake_thread,
                Action::Database(Statement::SelectDiscussionByPr { pr_id }) => pr_id == column_of(
                    run.pr_id,
                ),
                Action::Database(_) => false,
                _ => true,
            }
        }),
{
    let before = answers.drop_last();
    lemma_review_knows(run, before);
    lemma_start_stays(run, before);
    match after(run, before).stage {
        ReviewStage::Commenting(m) => {
            assert(run.knows_move(before, m));
        },
        ReviewStage::SettingForum(m) => {
            assert(run.knows_move(before, m));
        },
        ReviewStage::SettingThread(m) => {
            assert(run.knows_move(before, m));
        },
        ReviewStage::SettingTriagedBy(m) => {
            assert(run.knows_move(before, m));
        },
        ReviewStage::TimerClock(m) => {
            assert(run.knows_move(before, m));
        },
        ReviewStage::SettingTimer { moving, .. } => {
            assert(run.knows_move(before, moving));
        },
        _ => {},
    }
}

/// The press on the button that declares a review unnecessary.
#[derive(Debug)]
pub struct NoReview {
    pub pr_id: u64,
    pub user_name: String,
    pub stage: NoReviewStage,
}

/// How far that has got.
#[derive(Debug)]
pub enum NoReviewStage {
    New,
    Preamble(Preamble),
    Label { discussion: DiscussionRecord },
    Deleting { discussion: DiscussionRecord, label: String },
    Labeling { discussion: DiscussionRecord },
    Commenting { discussion: DiscussionRecord },
    Removing,
    /// Telling what went wrong; whether that succeeds makes no difference.
    Telling,
    Over,
}

impl NoReview {
    /// The run at another stage.
    pub open spec fn at(self, stage: NoReviewStage) -> NoReview {
        NoReview { stage, ..self }
    }

    /// Tells what went wrong, and ends.
    pub open spec fn fail(self, error: HandledError) -> (NoReview, Action) {
        (
            self.at(NoReviewStage::Telling),
            Action::Respond {
                text: Text::Error { before: "Error: ", error, after: "" },
                ephemeral: false,
            },
        )
    }

    /// Does a step of the first part, and asks for the label once that is done.
    pub open spec fn prepare(self, preamble: Preamble, answer: Answer) -> (NoReview, Action) {
        match preamble.next(answer) {
            Triage::Ask(later, action) => (self.at(NoReviewStage::Preamble(later)), action),
            Triage::Refused(error) => self.fail(error),
            Triage::Ready { discussion, .. } => (
                self.at(NoReviewStage::Label { discussion }),
                Action::ReadLabel(LabelSetting::NoReviewNeeded),
            ),
        }
    }

    fn with(self, stage: NoReviewStage) -> (r: NoReview)
        ensures
            r == self.at(stage),
    {
        NoReview { pr_id: self.pr_id, user_name: self.user_name, stage }
    }

    fn failed(self, error: HandledError) -> (r: (NoReview, Action))
        ensures
            r == self.fail(error),
    {
        (
            self.with(NoReviewStage::Telling),
            Action::Respond {
                text: Text::Error { before: "Error: ", error, after: "" },
                ephemeral: false,
            },
        )
    }

    fn prepared(self, preamble: Preamble, answer: Answer) -> (r: (NoReview, Action))
        ensures
            r == self.prepare(preamble, answer),
    {
        match triage_preamble(preamble, answer) {
            Triage::Ask(later, action) => (self.with(NoReviewStage::Preamble(later)), action),
            Triage::Refused(error) => self.failed(error),
            Triage::Ready { discussion, .. } => (
                self.with(NoReviewStage::Label { discussion }),
                Action::ReadLabel(LabelSetting::NoReviewNeeded),
            ),
        }
    }
}

impl Flow for NoReview {
    open spec fn next(self, answer: Answer) -> (Self, Action) {
        match (self.stage, answer) {
            (NoReviewStage::New, Answer::Start) => self.prepare(
                Preamble::New { pr_id: self.pr_id },
                answer,
            ),
            (NoReviewStage::Preamble(preamble), _) => self.prepare(preamble, answer),
            (NoReviewStage::Label { discussion }, Answer::LabelIs(Some(label))) => (
                self.at(NoReviewStage::Deleting { discussion, label }),
                Action::Database(Statement::DeleteDiscussion { pr_id: column_of(discussion.pr_id) }),
            ),
            (NoReviewStage::Label { .. }, Answer::LabelIs(None)) => self.fail(
                HandledError::UserfacingError(
                    "Can't process No Review Needed with GitHub label unset.",
                ),
            ),
            (NoReviewStage::Deleting { discussion, label }, Answer::Written(Ok(_))) => (
                self.at(NoReviewStage::Labeling { discussion }),
                Action::AddLabel(discussion.pr_id, label),
            ),
            (NoReviewStage::Labeling { discussion }, Answer::Done) => (
                self.at(NoReviewStage::Commenting { discussion }),
                Action::PostComment(discussion.pr_id, Comment::NotNeeded { by: self.user_name }),
            ),
            (NoReviewStage::Labeling { .. }, _) => self.fail(
                HandledError::UserfacingError("Failed to set GitHub label."),
            ),
            (NoReviewStage::Commenting { discussion }, Answer::Done) => (
                self.at(NoReviewStage::Removing),
                Action::DeleteThread(discussion.thread_id),
            ),
            (NoReviewStage::Commenting { .. }, _) => self.fail(
                HandledError::UserfacingError("Failed to create GitHub comment."),
            ),
            (NoReviewStage::Removing, Answer::Done) => (
                self.at(NoReviewStage::Over),
                Action::Finish,
            ),
            (NoReviewStage::Removing, _) => self.fail(
                HandledError::UserfacingError("Failed to delete intake discussion."),
            ),
            (NoReviewStage::Telling, _) => (self.at(NoReviewStage::Over), Action::Finish),
            (NoReviewStage::Over, _) => (self, Action::Finish),
            _ => self.fail(HandledError::InternalError),
        }
    }
}

impl Run for NoReview {
    fn step(self, answer: Answer) -> (r: (Self, Action)) {
        let by = self.user_name.clone();
        let run = NoReview {
            pr_id: self.pr_id,
            user_name: self.user_name,
            stage: NoReviewStage::Over,
        };
        match (self.stage, answer) {
            (NoReviewStage::New, Answer::Start) => {
                let pr_id: u64 = run.pr_id;
                run.prepared(Preamble::New { pr_id }, Answer::Start)
            },
            (NoReviewStage::Preamble(preamble), answer) => run.prepared(preamble, answer),
            (NoReviewStage::Label { discussion }, Answer::LabelIs(found)) => match found {
                Some(label) => {
                    let statement = discussion.delete_statement();
                    (
                        run.with(NoReviewStage::Deleting { discussion, label }),
                        Action::Database(statement),
                    )
                },
                None => run.failed(
                    HandledError::UserfacingError(
                        "Can't process No Review Needed with GitHub label unset.",
                    ),
                ),
            },
            (NoReviewStage::Deleting { discussion, label }, Answer::Written(written)) => {
                match DiscussionRecord::delete(written) {
                    Ok(_) => {
                        let pr_id: u64 = discussion.pr_id;
                        (
                            run.with(NoReviewStage::Labeling { discussion }),
                            Action::AddLabel(pr_id, label),
                        )
                    },
                    Err(e) => run.failed(e),
                }
            },
            (NoReviewStage::Labeling { discussion }, answer) => match answer {
                Answer::Done => {
                    let pr_id: u64 = discussion.pr_id;
                    (
                        run.with(NoReviewStage::Commenting { discussion }),
                        Action::PostComment(pr_id, Comment::NotNeeded { by }),
                    )
                },
                _ => run.failed(HandledError::UserfacingError("Failed to set GitHub label.")),
            },
            (NoReviewStage::Commenting { discussion }, answer) => match answer {
                Answer::Done => (
                    run.with(NoReviewStage::Removing),
                    Action::DeleteThread(discussion.thread_id),
                ),
                _ => run.failed(HandledError::UserfacingError("Failed to create GitHub comment.")),
            },
            (NoReviewStage::Removing, answer) => match answer {
                Answer::Done => (run, Action::Finish),
                _ => run.failed(
                    HandledError::UserfacingError("Failed to delete intake discussion."),
                ),
            },
            (NoReviewStage::Telling, _) => (run, Action::Finish),
            (NoReviewStage::Over, _) => (run, Action::Finish),
            _ => run.failed(HandledError::InternalError),
        }
    }
}

/// A step of declaring a review unnecessary.
pub fn button_click_no_review_needed_task(run: NoReview, answer: Answer) -> (r: (NoReview, Action))
    ensures
        r == run.next(answer),
{
    run.step(answer)
}

impl NoReview {
    /// What holds of the run after some answers: past its first part, the thread was in the intake
    /// forum.
    pub open spec fn holds(self, answers: Seq<Answer>) -> bool {
        match self.stage {
            NoReviewStage::New => true,
            NoReviewStage::Telling => true,
            NoReviewStage::Over => true,
            NoReviewStage::Preamble(preamble) => preamble_holds(preamble, answers),
            _ => was_in_intake(answers),
        }
    }
}

proof fn lemma_no_review_holds(run: NoReview, answers: Seq<Answer>)
    requires
        run.stage is New,
    ensures
        after(run, answers).holds(answers),
    decreases answers.len(),
{
    if answers.len() > 0 {
        let before = answers.drop_last();
        lemma_no_review_holds(run, before);
        lemma_seen_stays(answers);
        let now = after(run, before);
        match now.stage {
            NoReviewStage::New => {
                lemma_preamble_step(Preamble::New { pr_id: now.pr_id }, answers);
            },
            NoReviewStage::Preamble(preamble) => {
                lemma_preamble_step(preamble, answers);
            },
            _ => {},
        }
    }
}

/// A review is declared unnecessary only from the intake forum: until the thread of the discussion
/// was found to be there, nothing is changed.
pub proof fn law_dismissal_is_from_intake(run: NoReview, answers: Seq<Answer>)
    requires
        run.stage is New,
        answers.len() > 0,
        has_effect(action_on(run, answers)),
    ensures
        was_in_intake(answers.drop_last()),
{
    lemma_no_review_holds(run, answers.drop_last());
}

impl NoReview {
    /// Whether a pull request is out of the review: its discussion was removed, and a comment says
    /// by whom it was decided.
    pub open spec fn dismissed(self, answers: Seq<Answer>, discussion: DiscussionRecord) -> bool {
        &&& did(
            self,
            answers,
            Action::Database(Statement::DeleteDiscussion { pr_id: column_of(discussion.pr_id) }),
        )
        &&& did(
            self,
            answers,
            Action::PostComment(discussion.pr_id, Comment::NotNeeded { by: self.user_name }),
        )
        &&& did(self, answers, Action::DeleteThread(discussion.thread_id))
    }

    /// Whether the run has an end that the user knows of: the pull request is out of the review, or
    /// they were told why not.
    pub open spec fn is_answered(self, answers: Seq<Answer>) -> bool {
        ||| was_told(self, answers)
        ||| exists|discussion: DiscussionRecord| #[trigger] self.dismissed(answers, discussion)
    }

    /// What the run has done after some answers.
    pub open spec fn has_done(self, first: NoReview, answers: Seq<Answer>) -> bool {
        &&& self.user_name == first.user_name
        &&& match self.stage {
            NoReviewStage::Deleting { discussion, .. } => first.deleted(answers, discussion),
            NoReviewStage::Labeling { discussion } => first.deleted(answers, discussion),
            NoReviewStage::Commenting { discussion } => {
                &&& first.deleted(answers, discussion)
                &&& did(
                    first,
                    answers,
                    Action::PostComment(
                        discussion.pr_id,
                        Comment::NotNeeded { by: first.user_name },
                    ),
                )
            },
            NoReviewStage::Removing => first.is_answered(answers),
            NoReviewStage::Telling => was_told(first, answers),
            NoReviewStage::Over => first.is_answered(answers),
            _ => true,
        }
    }

    /// Whether the discussion was removed from the database.
    pub open spec fn deleted(self, answers: Seq<Answer>, discussion: DiscussionRecord) -> bool {
        did(
            self,
            answers,
            Action::Database(Statement::DeleteDiscussion { pr_id: column_of(discussion.pr_id) }),
        )
    }
}

proof fn lemma_no_review_does(first: NoReview, answers: Seq<Answer>)
    requires
        first.stage is New,
    ensures
        after(first, answers).has_done(first, answers),
    decreases answers.len(),
{
    if answers.len() > 0 {
        let before = answers.drop_last();
        lemma_no_review_does(first, before);
        lemma_did(first, answers);
        lemma_told(first, answers);
        let now = after(first, before);
        let (later, action) = now.next(answers.last());
        assert(action == action_on(first, answers));
        if let Action::Respond { text: Text::Error { error, .. }, .. } = action {
            assert(action == failure_notice(error));
        }
        if first.is_answered(before) && !was_told(first, before) {
            let discussion = choose|discussion: DiscussionRecord| #[trigger]
                first.dismissed(before, discussion);
            assert(first.dismissed(answers, discussion));
        }
        if let NoReviewStage::Commenting { discussion } = now.stage {
            if later.stage is Removing {
                assert(first.dismissed(answers, discussion));
            }
        }
    }
}

/// A press on the button that declares a review unnecessary never ends in silence: a run is over
/// only once the pull request is out of the review, or the user was told what went wrong.
pub proof fn law_dismissal_is_answered(run: NoReview, answers: Seq<Answer>)
    requires
        run.stage is New,
        after(run, answers).stage is Over,
    ensures
        run.is_answered(answers),
{
    lemma_no_review_does(run, answers);
}

impl NoReview {
    /// Whether a step tells the user of an error, and the run is over after it, whether or not they
    /// could be told.
    pub open spec fn tells(step: (NoReview, Action), error: HandledError) -> bool {
        &&& step.1 == (Action::Respond {
            text: Text::Error { before: "Error: ", error, after: "" },
            ephemeral: false,
        })
        &&& forall|answer: Answer| (#[trigger] step.0.next(answer)).1 == Action::Finish
    }

    /// Whether a step tells the user of a reason, and the run is over after it.
    pub open spec fn explains(step: (NoReview, Action), reason: &'static str) -> bool {
        Self::tells(step, HandledError::UserfacingError(reason))
    }
}

/// A review is declared unnecessary as the button says, for every pull request: from the intake
/// forum alone, the discussion is removed, the pull request gets the label that is set for that, a
/// comment tells who decided it, and the thread goes. Whatever fails on the way ends it, and the user
/// is told.
pub proof fn law_review_is_declared_unnecessary(
    run: NoReview,
    row: DiscussionRow,
    channel: GuildChannel,
    intake: ChannelId,
    label: String,
)
    requires
        run.stage is New,
        channel.parent == Some(intake),
    ensures
        ({
            let pr_id = value_of(row.pr_id);
            let (r1, a1) = run.next(Answer::Start);
            let (r2, a2) = r1.next(Answer::Discussion(Ok(row)));
            let (r3, a3) = r2.next(Answer::Channel(Some(channel)));
            let (r4, a4) = r3.next(Answer::ForumIs(Some(intake)));
            let (r5, a5) = r4.next(Answer::LabelIs(Some(label)));
            let (r6, a6) = r5.next(Answer::Written(Ok(())));
            let (r7, a7) = r6.next(Answer::Done);
            let (r8, a8) = r7.next(Answer::Done);
            &&& a1 == Action::Database(Statement::SelectDiscussionByPr { pr_id: column_of(run.pr_id) })
            &&& a2 == Action::FetchChannel(row.thread_id)
            &&& a3 == Action::ReadForum(ForumSetting::Intake)
            &&& a4 == Action::ReadLabel(LabelSetting::NoReviewNeeded)
            &&& a5 == Action::Database(Statement::DeleteDiscussion { pr_id: row.pr_id })
            &&& a6 == Action::AddLabel(pr_id, label)
            &&& a7 == Action::PostComment(pr_id, Comment::NotNeeded { by: run.user_name })
            &&& a8 == Action::DeleteThread(row.thread_id)
            &&& r8.next(Answer::Done).1 == Action::Finish
            // what may be missing or fail
            &&& forall|error: DbError|
                NoReview::tells(
                    #[trigger] r1.next(Answer::Discussion(Err(error))),
                    HandledError::InternalError,
                )
            &&& NoReview::tells(r2.next(Answer::Channel(None)), HandledError::InternalError)
            &&& forall|other: ChannelId|
                other != intake ==> NoReview::tells(
                    #[trigger] r3.next(Answer::ForumIs(Some(other))),
                    HandledError::InternalError,
                )
            &&& NoReview::explains(
                r3.next(Answer::ForumIs(None)),
                "Can't process triage button press with intake forum unset.",
            )
            &&& NoReview::explains(
                r4.next(Answer::LabelIs(None)),
                "Can't process No Review Needed with GitHub label unset.",
            )
            &&& forall|error: DbError|
                NoReview::tells(
                    #[trigger] r5.next(Answer::Written(Err(error))),
                    HandledError::InternalError,
                )
            &&& NoReview::explains(r6.next(Answer::Failed), "Failed to set GitHub label.")
            &&& NoReview::explains(r7.next(Answer::Failed), "Failed to create GitHub comment.")
            &&& NoReview::explains(r8.next(Answer::Failed), "Failed to delete intake discussion.")
        }),
{
    crate::discord::ids::law_value_round_trip(row.pr_id);
}

/// The press on the button that stops reminders.
#[derive(Debug)]
pub struct MuteReminders {
    pub pr_id: u64,
    pub user_name: String,
    pub stage: MuteStage,
}

/// How far that has got.
#[derive(Debug)]
pub enum MuteStage {
    New,
    Lookup,
    Channel { discussion: DiscussionRecord },
    Forum { discussion: DiscussionRecord },
    Muting { discussion: DiscussionRecord },
    Deferring { discussion: DiscussionRecord },
    /// The last action is under way; whether it succeeds makes no difference.
    Closing,
    Over,
}

impl MuteReminders {
    /// The run at another stage.
    pub open spec fn at(self, stage: MuteStage) -> MuteReminders {
        MuteReminders { stage, ..self }
    }

    /// Ends with a given action.
    pub open spec fn close(self, action: Action) -> (MuteReminders, Action) {
        (self.at(MuteStage::Closing), action)
    }

    fn with(self, stage: MuteStage) -> (r: MuteReminders)
        ensures
            r == self.at(stage),
    {
        MuteReminders { pr_id: self.pr_id, user_name: self.user_name, stage }
    }

    fn closed(self, action: Action) -> (r: (MuteReminders, Action))
        ensures
            r == self.close(action),
    {
        (self.with(MuteStage::Closing), action)
    }
}

impl Flow for MuteReminders {
    open spec fn next(self, answer: Answer) -> (Self, Action) {
        match (self.stage, answer) {
            (MuteStage::New, Answer::Start) => (
                self.at(MuteStage::Lookup),
                Action::Database(Statement::SelectDiscussionByPr { pr_id: column_of(self.pr_id) }),
            ),
            (MuteStage::Lookup, Answer::Discussion(row)) => match by_pr_result(row) {
                Some(discussion) => (
                    self.at(MuteStage::Channel { discussion }),
                    Action::FetchChannel(discussion.thread_id),
                ),
                None => self.close(Action::Acknowledge),
            },
            (MuteStage::Channel { discussion }, Answer::Channel(channel)) => match parent_of(
                channel,
            ) {
                Some(parent) => (
                    self.at(MuteStage::Forum { discussion }),
                    Action::Database(Statement::SelectForum { channel_id: column_of(parent@) }),
                ),
                None => self.close(Action::Acknowledge),
            },
            (MuteStage::Forum { discussion }, Answer::Forum(Some(_))) => if discussion.review_days_next_micros is None {
                self.close(
                    Action::Respond {
                        text: Text::Plain("Reminders have already been disabled for this PR."),
                        ephemeral: true,
                    },
                )
            } else {
                (
                    self.at(MuteStage::Muting { discussion }),
                    Action::Database(
                        Statement::ClearNextReminder { pr_id: column_of(discussion.pr_id) },
                    ),
                )
            },
            (MuteStage::Forum { .. }, Answer::Forum(None)) => self.close(Action::Acknowledge),
            (MuteStage::Muting { discussion }, Answer::Written(Ok(_))) => self.close(
                Action::Respond {
                    text: Text::RemindersDisabled { by: self.user_name, pr_id: discussion.pr_id },
                    ephemeral: false,
                },
            ),
            (MuteStage::Muting { discussion }, Answer::Written(Err(_))) => (
                self.at(MuteStage::Deferring { discussion }),
                Action::DeferEphemeral,
            ),
            (MuteStage::Deferring { discussion }, _) => self.close(
                Action::Respond {
                    text: Text::RemindersNotDisabled {
                        pr_id: discussion.pr_id,
                        error: HandledError::InternalError,
                    },
                    ephemeral: false,
                },
            ),
            _ => (self.at(MuteStage::Over), Action::Finish),
        }
    }
}

impl Run for MuteReminders {
    fn step(self, answer: Answer) -> (r: (Self, Action)) {
        let by = self.user_name.clone();
        let run = MuteReminders {
            pr_id: self.pr_id,
            user_name: self.user_name,
            stage: MuteStage::Over,
        };
        match (self.stage, answer) {
            (MuteStage::New, Answer::Start) => {
                let statement = DiscussionRecord::get_by_pr_statement(run.pr_id);
                (run.with(MuteStage::Lookup), Action::Database(statement))
            },
            (MuteStage::Lookup, Answer::Discussion(row)) => match DiscussionRecord::get_by_pr(row) {
                Some(discussion) => {
                    let thread = discussion.thread_id;
                    (run.with(MuteStage::Channel { discussion }), Action::FetchChannel(thread))
                },
                None => run.closed(Action::Acknowledge),
            },
            (MuteStage::Channel { discussion }, Answer::Channel(channel)) => match to_parent(
                channel,
            ) {
                Some(parent) => (
                    run.with(MuteStage::Forum { discussion }),
                    Action::Database(ForumRecord::get_by_channel_statement(parent)),
                ),
                None => run.closed(Action::Acknowledge),
            },
            (MuteStage::Forum { discussion }, Answer::Forum(forum)) => match forum {
                Some(_) => match discussion.disable_reminders_statement() {
                    Some(statement) => (
                        run.with(MuteStage::Muting { discussion }),
                        Action::Database(statement),
                    ),
                    None => run.closed(
                        Action::Respond {
                            text: Text::Plain("Reminders have already been disabled for this PR."),
                            ephemeral: true,
                        },
                    ),
                },
                None => run.closed(Action::Acknowledge),
            },
            (MuteStage::Muting { discussion }, Answer::Written(written)) => match written {
                Ok(_) => run.closed(
                    Action::Respond {
                        text: Text::RemindersDisabled { by, pr_id: discussion.pr_id },
                        ephemeral: false,
                    },
                ),
                Err(_) => (run.with(MuteStage::Deferring { discussion }), Action::DeferEphemeral),
            },
            (MuteStage::Deferring { discussion }, _) => run.closed(
                Action::Respond {
                    text: Text::RemindersNotDisabled {
                        pr_id: discussion.pr_id,
                        error: HandledError::InternalError,
                    },
                    ephemeral: false,
                },
            ),
            _ => (run, Action::Finish),
        }
    }
}

/// A step of stopping reminders.
pub fn button_click_mute_reminders_task(run: MuteReminders, answer: Answer) -> (r: (
    MuteReminders,
    Action,
))
    ensures
        r == run.next(answer),
{
    run.step(answer)
}

impl MuteReminders {
    /// Whether a step is the last of a run, which is over after it, whether or not it succeeds.
    pub open spec fn ends_with(step: (MuteReminders, Action), action: Action) -> bool {
        &&& step.1 == action
        &&& forall|answer: Answer| (#[trigger] step.0.next(answer)).1 == Action::Finish
    }
}

/// Reminders are stopped as the button says, for every pull request under review: the database is
/// told to forget the next one, and the thread learns who stopped them. Where there are none, the
/// user is told that alone; where the database fails, they are told so. Without a discussion in a
/// registered forum the press is only acknowledged.
pub proof fn law_reminders_are_stopped_as_asked(
    run: MuteReminders,
    row: DiscussionRow,
    channel: GuildChannel,
    parent: ChannelId,
    forum: ForumRecord,
    any: Answer,
)
    requires
        run.stage is New,
        channel.parent == Some(parent),
    ensures
        ({
            let pr_id = value_of(row.pr_id);
            let (r1, a1) = run.next(Answer::Start);
            let (r2, a2) = r1.next(Answer::Discussion(Ok(row)));
            let (r3, a3) = r2.next(Answer::Channel(Some(channel)));
            let step = r3.next(Answer::Forum(Some(forum)));
            &&& a1 == Action::Database(Statement::SelectDiscussionByPr { pr_id: column_of(run.pr_id) })
            &&& a2 == Action::FetchChannel(row.thread_id)
            &&& a3 == Action::Database(Statement::SelectForum { channel_id: column_of(parent@) })
            &&& row.review_days_next_micros is None ==> MuteReminders::ends_with(
                step,
                Action::Respond {
                    text: Text::Plain("Reminders have already been disabled for this PR."),
                    ephemeral: true,
                },
            )
            &&& row.review_days_next_micros is Some ==> {
                &&& step.1 == Action::Database(
                    Statement::ClearNextReminder { pr_id: row.pr_id },
                )
                &&& MuteReminders::ends_with(
                    step.0.next(Answer::Written(Ok(()))),
                    Action::Respond {
                        text: Text::RemindersDisabled { by: run.user_name, pr_id },
                        ephemeral: false,
                    },
                )
                &&& forall|error: DbError|
                    {
                        let (failed, asked) = #[trigger] step.0.next(Answer::Written(Err(error)));
                        &&& asked == Action::DeferEphemeral
                        &&& MuteReminders::ends_with(
                            failed.next(any),
                            Action::Respond {
                                text: Text::RemindersNotDisabled {
                                    pr_id,
                                    error: HandledError::InternalError,
                                },
                                ephemeral: false,
                            },
                        )
                    }
            }
            &&& forall|error: DbError|
                MuteReminders::ends_with(
                    #[trigger] r1.next(Answer::Discussion(Err(error))),
                    Action::Acknowledge,
                )
            &&& MuteReminders::ends_with(r2.next(Answer::Channel(None)), Action::Acknowledge)
            &&& MuteReminders::ends_with(r3.next(Answer::Forum(None)), Action::Acknowledge)
        }),
{
    crate::discord::ids::law_value_round_trip(row.pr_id);
}

/// Asks for a thread to be removed.
pub open spec fn removing_thread(thread: ChannelId) -> Action {
    Action::DeleteThread(thread)
}

/// Whether a thread was removed.
pub open spec fn removed_thread<F: Flow>(run: F, answers: Seq<Answer>) -> bool {
    exists|thread: ChannelId|
        was_answered(run, answers, #[trigger] removing_thread(thread), Answer::Done)
}

proof fn lemma_removed<F: Flow>(run: F, answers: Seq<Answer>)
    requires
        answers.len() > 0,
    ensures
        removed_thread(run, answers.drop_last()) ==> removed_thread(run, answers),
        answers.len() > 1 && action_on(run, answers.drop_last()) is DeleteThread
            && answers.last() is Done ==> removed_thread(run, answers),
{
    let before = answers.drop_last();
    lemma_answered(run, answers);
    if removed_thread(run, before) {
        let thread = choose|thread: ChannelId|
            was_answered(run, before, #[trigger] removing_thread(thread), Answer::Done);
        assert(was_answered(run, answers, removing_thread(thread), Answer::Done));
    }
    if answers.len() > 1 {
        if let Action::DeleteThread(thread) = action_on(run, before) {
            assert(action_on(run, before) == removing_thread(thread));
        }
    }
}

impl StartReview {
    /// Whether a run has an end: the user was told what went wrong, or the thread in the intake forum
    /// was removed, or the calendar has come to its end.
    pub open spec fn has_ended(self, answers: Seq<Answer>) -> bool {
        ||| was_told(self, answers)
        ||| removed_thread(self, answers)
        ||| did(self, answers, Action::Fault("The calendar has no next day."))
    }

    /// What a run that is about to end has just done.
    pub open spec fn is_ending(self, first: StartReview, answers: Seq<Answer>) -> bool {
        match self.stage {
            ReviewStage::Removing { .. } => answers.len() > 0 && action_on(
                first,
                answers,
            ) is DeleteThread,
            ReviewStage::Telling => was_told(first, answers),
            ReviewStage::Over => first.has_ended(answers),
            _ => true,
        }
    }
}

proof fn lemma_review_ending(first: StartReview, answers: Seq<Answer>)
    requires
        first.stage is New,
    ensures
        after(first, answers).is_ending(first, answers),
    decreases answers.len(),
{
    if answers.len() > 0 {
        let before = answers.drop_last();
        lemma_review_ending(first, before);
        lemma_did(first, answers);
        lemma_told(first, answers);
        lemma_removed(first, answers);
        let now = after(first, before);
        let action = now.next(answers.last()).1;
        assert(action == action_on(first, answers));
        assert(did(first, answers, action));
        if let Action::Respond { text: Text::Error { error, .. }, .. } = action {
            assert(action == failure_notice(error));
        }
    }
}

/// The start of a review does not end half-way, whatever the answers are: when it ends, the thread in
/// the intake forum was removed, which comes last, or the user was told what went wrong, or the
/// calendar has come to its end.
pub proof fn law_review_start_ends_with_its_thread_gone(run: StartReview, answers: Seq<Answer>)
    requires
        run.stage is New,
        answers.len() > 0,
        action_on(run, answers).ends(),
    ensures
        run.has_ended(answers),
{
    let before = answers.drop_last();
    let now = after(run, before);
    lemma_review_ending(run, before);
    lemma_review_ending(run, answers);
    lemma_did(run, answers);
    match now.stage {
        ReviewStage::Preamble(preamble) => {
            assert(preamble.next(answers.last()) matches Triage::Ask(_, action) ==> !action.ends());
        },
        _ => {},
    }
}

impl NoReview {
    /// Whether a run has an end: the user was told what went wrong, or the thread in the intake forum
    /// was removed.
    pub open spec fn has_ended(self, answers: Seq<Answer>) -> bool {
        ||| was_told(self, answers)
        ||| removed_thread(self, answers)
    }

    /// What a run that is about to end has just done.
    pub open spec fn is_ending(self, first: NoReview, answers: Seq<Answer>) -> bool {
        match self.stage {
            NoReviewStage::Removing => answers.len() > 0 && action_on(
                first,
                answers,
            ) is DeleteThread,
            NoReviewStage::Telling => was_told(first, answers),
            NoReviewStage::Over => first.has_ended(answers),
            _ => true,
        }
    }
}

proof fn lemma_no_review_ending(first: NoReview, answers: Seq<Answer>)
    requires
        first.stage is New,
    ensures
        after(first, answers).is_ending(first, answers),
    decreases answers.len(),
{
    if answers.len() > 0 {
        let before = answers.drop_last();
        lemma_no_review_ending(first, before);
        lemma_did(first, answers);
        lemma_told(first, answers);
        lemma_removed(first, answers);
        let now = after(first, before);
        let action = now.next(answers.last()).1;
        assert(action == action_on(first, answers));
        assert(did(first, answers, action));
        if let Action::Respond { text: Text::Error { error, .. }, .. } = action {
            assert(action == failure_notice(error));
        }
    }
}

/// To declare a review unnecessary does not end half-way, whatever the answers are: when it ends, the
/// thread in the intake forum was removed, which comes last, or the user was told what went wrong.
pub proof fn law_no_review_ends_with_its_thread_gone(run: NoReview, answers: Seq<Answer>)
    requires
        run.stage is New,
        answers.len() > 0,
        action_on(run, answers).ends(),
    ensures
        run.has_ended(answers),
{
    let before = answers.drop_last();
    let now = after(run, before);
    lemma_no_review_ending(run, before);
    lemma_no_review_ending(run, answers);
    lemma_did(run, answers);
    match now.stage {
        NoReviewStage::Preamble(preamble) => {
            assert(preamble.next(answers.last()) matches Triage::Ask(_, action) ==> !action.ends());
        },
        _ => {},
    }
}

} // verus!
