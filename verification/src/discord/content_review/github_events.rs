//! What the bot does about what happens on GitHub.

use vstd::prelude::*;
use vstd::string::*;

use crate::discord::action::{
    action_on, after, did, lemma_did, Action, Answer, Flow, ForumSetting, GuildChannel, NewThread,
    Run, ThreadEdit,
};
use crate::discord::content_review::data::config::ignored::IgnoredKind;
use crate::discord::content_review::data::discussions::{by_pr_result, DiscussionRecord};
use crate::discord::content_review::data::forums::ForumRecord;
use crate::discord::content_review::notices::{Comment, Notice, Post, GH_COMMENT_COMMAND};
use crate::discord::error::DbError;
use crate::discord::ids::{column_of, law_value_round_trip, ChannelId, ForumTagId};
use crate::discord::pr_feeds::data::PrFeed;
use crate::discord::store::{DiscussionRow, Statement};
use crate::github::{GitHubMessage, PullInfo};
use crate::text::chars::{
    ascii_lowercase, copy_text, has_prefix, is_trim_of, law_trim_is_unique, same_text, starts_with,
    to_ascii_lowercase, trim,
};

verus! {

/// The comment that asks for a review.
pub const GH_REVIEW_COMMAND: &'static str = "!review";

/// A pull request that may get a thread in the intake forum.
#[derive(Debug)]
pub struct Opened {
    pub pr_id: u64,
    pub pr_title: String,
    pub pr_author: String,
    pub pr_body: Option<String>,
}

/// How a pull request ended, and by whom.
#[derive(Debug)]
pub struct Ended {
    pub by: String,
    pub merged: bool,
}

/// What is left to do about something that happened on GitHub.
#[derive(Debug)]
pub enum GithubRun {
    New(GitHubMessage),
    // a pull request was opened
    OpenedAuthor { opened: Opened },
    OpenedIntake { opened: Opened },
    OpenedLookup { intake: ChannelId, opened: Opened },
    OpenedLabels { intake: ChannelId, opened: Opened },
    KnownLabels { intake: ChannelId, opened: Opened, labels: Option<Vec<String>> },
    Posting { intake: ChannelId, opened: Opened },
    // a pull request with a discussion was opened again
    ReopenedForum { thread: ChannelId, by: String },
    ReopenedNotice { thread: ChannelId, tag: ForumTagId },
    ReopenedChannel { thread: ChannelId, tag: ForumTagId },
    // somebody commented
    RelayLookup { username: String, comment: String },
    ReviewLookup { pr_id: u64 },
    ReviewIntake { pr_id: u64 },
    ReviewPull { intake: ChannelId, pr_id: u64 },
    // a pull request was closed or merged
    EndedLookup { ended: Ended },
    EndedIntake { discussion: DiscussionRecord, ended: Ended },
    EndedForum { thread: ChannelId, ended: Ended },
    EndedChannel { thread: ChannelId, forum: ForumRecord, ended: Ended },
    EndedNotice { thread: ChannelId, applied: Vec<ForumTagId>, tag: ForumTagId },
    Removing { discussion: DiscussionRecord },
    // a pull request was made a draft
    DraftedLookup { by: String },
    // a pull request got a label
    LabeledLookup { pr_id: u64, label: String },
    LabeledIgnored { pr_id: u64, label: String, discussion: DiscussionRecord },
    LabeledIntake { pr_id: u64, label: String, discussion: DiscussionRecord },
    LabeledRemoving { pr_id: u64, label: String, discussion: DiscussionRecord },
    LabeledRemoved { pr_id: u64, label: String },
    LabeledCommented { pr_id: u64, label: String },
    FeedLookup { pr_id: u64 },
    FeedIssue { pr_id: u64, feed: PrFeed },
    /// The last action is under way; whether it succeeds makes no difference.
    Closing,
    Over,
}

/// Whether the discussion is held in the intake forum. Where no intake forum is set, the least
/// identifier stands for it.
pub open spec fn in_intake(discussion: DiscussionRecord, intake: Option<ChannelId>) -> bool {
    discussion.forum_id@ == match intake {
        Some(forum) => forum@,
        None => 1,
    }
}

fn is_in_intake(discussion: &DiscussionRecord, intake: Option<ChannelId>) -> (r: bool)
    ensures
        r == in_intake(*discussion, intake),
{
    let forum = match intake {
        Some(forum) => forum,
        None => ChannelId::default(),
    };
    discussion.forum_id.get() == forum.get()
}

/// Whether one of the labels is among those of the content review.
pub open spec fn is_known(labels: Option<Vec<String>>, review_labels: Seq<String>) -> bool {
    labels is Some && exists|i: int, j: int|
        0 <= i < labels->0@.len() && 0 <= j < review_labels.len() && (#[trigger] labels->0@[i])@
            == (#[trigger] review_labels[j])@
}

fn contains_text(list: &Vec<String>, s: &str) -> (r: bool)
    ensures
        r == exists|j: int| 0 <= j < list@.len() && (#[trigger] list@[j])@ == s@,
{
    let mut j: usize = 0;
    while j < list.len()
        invariant
            j <= list.len(),
            forall|k: int| 0 <= k < j ==> (#[trigger] list@[k])@ != s@,
        decreases list.len() - j,
    {
        if same_text(list[j].as_str(), s) {
            return true;
        }
        j = j + 1;
    }
    false
}

fn has_known(labels: &Option<Vec<String>>, review_labels: &Vec<String>) -> (r: bool)
    ensures
        r == is_known(*labels, review_labels@),
{
    match labels {
        None => false,
        Some(list) => {
            let mut i: usize = 0;
            while i < list.len()
                invariant
                    i <= list.len(),
                    *labels == Some(*list),
                    forall|k: int, j: int|
                        0 <= k < i && 0 <= j < review_labels@.len() ==> (#[trigger] list@[k])@ != (
                        #[trigger] review_labels@[j])@,
                decreases list.len() - i,
            {
                if contains_text(review_labels, list[i].as_str()) {
                    proof {
                        let j = choose|j: int|
                            0 <= j < review_labels@.len() && (#[trigger] review_labels@[j])@
                                == list@[i as int]@;
                        assert(labels->0@[i as int]@ == review_labels@[j]@);
                    }
                    return true;
                }
                i = i + 1;
            }
            false
        },
    }
}

/// The discussion of a pull request whose thread was just started in the intake forum.
pub open spec fn intake_record(intake: ChannelId, thread: ChannelId, opened: Opened) -> DiscussionRecord {
    DiscussionRecord {
        pr_id: opened.pr_id,
        forum_id: intake,
        thread_id: thread,
        triaged_by: None,
        review_days_total: None,
        review_days_passed: None,
        review_days_next_micros: None,
        pr_title: opened.pr_title,
        pr_author: opened.pr_author,
        pr_body: opened.pr_body,
    }
}

/// Whether a comment is meant for the thread of the pull request.
pub open spec fn is_relay_command(comment: Seq<char>) -> bool {
    has_prefix(ascii_lowercase(comment), GH_COMMENT_COMMAND@)
}

/// Whether a comment asks for a review.
pub open spec fn is_review_command(comment: Seq<char>) -> bool {
    !is_relay_command(comment) && is_trim_of(ascii_lowercase(comment), GH_REVIEW_COMMAND@)
}

impl GithubRun {
    /// Asks for the discussion of a pull request.
    pub open spec fn look_up(self, pr_id: u64) -> (GithubRun, Action) {
        (self, Action::Database(Statement::SelectDiscussionByPr { pr_id: column_of(pr_id) }))
    }

    /// Starts a thread in the intake forum, with buttons for the triage.
    pub open spec fn create_intake_post(intake: ChannelId, opened: Opened) -> (GithubRun, Action) {
        (
            GithubRun::Posting { intake, opened },
            Action::CreatePost(
                intake,
                Post::Intake {
                    pr_id: opened.pr_id,
                    pr_title: opened.pr_title,
                    pr_author: opened.pr_author,
                    pr_body: opened.pr_body,
                },
            ),
        )
    }

    /// Sends a comment into the thread of the discussion.
    pub open spec fn relay_github_comment(
        discussion: DiscussionRecord,
        username: String,
        comment: String,
    ) -> (GithubRun, Action) {
        (
            GithubRun::Closing,
            Action::SendMessage(discussion.thread_id, Notice::Relayed { username, comment }),
        )
    }

    /// What is done first about something that happened.
    pub open spec fn begin(message: GitHubMessage) -> (GithubRun, Action) {
        match message {
            GitHubMessage::PrOpened { pr_id, pr_title, pr_body, opened_by } => (
                GithubRun::OpenedAuthor {
                    opened: Opened { pr_id, pr_title, pr_author: opened_by, pr_body },
                },
                Action::IsIgnored(IgnoredKind::Author, opened_by),
            ),
            GitHubMessage::Comment {
                issue_id,
                username,
                comment,
                is_pr_author,
                is_staff,
                is_contributor,
            } => if is_relay_command(comment@) && (is_staff || is_pr_author) {
                (GithubRun::RelayLookup { username, comment }).look_up(issue_id)
            } else if is_review_command(comment@) && (is_pr_author || is_contributor) {
                (GithubRun::ReviewLookup { pr_id: issue_id }).look_up(issue_id)
            } else {
                (GithubRun::Over, Action::Finish)
            },
            GitHubMessage::PrClosed { pr_id, closed_by } => (GithubRun::EndedLookup {
                ended: Ended { by: closed_by, merged: false },
            }).look_up(pr_id),
            GitHubMessage::PrMerged { pr_id, merged_by } => (GithubRun::EndedLookup {
                ended: Ended { by: merged_by, merged: true },
            }).look_up(pr_id),
            GitHubMessage::PrDrafted { pr_id, drafted_by } => (GithubRun::DraftedLookup {
                by: drafted_by,
            }).look_up(pr_id),
            GitHubMessage::PrLabeled { pr_id, label } => (GithubRun::LabeledLookup {
                pr_id,
                label,
            }).look_up(pr_id),
        }
    }
}

impl Flow for GithubRun {
    open spec fn next(self, answer: Answer) -> (Self, Action) {
        match (self, answer) {
            (GithubRun::New(message), Answer::Start) => Self::begin(message),
            // a pull request was opened
            (GithubRun::OpenedAuthor { opened }, Answer::Ignored(false)) => (
                GithubRun::OpenedIntake { opened },
                Action::ReadForum(ForumSetting::Intake),
            ),
            (GithubRun::OpenedIntake { opened }, Answer::ForumIs(Some(intake))) => (
            GithubRun::OpenedLookup { intake, opened }).look_up(opened.pr_id),
            (GithubRun::OpenedLookup { intake, opened }, Answer::Discussion(row)) => match by_pr_result(
                row,
            ) {
                Some(discussion) => (
                    GithubRun::ReopenedForum { thread: discussion.thread_id, by: opened.pr_author },
                    Action::Database(
                        Statement::SelectForum { channel_id: column_of(discussion.forum_id@) },
                    ),
                ),
                None => (
                    GithubRun::OpenedLabels { intake, opened },
                    Action::ListLabels(opened.pr_id),
                ),
            },
            (GithubRun::OpenedLabels { intake, opened }, Answer::Labels(labels)) => (
                GithubRun::KnownLabels { intake, opened, labels },
                Action::ReadReviewLabels,
            ),
            (
                GithubRun::KnownLabels { intake, opened, labels },
                Answer::ReviewLabels(review_labels),
            ) => if is_known(labels, review_labels@) {
                (GithubRun::Over, Action::Finish)
            } else {
                Self::create_intake_post(intake, opened)
            },
            (GithubRun::Posting { intake, opened }, Answer::Posted(Some(thread))) => (
                GithubRun::Closing,
                Action::Database(intake_record(intake, thread.id, opened).insertion()),
            ),
            // a pull request with a discussion was opened again
            (GithubRun::ReopenedForum { thread, by }, Answer::Forum(Some(forum))) => (
                GithubRun::ReopenedNotice { thread, tag: forum.tag_pr_closed },
                Action::SendMessage(thread, Notice::Opened { by }),
            ),
            (GithubRun::ReopenedNotice { thread, tag }, _) => (
                GithubRun::ReopenedChannel { thread, tag },
                Action::FetchChannel(thread),
            ),
            (GithubRun::ReopenedChannel { thread, tag }, Answer::Channel(Some(channel))) => (
                GithubRun::Closing,
                Action::EditThread(
                    thread,
                    ThreadEdit::RemoveTag { applied: channel.applied_tags, tag },
                ),
            ),
            // somebody commented
            (GithubRun::RelayLookup { username, comment }, Answer::Discussion(row)) => match by_pr_result(
                row,
            ) {
                Some(discussion) => Self::relay_github_comment(discussion, username, comment),
                None => (GithubRun::Over, Action::Finish),
            },
            (GithubRun::ReviewLookup { pr_id }, Answer::Discussion(row)) => match by_pr_result(
                row,
            ) {
                Some(_) => (GithubRun::Over, Action::Finish),
                None => (
                    GithubRun::ReviewIntake { pr_id },
                    Action::ReadForum(ForumSetting::Intake),
                ),
            },
            (GithubRun::ReviewIntake { pr_id }, Answer::ForumIs(Some(intake))) => (
                GithubRun::ReviewPull { intake, pr_id },
                Action::GetPull(pr_id),
            ),
            (
                GithubRun::ReviewPull { intake, pr_id },
                Answer::Pull(Some(info)),
            ) => Self::create_intake_post(
                intake,
                Opened {
                    pr_id,
                    pr_title: info.title,
                    pr_author: info.author,
                    pr_body: info.body,
                },
            ),
            // a pull request was closed or merged
            (GithubRun::EndedLookup { ended }, Answer::Discussion(row)) => match by_pr_result(row) {
                Some(discussion) => (
                    GithubRun::EndedIntake { discussion, ended },
                    Action::ReadForum(ForumSetting::Intake),
                ),
                None => (GithubRun::Over, Action::Finish),
            },
            (
                GithubRun::EndedIntake { discussion, ended },
                Answer::ForumIs(intake),
            ) => if in_intake(discussion, intake) {
                (GithubRun::Removing { discussion }, Action::DeleteThread(discussion.thread_id))
            } else {
                (
                    GithubRun::EndedForum { thread: discussion.thread_id, ended },
                    Action::Database(
                        Statement::SelectForum { channel_id: column_of(discussion.forum_id@) },
                    ),
                )
            },
            (GithubRun::Removing { discussion }, _) => (
                GithubRun::Closing,
                Action::Database(Statement::DeleteDiscussion { pr_id: column_of(discussion.pr_id) }),
            ),
            (GithubRun::EndedForum { thread, ended }, Answer::Forum(Some(forum))) => (
                GithubRun::EndedChannel { thread, forum, ended },
                Action::FetchChannel(thread),
            ),
            (
                GithubRun::EndedChannel { thread, forum, ended },
                Answer::Channel(Some(channel)),
            ) => if ended.merged {
                (
                    GithubRun::EndedNotice {
                        thread,
                        applied: channel.applied_tags,
                        tag: forum.tag_pr_merged,
                    },
                    Action::SendMessage(channel.id, Notice::Merged { by: ended.by }),
                )
            } else {
                (
                    GithubRun::EndedNotice {
                        thread,
                        applied: channel.applied_tags,
                        tag: forum.tag_pr_closed,
                    },
                    Action::SendMessage(channel.id, Notice::Closed { by: ended.by }),
                )
            },
            (GithubRun::EndedNotice { thread, applied, tag }, _) => (
                GithubRun::Closing,
                Action::EditThread(thread, ThreadEdit::AddTag { applied, tag, archive: true }),
            ),
            // a pull request was made a draft
            (GithubRun::DraftedLookup { by }, Answer::Discussion(row)) => match by_pr_result(row) {
                Some(discussion) => (
                    GithubRun::Closing,
                    Action::SendMessage(discussion.thread_id, Notice::Drafted { by }),
                ),
                None => (GithubRun::Over, Action::Finish),
            },
            // a pull request got a label
            (GithubRun::LabeledLookup { pr_id, label }, Answer::Discussion(row)) => match by_pr_result(
                row,
            ) {
                Some(discussion) => (
                    GithubRun::LabeledIgnored { pr_id, label, discussion },
                    Action::IsIgnored(IgnoredKind::Label, label),
                ),
                None => (GithubRun::FeedLookup { pr_id }, Action::FindFeed(label)),
            },
            (
                GithubRun::LabeledIgnored { pr_id, label, discussion },
                Answer::Ignored(ignored),
            ) => if ignored {
                (
                    GithubRun::LabeledIntake { pr_id, label, discussion },
                    Action::ReadForum(ForumSetting::Intake),
                )
            } else {
                (GithubRun::FeedLookup { pr_id }, Action::FindFeed(label))
            },
            (
                GithubRun::LabeledIntake { pr_id, label, discussion },
                Answer::ForumIs(intake),
            ) => if in_intake(discussion, intake) {
                (
                    GithubRun::LabeledRemoving { pr_id, label, discussion },
                    Action::DeleteThread(discussion.thread_id),
                )
            } else {
                (GithubRun::FeedLookup { pr_id }, Action::FindFeed(label))
            },
            (GithubRun::LabeledRemoving { pr_id, label, discussion }, _) => (
                GithubRun::LabeledRemoved { pr_id, label },
                Action::Database(Statement::DeleteDiscussion { pr_id: column_of(discussion.pr_id) }),
            ),
            (GithubRun::LabeledRemoved { pr_id, label }, _) => (
                GithubRun::LabeledCommented { pr_id, label },
                Action::PostComment(pr_id, Comment::Excluded { label }),
            ),
            (GithubRun::LabeledCommented { pr_id, label }, _) => (
                GithubRun::FeedLookup { pr_id },
                Action::FindFeed(label),
            ),
            (GithubRun::FeedLookup { pr_id }, Answer::Feed(Some(feed))) => (
                GithubRun::FeedIssue { pr_id, feed },
                Action::GetIssue(pr_id),
            ),
            (GithubRun::FeedIssue { pr_id, feed }, Answer::Pull(Some(info))) => (
                GithubRun::Closing,
                Action::SendMessage(
                    feed.channel_id,
                    Notice::Feed {
                        pr_id,
                        pr_title: info.title,
                        pr_author: info.author,
                        pr_body: info.body,
                        ping: feed.ping_role,
                    },
                ),
            ),
            _ => (GithubRun::Over, Action::Finish),
        }
    }
}

fn ask_discussion(run: GithubRun, pr_id: u64) -> (r: (GithubRun, Action))
    ensures
        r == run.look_up(pr_id),
{
    (run, Action::Database(DiscussionRecord::get_by_pr_statement(pr_id)))
}

fn create_intake_post(intake: ChannelId, opened: Opened) -> (r: (GithubRun, Action))
    ensures
        r == GithubRun::create_intake_post(intake, opened),
{
    let post = Post::Intake {
        pr_id: opened.pr_id,
        pr_title: opened.pr_title.clone(),
        pr_author: opened.pr_author.clone(),
        pr_body: copy_text(&opened.pr_body),
    };
    (GithubRun::Posting { intake, opened }, Action::CreatePost(intake, post))
}

fn relay_github_comment(discussion: DiscussionRecord, username: String, comment: String) -> (r: (
    GithubRun,
    Action,
))
    ensures
        r == GithubRun::relay_github_comment(discussion, username, comment),
{
    (
        GithubRun::Closing,
        Action::SendMessage(discussion.thread_id, Notice::Relayed { username, comment }),
    )
}

fn asks_for_review(lower: &str) -> (r: bool)
    ensures
        r == is_trim_of(lower@, GH_REVIEW_COMMAND@),
{
    let inner = trim(lower);
    let same = same_text(inner.as_str(), GH_REVIEW_COMMAND);
    proof {
        if is_trim_of(lower@, GH_REVIEW_COMMAND@) {
            law_trim_is_unique(lower@, inner@, GH_REVIEW_COMMAND@);
        }
    }
    same
}

fn begin(message: GitHubMessage) -> (r: (GithubRun, Action))
    ensures
        r == GithubRun::begin(message),
{
    match message {
        GitHubMessage::PrOpened { pr_id, pr_title, pr_body, opened_by } => {
            let author = opened_by.clone();
            (
                GithubRun::OpenedAuthor {
                    opened: Opened { pr_id, pr_title, pr_author: opened_by, pr_body },
                },
                Action::IsIgnored(IgnoredKind::Author, author),
            )
        },
        GitHubMessage::Comment {
            issue_id,
            username,
            comment,
            is_pr_author,
            is_staff,
            is_contributor,
        } => {
            let lower = to_ascii_lowercase(comment.as_str());
            if starts_with(lower.as_str(), GH_COMMENT_COMMAND) {
                if !is_staff && !is_pr_author {
                    return (GithubRun::Over, Action::Finish);
                }
                ask_discussion(GithubRun::RelayLookup { username, comment }, issue_id)
            } else if asks_for_review(lower.as_str()) {
                if !is_pr_author && !is_contributor {
                    return (GithubRun::Over, Action::Finish);
                }
                ask_discussion(GithubRun::ReviewLookup { pr_id: issue_id }, issue_id)
            } else {
                (GithubRun::Over, Action::Finish)
            }
        },
        GitHubMessage::PrClosed { pr_id, closed_by } => ask_discussion(
            GithubRun::EndedLookup { ended: Ended { by: closed_by, merged: false } },
            pr_id,
        ),
        GitHubMessage::PrMerged { pr_id, merged_by } => ask_discussion(
            GithubRun::EndedLookup { ended: Ended { by: merged_by, merged: true } },
            pr_id,
        ),
        GitHubMessage::PrDrafted { pr_id, drafted_by } => ask_discussion(
            GithubRun::DraftedLookup { by: drafted_by },
            pr_id,
        ),
        GitHubMessage::PrLabeled { pr_id, label } => ask_discussion(
            GithubRun::LabeledLookup { pr_id, label },
            pr_id,
        ),
    }
}

impl Run for GithubRun {
    fn step(self, answer: Answer) -> (r: (Self, Action)) {
        match (self, answer) {
            (GithubRun::New(message), Answer::Start) => begin(message),
            (GithubRun::OpenedAuthor { opened }, Answer::Ignored(ignored)) => {
                if ignored {
                    return (GithubRun::Over, Action::Finish);
                }
                (GithubRun::OpenedIntake { opened }, Action::ReadForum(ForumSetting::Intake))
            },
            (GithubRun::OpenedIntake { opened }, Answer::ForumIs(Some(intake))) => {
                let pr_id: u64 = opened.pr_id;
                ask_discussion(GithubRun::OpenedLookup { intake, opened }, pr_id)
            },
            (GithubRun::OpenedLookup { intake, opened }, Answer::Discussion(row)) => {
                match DiscussionRecord::get_by_pr(row) {
                    Some(discussion) => (
                        GithubRun::ReopenedForum {
                            thread: discussion.thread_id,
                            by: opened.pr_author,
                        },
                        Action::Database(
                            ForumRecord::get_by_channel_statement(discussion.forum_id),
                        ),
                    ),
                    None => {
                        let pr_id: u64 = opened.pr_id;
                        (GithubRun::OpenedLabels { intake, opened }, Action::ListLabels(pr_id))
                    },
                }
            },
            (GithubRun::OpenedLabels { intake, opened }, Answer::Labels(labels)) => (
                GithubRun::KnownLabels { intake, opened, labels },
                Action::ReadReviewLabels,
            ),
            (
                GithubRun::KnownLabels { intake, opened, labels },
                Answer::ReviewLabels(review_labels),
            ) => {
                if has_known(&labels, &review_labels) {
                    return (GithubRun::Over, Action::Finish);
                }
                create_intake_post(intake, opened)
            },
            (GithubRun::Posting { intake, opened }, Answer::Posted(Some(thread))) => {
                let discussion = DiscussionRecord {
                    pr_id: opened.pr_id,
                    forum_id: intake,
                    thread_id: thread.id,
                    triaged_by: None,
                    review_days_total: None,
                    review_days_passed: None,
                    review_days_next_micros: None,
                    pr_title: opened.pr_title,
                    pr_author: opened.pr_author,
                    pr_body: opened.pr_body,
                };
                (GithubRun::Closing, Action::Database(discussion.insert_statement()))
            },
            (GithubRun::ReopenedForum { thread, by }, Answer::Forum(Some(forum))) => (
                GithubRun::ReopenedNotice { thread, tag: forum.tag_pr_closed },
                Action::SendMessage(thread, Notice::Opened { by }),
            ),
            (GithubRun::ReopenedNotice { thread, tag }, _) => (
                GithubRun::ReopenedChannel { thread, tag },
                Action::FetchChannel(thread),
            ),
            (GithubRun::ReopenedChannel { thread, tag }, Answer::Channel(Some(channel))) => (
                GithubRun::Closing,
                Action::EditThread(
                    thread,
                    ThreadEdit::RemoveTag { applied: channel.applied_tags, tag },
                ),
            ),
            (GithubRun::RelayLookup { username, comment }, Answer::Discussion(row)) => {
                match DiscussionRecord::get_by_pr(row) {
                    Some(discussion) => relay_github_comment(discussion, username, comment),
                    None => (GithubRun::Over, Action::Finish),
                }
            },
            (GithubRun::ReviewLookup { pr_id }, Answer::Discussion(row)) => {
                match DiscussionRecord::get_by_pr(row) {
                    Some(_) => (GithubRun::Over, Action::Finish),
                    None => (
                        GithubRun::ReviewIntake { pr_id },
                        Action::ReadForum(ForumSetting::Intake),
                    ),
                }
            },
            (GithubRun::ReviewIntake { pr_id }, Answer::ForumIs(Some(intake))) => (
                GithubRun::ReviewPull { intake, pr_id },
                Action::GetPull(pr_id),
            ),
            (GithubRun::ReviewPull { intake, pr_id }, Answer::Pull(Some(info))) => {
                create_intake_post(
                    intake,
                    Opened {
                        pr_id,
                        pr_title: info.title,
                        pr_author: info.author,
                        pr_body: info.body,
                    },
                )
            },
            (GithubRun::EndedLookup { ended }, Answer::Discussion(row)) => {
                match DiscussionRecord::get_by_pr(row) {
                    Some(discussion) => (
                        GithubRun::EndedIntake { discussion, ended },
                        Action::ReadForum(ForumSetting::Intake),
                    ),
                    None => (GithubRun::Over, Action::Finish),
                }
            },
            (GithubRun::EndedIntake { discussion, ended }, Answer::ForumIs(intake)) => {
                let thread = discussion.thread_id;
                if is_in_intake(&discussion, intake) {
                    return (GithubRun::Removing { discussion }, Action::DeleteThread(thread));
                }
                (
                    GithubRun::EndedForum { thread, ended },
                    Action::Database(ForumRecord::get_by_channel_statement(discussion.forum_id)),
                )
            },
            (GithubRun::Removing { discussion }, _) => (
                GithubRun::Closing,
                Action::Database(discussion.delete_statement()),
            ),
            (GithubRun::EndedForum { thread, ended }, Answer::Forum(Some(forum))) => (
                GithubRun::EndedChannel { thread, forum, ended },
                Action::FetchChannel(thread),
            ),
            (
                GithubRun::EndedChannel { thread, forum, ended },
                Answer::Channel(Some(channel)),
            ) => {
                let id = channel.id;
                let applied = channel.applied_tags;
                if ended.merged {
                    (
                        GithubRun::EndedNotice { thread, applied, tag: forum.tag_pr_merged },
                        Action::SendMessage(id, Notice::Merged { by: ended.by }),
                    )
                } else {
                    (
                        GithubRun::EndedNotice { thread, applied, tag: forum.tag_pr_closed },
                        Action::SendMessage(id, Notice::Closed { by: ended.by }),
                    )
                }
            },
            (GithubRun::EndedNotice { thread, applied, tag }, _) => (
                GithubRun::Closing,
                Action::EditThread(thread, ThreadEdit::AddTag { applied, tag, archive: true }),
            ),
            (GithubRun::DraftedLookup { by }, Answer::Discussion(row)) => {
                match DiscussionRecord::get_by_pr(row) {
                    Some(discussion) => (
                        GithubRun::Closing,
                        Action::SendMessage(discussion.thread_id, Notice::Drafted { by }),
                    ),
                    None => (GithubRun::Over, Action::Finish),
                }
            },
            (GithubRun::LabeledLookup { pr_id, label }, Answer::Discussion(row)) => {
                match DiscussionRecord::get_by_pr(row) {
                    Some(discussion) => {
                        let value = label.clone();
                        (
                            GithubRun::LabeledIgnored { pr_id, label, discussion },
                            Action::IsIgnored(IgnoredKind::Label, value),
                        )
                    },
                    None => (GithubRun::FeedLookup { pr_id }, Action::FindFeed(label)),
                }
            },
            (GithubRun::LabeledIgnored { pr_id, label, discussion }, Answer::Ignored(ignored)) => {
                if ignored {
                    return (
                        GithubRun::LabeledIntake { pr_id, label, discussion },
                        Action::ReadForum(ForumSetting::Intake),
                    );
                }
                (GithubRun::FeedLookup { pr_id }, Action::FindFeed(label))
            },
            (GithubRun::LabeledIntake { pr_id, label, discussion }, Answer::ForumIs(intake)) => {
                if is_in_intake(&discussion, intake) {
                    let thread = discussion.thread_id;
                    return (
                        GithubRun::LabeledRemoving { pr_id, label, discussion },
                        Action::DeleteThread(thread),
                    );
                }
                (GithubRun::FeedLookup { pr_id }, Action::FindFeed(label))
            },
            (GithubRun::LabeledRemoving { pr_id, label, discussion }, _) => (
                GithubRun::LabeledRemoved { pr_id, label },
                Action::Database(discussion.delete_statement()),
            ),
            (GithubRun::LabeledRemoved { pr_id, label }, _) => {
                let comment = Comment::Excluded { label: label.clone() };
                (
                    GithubRun::LabeledCommented { pr_id, label },
                    Action::PostComment(pr_id, comment),
                )
            },
            (GithubRun::LabeledCommented { pr_id, label }, _) => (
                GithubRun::FeedLookup { pr_id },
                Action::FindFeed(label),
            ),
            (GithubRun::FeedLookup { pr_id }, Answer::Feed(Some(feed))) => (
                GithubRun::FeedIssue { pr_id, feed },
                Action::GetIssue(pr_id),
            ),
            (GithubRun::FeedIssue { pr_id, feed }, Answer::Pull(Some(info))) => (
                GithubRun::Closing,
                Action::SendMessage(
                    feed.channel_id,
                    Notice::Feed {
                        pr_id,
                        pr_title: info.title,
                        pr_author: info.author,
                        pr_body: info.body,
                        ping: feed.ping_role,
                    },
                ),
            ),
            _ => (GithubRun::Over, Action::Finish),
        }
    }
}

/// A step of dealing with something that happened on GitHub.
pub fn cr_github_task(run: GithubRun, answer: Answer) -> (r: (GithubRun, Action))
    ensures
        r == run.next(answer),
{
    run.step(answer)
}

/// Whether the database was once found to have no discussion.
pub open spec fn found_none(answers: Seq<Answer>) -> bool {
    exists|i: int|
        0 <= i < answers.len() && (#[trigger] answers[i] matches Answer::Discussion(row)
            && by_pr_result(row) is None)
}

proof fn lemma_found_none_stays(answers: Seq<Answer>)
    requires
        answers.len() > 0,
        found_none(answers.drop_last()),
    ensures
        found_none(answers),
{
    let before = answers.drop_last();
    let i = choose|i: int|
        0 <= i < before.len() && (#[trigger] before[i] matches Answer::Discussion(row)
            && by_pr_result(row) is None);
    assert(answers[i] == before[i]);
}

proof fn lemma_posting_needs_none(message: GitHubMessage, answers: Seq<Answer>)
    ensures
        ({
            let run = after(GithubRun::New(message), answers);
            (run is OpenedLabels || run is KnownLabels || run is ReviewIntake || run is ReviewPull)
                ==> found_none(answers)
        }),
    decreases answers.len(),
{
    if answers.len() > 0 {
        let before = answers.drop_last();
        lemma_posting_needs_none(message, before);
        if found_none(before) {
            lemma_found_none_stays(answers);
        }
        assert(answers[answers.len() - 1] == answers.last());
    }
}

/// A pull request gets no second thread: one is started only once the database was found to have
/// no discussion of it.
pub proof fn law_no_second_thread(message: GitHubMessage, answers: Seq<Answer>)
    requires
        answers.len() > 0,
        action_on(GithubRun::New(message), answers) is CreatePost,
    ensures
        found_none(answers),
{
    lemma_posting_needs_none(message, answers.drop_last());
    if found_none(answers.drop_last()) {
        lemma_found_none_stays(answers);
    }
}

/// A thread is removed only while its discussion is still in the intake forum.
pub proof fn law_only_intake_threads_are_removed(run: GithubRun, answer: Answer, thread: ChannelId)
    requires
        run.next(answer).1 == Action::DeleteThread(thread),
    ensures
        exists|discussion: DiscussionRecord, intake: Option<ChannelId>| #[trigger]
            in_intake(discussion, intake) && discussion.thread_id == thread && answer
                == Answer::ForumIs(intake),
{
    match (run, answer) {
        (GithubRun::EndedIntake { discussion, ended }, Answer::ForumIs(intake)) => {
            assert(in_intake(discussion, intake));
        },
        (GithubRun::LabeledIntake { pr_id, label, discussion }, Answer::ForumIs(intake)) => {
            assert(in_intake(discussion, intake));
        },
        _ => {},
    }
}

proof fn lemma_over_stays(run: GithubRun, answers: Seq<Answer>)
    requires
        run.next(answers[0]) == (GithubRun::Over, Action::Finish),
        answers.len() > 0,
    ensures
        after(run, answers) is Over,
        action_on(run, answers) == Action::Finish,
    decreases answers.len(),
{
    if answers.len() == 1 {
        assert(answers.drop_last() =~= Seq::<Answer>::empty());
    } else {
        assert(answers.drop_last()[0] == answers[0]);
        lemma_over_stays(run, answers.drop_last());
    }
}

/// A comment has no effect unless it is a command from somebody who may give it: the author of the
/// pull request or staff to speak into the thread, the author or a contributor to ask for a
/// review.
pub proof fn law_idle_comments_do_nothing(
    issue_id: u64,
    username: String,
    comment: String,
    is_pr_author: bool,
    is_staff: bool,
    is_contributor: bool,
    answers: Seq<Answer>,
)
    requires
        answers.len() > 0,
        !(is_relay_command(comment@) && (is_staff || is_pr_author)),
        !(is_review_command(comment@) && (is_pr_author || is_contributor)),
    ensures
        action_on(
            GithubRun::New(
                GitHubMessage::Comment {
                    issue_id,
                    username,
                    comment,
                    is_pr_author,
                    is_staff,
                    is_contributor,
                },
            ),
            answers,
        ) == Action::Finish,
{
    let run = GithubRun::New(
        GitHubMessage::Comment {
            issue_id,
            username,
            comment,
            is_pr_author,
            is_staff,
            is_contributor,
        },
    );
    lemma_over_stays(run, answers);
}

/// Pull requests of an ignored author get no thread, whatever else is so.
pub proof fn law_ignored_authors_get_no_thread(opened: Opened, answers: Seq<Answer>)
    requires
        answers.len() > 0,
        answers[0] == Answer::Ignored(true),
    ensures
        action_on(GithubRun::OpenedAuthor { opened }, answers) == Action::Finish,
{
    lemma_over_stays(GithubRun::OpenedAuthor { opened }, answers);
}

/// Whether an answer is of the kind that an action about GitHub asks for.
pub open spec fn suits_github(action: Action, answer: Answer) -> bool {
    match action {
        Action::Database(Statement::SelectDiscussionByPr { .. }) => answer is Discussion,
        Action::Database(Statement::SelectForum { .. }) => answer is Forum,
        Action::IsIgnored(_, _) => answer is Ignored,
        Action::ReadForum(_) => answer is ForumIs,
        Action::FindFeed(_) => answer is Feed,
        Action::GetIssue(_) => answer is Pull,
        Action::GetPull(_) => answer is Pull,
        Action::ListLabels(_) => answer is Labels,
        Action::ReadReviewLabels => answer is ReviewLabels,
        Action::FetchChannel(_) => answer is Channel,
        Action::CreatePost(_, _) => answer is Posted,
        _ => true,
    }
}

/// Whether a run began at its beginning, and was handed answers of the right kinds.
pub open spec fn well_answered(run: GithubRun, answers: Seq<Answer>) -> bool {
    &&& answers.len() > 0 ==> answers[0] is Start
    &&& forall|n: int|
        0 < n < answers.len() ==> suits_github(
            #[trigger] action_on(run, answers.take(n)),
            answers[n],
        )
}

proof fn lemma_well_answered(run: GithubRun, answers: Seq<Answer>)
    requires
        answers.len() > 0,
        well_answered(run, answers),
    ensures
        well_answered(run, answers.drop_last()),
        answers.len() > 1 ==> suits_github(action_on(run, answers.drop_last()), answers.last()),
        answers.len() == 1 ==> answers.last() is Start,
{
    let before = answers.drop_last();
    assert forall|n: int| 0 < n < before.len() implies suits_github(
        #[trigger] action_on(run, before.take(n)),
        before[n],
    ) by {
        assert(before.take(n) =~= answers.take(n));
        assert(suits_github(action_on(run, answers.take(n)), answers[n]));
    }
    if answers.len() > 1 {
        let n = answers.len() - 1;
        assert(answers.take(n) =~= before);
        assert(suits_github(action_on(run, answers.take(n)), answers[n]));
    }
}

impl GithubRun {
    /// What holds of a run about a label after some answers: until the feed of the label is asked
    /// for, it is on its way there.
    pub open spec fn heads_for_feed(
        self,
        first: GithubRun,
        answers: Seq<Answer>,
        pr: u64,
        name: String,
    ) -> bool {
        let action = action_on(first, answers);
        match self {
            GithubRun::New(message) => answers.len() == 0 && message == (GitHubMessage::PrLabeled {
                pr_id: pr,
                label: name,
            }),
            GithubRun::LabeledLookup { pr_id, label } => {
                &&& answers.len() == 1
                &&& pr_id == pr
                &&& label == name
                &&& action matches Action::Database(Statement::SelectDiscussionByPr { .. })
            },
            GithubRun::LabeledIgnored { pr_id, label, .. } => {
                &&& answers.len() == 2
                &&& pr_id == pr
                &&& label == name
                &&& action is IsIgnored
            },
            GithubRun::LabeledIntake { pr_id, label, .. } => {
                &&& answers.len() == 3
                &&& pr_id == pr
                &&& label == name
                &&& action is ReadForum
            },
            GithubRun::LabeledRemoving { pr_id, label, .. } => answers.len() == 4 && pr_id == pr
                && label == name,
            GithubRun::LabeledRemoved { pr_id, label } => answers.len() == 5 && pr_id == pr && label
                == name,
            GithubRun::LabeledCommented { pr_id, label } => answers.len() == 6 && pr_id == pr
                && label == name,
            GithubRun::FeedLookup { pr_id } => {
                &&& pr_id == pr
                &&& action is FindFeed
                &&& did(first, answers, Action::FindFeed(name))
            },
            GithubRun::FeedIssue { pr_id, .. } => {
                &&& pr_id == pr
                &&& action == Action::GetIssue(pr)
                &&& did(first, answers, Action::FindFeed(name))
            },
            GithubRun::Closing => did(first, answers, Action::FindFeed(name)),
            GithubRun::Over => did(first, answers, Action::FindFeed(name)),
            _ => false,
        }
    }
}

proof fn lemma_heads_for_feed(pr_id: u64, label: String, answers: Seq<Answer>)
    requires
        well_answered(GithubRun::New(GitHubMessage::PrLabeled { pr_id, label }), answers),
    ensures
        ({
            let first = GithubRun::New(GitHubMessage::PrLabeled { pr_id, label });
            after(first, answers).heads_for_feed(first, answers, pr_id, label)
        }),
    decreases answers.len(),
{
    let first = GithubRun::New(GitHubMessage::PrLabeled { pr_id, label });
    if answers.len() > 0 {
        lemma_well_answered(first, answers);
        lemma_heads_for_feed(pr_id, label, answers.drop_last());
        lemma_did(first, answers);
        assert(did(first, answers, action_on(first, answers)));
    }
}

/// A pull request that got a label always gets to the feed of that label, whatever is found: with or
/// without a discussion, and whether or not the label is ignored, the run asks for the feed of the
/// label within 7 answers, and does not finish before.
pub proof fn law_labels_lead_to_their_feed(pr_id: u64, label: String, answers: Seq<Answer>)
    requires
        answers.len() > 0,
        well_answered(GithubRun::New(GitHubMessage::PrLabeled { pr_id, label }), answers),
    ensures
        ({
            let first = GithubRun::New(GitHubMessage::PrLabeled { pr_id, label });
            &&& action_on(first, answers).ends() || answers.len() >= 7 ==> did(
                first,
                answers,
                Action::FindFeed(label),
            )
        }),
{
    let first = GithubRun::New(GitHubMessage::PrLabeled { pr_id, label });
    lemma_well_answered(first, answers);
    lemma_heads_for_feed(pr_id, label, answers.drop_last());
    lemma_heads_for_feed(pr_id, label, answers);
}

/// A pull request that got a label is posted to the feed of the label, for every pull request,
/// discussion and feed. Where there is a discussion, it is found out whether the label is ignored;
/// if it is, and the discussion is still in the intake forum, its thread and its record go and the
/// pull request is told so.
pub proof fn law_labelled_pull_is_fed(
    pr_id: u64,
    label: String,
    row: DiscussionRow,
    intake: ChannelId,
    feed: PrFeed,
    info: PullInfo,
    any: Answer,
    error: DbError,
)
    ensures
        ({
            let first = GithubRun::New(GitHubMessage::PrLabeled { pr_id, label });
            let find = Action::FindFeed(label);
            let (r1, a1) = first.next(Answer::Start);
            let (r2, a2) = r1.next(Answer::Discussion(Ok(row)));
            let (alone, from_alone) = r1.next(Answer::Discussion(Err(error)));
            let (plain, from_plain) = r2.next(Answer::Ignored(false));
            let (r3, a3) = r2.next(Answer::Ignored(true));
            let (r4, a4) = r3.next(Answer::ForumIs(Some(intake)));
            let (r5, a5) = r4.next(any);
            let (r6, a6) = r5.next(any);
            let (r7, a7) = r6.next(any);
            let (r8, a8) = alone.next(Answer::Feed(Some(feed)));
            let (r9, a9) = r8.next(Answer::Pull(Some(info)));
            &&& a1 == Action::Database(Statement::SelectDiscussionByPr { pr_id: column_of(pr_id) })
            &&& a2 == Action::IsIgnored(IgnoredKind::Label, label)
            &&& from_alone == find
            &&& (plain, from_plain) == (alone, from_alone)
            &&& a3 == Action::ReadForum(ForumSetting::Intake)
            &&& row.forum_id != intake ==> (r4, a4) == (alone, from_alone)
            &&& row.forum_id == intake ==> {
                &&& a4 == Action::DeleteThread(row.thread_id)
                &&& a5 == Action::Database(Statement::DeleteDiscussion { pr_id: row.pr_id })
                &&& a6 == Action::PostComment(pr_id, Comment::Excluded { label })
                &&& (r7, a7) == (alone, from_alone)
            }
            &&& alone.next(Answer::Feed(None)).1 == Action::Finish
            &&& a8 == Action::GetIssue(pr_id)
            &&& r8.next(Answer::Pull(None)).1 == Action::Finish
            &&& a9 == Action::SendMessage(
                feed.channel_id,
                Notice::Feed {
                    pr_id,
                    pr_title: info.title,
                    pr_author: info.author,
                    pr_body: info.body,
                    ping: feed.ping_role,
                },
            )
            &&& r9.next(any).1 == Action::Finish
        }),
{
    law_value_round_trip(row.pr_id);
    if row.forum_id@ == intake@ {
        ChannelId::law_same_number(row.forum_id, intake);
    }
}

/// A pull request that was opened gets a thread in the intake forum, for every pull request: unless
/// its author is ignored, no intake forum is set, or it has a label of the content review already.
/// The new thread is put into the database under that pull request.
pub proof fn law_opened_pull_gets_a_thread(
    pr_id: u64,
    pr_title: String,
    pr_body: Option<String>,
    opened_by: String,
    intake: ChannelId,
    error: DbError,
    labels: Option<Vec<String>>,
    review_labels: Vec<String>,
    thread: NewThread,
    any: Answer,
)
    ensures
        ({
            let first = GithubRun::New(
                GitHubMessage::PrOpened { pr_id, pr_title, pr_body, opened_by },
            );
            let known = labels is Some && exists|i: int, j: int|
                0 <= i < labels->0@.len() && 0 <= j < review_labels@.len() && (
                #[trigger] labels->0@[i])@ == (#[trigger] review_labels@[j])@;
            let (r1, a1) = first.next(Answer::Start);
            let (r2, a2) = r1.next(Answer::Ignored(false));
            let (r3, a3) = r2.next(Answer::ForumIs(Some(intake)));
            let (r4, a4) = r3.next(Answer::Discussion(Err(error)));
            let (r5, a5) = r4.next(Answer::Labels(labels));
            let (r6, a6) = r5.next(Answer::ReviewLabels(review_labels));
            let (r7, a7) = r6.next(Answer::Posted(Some(thread)));
            &&& a1 == Action::IsIgnored(IgnoredKind::Author, opened_by)
            &&& a2 == Action::ReadForum(ForumSetting::Intake)
            &&& a3 == Action::Database(Statement::SelectDiscussionByPr { pr_id: column_of(pr_id) })
            &&& a4 == Action::ListLabels(pr_id)
            &&& a5 == Action::ReadReviewLabels
            &&& known ==> a6 == Action::Finish
            &&& !known ==> {
                &&& a6 == Action::CreatePost(
                    intake,
                    Post::Intake { pr_id, pr_title, pr_author: opened_by, pr_body },
                )
                &&& a7 == Action::Database(
                    Statement::InsertDiscussion {
                        pr_id: column_of(pr_id),
                        forum_id: column_of(intake@),
                        thread_id: column_of(thread.id@),
                        review_days_total: None,
                        review_days_passed: None,
                        review_days_next_micros: None,
                        pr_title,
                        pr_author: opened_by,
                        pr_body,
                    },
                )
                &&& r7.next(any).1 == Action::Finish
                &&& r6.next(Answer::Posted(None)).1 == Action::Finish
            }
            &&& r1.next(Answer::Ignored(true)).1 == Action::Finish
            &&& r2.next(Answer::ForumIs(None)).1 == Action::Finish
        }),
{
}

/// A pull request with a discussion that was opened again loses the tag of closed ones, and its
/// thread is told who opened it.
pub proof fn law_reopened_pull_loses_its_tag(
    pr_id: u64,
    pr_title: String,
    pr_body: Option<String>,
    opened_by: String,
    intake: ChannelId,
    row: DiscussionRow,
    forum: ForumRecord,
    channel: GuildChannel,
    any: Answer,
)
    ensures
        ({
            let first = GithubRun::New(
                GitHubMessage::PrOpened { pr_id, pr_title, pr_body, opened_by },
            );
            let r3 = first.next(Answer::Start).0.next(Answer::Ignored(false)).0.next(
                Answer::ForumIs(Some(intake)),
            ).0;
            let (r4, a4) = r3.next(Answer::Discussion(Ok(row)));
            let (r5, a5) = r4.next(Answer::Forum(Some(forum)));
            let (r6, a6) = r5.next(any);
            let (r7, a7) = r6.next(Answer::Channel(Some(channel)));
            &&& a4 == Action::Database(
                Statement::SelectForum { channel_id: column_of(row.forum_id@) },
            )
            &&& a5 == Action::SendMessage(row.thread_id, Notice::Opened { by: opened_by })
            &&& a6 == Action::FetchChannel(row.thread_id)
            &&& a7 == Action::EditThread(
                row.thread_id,
                ThreadEdit::RemoveTag { applied: channel.applied_tags, tag: forum.tag_pr_closed },
            )
            &&& r7.next(any).1 == Action::Finish
            &&& r4.next(Answer::Forum(None)).1 == Action::Finish
            &&& r6.next(Answer::Channel(None)).1 == Action::Finish
        }),
{
}

/// A pull request that was closed or merged, and whose discussion is still in the intake forum, loses
/// its thread and its discussion. In a review, the thread is told how the pull request ended and by
/// whom, gets the tag for that, and goes into the archive. Without a discussion nothing is done.
pub proof fn law_ended_pull_is_put_away(
    pr_id: u64,
    by: String,
    merged: bool,
    row: DiscussionRow,
    intake: ChannelId,
    forum: ForumRecord,
    channel: GuildChannel,
    any: Answer,
    error: DbError,
)
    ensures
        ({
            let first = GithubRun::New(
                if merged {
                    GitHubMessage::PrMerged { pr_id, merged_by: by }
                } else {
                    GitHubMessage::PrClosed { pr_id, closed_by: by }
                },
            );
            let (r1, a1) = first.next(Answer::Start);
            let (r2, a2) = r1.next(Answer::Discussion(Ok(row)));
            let (r3, a3) = r2.next(Answer::ForumIs(Some(intake)));
            let (gone, going) = r3.next(any);
            let (r4, a4) = r3.next(Answer::Forum(Some(forum)));
            let (r5, a5) = r4.next(Answer::Channel(Some(channel)));
            let (r6, a6) = r5.next(any);
            &&& a1 == Action::Database(Statement::SelectDiscussionByPr { pr_id: column_of(pr_id) })
            &&& r1.next(Answer::Discussion(Err(error))).1 == Action::Finish
            &&& a2 == Action::ReadForum(ForumSetting::Intake)
            &&& r2.next(Answer::ForumIs(None)).1 is DeleteThread <==> row.forum_id@ == 1
            &&& row.forum_id == intake ==> {
                &&& a3 == Action::DeleteThread(row.thread_id)
                &&& going == Action::Database(Statement::DeleteDiscussion { pr_id: row.pr_id })
                &&& gone.next(any).1 == Action::Finish
            }
            &&& row.forum_id != intake ==> {
                &&& a3 == Action::Database(
                    Statement::SelectForum { channel_id: column_of(row.forum_id@) },
                )
                &&& a4 == Action::FetchChannel(row.thread_id)
                &&& merged ==> a5 == Action::SendMessage(channel.id, Notice::Merged { by })
                &&& !merged ==> a5 == Action::SendMessage(channel.id, Notice::Closed { by })
                &&& a6 == Action::EditThread(
                    row.thread_id,
                    ThreadEdit::AddTag {
                        applied: channel.applied_tags,
                        tag: if merged {
                            forum.tag_pr_merged
                        } else {
                            forum.tag_pr_closed
                        },
                        archive: true,
                    },
                )
                &&& r6.next(any).1 == Action::Finish
                &&& r3.next(Answer::Forum(None)).1 == Action::Finish
                &&& r4.next(Answer::Channel(None)).1 == Action::Finish
            }
        }),
{
    law_value_round_trip(row.pr_id);
    if row.forum_id@ == intake@ {
        ChannelId::law_same_number(row.forum_id, intake);
    }
}

/// The thread of a pull request that was made a draft is told so, and by whom. Without a discussion
/// nothing is done.
pub proof fn law_drafted_pull_is_told(
    pr_id: u64,
    by: String,
    row: DiscussionRow,
    any: Answer,
    error: DbError,
)
    ensures
        ({
            let first = GithubRun::New(GitHubMessage::PrDrafted { pr_id, drafted_by: by });
            let (r1, a1) = first.next(Answer::Start);
            let (r2, a2) = r1.next(Answer::Discussion(Ok(row)));
            &&& a1 == Action::Database(Statement::SelectDiscussionByPr { pr_id: column_of(pr_id) })
            &&& a2 == Action::SendMessage(row.thread_id, Notice::Drafted { by })
            &&& r2.next(any).1 == Action::Finish
            &&& r1.next(Answer::Discussion(Err(error))).1 == Action::Finish
        }),
{
}

/// A comment of staff or of the author that begins with `!discord`, in whatever case, goes into the
/// thread of the pull request, under the name of the one who wrote it.
pub proof fn law_commented_words_are_relayed(
    issue_id: u64,
    username: String,
    comment: String,
    is_pr_author: bool,
    is_staff: bool,
    is_contributor: bool,
    row: DiscussionRow,
    any: Answer,
    error: DbError,
)
    requires
        has_prefix(ascii_lowercase(comment@), "!discord"@),
        is_staff || is_pr_author,
    ensures
        ({
            let first = GithubRun::New(
                GitHubMessage::Comment {
                    issue_id,
                    username,
                    comment,
                    is_pr_author,
                    is_staff,
                    is_contributor,
                },
            );
            let (r1, a1) = first.next(Answer::Start);
            let (r2, a2) = r1.next(Answer::Discussion(Ok(row)));
            &&& a1 == Action::Database(
                Statement::SelectDiscussionByPr { pr_id: column_of(issue_id) },
            )
            &&& a2 == Action::SendMessage(row.thread_id, Notice::Relayed { username, comment })
            &&& r2.next(any).1 == Action::Finish
            &&& r1.next(Answer::Discussion(Err(error))).1 == Action::Finish
        }),
{
}

/// A comment of the author or of a contributor that says `!review`, in whatever case, starts a thread
/// in the intake forum for a pull request that has none, with its title, author and description.
pub proof fn law_review_can_be_asked_for(
    issue_id: u64,
    username: String,
    comment: String,
    is_pr_author: bool,
    is_staff: bool,
    is_contributor: bool,
    row: DiscussionRow,
    intake: ChannelId,
    info: PullInfo,
    thread: NewThread,
    any: Answer,
    error: DbError,
)
    requires
        is_trim_of(ascii_lowercase(comment@), "!review"@),
        !has_prefix(ascii_lowercase(comment@), "!discord"@),
        is_pr_author || is_contributor,
    ensures
        ({
            let first = GithubRun::New(
                GitHubMessage::Comment {
                    issue_id,
                    username,
                    comment,
                    is_pr_author,
                    is_staff,
                    is_contributor,
                },
            );
            let (r1, a1) = first.next(Answer::Start);
            let (r2, a2) = r1.next(Answer::Discussion(Err(error)));
            let (r3, a3) = r2.next(Answer::ForumIs(Some(intake)));
            let (r4, a4) = r3.next(Answer::Pull(Some(info)));
            let (r5, a5) = r4.next(Answer::Posted(Some(thread)));
            &&& a1 == Action::Database(
                Statement::SelectDiscussionByPr { pr_id: column_of(issue_id) },
            )
            &&& r1.next(Answer::Discussion(Ok(row))).1 == Action::Finish
            &&& a2 == Action::ReadForum(ForumSetting::Intake)
            &&& r2.next(Answer::ForumIs(None)).1 == Action::Finish
            &&& a3 == Action::GetPull(issue_id)
            &&& r3.next(Answer::Pull(None)).1 == Action::Finish
            &&& a4 == Action::CreatePost(
                intake,
                Post::Intake {
                    pr_id: issue_id,
                    pr_title: info.title,
                    pr_author: info.author,
                    pr_body: info.body,
                },
            )
            &&& a5 == Action::Database(
                Statement::InsertDiscussion {
                    pr_id: column_of(issue_id),
                    forum_id: column_of(intake@),
                    thread_id: column_of(thread.id@),
                    review_days_total: None,
                    review_days_passed: None,
                    review_days_next_micros: None,
                    pr_title: info.title,
                    pr_author: info.author,
                    pr_body: info.body,
                },
            )
            &&& r5.next(any).1 == Action::Finish
        }),
{
}

} // verus!
