//! What the bot asks of its database.
//!
//! Columns are signed. Identifiers and counts go into them bit for bit.

use vstd::prelude::*;

use crate::discord::ids::{ChannelId, MessageId, RoleId, UserId};
use crate::text::chars::copy_text;

verus! {

/// A statement, with the column values that are bound to it.
#[derive(Debug, PartialEq, Eq)]
pub enum Statement {
    // permissions
    /// The permission flags of a user or role, if there are any.
    SelectFlags { snowflake: i64 },
    /// Removes the permission flags of a user or role.
    DeleteFlags { snowflake: i64 },
    /// Writes the permission flags of a user or role, in place of any it has.
    UpsertFlags { snowflake: i64, flags: i64 },
    // pull request feeds
    /// All feeds.
    SelectFeeds,
    /// Adds a feed and returns it.
    InsertFeed { gh_label: String, channel_id: i64, ping_role: Option<i64> },
    /// Removes a feed.
    DeleteFeed { id: i64 },
    // content review settings
    /// The row of settings.
    SelectConfig,
    /// Writes one setting, and keeps the others.
    UpsertConfig(ConfigColumn),
    /// All criteria by which pull requests are ignored.
    SelectIgnored,
    /// Adds a criterion and returns it.
    InsertIgnored { kind: i64, value: String },
    /// Removes a criterion.
    DeleteIgnored { id: i64 },
    /// The record of a forum.
    SelectForum { channel_id: i64 },
    /// Writes the record of a forum, in place of any it has.
    UpsertForum {
        channel_id: i64,
        private: bool,
        tag_cr_approved: i64,
        tag_cr_denied: i64,
        tag_cr_test_merge: i64,
        tag_pr_closed: i64,
        tag_pr_merged: i64,
    },
    /// Removes the record of a forum.
    DeleteForum { channel_id: i64 },
    // discussions
    /// All discussions.
    SelectDiscussions,
    /// The discussion of a pull request.
    SelectDiscussionByPr { pr_id: i64 },
    /// The discussion held in a thread.
    SelectDiscussionByThread { thread_id: i64 },
    /// Adds a discussion.
    InsertDiscussion {
        pr_id: i64,
        forum_id: i64,
        thread_id: i64,
        review_days_total: Option<i64>,
        review_days_passed: Option<i64>,
        review_days_next_micros: Option<i64>,
        pr_title: String,
        pr_author: String,
        pr_body: Option<String>,
    },
    /// Moves a discussion to another thread.
    UpdateThread { pr_id: i64, thread_id: i64 },
    /// Moves a discussion to another forum.
    UpdateForum { pr_id: i64, forum_id: i64 },
    /// Notes who triaged a discussion.
    UpdateTriagedBy { pr_id: i64, triaged_by: i64 },
    /// Removes a discussion.
    DeleteDiscussion { pr_id: i64 },
    /// Forgets the description of a pull request.
    ClearBody { pr_id: i64 },
    /// Starts the review clock of a discussion.
    UpdateReviewTime { pr_id: i64, total: i64, passed: i64, next_micros: i64 },
    /// Moves the review clock of a discussion on.
    UpdateReviewTimer { pr_id: i64, passed: i64, next_micros: i64 },
    /// Stops the reminders of a discussion.
    ClearNextReminder { pr_id: i64 },
    // issues and votes to override them
    /// The issues raised in a discussion.
    SelectIssues { pr_id: i64 },
    /// How many issues are raised in a discussion.
    CountIssues { pr_id: i64 },
    /// The votes to override the issues of a discussion.
    SelectOverrides { pr_id: i64 },
    /// How many votes to override there are in a discussion.
    CountOverrides { pr_id: i64 },
    /// Records the issue of a user, in place of any earlier one in the discussion.
    UpsertIssue { pr_id: i64, user_id: i64, message_id: i64 },
    /// Records the vote of a user, in place of any earlier one in the discussion.
    UpsertOverride { pr_id: i64, user_id: i64, message_id: i64 },
    /// Removes all votes of a discussion and returns them.
    DeleteOverrides { pr_id: i64 },
    /// The message of a user's issue.
    SelectIssueByAuthor { pr_id: i64, user_id: i64 },
    /// The message of a user's vote.
    SelectOverrideByAuthor { pr_id: i64, user_id: i64 },
    /// Removes the issue of a user and returns its message.
    DeleteIssueByAuthor { pr_id: i64, user_id: i64 },
    /// Removes the vote of a user and returns its message.
    DeleteOverrideByAuthor { pr_id: i64, user_id: i64 },
    // votes against the issue of one author
    /// The message of a user's vote against the issue of an author.
    SelectIssueOverride { pr_id: i64, issue_author: i64, user_id: i64 },
    /// The votes against the issue of an author.
    SelectIssueOverrides { pr_id: i64, issue_author: i64 },
    /// Records the vote of a user against the issue of an author.
    UpsertIssueOverride { pr_id: i64, issue_author: i64, user_id: i64, message_id: i64 },
}

/// A column of the settings row, with its new value.
#[derive(Debug, PartialEq, Eq)]
pub enum ConfigColumn {
    IntakeForum(Option<i64>),
    PublicForum(Option<i64>),
    PrivateForum(Option<i64>),
    NoReviewLabel(String),
    UnderReviewLabel(String),
    ChangesRequestedLabel(String),
    ApprovedLabel(String),
    DeniedLabel(String),
    ReviewPingRole(Option<i64>),
}

/// The settings row, as the database holds it.
#[derive(Debug)]
pub struct ConfigRow {
    pub intake_cr_forum: Option<ChannelId>,
    pub private_cr_forum: Option<ChannelId>,
    pub public_cr_forum: Option<ChannelId>,
    pub gh_label_under_review: Option<String>,
    pub gh_label_no_review: Option<String>,
    pub gh_label_cr_approved: Option<String>,
    pub gh_label_cr_denied: Option<String>,
    pub gh_label_cr_changes_requested: Option<String>,
    pub review_ping_role: Option<RoleId>,
}

/// The row of a discussion, as the database holds it.
#[derive(Debug)]
pub struct DiscussionRow {
    pub pr_id: i64,
    pub forum_id: ChannelId,
    pub thread_id: ChannelId,
    pub triaged_by: Option<UserId>,
    pub review_days_total: Option<i64>,
    pub review_days_passed: Option<i64>,
    pub review_days_next_micros: Option<i64>,
    pub pr_title: String,
    pub pr_author: String,
    pub pr_body: Option<String>,
}

impl Clone for DiscussionRow {
    fn clone(&self) -> (r: Self)
        ensures
            r == *self,
    {
        DiscussionRow {
            pr_id: self.pr_id,
            forum_id: self.forum_id,
            thread_id: self.thread_id,
            triaged_by: self.triaged_by,
            review_days_total: self.review_days_total,
            review_days_passed: self.review_days_passed,
            review_days_next_micros: self.review_days_next_micros,
            pr_title: self.pr_title.clone(),
            pr_author: self.pr_author.clone(),
            pr_body: copy_text(&self.pr_body),
        }
    }
}

/// The row of a criterion by which pull requests are ignored.
#[derive(Debug)]
pub struct IgnoredRow {
    pub id: i64,
    pub kind: i64,
    pub value: String,
}

/// The row of a feed.
#[derive(Debug)]
pub struct FeedRow {
    pub id: i64,
    pub gh_label: String,
    pub channel_id: ChannelId,
    pub ping_role: Option<RoleId>,
}

/// A user and the message that speaks for the user: an issue, or a vote.
pub type Vote = (UserId, MessageId);

} // verus!
