//! What the bot does outside itself, and what it learns from that.
//!
//! Whatever takes a conversation with Discord, GitHub or the database is a run: a value that is
//! handed the answer to its last action and gives back itself, moved on, and the next action. A
//! run begins with `Answer::Start`. It ends with one of the actions that ask for nothing.

use vstd::prelude::*;

use crate::discord::content_review::data::config::ignored::{IgnoreCriterion, IgnoredKind};
use crate::discord::content_review::data::config::Setting;
use crate::discord::content_review::data::forums::ForumRecord;
use crate::discord::content_review::notices::{Card, Comment, Notice, Post};
use crate::discord::content_review::raised_issues::overview::Overview;
use crate::discord::error::{DbError, HandledError};
use crate::discord::ids::{ChannelId, ForumTagId, GuildId, MessageId, RoleId, UserId};
use crate::discord::permissions::data::{Permission, PermissionFlags, Snowflake};
use crate::discord::pr_feeds::data::PrFeed;
use crate::discord::store::{DiscussionRow, Statement, Vote};
use crate::discord::texts::Text;
use crate::github::PullInfo;

verus! {

/// A channel or a thread of a guild.
#[derive(Debug)]
pub struct GuildChannel {
    pub id: ChannelId,
    pub guild: GuildId,
    /// What the channel belongs to; the forum, for a thread.
    pub parent: Option<ChannelId>,
    /// The tags that the thread has.
    pub applied_tags: Vec<ForumTagId>,
}

/// The message that a command was used on.
#[derive(Clone, Copy, Debug, PartialEq, Eq, Structural)]
pub struct TargetMessage {
    pub id: MessageId,
    pub author: UserId,
    pub channel: ChannelId,
}

/// A message that was fetched.
#[derive(Debug, PartialEq, Eq)]
pub struct FetchedMessage {
    pub author: UserId,
    pub author_name: String,
    /// What the message says, with its mentions made harmless.
    pub content: String,
    /// The message that it replies to, by its number and its author.
    pub replied_to: Option<(MessageId, UserId)>,
}

/// A thread that was just started.
#[derive(Clone, Copy, Debug, PartialEq, Eq, Structural)]
pub struct NewThread {
    pub id: ChannelId,
    pub guild: GuildId,
}

/// What a team member entered when starting a review.
#[derive(Debug)]
pub struct ReviewSettings {
    pub review_time_days: String,
    pub reasoning: Option<String>,
}

/// What came of asking for a label to be removed.
#[derive(Clone, Copy, Debug, PartialEq, Eq, Structural)]
pub enum LabelRemoval {
    Removed,
    /// GitHub refused, with this status.
    Refused(u16),
    /// The request failed otherwise.
    Failed,
}

/// What came of asking a user to choose somebody.
#[derive(Debug)]
pub enum Selection {
    /// Nobody was chosen in time.
    TimedOut,
    /// The answer was not a choice of users.
    Invalid,
    Chosen(Vec<UserId>),
}

/// A change to a thread.
#[derive(Debug)]
pub enum ThreadEdit {
    /// Takes a tag away.
    RemoveTag { applied: Vec<ForumTagId>, tag: ForumTagId },
    /// Adds a tag, and puts the thread into the archive if `archive` is set.
    AddTag { applied: Vec<ForumTagId>, tag: ForumTagId, archive: bool },
    /// Puts the thread into the archive.
    Archive,
}

/// The test for any tag but one.
pub open spec fn other_than(tag: ForumTagId) -> spec_fn(ForumTagId) -> bool {
    |t: ForumTagId| t != tag
}

impl ThreadEdit {
    /// The tags that the thread gets, where they change.
    pub open spec fn tags(self) -> Option<Seq<ForumTagId>> {
        match self {
            ThreadEdit::RemoveTag { applied, tag } => Some(
                applied@.filter(other_than(tag)),
            ),
            ThreadEdit::AddTag { applied, tag, .. } => Some(applied@.push(tag)),
            ThreadEdit::Archive => None,
        }
    }

    /// The tags that the thread gets, where they change.
    pub fn new_tags(&self) -> (r: Option<Vec<ForumTagId>>)
        ensures
            (match r {
                Some(x) => Some(x@),
                None => None,
            }) == self.tags(),
    {
        match self {
            ThreadEdit::RemoveTag { applied, tag } => {
                let ghost kept = other_than(*tag);
                let mut out: Vec<ForumTagId> = Vec::new();
                let mut i: usize = 0;
                proof {
                    reveal(Seq::filter);
                    assert(applied@.take(0).filter(kept) =~= Seq::<ForumTagId>::empty());
                }
                while i < applied.len()
                    invariant
                        i <= applied.len(),
                        kept == other_than(*tag),
                        out@ == applied@.take(i as int).filter(kept),
                    decreases applied.len() - i,
                {
                    proof {
                        reveal(Seq::filter);
                        assert(applied@.take(i + 1).drop_last() =~= applied@.take(i as int));
                    }
                    if applied[i] != *tag {
                        out.push(applied[i]);
                    }
                    i = i + 1;
                }
                assert(applied@.take(applied@.len() as int) =~= applied@);
                Some(out)
            },
            ThreadEdit::AddTag { applied, tag, .. } => {
                let mut out: Vec<ForumTagId> = Vec::new();
                let mut i: usize = 0;
                while i < applied.len()
                    invariant
                        i <= applied.len(),
                        out@ == applied@.take(i as int),
                    decreases applied.len() - i,
                {
                    out.push(applied[i]);
                    assert(applied@.take(i + 1) =~= applied@.take(i as int).push(
                        applied@[i as int],
                    ));
                    i = i + 1;
                }
                assert(applied@.take(applied@.len() as int) =~= applied@);
                out.push(*tag);
                Some(out)
            },
            ThreadEdit::Archive => None,
        }
    }

    /// Whether the thread is put into the archive.
    pub fn archives(&self) -> (r: bool)
        ensures
            r == match *self {
                ThreadEdit::RemoveTag { .. } => false,
                ThreadEdit::AddTag { archive, .. } => archive,
                ThreadEdit::Archive => true,
            },
    {
        match self {
            ThreadEdit::RemoveTag { .. } => false,
            ThreadEdit::AddTag { archive, .. } => *archive,
            ThreadEdit::Archive => true,
        }
    }
}

/// A tag that is removed is gone; every other tag stays, and none is added.
pub proof fn law_removed_tag_is_gone(applied: Vec<ForumTagId>, tag: ForumTagId, other: ForumTagId)
    ensures
        (ThreadEdit::RemoveTag { applied, tag }).tags()->0.contains(other) <==> applied@.contains(
            other,
        ) && other != tag,
{
    lemma_filtered_tags(applied@, tag, other);
}

proof fn lemma_filtered_tags(s: Seq<ForumTagId>, tag: ForumTagId, other: ForumTagId)
    ensures
        s.filter(other_than(tag)).contains(other) <==> s.contains(other) && other != tag,
    decreases s.len(),
{
    reveal(Seq::filter);
    let kept = other_than(tag);
    if s.len() > 0 {
        let first = s.drop_last();
        let before = first.filter(kept);
        let after = s.filter(kept);
        lemma_filtered_tags(first, tag, other);
        if after.contains(other) {
            let i = choose|i: int| 0 <= i < after.len() && after[i] == other;
            if i < before.len() {
                assert(before[i] == other);
                let k = choose|k: int| 0 <= k < first.len() && first[k] == other;
                assert(s[k] == other);
            } else {
                assert(s[s.len() - 1] == other);
            }
        }
        if s.contains(other) && other != tag {
            let k = choose|k: int| 0 <= k < s.len() && s[k] == other;
            if k < first.len() {
                assert(first[k] == other);
                let i = choose|i: int| 0 <= i < before.len() && before[i] == other;
                assert(after[i] == other);
            } else {
                assert(after[before.len() as int] == other);
            }
        }
    }
}

/// A tag that is added is there; every other tag stays, and no other is added.
pub proof fn law_added_tag_is_there(
    applied: Vec<ForumTagId>,
    tag: ForumTagId,
    archive: bool,
    other: ForumTagId,
)
    ensures
        (ThreadEdit::AddTag { applied, tag, archive }).tags()->0.contains(other) <==> applied@.contains(
            other,
        ) || other == tag,
{
    let after = applied@.push(tag);
    if applied@.contains(other) {
        let i = choose|i: int| 0 <= i < applied@.len() && applied@[i] == other;
        assert(after[i] == other);
    }
    if other == tag {
        assert(after[applied@.len() as int] == other);
    }
    if after.contains(other) {
        let i = choose|i: int| 0 <= i < after.len() && after[i] == other;
        if i < applied@.len() {
            assert(applied@[i] == other);
        }
    }
}

/// A forum among the settings.
#[derive(Clone, Copy, Debug, PartialEq, Eq, Structural)]
pub enum ForumSetting {
    Intake,
    Public,
    Private,
}

/// A label among the settings.
#[derive(Clone, Copy, Debug, PartialEq, Eq, Structural)]
pub enum LabelSetting {
    NoReviewNeeded,
    UnderReview,
    ChangesRequested,
    Approved,
    Denied,
}

/// What follows a press on a button.
#[derive(Clone, Copy, Debug, PartialEq, Eq, Structural)]
pub enum Task {
    StartReview { pr_id: u64, private: bool },
    NoReviewNeeded { pr_id: u64 },
    MuteReminders { pr_id: u64 },
    ViewIssues { pr_id: u64 },
}

/// Something to be done outside the bot.
#[derive(Debug)]
pub enum Action {
    // ends of a run
    /// All is done.
    Finish,
    /// The run ends with an error: the given one, or else the one that its last action met.
    Abort(Option<HandledError>),
    /// The run is a question, and this is the answer.
    Allow(bool),
    /// Something that was relied upon does not hold; the run cannot go on.
    Fault(&'static str),
    /// A task takes over.
    Spawn(Task),
    // the database
    Database(Statement),
    // permissions
    /// Asks whether a user or role has a permission.
    HasFlags(Snowflake, Permission),
    /// Asks for the roles of the one who gave the command.
    AuthorRoles,
    /// Asks for the roles of a user in a guild.
    MemberRoles(GuildId, UserId),
    GetFlags(Snowflake),
    AddFlags(Snowflake, Permission),
    RemoveFlags(Snowflake, Permission),
    // replies to a command
    Reply(Text),
    ReplyCard(Card),
    ReplyOverview(Overview),
    Defer,
    // answers to a press on a button
    Respond { text: Text, ephemeral: bool },
    Acknowledge,
    DeferEphemeral,
    Followup(Text),
    FollowupOverview(Overview),
    // channels and messages
    /// Asks for the channel that the command was given in.
    CurrentChannel,
    FetchChannel(ChannelId),
    FetchMessage(ChannelId, MessageId),
    Pin(ChannelId, MessageId),
    Unpin(ChannelId, MessageId),
    SendMessage(ChannelId, Notice),
    EditThread(ChannelId, ThreadEdit),
    CreatePost(ChannelId, Post),
    DeleteThread(ChannelId),
    // forms and menus
    ShowReviewForm,
    ShowChangesForm,
    /// Shows a menu of users for a pull request.
    ShowUserMenu(u64),
    /// Waits for a choice from that menu, and acknowledges it.
    AwaitSelection,
    DeleteUserMenu,
    // GitHub
    ListLabels(u64),
    ListRepoLabels,
    AddLabel(u64, String),
    RemoveLabel(u64, String),
    PostComment(u64, Comment),
    ClosePull(u64),
    GetPull(u64),
    GetIssue(u64),
    // settings
    /// Asks for a forum.
    ReadForum(ForumSetting),
    /// Asks for a label.
    ReadLabel(LabelSetting),
    /// Asks for the role that is notified of reviews.
    ReadPingRole,
    /// Asks for the labels that mark a pull request as known to the content review.
    ReadReviewLabels,
    /// Asks whether pull requests with a value are ignored.
    IsIgnored(IgnoredKind, String),
    /// Asks for the feed of a label.
    FindFeed(String),
    Configure(Setting),
    ListCriteria,
    AddCriterion(IgnoredKind, String),
    RemoveCriterion(i64),
    ListFeeds,
    AddFeed { gh_label: String, channel: ChannelId, ping_role: Option<RoleId> },
    RemoveFeed(i64),
    // time
    /// Asks for the time.
    ReadClock,
    /// Waits for a number of seconds.
    Sleep(u64),
}

impl Action {
    /// Whether the action ends the run.
    pub open spec fn ends(self) -> bool {
        self is Finish || self is Abort || self is Allow || self is Fault || self is Spawn
    }
}

/// What the last action came to.
#[derive(Debug)]
pub enum Answer {
    /// There was no action yet.
    Start,
    Done,
    Failed,
    // the database
    Written(Result<(), DbError>),
    Discussion(Result<DiscussionRow, DbError>),
    Discussions(Result<Vec<DiscussionRow>, DbError>),
    Forum(Option<ForumRecord>),
    Message(Result<Option<MessageId>, DbError>),
    Votes(Result<Vec<Vote>, DbError>),
    Count(Result<i64, DbError>),
    // permissions
    Holds(bool),
    Roles(Option<Vec<RoleId>>),
    Flags(Result<PermissionFlags, HandledError>),
    Updated(Result<(), HandledError>),
    // channels and messages
    Channel(Option<GuildChannel>),
    Fetched(Option<FetchedMessage>),
    Posted(Option<NewThread>),
    // forms and menus
    /// The entries; nothing if the form was left alone, and an error if it could not be shown.
    ReviewForm(Result<Option<ReviewSettings>, ()>),
    ChangesForm(Result<Option<String>, ()>),
    Selected(Selection),
    // GitHub
    Labels(Option<Vec<String>>),
    ReviewLabels(Vec<String>),
    LabelRemoval(LabelRemoval),
    Pull(Option<PullInfo>),
    // settings
    ForumIs(Option<ChannelId>),
    LabelIs(Option<String>),
    PingRoleIs(Option<RoleId>),
    Ignored(bool),
    Feed(Option<PrFeed>),
    Criteria(Vec<IgnoreCriterion>),
    Feeds(Vec<PrFeed>),
    // time
    /// The time, in microseconds.
    Now(i64),
}

/// A run, as seen from outside: what it does next on which answer.
pub trait Flow: Sized {
    /// The run after a step, and its next action.
    spec fn next(self, answer: Answer) -> (Self, Action);
}

/// A run.
pub trait Run: Flow {
    /// Hands the run the answer to its last action.
    fn step(self, answer: Answer) -> (r: (Self, Action))
        ensures
            r == self.next(answer),
    ;
}

/// The run after it was handed some answers.
pub open spec fn after<F: Flow>(run: F, answers: Seq<Answer>) -> F
    decreases answers.len(),
{
    if answers.len() == 0 {
        run
    } else {
        after(run, answers.drop_last()).next(answers.last()).0
    }
}

/// The action that a run comes to on the last of some answers.
pub open spec fn action_on<F: Flow>(run: F, answers: Seq<Answer>) -> Action {
    after(run, answers.drop_last()).next(answers.last()).1
}

/// Whether a run has come to an action on one of the answers.
#[verifier::opaque]
pub open spec fn did<F: Flow>(run: F, answers: Seq<Answer>, action: Action) -> bool {
    exists|n: int| 0 < n <= answers.len() && #[trigger] action_on(run, answers.take(n)) == action
}

/// The action that a run comes to on the last answer is one that it has come to, and so are those
/// that it has come to before.
pub proof fn lemma_did<F: Flow>(run: F, answers: Seq<Answer>)
    requires
        answers.len() > 0,
    ensures
        did(run, answers, action_on(run, answers)),
        forall|action: Action| #[trigger]
            did(run, answers.drop_last(), action) ==> did(run, answers, action),
{
    reveal(did);
    let before = answers.drop_last();
    assert(answers.take(answers.len() as int) =~= answers);
    assert(action_on(run, answers.take(answers.len() as int)) == action_on(run, answers));
    assert forall|action: Action| #[trigger] did(run, before, action) implies did(
        run,
        answers,
        action,
    ) by {
        let n = choose|n: int|
            0 < n <= before.len() && #[trigger] action_on(run, before.take(n)) == action;
        assert(before.take(n) =~= answers.take(n));
        assert(action_on(run, answers.take(n)) == action);
    }
}

/// A run has come to nothing but what it had come to before and its last action.
pub proof fn lemma_did_before<F: Flow>(run: F, answers: Seq<Answer>)
    requires
        answers.len() > 0,
    ensures
        forall|action: Action| #[trigger]
            did(run, answers, action) ==> did(run, answers.drop_last(), action) || action
                == action_on(run, answers),
{
    reveal(did);
    let before = answers.drop_last();
    assert forall|action: Action| #[trigger] did(run, answers, action) implies did(
        run,
        before,
        action,
    ) || action == action_on(run, answers) by {
        let n = choose|n: int|
            0 < n <= answers.len() && #[trigger] action_on(run, answers.take(n)) == action;
        if n == answers.len() {
            assert(answers.take(n) =~= answers);
        } else {
            assert(before.take(n) =~= answers.take(n));
            assert(action_on(run, before.take(n)) == action);
        }
    }
}

/// Whether a run has come to an action and was handed an answer to it.
#[verifier::opaque]
pub open spec fn was_answered<F: Flow>(
    run: F,
    answers: Seq<Answer>,
    action: Action,
    answer: Answer,
) -> bool {
    exists|n: int|
        0 < n < answers.len() && #[trigger] action_on(run, answers.take(n)) == action && answers[n]
            == answer
}

/// The last answer is one to the action before it, and what was answered before stays answered.
pub proof fn lemma_answered<F: Flow>(run: F, answers: Seq<Answer>)
    requires
        answers.len() > 0,
    ensures
        answers.len() > 1 ==> was_answered(
            run,
            answers,
            action_on(run, answers.drop_last()),
            answers.last(),
        ),
        forall|action: Action, answer: Answer| #[trigger]
            was_answered(run, answers.drop_last(), action, answer) ==> was_answered(
                run,
                answers,
                action,
                answer,
            ),
{
    reveal(was_answered);
    let before = answers.drop_last();
    if answers.len() > 1 {
        let n = answers.len() - 1;
        assert(answers.take(n) =~= before);
        assert(action_on(run, answers.take(n)) == action_on(run, before));
        assert(answers[n] == answers.last());
    }
    assert forall|action: Action, answer: Answer| #[trigger]
        was_answered(run, before, action, answer) implies was_answered(
        run,
        answers,
        action,
        answer,
    ) by {
        let n = choose|n: int|
            0 < n < before.len() && #[trigger] action_on(run, before.take(n)) == action && before[n]
                == answer;
        assert(before.take(n) =~= answers.take(n));
        assert(action_on(run, answers.take(n)) == action && answers[n] == answer);
    }
}

/// Whether a step is the last reply of a run, which is over once that is sent, and ends with the error
/// if it cannot be sent.
pub open spec fn closes_with<F: Flow>(step: (F, Action), text: Text) -> bool {
    &&& step.1 == Action::Reply(text)
    &&& step.0.next(Answer::Done).1 == Action::Finish
    &&& step.0.next(Answer::Failed).1 == Action::Abort(None)
}

/// Whether a step is the last reply of a run, and tells an error.
pub open spec fn closes_with_error<F: Flow>(
    step: (F, Action),
    before: &'static str,
    error: HandledError,
) -> bool {
    closes_with(step, Text::Error { before, error, after: "" })
}

} // verus!
