//! Raising issues, and voting to override them.

use vstd::prelude::*;

use crate::discord::action::{
    action_on, after, closes_with, closes_with_error, did, lemma_answered, lemma_did, was_answered,
    Action, Answer, FetchedMessage, Flow, GuildChannel, Run, TargetMessage,
};
use crate::discord::content_review::data::discussions::{
    by_thread_result, found_result, record_of, stored_result, votes_result, DiscussionRecord,
};
use crate::discord::error::{DbError, HandledError};
use crate::discord::ids::{column_of, law_value_round_trip, ChannelId, MessageId, UserId};
use crate::discord::permissions::check::{Body, Command};
use crate::discord::permissions::data::Permission;
use crate::discord::store::{DiscussionRow, Statement, Vote};
use crate::discord::texts::Text;

verus! {

/// The raising of an issue.
#[derive(Debug)]
pub struct Raise {
    /// Who raises it.
    pub author: UserId,
    /// The message that states it.
    pub message: TargetMessage,
    pub stage: RaiseStage,
}

/// How far the raising of an issue has got.
#[derive(Debug)]
pub enum RaiseStage {
    New,
    Lookup,
    OldIssue { discussion: DiscussionRecord },
    OwnVote { discussion: DiscussionRecord, old: Option<MessageId> },
    Recording { discussion: DiscussionRecord, old: Option<MessageId> },
    Pinning { discussion: DiscussionRecord, old: Option<MessageId> },
    Channel { discussion: DiscussionRecord, old: Option<MessageId> },
    FetchingOld { discussion: DiscussionRecord, channel: ChannelId, earlier: MessageId },
    UnpinningOld { discussion: DiscussionRecord, channel: ChannelId },
    Clearing { discussion: DiscussionRecord, channel: ChannelId },
    FetchingVote { discussion: DiscussionRecord, channel: ChannelId, votes: Vec<Vote>, at: usize },
    UnpinningVote { discussion: DiscussionRecord, channel: ChannelId, votes: Vec<Vote>, at: usize },
    /// Telling that the issue was raised.
    Raised { discussion: DiscussionRecord, channel: ChannelId, votes: Vec<Vote> },
    /// Telling why it was not.
    Closing,
    Over,
}

impl Raise {
    /// The run at another stage.
    pub open spec fn at(self, stage: RaiseStage) -> Raise {
        Raise { stage, ..self }
    }

    /// Ends with a reply.
    pub open spec fn close(self, text: Text) -> (Raise, Action) {
        (self.at(RaiseStage::Closing), Action::Reply(text))
    }

    /// Ends with a reply that tells an error.
    pub open spec fn fail(self, before: &'static str, error: HandledError) -> (Raise, Action) {
        self.close(Text::Error { before, error, after: "" })
    }

    /// Makes all votes of the discussion void.
    pub open spec fn clear(self, discussion: DiscussionRecord, channel: ChannelId) -> (
        Raise,
        Action,
    ) {
        (
            self.at(RaiseStage::Clearing { discussion, channel }),
            Action::Database(discussion.clear_issue_overrides_query()),
        )
    }

    /// Goes on with the messages of the votes from a place on.
    pub open spec fn release(
        self,
        discussion: DiscussionRecord,
        channel: ChannelId,
        votes: Vec<Vote>,
        at: int,
    ) -> (Raise, Action) {
        if at < votes@.len() {
            (
                self.at(
                    RaiseStage::FetchingVote { discussion, channel, votes, at: at as usize },
                ),
                Action::FetchMessage(channel, votes@[at].1),
            )
        } else {
            (
                self.at(RaiseStage::Raised { discussion, channel, votes }),
                Action::Reply(Text::Plain("Issue raised successfully.")),
            )
        }
    }
}

impl Flow for Raise {
    open spec fn next(self, answer: Answer) -> (Self, Action) {
        match (self.stage, answer) {
            (RaiseStage::New, Answer::Start) => if self.author != self.message.author {
                self.close(
                    Text::Plain("You can't mark someone else's message as your raised issue."),
                )
            } else {
                (
                    self.at(RaiseStage::Lookup),
                    Action::Database(
                        Statement::SelectDiscussionByThread {
                            thread_id: column_of(self.message.channel@),
                        },
                    ),
                )
            },
            (RaiseStage::Lookup, Answer::Discussion(row)) => match by_thread_result(row) {
                Some(discussion) => (
                    self.at(RaiseStage::OldIssue { discussion }),
                    Action::Database(discussion.get_issue_by_author_query(self.author)),
                ),
                None => self.close(
                    Text::Plain("You can't raise an issue outside of a review thread."),
                ),
            },
            (RaiseStage::OldIssue { discussion }, Answer::Message(message)) => match found_result(
                message,
            ) {
                Ok(old) => (
                    self.at(RaiseStage::OwnVote { discussion, old }),
                    Action::Database(discussion.get_override_by_author_query(self.author)),
                ),
                Err(error) => self.fail("Failed to check for previous issue: ", error),
            },
            (RaiseStage::OwnVote { discussion, old }, Answer::Message(message)) => match found_result(
                message,
            ) {
                Ok(vote) => if vote == Some(self.message.id) {
                    self.close(Text::Plain("Your override can't also be an issue."))
                } else if old == Some(self.message.id) {
                    self.close(
                        Text::Plain("You've already marked this message as your raised issue."),
                    )
                } else {
                    (
                        self.at(RaiseStage::Recording { discussion, old }),
                        Action::Database(
                            discussion.upsert_issue_query(self.author, self.message.id),
                        ),
                    )
                },
                Err(error) => self.fail("Failed to check for override: ", error),
            },
            (RaiseStage::Recording { discussion, old }, Answer::Written(written)) => match stored_result(
                written,
            ) {
                Ok(_) => (
                    self.at(RaiseStage::Pinning { discussion, old }),
                    Action::Pin(self.message.channel, self.message.id),
                ),
                Err(error) => self.fail("Failed to raise issue: ", error),
            },
            (RaiseStage::Pinning { discussion, old }, Answer::Done) => (
                self.at(RaiseStage::Channel { discussion, old }),
                Action::CurrentChannel,
            ),
            (RaiseStage::Pinning { .. }, _) => self.close(
                Text::Plain("Failed to pin message. Lacking permission?"),
            ),
            (RaiseStage::Channel { discussion, old }, Answer::Channel(Some(channel))) => match old {
                Some(message) => (
                    self.at(
                        RaiseStage::FetchingOld { discussion, channel: channel.id, earlier: message },
                    ),
                    Action::FetchMessage(channel.id, message),
                ),
                None => self.clear(discussion, channel.id),
            },
            (RaiseStage::Channel { .. }, Answer::Channel(None)) => (
                self.at(RaiseStage::Over),
                Action::Finish,
            ),
            (RaiseStage::FetchingOld { discussion, channel, earlier }, Answer::Fetched(Some(_))) => (
                self.at(RaiseStage::UnpinningOld { discussion, channel }),
                Action::Unpin(channel, earlier),
            ),
            (RaiseStage::FetchingOld { discussion, channel, .. }, Answer::Fetched(None)) => self.clear(
                discussion,
                channel,
            ),
            (RaiseStage::UnpinningOld { discussion, channel }, Answer::Done) => self.clear(
                discussion,
                channel,
            ),
            (RaiseStage::Clearing { discussion, channel }, Answer::Votes(found)) => match votes_result(
                found,
            ) {
                Ok(votes) => self.release(discussion, channel, votes, 0),
                Err(error) => self.fail("Failed to retrieve overrides: ", error),
            },
            (
                RaiseStage::FetchingVote { discussion, channel, votes, at },
                Answer::Fetched(fetched),
            ) => if at >= votes@.len() {
                (self.at(RaiseStage::Over), Action::Abort(None))
            } else if fetched is Some {
                (
                    self.at(RaiseStage::UnpinningVote { discussion, channel, votes, at }),
                    Action::Unpin(channel, votes@[at as int].1),
                )
            } else {
                self.release(discussion, channel, votes, at + 1)
            },
            (
                RaiseStage::UnpinningVote { discussion, channel, votes, at },
                Answer::Done,
            ) => if at >= votes@.len() {
                (self.at(RaiseStage::Over), Action::Abort(None))
            } else {
                self.release(discussion, channel, votes, at + 1)
            },
            (RaiseStage::Raised { .. }, Answer::Done) => (self.at(RaiseStage::Over), Action::Finish),
            (RaiseStage::Closing, Answer::Done) => (self.at(RaiseStage::Over), Action::Finish),
            _ => (self.at(RaiseStage::Over), Action::Abort(None)),
        }
    }
}

impl Raise {
    fn with(self, stage: RaiseStage) -> (r: Raise)
        ensures
            r == self.at(stage),
    {
        Raise { author: self.author, message: self.message, stage }
    }

    fn closed(self, text: Text) -> (r: (Raise, Action))
        ensures
            r == self.close(text),
    {
        (self.with(RaiseStage::Closing), Action::Reply(text))
    }

    fn failed(self, before: &'static str, error: HandledError) -> (r: (Raise, Action))
        ensures
            r == self.fail(before, error),
    {
        self.closed(Text::Error { before, error, after: "" })
    }

    fn cleared(self, discussion: DiscussionRecord, channel: ChannelId) -> (r: (Raise, Action))
        ensures
            r == self.clear(discussion, channel),
    {
        let statement = discussion.clear_issue_overrides_statement();
        (self.with(RaiseStage::Clearing { discussion, channel }), Action::Database(statement))
    }

    fn released(
        self,
        discussion: DiscussionRecord,
        channel: ChannelId,
        votes: Vec<Vote>,
        at: usize,
    ) -> (r: (Raise, Action))
        ensures
            r == self.release(discussion, channel, votes, at as int),
    {
        if at < votes.len() {
            let message = votes[at].1;
            (
                self.with(RaiseStage::FetchingVote { discussion, channel, votes, at }),
                Action::FetchMessage(channel, message),
            )
        } else {
            (
                self.with(RaiseStage::Raised { discussion, channel, votes }),
                Action::Reply(Text::Plain("Issue raised successfully.")),
            )
        }
    }
}

impl Run for Raise {
    fn step(self, answer: Answer) -> (r: (Self, Action)) {
        let author = self.author;
        let message = self.message;
        let run = Raise { author, message, stage: RaiseStage::Over };
        match (self.stage, answer) {
            (RaiseStage::New, Answer::Start) => {
                if author != message.author {
                    return run.closed(
                        Text::Plain("You can't mark someone else's message as your raised issue."),
                    );
                }
                let statement = DiscussionRecord::get_by_thread_statement(message.channel);
                (run.with(RaiseStage::Lookup), Action::Database(statement))
            },
            (RaiseStage::Lookup, Answer::Discussion(row)) => {
                match DiscussionRecord::get_by_thread(row) {
                    Some(discussion) => {
                        let statement = discussion.get_issue_by_author_statement(author);
                        (
                            run.with(RaiseStage::OldIssue { discussion }),
                            Action::Database(statement),
                        )
                    },
                    None => run.closed(
                        Text::Plain("You can't raise an issue outside of a review thread."),
                    ),
                }
            },
            (RaiseStage::OldIssue { discussion }, Answer::Message(found)) => {
                match DiscussionRecord::get_issue_by_author(found) {
                    Ok(old) => {
                        let statement = discussion.get_override_by_author_statement(author);
                        (
                            run.with(RaiseStage::OwnVote { discussion, old }),
                            Action::Database(statement),
                        )
                    },
                    Err(error) => run.failed("Failed to check for previous issue: ", error),
                }
            },
            (RaiseStage::OwnVote { discussion, old }, Answer::Message(found)) => {
                match DiscussionRecord::get_override_by_author(found) {
                    Ok(vote) => {
                        if is_message(vote, message.id) {
                            return run.closed(
                                Text::Plain("Your override can't also be an issue."),
                            );
                        }
                        if is_message(old, message.id) {
                            return run.closed(
                                Text::Plain(
                                    "You've already marked this message as your raised issue.",
                                ),
                            );
                        }
                        let statement = discussion.upsert_issue_statement(author, message.id);
                        (
                            run.with(RaiseStage::Recording { discussion, old }),
                            Action::Database(statement),
                        )
                    },
                    Err(error) => run.failed("Failed to check for override: ", error),
                }
            },
            (RaiseStage::Recording { discussion, old }, Answer::Written(written)) => {
                match DiscussionRecord::upsert_issue(written) {
                    Ok(_) => (
                        run.with(RaiseStage::Pinning { discussion, old }),
                        Action::Pin(message.channel, message.id),
                    ),
                    Err(error) => run.failed("Failed to raise issue: ", error),
                }
            },
            (RaiseStage::Pinning { discussion, old }, answer) => match answer {
                Answer::Done => (
                    run.with(RaiseStage::Channel { discussion, old }),
                    Action::CurrentChannel,
                ),
                _ => run.closed(Text::Plain("Failed to pin message. Lacking permission?")),
            },
            (RaiseStage::Channel { discussion, old }, Answer::Channel(channel)) => match channel {
                Some(channel) => match old {
                    Some(earlier) => (
                        run.with(
                            RaiseStage::FetchingOld { discussion, channel: channel.id, earlier },
                        ),
                        Action::FetchMessage(channel.id, earlier),
                    ),
                    None => run.cleared(discussion, channel.id),
                },
                None => (run, Action::Finish),
            },
            (RaiseStage::FetchingOld { discussion, channel, earlier }, Answer::Fetched(fetched)) => {
                match fetched {
                    Some(_) => (
                        run.with(RaiseStage::UnpinningOld { discussion, channel }),
                        Action::Unpin(channel, earlier),
                    ),
                    // it may have been deleted, which is no reason to trouble the user
                    None => run.cleared(discussion, channel),
                }
            },
            (RaiseStage::UnpinningOld { discussion, channel }, Answer::Done) => run.cleared(
                discussion,
                channel,
            ),
            (RaiseStage::Clearing { discussion, channel }, Answer::Votes(found)) => {
                match DiscussionRecord::clear_issue_overrides(found) {
                    Ok(votes) => run.released(discussion, channel, votes, 0),
                    Err(error) => run.failed("Failed to retrieve overrides: ", error),
                }
            },
            (
                RaiseStage::FetchingVote { discussion, channel, votes, at },
                Answer::Fetched(fetched),
            ) => {
                if at >= votes.len() {
                    return (run, Action::Abort(None));
                }
                match fetched {
                    Some(_) => {
                        let vote = votes[at].1;
                        (
                            run.with(RaiseStage::UnpinningVote { discussion, channel, votes, at }),
                            Action::Unpin(channel, vote),
                        )
                    },
                    // it may have been deleted, which is no reason to trouble the user
                    None => run.released(discussion, channel, votes, at + 1),
                }
            },
            (RaiseStage::UnpinningVote { discussion, channel, votes, at }, Answer::Done) => {
                if at >= votes.len() {
                    return (run, Action::Abort(None));
                }
                run.released(discussion, channel, votes, at + 1)
            },
            (RaiseStage::Raised { .. }, Answer::Done) => (run, Action::Finish),
            (RaiseStage::Closing, Answer::Done) => (run, Action::Finish),
            _ => (run, Action::Abort(None)),
        }
    }
}

/// Whether a message was found, and is a given one.
pub fn is_message(found: Option<MessageId>, id: MessageId) -> (r: bool)
    ensures
        r == (found == Some(id)),
{
    match found {
        Some(x) => x == id,
        None => false,
    }
}

impl Body for Raise {
    open spec fn needs() -> Permission {
        Permission::ContentReviewer
    }

    fn needed() -> (r: Permission) {
        Permission::ContentReviewer
    }
}

/// A step of the command that raises an issue.
pub fn cr_issue_raise_context(run: Command<Raise>, answer: Answer) -> (r: (Command<Raise>, Action))
    ensures
        r == run.next(answer),
{
    run.step(answer)
}

/// Whether a discussion was found to be held in the thread that was asked for.
pub open spec fn was_found(answers: Seq<Answer>, discussion: DiscussionRecord) -> bool {
    exists|i: int|
        0 <= i < answers.len() && (#[trigger] answers[i] matches Answer::Discussion(row)
            && by_thread_result(row) == Some(discussion))
}

proof fn lemma_found_stays(answers: Seq<Answer>)
    requires
        answers.len() > 0,
    ensures
        forall|discussion: DiscussionRecord| #[trigger]
            was_found(answers.drop_last(), discussion) ==> was_found(answers, discussion),
{
    let before = answers.drop_last();
    assert forall|discussion: DiscussionRecord| #[trigger]
        was_found(before, discussion) implies was_found(answers, discussion) by {
        let i = choose|i: int|
            0 <= i < before.len() && (#[trigger] before[i] matches Answer::Discussion(row)
                && by_thread_result(row) == Some(discussion));
        assert(answers[i] == before[i]);
    }
}

impl RaiseStage {
    /// The discussion that the issue is raised in, once it is known.
    pub open spec fn discussion(self) -> Option<DiscussionRecord> {
        match self {
            RaiseStage::OldIssue { discussion } => Some(discussion),
            RaiseStage::OwnVote { discussion, .. } => Some(discussion),
            RaiseStage::Recording { discussion, .. } => Some(discussion),
            RaiseStage::Pinning { discussion, .. } => Some(discussion),
            RaiseStage::Channel { discussion, .. } => Some(discussion),
            RaiseStage::FetchingOld { discussion, .. } => Some(discussion),
            RaiseStage::UnpinningOld { discussion, .. } => Some(discussion),
            RaiseStage::Clearing { discussion, .. } => Some(discussion),
            RaiseStage::FetchingVote { discussion, .. } => Some(discussion),
            RaiseStage::UnpinningVote { discussion, .. } => Some(discussion),
            RaiseStage::Raised { discussion, .. } => Some(discussion),
            _ => None,
        }
    }
}

proof fn lemma_raised_where_found(first: Raise, answers: Seq<Answer>)
    requires
        first.stage is New,
    ensures
        ({
            let discussion = after(first, answers).stage.discussion();
            discussion is Some ==> was_found(answers, discussion->0)
        }),
        after(first, answers).stage is Lookup ==> did(
            first,
            answers,
            Action::Database(
                Statement::SelectDiscussionByThread { thread_id: column_of(first.message.channel@) },
            ),
        ),
        after(first, answers).message == first.message,
    decreases answers.len(),
{
    if answers.len() > 0 {
        let before = answers.drop_last();
        lemma_raised_where_found(first, before);
        lemma_found_stays(answers);
        lemma_did(first, answers);
        assert(answers[answers.len() - 1] == answers.last());
        let now = after(first, before);
        if now.stage is Lookup {
            if let Answer::Discussion(row) = answers.last() {
                if by_thread_result(row) is Some {
                    assert(was_found(answers, by_thread_result(row)->0));
                }
            }
        }
    }
}

/// An issue is raised only in a discussion: what is put into the database is about the pull request
/// whose discussion was found.
pub proof fn law_issues_need_a_discussion(first: Raise, answers: Seq<Answer>)
    requires
        first.stage is New,
        answers.len() > 0,
    ensures
        match action_on(first, answers) {
            Action::Database(Statement::UpsertIssue { pr_id, .. }) => exists|
                discussion: DiscussionRecord,
            | #[trigger]
                was_found(answers.drop_last(), discussion) && pr_id == column_of(discussion.pr_id),
            _ => true,
        },
{
    lemma_raised_where_found(first, answers.drop_last());
}

impl Raise {
    /// What holds of a run, that began as `first`, after some answers.
    pub open spec fn holds(self, first: Raise, answers: Seq<Answer>) -> bool {
        &&& self.author == first.author
        &&& self.message == first.message
        &&& match self.stage {
            RaiseStage::New => true,
            RaiseStage::Closing => true,
            RaiseStage::Over => true,
            RaiseStage::Clearing { discussion, channel } => {
                &&& self.author == self.message.author
                &&& self.did_record(first, answers, discussion)
                &&& self.did_void(first, answers, discussion)
            },
            RaiseStage::FetchingVote { discussion, channel, votes, at } => {
                &&& self.author == self.message.author
                &&& self.did_record(first, answers, discussion)
                &&& self.did_void(first, answers, discussion)
                &&& at < votes@.len()
                &&& forall|k: int|
                    0 <= k <= at ==> self.did_fetch(first, answers, channel, #[trigger] votes@[k])
            },
            RaiseStage::UnpinningVote { discussion, channel, votes, at } => {
                &&& self.author == self.message.author
                &&& self.did_record(first, answers, discussion)
                &&& self.did_void(first, answers, discussion)
                &&& at < votes@.len()
                &&& forall|k: int|
                    0 <= k <= at ==> self.did_fetch(first, answers, channel, #[trigger] votes@[k])
            },
            RaiseStage::Raised { discussion, channel, votes } => {
                &&& self.author == self.message.author
                &&& self.did_record(first, answers, discussion)
                &&& self.did_void(first, answers, discussion)
                &&& forall|k: int|
                    0 <= k < votes@.len() ==> self.did_fetch(
                        first,
                        answers,
                        channel,
                        #[trigger] votes@[k],
                    )
            },
            RaiseStage::Recording { discussion, .. } => {
                &&& self.author == self.message.author
                &&& self.did_record(first, answers, discussion)
            },
            RaiseStage::Pinning { discussion, .. } => {
                &&& self.author == self.message.author
                &&& self.did_record(first, answers, discussion)
            },
            RaiseStage::Channel { discussion, .. } => {
                &&& self.author == self.message.author
                &&& self.did_record(first, answers, discussion)
            },
            RaiseStage::FetchingOld { discussion, .. } => {
                &&& self.author == self.message.author
                &&& self.did_record(first, answers, discussion)
            },
            RaiseStage::UnpinningOld { discussion, .. } => {
                &&& self.author == self.message.author
                &&& self.did_record(first, answers, discussion)
            },
            _ => self.author == self.message.author,
        }
    }

    /// Whether the issue was put into the database.
    pub open spec fn did_record(
        self,
        first: Raise,
        answers: Seq<Answer>,
        discussion: DiscussionRecord,
    ) -> bool {
        did(
            first,
            answers,
            Action::Database(discussion.upsert_issue_query(self.author, self.message.id)),
        )
    }

    /// Whether the votes of the discussion were made void.
    pub open spec fn did_void(
        self,
        first: Raise,
        answers: Seq<Answer>,
        discussion: DiscussionRecord,
    ) -> bool {
        did(first, answers, Action::Database(discussion.clear_issue_overrides_query()))
    }

    /// Whether the message of a vote was looked for.
    pub open spec fn did_fetch(
        self,
        first: Raise,
        answers: Seq<Answer>,
        channel: ChannelId,
        vote: Vote,
    ) -> bool {
        did(first, answers, Action::FetchMessage(channel, vote.1))
    }
}

proof fn lemma_raise_holds(first: Raise, answers: Seq<Answer>)
    requires
        first.stage is New,
    ensures
        after(first, answers).holds(first, answers),
    decreases answers.len(),
{
    if answers.len() > 0 {
        let before = answers.drop_last();
        lemma_raise_holds(first, before);
        lemma_did(first, answers);
        let now = after(first, before);
        let later = after(first, answers);
        assert(later == now.next(answers.last()).0);
        match later.stage {
            RaiseStage::FetchingVote { discussion, channel, votes, at } => {
                assert(votes@.len() == votes.len());
                assert forall|k: int| 0 <= k <= at implies later.did_fetch(
                    first,
                    answers,
                    channel,
                    #[trigger] votes@[k],
                ) by {
                    if k < at {
                        assert(now.did_fetch(first, before, channel, votes@[k]));
                    }
                }
            },
            RaiseStage::UnpinningVote { discussion, channel, votes, at } => {
                assert forall|k: int| 0 <= k <= at implies later.did_fetch(
                    first,
                    answers,
                    channel,
                    #[trigger] votes@[k],
                ) by {
                    assert(now.did_fetch(first, before, channel, votes@[k]));
                }
            },
            RaiseStage::Raised { discussion, channel, votes } => {
                assert(votes@.len() == votes.len());
                assert forall|k: int| 0 <= k < votes@.len() implies later.did_fetch(
                    first,
                    answers,
                    channel,
                    #[trigger] votes@[k],
                ) by {
                    assert(now.did_fetch(first, before, channel, votes@[k]));
                }
            },
            _ => {},
        }
    }
}

/// Nobody raises an issue with the message of someone else, or with the message of their own vote:
/// what is put into the database is the author and the message of the command, the message is the
/// author's, and it was just found not to be their vote.
pub proof fn law_issues_are_own(first: Raise, answers: Seq<Answer>)
    requires
        first.stage is New,
        answers.len() > 0,
    ensures
        match action_on(first, answers) {
            Action::Database(Statement::UpsertIssue { user_id, message_id, .. }) => {
                &&& first.author == first.message.author
                &&& user_id == column_of(first.author@)
                &&& message_id == column_of(first.message.id@)
                &&& answers.last() matches Answer::Message(found) && found_result(found) is Ok
                    && found_result(found)->Ok_0 != Some(first.message.id)
            },
            _ => true,
        },
{
    lemma_raise_holds(first, answers.drop_last());
}

/// When somebody is told that an issue was raised, it is in the database, all votes to override
/// were made void, and the message of each of them was looked for, to be unpinned.
pub proof fn law_raised_issue_voids_votes(first: Raise, answers: Seq<Answer>)
    requires
        first.stage is New,
    ensures
        match after(first, answers).stage {
            RaiseStage::Raised { discussion, channel, votes } => {
                &&& did(
                    first,
                    answers,
                    Action::Database(discussion.upsert_issue_query(first.author, first.message.id)),
                )
                &&& did(
                    first,
                    answers,
                    Action::Database(discussion.clear_issue_overrides_query()),
                )
                &&& forall|k: int|
                    0 <= k < votes@.len() ==> did(
                        first,
                        answers,
                        Action::FetchMessage(channel, (#[trigger] votes@[k]).1),
                    )
            },
            _ => true,
        },
{
    lemma_raise_holds(first, answers);
    let run = after(first, answers);
    if let RaiseStage::Raised { discussion, channel, votes } = run.stage {
        assert forall|k: int| 0 <= k < votes@.len() implies did(
            first,
            answers,
            Action::FetchMessage(channel, (#[trigger] votes@[k]).1),
        ) by {
            assert(run.did_fetch(first, answers, channel, votes@[k]));
        }
    }
}

impl Raise {
    /// Whether the message of a vote was unpinned, or was not found.
    pub open spec fn let_go(self, answers: Seq<Answer>, channel: ChannelId, vote: Vote) -> bool {
        ||| was_answered(
            self,
            answers,
            Action::FetchMessage(channel, vote.1),
            Answer::Fetched(None),
        )
        ||| did(self, answers, Action::Unpin(channel, vote.1))
    }

    /// Which messages of votes a run that began as this one has dealt with.
    pub open spec fn lets_go(self, answers: Seq<Answer>, stage: RaiseStage) -> bool {
        match stage {
            RaiseStage::FetchingVote { channel, votes, at, .. } => {
                &&& answers.len() > 0
                &&& at < votes@.len()
                &&& action_on(self, answers) == Action::FetchMessage(channel, votes@[at as int].1)
                &&& forall|k: int|
                    0 <= k < at ==> self.let_go(answers, channel, #[trigger] votes@[k])
            },
            RaiseStage::UnpinningVote { channel, votes, at, .. } => {
                &&& at < votes@.len()
                &&& forall|k: int|
                    0 <= k <= at ==> self.let_go(answers, channel, #[trigger] votes@[k])
            },
            RaiseStage::Raised { channel, votes, .. } => forall|k: int|
                0 <= k < votes@.len() ==> self.let_go(answers, channel, #[trigger] votes@[k]),
            _ => true,
        }
    }
}

proof fn lemma_raise_lets_go(first: Raise, answers: Seq<Answer>)
    requires
        first.stage is New,
    ensures
        first.lets_go(answers, after(first, answers).stage),
    decreases answers.len(),
{
    if answers.len() > 0 {
        let before = answers.drop_last();
        lemma_raise_lets_go(first, before);
        lemma_did(first, answers);
        lemma_answered(first, answers);
        let now = after(first, before);
        let later = after(first, answers);
        assert(later == now.next(answers.last()).0);
        assert forall|channel: ChannelId, vote: Vote| #[trigger]
            first.let_go(before, channel, vote) implies first.let_go(answers, channel, vote) by {}
        match now.stage {
            RaiseStage::FetchingVote { channel, votes, at, .. } => {
                assert(votes@.len() == votes.len());
                assert(answers.last() is Fetched ==> first.let_go(
                    answers,
                    channel,
                    votes@[at as int],
                ));
                assert forall|k: int| 0 <= k < at implies first.let_go(
                    answers,
                    channel,
                    #[trigger] votes@[k],
                ) by {
                    assert(first.let_go(before, channel, votes@[k]));
                }
            },
            RaiseStage::UnpinningVote { channel, votes, at, .. } => {
                assert(votes@.len() == votes.len());
                assert forall|k: int| 0 <= k <= at implies first.let_go(
                    answers,
                    channel,
                    #[trigger] votes@[k],
                ) by {
                    assert(first.let_go(before, channel, votes@[k]));
                }
            },
            _ => {},
        }
    }
}

/// When somebody is told that an issue was raised, the message of each void vote was unpinned,
/// unless it was not found.
pub proof fn law_void_votes_are_unpinned(first: Raise, answers: Seq<Answer>)
    requires
        first.stage is New,
    ensures
        match after(first, answers).stage {
            RaiseStage::Raised { channel, votes, .. } => forall|k: int|
                0 <= k < votes@.len() ==> first.let_go(answers, channel, #[trigger] votes@[k]),
            _ => true,
        },
{
    lemma_raise_lets_go(first, answers);
}

/// The issue of a user is recorded in a discussion.
pub open spec fn recording(discussion: DiscussionRecord, author: UserId, message: MessageId) -> Action {
    Action::Database(
        Statement::UpsertIssue {
            pr_id: column_of(discussion.pr_id),
            user_id: column_of(author@),
            message_id: column_of(message@),
        },
    )
}

/// The votes of a discussion are made void.
pub open spec fn voiding(discussion: DiscussionRecord) -> Action {
    Action::Database(Statement::DeleteOverrides { pr_id: column_of(discussion.pr_id) })
}

/// The earlier issue of a user is asked for.
pub open spec fn asking_for_issue(discussion: DiscussionRecord, author: UserId) -> Action {
    Action::Database(
        Statement::SelectIssueByAuthor {
            pr_id: column_of(discussion.pr_id),
            user_id: column_of(author@),
        },
    )
}

/// The answer that there is a message, or none.
pub open spec fn finding(found: Result<Option<MessageId>, DbError>) -> Answer {
    Answer::Message(found)
}

impl Raise {
    /// Whether a message was unpinned, or was not found.
    pub open spec fn dropped(
        self,
        answers: Seq<Answer>,
        channel: ChannelId,
        message: MessageId,
    ) -> bool {
        ||| was_answered(
            self,
            answers,
            Action::FetchMessage(channel, message),
            Answer::Fetched(None),
        )
        ||| did(self, answers, Action::Unpin(channel, message))
    }

    /// Whether it was learned which message was the issue of the user before, if there was one.
    pub open spec fn learned_old(
        self,
        answers: Seq<Answer>,
        discussion: DiscussionRecord,
        old: Option<MessageId>,
    ) -> bool {
        exists|found: Result<Option<MessageId>, DbError>|
            was_answered(
                self,
                answers,
                asking_for_issue(discussion, self.author),
                #[trigger] finding(found),
            ) && (found == Ok::<Option<MessageId>, DbError>(old) || (old is None && found == Err::<
                Option<MessageId>,
                DbError,
            >(DbError::RowNotFound)))
    }

    /// Whether a channel is the one that the command was given in.
    pub open spec fn is_here(self, answers: Seq<Answer>, channel: ChannelId) -> bool {
        exists|here: GuildChannel| #[trigger]
            was_answered(self, answers, Action::CurrentChannel, Answer::Channel(Some(here)))
                && here.id == channel
    }

    /// Whether the issue was recorded in a discussion that was found, and its message was pinned.
    pub open spec fn stated(self, answers: Seq<Answer>, discussion: DiscussionRecord) -> bool {
        &&& was_found(answers, discussion)
        &&& did(self, answers, recording(discussion, self.author, self.message.id))
    }

    /// Whether the earlier issue of the user, if there was one, was let go.
    pub open spec fn replaced(
        self,
        answers: Seq<Answer>,
        discussion: DiscussionRecord,
        channel: ChannelId,
    ) -> bool {
        &&& self.stated(answers, discussion)
        &&& did(self, answers, Action::Pin(self.message.channel, self.message.id))
        &&& self.is_here(answers, channel)
        &&& exists|old: Option<MessageId>| #[trigger]
            self.learned_old(answers, discussion, old) && (old is Some ==> self.dropped(
                answers,
                channel,
                old->0,
            ))
    }

    /// Whether the votes of a discussion were made void, and handed back.
    pub open spec fn voided(
        self,
        answers: Seq<Answer>,
        discussion: DiscussionRecord,
        votes: Vec<Vote>,
    ) -> bool {
        was_answered(self, answers, voiding(discussion), Answer::Votes(Ok(votes)))
    }

    /// Whether an issue was raised, with all that belongs to it: it is recorded and pinned, the
    /// earlier one was let go, and so was every vote that it made void.
    pub open spec fn raised(self, answers: Seq<Answer>) -> bool {
        exists|discussion: DiscussionRecord, channel: ChannelId, votes: Vec<Vote>|
            {
                &&& #[trigger] self.replaced(answers, discussion, channel)
                &&& #[trigger] self.voided(answers, discussion, votes)
                &&& forall|k: int|
                    0 <= k < votes@.len() ==> self.dropped(
                        answers,
                        channel,
                        (#[trigger] votes@[k]).1,
                    )
            }
    }

    /// What is known at a stage of a run that began as this one.
    pub open spec fn knows(self, answers: Seq<Answer>, stage: RaiseStage) -> bool {
        match stage {
            RaiseStage::OldIssue { discussion } => {
                &&& answers.len() > 0
                &&& action_on(self, answers) == asking_for_issue(discussion, self.author)
            },
            RaiseStage::OwnVote { discussion, old } => self.learned_old(answers, discussion, old),
            RaiseStage::Recording { discussion, old } => self.learned_old(answers, discussion, old)
                && self.stated(answers, discussion),
            RaiseStage::Pinning { discussion, old } => {
                &&& self.learned_old(answers, discussion, old)
                &&& self.stated(answers, discussion)
                &&& did(self, answers, Action::Pin(self.message.channel, self.message.id))
            },
            RaiseStage::Channel { discussion, old } => {
                &&& answers.len() > 0
                &&& action_on(self, answers) == Action::CurrentChannel
                &&& self.learned_old(answers, discussion, old)
                &&& self.stated(answers, discussion)
                &&& did(self, answers, Action::Pin(self.message.channel, self.message.id))
            },
            RaiseStage::FetchingOld { discussion, channel, earlier } => {
                &&& answers.len() > 0
                &&& action_on(self, answers) == Action::FetchMessage(channel, earlier)
                &&& self.learned_old(answers, discussion, Some(earlier))
                &&& self.stated(answers, discussion)
                &&& did(self, answers, Action::Pin(self.message.channel, self.message.id))
                &&& self.is_here(answers, channel)
            },
            RaiseStage::UnpinningOld { discussion, channel } => self.replaced(
                answers,
                discussion,
                channel,
            ),
            RaiseStage::Clearing { discussion, channel } => {
                &&& answers.len() > 0
                &&& action_on(self, answers) == voiding(discussion)
                &&& self.replaced(answers, discussion, channel)
            },
            RaiseStage::FetchingVote { discussion, channel, votes, .. } => {
                &&& self.replaced(answers, discussion, channel)
                &&& self.voided(answers, discussion, votes)
            },
            RaiseStage::UnpinningVote { discussion, channel, votes, .. } => {
                &&& self.replaced(answers, discussion, channel)
                &&& self.voided(answers, discussion, votes)
            },
            RaiseStage::Raised { discussion, channel, votes } => {
                &&& answers.len() > 0
                &&& action_on(self, answers) is Reply
                &&& self.replaced(answers, discussion, channel)
                &&& self.voided(answers, discussion, votes)
            },
            RaiseStage::Closing => answers.len() > 0 && action_on(self, answers) is Reply,
            _ => true,
        }
    }
}

proof fn lemma_raise_facts_stay(first: Raise, answers: Seq<Answer>)
    requires
        answers.len() > 0,
    ensures
        forall|discussion: DiscussionRecord, old: Option<MessageId>| #[trigger]
            first.learned_old(answers.drop_last(), discussion, old) ==> first.learned_old(
                answers,
                discussion,
                old,
            ),
        forall|channel: ChannelId| #[trigger]
            first.is_here(answers.drop_last(), channel) ==> first.is_here(answers, channel),
        forall|discussion: DiscussionRecord| #[trigger]
            first.stated(answers.drop_last(), discussion) ==> first.stated(answers, discussion),
        forall|channel: ChannelId, message: MessageId| #[trigger]
            first.dropped(answers.drop_last(), channel, message) ==> first.dropped(
                answers,
                channel,
                message,
            ),
        forall|discussion: DiscussionRecord, channel: ChannelId| #[trigger]
            first.replaced(answers.drop_last(), discussion, channel) ==> first.replaced(
                answers,
                discussion,
                channel,
            ),
        forall|discussion: DiscussionRecord, votes: Vec<Vote>| #[trigger]
            first.voided(answers.drop_last(), discussion, votes) ==> first.voided(
                answers,
                discussion,
                votes,
            ),
{
    let before = answers.drop_last();
    lemma_did(first, answers);
    lemma_answered(first, answers);
    lemma_found_stays(answers);
    assert forall|discussion: DiscussionRecord, old: Option<MessageId>| #[trigger]
        first.learned_old(before, discussion, old) implies first.learned_old(
        answers,
        discussion,
        old,
    ) by {
        let found = choose|found: Result<Option<MessageId>, DbError>|
            was_answered(
                first,
                before,
                asking_for_issue(discussion, first.author),
                #[trigger] finding(found),
            ) && (found == Ok::<Option<MessageId>, DbError>(old) || (old is None && found == Err::<
                Option<MessageId>,
                DbError,
            >(DbError::RowNotFound)));
        assert(was_answered(
            first,
            answers,
            asking_for_issue(discussion, first.author),
            finding(found),
        ));
    }
    assert forall|channel: ChannelId| #[trigger] first.is_here(before, channel) implies first.is_here(
        answers,
        channel,
    ) by {
        let here = choose|here: GuildChannel| #[trigger]
            was_answered(first, before, Action::CurrentChannel, Answer::Channel(Some(here)))
                && here.id == channel;
        assert(was_answered(first, answers, Action::CurrentChannel, Answer::Channel(Some(here))));
    }
    assert forall|discussion: DiscussionRecord, channel: ChannelId| #[trigger]
        first.replaced(before, discussion, channel) implies first.replaced(
        answers,
        discussion,
        channel,
    ) by {
        let old = choose|old: Option<MessageId>| #[trigger]
            first.learned_old(before, discussion, old) && (old is Some ==> first.dropped(
                before,
                channel,
                old->0,
            ));
        assert(first.learned_old(answers, discussion, old));
        assert(old is Some ==> first.dropped(answers, channel, old->0));
    }
}

proof fn lemma_raise_knows(first: Raise, answers: Seq<Answer>)
    requires
        first.stage is New,
    ensures
        first.knows(answers, after(first, answers).stage),
    decreases answers.len(),
{
    if answers.len() > 0 {
        let before = answers.drop_last();
        let now = after(first, before);
        let answer = answers.last();
        lemma_raise_knows(first, before);
        lemma_raise_holds(first, before);
        lemma_raised_where_found(first, before);
        lemma_raised_where_found(first, answers);
        lemma_raise_facts_stay(first, answers);
        lemma_did(first, answers);
        lemma_answered(first, answers);
        assert(did(first, answers, action_on(first, answers)));
        match (now.stage, answer) {
            (RaiseStage::OldIssue { discussion }, Answer::Message(found)) => {
                assert(was_answered(
                    first,
                    answers,
                    asking_for_issue(discussion, first.author),
                    finding(found),
                ));
                if let Ok(old) = found_result(found) {
                    assert(first.learned_old(answers, discussion, old));
                }
            },
            (RaiseStage::Channel { discussion, old }, Answer::Channel(Some(here))) => {
                assert(was_answered(
                    first,
                    answers,
                    Action::CurrentChannel,
                    Answer::Channel(Some(here)),
                ));
                assert(first.is_here(answers, here.id));
                if old is None {
                    assert(first.learned_old(answers, discussion, None));
                    assert(first.replaced(answers, discussion, here.id));
                }
            },
            (
                RaiseStage::FetchingOld { discussion, channel, earlier },
                Answer::Fetched(fetched),
            ) => {
                assert(first.learned_old(answers, discussion, Some(earlier)));
                assert(first.dropped(answers, channel, earlier));
                assert(first.replaced(answers, discussion, channel));
            },
            (RaiseStage::Clearing { discussion, channel }, Answer::Votes(Ok(votes))) => {
                assert(first.voided(answers, discussion, votes));
            },
            _ => {},
        }
    }
}

/// Whoever is told that their issue was raised has it raised, at whatever stage the run is: the
/// issue is in the database and its message is pinned, their earlier issue is let go, the votes of
/// the discussion were made void, and the message of each of them is let go too.
pub proof fn law_told_raised_is_raised(first: Raise, answers: Seq<Answer>)
    requires
        first.stage is New,
        answers.len() > 0,
        action_on(first, answers) matches Action::Reply(Text::Plain(words)) && words@
            == "Issue raised successfully."@,
    ensures
        first.raised(answers),
{
    reveal_strlit("Issue raised successfully.");
    reveal_strlit("You can't mark someone else's message as your raised issue.");
    reveal_strlit("You can't raise an issue outside of a review thread.");
    reveal_strlit("Your override can't also be an issue.");
    reveal_strlit("You've already marked this message as your raised issue.");
    reveal_strlit("Failed to pin message. Lacking permission?");
    assert("Issue raised successfully."@.len() == 26);
    assert("You can't mark someone else's message as your raised issue."@.len() == 59);
    assert("You can't raise an issue outside of a review thread."@.len() == 52);
    assert("Your override can't also be an issue."@.len() == 37);
    assert("You've already marked this message as your raised issue."@.len() == 56);
    assert("Failed to pin message. Lacking permission?"@.len() == 42);
    lemma_raise_knows(first, answers);
    lemma_raise_lets_go(first, answers);
    let stage = after(first, answers).stage;
    assert(stage is Raised);
    if let RaiseStage::Raised { discussion, channel, votes } = stage {
        assert(first.replaced(answers, discussion, channel));
        assert(first.voided(answers, discussion, votes));
        assert forall|k: int| 0 <= k < votes@.len() implies first.dropped(
            answers,
            channel,
            (#[trigger] votes@[k]).1,
        ) by {
            assert(first.let_go(answers, channel, votes@[k]));
        }
    }
}

/// The raising of an issue does not end in silence: when it finishes, the user was just told
/// something, or the command was not given in a channel of a guild.
pub proof fn law_raising_is_answered(first: Raise, answers: Seq<Answer>)
    requires
        first.stage is New,
        answers.len() > 0,
        action_on(first, answers) is Finish,
    ensures
        answers.len() > 1,
        ({
            let asked = action_on(first, answers.drop_last());
            ||| asked is Reply && answers.last() is Done
            ||| asked is CurrentChannel && answers.last() == Answer::Channel(None)
        }),
{
    lemma_raise_knows(first, answers.drop_last());
}

/// An issue is raised step by step, for every discussion, author and message: the earlier issue and
/// the own vote are asked for, the issue is recorded and pinned, the earlier one is unpinned, and
/// the votes are made void. What stands against it is told.
pub proof fn law_issue_is_raised_as_asked(
    run: Raise,
    row: DiscussionRow,
    old: Option<MessageId>,
    vote: Option<MessageId>,
    here: GuildChannel,
    fetched: FetchedMessage,
    votes: Vec<Vote>,
)
    requires
        run.stage is New,
        run.author == run.message.author,
        old != Some(run.message.id),
        vote != Some(run.message.id),
    ensures
        ({
            let user_id = column_of(run.author@);
            let missing = Answer::Message(Err(DbError::RowNotFound));
            let broken = Answer::Message(Err(DbError::Other));
            let (r1, a1) = run.next(Answer::Start);
            let (r2, a2) = r1.next(Answer::Discussion(Ok(row)));
            let (r3, a3) = r2.next(Answer::Message(Ok(old)));
            let (r4, a4) = r3.next(Answer::Message(Ok(vote)));
            let (r5, a5) = r4.next(Answer::Written(Ok(())));
            let (r6, a6) = r5.next(Answer::Done);
            let (r7, a7) = r6.next(Answer::Channel(Some(here)));
            let (r8, a8) = if old is Some {
                r7.next(Answer::Fetched(Some(fetched)))
            } else {
                (r7, a7)
            };
            let (r9, a9) = if old is Some {
                r8.next(Answer::Done)
            } else {
                (r8, a8)
            };
            let (r10, a10) = r9.next(Answer::Votes(Ok(votes)));
            &&& a1 == Action::Database(
                Statement::SelectDiscussionByThread { thread_id: column_of(run.message.channel@) },
            )
            &&& a2 == Action::Database(
                Statement::SelectIssueByAuthor { pr_id: row.pr_id, user_id },
            )
            &&& a3 == Action::Database(
                Statement::SelectOverrideByAuthor { pr_id: row.pr_id, user_id },
            )
            &&& a4 == Action::Database(
                Statement::UpsertIssue {
                    pr_id: row.pr_id,
                    user_id,
                    message_id: column_of(run.message.id@),
                },
            )
            &&& a5 == Action::Pin(run.message.channel, run.message.id)
            &&& a6 == Action::CurrentChannel
            &&& old is Some ==> a7 == Action::FetchMessage(here.id, old->0)
            &&& old is Some ==> a8 == Action::Unpin(here.id, old->0)
            &&& old is Some ==> r7.next(Answer::Fetched(None)).1 == a9
            &&& a9 == Action::Database(Statement::DeleteOverrides { pr_id: row.pr_id })
            &&& votes@.len() == 0 ==> closes_with(
                (r10, a10),
                Text::Plain("Issue raised successfully."),
            )
            &&& votes@.len() > 0 ==> a10 == Action::FetchMessage(here.id, votes@[0].1)
            // what stands against it
            &&& r6.next(Answer::Channel(None)).1 == Action::Finish
            &&& old is Some ==> r8.next(Answer::Failed).1 == Action::Abort(None)
            &&& votes@.len() > 0 ==> {
                let (r11, a11) = r10.next(Answer::Fetched(Some(fetched)));
                &&& a11 == Action::Unpin(here.id, votes@[0].1)
                &&& r11.next(Answer::Failed).1 == Action::Abort(None)
                &&& r11.next(Answer::Done) == r10.next(Answer::Fetched(None))
                &&& votes@.len() > 1 ==> r11.next(Answer::Done).1 == Action::FetchMessage(
                    here.id,
                    votes@[1].1,
                )
            }
            &&& forall|error: DbError|
                closes_with(
                    #[trigger] r1.next(Answer::Discussion(Err(error))),
                    Text::Plain("You can't raise an issue outside of a review thread."),
                )
            &&& r2.next(missing).1 == a3
            &&& closes_with_error(
                r2.next(broken),
                "Failed to check for previous issue: ",
                HandledError::InternalError,
            )
            &&& r3.next(missing).1 == a4
            &&& closes_with(
                r3.next(Answer::Message(Ok(Some(run.message.id)))),
                Text::Plain("Your override can't also be an issue."),
            )
            &&& closes_with(
                r2.next(Answer::Message(Ok(Some(run.message.id)))).0.next(
                    Answer::Message(Ok(vote)),
                ),
                Text::Plain("You've already marked this message as your raised issue."),
            )
            &&& closes_with_error(
                r3.next(broken),
                "Failed to check for override: ",
                HandledError::InternalError,
            )
            &&& forall|error: DbError|
                closes_with_error(
                    #[trigger] r4.next(Answer::Written(Err(error))),
                    "Failed to raise issue: ",
                    HandledError::InternalError,
                )
            &&& closes_with(
                r5.next(Answer::Failed),
                Text::Plain("Failed to pin message. Lacking permission?"),
            )
            &&& forall|error: DbError|
                closes_with_error(
                    #[trigger] r9.next(Answer::Votes(Err(error))),
                    "Failed to retrieve overrides: ",
                    HandledError::InternalError,
                )
        }),
{
    law_value_round_trip(row.pr_id);
    assert(votes@.len() == votes.len());
}

/// What the release of the votes comes to within a number of steps, when messages are found as they
/// are and can be unpinned.
pub open spec fn let_go_on(
    step: (Raise, Action),
    fetched: spec_fn(MessageId) -> Option<FetchedMessage>,
    steps: nat,
) -> (Raise, Action)
    decreases steps,
{
    match step.1 {
        Action::FetchMessage(_, message) => if steps == 0 {
            step
        } else {
            let_go_on(
                step.0.next(Answer::Fetched(fetched(message))),
                fetched,
                (steps - 1) as nat,
            )
        },
        Action::Unpin(_, _) => if steps == 0 {
            step
        } else {
            let_go_on(step.0.next(Answer::Done), fetched, (steps - 1) as nat)
        },
        _ => step,
    }
}

proof fn lemma_votes_let_go(
    run: Raise,
    discussion: DiscussionRecord,
    channel: ChannelId,
    votes: Vec<Vote>,
    at: int,
    fetched: spec_fn(MessageId) -> Option<FetchedMessage>,
    steps: nat,
)
    requires
        0 <= at <= votes@.len(),
        steps >= 2 * (votes@.len() - at),
    ensures
        closes_with(
            let_go_on(run.release(discussion, channel, votes, at), fetched, steps),
            Text::Plain("Issue raised successfully."),
        ),
    decreases votes@.len() - at,
{
    assert(votes@.len() == votes.len());
    if at < votes@.len() {
        let message = votes@[at].1;
        let step = run.release(discussion, channel, votes, at);
        let (asked, next) = step.0.next(Answer::Fetched(fetched(message)));
        if fetched(message) is Some {
            assert(let_go_on(step, fetched, steps) == let_go_on(
                (asked, next),
                fetched,
                (steps - 1) as nat,
            ));
            assert(let_go_on((asked, next), fetched, (steps - 1) as nat) == let_go_on(
                asked.next(Answer::Done),
                fetched,
                (steps - 2) as nat,
            ));
            assert(asked.next(Answer::Done) == run.release(discussion, channel, votes, at + 1));
            lemma_votes_let_go(
                run,
                discussion,
                channel,
                votes,
                at + 1,
                fetched,
                (steps - 2) as nat,
            );
        } else {
            assert((asked, next) == run.release(discussion, channel, votes, at + 1));
            lemma_votes_let_go(
                run,
                discussion,
                channel,
                votes,
                at + 1,
                fetched,
                (steps - 1) as nat,
            );
        }
    }
}

/// However many votes an issue makes void, and whichever of their messages are found, the raising goes
/// through all of them and then tells the user of its success.
pub proof fn law_raising_comes_to_its_end(
    run: Raise,
    row: DiscussionRow,
    vote: Option<MessageId>,
    here: GuildChannel,
    votes: Vec<Vote>,
    fetched: spec_fn(MessageId) -> Option<FetchedMessage>,
    steps: nat,
)
    requires
        run.stage is New,
        run.author == run.message.author,
        vote != Some(run.message.id),
        steps >= 2 * votes@.len(),
    ensures
        ({
            let voiding = run.next(Answer::Start).0.next(Answer::Discussion(Ok(row))).0.next(
                Answer::Message(Ok(None)),
            ).0.next(Answer::Message(Ok(vote))).0.next(Answer::Written(Ok(()))).0.next(
                Answer::Done,
            ).0.next(Answer::Channel(Some(here))).0;
            closes_with(
                let_go_on(voiding.next(Answer::Votes(Ok(votes))), fetched, steps),
                Text::Plain("Issue raised successfully."),
            )
        }),
{
    let discussion = record_of(row);
    let voiding = run.next(Answer::Start).0.next(Answer::Discussion(Ok(row))).0.next(
        Answer::Message(Ok(None)),
    ).0.next(Answer::Message(Ok(vote))).0.next(Answer::Written(Ok(()))).0.next(
        Answer::Done,
    ).0.next(Answer::Channel(Some(here))).0;
    lemma_votes_let_go(voiding, discussion, here.id, votes, 0, fetched, steps);
}

/// Nobody raises an issue with the message of someone else: they are told so, and nothing is done.
pub proof fn law_foreign_issue_is_refused(run: Raise)
    requires
        run.stage is New,
        run.author != run.message.author,
    ensures
        closes_with(
            run.next(Answer::Start),
            Text::Plain("You can't mark someone else's message as your raised issue."),
        ),
{
}

/// A vote to override the issues of a discussion.
#[derive(Debug)]
pub struct OverrideVote {
    /// Who votes.
    pub author: UserId,
    /// The message that states the vote.
    pub message: TargetMessage,
    pub stage: OverrideStage,
}

/// How far a vote has got.
#[derive(Debug)]
pub enum OverrideStage {
    New,
    Lookup,
    Channel { discussion: DiscussionRecord },
    OwnIssue { discussion: DiscussionRecord, channel: ChannelId },
    OldVote { discussion: DiscussionRecord, channel: ChannelId },
    Recording { channel: ChannelId, old: Option<MessageId> },
    /// Telling that the vote could not be recorded.
    NotRecorded { channel: ChannelId, old: Option<MessageId> },
    Pinning { channel: ChannelId, old: Option<MessageId> },
    FetchingOld { channel: ChannelId, earlier: MessageId },
    UnpinningOld,
    /// Telling that the message of the earlier vote could not be found.
    Unresolved,
    /// The last reply is under way.
    Closing,
    Over,
}

/// What a user is told whose earlier vote cannot be found.
pub const OLD_VOTE_UNRESOLVED: &'static str =
    "Failed to resolve old issue override message, assuming it was deleted. The new issue override has been successfully recorded and pinned, but no attempt to unpin the old issue will be made.";

/// What a user is told who votes with the same message again.
pub const ALREADY_VOTED: &'static str =
    "You've already marked this message as your override for <@{issue_author}>'s issue.";

impl OverrideVote {
    /// The run at another stage.
    pub open spec fn at(self, stage: OverrideStage) -> OverrideVote {
        OverrideVote { stage, ..self }
    }

    /// Ends with a reply.
    pub open spec fn close(self, text: Text) -> (OverrideVote, Action) {
        (self.at(OverrideStage::Closing), Action::Reply(text))
    }

    /// Asks for the earlier vote.
    pub open spec fn ask_old_vote(self, discussion: DiscussionRecord, channel: ChannelId) -> (
        OverrideVote,
        Action,
    ) {
        (
            self.at(OverrideStage::OldVote { discussion, channel }),
            Action::Database(discussion.get_override_by_author_query(self.message.author)),
        )
    }

    /// Pins the message.
    pub open spec fn pin(self, channel: ChannelId, old: Option<MessageId>) -> (
        OverrideVote,
        Action,
    ) {
        (
            self.at(OverrideStage::Pinning { channel, old }),
            Action::Pin(self.message.channel, self.message.id),
        )
    }

    /// Ends with the good news.
    pub open spec fn succeed(self) -> (OverrideVote, Action) {
        self.close(Text::Plain("Override vote added successfully."))
    }
}

impl Flow for OverrideVote {
    open spec fn next(self, answer: Answer) -> (Self, Action) {
        match (self.stage, answer) {
            (OverrideStage::New, Answer::Start) => if self.author != self.message.author {
                self.close(
                    Text::Plain(
                        "You can't mark someone else's message as your issue override vote.",
                    ),
                )
            } else {
                (
                    self.at(OverrideStage::Lookup),
                    Action::Database(
                        Statement::SelectDiscussionByThread {
                            thread_id: column_of(self.message.channel@),
                        },
                    ),
                )
            },
            (OverrideStage::Lookup, Answer::Discussion(row)) => match by_thread_result(row) {
                Some(discussion) => (
                    self.at(OverrideStage::Channel { discussion }),
                    Action::CurrentChannel,
                ),
                None => self.close(
                    Text::Plain("You can't override an issue outside of a review thread."),
                ),
            },
            (OverrideStage::Channel { discussion }, Answer::Channel(Some(channel))) => (
                self.at(OverrideStage::OwnIssue { discussion, channel: channel.id }),
                Action::Database(discussion.get_issue_by_author_query(self.message.author)),
            ),
            (OverrideStage::Channel { .. }, Answer::Channel(None)) => (
                self.at(OverrideStage::Over),
                Action::Finish,
            ),
            (OverrideStage::OwnIssue { discussion, channel }, Answer::Message(found)) => if found_result(
                found,
            ) == Ok::<Option<MessageId>, HandledError>(Some(self.message.id)) {
                self.close(Text::Plain("You can't mark your issue as one of its overrides."))
            } else {
                self.ask_old_vote(discussion, channel)
            },
            (OverrideStage::OldVote { discussion, channel }, Answer::Message(found)) => match found_result(
                found,
            ) {
                Ok(old) => if old == Some(self.message.id) {
                    self.close(Text::Plain(ALREADY_VOTED))
                } else {
                    (
                        self.at(OverrideStage::Recording { channel, old }),
                        Action::Database(
                            discussion.upsert_issue_override_query(
                                self.message.author,
                                self.message.id,
                            ),
                        ),
                    )
                },
                Err(error) => self.close(
                    Text::Error {
                        before: "Failed to check for previous override: ",
                        error,
                        after: "",
                    },
                ),
            },
            (OverrideStage::Recording { channel, old }, Answer::Written(written)) => match stored_result(
                written,
            ) {
                Ok(_) => self.pin(channel, old),
                Err(error) => (
                    self.at(OverrideStage::NotRecorded { channel, old }),
                    Action::Reply(
                        Text::Error { before: "Failed to add issue override: ", error, after: "" },
                    ),
                ),
            },
            (OverrideStage::NotRecorded { channel, old }, Answer::Done) => self.pin(channel, old),
            (OverrideStage::Pinning { channel, old }, Answer::Done) => match old {
                Some(message) => (
                    self.at(OverrideStage::FetchingOld { channel, earlier: message }),
                    Action::FetchMessage(channel, message),
                ),
                None => self.succeed(),
            },
            (OverrideStage::Pinning { .. }, _) => (self.at(OverrideStage::Over), Action::Finish),
            (OverrideStage::FetchingOld { channel, earlier }, Answer::Fetched(Some(_))) => (
                self.at(OverrideStage::UnpinningOld),
                Action::Unpin(channel, earlier),
            ),
            (OverrideStage::FetchingOld { .. }, Answer::Fetched(None)) => (
                self.at(OverrideStage::Unresolved),
                Action::Reply(Text::Plain(OLD_VOTE_UNRESOLVED)),
            ),
            (OverrideStage::UnpinningOld, Answer::Done) => self.succeed(),
            (OverrideStage::Unresolved, Answer::Done) => self.succeed(),
            (OverrideStage::Closing, Answer::Done) => (
                self.at(OverrideStage::Over),
                Action::Finish,
            ),
            _ => (self.at(OverrideStage::Over), Action::Abort(None)),
        }
    }
}

impl OverrideVote {
    fn with(self, stage: OverrideStage) -> (r: OverrideVote)
        ensures
            r == self.at(stage),
    {
        OverrideVote { author: self.author, message: self.message, stage }
    }

    fn closed(self, text: Text) -> (r: (OverrideVote, Action))
        ensures
            r == self.close(text),
    {
        (self.with(OverrideStage::Closing), Action::Reply(text))
    }

    fn pinned(self, channel: ChannelId, old: Option<MessageId>) -> (r: (OverrideVote, Action))
        ensures
            r == self.pin(channel, old),
    {
        let message = self.message;
        (
            self.with(OverrideStage::Pinning { channel, old }),
            Action::Pin(message.channel, message.id),
        )
    }

    fn succeeded(self) -> (r: (OverrideVote, Action))
        ensures
            r == self.succeed(),
    {
        self.closed(Text::Plain("Override vote added successfully."))
    }
}

impl Run for OverrideVote {
    fn step(self, answer: Answer) -> (r: (Self, Action)) {
        let author = self.author;
        let message = self.message;
        let run = OverrideVote { author, message, stage: OverrideStage::Over };
        match (self.stage, answer) {
            (OverrideStage::New, Answer::Start) => {
                if author != message.author {
                    return run.closed(
                        Text::Plain(
                            "You can't mark someone else's message as your issue override vote.",
                        ),
                    );
                }
                let statement = DiscussionRecord::get_by_thread_statement(message.channel);
                (run.with(OverrideStage::Lookup), Action::Database(statement))
            },
            (OverrideStage::Lookup, Answer::Discussion(row)) => {
                match DiscussionRecord::get_by_thread(row) {
                    Some(discussion) => (
                        run.with(OverrideStage::Channel { discussion }),
                        Action::CurrentChannel,
                    ),
                    None => run.closed(
                        Text::Plain("You can't override an issue outside of a review thread."),
                    ),
                }
            },
            (OverrideStage::Channel { discussion }, Answer::Channel(channel)) => match channel {
                Some(channel) => {
                    let statement = discussion.get_issue_by_author_statement(message.author);
                    (
                        run.with(OverrideStage::OwnIssue { discussion, channel: channel.id }),
                        Action::Database(statement),
                    )
                },
                None => (run, Action::Finish),
            },
            (OverrideStage::OwnIssue { discussion, channel }, Answer::Message(found)) => {
                match DiscussionRecord::get_issue_by_author(found) {
                    Ok(issue) => {
                        if is_message(issue, message.id) {
                            return run.closed(
                                Text::Plain("You can't mark your issue as one of its overrides."),
                            );
                        }
                    },
                    Err(_) => {},
                }
                let statement = discussion.get_override_by_author_statement(message.author);
                (
                    run.with(OverrideStage::OldVote { discussion, channel }),
                    Action::Database(statement),
                )
            },
            (OverrideStage::OldVote { discussion, channel }, Answer::Message(found)) => {
                match DiscussionRecord::get_override_by_author(found) {
                    Ok(old) => {
                        if is_message(old, message.id) {
                            return run.closed(Text::Plain(ALREADY_VOTED));
                        }
                        let statement = discussion.upsert_issue_override_statement(
                            message.author,
                            message.id,
                        );
                        (
                            run.with(OverrideStage::Recording { channel, old }),
                            Action::Database(statement),
                        )
                    },
                    Err(error) => run.closed(
                        Text::Error {
                            before: "Failed to check for previous override: ",
                            error,
                            after: "",
                        },
                    ),
                }
            },
            (OverrideStage::Recording { channel, old }, Answer::Written(written)) => {
                match DiscussionRecord::upsert_issue_override(written) {
                    Ok(_) => run.pinned(channel, old),
                    Err(error) => (
                        run.with(OverrideStage::NotRecorded { channel, old }),
                        Action::Reply(
                            Text::Error {
                                before: "Failed to add issue override: ",
                                error,
                                after: "",
                            },
                        ),
                    ),
                }
            },
            (OverrideStage::NotRecorded { channel, old }, Answer::Done) => run.pinned(channel, old),
            (OverrideStage::Pinning { channel, old }, answer) => match answer {
                Answer::Done => match old {
                    Some(earlier) => (
                        run.with(OverrideStage::FetchingOld { channel, earlier }),
                        Action::FetchMessage(channel, earlier),
                    ),
                    None => run.succeeded(),
                },
                _ => (run, Action::Finish),
            },
            (OverrideStage::FetchingOld { channel, earlier }, Answer::Fetched(fetched)) => {
                match fetched {
                    Some(_) => (
                        run.with(OverrideStage::UnpinningOld),
                        Action::Unpin(channel, earlier),
                    ),
                    None => (
                        run.with(OverrideStage::Unresolved),
                        Action::Reply(Text::Plain(OLD_VOTE_UNRESOLVED)),
                    ),
                }
            },
            (OverrideStage::UnpinningOld, Answer::Done) => run.succeeded(),
            (OverrideStage::Unresolved, Answer::Done) => run.succeeded(),
            (OverrideStage::Closing, Answer::Done) => (run, Action::Finish),
            _ => (run, Action::Abort(None)),
        }
    }
}

impl Body for OverrideVote {
    open spec fn needs() -> Permission {
        Permission::ContentReviewer
    }

    fn needed() -> (r: Permission) {
        Permission::ContentReviewer
    }
}

/// A step of the command that votes to override the issues of a discussion.
pub fn cr_issue_override_context(run: Command<OverrideVote>, answer: Answer) -> (r: (
    Command<OverrideVote>,
    Action,
))
    ensures
        r == run.next(answer),
{
    run.step(answer)
}

/// Whether a message was found not to be a given one, or could not be found out about.
pub open spec fn was_other(answers: Seq<Answer>, message: MessageId) -> bool {
    exists|i: int|
        0 <= i < answers.len() && (#[trigger] answers[i] matches Answer::Message(found)
            && found_result(found) != Ok::<Option<MessageId>, HandledError>(Some(message)))
}

proof fn lemma_vote_is_own(first: OverrideVote, answers: Seq<Answer>)
    requires
        first.stage is New,
    ensures
        ({
            let run = after(first, answers);
            &&& run.author == first.author
            &&& run.message == first.message
            &&& (run.stage is New || run.stage is Closing || run.stage is Over || first.author
                == first.message.author)
            &&& run.stage is OldVote ==> was_other(answers, first.message.id)
        }),
    decreases answers.len(),
{
    if answers.len() > 0 {
        lemma_vote_is_own(first, answers.drop_last());
        assert(answers[answers.len() - 1] == answers.last());
    }
}

/// Nobody votes with the message of their own issue: before a vote is put into the database, the
/// author's issue was asked for, and its message was not found to be that of the vote.
pub proof fn law_votes_are_no_issues(first: OverrideVote, answers: Seq<Answer>)
    requires
        first.stage is New,
        answers.len() > 0,
        action_on(first, answers) matches Action::Database(statement) && statement
            is UpsertOverride,
    ensures
        was_other(answers.drop_last(), first.message.id),
{
    lemma_vote_is_own(first, answers.drop_last());
}

/// Nobody votes with the message of someone else, or twice with the same message: what is put into
/// the database is the author and the message of the command, the message is the author's, and it
/// was just found not to be their vote already.
pub proof fn law_votes_are_own(first: OverrideVote, answers: Seq<Answer>)
    requires
        first.stage is New,
        answers.len() > 0,
    ensures
        match action_on(first, answers) {
            Action::Database(Statement::UpsertOverride { user_id, message_id, .. }) => {
                &&& first.author == first.message.author
                &&& user_id == column_of(first.author@)
                &&& message_id == column_of(first.message.id@)
                &&& answers.last() matches Answer::Message(found) && found_result(found) is Ok
                    && found_result(found)->Ok_0 != Some(first.message.id)
            },
            _ => true,
        },
{
    lemma_vote_is_own(first, answers.drop_last());
}

/// A vote is cast step by step, for every discussion, author and message: the own issue and the
/// earlier vote are asked for, the vote is recorded and pinned, and the earlier one is unpinned.
/// What stands against it is told.
pub proof fn law_vote_is_cast_as_asked(
    run: OverrideVote,
    row: DiscussionRow,
    here: GuildChannel,
    issue: Option<MessageId>,
    old: Option<MessageId>,
    fetched: FetchedMessage,
)
    requires
        run.stage is New,
        run.author == run.message.author,
        issue != Some(run.message.id),
        old != Some(run.message.id),
    ensures
        ({
            let user_id = column_of(run.author@);
            let done = Text::Plain("Override vote added successfully.");
            let broken = Answer::Message(Err(DbError::Other));
            let (r1, a1) = run.next(Answer::Start);
            let (r2, a2) = r1.next(Answer::Discussion(Ok(row)));
            let (r3, a3) = r2.next(Answer::Channel(Some(here)));
            let (r4, a4) = r3.next(Answer::Message(Ok(issue)));
            let (r5, a5) = r4.next(Answer::Message(Ok(old)));
            let (r6, a6) = r5.next(Answer::Written(Ok(())));
            let (r7, a7) = r6.next(Answer::Done);
            let (r8, a8) = r7.next(Answer::Fetched(Some(fetched)));
            &&& a1 == Action::Database(
                Statement::SelectDiscussionByThread { thread_id: column_of(run.message.channel@) },
            )
            &&& a2 == Action::CurrentChannel
            &&& a3 == Action::Database(
                Statement::SelectIssueByAuthor { pr_id: row.pr_id, user_id },
            )
            &&& a4 == Action::Database(
                Statement::SelectOverrideByAuthor { pr_id: row.pr_id, user_id },
            )
            &&& a5 == Action::Database(
                Statement::UpsertOverride {
                    pr_id: row.pr_id,
                    user_id,
                    message_id: column_of(run.message.id@),
                },
            )
            &&& a6 == Action::Pin(run.message.channel, run.message.id)
            &&& old is None ==> closes_with((r7, a7), done)
            &&& old is Some ==> a7 == Action::FetchMessage(here.id, old->0)
            &&& old is Some ==> a8 == Action::Unpin(here.id, old->0)
            &&& old is Some ==> closes_with(r8.next(Answer::Done), done)
            &&& old is Some ==> r8.next(Answer::Failed).1 == Action::Abort(None)
            &&& old is Some ==> {
                let (told, telling) = r7.next(Answer::Fetched(None));
                &&& telling matches Action::Reply(Text::Plain(words)) && words@
                    == "Failed to resolve old issue override message, assuming it was deleted. The new issue override has been successfully recorded and pinned, but no attempt to unpin the old issue will be made."@
                &&& closes_with(told.next(Answer::Done), done)
            }
            // what stands against it
            &&& forall|error: DbError|
                closes_with(
                    #[trigger] r1.next(Answer::Discussion(Err(error))),
                    Text::Plain("You can't override an issue outside of a review thread."),
                )
            &&& r2.next(Answer::Channel(None)).1 == Action::Finish
            &&& closes_with(
                r3.next(Answer::Message(Ok(Some(run.message.id)))),
                Text::Plain("You can't mark your issue as one of its overrides."),
            )
            &&& forall|error: DbError|
                (#[trigger] r3.next(Answer::Message(Err(error)))).1 == a4
            &&& r4.next(Answer::Message(Err(DbError::RowNotFound))).1 == a5
            &&& closes_with_error(
                r4.next(broken),
                "Failed to check for previous override: ",
                HandledError::InternalError,
            )
            &&& {
                let (told, telling) = r4.next(Answer::Message(Ok(Some(run.message.id))));
                &&& telling matches Action::Reply(Text::Plain(words)) && words@
                    == "You've already marked this message as your override for <@{issue_author}>'s issue."@
                &&& told.next(Answer::Done).1 == Action::Finish
            }
            &&& forall|error: DbError|
                {
                    let (told, telling) = #[trigger] r5.next(Answer::Written(Err(error)));
                    &&& telling == Action::Reply(
                        Text::Error {
                            before: "Failed to add issue override: ",
                            error: HandledError::InternalError,
                            after: "",
                        },
                    )
                    &&& told.next(Answer::Done).1 == a6
                }
            &&& r6.next(Answer::Failed).1 == Action::Finish
        }),
{
    law_value_round_trip(row.pr_id);
}

/// Nobody votes with the message of someone else: they are told so, and nothing is done.
pub proof fn law_foreign_vote_is_refused(run: OverrideVote)
    requires
        run.stage is New,
        run.author != run.message.author,
    ensures
        closes_with(
            run.next(Answer::Start),
            Text::Plain("You can't mark someone else's message as your issue override vote."),
        ),
{
}

impl OverrideVote {
    /// Whether a vote was put into the database, and its message was pinned.
    pub open spec fn was_cast(self, answers: Seq<Answer>) -> bool {
        &&& exists|pr_id: i64| did(self, answers, #[trigger] self.casting(pr_id))
        &&& did(self, answers, Action::Pin(self.message.channel, self.message.id))
    }

    /// The vote of the user is put into the database.
    pub open spec fn casting(self, pr_id: i64) -> Action {
        Action::Database(
            Statement::UpsertOverride {
                pr_id,
                user_id: column_of(self.author@),
                message_id: column_of(self.message.id@),
            },
        )
    }

    /// What is known at a stage of a run that began as this one.
    pub open spec fn knows(self, answers: Seq<Answer>, stage: OverrideStage) -> bool {
        match stage {
            OverrideStage::Recording { .. } => exists|pr_id: i64|
                did(self, answers, #[trigger] self.casting(pr_id)),
            OverrideStage::NotRecorded { .. } => exists|pr_id: i64|
                did(self, answers, #[trigger] self.casting(pr_id)),
            OverrideStage::Pinning { .. } => {
                &&& answers.len() > 0
                &&& action_on(self, answers) is Pin
                &&& self.was_cast(answers)
            },
            OverrideStage::FetchingOld { .. } => self.was_cast(answers),
            OverrideStage::UnpinningOld => self.was_cast(answers),
            OverrideStage::Unresolved => self.was_cast(answers),
            OverrideStage::Channel { .. } => answers.len() > 0 && action_on(self, answers)
                == Action::CurrentChannel,
            OverrideStage::Closing => answers.len() > 0 && action_on(self, answers) is Reply,
            _ => true,
        }
    }
}

proof fn lemma_vote_knows(first: OverrideVote, answers: Seq<Answer>)
    requires
        first.stage is New,
    ensures
        first.knows(answers, after(first, answers).stage),
    decreases answers.len(),
{
    if answers.len() > 0 {
        let before = answers.drop_last();
        let now = after(first, before);
        lemma_vote_knows(first, before);
        lemma_vote_is_own(first, before);
        lemma_did(first, answers);
        let action = action_on(first, answers);
        assert(did(first, answers, action));
        if exists|pr_id: i64| did(first, before, #[trigger] first.casting(pr_id)) {
            let pr_id = choose|pr_id: i64| did(first, before, #[trigger] first.casting(pr_id));
            assert(did(first, answers, first.casting(pr_id)));
        }
        if let Action::Database(Statement::UpsertOverride { pr_id, .. }) = action {
            assert(action == first.casting(pr_id));
        }
    }
}

/// Whoever is told that their vote was added has it put into the database, and its message pinned.
pub proof fn law_told_voted_is_cast(first: OverrideVote, answers: Seq<Answer>)
    requires
        first.stage is New,
        answers.len() > 0,
        action_on(first, answers) matches Action::Reply(Text::Plain(words)) && words@
            == "Override vote added successfully."@,
    ensures
        first.was_cast(answers),
{
    reveal_strlit("Override vote added successfully.");
    reveal_strlit("You can't mark someone else's message as your issue override vote.");
    reveal_strlit("You can't override an issue outside of a review thread.");
    reveal_strlit("You can't mark your issue as one of its overrides.");
    reveal_strlit(
        "You've already marked this message as your override for <@{issue_author}>'s issue.",
    );
    reveal_strlit(
        "Failed to resolve old issue override message, assuming it was deleted. The new issue override has been successfully recorded and pinned, but no attempt to unpin the old issue will be made.",
    );
    assert("Override vote added successfully."@[0] == 'O');
    assert("You can't mark someone else's message as your issue override vote."@[0] == 'Y');
    assert("You can't override an issue outside of a review thread."@[0] == 'Y');
    assert("You can't mark your issue as one of its overrides."@[0] == 'Y');
    assert(ALREADY_VOTED@[0] == 'Y');
    assert(OLD_VOTE_UNRESOLVED@[0] == 'F');
    let before = answers.drop_last();
    lemma_vote_knows(first, before);
    lemma_did(first, answers);
    if exists|pr_id: i64| did(first, before, #[trigger] first.casting(pr_id)) {
        let pr_id = choose|pr_id: i64| did(first, before, #[trigger] first.casting(pr_id));
        assert(did(first, answers, first.casting(pr_id)));
    }
}

/// The casting of a vote does not end in silence: when it finishes, the user was just told
/// something, or the message could not be pinned, or the command was not given in a channel of a
/// guild.
pub proof fn law_voting_is_answered(first: OverrideVote, answers: Seq<Answer>)
    requires
        first.stage is New,
        answers.len() > 0,
        action_on(first, answers) is Finish,
    ensures
        answers.len() > 1,
        ({
            let asked = action_on(first, answers.drop_last());
            ||| asked is Reply && answers.last() is Done
            ||| asked is Pin && !(answers.last() is Done)
            ||| asked is CurrentChannel && answers.last() == Answer::Channel(None)
        }),
{
    lemma_vote_knows(first, answers.drop_last());
}

/// These commands take the permission of the content review.
pub proof fn law_issues_and_votes_take_a_permission(
    author: UserId,
    raise: Raise,
    vote: OverrideVote,
)
    ensures
        ({
            let asked = Action::HasFlags(author@, Permission::ContentReviewer);
            &&& (Command::New { author, body: raise }).next(Answer::Start).1 == asked
            &&& (Command::New { author, body: vote }).next(Answer::Start).1 == asked
        }),
{
}

} // verus!
