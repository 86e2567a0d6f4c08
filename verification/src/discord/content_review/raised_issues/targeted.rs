//! Votes against the issue of one author.
//!
//! Here a vote names the author of the issue that it is against, and raising an issue leaves the
//! votes as they are.

use vstd::prelude::*;

use crate::discord::action::{
    action_on, after, closes_with, closes_with_error, lemma_answered, was_answered, Action, Answer,
    FetchedMessage, Flow, GuildChannel, Run, Selection, TargetMessage,
};
use crate::discord::content_review::data::discussions::{
    by_thread_result, found_result, stored_result, votes_result, DiscussionRecord,
};
use crate::discord::content_review::raised_issues::own::NO_ISSUES_HERE;
use crate::discord::content_review::raised_issues::votes::{
    is_message, ALREADY_VOTED, OLD_VOTE_UNRESOLVED,
};
use crate::discord::error::{DbError, HandledError};
use crate::discord::ids::{
    column_of, law_value_round_trip, value_of, ChannelId, GuildId, MessageId, UserId,
};
use crate::discord::permissions::check::{Body, Command};
use crate::discord::permissions::data::Permission;
use crate::discord::store::{DiscussionRow, Statement, Vote};
use crate::discord::texts::Text;

verus! {

/// What is relied upon in a review thread.
pub const IN_A_GUILD: &'static str = "We already know this is a guild channel";

/// What a user is told whose earlier issue cannot be found.
pub const OLD_ISSUE_UNRESOLVED: &'static str =
    "Failed to resolve old issue message, assuming it was deleted. The new issue has been successfully recorded and pinned, but no attempt to unpin the old issue will be made.";

/// The question that goes with the menu of users.
pub const WHOSE_ISSUE: &'static str = "Whose issue would you like to override?";

/// The raising of an issue.
#[derive(Debug)]
pub struct RaiseAlone {
    /// Who raises it.
    pub author: UserId,
    /// The message that states it.
    pub message: TargetMessage,
    pub stage: RaiseAloneStage,
}

/// How far the raising of an issue has got.
#[derive(Debug)]
pub enum RaiseAloneStage {
    New,
    Lookup,
    OldIssue { discussion: DiscussionRecord },
    Recording { old: Option<MessageId> },
    Pinning { old: Option<MessageId> },
    Channel { earlier: MessageId },
    FetchingOld { channel: ChannelId, earlier: MessageId },
    UnpinningOld,
    /// Telling that the message of the earlier issue could not be found.
    Unresolved,
    /// The last reply is under way.
    Closing,
    Over,
}

impl RaiseAlone {
    /// The run at another stage.
    pub open spec fn at(self, stage: RaiseAloneStage) -> RaiseAlone {
        RaiseAlone { stage, ..self }
    }

    /// Ends with a reply.
    pub open spec fn close(self, text: Text) -> (RaiseAlone, Action) {
        (self.at(RaiseAloneStage::Closing), Action::Reply(text))
    }

    /// Ends with the good news.
    pub open spec fn succeed(self) -> (RaiseAlone, Action) {
        self.close(Text::Plain("Issue raised successfully."))
    }

    fn with(self, stage: RaiseAloneStage) -> (r: RaiseAlone)
        ensures
            r == self.at(stage),
    {
        RaiseAlone { author: self.author, message: self.message, stage }
    }

    fn closed(self, text: Text) -> (r: (RaiseAlone, Action))
        ensures
            r == self.close(text),
    {
        (self.with(RaiseAloneStage::Closing), Action::Reply(text))
    }

    fn succeeded(self) -> (r: (RaiseAlone, Action))
        ensures
            r == self.succeed(),
    {
        self.closed(Text::Plain("Issue raised successfully."))
    }
}

impl Flow for RaiseAlone {
    open spec fn next(self, answer: Answer) -> (Self, Action) {
        match (self.stage, answer) {
            (RaiseAloneStage::New, Answer::Start) => if self.author != self.message.author {
                self.close(
                    Text::Plain("You can't mark someone else's message as your raised issue."),
                )
            } else {
                (
                    self.at(RaiseAloneStage::Lookup),
                    Action::Database(
                        Statement::SelectDiscussionByThread {
                            thread_id: column_of(self.message.channel@),
                        },
                    ),
                )
            },
            (RaiseAloneStage::Lookup, Answer::Discussion(row)) => match by_thread_result(row) {
                Some(discussion) => (
                    self.at(RaiseAloneStage::OldIssue { discussion }),
                    Action::Database(discussion.get_issue_by_author_query(self.author)),
                ),
                None => self.close(
                    Text::Plain("You can't raise an issue outside of a review thread."),
                ),
            },
            (RaiseAloneStage::OldIssue { discussion }, Answer::Message(found)) => match found_result(
                found,
            ) {
                Ok(old) => if old == Some(self.message.id) {
                    self.close(
                        Text::Plain("You've already marked this message as your raised issue."),
                    )
                } else {
                    (
                        self.at(RaiseAloneStage::Recording { old }),
                        Action::Database(
                            discussion.upsert_issue_query(self.author, self.message.id),
                        ),
                    )
                },
                Err(error) => self.close(
                    Text::Error { before: "Failed to check for previous issue: ", error, after: "" },
                ),
            },
            (RaiseAloneStage::Recording { old }, Answer::Written(written)) => match stored_result(
                written,
            ) {
                Ok(_) => (
                    self.at(RaiseAloneStage::Pinning { old }),
                    Action::Pin(self.message.channel, self.message.id),
                ),
                Err(error) => self.close(
                    Text::Error { before: "Failed to raise issue: ", error, after: "" },
                ),
            },
            (RaiseAloneStage::Pinning { old }, Answer::Done) => match old {
                Some(earlier) => (
                    self.at(RaiseAloneStage::Channel { earlier }),
                    Action::CurrentChannel,
                ),
                None => self.succeed(),
            },
            (RaiseAloneStage::Pinning { .. }, _) => (self.at(RaiseAloneStage::Over), Action::Finish),
            (RaiseAloneStage::Channel { earlier }, Answer::Channel(Some(channel))) => (
                self.at(RaiseAloneStage::FetchingOld { channel: channel.id, earlier }),
                Action::FetchMessage(channel.id, earlier),
            ),
            (RaiseAloneStage::Channel { .. }, Answer::Channel(None)) => (
                self.at(RaiseAloneStage::Over),
                Action::Fault(IN_A_GUILD),
            ),
            (RaiseAloneStage::FetchingOld { channel, earlier }, Answer::Fetched(Some(_))) => (
                self.at(RaiseAloneStage::UnpinningOld),
                Action::Unpin(channel, earlier),
            ),
            (RaiseAloneStage::FetchingOld { .. }, Answer::Fetched(None)) => (
                self.at(RaiseAloneStage::Unresolved),
                Action::Reply(Text::Plain(OLD_ISSUE_UNRESOLVED)),
            ),
            (RaiseAloneStage::UnpinningOld, Answer::Done) => self.succeed(),
            (RaiseAloneStage::Unresolved, Answer::Done) => self.succeed(),
            (RaiseAloneStage::Closing, Answer::Done) => (
                self.at(RaiseAloneStage::Over),
                Action::Finish,
            ),
            _ => (self.at(RaiseAloneStage::Over), Action::Abort(None)),
        }
    }
}

impl Run for RaiseAlone {
    fn step(self, answer: Answer) -> (r: (Self, Action)) {
        let author = self.author;
        let message = self.message;
        let run = RaiseAlone { author, message, stage: RaiseAloneStage::Over };
        match (self.stage, answer) {
            (RaiseAloneStage::New, Answer::Start) => {
                if author != message.author {
                    return run.closed(
                        Text::Plain("You can't mark someone else's message as your raised issue."),
                    );
                }
                let statement = DiscussionRecord::get_by_thread_statement(message.channel);
                (run.with(RaiseAloneStage::Lookup), Action::Database(statement))
            },
            (RaiseAloneStage::Lookup, Answer::Discussion(row)) => {
                match DiscussionRecord::get_by_thread(row) {
                    Some(discussion) => {
                        let statement = discussion.get_issue_by_author_statement(author);
                        (
                            run.with(RaiseAloneStage::OldIssue { discussion }),
                            Action::Database(statement),
                        )
                    },
                    None => run.closed(
                        Text::Plain("You can't raise an issue outside of a review thread."),
                    ),
                }
            },
            (RaiseAloneStage::OldIssue { discussion }, Answer::Message(found)) => {
                match DiscussionRecord::get_issue_by_author(found) {
                    Ok(old) => {
                        if is_message(old, message.id) {
                            return run.closed(
                                Text::Plain(
                                    "You've already marked this message as your raised issue.",
                                ),
                            );
                        }
                        let statement = discussion.upsert_issue_statement(author, message.id);
                        (
                            run.with(RaiseAloneStage::Recording { old }),
                            Action::Database(statement),
                        )
                    },
                    Err(error) => run.closed(
                        Text::Error {
                            before: "Failed to check for previous issue: ",
                            error,
                            after: "",
                        },
                    ),
                }
            },
            (RaiseAloneStage::Recording { old }, Answer::Written(written)) => {
                match DiscussionRecord::upsert_issue(written) {
                    Ok(_) => (
                        run.with(RaiseAloneStage::Pinning { old }),
                        Action::Pin(message.channel, message.id),
                    ),
                    Err(error) => run.closed(
                        Text::Error { before: "Failed to raise issue: ", error, after: "" },
                    ),
                }
            },
            (RaiseAloneStage::Pinning { old }, answer) => match answer {
                Answer::Done => match old {
                    Some(earlier) => (
                        run.with(RaiseAloneStage::Channel { earlier }),
                        Action::CurrentChannel,
                    ),
                    None => run.succeeded(),
                },
                _ => (run, Action::Finish),
            },
            (RaiseAloneStage::Channel { earlier }, Answer::Channel(channel)) => match channel {
                Some(channel) => (
                    run.with(RaiseAloneStage::FetchingOld { channel: channel.id, earlier }),
                    Action::FetchMessage(channel.id, earlier),
                ),
                None => (run, Action::Fault(IN_A_GUILD)),
            },
            (RaiseAloneStage::FetchingOld { channel, earlier }, Answer::Fetched(fetched)) => {
                match fetched {
                    Some(_) => (
                        run.with(RaiseAloneStage::UnpinningOld),
                        Action::Unpin(channel, earlier),
                    ),
                    None => (
                        run.with(RaiseAloneStage::Unresolved),
                        Action::Reply(Text::Plain(OLD_ISSUE_UNRESOLVED)),
                    ),
                }
            },
            (RaiseAloneStage::UnpinningOld, Answer::Done) => run.succeeded(),
            (RaiseAloneStage::Unresolved, Answer::Done) => run.succeeded(),
            (RaiseAloneStage::Closing, Answer::Done) => (run, Action::Finish),
            _ => (run, Action::Abort(None)),
        }
    }
}

impl Body for RaiseAlone {
    open spec fn needs() -> Permission {
        Permission::ContentReviewer
    }

    fn needed() -> (r: Permission) {
        Permission::ContentReviewer
    }
}

/// A step of the command that raises an issue, and leaves the votes as they are.
pub fn cr_issue_raise(run: Command<RaiseAlone>, answer: Answer) -> (r: (Command<RaiseAlone>, Action))
    ensures
        r == run.next(answer),
{
    run.step(answer)
}

/// A vote to override the issue of an author.
#[derive(Debug)]
pub struct VoteAgainst {
    /// Who votes.
    pub author: UserId,
    /// The message that states the vote.
    pub message: TargetMessage,
    pub stage: VoteStage,
}

/// How far a vote has got.
#[derive(Debug)]
pub enum VoteStage {
    New,
    Lookup,
    Channel { discussion: DiscussionRecord },
    /// Fetching the whole message, which tells what it replies to.
    Whole { discussion: DiscussionRecord, channel: ChannelId },
    /// Whether the message replies to an issue is being found out.
    RepliedIssue {
        discussion: DiscussionRecord,
        channel: ChannelId,
        replied_to: MessageId,
        replied_author: UserId,
    },
    ShowingMenu { discussion: DiscussionRecord, channel: ChannelId },
    Selecting { discussion: DiscussionRecord, channel: ChannelId },
    DeletingMenu { discussion: DiscussionRecord, channel: ChannelId, users: Vec<UserId> },
    Issue { discussion: DiscussionRecord, channel: ChannelId, issue_author: UserId },
    OldVote { discussion: DiscussionRecord, channel: ChannelId, issue_author: UserId },
    Recording { channel: ChannelId, old: Option<MessageId> },
    /// Telling that the vote could not be recorded.
    NotRecorded { channel: ChannelId, old: Option<MessageId> },
    Pinning { channel: ChannelId, old: Option<MessageId> },
    FetchingOld { channel: ChannelId, earlier: MessageId },
    UnpinningOld,
    /// Telling that the message of the earlier vote could not be found.
    Unresolved,
    /// The last reply is under way.
    Closing,
    Over,
}

impl VoteAgainst {
    /// The run at another stage.
    pub open spec fn at(self, stage: VoteStage) -> VoteAgainst {
        VoteAgainst { stage, ..self }
    }

    /// Ends with a reply.
    pub open spec fn close(self, text: Text) -> (VoteAgainst, Action) {
        (self.at(VoteStage::Closing), Action::Reply(text))
    }

    /// Asks whose issue the vote is against.
    pub open spec fn ask(self, discussion: DiscussionRecord, channel: ChannelId) -> (
        VoteAgainst,
        Action,
    ) {
        (
            self.at(VoteStage::ShowingMenu { discussion, channel }),
            Action::ShowUserMenu(discussion.pr_id),
        )
    }

    /// Goes on once it is known whose issue the vote is against.
    pub open spec fn against(
        self,
        discussion: DiscussionRecord,
        channel: ChannelId,
        issue_author: UserId,
    ) -> (VoteAgainst, Action) {
        (
            self.at(VoteStage::Issue { discussion, channel, issue_author }),
            Action::Database(discussion.get_issue_by_author_query(issue_author)),
        )
    }

    /// Asks for the earlier vote.
    pub open spec fn ask_old_vote(
        self,
        discussion: DiscussionRecord,
        channel: ChannelId,
        issue_author: UserId,
    ) -> (VoteAgainst, Action) {
        (
            self.at(VoteStage::OldVote { discussion, channel, issue_author }),
            Action::Database(discussion.get_issue_override_query(issue_author, self.author)),
        )
    }

    /// Pins the message.
    pub open spec fn pin(self, channel: ChannelId, old: Option<MessageId>) -> (VoteAgainst, Action) {
        (
            self.at(VoteStage::Pinning { channel, old }),
            Action::Pin(self.message.channel, self.message.id),
        )
    }

    /// Ends with the good news.
    pub open spec fn succeed(self) -> (VoteAgainst, Action) {
        self.close(Text::Plain("Override vote added successfully."))
    }
}

impl Flow for VoteAgainst {
    open spec fn next(self, answer: Answer) -> (Self, Action) {
        match (self.stage, answer) {
            (VoteStage::New, Answer::Start) => if self.author != self.message.author {
                self.close(
                    Text::Plain(
                        "You can't mark someone else's message as your issue override vote.",
                    ),
                )
            } else {
                (
                    self.at(VoteStage::Lookup),
                    Action::Database(
                        Statement::SelectDiscussionByThread {
                            thread_id: column_of(self.message.channel@),
                        },
                    ),
                )
            },
            (VoteStage::Lookup, Answer::Discussion(row)) => match by_thread_result(row) {
                Some(discussion) => (
                    self.at(VoteStage::Channel { discussion }),
                    Action::CurrentChannel,
                ),
                None => self.close(
                    Text::Plain("You can't override an issue outside of a review thread."),
                ),
            },
            (VoteStage::Channel { discussion }, Answer::Channel(Some(channel))) => (
                self.at(VoteStage::Whole { discussion, channel: channel.id }),
                Action::FetchMessage(channel.id, self.message.id),
            ),
            (VoteStage::Channel { .. }, Answer::Channel(None)) => (
                self.at(VoteStage::Over),
                Action::Fault(IN_A_GUILD),
            ),
            (
                VoteStage::Whole { discussion, channel },
                Answer::Fetched(Some(whole)),
            ) => match whole.replied_to {
                Some((replied_to, replied_author)) => (
                    self.at(
                        VoteStage::RepliedIssue { discussion, channel, replied_to, replied_author },
                    ),
                    Action::Database(discussion.get_issue_by_author_query(replied_author)),
                ),
                None => self.ask(discussion, channel),
            },
            (
                VoteStage::RepliedIssue { discussion, channel, replied_to, replied_author },
                Answer::Message(found),
            ) => match found_result(found) {
                Ok(issue) => if issue == Some(replied_to) {
                    self.against(discussion, channel, replied_author)
                } else {
                    self.ask(discussion, channel)
                },
                Err(error) => self.close(
                    Text::Error {
                        before: "Failed to check issue for author of message that was replied to: ",
                        error,
                        after: "",
                    },
                ),
            },
            (VoteStage::ShowingMenu { discussion, channel }, Answer::Done) => (
                self.at(VoteStage::Selecting { discussion, channel }),
                Action::AwaitSelection,
            ),
            (
                VoteStage::Selecting { discussion, channel },
                Answer::Selected(selection),
            ) => match selection {
                Selection::TimedOut => self.close(
                    Text::Plain("Interaction aborted due to inactivity."),
                ),
                Selection::Invalid => self.close(Text::Plain("Invalid interaction received.")),
                Selection::Chosen(users) => (
                    self.at(VoteStage::DeletingMenu { discussion, channel, users }),
                    Action::DeleteUserMenu,
                ),
            },
            (VoteStage::DeletingMenu { discussion, channel, users }, _) => if users@.len() != 1 {
                self.close(Text::Plain("You must select exactly 1 user."))
            } else {
                self.against(discussion, channel, users@[0])
            },
            (
                VoteStage::Issue { discussion, channel, issue_author },
                Answer::Message(found),
            ) => if found_result(found) == Ok::<Option<MessageId>, HandledError>(
                Some(self.message.id),
            ) {
                self.close(Text::Plain("You can't mark your issue as one of its overrides."))
            } else {
                self.ask_old_vote(discussion, channel, issue_author)
            },
            (
                VoteStage::OldVote { discussion, channel, issue_author },
                Answer::Message(found),
            ) => match found_result(found) {
                Ok(old) => if old == Some(self.message.id) {
                    self.close(Text::Plain(ALREADY_VOTED))
                } else {
                    (
                        self.at(VoteStage::Recording { channel, old }),
                        Action::Database(
                            discussion.upsert_override_of_query(
                                issue_author,
                                self.message.author,
                                self.message.id,
                            ),
                        ),
                    )
                },
                Err(error) => self.close(
                    Text::Error {
                        before: "Failed to check for previous override: ",
                        error,
                        after: "",
                    },
                ),
            },
            (VoteStage::Recording { channel, old }, Answer::Written(written)) => match stored_result(
                written,
            ) {
                Ok(_) => self.pin(channel, old),
                Err(error) => (
                    self.at(VoteStage::NotRecorded { channel, old }),
                    Action::Reply(
                        Text::Error { before: "Failed to add issue override: ", error, after: "" },
                    ),
                ),
            },
            (VoteStage::NotRecorded { channel, old }, Answer::Done) => self.pin(channel, old),
            (VoteStage::Pinning { channel, old }, Answer::Done) => match old {
                Some(earlier) => (
                    self.at(VoteStage::FetchingOld { channel, earlier }),
                    Action::FetchMessage(channel, earlier),
                ),
                None => self.succeed(),
            },
            (VoteStage::Pinning { .. }, _) => (self.at(VoteStage::Over), Action::Finish),
            (VoteStage::FetchingOld { channel, earlier }, Answer::Fetched(Some(_))) => (
                self.at(VoteStage::UnpinningOld),
                Action::Unpin(channel, earlier),
            ),
            (VoteStage::FetchingOld { .. }, Answer::Fetched(None)) => (
                self.at(VoteStage::Unresolved),
                Action::Reply(Text::Plain(OLD_VOTE_UNRESOLVED)),
            ),
            (VoteStage::UnpinningOld, Answer::Done) => self.succeed(),
            (VoteStage::Unresolved, Answer::Done) => self.succeed(),
            (VoteStage::Closing, Answer::Done) => (self.at(VoteStage::Over), Action::Finish),
            _ => (self.at(VoteStage::Over), Action::Abort(None)),
        }
    }
}

impl VoteAgainst {
    fn with(self, stage: VoteStage) -> (r: VoteAgainst)
        ensures
            r == self.at(stage),
    {
        VoteAgainst { author: self.author, message: self.message, stage }
    }

    fn closed(self, text: Text) -> (r: (VoteAgainst, Action))
        ensures
            r == self.close(text),
    {
        (self.with(VoteStage::Closing), Action::Reply(text))
    }

    fn asked(self, discussion: DiscussionRecord, channel: ChannelId) -> (r: (VoteAgainst, Action))
        ensures
            r == self.ask(discussion, channel),
    {
        let pr_id: u64 = discussion.pr_id;
        (
            self.with(VoteStage::ShowingMenu { discussion, channel }),
            Action::ShowUserMenu(pr_id),
        )
    }

    fn voted_against(self, discussion: DiscussionRecord, channel: ChannelId, issue_author: UserId) -> (r: (
        VoteAgainst,
        Action,
    ))
        ensures
            r == self.against(discussion, channel, issue_author),
    {
        let statement = discussion.get_issue_by_author_statement(issue_author);
        (
            self.with(VoteStage::Issue { discussion, channel, issue_author }),
            Action::Database(statement),
        )
    }

    fn pinned(self, channel: ChannelId, old: Option<MessageId>) -> (r: (VoteAgainst, Action))
        ensures
            r == self.pin(channel, old),
    {
        let message = self.message;
        (self.with(VoteStage::Pinning { channel, old }), Action::Pin(message.channel, message.id))
    }

    fn succeeded(self) -> (r: (VoteAgainst, Action))
        ensures
            r == self.succeed(),
    {
        self.closed(Text::Plain("Override vote added successfully."))
    }
}

impl Run for VoteAgainst {
    fn step(self, answer: Answer) -> (r: (Self, Action)) {
        let author = self.author;
        let message = self.message;
        let run = VoteAgainst { author, message, stage: VoteStage::Over };
        match (self.stage, answer) {
            (VoteStage::New, Answer::Start) => {
                if author != message.author {
                    return run.closed(
                        Text::Plain(
                            "You can't mark someone else's message as your issue override vote.",
                        ),
                    );
                }
                let statement = DiscussionRecord::get_by_thread_statement(message.channel);
                (run.with(VoteStage::Lookup), Action::Database(statement))
            },
            (VoteStage::Lookup, Answer::Discussion(row)) => {
                match DiscussionRecord::get_by_thread(row) {
                    Some(discussion) => (
                        run.with(VoteStage::Channel { discussion }),
                        Action::CurrentChannel,
                    ),
                    None => run.closed(
                        Text::Plain("You can't override an issue outside of a review thread."),
                    ),
                }
            },
            (VoteStage::Channel { discussion }, Answer::Channel(channel)) => match channel {
                Some(channel) => (
                    run.with(VoteStage::Whole { discussion, channel: channel.id }),
                    Action::FetchMessage(channel.id, message.id),
                ),
                None => (run, Action::Fault(IN_A_GUILD)),
            },
            (VoteStage::Whole { discussion, channel }, Answer::Fetched(Some(whole))) => {
                match whole.replied_to {
                    Some((replied_to, replied_author)) => {
                        let statement = discussion.get_issue_by_author_statement(replied_author);
                        (
                            run.with(
                                VoteStage::RepliedIssue {
                                    discussion,
                                    channel,
                                    replied_to,
                                    replied_author,
                                },
                            ),
                            Action::Database(statement),
                        )
                    },
                    None => run.asked(discussion, channel),
                }
            },
            (
                VoteStage::RepliedIssue { discussion, channel, replied_to, replied_author },
                Answer::Message(found),
            ) => match DiscussionRecord::get_issue_by_author(found) {
                Ok(issue) => {
                    if is_message(issue, replied_to) {
                        return run.voted_against(discussion, channel, replied_author);
                    }
                    run.asked(discussion, channel)
                },
                Err(error) => run.closed(
                    Text::Error {
                        before: "Failed to check issue for author of message that was replied to: ",
                        error,
                        after: "",
                    },
                ),
            },
            (VoteStage::ShowingMenu { discussion, channel }, Answer::Done) => (
                run.with(VoteStage::Selecting { discussion, channel }),
                Action::AwaitSelection,
            ),
            (VoteStage::Selecting { discussion, channel }, Answer::Selected(selection)) => {
                match selection {
                    Selection::TimedOut => run.closed(
                        Text::Plain("Interaction aborted due to inactivity."),
                    ),
                    Selection::Invalid => run.closed(Text::Plain("Invalid interaction received.")),
                    Selection::Chosen(users) => (
                        run.with(VoteStage::DeletingMenu { discussion, channel, users }),
                        Action::DeleteUserMenu,
                    ),
                }
            },
            (VoteStage::DeletingMenu { discussion, channel, users }, _) => {
                if users.len() != 1 {
                    return run.closed(Text::Plain("You must select exactly 1 user."));
                }
                let issue_author = users[0];
                run.voted_against(discussion, channel, issue_author)
            },
            (VoteStage::Issue { discussion, channel, issue_author }, Answer::Message(found)) => {
                match DiscussionRecord::get_issue_by_author(found) {
                    Ok(issue) => {
                        if is_message(issue, message.id) {
                            return run.closed(
                                Text::Plain("You can't mark your issue as one of its overrides."),
                            );
                        }
                    },
                    Err(_) => {},
                }
                let statement = discussion.get_issue_override_statement(issue_author, author);
                (
                    run.with(VoteStage::OldVote { discussion, channel, issue_author }),
                    Action::Database(statement),
                )
            },
            (VoteStage::OldVote { discussion, channel, issue_author }, Answer::Message(found)) => {
                match DiscussionRecord::get_override_by_author(found) {
                    Ok(old) => {
                        if is_message(old, message.id) {
                            return run.closed(Text::Plain(ALREADY_VOTED));
                        }
                        let statement = discussion.upsert_override_of_statement(
                            issue_author,
                            message.author,
                            message.id,
                        );
                        (
                            run.with(VoteStage::Recording { channel, old }),
                            Action::Database(statement),
                        )
                    },
                    Err(error) => run.closed(
                        Text::Error {
                            before: "Failed to check for previous override: ",
                            error,
                            after: "",
                        },
                    ),
                }
            },
            (VoteStage::Recording { channel, old }, Answer::Written(written)) => {
                match DiscussionRecord::upsert_issue_override(written) {
                    Ok(_) => run.pinned(channel, old),
                    Err(error) => (
                        run.with(VoteStage::NotRecorded { channel, old }),
                        Action::Reply(
                            Text::Error {
                                before: "Failed to add issue override: ",
                                error,
                                after: "",
                            },
                        ),
                    ),
                }
            },
            (VoteStage::NotRecorded { channel, old }, Answer::Done) => run.pinned(channel, old),
            (VoteStage::Pinning { channel, old }, answer) => match answer {
                Answer::Done => match old {
                    Some(earlier) => (
                        run.with(VoteStage::FetchingOld { channel, earlier }),
                        Action::FetchMessage(channel, earlier),
                    ),
                    None => run.succeeded(),
                },
                _ => (run, Action::Finish),
            },
            (VoteStage::FetchingOld { channel, earlier }, Answer::Fetched(fetched)) => {
                match fetched {
                    Some(_) => (run.with(VoteStage::UnpinningOld), Action::Unpin(channel, earlier)),
                    None => (
                        run.with(VoteStage::Unresolved),
                        Action::Reply(Text::Plain(OLD_VOTE_UNRESOLVED)),
                    ),
                }
            },
            (VoteStage::UnpinningOld, Answer::Done) => run.succeeded(),
            (VoteStage::Unresolved, Answer::Done) => run.succeeded(),
            (VoteStage::Closing, Answer::Done) => (run, Action::Finish),
            _ => (run, Action::Abort(None)),
        }
    }
}

impl Body for VoteAgainst {
    open spec fn needs() -> Permission {
        Permission::ContentReviewer
    }

    fn needed() -> (r: Permission) {
        Permission::ContentReviewer
    }
}

/// A step of the command that votes to override the issue of an author.
pub fn cr_issue_override(run: Command<VoteAgainst>, answer: Answer) -> (r: (
    Command<VoteAgainst>,
    Action,
))
    ensures
        r == run.next(answer),
{
    run.step(answer)
}

/// A look at the issue of the author of a message, and at the votes against it.
#[derive(Debug)]
pub struct ViewVotes {
    pub message: TargetMessage,
    /// The channel that the command was given in.
    pub channel: ChannelId,
    /// The guild that the command was given in, if it was in one.
    pub guild: Option<GuildId>,
    pub stage: ViewVotesStage,
}

/// How far that has got.
#[derive(Debug)]
pub enum ViewVotesStage {
    New,
    Lookup,
    Issue { discussion: DiscussionRecord },
    Votes { issue: MessageId },
    /// The last reply is under way.
    Closing,
    Over,
}

impl ViewVotes {
    /// The run at another stage.
    pub open spec fn at(self, stage: ViewVotesStage) -> ViewVotes {
        ViewVotes { stage, ..self }
    }

    /// Ends with a reply.
    pub open spec fn close(self, text: Text) -> (ViewVotes, Action) {
        (self.at(ViewVotesStage::Closing), Action::Reply(text))
    }

    fn with(self, stage: ViewVotesStage) -> (r: ViewVotes)
        ensures
            r == self.at(stage),
    {
        ViewVotes { message: self.message, channel: self.channel, guild: self.guild, stage }
    }

    fn closed(self, text: Text) -> (r: (ViewVotes, Action))
        ensures
            r == self.close(text),
    {
        (self.with(ViewVotesStage::Closing), Action::Reply(text))
    }
}

impl Flow for ViewVotes {
    open spec fn next(self, answer: Answer) -> (Self, Action) {
        match (self.stage, answer) {
            (ViewVotesStage::New, Answer::Start) => (
                self.at(ViewVotesStage::Lookup),
                Action::Database(
                    Statement::SelectDiscussionByThread {
                        thread_id: column_of(self.message.channel@),
                    },
                ),
            ),
            (ViewVotesStage::Lookup, Answer::Discussion(row)) => match by_thread_result(row) {
                Some(discussion) => (
                    self.at(ViewVotesStage::Issue { discussion }),
                    Action::Database(discussion.get_issue_by_author_query(self.message.author)),
                ),
                None => self.close(Text::Plain(NO_ISSUES_HERE)),
            },
            (ViewVotesStage::Issue { discussion }, Answer::Message(found)) => match found_result(
                found,
            ) {
                Ok(Some(issue)) => (
                    self.at(ViewVotesStage::Votes { issue }),
                    Action::Database(discussion.get_overrides_of_query(self.message.author)),
                ),
                Ok(None) => self.close(Text::NoActiveIssue(self.message.author)),
                Err(error) => self.close(
                    Text::Error {
                        before: "Failed to check for issue associated with author: ",
                        error,
                        after: "",
                    },
                ),
            },
            (ViewVotesStage::Votes { issue }, Answer::Votes(found)) => match votes_result(found) {
                Ok(votes) => if votes@.len() == 0 {
                    self.close(Text::Plain("Nobody has voted to override their issue yet."))
                } else {
                    self.close(
                        Text::IssueVotes {
                            author: self.message.author,
                            issue,
                            channel: self.channel,
                            guild: self.guild,
                            votes,
                        },
                    )
                },
                Err(error) => self.close(
                    Text::Error { before: "Failed to retrieve issue overrides: ", error, after: "" },
                ),
            },
            (ViewVotesStage::Closing, Answer::Done) => (
                self.at(ViewVotesStage::Over),
                Action::Finish,
            ),
            _ => (self.at(ViewVotesStage::Over), Action::Abort(None)),
        }
    }
}

impl Run for ViewVotes {
    fn step(self, answer: Answer) -> (r: (Self, Action)) {
        let message = self.message;
        let channel = self.channel;
        let guild = self.guild;
        let run = ViewVotes { message, channel, guild, stage: ViewVotesStage::Over };
        match (self.stage, answer) {
            (ViewVotesStage::New, Answer::Start) => {
                let statement = DiscussionRecord::get_by_thread_statement(message.channel);
                (run.with(ViewVotesStage::Lookup), Action::Database(statement))
            },
            (ViewVotesStage::Lookup, Answer::Discussion(row)) => {
                match DiscussionRecord::get_by_thread(row) {
                    Some(discussion) => {
                        let statement = discussion.get_issue_by_author_statement(message.author);
                        (
                            run.with(ViewVotesStage::Issue { discussion }),
                            Action::Database(statement),
                        )
                    },
                    None => run.closed(Text::Plain(NO_ISSUES_HERE)),
                }
            },
            (ViewVotesStage::Issue { discussion }, Answer::Message(found)) => {
                match DiscussionRecord::get_issue_by_author(found) {
                    Ok(Some(issue)) => {
                        let statement = discussion.get_overrides_of_statement(message.author);
                        (
                            run.with(ViewVotesStage::Votes { issue }),
                            Action::Database(statement),
                        )
                    },
                    Ok(None) => run.closed(Text::NoActiveIssue(message.author)),
                    Err(error) => run.closed(
                        Text::Error {
                            before: "Failed to check for issue associated with author: ",
                            error,
                            after: "",
                        },
                    ),
                }
            },
            (ViewVotesStage::Votes { issue }, Answer::Votes(found)) => {
                match DiscussionRecord::get_issue_overrides(found) {
                    Ok(votes) => {
                        if votes.len() == 0 {
                            return run.closed(
                                Text::Plain("Nobody has voted to override their issue yet."),
                            );
                        }
                        run.closed(
                            Text::IssueVotes {
                                author: message.author,
                                issue,
                                channel,
                                guild,
                                votes,
                            },
                        )
                    },
                    Err(error) => run.closed(
                        Text::Error {
                            before: "Failed to retrieve issue overrides: ",
                            error,
                            after: "",
                        },
                    ),
                }
            },
            (ViewVotesStage::Closing, Answer::Done) => (run, Action::Finish),
            _ => (run, Action::Abort(None)),
        }
    }
}

impl Body for ViewVotes {
    open spec fn needs() -> Permission {
        Permission::ContentReviewer
    }

    fn needed() -> (r: Permission) {
        Permission::ContentReviewer
    }
}

/// A step of the command that shows the issue of the author of a message, and the votes against it.
pub fn cr_issue_view(run: Command<ViewVotes>, answer: Answer) -> (r: (Command<ViewVotes>, Action))
    ensures
        r == run.next(answer),
{
    run.step(answer)
}

/// What is asked to learn of a user's issue.
pub open spec fn issue_question(discussion: DiscussionRecord, author: UserId) -> Action {
    Action::Database(discussion.get_issue_by_author_query(author))
}

impl VoteAgainst {
    /// Whether the message of the command was fetched.
    pub open spec fn was_fetched(
        self,
        answers: Seq<Answer>,
        channel: ChannelId,
        whole: FetchedMessage,
    ) -> bool {
        was_answered(
            self,
            answers,
            Action::FetchMessage(channel, self.message.id),
            Answer::Fetched(Some(whole)),
        )
    }

    /// Whether the message of the command was found to reply to another.
    pub open spec fn replied(
        self,
        answers: Seq<Answer>,
        replied_to: MessageId,
        replied_author: UserId,
    ) -> bool {
        exists|channel: ChannelId, whole: FetchedMessage|
            #![trigger self.was_fetched(answers, channel, whole)]
            self.was_fetched(answers, channel, whole) && whole.replied_to == Some(
                (replied_to, replied_author),
            )
    }

    /// Whether it was learned that the message of the command replies to nothing.
    pub open spec fn replied_to_nothing(self, answers: Seq<Answer>) -> bool {
        exists|channel: ChannelId, whole: FetchedMessage|
            #![trigger self.was_fetched(answers, channel, whole)]
            self.was_fetched(answers, channel, whole) && whole.replied_to is None
    }

    /// Whether it was learned what a user's issue is.
    pub open spec fn learned_issue(
        self,
        answers: Seq<Answer>,
        discussion: DiscussionRecord,
        author: UserId,
        issue: Result<Option<MessageId>, HandledError>,
    ) -> bool {
        exists|found: Result<Option<MessageId>, DbError>| #[trigger]
            was_answered(
                self,
                answers,
                issue_question(discussion, author),
                Answer::Message(found),
            ) && found_result(found) == issue
    }

    /// Whether the message of the command replies to the issue of a user.
    pub open spec fn replied_to_issue(
        self,
        answers: Seq<Answer>,
        discussion: DiscussionRecord,
        issue_author: UserId,
    ) -> bool {
        exists|issue: MessageId|
            #![trigger self.replied(answers, issue, issue_author)]
            self.replied(answers, issue, issue_author) && self.learned_issue(
                answers,
                discussion,
                issue_author,
                Ok(Some(issue)),
            )
    }

    /// Whether the message of the command replies to nothing, or to what is not its author's issue.
    pub open spec fn replied_to_no_issue(
        self,
        answers: Seq<Answer>,
        discussion: DiscussionRecord,
    ) -> bool {
        ||| self.replied_to_nothing(answers)
        ||| exists|replied_to: MessageId, author: UserId, issue: Option<MessageId>|
            #![trigger self.replied(answers, replied_to, author), self.learned_issue(answers, discussion, author, Ok(issue))]
            self.replied(answers, replied_to, author) && self.learned_issue(
                answers,
                discussion,
                author,
                Ok(issue),
            ) && issue != Some(replied_to)
    }

    /// Whether users were selected.
    pub open spec fn was_chosen(self, answers: Seq<Answer>, users: Vec<UserId>) -> bool {
        was_answered(
            self,
            answers,
            Action::AwaitSelection,
            Answer::Selected(Selection::Chosen(users)),
        )
    }

    /// Whether a user is the one that was selected.
    pub open spec fn was_selected(self, answers: Seq<Answer>, issue_author: UserId) -> bool {
        exists|users: Vec<UserId>| #[trigger]
            self.was_chosen(answers, users) && users@ == seq![issue_author]
    }

    /// Whether the vote is against the issue of a user: the one that the message of the command
    /// replies to, or else that of the one user who was selected.
    pub open spec fn is_against(
        self,
        answers: Seq<Answer>,
        discussion: DiscussionRecord,
        issue_author: UserId,
    ) -> bool {
        ||| self.replied_to_issue(answers, discussion, issue_author)
        ||| self.replied_to_no_issue(answers, discussion) && self.was_selected(
            answers,
            issue_author,
        )
    }

    /// Whether a user's issue was found to be another message than that of the command.
    pub open spec fn issue_is_other(
        self,
        answers: Seq<Answer>,
        discussion: DiscussionRecord,
        issue_author: UserId,
    ) -> bool {
        exists|issue: Result<Option<MessageId>, HandledError>| #[trigger]
            self.learned_issue(answers, discussion, issue_author, issue) && issue != Ok::<
                Option<MessageId>,
                HandledError,
            >(Some(self.message.id))
    }

    /// What is known at a stage of a run that began as this one.
    pub open spec fn knows(self, answers: Seq<Answer>, stage: VoteStage) -> bool {
        match stage {
            VoteStage::Whole { channel, .. } => {
                &&& answers.len() > 0
                &&& action_on(self, answers) == Action::FetchMessage(channel, self.message.id)
            },
            VoteStage::RepliedIssue { discussion, replied_to, replied_author, .. } => {
                &&& answers.len() > 0
                &&& action_on(self, answers) == issue_question(discussion, replied_author)
                &&& self.replied(answers, replied_to, replied_author)
            },
            VoteStage::ShowingMenu { discussion, .. } => self.replied_to_no_issue(
                answers,
                discussion,
            ),
            VoteStage::Selecting { discussion, .. } => {
                &&& answers.len() > 0
                &&& action_on(self, answers) == Action::AwaitSelection
                &&& self.replied_to_no_issue(answers, discussion)
            },
            VoteStage::DeletingMenu { discussion, users, .. } => {
                &&& self.replied_to_no_issue(answers, discussion)
                &&& self.was_chosen(answers, users)
            },
            VoteStage::Issue { discussion, issue_author, .. } => {
                &&& answers.len() > 0
                &&& action_on(self, answers) == issue_question(discussion, issue_author)
                &&& self.is_against(answers, discussion, issue_author)
            },
            VoteStage::OldVote { discussion, issue_author, .. } => {
                &&& self.is_against(answers, discussion, issue_author)
                &&& self.issue_is_other(answers, discussion, issue_author)
            },
            _ => true,
        }
    }
}

proof fn lemma_learned_stays(
    first: VoteAgainst,
    answers: Seq<Answer>,
    discussion: DiscussionRecord,
    author: UserId,
    issue: Result<Option<MessageId>, HandledError>,
)
    requires
        answers.len() > 0,
        first.learned_issue(answers.drop_last(), discussion, author, issue),
    ensures
        first.learned_issue(answers, discussion, author, issue),
{
    lemma_answered(first, answers);
    let before = answers.drop_last();
    let question = issue_question(discussion, author);
    let found = choose|found: Result<Option<MessageId>, DbError>| #[trigger]
        was_answered(first, before, question, Answer::Message(found)) && found_result(found)
            == issue;
    assert(was_answered(first, answers, question, Answer::Message(found)));
}

proof fn lemma_replied_stays(
    first: VoteAgainst,
    answers: Seq<Answer>,
    replied_to: MessageId,
    author: UserId,
)
    requires
        answers.len() > 0,
        first.replied(answers.drop_last(), replied_to, author),
    ensures
        first.replied(answers, replied_to, author),
{
    lemma_answered(first, answers);
    let before = answers.drop_last();
    let (channel, whole) = choose|channel: ChannelId, whole: FetchedMessage|
        #![trigger first.was_fetched(before, channel, whole)]
        first.was_fetched(before, channel, whole) && whole.replied_to == Some((replied_to, author));
    assert(first.was_fetched(answers, channel, whole));
}

proof fn lemma_no_issue_stays(
    first: VoteAgainst,
    answers: Seq<Answer>,
    discussion: DiscussionRecord,
)
    requires
        answers.len() > 0,
        first.replied_to_no_issue(answers.drop_last(), discussion),
    ensures
        first.replied_to_no_issue(answers, discussion),
{
    let before = answers.drop_last();
    if first.replied_to_nothing(before) {
        lemma_answered(first, answers);
        let (channel, whole) = choose|channel: ChannelId, whole: FetchedMessage|
            #![trigger first.was_fetched(before, channel, whole)]
            first.was_fetched(before, channel, whole) && whole.replied_to is None;
        assert(first.was_fetched(answers, channel, whole));
    } else {
        let (replied_to, author, issue) = choose|
            replied_to: MessageId,
            author: UserId,
            issue: Option<MessageId>,
        |
            #![trigger first.replied(before, replied_to, author), first.learned_issue(before, discussion, author, Ok(issue))]
            first.replied(before, replied_to, author) && first.learned_issue(
                before,
                discussion,
                author,
                Ok(issue),
            ) && issue != Some(replied_to);
        lemma_replied_stays(first, answers, replied_to, author);
        lemma_learned_stays(first, answers, discussion, author, Ok(issue));
    }
}

proof fn lemma_against_stays(
    first: VoteAgainst,
    answers: Seq<Answer>,
    discussion: DiscussionRecord,
    issue_author: UserId,
)
    requires
        answers.len() > 0,
        first.is_against(answers.drop_last(), discussion, issue_author),
    ensures
        first.is_against(answers, discussion, issue_author),
{
    let before = answers.drop_last();
    if first.replied_to_issue(before, discussion, issue_author) {
        let issue = choose|issue: MessageId|
            #![trigger first.replied(before, issue, issue_author)]
            first.replied(before, issue, issue_author) && first.learned_issue(
                before,
                discussion,
                issue_author,
                Ok(Some(issue)),
            );
        lemma_replied_stays(first, answers, issue, issue_author);
        lemma_learned_stays(first, answers, discussion, issue_author, Ok(Some(issue)));
    } else {
        lemma_no_issue_stays(first, answers, discussion);
        lemma_answered(first, answers);
        let users = choose|users: Vec<UserId>| #[trigger]
            first.was_chosen(before, users) && users@ == seq![issue_author];
        assert(first.was_chosen(answers, users));
    }
}

proof fn lemma_vote_knows(first: VoteAgainst, answers: Seq<Answer>)
    requires
        first.stage is New,
    ensures
        first.knows(answers, after(first, answers).stage),
    decreases answers.len(),
{
    if answers.len() > 0 {
        let before = answers.drop_last();
        let now = after(first, before);
        let answer = answers.last();
        lemma_vote_knows(first, before);
        lemma_vote_against_is_own(first, before);
        lemma_answered(first, answers);
        match (now.stage, answer) {
            (VoteStage::Whole { discussion, channel }, Answer::Fetched(Some(whole))) => {
                assert(first.was_fetched(answers, channel, whole));
            },
            (
                VoteStage::RepliedIssue { discussion, channel, replied_to, replied_author },
                Answer::Message(found),
            ) => {
                lemma_replied_stays(first, answers, replied_to, replied_author);
                assert(first.learned_issue(
                    answers,
                    discussion,
                    replied_author,
                    found_result(found),
                ));
                if let Ok(issue) = found_result(found) {
                    assert(first.learned_issue(answers, discussion, replied_author, Ok(issue)));
                }
            },
            (VoteStage::ShowingMenu { discussion, .. }, _) => {
                lemma_no_issue_stays(first, answers, discussion);
            },
            (VoteStage::Selecting { discussion, .. }, _) => {
                lemma_no_issue_stays(first, answers, discussion);
            },
            (VoteStage::DeletingMenu { discussion, users, .. }, _) => {
                lemma_no_issue_stays(first, answers, discussion);
                assert(first.was_chosen(answers, users));
                if users@.len() == 1 {
                    assert(users@ =~= seq![users@[0]]);
                }
            },
            (VoteStage::Issue { discussion, issue_author, .. }, Answer::Message(found)) => {
                lemma_against_stays(first, answers, discussion, issue_author);
                assert(first.learned_issue(answers, discussion, issue_author, found_result(found)));
            },
            _ => {},
        }
    }
}

proof fn lemma_vote_against_is_own(first: VoteAgainst, answers: Seq<Answer>)
    requires
        first.stage is New,
    ensures
        ({
            let run = after(first, answers);
            &&& run.author == first.author
            &&& run.message == first.message
            &&& (run.stage is New || run.stage is Closing || run.stage is Over || first.author
                == first.message.author)
        }),
    decreases answers.len(),
{
    if answers.len() > 0 {
        lemma_vote_against_is_own(first, answers.drop_last());
    }
}

/// Nobody votes with the message of someone else, or twice with the same message against the same
/// issue: what is put into the database is the author and the message of the command, the message
/// is the author's, and it was just found not to be their vote already. The vote is against the
/// issue that the message replies to, or else against that of the one user who was selected, and
/// the message was found not to be that issue itself.
pub proof fn law_targeted_votes_are_own(first: VoteAgainst, answers: Seq<Answer>)
    requires
        first.stage is New,
        answers.len() > 0,
    ensures
        match action_on(first, answers) {
            Action::Database(
                Statement::UpsertIssueOverride { pr_id, issue_author, user_id, message_id },
            ) => {
                &&& first.author == first.message.author
                &&& user_id == column_of(first.author@)
                &&& message_id == column_of(first.message.id@)
                &&& answers.last() matches Answer::Message(found) && found_result(found) is Ok
                    && found_result(found)->Ok_0 != Some(first.message.id)
                &&& exists|discussion: DiscussionRecord, author: UserId|
                    {
                        &&& pr_id == column_of(discussion.pr_id)
                        &&& issue_author == column_of(author@)
                        &&& #[trigger] first.is_against(answers.drop_last(), discussion, author)
                        &&& first.issue_is_other(answers.drop_last(), discussion, author)
                    }
            },
            _ => true,
        },
{
    let before = answers.drop_last();
    lemma_vote_against_is_own(first, before);
    lemma_vote_knows(first, before);
    if let VoteStage::OldVote { discussion, issue_author, .. } = after(first, before).stage {
        assert(first.is_against(before, discussion, issue_author));
    }
}

/// An issue that leaves the votes alone is raised step by step, for every discussion, author and
/// message: the earlier issue is asked for, the new one is recorded and pinned, and the earlier one
/// is unpinned. What stands against it is told.
pub proof fn law_lone_issue_is_raised_as_asked(
    run: RaiseAlone,
    row: DiscussionRow,
    old: Option<MessageId>,
    here: GuildChannel,
    fetched: FetchedMessage,
)
    requires
        run.stage is New,
        run.author == run.message.author,
        old != Some(run.message.id),
    ensures
        ({
            let user_id = column_of(run.author@);
            let done = Text::Plain("Issue raised successfully.");
            let (r1, a1) = run.next(Answer::Start);
            let (r2, a2) = r1.next(Answer::Discussion(Ok(row)));
            let (r3, a3) = r2.next(Answer::Message(Ok(old)));
            let (r4, a4) = r3.next(Answer::Written(Ok(())));
            let (r5, a5) = r4.next(Answer::Done);
            let (r6, a6) = r5.next(Answer::Channel(Some(here)));
            let (r7, a7) = r6.next(Answer::Fetched(Some(fetched)));
            &&& a1 == Action::Database(
                Statement::SelectDiscussionByThread { thread_id: column_of(run.message.channel@) },
            )
            &&& a2 == Action::Database(
                Statement::SelectIssueByAuthor { pr_id: row.pr_id, user_id },
            )
            &&& a3 == Action::Database(
                Statement::UpsertIssue {
                    pr_id: row.pr_id,
                    user_id,
                    message_id: column_of(run.message.id@),
                },
            )
            &&& a4 == Action::Pin(run.message.channel, run.message.id)
            &&& old is None ==> closes_with((r5, a5), done)
            &&& old is Some ==> {
                &&& a5 == Action::CurrentChannel
                &&& a6 == Action::FetchMessage(here.id, old->0)
                &&& a7 == Action::Unpin(here.id, old->0)
                &&& closes_with(r7.next(Answer::Done), done)
                &&& r7.next(Answer::Failed).1 == Action::Abort(None)
                &&& r6.next(Answer::Fetched(None)).1 == Action::Reply(
                    Text::Plain(OLD_ISSUE_UNRESOLVED),
                )
                &&& closes_with(r6.next(Answer::Fetched(None)).0.next(Answer::Done), done)
                &&& r5.next(Answer::Channel(None)).1 is Fault
            }
            // what stands against it
            &&& forall|error: DbError|
                closes_with(
                    #[trigger] r1.next(Answer::Discussion(Err(error))),
                    Text::Plain("You can't raise an issue outside of a review thread."),
                )
            &&& r2.next(Answer::Message(Err(DbError::RowNotFound))).1 == a3
            &&& closes_with(
                r2.next(Answer::Message(Ok(Some(run.message.id)))),
                Text::Plain("You've already marked this message as your raised issue."),
            )
            &&& closes_with_error(
                r2.next(Answer::Message(Err(DbError::Other))),
                "Failed to check for previous issue: ",
                HandledError::InternalError,
            )
            &&& forall|error: DbError|
                closes_with_error(
                    #[trigger] r3.next(Answer::Written(Err(error))),
                    "Failed to raise issue: ",
                    HandledError::InternalError,
                )
            &&& r4.next(Answer::Failed).1 == Action::Finish
        }),
{
    law_value_round_trip(row.pr_id);
}

/// Nobody raises an issue, or votes against one, with the message of someone else: they are told so,
/// and nothing is done.
pub proof fn law_foreign_messages_are_refused(raising: RaiseAlone, voting: VoteAgainst)
    ensures
        raising.stage is New && raising.author != raising.message.author ==> closes_with(
            raising.next(Answer::Start),
            Text::Plain("You can't mark someone else's message as your raised issue."),
        ),
        voting.stage is New && voting.author != voting.message.author ==> closes_with(
            voting.next(Answer::Start),
            Text::Plain("You can't mark someone else's message as your issue override vote."),
        ),
{
}

/// A vote against an issue begins with the question whose issue it is against, for every discussion
/// and message: that of the author of the message it replies to, if that message is their issue;
/// otherwise that of the one user who is selected. What stands against it is told.
pub proof fn law_vote_against_finds_its_issue(
    run: VoteAgainst,
    row: DiscussionRow,
    here: GuildChannel,
    whole: FetchedMessage,
    replied_to: MessageId,
    replied_author: UserId,
    issue: Option<MessageId>,
    users: Vec<UserId>,
    any: Answer,
)
    requires
        run.stage is New,
        run.author == run.message.author,
        whole.replied_to is Some ==> whole.replied_to->0 == (replied_to, replied_author),
    ensures
        ({
            let replies = whole.replied_to is Some;
            let to_issue = replies && issue == Some(replied_to);
            let (r1, a1) = run.next(Answer::Start);
            let (r2, a2) = r1.next(Answer::Discussion(Ok(row)));
            let (r3, a3) = r2.next(Answer::Channel(Some(here)));
            let (r4, a4) = r3.next(Answer::Fetched(Some(whole)));
            let (r5, a5) = if replies {
                r4.next(Answer::Message(Ok(issue)))
            } else {
                (r4, a4)
            };
            let (r6, a6) = r5.next(Answer::Done);
            let (r7, a7) = r6.next(Answer::Selected(Selection::Chosen(users)));
            let (r8, a8) = r7.next(any);
            &&& a1 == Action::Database(
                Statement::SelectDiscussionByThread { thread_id: column_of(run.message.channel@) },
            )
            &&& a2 == Action::CurrentChannel
            &&& a3 == Action::FetchMessage(here.id, run.message.id)
            &&& replies ==> a4 == Action::Database(
                Statement::SelectIssueByAuthor {
                    pr_id: row.pr_id,
                    user_id: column_of(replied_author@),
                },
            )
            &&& to_issue ==> a5 == Action::Database(
                Statement::SelectIssueByAuthor {
                    pr_id: row.pr_id,
                    user_id: column_of(replied_author@),
                },
            )
            &&& !to_issue ==> {
                &&& a5 == Action::ShowUserMenu(value_of(row.pr_id))
                &&& a6 == Action::AwaitSelection
                &&& closes_with(
                    r6.next(Answer::Selected(Selection::TimedOut)),
                    Text::Plain("Interaction aborted due to inactivity."),
                )
                &&& closes_with(
                    r6.next(Answer::Selected(Selection::Invalid)),
                    Text::Plain("Invalid interaction received."),
                )
                &&& a7 == Action::DeleteUserMenu
                &&& users@.len() == 1 ==> a8 == Action::Database(
                    Statement::SelectIssueByAuthor {
                        pr_id: row.pr_id,
                        user_id: column_of(users@[0]@),
                    },
                )
                &&& users@.len() != 1 ==> closes_with(
                    (r8, a8),
                    Text::Plain("You must select exactly 1 user."),
                )
            }
            &&& forall|error: DbError|
                closes_with(
                    #[trigger] r1.next(Answer::Discussion(Err(error))),
                    Text::Plain("You can't override an issue outside of a review thread."),
                )
            &&& r2.next(Answer::Channel(None)).1 is Fault
            &&& r3.next(Answer::Fetched(None)).1 == Action::Abort(None)
            &&& !to_issue ==> r5.next(Answer::Failed).1 == Action::Abort(None)
            &&& !to_issue ==> r6.next(Answer::Failed).1 == Action::Abort(None)
            &&& replies ==> closes_with_error(
                r4.next(Answer::Message(Err(DbError::Other))),
                "Failed to check issue for author of message that was replied to: ",
                HandledError::InternalError,
            )
        }),
{
    law_value_round_trip(row.pr_id);
}

/// A vote against the issue that a message replies to is cast step by step, for every discussion,
/// author and message: the message must not be that issue, nor their vote already; then the vote is
/// recorded and pinned, and the earlier one is unpinned. What stands against it is told.
pub proof fn law_vote_against_is_cast_as_asked(
    run: VoteAgainst,
    row: DiscussionRow,
    here: GuildChannel,
    whole: FetchedMessage,
    replied_to: MessageId,
    replied_author: UserId,
    issue: Option<MessageId>,
    old: Option<MessageId>,
    fetched: FetchedMessage,
)
    requires
        run.stage is New,
        run.author == run.message.author,
        whole.replied_to == Some((replied_to, replied_author)),
        issue != Some(run.message.id),
        old != Some(run.message.id),
    ensures
        ({
            let user_id = column_of(run.author@);
            let issue_author = column_of(replied_author@);
            let done = Text::Plain("Override vote added successfully.");
            let r5 = run.next(Answer::Start).0.next(Answer::Discussion(Ok(row))).0.next(
                Answer::Channel(Some(here)),
            ).0.next(Answer::Fetched(Some(whole))).0.next(Answer::Message(Ok(Some(replied_to)))).0;
            let (r6, a6) = r5.next(Answer::Message(Ok(issue)));
            let (r7, a7) = r6.next(Answer::Message(Ok(old)));
            let (r8, a8) = r7.next(Answer::Written(Ok(())));
            let (r9, a9) = r8.next(Answer::Done);
            let (r10, a10) = r9.next(Answer::Fetched(Some(fetched)));
            &&& a6 == Action::Database(
                Statement::SelectIssueOverride { pr_id: row.pr_id, issue_author, user_id },
            )
            &&& a7 == Action::Database(
                Statement::UpsertIssueOverride {
                    pr_id: row.pr_id,
                    issue_author,
                    user_id,
                    message_id: column_of(run.message.id@),
                },
            )
            &&& a8 == Action::Pin(run.message.channel, run.message.id)
            &&& old is None ==> closes_with((r9, a9), done)
            &&& old is Some ==> {
                &&& a9 == Action::FetchMessage(here.id, old->0)
                &&& a10 == Action::Unpin(here.id, old->0)
                &&& closes_with(r10.next(Answer::Done), done)
                &&& r10.next(Answer::Failed).1 == Action::Abort(None)
                &&& r9.next(Answer::Fetched(None)).1 == Action::Reply(
                    Text::Plain(OLD_VOTE_UNRESOLVED),
                )
                &&& closes_with(r9.next(Answer::Fetched(None)).0.next(Answer::Done), done)
            }
            // what stands against it
            &&& closes_with(
                r5.next(Answer::Message(Ok(Some(run.message.id)))),
                Text::Plain("You can't mark your issue as one of its overrides."),
            )
            &&& forall|error: DbError|
                (#[trigger] r5.next(Answer::Message(Err(error)))).1 == a6
            &&& closes_with(
                r6.next(Answer::Message(Ok(Some(run.message.id)))),
                Text::Plain(ALREADY_VOTED),
            )
            &&& r6.next(Answer::Message(Err(DbError::RowNotFound))).1 == a7
            &&& closes_with_error(
                r6.next(Answer::Message(Err(DbError::Other))),
                "Failed to check for previous override: ",
                HandledError::InternalError,
            )
            &&& forall|error: DbError|
                {
                    let (told, telling) = #[trigger] r7.next(Answer::Written(Err(error)));
                    &&& telling == Action::Reply(
                        Text::Error {
                            before: "Failed to add issue override: ",
                            error: HandledError::InternalError,
                            after: "",
                        },
                    )
                    &&& told.next(Answer::Done).1 == a8
                }
            &&& r8.next(Answer::Failed).1 == Action::Finish
        }),
{
    law_value_round_trip(row.pr_id);
}

/// The issue of the author of a message is shown with all votes against it, for every discussion and
/// message. That there is none, or no discussion, is told.
pub proof fn law_votes_are_shown_as_asked(
    run: ViewVotes,
    row: DiscussionRow,
    issue: MessageId,
    votes: Vec<Vote>,
)
    requires
        run.stage is New,
    ensures
        ({
            let author = run.message.author;
            let (r1, a1) = run.next(Answer::Start);
            let (r2, a2) = r1.next(Answer::Discussion(Ok(row)));
            let (r3, a3) = r2.next(Answer::Message(Ok(Some(issue))));
            let step = r3.next(Answer::Votes(Ok(votes)));
            &&& a1 == Action::Database(
                Statement::SelectDiscussionByThread { thread_id: column_of(run.message.channel@) },
            )
            &&& a2 == Action::Database(
                Statement::SelectIssueByAuthor { pr_id: row.pr_id, user_id: column_of(author@) },
            )
            &&& a3 == Action::Database(
                Statement::SelectIssueOverrides {
                    pr_id: row.pr_id,
                    issue_author: column_of(author@),
                },
            )
            &&& votes@.len() == 0 ==> closes_with(
                step,
                Text::Plain("Nobody has voted to override their issue yet."),
            )
            &&& votes@.len() > 0 ==> closes_with(
                step,
                Text::IssueVotes { author, issue, channel: run.channel, guild: run.guild, votes },
            )
            &&& forall|error: DbError|
                closes_with(
                    #[trigger] r1.next(Answer::Discussion(Err(error))),
                    Text::Plain(
                        "Issues can only be raised in review threads, there are no overrides to view here.",
                    ),
                )
            &&& closes_with(r2.next(Answer::Message(Ok(None))), Text::NoActiveIssue(author))
            &&& closes_with(
                r2.next(Answer::Message(Err(DbError::RowNotFound))),
                Text::NoActiveIssue(author),
            )
            &&& closes_with_error(
                r2.next(Answer::Message(Err(DbError::Other))),
                "Failed to check for issue associated with author: ",
                HandledError::InternalError,
            )
            &&& forall|error: DbError|
                closes_with_error(
                    #[trigger] r3.next(Answer::Votes(Err(error))),
                    "Failed to retrieve issue overrides: ",
                    HandledError::InternalError,
                )
        }),
{
    law_value_round_trip(row.pr_id);
}

/// These commands take the permission of the content review.
pub proof fn law_targeted_votes_take_a_permission(
    author: UserId,
    raise: RaiseAlone,
    vote: VoteAgainst,
    view: ViewVotes,
)
    ensures
        ({
            let asked = Action::HasFlags(author@, Permission::ContentReviewer);
            &&& (Command::New { author, body: raise }).next(Answer::Start).1 == asked
            &&& (Command::New { author, body: vote }).next(Answer::Start).1 == asked
            &&& (Command::New { author, body: view }).next(Answer::Start).1 == asked
        }),
{
}

} // verus!
