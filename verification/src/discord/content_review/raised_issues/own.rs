//! Looking at an issue, and taking back what is one's own.

use vstd::prelude::*;

use crate::discord::action::{
    action_on, after, closes_with, closes_with_error, Action, Answer, FetchedMessage, Flow,
    GuildChannel, Run, TargetMessage,
};
use crate::discord::content_review::data::discussions::{
    by_thread_result, found_result, DiscussionRecord,
};
use crate::discord::content_review::notices::Card;
use crate::discord::error::{DbError, HandledError};
use crate::discord::ids::{
    column_of, law_value_round_trip, ChannelId, GuildId, MessageId, UserId,
};
use crate::discord::permissions::check::{Body, Command};
use crate::discord::permissions::data::Permission;
use crate::discord::store::{DiscussionRow, Statement};
use crate::discord::texts::Text;

verus! {

/// A look at the issue of the author of a message.
#[derive(Debug)]
pub struct ViewIssue {
    pub message: TargetMessage,
    pub stage: ViewStage,
}

/// How far that has got.
#[derive(Debug)]
pub enum ViewStage {
    New,
    Lookup,
    Issue,
    Channel { issue: MessageId },
    Fetching { issue: MessageId, channel: ChannelId, guild: GuildId },
    /// The last reply is under way.
    Closing,
    Over,
}

/// What a user is told who looks for issues outside of a review thread.
pub const NO_ISSUES_HERE: &'static str =
    "Issues can only be raised in review threads, there are no overrides to view here.";

impl ViewIssue {
    /// The run at another stage.
    pub open spec fn at(self, stage: ViewStage) -> ViewIssue {
        ViewIssue { stage, ..self }
    }

    /// Ends with a given action.
    pub open spec fn close(self, action: Action) -> (ViewIssue, Action) {
        (self.at(ViewStage::Closing), action)
    }

    fn with(self, stage: ViewStage) -> (r: ViewIssue)
        ensures
            r == self.at(stage),
    {
        ViewIssue { message: self.message, stage }
    }

    fn closed(self, action: Action) -> (r: (ViewIssue, Action))
        ensures
            r == self.close(action),
    {
        (self.with(ViewStage::Closing), action)
    }
}

impl Flow for ViewIssue {
    open spec fn next(self, answer: Answer) -> (Self, Action) {
        match (self.stage, answer) {
            (ViewStage::New, Answer::Start) => (
                self.at(ViewStage::Lookup),
                Action::Database(
                    Statement::SelectDiscussionByThread {
                        thread_id: column_of(self.message.channel@),
                    },
                ),
            ),
            (ViewStage::Lookup, Answer::Discussion(row)) => match by_thread_result(row) {
                Some(discussion) => (
                    self.at(ViewStage::Issue),
                    Action::Database(discussion.get_issue_by_author_query(self.message.author)),
                ),
                None => self.close(Action::Reply(Text::Plain(NO_ISSUES_HERE))),
            },
            (ViewStage::Issue, Answer::Message(found)) => match found_result(found) {
                Ok(Some(issue)) => (
                    self.at(ViewStage::Channel { issue }),
                    Action::CurrentChannel,
                ),
                Ok(None) => self.close(Action::Reply(Text::NoActiveIssue(self.message.author))),
                Err(error) => self.close(
                    Action::Reply(
                        Text::Error {
                            before: "Failed to check for issue associated with author: ",
                            error,
                            after: "",
                        },
                    ),
                ),
            },
            (ViewStage::Channel { issue }, Answer::Channel(Some(channel))) => (
                self.at(ViewStage::Fetching { issue, channel: channel.id, guild: channel.guild }),
                Action::FetchMessage(channel.id, issue),
            ),
            (ViewStage::Channel { .. }, Answer::Channel(None)) => (
                self.at(ViewStage::Over),
                Action::Finish,
            ),
            (ViewStage::Fetching { issue, channel, guild }, Answer::Fetched(fetched)) => self.close(
                Action::ReplyCard(Card::Issue { message: issue, channel, guild, fetched }),
            ),
            (ViewStage::Closing, Answer::Done) => (self.at(ViewStage::Over), Action::Finish),
            _ => (self.at(ViewStage::Over), Action::Abort(None)),
        }
    }
}

impl Run for ViewIssue {
    fn step(self, answer: Answer) -> (r: (Self, Action)) {
        let message = self.message;
        let run = ViewIssue { message, stage: ViewStage::Over };
        match (self.stage, answer) {
            (ViewStage::New, Answer::Start) => {
                let statement = DiscussionRecord::get_by_thread_statement(message.channel);
                (run.with(ViewStage::Lookup), Action::Database(statement))
            },
            (ViewStage::Lookup, Answer::Discussion(row)) => {
                match DiscussionRecord::get_by_thread(row) {
                    Some(discussion) => {
                        let statement = discussion.get_issue_by_author_statement(message.author);
                        (run.with(ViewStage::Issue), Action::Database(statement))
                    },
                    None => run.closed(Action::Reply(Text::Plain(NO_ISSUES_HERE))),
                }
            },
            (ViewStage::Issue, Answer::Message(found)) => {
                match DiscussionRecord::get_issue_by_author(found) {
                    Ok(Some(issue)) => (
                        run.with(ViewStage::Channel { issue }),
                        Action::CurrentChannel,
                    ),
                    Ok(None) => run.closed(Action::Reply(Text::NoActiveIssue(message.author))),
                    Err(error) => run.closed(
                        Action::Reply(
                            Text::Error {
                                before: "Failed to check for issue associated with author: ",
                                error,
                                after: "",
                            },
                        ),
                    ),
                }
            },
            (ViewStage::Channel { issue }, Answer::Channel(channel)) => match channel {
                Some(channel) => (
                    run.with(
                        ViewStage::Fetching { issue, channel: channel.id, guild: channel.guild },
                    ),
                    Action::FetchMessage(channel.id, issue),
                ),
                None => (run, Action::Finish),
            },
            (ViewStage::Fetching { issue, channel, guild }, Answer::Fetched(fetched)) => run.closed(
                Action::ReplyCard(Card::Issue { message: issue, channel, guild, fetched }),
            ),
            (ViewStage::Closing, Answer::Done) => (run, Action::Finish),
            _ => (run, Action::Abort(None)),
        }
    }
}

impl Body for ViewIssue {
    open spec fn needs() -> Permission {
        Permission::ContentReviewer
    }

    fn needed() -> (r: Permission) {
        Permission::ContentReviewer
    }
}

/// A step of the command that shows the issue of the author of a message.
pub fn cr_issue_view_context(run: Command<ViewIssue>, answer: Answer) -> (r: (
    Command<ViewIssue>,
    Action,
))
    ensures
        r == run.next(answer),
{
    run.step(answer)
}

/// The taking back of one's own issue, or of one's own vote to override.
#[derive(Debug)]
pub struct Dismiss {
    pub author: UserId,
    /// The channel that the command was given in.
    pub channel: ChannelId,
    /// Whether it is the vote that is taken back.
    pub is_override: bool,
    pub stage: DismissStage,
}

/// How far that has got.
#[derive(Debug)]
pub enum DismissStage {
    New,
    Lookup,
    Deleting,
    Channel { message: MessageId },
    Fetching { channel: ChannelId, message: MessageId },
    Unpinning,
    /// The last reply is under way.
    Closing,
    Over,
}

impl Dismiss {
    /// The run at another stage.
    pub open spec fn at(self, stage: DismissStage) -> Dismiss {
        Dismiss { stage, ..self }
    }

    /// Ends with a reply.
    pub open spec fn close(self, text: Text) -> (Dismiss, Action) {
        (self.at(DismissStage::Closing), Action::Reply(text))
    }

    /// Ends with an error.
    pub open spec fn abort(self, error: Option<HandledError>) -> (Dismiss, Action) {
        (self.at(DismissStage::Over), Action::Abort(error))
    }

    /// The statement that takes back the author's issue or vote.
    pub open spec fn deletion(self, discussion: DiscussionRecord) -> Statement {
        if self.is_override {
            discussion.delete_override_by_author_query(self.author)
        } else {
            discussion.delete_issue_by_author_query(self.author)
        }
    }

    fn with(self, stage: DismissStage) -> (r: Dismiss)
        ensures
            r == self.at(stage),
    {
        Dismiss { author: self.author, channel: self.channel, is_override: self.is_override, stage }
    }

    fn closed(self, text: Text) -> (r: (Dismiss, Action))
        ensures
            r == self.close(text),
    {
        (self.with(DismissStage::Closing), Action::Reply(text))
    }
}

impl Flow for Dismiss {
    open spec fn next(self, answer: Answer) -> (Self, Action) {
        match (self.stage, answer) {
            (DismissStage::New, Answer::Start) => (
                self.at(DismissStage::Lookup),
                Action::Database(
                    Statement::SelectDiscussionByThread { thread_id: column_of(self.channel@) },
                ),
            ),
            (DismissStage::Lookup, Answer::Discussion(row)) => match by_thread_result(row) {
                Some(discussion) => (
                    self.at(DismissStage::Deleting),
                    Action::Database(self.deletion(discussion)),
                ),
                None => self.close(Text::Plain("There is no PR associated with this channel.")),
            },
            (DismissStage::Deleting, Answer::Message(found)) => match found_result(found) {
                Ok(Some(message)) => (
                    self.at(DismissStage::Channel { message }),
                    Action::CurrentChannel,
                ),
                Ok(None) => self.close(Text::NothingToDismiss { is_override: self.is_override }),
                Err(error) => self.abort(Some(error)),
            },
            (DismissStage::Channel { message }, Answer::Channel(Some(channel))) => (
                self.at(DismissStage::Fetching { channel: channel.id, message }),
                Action::FetchMessage(channel.id, message),
            ),
            (DismissStage::Channel { .. }, Answer::Channel(None)) => self.abort(
                Some(HandledError::UserfacingError("Issue/override dismissed outside of guild.")),
            ),
            (DismissStage::Fetching { channel, message }, Answer::Fetched(Some(_))) => (
                self.at(DismissStage::Unpinning),
                Action::Unpin(channel, message),
            ),
            (DismissStage::Unpinning, Answer::Done) => self.close(
                Text::Dismissed { is_override: self.is_override },
            ),
            (DismissStage::Closing, Answer::Done) => (self.at(DismissStage::Over), Action::Finish),
            _ => self.abort(None),
        }
    }
}

impl Run for Dismiss {
    fn step(self, answer: Answer) -> (r: (Self, Action)) {
        let author = self.author;
        let is_override = self.is_override;
        let run = Dismiss { author, channel: self.channel, is_override, stage: DismissStage::Over };
        match (self.stage, answer) {
            (DismissStage::New, Answer::Start) => {
                let statement = DiscussionRecord::get_by_thread_statement(run.channel);
                (run.with(DismissStage::Lookup), Action::Database(statement))
            },
            (DismissStage::Lookup, Answer::Discussion(row)) => {
                match DiscussionRecord::get_by_thread(row) {
                    Some(discussion) => {
                        let statement = if is_override {
                            discussion.delete_override_by_author_statement(author)
                        } else {
                            discussion.delete_issue_by_author_statement(author)
                        };
                        (run.with(DismissStage::Deleting), Action::Database(statement))
                    },
                    None => run.closed(Text::Plain("There is no PR associated with this channel.")),
                }
            },
            (DismissStage::Deleting, Answer::Message(found)) => {
                let deleted = if is_override {
                    DiscussionRecord::delete_override_by_author(found)
                } else {
                    DiscussionRecord::delete_issue_by_author(found)
                };
                match deleted {
                    Ok(Some(message)) => (
                        run.with(DismissStage::Channel { message }),
                        Action::CurrentChannel,
                    ),
                    Ok(None) => run.closed(Text::NothingToDismiss { is_override }),
                    Err(error) => (run, Action::Abort(Some(error))),
                }
            },
            (DismissStage::Channel { message }, Answer::Channel(channel)) => match channel {
                Some(channel) => (
                    run.with(DismissStage::Fetching { channel: channel.id, message }),
                    Action::FetchMessage(channel.id, message),
                ),
                None => (
                    run,
                    Action::Abort(
                        Some(
                            HandledError::UserfacingError(
                                "Issue/override dismissed outside of guild.",
                            ),
                        ),
                    ),
                ),
            },
            (DismissStage::Fetching { channel, message }, Answer::Fetched(Some(_))) => (
                run.with(DismissStage::Unpinning),
                Action::Unpin(channel, message),
            ),
            (DismissStage::Unpinning, Answer::Done) => run.closed(Text::Dismissed { is_override }),
            (DismissStage::Closing, Answer::Done) => (run, Action::Finish),
            _ => (run, Action::Abort(None)),
        }
    }
}

impl Body for Dismiss {
    open spec fn needs() -> Permission {
        Permission::ContentReviewer
    }

    fn needed() -> (r: Permission) {
        Permission::ContentReviewer
    }
}

/// A step of taking back one's own issue, or one's own vote.
pub fn dismiss_own_impl(run: Command<Dismiss>, answer: Answer) -> (r: (Command<Dismiss>, Action))
    ensures
        r == run.next(answer),
{
    run.step(answer)
}

/// The command to take back an issue or a vote, before its first step.
pub open spec fn new_dismissal(author: UserId, channel: ChannelId, is_override: bool) -> Command<
    Dismiss,
> {
    Command::New {
        author,
        body: Dismiss { author, channel, is_override, stage: DismissStage::New },
    }
}

/// Begins to take back the issue that the user has raised.
pub fn cr_issue_dismiss(author: UserId, channel: ChannelId) -> (r: Command<Dismiss>)
    ensures
        r == new_dismissal(author, channel, false),
{
    Command::New {
        author,
        body: Dismiss { author, channel, is_override: false, stage: DismissStage::New },
    }
}

/// Begins to take back the issue that the user has raised, from the menu of any message.
pub fn cr_issue_dismiss_context(author: UserId, channel: ChannelId, _message: TargetMessage) -> (r:
    Command<Dismiss>)
    ensures
        r == new_dismissal(author, channel, false),
{
    cr_issue_dismiss(author, channel)
}

/// Begins to take back the user's vote to override.
pub fn cr_issue_dismiss_override(author: UserId, channel: ChannelId) -> (r: Command<Dismiss>)
    ensures
        r == new_dismissal(author, channel, true),
{
    Command::New {
        author,
        body: Dismiss { author, channel, is_override: true, stage: DismissStage::New },
    }
}

/// Begins to take back the user's vote to override, from the menu of any message.
pub fn cr_issue_dismiss_override_context(
    author: UserId,
    channel: ChannelId,
    _message: TargetMessage,
) -> (r: Command<Dismiss>)
    ensures
        r == new_dismissal(author, channel, true),
{
    cr_issue_dismiss_override(author, channel)
}

proof fn lemma_dismiss_args_stay(run: Dismiss, answers: Seq<Answer>)
    ensures
        after(run, answers).author == run.author,
        after(run, answers).is_override == run.is_override,
    decreases answers.len(),
{
    if answers.len() > 0 {
        lemma_dismiss_args_stay(run, answers.drop_last());
    }
}

/// Nobody takes back what is someone else's, or a vote in place of an issue: whatever is removed
/// from the database is the author's, and of the kind that was asked for.
pub proof fn law_only_own_is_dismissed(run: Dismiss, answers: Seq<Answer>)
    requires
        answers.len() > 0,
    ensures
        match action_on(run, answers) {
            Action::Database(Statement::DeleteIssueByAuthor { user_id, .. }) => user_id
                == column_of(run.author@) && !run.is_override,
            Action::Database(Statement::DeleteOverrideByAuthor { user_id, .. }) => user_id
                == column_of(run.author@) && run.is_override,
            Action::Database(statement) => statement is SelectDiscussionByThread,
            _ => true,
        },
{
    lemma_dismiss_args_stay(run, answers.drop_last());
}

/// One's own issue, or one's own vote, is taken back as asked, for every discussion and user: it is
/// removed from the database, its message is unpinned, and the user is told. That there is none, or
/// no discussion, is told too.
pub proof fn law_own_is_dismissed_as_asked(
    run: Dismiss,
    row: DiscussionRow,
    message: MessageId,
    here: GuildChannel,
    fetched: FetchedMessage,
)
    requires
        run.stage is New,
    ensures
        ({
            let user_id = column_of(run.author@);
            let (r1, a1) = run.next(Answer::Start);
            let (r2, a2) = r1.next(Answer::Discussion(Ok(row)));
            let (r3, a3) = r2.next(Answer::Message(Ok(Some(message))));
            let (r4, a4) = r3.next(Answer::Channel(Some(here)));
            let (r5, a5) = r4.next(Answer::Fetched(Some(fetched)));
            &&& a1 == Action::Database(
                Statement::SelectDiscussionByThread { thread_id: column_of(run.channel@) },
            )
            &&& run.is_override ==> a2 == Action::Database(
                Statement::DeleteOverrideByAuthor { pr_id: row.pr_id, user_id },
            )
            &&& !run.is_override ==> a2 == Action::Database(
                Statement::DeleteIssueByAuthor { pr_id: row.pr_id, user_id },
            )
            &&& a3 == Action::CurrentChannel
            &&& a4 == Action::FetchMessage(here.id, message)
            &&& a5 == Action::Unpin(here.id, message)
            &&& closes_with(
                r5.next(Answer::Done),
                Text::Dismissed { is_override: run.is_override },
            )
            &&& r4.next(Answer::Fetched(None)).1 == Action::Abort(None)
            &&& r5.next(Answer::Failed).1 == Action::Abort(None)
            &&& forall|error: DbError|
                closes_with(
                    #[trigger] r1.next(Answer::Discussion(Err(error))),
                    Text::Plain("There is no PR associated with this channel."),
                )
            &&& closes_with(
                r2.next(Answer::Message(Ok(None))),
                Text::NothingToDismiss { is_override: run.is_override },
            )
            &&& closes_with(
                r2.next(Answer::Message(Err(DbError::RowNotFound))),
                Text::NothingToDismiss { is_override: run.is_override },
            )
            &&& r2.next(Answer::Message(Err(DbError::Other))).1 == Action::Abort(
                Some(HandledError::InternalError),
            )
            &&& r3.next(Answer::Channel(None)).1 == Action::Abort(
                Some(HandledError::UserfacingError("Issue/override dismissed outside of guild.")),
            )
        }),
{
    law_value_round_trip(row.pr_id);
}

/// The issue of the author of a message is shown as it is, for every discussion and message. That
/// there is none, or no discussion, is told.
pub proof fn law_issue_is_shown_as_asked(
    run: ViewIssue,
    row: DiscussionRow,
    issue: MessageId,
    here: GuildChannel,
    fetched: Option<FetchedMessage>,
)
    requires
        run.stage is New,
    ensures
        ({
            let (r1, a1) = run.next(Answer::Start);
            let (r2, a2) = r1.next(Answer::Discussion(Ok(row)));
            let (r3, a3) = r2.next(Answer::Message(Ok(Some(issue))));
            let (r4, a4) = r3.next(Answer::Channel(Some(here)));
            let (r5, a5) = r4.next(Answer::Fetched(fetched));
            &&& a1 == Action::Database(
                Statement::SelectDiscussionByThread { thread_id: column_of(run.message.channel@) },
            )
            &&& a2 == Action::Database(
                Statement::SelectIssueByAuthor {
                    pr_id: row.pr_id,
                    user_id: column_of(run.message.author@),
                },
            )
            &&& a3 == Action::CurrentChannel
            &&& a4 == Action::FetchMessage(here.id, issue)
            &&& a5 == Action::ReplyCard(
                Card::Issue { message: issue, channel: here.id, guild: here.guild, fetched },
            )
            &&& r5.next(Answer::Done).1 == Action::Finish
            &&& forall|error: DbError|
                closes_with(
                    #[trigger] r1.next(Answer::Discussion(Err(error))),
                    Text::Plain(
                        "Issues can only be raised in review threads, there are no overrides to view here.",
                    ),
                )
            &&& closes_with(
                r2.next(Answer::Message(Ok(None))),
                Text::NoActiveIssue(run.message.author),
            )
            &&& closes_with(
                r2.next(Answer::Message(Err(DbError::RowNotFound))),
                Text::NoActiveIssue(run.message.author),
            )
            &&& closes_with_error(
                r2.next(Answer::Message(Err(DbError::Other))),
                "Failed to check for issue associated with author: ",
                HandledError::InternalError,
            )
            &&& r3.next(Answer::Channel(None)).1 == Action::Finish
        }),
{
    law_value_round_trip(row.pr_id);
}

/// The commands to take something back are about the user who gives them, in the channel where they
/// give them: two of them are about an issue, and two about a vote.
pub proof fn law_dismissals_begin_as_asked(author: UserId, channel: ChannelId, is_override: bool)
    ensures
        ({
            let command = new_dismissal(author, channel, is_override);
            let (checking, asked) = command.next(Answer::Start);
            let (begun, first) = checking.next(Answer::Holds(true));
            &&& asked == Action::HasFlags(author@, Permission::ContentReviewer)
            &&& first == Action::Database(
                Statement::SelectDiscussionByThread { thread_id: column_of(channel@) },
            )
            &&& begun matches Command::Allowed { body } && body.author == author
                && body.is_override == is_override
        }),
{
}

/// These commands take the permission of the content review.
pub proof fn law_own_issues_take_a_permission(
    author: UserId,
    view: ViewIssue,
    dismiss: Dismiss,
)
    ensures
        ({
            let asked = Action::HasFlags(author@, Permission::ContentReviewer);
            &&& (Command::New { author, body: view }).next(Answer::Start).1 == asked
            &&& (Command::New { author, body: dismiss }).next(Answer::Start).1 == asked
        }),
{
}

} // verus!
