//! The discussions of pull requests, and the issues raised in them.

use vstd::prelude::*;

use crate::clock::{add_days, current_micros, days_after, LAST_MICROS};
use crate::discord::error::{DbError, HandledError};
use crate::discord::ids::{column_of, from_column, to_column, value_of, ChannelId, MessageId, UserId};
use crate::discord::store::{DiscussionRow, Statement, Vote};
use crate::text::chars::copy_text;

verus! {

/// The discussion of a pull request.
#[derive(Debug, PartialEq, Eq)]
pub struct DiscussionRecord {
    /// The number of the pull request.
    pub pr_id: u64,
    /// The forum that the discussion is held in.
    pub forum_id: ChannelId,
    /// The thread that the discussion is held in.
    pub thread_id: ChannelId,
    /// Who triaged the pull request.
    pub triaged_by: Option<UserId>,
    /// How many days the review may take.
    pub review_days_total: Option<u64>,
    /// How many of them have passed.
    pub review_days_passed: Option<u64>,
    /// When the next reminder is due; none is sent while this is not set.
    pub review_days_next_micros: Option<i64>,
    /// The title of the pull request.
    pub pr_title: String,
    /// Who opened the pull request.
    pub pr_author: String,
    /// The description of the pull request.
    pub pr_body: Option<String>,
}

impl Clone for DiscussionRecord {
    fn clone(&self) -> (r: Self)
        ensures
            r == *self,
    {
        DiscussionRecord {
            pr_id: self.pr_id,
            forum_id: self.forum_id,
            thread_id: self.thread_id,
            triaged_by: self.triaged_by,
            review_days_total: self.review_days_total,
            review_days_passed: self.review_days_passed,
            review_days_next_micros: self.review_days_next_micros,
            pr_title: self.pr_title.clone(),
            pr_author: self.pr_author.clone(),
            pr_body: copy_text(&self.pr_body),
        }
    }
}

/// A column that may be empty, from a value that may be missing.
pub open spec fn column_of_opt(x: Option<u64>) -> Option<i64> {
    match x {
        Some(v) => Some(column_of(v)),
        None => None,
    }
}

/// A value that may be missing, from a column that may be empty.
pub open spec fn value_of_opt(c: Option<i64>) -> Option<u64> {
    match c {
        Some(v) => Some(value_of(v)),
        None => None,
    }
}

fn to_column_opt(x: Option<u64>) -> (r: Option<i64>)
    ensures
        r == column_of_opt(x),
{
    match x {
        Some(v) => Some(to_column(v)),
        None => None,
    }
}

fn from_column_opt(c: Option<i64>) -> (r: Option<u64>)
    ensures
        r == value_of_opt(c),
{
    match c {
        Some(v) => Some(from_column(v)),
        None => None,
    }
}

/// What a failed statement leaves of a result.
pub open spec fn stored_result(written: Result<(), DbError>) -> Result<(), HandledError> {
    match written {
        Ok(_) => Ok(()),
        Err(_) => Err(HandledError::InternalError),
    }
}

/// What the search for a message comes to: that there is none is no failure.
pub open spec fn found_result(message: Result<Option<MessageId>, DbError>) -> Result<
    Option<MessageId>,
    HandledError,
> {
    match message {
        Ok(x) => Ok(x),
        Err(DbError::RowNotFound) => Ok(None),
        Err(DbError::Other) => Err(HandledError::InternalError),
    }
}

/// What the search for votes comes to.
pub open spec fn votes_result(votes: Result<Vec<Vote>, DbError>) -> Result<Vec<Vote>, HandledError> {
    match votes {
        Ok(x) => Ok(x),
        Err(_) => Err(HandledError::InternalError),
    }
}

/// What a count comes to.
pub open spec fn count_result(count: Result<i64, DbError>) -> Result<i64, HandledError> {
    match count {
        Ok(x) => Ok(x),
        Err(_) => Err(HandledError::InternalError),
    }
}

fn stored(written: Result<(), DbError>) -> (r: Result<(), HandledError>)
    ensures
        r == stored_result(written),
{
    match written {
        Ok(_) => Ok(()),
        Err(_) => Err(HandledError::InternalError),
    }
}

fn found(message: Result<Option<MessageId>, DbError>) -> (r: Result<
    Option<MessageId>,
    HandledError,
>)
    ensures
        r == found_result(message),
{
    match message {
        Ok(x) => Ok(x),
        Err(DbError::RowNotFound) => Ok(None),
        Err(DbError::Other) => Err(HandledError::InternalError),
    }
}

fn votes(answer: Result<Vec<Vote>, DbError>) -> (r: Result<Vec<Vote>, HandledError>)
    ensures
        r == votes_result(answer),
{
    match answer {
        Ok(x) => Ok(x),
        Err(_) => Err(HandledError::InternalError),
    }
}

fn count(answer: Result<i64, DbError>) -> (r: Result<i64, HandledError>)
    ensures
        r == count_result(answer),
{
    match answer {
        Ok(x) => Ok(x),
        Err(_) => Err(HandledError::InternalError),
    }
}

/// The discussion that a row describes.
pub open spec fn record_of(row: DiscussionRow) -> DiscussionRecord {
    DiscussionRecord {
        pr_id: value_of(row.pr_id),
        forum_id: row.forum_id,
        thread_id: row.thread_id,
        triaged_by: row.triaged_by,
        review_days_total: value_of_opt(row.review_days_total),
        review_days_passed: value_of_opt(row.review_days_passed),
        review_days_next_micros: row.review_days_next_micros,
        pr_title: row.pr_title,
        pr_author: row.pr_author,
        pr_body: row.pr_body,
    }
}

/// The discussion that a row describes, but for who triaged it.
pub open spec fn untriaged_record_of(row: DiscussionRow) -> DiscussionRecord {
    DiscussionRecord { triaged_by: None, ..record_of(row) }
}

/// The discussion that a row describes.
pub fn to_record(row: DiscussionRow) -> (r: DiscussionRecord)
    ensures
        r == record_of(row),
{
    DiscussionRecord {
        pr_id: from_column(row.pr_id),
        forum_id: row.forum_id,
        thread_id: row.thread_id,
        triaged_by: row.triaged_by,
        review_days_total: from_column_opt(row.review_days_total),
        review_days_passed: from_column_opt(row.review_days_passed),
        review_days_next_micros: row.review_days_next_micros,
        pr_title: row.pr_title,
        pr_author: row.pr_author,
        pr_body: row.pr_body,
    }
}

/// What the search for the discussion of a pull request comes to.
pub open spec fn by_pr_result(row: Result<DiscussionRow, DbError>) -> Option<DiscussionRecord> {
    match row {
        Ok(x) => Some(untriaged_record_of(x)),
        Err(_) => None,
    }
}

/// What the search for the discussion held in a thread comes to.
pub open spec fn by_thread_result(row: Result<DiscussionRow, DbError>) -> Option<DiscussionRecord> {
    match row {
        Ok(x) => Some(record_of(x)),
        Err(_) => None,
    }
}

impl DiscussionRecord {
    /// While a reminder is due at some time, the days of the review are counted.
    pub open spec fn well_formed(self) -> bool {
        self.review_days_next_micros is Some ==> self.review_days_total is Some
            && self.review_days_passed is Some
    }

    /// Asks for all discussions.
    pub fn get_all_statement() -> (r: Statement)
        ensures
            r == Statement::SelectDiscussions,
    {
        Statement::SelectDiscussions
    }

    /// All discussions that the database found; none if it failed.
    pub fn get_all(rows: Result<Vec<DiscussionRow>, DbError>) -> (r: Vec<DiscussionRecord>)
        ensures
            r@ == match rows {
                Ok(x) => x@.map_values(|row: DiscussionRow| record_of(row)),
                Err(_) => Seq::<DiscussionRecord>::empty(),
            },
    {
        let mut out: Vec<DiscussionRecord> = Vec::new();
        if let Ok(found) = rows {
            let ghost all = found@;
            for row in it: found
                invariant
                    it.seq() == all,
                    out@ == all.take(it.index()).map_values(|row: DiscussionRow| record_of(row)),
            {
                out.push(to_record(row));
                assert(all.take(it.index() + 1) =~= all.take(it.index()).push(row));
                assert(out@ =~= all.take(it.index() + 1).map_values(
                    |row: DiscussionRow| record_of(row),
                ));
            }
            assert(all.take(all.len() as int) =~= all);
        }
        out
    }

    /// Asks for the discussion of a pull request.
    pub fn get_by_pr_statement(pr_id: u64) -> (r: Statement)
        ensures
            r == (Statement::SelectDiscussionByPr { pr_id: column_of(pr_id) }),
    {
        Statement::SelectDiscussionByPr { pr_id: to_column(pr_id) }
    }

    /// The discussion of a pull request, if the database found it. Who triaged it is left out.
    pub fn get_by_pr(row: Result<DiscussionRow, DbError>) -> (r: Option<DiscussionRecord>)
        ensures
            r == by_pr_result(row),
    {
        match row {
            Ok(x) => {
                let mut record = to_record(x);
                record.triaged_by = None;
                Some(record)
            },
            Err(_) => None,
        }
    }

    /// Asks for the discussion held in a thread.
    pub fn get_by_thread_statement(thread_id: ChannelId) -> (r: Statement)
        ensures
            r == (Statement::SelectDiscussionByThread { thread_id: column_of(thread_id@) }),
    {
        Statement::SelectDiscussionByThread { thread_id: thread_id.to_column() }
    }

    /// The discussion held in a thread, if the database found it.
    pub fn get_by_thread(row: Result<DiscussionRow, DbError>) -> (r: Option<DiscussionRecord>)
        ensures
            r == by_thread_result(row),
    {
        match row {
            Ok(x) => Some(to_record(x)),
            Err(_) => None,
        }
    }

    /// The statement that adds this discussion.
    pub open spec fn insertion(self) -> Statement {
        Statement::InsertDiscussion {
            pr_id: column_of(self.pr_id),
            forum_id: column_of(self.forum_id@),
            thread_id: column_of(self.thread_id@),
            review_days_total: column_of_opt(self.review_days_total),
            review_days_passed: column_of_opt(self.review_days_passed),
            review_days_next_micros: self.review_days_next_micros,
            pr_title: self.pr_title,
            pr_author: self.pr_author,
            pr_body: self.pr_body,
        }
    }

    /// Adds this discussion. Who triaged it is not written.
    pub fn insert_statement(self) -> (r: Statement)
        ensures
            r == self.insertion(),
    {
        Statement::InsertDiscussion {
            pr_id: to_column(self.pr_id),
            forum_id: self.forum_id.to_column(),
            thread_id: self.thread_id.to_column(),
            review_days_total: to_column_opt(self.review_days_total),
            review_days_passed: to_column_opt(self.review_days_passed),
            review_days_next_micros: self.review_days_next_micros,
            pr_title: self.pr_title,
            pr_author: self.pr_author,
            pr_body: self.pr_body,
        }
    }

    /// Whether the discussion was added.
    pub fn insert(written: Result<(), DbError>) -> (r: Result<(), HandledError>)
        ensures
            r == stored_result(written),
    {
        stored(written)
    }

    /// Moves the discussion to another thread.
    pub fn set_thread_id_statement(&self, new_thread: ChannelId) -> (r: Statement)
        ensures
            r == (Statement::UpdateThread {
                pr_id: column_of(self.pr_id),
                thread_id: column_of(new_thread@),
            }),
    {
        Statement::UpdateThread { pr_id: to_column(self.pr_id), thread_id: new_thread.to_column() }
    }

    /// Takes note of the new thread, once the database has.
    pub fn set_thread_id(&mut self, new_thread: ChannelId, written: Result<(), DbError>) -> (r:
        Result<(), HandledError>)
        ensures
            r == stored_result(written),
            *final(self) == if written is Ok {
                DiscussionRecord { thread_id: new_thread, ..*old(self) }
            } else {
                *old(self)
            },
    {
        match written {
            Ok(_) => {
                self.thread_id = new_thread;
                Ok(())
            },
            Err(_) => Err(HandledError::InternalError),
        }
    }

    /// Moves the discussion to another forum.
    pub fn set_forum_id_statement(&self, new_forum: ChannelId) -> (r: Statement)
        ensures
            r == (Statement::UpdateForum {
                pr_id: column_of(self.pr_id),
                forum_id: column_of(new_forum@),
            }),
    {
        Statement::UpdateForum { pr_id: to_column(self.pr_id), forum_id: new_forum.to_column() }
    }

    /// Takes note of the new forum, once the database has.
    pub fn set_forum_id(&mut self, new_forum: ChannelId, written: Result<(), DbError>) -> (r: Result<
        (),
        HandledError,
    >)
        ensures
            r == stored_result(written),
            *final(self) == if written is Ok {
                DiscussionRecord { forum_id: new_forum, ..*old(self) }
            } else {
                *old(self)
            },
    {
        match written {
            Ok(_) => {
                self.forum_id = new_forum;
                Ok(())
            },
            Err(_) => Err(HandledError::InternalError),
        }
    }

    /// Notes who triaged the discussion.
    pub fn set_triaged_by_statement(&self, triaged_by: UserId) -> (r: Statement)
        ensures
            r == (Statement::UpdateTriagedBy {
                pr_id: column_of(self.pr_id),
                triaged_by: column_of(triaged_by@),
            }),
    {
        Statement::UpdateTriagedBy {
            pr_id: to_column(self.pr_id),
            triaged_by: triaged_by.to_column(),
        }
    }

    /// Takes note of who triaged the discussion, once the database has.
    pub fn set_triaged_by(&mut self, triaged_by: UserId, written: Result<(), DbError>) -> (r: Result<
        (),
        HandledError,
    >)
        ensures
            r == stored_result(written),
            *final(self) == if written is Ok {
                DiscussionRecord { triaged_by: Some(triaged_by), ..*old(self) }
            } else {
                *old(self)
            },
    {
        match written {
            Ok(_) => {
                self.triaged_by = Some(triaged_by);
                Ok(())
            },
            Err(_) => Err(HandledError::InternalError),
        }
    }

    /// Removes the discussion.
    pub fn delete_statement(&self) -> (r: Statement)
        ensures
            r == (Statement::DeleteDiscussion { pr_id: column_of(self.pr_id) }),
    {
        Statement::DeleteDiscussion { pr_id: to_column(self.pr_id) }
    }

    /// Whether the discussion was removed.
    pub fn delete(written: Result<(), DbError>) -> (r: Result<(), HandledError>)
        ensures
            r == stored_result(written),
    {
        stored(written)
    }

    /// Forgets the description of the pull request.
    pub fn delete_body_statement(&self) -> (r: Statement)
        ensures
            r == (Statement::ClearBody { pr_id: column_of(self.pr_id) }),
    {
        Statement::ClearBody { pr_id: to_column(self.pr_id) }
    }

    /// Whether the description was forgotten.
    pub fn delete_body(written: Result<(), DbError>) -> (r: Result<(), HandledError>)
        ensures
            r == stored_result(written),
    {
        stored(written)
    }

    /// When the next reminder is due, seen from `now`: a day later.
    pub fn next_micros_after(now: i64) -> (r: Option<i64>)
        ensures
            r == days_after(now, 1),
    {
        add_days(now, 1)
    }

    /// When the next reminder is due, by the clock: a day from now. There is no such time only on
    /// the last day of the calendar.
    pub fn get_next_micros() -> (r: Option<i64>)
        ensures
            exists|now: i64| 0 <= now <= LAST_MICROS && r == #[trigger] days_after(now, 1),
    {
        let now: i64 = current_micros();
        Self::next_micros_after(now)
    }

    /// Starts the review clock.
    pub fn setup_review_time_statement(&self, days: u64, next_micros: i64) -> (r: Statement)
        ensures
            r == (Statement::UpdateReviewTime {
                pr_id: column_of(self.pr_id),
                total: column_of(days),
                passed: 0,
                next_micros,
            }),
    {
        Statement::UpdateReviewTime {
            pr_id: to_column(self.pr_id),
            total: to_column(days),
            passed: 0,
            next_micros,
        }
    }

    /// Takes note that the review clock was started, once the database has.
    pub fn setup_review_time(&mut self, days: u64, next_micros: i64, written: Result<(), DbError>)
        -> (r: Result<(), HandledError>)
        ensures
            r == stored_result(written),
            *final(self) == if written is Ok {
                DiscussionRecord {
                    review_days_total: Some(days),
                    review_days_passed: Some(0),
                    review_days_next_micros: Some(next_micros),
                    ..*old(self)
                }
            } else {
                *old(self)
            },
            old(self).well_formed() ==> final(self).well_formed(),
    {
        match written {
            Ok(_) => {
                self.review_days_total = Some(days);
                self.review_days_passed = Some(0);
                self.review_days_next_micros = Some(next_micros);
                Ok(())
            },
            Err(_) => Err(HandledError::InternalError),
        }
    }

    /// How many days will have passed when the review clock moves on.
    pub open spec fn days_passed_next(self) -> int {
        match self.review_days_passed {
            Some(passed) => passed + 1,
            None => 1,
        }
    }

    /// Moves the review clock on by a day.
    pub fn advance_review_timer_statement(&self, next_micros: i64) -> (r: Statement)
        requires
            self.days_passed_next() <= u64::MAX,
        ensures
            r == (Statement::UpdateReviewTimer {
                pr_id: column_of(self.pr_id),
                passed: column_of(self.days_passed_next() as u64),
                next_micros,
            }),
    {
        let passed: u64 = self.review_days_passed.unwrap_or(0) + 1;
        Statement::UpdateReviewTimer {
            pr_id: to_column(self.pr_id),
            passed: to_column(passed),
            next_micros,
        }
    }

    /// Takes note that the review clock moved on, once the database has.
    pub fn advance_review_timer(&mut self, next_micros: i64, written: Result<(), DbError>) -> (r:
        Result<(), HandledError>)
        requires
            old(self).days_passed_next() <= u64::MAX,
        ensures
            r == stored_result(written),
            *final(self) == if written is Ok {
                DiscussionRecord {
                    review_days_passed: Some(old(self).days_passed_next() as u64),
                    review_days_next_micros: Some(next_micros),
                    ..*old(self)
                }
            } else {
                *old(self)
            },
            old(self).well_formed() && old(self).review_days_next_micros is Some
                ==> final(self).well_formed(),
    {
        let passed: u64 = self.review_days_passed.unwrap_or(0) + 1;
        match written {
            Ok(_) => {
                self.review_days_passed = Some(passed);
                self.review_days_next_micros = Some(next_micros);
                Ok(())
            },
            Err(_) => Err(HandledError::InternalError),
        }
    }

    /// What stopping the reminders comes to: whether there were any.
    pub open spec fn mute_result(self, written: Result<(), DbError>) -> Result<bool, HandledError> {
        if self.review_days_next_micros is None {
            Ok(false)
        } else if written is Ok {
            Ok(true)
        } else {
            Err(HandledError::InternalError)
        }
    }

    /// The discussion once its reminders are stopped; as it was, where the database did not take
    /// it.
    pub open spec fn muted(self, written: Result<(), DbError>) -> DiscussionRecord {
        if self.mute_result(written) is Ok {
            DiscussionRecord { review_days_next_micros: None, ..self }
        } else {
            self
        }
    }

    /// Stops the reminders, if there are any to stop.
    pub fn disable_reminders_statement(&self) -> (r: Option<Statement>)
        ensures
            r == if self.review_days_next_micros is None {
                None::<Statement>
            } else {
                Some(Statement::ClearNextReminder { pr_id: column_of(self.pr_id) })
            },
    {
        if self.review_days_next_micros.is_none() {
            None
        } else {
            Some(Statement::ClearNextReminder { pr_id: to_column(self.pr_id) })
        }
    }

    /// Takes note that the reminders were stopped, once the database has. Tells whether there
    /// were any.
    pub fn disable_reminders(&mut self, written: Result<(), DbError>) -> (r: Result<
        bool,
        HandledError,
    >)
        ensures
            r == old(self).mute_result(written),
            *final(self) == old(self).muted(written),
            old(self).well_formed() ==> final(self).well_formed(),
    {
        if self.review_days_next_micros.is_none() {
            return Ok(false);
        }
        match written {
            Ok(_) => {
                self.review_days_next_micros = None;
                Ok(true)
            },
            Err(_) => Err(HandledError::InternalError),
        }
    }

    /// Asks for the issues raised in the discussion.
    pub open spec fn get_raised_issues_query(self) -> Statement {
        Statement::SelectIssues { pr_id: column_of(self.pr_id) }
    }

    /// Asks for the issues raised in the discussion.
    pub fn get_raised_issues_statement(&self) -> (r: Statement)
        ensures
            r == self.get_raised_issues_query(),
    {
        Statement::SelectIssues { pr_id: to_column(self.pr_id) }
    }

    /// The issues that the database found.
    pub fn get_raised_issues(answer: Result<Vec<Vote>, DbError>) -> (r: Result<
        Vec<Vote>,
        HandledError,
    >)
        ensures
            r == votes_result(answer),
    {
        votes(answer)
    }

    /// Asks how many issues are raised in the discussion.
    pub open spec fn count_raised_issues_query(self) -> Statement {
        Statement::CountIssues { pr_id: column_of(self.pr_id) }
    }

    /// Asks how many issues are raised in the discussion.
    pub fn count_raised_issues_statement(&self) -> (r: Statement)
        ensures
            r == self.count_raised_issues_query(),
    {
        Statement::CountIssues { pr_id: to_column(self.pr_id) }
    }

    /// The number of issues.
    pub fn count_raised_issues(answer: Result<i64, DbError>) -> (r: Result<i64, HandledError>)
        ensures
            r == count_result(answer),
    {
        count(answer)
    }

    /// Asks how many votes to override there are in the discussion.
    pub open spec fn count_overrides_query(self) -> Statement {
        Statement::CountOverrides { pr_id: column_of(self.pr_id) }
    }

    /// Asks how many votes to override there are in the discussion.
    pub fn count_overrides_statement(&self) -> (r: Statement)
        ensures
            r == self.count_overrides_query(),
    {
        Statement::CountOverrides { pr_id: to_column(self.pr_id) }
    }

    /// The number of votes.
    pub fn count_overrides(answer: Result<i64, DbError>) -> (r: Result<i64, HandledError>)
        ensures
            r == count_result(answer),
    {
        count(answer)
    }

    /// Records the issue of a user.
    pub open spec fn upsert_issue_query(self, author: UserId, message: MessageId) -> Statement {
        Statement::UpsertIssue {
            pr_id: column_of(self.pr_id),
            user_id: column_of(author@),
            message_id: column_of(message@),
        }
    }

    /// Records the issue of a user.
    pub fn upsert_issue_statement(&self, author: UserId, message: MessageId) -> (r: Statement)
        ensures
            r == self.upsert_issue_query(author, message),
    {
        Statement::UpsertIssue {
            pr_id: to_column(self.pr_id),
            user_id: author.to_column(),
            message_id: message.to_column(),
        }
    }

    /// Whether the issue was recorded.
    pub fn upsert_issue(written: Result<(), DbError>) -> (r: Result<(), HandledError>)
        ensures
            r == stored_result(written),
    {
        stored(written)
    }

    /// Records the vote of a user.
    pub open spec fn upsert_issue_override_query(
        self,
        override_author: UserId,
        override_message: MessageId,
    ) -> Statement {
        Statement::UpsertOverride {
            pr_id: column_of(self.pr_id),
            user_id: column_of(override_author@),
            message_id: column_of(override_message@),
        }
    }

    /// Records the vote of a user.
    pub fn upsert_issue_override_statement(
        &self,
        override_author: UserId,
        override_message: MessageId,
    ) -> (r: Statement)
        ensures
            r == self.upsert_issue_override_query(override_author, override_message),
    {
        Statement::UpsertOverride {
            pr_id: to_column(self.pr_id),
            user_id: override_author.to_column(),
            message_id: override_message.to_column(),
        }
    }

    /// Whether the vote was recorded.
    pub fn upsert_issue_override(written: Result<(), DbError>) -> (r: Result<(), HandledError>)
        ensures
            r == stored_result(written),
    {
        stored(written)
    }

    /// Removes all votes of the discussion.
    pub open spec fn clear_issue_overrides_query(self) -> Statement {
        Statement::DeleteOverrides { pr_id: column_of(self.pr_id) }
    }

    /// Removes all votes of the discussion.
    pub fn clear_issue_overrides_statement(&self) -> (r: Statement)
        ensures
            r == self.clear_issue_overrides_query(),
    {
        Statement::DeleteOverrides { pr_id: to_column(self.pr_id) }
    }

    /// The votes that were removed.
    pub fn clear_issue_overrides(answer: Result<Vec<Vote>, DbError>) -> (r: Result<
        Vec<Vote>,
        HandledError,
    >)
        ensures
            r == votes_result(answer),
    {
        votes(answer)
    }

    /// Asks for the votes of the discussion.
    pub open spec fn get_issue_overrides_query(self) -> Statement {
        Statement::SelectOverrides { pr_id: column_of(self.pr_id) }
    }

    /// Asks for the votes of the discussion.
    pub fn get_issue_overrides_statement(&self) -> (r: Statement)
        ensures
            r == self.get_issue_overrides_query(),
    {
        Statement::SelectOverrides { pr_id: to_column(self.pr_id) }
    }

    /// The votes that the database found.
    pub fn get_issue_overrides(answer: Result<Vec<Vote>, DbError>) -> (r: Result<
        Vec<Vote>,
        HandledError,
    >)
        ensures
            r == votes_result(answer),
    {
        votes(answer)
    }

    /// Asks for the vote of a user.
    pub open spec fn get_override_by_author_query(self, author: UserId) -> Statement {
        Statement::SelectOverrideByAuthor {
            pr_id: column_of(self.pr_id),
            user_id: column_of(author@),
        }
    }

    /// Asks for the vote of a user.
    pub fn get_override_by_author_statement(&self, author: UserId) -> (r: Statement)
        ensures
            r == self.get_override_by_author_query(author),
    {
        Statement::SelectOverrideByAuthor {
            pr_id: to_column(self.pr_id),
            user_id: author.to_column(),
        }
    }

    /// The message of the user's vote, if there is one.
    pub fn get_override_by_author(message: Result<Option<MessageId>, DbError>) -> (r: Result<
        Option<MessageId>,
        HandledError,
    >)
        ensures
            r == found_result(message),
    {
        found(message)
    }

    /// Asks for the issue of a user.
    pub open spec fn get_issue_by_author_query(self, issue_author: UserId) -> Statement {
        Statement::SelectIssueByAuthor {
            pr_id: column_of(self.pr_id),
            user_id: column_of(issue_author@),
        }
    }

    /// Asks for the issue of a user.
    pub fn get_issue_by_author_statement(&self, issue_author: UserId) -> (r: Statement)
        ensures
            r == self.get_issue_by_author_query(issue_author),
    {
        Statement::SelectIssueByAuthor {
            pr_id: to_column(self.pr_id),
            user_id: issue_author.to_column(),
        }
    }

    /// The message of the user's issue, if there is one.
    pub fn get_issue_by_author(message: Result<Option<MessageId>, DbError>) -> (r: Result<
        Option<MessageId>,
        HandledError,
    >)
        ensures
            r == found_result(message),
    {
        found(message)
    }

    /// Removes the issue of a user.
    pub open spec fn delete_issue_by_author_query(self, issue_author: UserId) -> Statement {
        Statement::DeleteIssueByAuthor {
            pr_id: column_of(self.pr_id),
            user_id: column_of(issue_author@),
        }
    }

    /// Removes the issue of a user.
    pub fn delete_issue_by_author_statement(&self, issue_author: UserId) -> (r: Statement)
        ensures
            r == self.delete_issue_by_author_query(issue_author),
    {
        Statement::DeleteIssueByAuthor {
            pr_id: to_column(self.pr_id),
            user_id: issue_author.to_column(),
        }
    }

    /// The message of the removed issue, if there was one.
    pub fn delete_issue_by_author(message: Result<Option<MessageId>, DbError>) -> (r: Result<
        Option<MessageId>,
        HandledError,
    >)
        ensures
            r == found_result(message),
    {
        found(message)
    }

    /// Removes the vote of a user.
    pub open spec fn delete_override_by_author_query(self, override_author: UserId) -> Statement {
        Statement::DeleteOverrideByAuthor {
            pr_id: column_of(self.pr_id),
            user_id: column_of(override_author@),
        }
    }

    /// Removes the vote of a user.
    pub fn delete_override_by_author_statement(&self, override_author: UserId) -> (r: Statement)
        ensures
            r == self.delete_override_by_author_query(override_author),
    {
        Statement::DeleteOverrideByAuthor {
            pr_id: to_column(self.pr_id),
            user_id: override_author.to_column(),
        }
    }

    /// The message of the removed vote, if there was one.
    pub fn delete_override_by_author(message: Result<Option<MessageId>, DbError>) -> (r: Result<
        Option<MessageId>,
        HandledError,
    >)
        ensures
            r == found_result(message),
    {
        found(message)
    }

    /// Asks for the vote of a user against the issue of an author.
    pub open spec fn get_issue_override_query(self, issue_author: UserId, author: UserId) -> Statement {
        Statement::SelectIssueOverride {
            pr_id: column_of(self.pr_id),
            issue_author: column_of(issue_author@),
            user_id: column_of(author@),
        }
    }

    /// Asks for the vote of a user against the issue of an author.
    pub fn get_issue_override_statement(&self, issue_author: UserId, author: UserId) -> (r: Statement)
        ensures
            r == self.get_issue_override_query(issue_author, author),
    {
        Statement::SelectIssueOverride {
            pr_id: to_column(self.pr_id),
            issue_author: issue_author.to_column(),
            user_id: author.to_column(),
        }
    }

    /// Asks for the votes against the issue of an author.
    pub open spec fn get_overrides_of_query(self, issue_author: UserId) -> Statement {
        Statement::SelectIssueOverrides {
            pr_id: column_of(self.pr_id),
            issue_author: column_of(issue_author@),
        }
    }

    /// Asks for the votes against the issue of an author.
    pub fn get_overrides_of_statement(&self, issue_author: UserId) -> (r: Statement)
        ensures
            r == self.get_overrides_of_query(issue_author),
    {
        Statement::SelectIssueOverrides {
            pr_id: to_column(self.pr_id),
            issue_author: issue_author.to_column(),
        }
    }

    /// Records the vote of a user against the issue of an author.
    pub open spec fn upsert_override_of_query(
        self,
        issue_author: UserId,
        author: UserId,
        message: MessageId,
    ) -> Statement {
        Statement::UpsertIssueOverride {
            pr_id: column_of(self.pr_id),
            issue_author: column_of(issue_author@),
            user_id: column_of(author@),
            message_id: column_of(message@),
        }
    }

    /// Records the vote of a user against the issue of an author.
    pub fn upsert_override_of_statement(
        &self,
        issue_author: UserId,
        author: UserId,
        message: MessageId,
    ) -> (r: Statement)
        ensures
            r == self.upsert_override_of_query(issue_author, author, message),
    {
        Statement::UpsertIssueOverride {
            pr_id: to_column(self.pr_id),
            issue_author: issue_author.to_column(),
            user_id: author.to_column(),
            message_id: message.to_column(),
        }
    }
}

/// Stopping the reminders again finds that there are none, and changes nothing, whatever the
/// database would say.
pub proof fn law_reminders_stop_once(
    record: DiscussionRecord,
    first: Result<(), DbError>,
    second: Result<(), DbError>,
)
    requires
        record.mute_result(first) is Ok,
    ensures
        record.muted(first).mute_result(second) == Ok::<bool, HandledError>(false),
        record.muted(first).muted(second) == record.muted(first),
{
}

/// The channel with a given number.
pub open spec fn channel_numbered(n: u64) -> ChannelId {
    choose|c: ChannelId| c@ == n
}

/// The user with a given number.
pub open spec fn user_numbered(n: u64) -> UserId {
    choose|u: UserId| u@ == n
}

/// What a statement makes of the row of a discussion: those that are about its pull request set
/// the columns that they name.
pub open spec fn row_after(row: DiscussionRow, statement: Statement) -> DiscussionRow {
    match statement {
        Statement::UpdateThread { pr_id, thread_id } if pr_id == row.pr_id => DiscussionRow {
            thread_id: channel_numbered(value_of(thread_id)),
            ..row
        },
        Statement::UpdateForum { pr_id, forum_id } if pr_id == row.pr_id => DiscussionRow {
            forum_id: channel_numbered(value_of(forum_id)),
            ..row
        },
        Statement::UpdateTriagedBy { pr_id, triaged_by } if pr_id == row.pr_id => DiscussionRow {
            triaged_by: Some(user_numbered(value_of(triaged_by))),
            ..row
        },
        Statement::UpdateReviewTime { pr_id, total, passed, next_micros } if pr_id
            == row.pr_id => DiscussionRow {
            review_days_total: Some(total),
            review_days_passed: Some(passed),
            review_days_next_micros: Some(next_micros),
            ..row
        },
        Statement::UpdateReviewTimer { pr_id, passed, next_micros } if pr_id
            == row.pr_id => DiscussionRow {
            review_days_passed: Some(passed),
            review_days_next_micros: Some(next_micros),
            ..row
        },
        Statement::ClearNextReminder { pr_id } if pr_id == row.pr_id => DiscussionRow {
            review_days_next_micros: None,
            ..row
        },
        Statement::ClearBody { pr_id } if pr_id == row.pr_id => DiscussionRow {
            pr_body: None,
            ..row
        },
        _ => row,
    }
}

proof fn lemma_numbered(c: ChannelId, u: UserId)
    ensures
        channel_numbered(value_of(column_of(c@))) == c,
        user_numbered(value_of(column_of(u@))) == u,
{
    crate::discord::ids::law_column_round_trip(c@);
    crate::discord::ids::law_column_round_trip(u@);
    ChannelId::law_same_number(channel_numbered(c@), c);
    UserId::law_same_number(user_numbered(u@), u);
}

/// A discussion and its row stay in step: when the row reads as the discussion, then it still does
/// after the discussion was moved to a thread or a forum, after it was noted who triaged it, and
/// after its review clock was started, moved on or stopped. Once the description is forgotten, the
/// row reads as the discussion without one.
pub proof fn law_rows_follow_discussions(
    row: DiscussionRow,
    record: DiscussionRecord,
    channel: ChannelId,
    user: UserId,
    days: u64,
    next_micros: i64,
)
    requires
        record_of(row) == record,
    ensures
        ({
            let pr_id = column_of(record.pr_id);
            &&& record_of(
                row_after(row, Statement::UpdateThread { pr_id, thread_id: column_of(channel@) }),
            ) == (DiscussionRecord { thread_id: channel, ..record })
            &&& record_of(
                row_after(row, Statement::UpdateForum { pr_id, forum_id: column_of(channel@) }),
            ) == (DiscussionRecord { forum_id: channel, ..record })
            &&& record_of(
                row_after(
                    row,
                    Statement::UpdateTriagedBy { pr_id, triaged_by: column_of(user@) },
                ),
            ) == (DiscussionRecord { triaged_by: Some(user), ..record })
            &&& record_of(
                row_after(
                    row,
                    Statement::UpdateReviewTime {
                        pr_id,
                        total: column_of(days),
                        passed: 0,
                        next_micros,
                    },
                ),
            ) == (DiscussionRecord {
                review_days_total: Some(days),
                review_days_passed: Some(0),
                review_days_next_micros: Some(next_micros),
                ..record
            })
            &&& record_of(
                row_after(
                    row,
                    Statement::UpdateReviewTimer { pr_id, passed: column_of(days), next_micros },
                ),
            ) == (DiscussionRecord {
                review_days_passed: Some(days),
                review_days_next_micros: Some(next_micros),
                ..record
            })
            &&& record_of(row_after(row, Statement::ClearNextReminder { pr_id })) == (
            DiscussionRecord { review_days_next_micros: None, ..record })
            &&& record_of(row_after(row, Statement::ClearBody { pr_id })) == (DiscussionRecord {
                pr_body: None,
                ..record
            })
        }),
{
    crate::discord::ids::law_value_round_trip(row.pr_id);
    crate::discord::ids::law_column_round_trip(days);
    crate::discord::ids::law_column_round_trip(0);
    lemma_numbered(channel, user);
    assert(column_of(0) == 0) by (bit_vector);
}

/// A statement about one pull request leaves the row of every other as it is.
pub proof fn law_other_rows_stay(row: DiscussionRow, pr_id: u64, statement: Statement)
    requires
        record_of(row).pr_id != pr_id,
        match statement {
            Statement::UpdateThread { pr_id: p, .. } => p == column_of(pr_id),
            Statement::UpdateForum { pr_id: p, .. } => p == column_of(pr_id),
            Statement::UpdateTriagedBy { pr_id: p, .. } => p == column_of(pr_id),
            Statement::UpdateReviewTime { pr_id: p, .. } => p == column_of(pr_id),
            Statement::UpdateReviewTimer { pr_id: p, .. } => p == column_of(pr_id),
            Statement::ClearNextReminder { pr_id: p } => p == column_of(pr_id),
            Statement::ClearBody { pr_id: p } => p == column_of(pr_id),
            _ => true,
        },
    ensures
        row_after(row, statement) == row,
{
    crate::discord::ids::law_column_round_trip(pr_id);
}

/// The row that the database keeps of a discussion that was added to it.
pub open spec fn row_kept(record: DiscussionRecord, row: DiscussionRow) -> bool {
    match record.insertion() {
        Statement::InsertDiscussion {
            pr_id,
            forum_id,
            thread_id,
            review_days_total,
            review_days_passed,
            review_days_next_micros,
            pr_title,
            pr_author,
            pr_body,
        } => {
            &&& row.pr_id == pr_id
            &&& row.forum_id@ == value_of(forum_id)
            &&& row.thread_id@ == value_of(thread_id)
            &&& row.triaged_by is None
            &&& row.review_days_total == review_days_total
            &&& row.review_days_passed == review_days_passed
            &&& row.review_days_next_micros == review_days_next_micros
            &&& row.pr_title == pr_title
            &&& row.pr_author == pr_author
            &&& row.pr_body == pr_body
        },
        _ => false,
    }
}

/// A discussion reads back from the row that was kept of it as it was added, but for who triaged
/// it, which adding does not write.
pub proof fn law_inserted_record_reads_back(record: DiscussionRecord, row: DiscussionRow)
    requires
        row_kept(record, row),
    ensures
        by_thread_result(Ok(row)) == Some(DiscussionRecord { triaged_by: None, ..record }),
        by_pr_result(Ok(row)) == Some(DiscussionRecord { triaged_by: None, ..record }),
{
    crate::discord::ids::law_column_round_trip(record.pr_id);
    crate::discord::ids::law_column_round_trip(record.forum_id@);
    crate::discord::ids::law_column_round_trip(record.thread_id@);
    if record.review_days_total is Some {
        crate::discord::ids::law_column_round_trip(record.review_days_total->0);
    }
    if record.review_days_passed is Some {
        crate::discord::ids::law_column_round_trip(record.review_days_passed->0);
    }
    ChannelId::law_same_number(row.forum_id, record.forum_id);
    ChannelId::law_same_number(row.thread_id, record.thread_id);
}

/// What a statement makes of the row that is kept under a pull request, if one is. Adding keeps a
/// row where there was none and fails where there is one, since a pull request has one row at the
/// most; deleting leaves none; every other statement works on a row that is there.
pub open spec fn kept_after(
    kept: Option<DiscussionRow>,
    pr: i64,
    statement: Statement,
) -> Option<DiscussionRow> {
    match statement {
        Statement::InsertDiscussion {
            pr_id,
            forum_id,
            thread_id,
            review_days_total,
            review_days_passed,
            review_days_next_micros,
            pr_title,
            pr_author,
            pr_body,
        } if pr_id == pr && kept is None => Some(
            DiscussionRow {
                pr_id,
                forum_id: channel_numbered(value_of(forum_id)),
                thread_id: channel_numbered(value_of(thread_id)),
                triaged_by: None,
                review_days_total,
                review_days_passed,
                review_days_next_micros,
                pr_title,
                pr_author,
                pr_body,
            },
        ),
        Statement::DeleteDiscussion { pr_id } if pr_id == pr => None,
        _ => match kept {
            Some(row) => Some(row_after(row, statement)),
            None => None,
        },
    }
}

/// What the database answers when it is asked for the one row that may be kept.
pub open spec fn looked_up(kept: Option<DiscussionRow>) -> Result<DiscussionRow, DbError> {
    match kept {
        Some(row) => Ok(row),
        None => Err(DbError::RowNotFound),
    }
}

/// Once a discussion is deleted, looking it up by its pull request or by its thread finds nothing;
/// the row of every other pull request is kept as it was.
pub proof fn law_deleted_discussion_is_gone(
    record: DiscussionRecord,
    kept: Option<DiscussionRow>,
    other: u64,
    kept_other: Option<DiscussionRow>,
)
    requires
        other != record.pr_id,
    ensures
        ({
            let deletion = Statement::DeleteDiscussion { pr_id: column_of(record.pr_id) };
            let after = kept_after(kept, column_of(record.pr_id), deletion);
            &&& after is None
            &&& by_pr_result(looked_up(after)) is None
            &&& by_thread_result(looked_up(after)) is None
            &&& kept_after(kept_other, column_of(other), deletion) == kept_other
        }),
{
    crate::discord::ids::law_column_round_trip(record.pr_id);
    crate::discord::ids::law_column_round_trip(other);
}

/// A discussion that is added where none was kept is found, but for who triaged it, which adding
/// does not write; one that was kept already stays, and so does the row of every other pull
/// request.
pub proof fn law_added_discussion_is_found(
    record: DiscussionRecord,
    kept: Option<DiscussionRow>,
    other: u64,
    kept_other: Option<DiscussionRow>,
)
    requires
        other != record.pr_id,
    ensures
        ({
            let after = kept_after(kept, column_of(record.pr_id), record.insertion());
            &&& kept is None ==> by_pr_result(looked_up(after)) == Some(
                DiscussionRecord { triaged_by: None, ..record },
            )
            &&& kept is None ==> by_thread_result(looked_up(after)) == Some(
                DiscussionRecord { triaged_by: None, ..record },
            )
            &&& kept is Some ==> after == kept
            &&& kept_after(kept_other, column_of(other), record.insertion()) == kept_other
        }),
{
    crate::discord::ids::law_column_round_trip(record.pr_id);
    crate::discord::ids::law_column_round_trip(other);
    crate::discord::ids::law_column_round_trip(record.forum_id@);
    crate::discord::ids::law_column_round_trip(record.thread_id@);
    ChannelId::law_same_number(channel_numbered(record.forum_id@), record.forum_id);
    ChannelId::law_same_number(channel_numbered(record.thread_id@), record.thread_id);
    if kept is None {
        let row = kept_after(kept, column_of(record.pr_id), record.insertion())->0;
        assert(row_kept(record, row));
        law_inserted_record_reads_back(record, row);
    }
}

/// Stopping reminders stops them and changes nothing else, where the database takes it; where it does
/// not, everything stays and it is told. Where there are none, nothing is to be done.
pub proof fn law_reminders_are_stopped(record: DiscussionRecord, written: Result<(), DbError>)
    ensures
        record.review_days_next_micros is None ==> record.mute_result(written) == Ok::<
            bool,
            HandledError,
        >(false) && record.muted(written) == record,
        record.review_days_next_micros is Some && written is Ok ==> record.mute_result(written)
            == Ok::<bool, HandledError>(true) && record.muted(written) == (DiscussionRecord {
            review_days_next_micros: None,
            ..record
        }),
        record.review_days_next_micros is Some && written is Err ==> record.mute_result(written)
            is Err && record.muted(written) == record,
{
}

/// A discussion is read from its row as it stands there; by its pull request it is read without the
/// one who triaged it. What is missing, or cannot be read, is not there.
pub proof fn law_discussion_is_as_its_row(row: DiscussionRow, error: DbError)
    ensures
        by_thread_result(Ok(row)) == Some(
            DiscussionRecord {
                pr_id: value_of(row.pr_id),
                forum_id: row.forum_id,
                thread_id: row.thread_id,
                triaged_by: row.triaged_by,
                review_days_total: match row.review_days_total {
                    Some(n) => Some(value_of(n)),
                    None => None,
                },
                review_days_passed: match row.review_days_passed {
                    Some(n) => Some(value_of(n)),
                    None => None,
                },
                review_days_next_micros: row.review_days_next_micros,
                pr_title: row.pr_title,
                pr_author: row.pr_author,
                pr_body: row.pr_body,
            },
        ),
        by_pr_result(Ok(row)) is Some,
        by_pr_result(Ok(row)) == Some(
            DiscussionRecord { triaged_by: None, ..by_thread_result(Ok(row))->0 },
        ),
        by_thread_result(Err(error)) is None,
        by_pr_result(Err(error)) is None,
{
}

} // verus!
