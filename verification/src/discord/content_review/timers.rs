//! The clock of the reviews.

use vstd::prelude::*;

use crate::clock::{days_after, LAST_MICROS};
use crate::discord::action::{
    action_on, after, did, lemma_answered, lemma_did, was_answered, Action, Answer, Flow, Run,
};
use crate::discord::content_review::data::discussions::{
    count_result, record_of, to_record, value_of_opt, DiscussionRecord,
};
use crate::discord::content_review::notices::Notice;
use crate::discord::error::DbError;
use crate::discord::ids::{column_of, law_value_round_trip, value_of, RoleId};
use crate::discord::store::{DiscussionRow, Statement};

verus! {

/// How many seconds pass between two looks at the clock.
pub const TIMER_PERIOD_SECS: u64 = 10;

/// What is relied upon when a reminder is sent.
pub const DAYS_ARE_COUNTED: &'static str = "If micros were set, this should be too";

/// The endless round through all discussions.
#[derive(Debug)]
pub struct Timers {
    /// The discussions of this round.
    pub rows: Vec<DiscussionRow>,
    /// The place of the discussion that is being looked at.
    pub at: usize,
    pub stage: TimerStage,
}

/// How far the round has got.
#[derive(Debug)]
pub enum TimerStage {
    New,
    Listing,
    /// Whether a reminder is due is being found out.
    Due,
    /// When the next reminder will be due is being found out.
    AdvanceClock,
    Advancing { next_micros: i64 },
    Ping { discussion: DiscussionRecord },
    Reminding { discussion: DiscussionRecord },
    CountingIssues { discussion: DiscussionRecord },
    CountingOverrides { discussion: DiscussionRecord, issues: Option<i64> },
    Summing,
    Sleeping,
    Over,
}

/// The first place, from a given one on, of a discussion that has a reminder to come.
pub open spec fn next_timed(rows: Seq<DiscussionRow>, at: int) -> int
    decreases rows.len() - at,
{
    if at >= rows.len() || at < 0 {
        at
    } else if rows[at].review_days_next_micros is Some {
        at
    } else {
        next_timed(rows, at + 1)
    }
}

proof fn lemma_next_timed(rows: Seq<DiscussionRow>, at: int, i: int)
    requires
        0 <= at <= i <= rows.len(),
        forall|k: int| at <= k < i ==> (#[trigger] rows[k]).review_days_next_micros is None,
        i < rows.len() ==> rows[i].review_days_next_micros is Some,
    ensures
        next_timed(rows, at) == i,
    decreases i - at,
{
    if at < i {
        assert(rows[at].review_days_next_micros is None);
        lemma_next_timed(rows, at + 1, i);
    }
}

proof fn lemma_next_timed_fits(rows: Seq<DiscussionRow>, at: int)
    requires
        0 <= at <= rows.len(),
    ensures
        at <= next_timed(rows, at) <= rows.len(),
        next_timed(rows, at) < rows.len() ==> rows[next_timed(rows, at)].review_days_next_micros
            is Some,
    decreases rows.len() - at,
{
    if at < rows.len() && rows[at].review_days_next_micros is None {
        lemma_next_timed_fits(rows, at + 1);
    }
}

/// What a count comes to, if it did not fail.
pub open spec fn counted(count: Result<i64, DbError>) -> Option<i64> {
    match count_result(count) {
        Ok(n) => Some(n),
        Err(_) => None,
    }
}

impl Timers {
    /// The round at another stage.
    pub open spec fn to(self, stage: TimerStage) -> Timers {
        Timers { stage, ..self }
    }

    /// The discussion that is being looked at, as it was listed.
    pub open spec fn current(self) -> DiscussionRecord {
        record_of(self.rows@[self.at as int])
    }

    /// Turns to the first discussion, from a given place on, that has a reminder to come; where
    /// there is none, waits for the next round.
    pub open spec fn turn_to(self, at: int) -> (Timers, Action) {
        let i = next_timed(self.rows@, at);
        if i < self.rows@.len() {
            (Timers { rows: self.rows, at: i as usize, stage: TimerStage::Due }, Action::ReadClock)
        } else {
            (self.to(TimerStage::Sleeping), Action::Sleep(TIMER_PERIOD_SECS))
        }
    }

    /// Waits for the next round.
    pub open spec fn rest(self) -> (Timers, Action) {
        (self.to(TimerStage::Sleeping), Action::Sleep(TIMER_PERIOD_SECS))
    }

    /// Cannot go on.
    pub open spec fn fault(self, reason: &'static str) -> (Timers, Action) {
        (self.to(TimerStage::Over), Action::Fault(reason))
    }
}

impl Flow for Timers {
    open spec fn next(self, answer: Answer) -> (Self, Action) {
        match (self.stage, answer) {
            (TimerStage::New, Answer::Start) => (
                self.to(TimerStage::Listing),
                Action::Database(Statement::SelectDiscussions),
            ),
            (TimerStage::Listing, Answer::Discussions(Ok(rows))) => (Timers {
                rows,
                at: 0,
                stage: TimerStage::Listing,
            }).turn_to(0),
            (TimerStage::Over, _) => (self, Action::Finish),
            (TimerStage::Sleeping, _) => (
                self.to(TimerStage::Listing),
                Action::Database(Statement::SelectDiscussions),
            ),
            _ => if self.at >= self.rows@.len() {
                self.rest()
            } else {
                self.tend(answer)
            },
        }
    }
}

impl Timers {
    /// Goes on with the discussion that is being looked at.
    pub open spec fn tend(self, answer: Answer) -> (Timers, Action) {
        match (self.stage, answer) {
            (TimerStage::Due, Answer::Now(now)) => match self.current().review_days_next_micros {
                Some(next) => if next > now {
                    self.turn_to(self.at + 1)
                } else {
                    (self.to(TimerStage::AdvanceClock), Action::ReadClock)
                },
                None => self.turn_to(self.at + 1),
            },
            (
                TimerStage::AdvanceClock,
                Answer::Now(now),
            ) => if self.current().days_passed_next() > u64::MAX {
                self.fault("The days of the review cannot be counted any further.")
            } else {
                match days_after(now, 1) {
                    Some(next_micros) => (
                        self.to(TimerStage::Advancing { next_micros }),
                        Action::Database(
                            Statement::UpdateReviewTimer {
                                pr_id: column_of(self.current().pr_id),
                                passed: column_of(self.current().days_passed_next() as u64),
                                next_micros,
                            },
                        ),
                    ),
                    None => self.fault("The calendar has no next day."),
                }
            },
            (
                TimerStage::Advancing { next_micros },
                Answer::Written(written),
            ) => if self.current().days_passed_next() > u64::MAX {
                self.fault("The days of the review cannot be counted any further.")
            } else if written is Err {
                self.turn_to(self.at + 1)
            } else {
                (
                    self.to(
                        TimerStage::Ping {
                            discussion: DiscussionRecord {
                                review_days_passed: Some(self.current().days_passed_next() as u64),
                                review_days_next_micros: Some(next_micros),
                                ..self.current()
                            },
                        },
                    ),
                    Action::ReadPingRole,
                )
            },
            (
                TimerStage::Ping { discussion },
                Answer::PingRoleIs(ping),
            ) => match discussion.review_days_passed {
                None => self.fault(DAYS_ARE_COUNTED),
                Some(passed) => match discussion.review_days_total {
                    None => self.fault(DAYS_ARE_COUNTED),
                    Some(total) => (
                        self.to(TimerStage::Reminding { discussion }),
                        Action::SendMessage(
                            discussion.thread_id,
                            Notice::Reminder { pr_id: discussion.pr_id, passed, total, ping },
                        ),
                    ),
                },
            },
            (TimerStage::Reminding { discussion }, _) => (
                self.to(TimerStage::CountingIssues { discussion }),
                Action::Database(discussion.count_raised_issues_query()),
            ),
            (TimerStage::CountingIssues { discussion }, Answer::Count(count)) => (
                self.to(TimerStage::CountingOverrides { discussion, issues: counted(count) }),
                Action::Database(discussion.count_overrides_query()),
            ),
            (TimerStage::CountingOverrides { discussion, issues }, Answer::Count(count)) => (
                self.to(TimerStage::Summing),
                Action::SendMessage(
                    discussion.thread_id,
                    Notice::IssueSummary {
                        pr_id: discussion.pr_id,
                        issues,
                        overrides: counted(count),
                    },
                ),
            ),
            (TimerStage::Summing, _) => self.turn_to(self.at + 1),
            _ => self.rest(),
        }
    }

    fn with(self, stage: TimerStage) -> (r: Timers)
        ensures
            r == self.to(stage),
    {
        Timers { rows: self.rows, at: self.at, stage }
    }

    fn turned_to(self, at: usize) -> (r: (Timers, Action))
        requires
            at <= self.rows@.len(),
        ensures
            r == self.turn_to(at as int),
    {
        let mut i: usize = at;
        while i < self.rows.len() && self.rows[i].review_days_next_micros.is_none()
            invariant
                at <= i <= self.rows@.len(),
                forall|k: int|
                    at <= k < i ==> (#[trigger] self.rows@[k]).review_days_next_micros is None,
            decreases self.rows.len() - i,
        {
            i = i + 1;
        }
        proof {
            lemma_next_timed(self.rows@, at as int, i as int);
        }
        if i < self.rows.len() {
            (Timers { rows: self.rows, at: i, stage: TimerStage::Due }, Action::ReadClock)
        } else {
            (self.with(TimerStage::Sleeping), Action::Sleep(TIMER_PERIOD_SECS))
        }
    }

    fn rested(self) -> (r: (Timers, Action))
        ensures
            r == self.rest(),
    {
        (self.with(TimerStage::Sleeping), Action::Sleep(TIMER_PERIOD_SECS))
    }

    fn faulted(self, reason: &'static str) -> (r: (Timers, Action))
        ensures
            r == self.fault(reason),
    {
        (self.with(TimerStage::Over), Action::Fault(reason))
    }

    fn copy_current(&self) -> (r: DiscussionRecord)
        requires
            self.at < self.rows@.len(),
        ensures
            r == self.current(),
    {
        to_record(self.rows[self.at].clone())
    }

    fn tended(self, answer: Answer) -> (r: (Timers, Action))
        requires
            self.at < self.rows@.len(),
        ensures
            r == self.tend(answer),
    {
        let current = self.copy_current();
        let at: usize = self.at;
        assert(self.rows@.len() == self.rows.len());
        let run = Timers { rows: self.rows, at: self.at, stage: TimerStage::Over };
        match (self.stage, answer) {
            (TimerStage::Due, Answer::Now(now)) => match current.review_days_next_micros {
                Some(next) => {
                    if next > now {
                        return run.turned_to(at + 1);
                    }
                    (run.with(TimerStage::AdvanceClock), Action::ReadClock)
                },
                None => run.turned_to(at + 1),
            },
            (TimerStage::AdvanceClock, Answer::Now(now)) => {
                if current.review_days_passed == Some(u64::MAX) {
                    return run.faulted("The days of the review cannot be counted any further.");
                }
                match DiscussionRecord::next_micros_after(now) {
                    Some(next_micros) => {
                        let statement = current.advance_review_timer_statement(next_micros);
                        (
                            run.with(TimerStage::Advancing { next_micros }),
                            Action::Database(statement),
                        )
                    },
                    None => run.faulted("The calendar has no next day."),
                }
            },
            (TimerStage::Advancing { next_micros }, Answer::Written(written)) => {
                if current.review_days_passed == Some(u64::MAX) {
                    return run.faulted("The days of the review cannot be counted any further.");
                }
                let mut discussion = current;
                match discussion.advance_review_timer(next_micros, written) {
                    Ok(_) => (run.with(TimerStage::Ping { discussion }), Action::ReadPingRole),
                    Err(_) => run.turned_to(at + 1),
                }
            },
            (TimerStage::Ping { discussion }, Answer::PingRoleIs(ping)) => {
                match discussion.review_days_passed {
                    None => run.faulted(DAYS_ARE_COUNTED),
                    Some(passed) => match discussion.review_days_total {
                        None => run.faulted(DAYS_ARE_COUNTED),
                        Some(total) => {
                            let pr_id: u64 = discussion.pr_id;
                            let thread = discussion.thread_id;
                            (
                                run.with(TimerStage::Reminding { discussion }),
                                Action::SendMessage(
                                    thread,
                                    Notice::Reminder { pr_id, passed, total, ping },
                                ),
                            )
                        },
                    },
                }
            },
            (TimerStage::Reminding { discussion }, _) => {
                let statement = discussion.count_raised_issues_statement();
                (run.with(TimerStage::CountingIssues { discussion }), Action::Database(statement))
            },
            (TimerStage::CountingIssues { discussion }, Answer::Count(count)) => {
                let issues = DiscussionRecord::count_raised_issues(count).ok();
                let statement = discussion.count_overrides_statement();
                (
                    run.with(TimerStage::CountingOverrides { discussion, issues }),
                    Action::Database(statement),
                )
            },
            (TimerStage::CountingOverrides { discussion, issues }, Answer::Count(count)) => {
                let overrides = DiscussionRecord::count_overrides(count).ok();
                (
                    run.with(TimerStage::Summing),
                    Action::SendMessage(
                        discussion.thread_id,
                        Notice::IssueSummary { pr_id: discussion.pr_id, issues, overrides },
                    ),
                )
            },
            (TimerStage::Summing, _) => run.turned_to(at + 1),
            _ => run.rested(),
        }
    }
}

impl Run for Timers {
    fn step(self, answer: Answer) -> (r: (Self, Action)) {
        let rows = self.rows;
        let at: usize = self.at;
        match (self.stage, answer) {
            (TimerStage::New, Answer::Start) => (
                Timers { rows, at, stage: TimerStage::Listing },
                Action::Database(DiscussionRecord::get_all_statement()),
            ),
            (TimerStage::Listing, Answer::Discussions(Ok(rows))) => (Timers {
                rows,
                at: 0,
                stage: TimerStage::Listing,
            }).turned_to(0),
            (TimerStage::Over, _) => (Timers { rows, at, stage: TimerStage::Over }, Action::Finish),
            (TimerStage::Sleeping, _) => (
                Timers { rows, at, stage: TimerStage::Listing },
                Action::Database(DiscussionRecord::get_all_statement()),
            ),
            (stage, answer) => {
                let run = Timers { rows, at, stage };
                if run.at >= run.rows.len() {
                    run.rested()
                } else {
                    run.tended(answer)
                }
            },
        }
    }
}

/// A step of the endless round through all discussions: reminds the thread of every day that
/// has passed, and counts the issues.
pub fn cr_timers_task(run: Timers, answer: Answer) -> (r: (Timers, Action))
    ensures
        r == run.next(answer),
{
    run.step(answer)
}

/// Whether the clock was once seen to stand at or behind a point in time.
pub open spec fn clock_reached(answers: Seq<Answer>, micros: i64) -> bool {
    exists|i: int|
        0 <= i < answers.len() && (#[trigger] answers[i] matches Answer::Now(now) && micros <= now)
}

proof fn lemma_reached_stays(answers: Seq<Answer>)
    requires
        answers.len() > 0,
    ensures
        forall|micros: i64| #[trigger]
            clock_reached(answers.drop_last(), micros) ==> clock_reached(answers, micros),
{
    let before = answers.drop_last();
    assert forall|micros: i64| #[trigger] clock_reached(before, micros) implies clock_reached(
        answers,
        micros,
    ) by {
        let i = choose|i: int|
            0 <= i < before.len() && (#[trigger] before[i] matches Answer::Now(now) && micros
                <= now);
        assert(answers[i] == before[i]);
    }
}

impl Timers {
    /// Whether the reminder of the discussion that is being looked at was seen to be due.
    pub open spec fn is_due(self, answers: Seq<Answer>) -> bool {
        &&& self.at < self.rows@.len()
        &&& self.current().review_days_next_micros is Some
        &&& clock_reached(answers, self.current().review_days_next_micros->0)
    }

    /// What holds of the round after some answers: nobody is reminded of what is not due, and the
    /// days are counted one by one.
    pub open spec fn holds(self, answers: Seq<Answer>) -> bool {
        match self.stage {
            TimerStage::AdvanceClock => self.is_due(answers),
            TimerStage::Advancing { .. } => self.is_due(answers),
            TimerStage::Ping { discussion } => {
                &&& self.is_due(answers)
                &&& self.current().days_passed_next() <= u64::MAX
                &&& discussion == (DiscussionRecord {
                    review_days_passed: Some(self.current().days_passed_next() as u64),
                    review_days_next_micros: discussion.review_days_next_micros,
                    ..self.current()
                })
            },
            _ => true,
        }
    }
}

proof fn lemma_timers_hold(run: Timers, answers: Seq<Answer>)
    requires
        run.stage is New,
    ensures
        after(run, answers).holds(answers),
    decreases answers.len(),
{
    if answers.len() > 0 {
        let before = answers.drop_last();
        lemma_timers_hold(run, before);
        lemma_reached_stays(answers);
        assert(answers[answers.len() - 1] == answers.last());
    }
}

/// Nobody is reminded too early, and no day is left out or counted twice: a reminder goes to the
/// thread of a discussion whose time has come, and it counts one day more than the discussion had.
pub proof fn law_reminders_are_due(run: Timers, answers: Seq<Answer>)
    requires
        run.stage is New,
        answers.len() > 0,
    ensures
        match action_on(run, answers) {
            Action::SendMessage(thread, Notice::Reminder { pr_id, passed, total, .. }) => {
                let timers = after(run, answers.drop_last());
                &&& timers.is_due(answers.drop_last())
                &&& thread == timers.current().thread_id
                &&& pr_id == timers.current().pr_id
                &&& passed == timers.current().days_passed_next()
                &&& Some(total) == timers.current().review_days_total
            },
            _ => true,
        },
{
    lemma_timers_hold(run, answers.drop_last());
}

/// Whether every discussion that was listed has its days counted while a reminder is due.
pub open spec fn days_are_counted(answers: Seq<Answer>) -> bool {
    forall|i: int, k: int|
        0 <= i < answers.len() && 0 <= k < listed(answers[i]).len() ==> record_of(
            #[trigger] listed(#[trigger] answers[i])[k],
        ).well_formed()
}

/// The discussions that an answer lists.
pub open spec fn listed(answer: Answer) -> Seq<DiscussionRow> {
    match answer {
        Answer::Discussions(Ok(rows)) => rows@,
        _ => Seq::empty(),
    }
}

proof fn lemma_rows_are_counted(run: Timers, answers: Seq<Answer>)
    requires
        run.stage is New,
        run.rows@.len() == 0,
        days_are_counted(answers),
    ensures
        forall|k: int|
            0 <= k < after(run, answers).rows@.len() ==> record_of(
                #[trigger] after(run, answers).rows@[k],
            ).well_formed(),
    decreases answers.len(),
{
    if answers.len() > 0 {
        let before = answers.drop_last();
        assert forall|i: int, k: int|
            0 <= i < before.len() && 0 <= k < listed(before[i]).len() implies record_of(
            #[trigger] listed(#[trigger] before[i])[k],
        ).well_formed() by {
            assert(before[i] == answers[i]);
        }
        lemma_rows_are_counted(run, before);
        let last = answers[answers.len() - 1];
        assert forall|k: int| 0 <= k < listed(last).len() implies record_of(
            #[trigger] listed(last)[k],
        ).well_formed() by {
            assert(listed(answers[answers.len() - 1])[k] == listed(last)[k]);
        }
        assert(after(run, answers).rows == match last {
            Answer::Discussions(Ok(rows)) => if after(run, before).stage is Listing {
                rows
            } else {
                after(run, before).rows
            },
            _ => after(run, before).rows,
        });
    }
}

/// The round does not break off for want of a count: as long as every discussion with a reminder to
/// come has its days counted, what is relied upon when a reminder is sent holds.
pub proof fn law_reminders_can_be_sent(run: Timers, answers: Seq<Answer>)
    requires
        run.stage is New,
        run.rows@.len() == 0,
        answers.len() > 0,
        days_are_counted(answers),
    ensures
        action_on(run, answers) matches Action::Fault(reason) ==> reason@ != DAYS_ARE_COUNTED@,
{
    reveal_strlit("If micros were set, this should be too");
    reveal_strlit("The calendar has no next day.");
    reveal_strlit("The days of the review cannot be counted any further.");
    let before = answers.drop_last();
    assert forall|i: int, k: int|
        0 <= i < before.len() && 0 <= k < listed(before[i]).len() implies record_of(
        #[trigger] listed(#[trigger] before[i])[k],
    ).well_formed() by {
        assert(before[i] == answers[i]);
    }
    lemma_rows_are_counted(run, before);
    lemma_timers_hold(run, before);
    let timers = after(run, before);
    if timers.at < timers.rows@.len() {
        assert(record_of(timers.rows@[timers.at as int]).well_formed());
    }
    assert(DAYS_ARE_COUNTED@.len() == 38);
    assert("The calendar has no next day."@.len() == 29);
    assert("The days of the review cannot be counted any further."@.len() == 53);
}

/// The number of days that a reminder counts: one more than have passed so far.
pub open spec fn days_to_count(row: DiscussionRow) -> int {
    match row.review_days_passed {
        Some(passed) => value_of(passed) + 1,
        None => 1,
    }
}

/// The review clock of a discussion is moved on by a day.
pub open spec fn advancing(row: DiscussionRow, next_micros: i64) -> Action {
    Action::Database(
        Statement::UpdateReviewTimer {
            pr_id: row.pr_id,
            passed: column_of(days_to_count(row) as u64),
            next_micros,
        },
    )
}

/// The thread of a discussion is reminded of its review.
pub open spec fn reminding(row: DiscussionRow, ping: Option<RoleId>) -> Action {
    Action::SendMessage(
        row.thread_id,
        Notice::Reminder {
            pr_id: value_of(row.pr_id),
            passed: days_to_count(row) as u64,
            total: value_of(row.review_days_total->0),
            ping,
        },
    )
}

/// The thread of a discussion is told how many issues and votes there are.
pub open spec fn summing_up(
    row: DiscussionRow,
    issues: Option<i64>,
    overrides: Option<i64>,
) -> Action {
    Action::SendMessage(
        row.thread_id,
        Notice::IssueSummary { pr_id: value_of(row.pr_id), issues, overrides },
    )
}

impl TimerStage {
    /// How many answers a discussion has taken up to a stage, with the one that led to it.
    pub open spec fn place(self) -> int {
        match self {
            TimerStage::Due => 1,
            TimerStage::AdvanceClock => 2,
            TimerStage::Advancing { .. } => 3,
            TimerStage::Ping { .. } => 4,
            TimerStage::Reminding { .. } => 5,
            TimerStage::CountingIssues { .. } => 6,
            TimerStage::CountingOverrides { .. } => 7,
            TimerStage::Summing => 8,
            _ => 0,
        }
    }
}

/// A write that failed.
pub open spec fn unwritten(error: DbError) -> Answer {
    Answer::Written(Err(error))
}

impl Timers {
    /// Whether the clock was read.
    pub open spec fn has_read(self, answers: Seq<Answer>, now: i64) -> bool {
        was_answered(self, answers, Action::ReadClock, Answer::Now(now))
    }

    /// Whether the review clock of a discussion was moved on, to a day from now.
    pub open spec fn advanced(self, answers: Seq<Answer>, row: DiscussionRow) -> bool {
        exists|now: i64| #[trigger] self.advanced_at(answers, row, now)
    }

    /// Whether the review clock of a discussion was moved on, to a day from a point in time.
    pub open spec fn advanced_at(self, answers: Seq<Answer>, row: DiscussionRow, now: i64) -> bool {
        &&& self.has_read(answers, now)
        &&& did(self, answers, advancing(row, (now + 86_400_000_000) as i64))
    }

    /// Whether the review clock of a discussion could not be moved on.
    pub open spec fn stuck(self, answers: Seq<Answer>, row: DiscussionRow) -> bool {
        exists|next_micros: i64, error: DbError|
            was_answered(
                self,
                answers,
                #[trigger] advancing(row, next_micros),
                #[trigger] unwritten(error),
            )
    }

    /// Whether the thread of a discussion was reminded.
    pub open spec fn reminded(self, answers: Seq<Answer>, row: DiscussionRow) -> bool {
        exists|ping: Option<RoleId>| did(self, answers, #[trigger] reminding(row, ping))
    }

    /// Whether the thread of a discussion was told of its issues and votes.
    pub open spec fn summed_up(self, answers: Seq<Answer>, row: DiscussionRow) -> bool {
        exists|issues: Option<i64>, overrides: Option<i64>|
            did(self, answers, #[trigger] summing_up(row, issues, overrides))
    }

    /// Whether a discussion was dealt with: the clock was read and its reminder is still to come, or
    /// its review clock was moved on and its thread was reminded and told of the issues and votes,
    /// or that could not be written.
    pub open spec fn dealt_with(self, answers: Seq<Answer>, row: DiscussionRow) -> bool {
        row.review_days_next_micros is Some ==> exists|now: i64| #[trigger]
            self.has_read(answers, now) && (row.review_days_next_micros->0 > now || self.handled(
                answers,
                row,
            ))
    }

    /// Whether a reminder that was due was sent, or could not be.
    pub open spec fn handled(self, answers: Seq<Answer>, row: DiscussionRow) -> bool {
        ||| self.stuck(answers, row)
        ||| self.advanced(answers, row) && self.reminded(answers, row) && self.summed_up(
            answers,
            row,
        )
    }

    /// Whether a reminder was found to be due.
    pub open spec fn found_due(self, answers: Seq<Answer>, row: DiscussionRow) -> bool {
        &&& row.review_days_next_micros is Some
        &&& exists|now: i64| #[trigger]
            self.has_read(answers, now) && row.review_days_next_micros->0 <= now
    }

    /// Whether all discussions before a place were dealt with.
    pub open spec fn dealt_with_before(
        self,
        answers: Seq<Answer>,
        rows: Seq<DiscussionRow>,
        at: int,
    ) -> bool {
        forall|k: int| 0 <= k < at ==> self.dealt_with(answers, #[trigger] rows[k])
    }

    /// Whether a discussion is the one of a row, with its days counted.
    pub open spec fn counts(discussion: DiscussionRecord, row: DiscussionRow) -> bool {
        &&& discussion.pr_id == value_of(row.pr_id)
        &&& discussion.thread_id == row.thread_id
        &&& discussion.review_days_passed == Some(days_to_count(row) as u64)
        &&& discussion.review_days_total == value_of_opt(row.review_days_total)
    }

    /// What holds in a round, that began as `first` with a list of discussions, after some answers.
    pub open spec fn goes_round(
        self,
        first: Timers,
        answers: Seq<Answer>,
        rows: Vec<DiscussionRow>,
    ) -> bool {
        let at = self.at as int;
        let row = rows@[at];
        let action = action_on(first, answers);
        &&& self.rows == rows
        &&& answers.len() <= 8 * rows@.len() + 1
        &&& self.stage is Sleeping || self.stage is Over || answers.len() <= 8 * at
            + self.stage.place()
        &&& self.stage is Sleeping || self.stage is Over || (at < rows@.len()
            && first.dealt_with_before(answers, rows@, at))
        &&& match self.stage {
            TimerStage::New => false,
            TimerStage::Listing => false,
            TimerStage::Due => action is ReadClock && row.review_days_next_micros is Some,
            TimerStage::AdvanceClock => action is ReadClock && first.found_due(answers, row),
            TimerStage::Advancing { next_micros } => {
                &&& first.found_due(answers, row)
                &&& action == advancing(row, next_micros)
                &&& first.advanced(answers, row)
            },
            TimerStage::Ping { discussion } => {
                &&& first.found_due(answers, row)
                &&& first.advanced(answers, row)
                &&& Self::counts(discussion, row)
            },
            TimerStage::Reminding { discussion } => {
                &&& first.found_due(answers, row)
                &&& first.advanced(answers, row)
                &&& Self::counts(discussion, row)
                &&& first.reminded(answers, row)
            },
            TimerStage::CountingIssues { discussion } => {
                &&& first.found_due(answers, row)
                &&& first.advanced(answers, row)
                &&& Self::counts(discussion, row)
                &&& first.reminded(answers, row)
                &&& action is Database
                &&& action->Database_0 is CountIssues
            },
            TimerStage::CountingOverrides { discussion, .. } => {
                &&& first.found_due(answers, row)
                &&& first.advanced(answers, row)
                &&& Self::counts(discussion, row)
                &&& first.reminded(answers, row)
                &&& action is Database
                &&& action->Database_0 is CountOverrides
            },
            TimerStage::Summing => {
                &&& first.found_due(answers, row)
                &&& first.advanced(answers, row)
                &&& first.reminded(answers, row)
                &&& first.summed_up(answers, row)
            },
            TimerStage::Sleeping => {
                &&& action == Action::Sleep(10)
                &&& first.dealt_with_before(answers, rows@, rows@.len() as int)
            },
            TimerStage::Over => action is Fault || action is Finish,
        }
    }
}

proof fn lemma_round_facts_stay(first: Timers, answers: Seq<Answer>, row: DiscussionRow)
    requires
        answers.len() > 0,
    ensures
        first.found_due(answers.drop_last(), row) ==> first.found_due(answers, row),
        first.advanced(answers.drop_last(), row) ==> first.advanced(answers, row),
        first.stuck(answers.drop_last(), row) ==> first.stuck(answers, row),
        first.reminded(answers.drop_last(), row) ==> first.reminded(answers, row),
        first.summed_up(answers.drop_last(), row) ==> first.summed_up(answers, row),
        first.dealt_with(answers.drop_last(), row) ==> first.dealt_with(answers, row),
{
    let before = answers.drop_last();
    lemma_did(first, answers);
    lemma_answered(first, answers);
    if first.found_due(before, row) {
        let now = choose|now: i64| #[trigger]
            first.has_read(before, now) && row.review_days_next_micros->0 <= now;
        assert(first.has_read(answers, now));
    }
    if first.advanced(before, row) {
        let now = choose|now: i64| #[trigger] first.advanced_at(before, row, now);
        assert(first.advanced_at(answers, row, now));
    }
    if first.stuck(before, row) {
        let (next_micros, error) = choose|next_micros: i64, error: DbError|
            was_answered(
                first,
                before,
                #[trigger] advancing(row, next_micros),
                #[trigger] unwritten(error),
            );
        assert(was_answered(first, answers, advancing(row, next_micros), unwritten(error)));
    }
    if first.reminded(before, row) {
        let ping = choose|ping: Option<RoleId>| did(first, before, #[trigger] reminding(row, ping));
        assert(did(first, answers, reminding(row, ping)));
    }
    if first.summed_up(before, row) {
        let (issues, overrides) = choose|issues: Option<i64>, overrides: Option<i64>|
            did(first, before, #[trigger] summing_up(row, issues, overrides));
        assert(did(first, answers, summing_up(row, issues, overrides)));
    }
    if first.dealt_with(before, row) && row.review_days_next_micros is Some {
        let now = choose|now: i64| #[trigger]
            first.has_read(before, now) && (row.review_days_next_micros->0 > now || first.handled(
                before,
                row,
            ));
        assert(first.has_read(answers, now));
    }
}

proof fn lemma_dealt_with_stays(
    first: Timers,
    answers: Seq<Answer>,
    rows: Seq<DiscussionRow>,
    at: int,
)
    requires
        answers.len() > 0,
        at <= rows.len(),
        first.dealt_with_before(answers.drop_last(), rows, at),
    ensures
        first.dealt_with_before(answers, rows, at),
{
    assert forall|k: int| 0 <= k < at implies first.dealt_with(answers, #[trigger] rows[k]) by {
        assert(first.dealt_with(answers.drop_last(), rows[k]));
        lemma_round_facts_stay(first, answers, rows[k]);
    }
}

proof fn lemma_skipped(
    first: Timers,
    answers: Seq<Answer>,
    rows: Seq<DiscussionRow>,
    at: int,
)
    requires
        0 <= at <= rows.len(),
        first.dealt_with_before(answers, rows, at),
    ensures
        first.dealt_with_before(answers, rows, next_timed(rows, at)),
    decreases rows.len() - at,
{
    if at < rows.len() && rows[at].review_days_next_micros is None {
        assert(first.dealt_with(answers, rows[at]));
        lemma_skipped(first, answers, rows, at + 1);
    }
}

/// Whether an answer is of the kind that an action of a round asks for.
pub open spec fn suits_round(action: Action, answer: Answer) -> bool {
    match action {
        Action::ReadClock => answer is Now,
        Action::ReadPingRole => answer is PingRoleIs,
        Action::Database(Statement::UpdateReviewTimer { .. }) => answer is Written,
        Action::Database(Statement::CountIssues { .. }) => answer is Count,
        Action::Database(Statement::CountOverrides { .. }) => answer is Count,
        Action::SendMessage(_, _) => true,
        _ => false,
    }
}

/// Whether a list of discussions and answers that fit make up a round, or its beginning.
pub open spec fn is_round(first: Timers, answers: Seq<Answer>, rows: Vec<DiscussionRow>) -> bool {
    &&& answers.len() > 0
    &&& answers[0] == Answer::Discussions(Ok(rows))
    &&& forall|n: int|
        0 < n < answers.len() ==> suits_round(
            #[trigger] action_on(first, answers.take(n)),
            answers[n],
        )
}

proof fn lemma_round_before(first: Timers, answers: Seq<Answer>, rows: Vec<DiscussionRow>)
    requires
        is_round(first, answers, rows),
        answers.len() > 1,
    ensures
        is_round(first, answers.drop_last(), rows),
        suits_round(action_on(first, answers.drop_last()), answers.last()),
{
    let before = answers.drop_last();
    assert(before[0] == answers[0]);
    assert forall|n: int| 0 < n < before.len() implies suits_round(
        #[trigger] action_on(first, before.take(n)),
        before[n],
    ) by {
        assert(before.take(n) =~= answers.take(n));
        assert(suits_round(action_on(first, answers.take(n)), answers[n]));
    }
    let n = answers.len() - 1;
    assert(answers.take(n) =~= before);
    assert(suits_round(action_on(first, answers.take(n)), answers[n]));
}

proof fn lemma_turned(
    first: Timers,
    answers: Seq<Answer>,
    rows: Vec<DiscussionRow>,
    now: Timers,
    at: int,
)
    requires
        answers.len() > 0,
        now.rows == rows,
        0 <= at <= rows@.len(),
        answers.len() <= 8 * at + 1,
        first.dealt_with_before(answers, rows@, at),
        (after(first, answers), action_on(first, answers)) == now.turn_to(at),
    ensures
        after(first, answers).goes_round(first, answers, rows),
{
    lemma_next_timed_fits(rows@, at);
    lemma_skipped(first, answers, rows@, at);
    assert(rows@.len() == rows.len());
}

proof fn lemma_round_goes(first: Timers, answers: Seq<Answer>, rows: Vec<DiscussionRow>)
    requires
        first.stage is Listing,
        is_round(first, answers, rows),
    ensures
        after(first, answers).goes_round(first, answers, rows),
    decreases answers.len(),
{
    let before = answers.drop_last();
    let answer = answers.last();
    let now = after(first, before);
    lemma_did(first, answers);
    lemma_answered(first, answers);
    if answers.len() == 1 {
        assert(before =~= Seq::<Answer>::empty());
        assert(answer == answers[0]);
        let listed = Timers { rows, at: 0, stage: TimerStage::Listing };
        lemma_turned(first, answers, rows, listed, 0);
    } else {
        lemma_round_before(first, answers, rows);
        lemma_round_goes(first, before, rows);
        let at = now.at as int;
        if now.stage is Sleeping || now.stage is Over {
        } else {
            let row = rows@[at];
            law_value_round_trip(row.pr_id);
            lemma_round_facts_stay(first, answers, row);
            lemma_dealt_with_stays(first, answers, rows@, at);
            assert(did(first, answers, action_on(first, answers)));
            assert(was_answered(first, answers, action_on(first, before), answer));
            match now.stage {
                TimerStage::Due => {
                    let clock = answer->Now_0;
                    assert(first.has_read(answers, clock));
                    if row.review_days_next_micros->0 > clock {
                        assert(first.dealt_with(answers, row));
                        lemma_turned(first, answers, rows, now, at + 1);
                    }
                },
                TimerStage::AdvanceClock => {
                    let clock = answer->Now_0;
                    assert(first.has_read(answers, clock));
                    if let TimerStage::Advancing { next_micros } = after(first, answers).stage {
                        assert(next_micros == clock + 86_400_000_000);
                        assert(action_on(first, answers) == advancing(row, next_micros));
                        assert(first.advanced_at(answers, row, clock));
                    }
                },
                TimerStage::Advancing { next_micros } => {
                    if let Answer::Written(Err(error)) = answer {
                        assert(was_answered(
                            first,
                            answers,
                            advancing(row, next_micros),
                            unwritten(error),
                        ));
                        assert(first.handled(answers, row));
                        if after(first, answers).stage is Over {
                        } else {
                            lemma_dealt(first, answers, row);
                            lemma_turned(first, answers, rows, now, at + 1);
                        }
                    }
                },
                TimerStage::Ping { discussion } => {
                    let ping = answer->PingRoleIs_0;
                    if after(first, answers).stage is Reminding {
                        assert(action_on(first, answers) == reminding(row, ping));
                    }
                },
                TimerStage::CountingOverrides { discussion, issues } => {
                    let overrides = counted(answer->Count_0);
                    assert(action_on(first, answers) == summing_up(row, issues, overrides));
                },
                TimerStage::Summing => {
                    assert(first.handled(answers, row));
                    lemma_dealt(first, answers, row);
                    lemma_turned(first, answers, rows, now, at + 1);
                },
                _ => {},
            }
        }
    }
}

proof fn lemma_dealt(first: Timers, answers: Seq<Answer>, row: DiscussionRow)
    requires
        first.found_due(answers, row),
        first.handled(answers, row),
    ensures
        first.dealt_with(answers, row),
{
    let now = choose|now: i64| #[trigger]
        first.has_read(answers, now) && row.review_days_next_micros->0 <= now;
    assert(first.has_read(answers, now));
}

proof fn lemma_asks_for_list(first: Timers, answers: Seq<Answer>)
    requires
        first.stage is New,
        answers.len() > 0,
        action_on(first, answers) == Action::Database(Statement::SelectDiscussions),
    ensures
        after(first, answers).stage is Listing,
{
}

/// No discussion is passed over: whenever the discussions were asked for and listed, and the round
/// comes to its rest, every one of them that has a reminder to come was dealt with. The clock was
/// read and its reminder is still to come; or its day was counted and its thread was reminded of it
/// and told of the issues and votes; or its day could not be written.
pub proof fn law_every_review_is_looked_after(
    first: Timers,
    before: Seq<Answer>,
    round: Seq<Answer>,
    rows: Vec<DiscussionRow>,
    k: int,
)
    requires
        first.stage is New,
        before.len() > 0,
        action_on(first, before) == Action::Database(Statement::SelectDiscussions),
        is_round(after(first, before), round, rows),
        action_on(after(first, before), round) is Sleep,
        0 <= k < rows@.len(),
    ensures
        after(first, before).dealt_with(round, rows@[k]),
{
    lemma_asks_for_list(first, before);
    lemma_round_goes(after(first, before), round, rows);
}

/// A round never breaks off while its answers fit, and always comes to its rest: until it rests, for
/// 10 seconds, it has something to ask or to send, or what it relies upon does not hold; and it takes
/// no more than 8 answers for each discussion.
pub proof fn law_rounds_go_on(
    first: Timers,
    before: Seq<Answer>,
    round: Seq<Answer>,
    rows: Vec<DiscussionRow>,
)
    requires
        first.stage is New,
        before.len() > 0,
        action_on(first, before) == Action::Database(Statement::SelectDiscussions),
        is_round(after(first, before), round, rows),
    ensures
        round.len() <= 8 * rows@.len() + 1,
        ({
            let action = action_on(after(first, before), round);
            ||| action == Action::Sleep(10)
            ||| action is Fault
            ||| action is ReadClock
            ||| action is ReadPingRole
            ||| action is SendMessage
            ||| action matches Action::Database(statement) && (statement is UpdateReviewTimer
                || statement is CountIssues || statement is CountOverrides)
        }),
{
    lemma_asks_for_list(first, before);
    lemma_round_goes(after(first, before), round, rows);
    let listing = after(first, before);
    if round.len() > 1 {
        lemma_round_before(listing, round, rows);
        lemma_round_goes(listing, round.drop_last(), rows);
    } else {
        assert(round.drop_last() =~= Seq::<Answer>::empty());
    }
}

/// The rounds begin with a list of all discussions, and after every rest with a new one. A list that
/// cannot be had is waited for.
pub proof fn law_rounds_repeat(first: Timers, any: Answer, error: DbError)
    requires
        first.stage is New,
    ensures
        ({
            let (listing, asked) = first.next(Answer::Start);
            let (resting, rest) = listing.next(Answer::Discussions(Err(error)));
            let (again, asked_again) = resting.next(any);
            &&& asked == Action::Database(Statement::SelectDiscussions)
            &&& rest == Action::Sleep(10)
            &&& asked_again == Action::Database(Statement::SelectDiscussions)
            &&& again.stage == listing.stage
        }),
{
}

/// A reminder that is due is sent step by step, for every discussion with its days counted: the day
/// is counted and the next reminder is set to a day from now; the thread is reminded of the day, and
/// told how many issues and votes there are, as far as they could be counted. After that comes the
/// next discussion, or a rest of 10 seconds.
pub proof fn law_due_reminder_is_sent(
    first: Timers,
    rows: Vec<DiscussionRow>,
    now: i64,
    later: i64,
    ping: Option<RoleId>,
    any: Answer,
    issues: Result<i64, DbError>,
    overrides: Result<i64, DbError>,
)
    requires
        first.stage is New,
        rows@.len() > 0,
        rows@[0].review_days_next_micros is Some,
        rows@[0].review_days_next_micros->0 <= now,
        rows@[0].review_days_passed is Some,
        rows@[0].review_days_total is Some,
        value_of(rows@[0].review_days_passed->0) < u64::MAX,
        0 <= later,
        later + 86_400_000_000 <= LAST_MICROS,
    ensures
        ({
            let row = rows@[0];
            let passed = (value_of(row.review_days_passed->0) + 1) as u64;
            let (r1, a1) = first.next(Answer::Start).0.next(Answer::Discussions(Ok(rows)));
            let (r2, a2) = r1.next(Answer::Now(now));
            let (r3, a3) = r2.next(Answer::Now(later));
            let (r4, a4) = r3.next(Answer::Written(Ok(())));
            let (r5, a5) = r4.next(Answer::PingRoleIs(ping));
            let (r6, a6) = r5.next(any);
            let (r7, a7) = r6.next(Answer::Count(issues));
            let (r8, a8) = r7.next(Answer::Count(overrides));
            let (r9, a9) = r8.next(any);
            &&& a1 == Action::ReadClock
            &&& a2 == Action::ReadClock
            &&& a3 == Action::Database(
                Statement::UpdateReviewTimer {
                    pr_id: row.pr_id,
                    passed: column_of(passed),
                    next_micros: (later + 86_400_000_000) as i64,
                },
            )
            &&& a4 == Action::ReadPingRole
            &&& a5 == Action::SendMessage(
                row.thread_id,
                Notice::Reminder {
                    pr_id: value_of(row.pr_id),
                    passed,
                    total: value_of(row.review_days_total->0),
                    ping,
                },
            )
            &&& a6 == Action::Database(Statement::CountIssues { pr_id: row.pr_id })
            &&& a7 == Action::Database(Statement::CountOverrides { pr_id: row.pr_id })
            &&& a8 == Action::SendMessage(
                row.thread_id,
                Notice::IssueSummary {
                    pr_id: value_of(row.pr_id),
                    issues: match issues {
                        Ok(n) => Some(n),
                        Err(_) => None,
                    },
                    overrides: match overrides {
                        Ok(n) => Some(n),
                        Err(_) => None,
                    },
                },
            )
            &&& rows@.len() == 1 ==> a9 == Action::Sleep(10)
            &&& rows@.len() > 1 && rows@[1].review_days_next_micros is Some ==> a9
                == Action::ReadClock
            &&& forall|error: DbError|
                (#[trigger] r3.next(Answer::Written(Err(error)))).1 == a9
        }),
{
    law_value_round_trip(rows@[0].pr_id);
    lemma_next_timed_fits(rows@, 1);
    assert(rows@.len() == rows.len());
    reveal_with_fuel(next_timed, 3);
}

/// A discussion whose reminder is still to come is passed over, and so is one without reminders: the
/// next one that has a reminder to come gets its turn in the same round, and its day is counted if
/// it is due. Where there is none, the round rests.
pub proof fn law_undue_review_is_passed_over(
    first: Timers,
    rows: Vec<DiscussionRow>,
    now: i64,
    later: i64,
    again: i64,
)
    requires
        first.stage is New,
        rows@.len() > 0,
        rows@[0].review_days_next_micros is Some,
        rows@[0].review_days_next_micros->0 > now,
        0 <= again,
        again + 86_400_000_000 <= LAST_MICROS,
    ensures
        ({
            let (r1, a1) = first.next(Answer::Start).0.next(Answer::Discussions(Ok(rows)));
            let (r2, a2) = r1.next(Answer::Now(now));
            let (r3, a3) = r2.next(Answer::Now(later));
            let (r4, a4) = r3.next(Answer::Now(again));
            let due = |k: int|
                rows@[k].review_days_next_micros is Some && rows@[k].review_days_next_micros->0
                    <= later && rows@[k].review_days_passed is Some && value_of(
                    rows@[k].review_days_passed->0,
                ) < u64::MAX;
            let counted = |k: int| a4 == advancing(rows@[k], (again + 86_400_000_000) as i64);
            &&& a1 == Action::ReadClock
            &&& rows@.len() == 1 ==> a2 == Action::Sleep(10)
            &&& rows@.len() > 1 && rows@[1].review_days_next_micros is Some ==> a2
                == Action::ReadClock
            &&& rows@.len() > 1 && due(1) ==> counted(1)
            &&& rows@.len() > 2 && rows@[1].review_days_next_micros is None && due(2) ==> counted(2)
            &&& rows@.len() == 2 && rows@[1].review_days_next_micros is None ==> a2
                == Action::Sleep(10)
        }),
{
    assert(rows@.len() == rows.len());
    reveal_with_fuel(next_timed, 4);
    if rows@.len() > 1 {
        law_value_round_trip(rows@[1].pr_id);
    }
    if rows@.len() > 2 {
        law_value_round_trip(rows@[2].pr_id);
    }
}

} // verus!
