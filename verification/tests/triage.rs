use deltav_bot::clock::DAY_MICROS;
use deltav_bot::discord::action::{
    Action, Answer, ForumSetting, GuildChannel, LabelRemoval, LabelSetting, NewThread,
    ReviewSettings, Run, ThreadEdit,
};
use deltav_bot::discord::content_review::data::forums::ForumRecord;
use deltav_bot::discord::content_review::notices::{Card, Comment, Post};
use deltav_bot::discord::content_review::triage::commands::{
    cr_complete, cr_request_changes, Complete, CompleteArgs, CompleteStage, CrOutcome, RequestArgs,
    RequestChanges, RequestStage,
};
use deltav_bot::discord::content_review::triage::comp_tasks::{
    button_click_mute_reminders_task, button_click_no_review_needed_task, start_review_task,
    triage_preamble, MuteReminders, MuteStage, NoReview, NoReviewStage, Preamble, ReviewStage,
    StartReview, Triage,
};
use deltav_bot::discord::error::{DbError, HandledError};
use deltav_bot::discord::ids::{ChannelId, ForumTagId, GuildId, RoleId, UserId};
use deltav_bot::discord::permissions::check::Command;
use deltav_bot::discord::permissions::data::Permission;
use deltav_bot::discord::store::{DiscussionRow, Statement};

const INTAKE: u64 = 100;
const REVIEW: u64 = 300;
const THREAD: u64 = 200;

fn text(s: &str) -> String {
    s.to_string()
}

fn channel(n: u64) -> ChannelId {
    ChannelId::new(n)
}

fn row() -> DiscussionRow {
    DiscussionRow {
        pr_id: 12,
        forum_id: channel(INTAKE),
        thread_id: channel(THREAD),
        triaged_by: None,
        review_days_total: None,
        review_days_passed: None,
        review_days_next_micros: None,
        pr_title: text("Title"),
        pr_author: text("ann"),
        pr_body: Some(text("Body")),
    }
}

fn reviewed() -> DiscussionRow {
    DiscussionRow { review_days_next_micros: Some(5), ..row() }
}

fn guild_channel(parent: Option<u64>) -> GuildChannel {
    GuildChannel {
        id: channel(THREAD),
        guild: GuildId::new(1),
        parent: parent.map(channel),
        applied_tags: vec![ForumTagId::new(9)],
    }
}

fn forum() -> ForumRecord {
    ForumRecord {
        channel_id: channel(REVIEW),
        private: false,
        tag_cr_approved: ForumTagId::new(2),
        tag_cr_denied: ForumTagId::new(3),
        tag_cr_test_merge: ForumTagId::new(4),
        tag_pr_closed: ForumTagId::new(5),
        tag_pr_merged: ForumTagId::new(6),
    }
}

fn drive<R: Run>(run: R, answers: Vec<Answer>) -> Vec<Action> {
    let mut actions = Vec::new();
    let mut run = run;
    for answer in answers {
        let (next, action) = run.step(answer);
        run = next;
        actions.push(action);
    }
    actions
}

fn told(action: &Action) -> String {
    match action {
        Action::Respond { text, .. } => text.render(),
        Action::Reply(text) => text.render(),
        other => panic!("{other:?}"),
    }
}

fn start(private: bool) -> StartReview {
    StartReview {
        pr_id: 12,
        private,
        user: UserId::new(7),
        user_name: text("bob"),
        stage: ReviewStage::New,
    }
}

fn prepared() -> Vec<Answer> {
    vec![
        Answer::Start,
        Answer::Discussion(Ok(row())),
        Answer::Channel(Some(guild_channel(Some(INTAKE)))),
        Answer::ForumIs(Some(channel(INTAKE))),
    ]
}

fn with(mut answers: Vec<Answer>, more: Vec<Answer>) -> Vec<Answer> {
    answers.extend(more);
    answers
}

fn form(days: &str) -> Answer {
    Answer::ReviewForm(Ok(Some(ReviewSettings {
        review_time_days: text(days),
        reasoning: Some(text("why")),
    })))
}

#[test]
fn the_preamble_finds_the_discussion() {
    let run = match triage_preamble(Preamble::New { pr_id: 12 }, Answer::Start) {
        Triage::Ask(run, Action::Database(Statement::SelectDiscussionByPr { pr_id: 12 })) => run,
        other => panic!("{other:?}"),
    };
    let run = match triage_preamble(run, Answer::Discussion(Ok(row()))) {
        Triage::Ask(run, Action::FetchChannel(c)) if c.get() == THREAD => run,
        other => panic!("{other:?}"),
    };
    let run = match triage_preamble(run, Answer::Channel(Some(guild_channel(Some(INTAKE))))) {
        Triage::Ask(run, Action::ReadForum(ForumSetting::Intake)) => run,
        other => panic!("{other:?}"),
    };
    match triage_preamble(run, Answer::ForumIs(Some(channel(INTAKE)))) {
        Triage::Ready { parent_forum, intake_forum, discussion } => {
            assert_eq!(parent_forum, intake_forum);
            assert_eq!(discussion.pr_id, 12);
        }
        other => panic!("{other:?}"),
    }
}

#[test]
fn the_preamble_refuses() {
    let internal = |run: Preamble, answer: Answer| {
        assert!(matches!(
            triage_preamble(run, answer),
            Triage::Refused(HandledError::InternalError)
        ));
    };
    internal(Preamble::Lookup, Answer::Discussion(Err(DbError::RowNotFound)));
    let found = || deltav_bot::discord::content_review::data::discussions::to_record(row());
    internal(Preamble::Channel { discussion: found() }, Answer::Channel(None));
    internal(
        Preamble::Channel { discussion: found() },
        Answer::Channel(Some(guild_channel(None))),
    );
    internal(
        Preamble::Intake { discussion: found(), parent: channel(REVIEW) },
        Answer::ForumIs(Some(channel(INTAKE))),
    );
    assert!(matches!(
        triage_preamble(
            Preamble::Intake { discussion: found(), parent: channel(INTAKE) },
            Answer::ForumIs(None)
        ),
        Triage::Refused(HandledError::UserfacingError(
            "Can't process triage button press with intake forum unset."
        ))
    ));
}

#[test]
fn a_review_is_started() {
    let now = 1_700_000_000_000_000;
    let actions = drive(
        start(true),
        with(
            prepared(),
            vec![
                Answer::ForumIs(Some(channel(REVIEW))),
                Answer::LabelIs(Some(text("under review"))),
                form("7"),
                Answer::Now(now),
                Answer::Done,
                Answer::PingRoleIs(Some(RoleId::new(5))),
                Answer::Posted(Some(NewThread { id: channel(400), guild: GuildId::new(1) })),
                Answer::Done,
                Answer::Written(Ok(())),
                Answer::Written(Ok(())),
                Answer::Written(Ok(())),
                Answer::Written(Ok(())),
                Answer::Now(now),
                Answer::Written(Ok(())),
                Answer::Done,
            ],
        ),
    );
    assert!(matches!(actions[3], Action::ReadForum(ForumSetting::Private)));
    assert!(matches!(actions[4], Action::ReadLabel(LabelSetting::UnderReview)));
    assert!(matches!(actions[5], Action::ShowReviewForm));
    assert!(matches!(actions[6], Action::ReadClock));
    assert!(matches!(&actions[7], Action::AddLabel(12, l) if l == "under review"));
    assert!(matches!(actions[8], Action::ReadPingRole));
    match &actions[9] {
        Action::CreatePost(to, Post::Review { pr_id, triaged_by, reasoning, days, due, ping, .. }) => {
            assert_eq!((to.get(), *pr_id, *days), (REVIEW, 12, 7));
            assert_eq!(triaged_by, "bob");
            assert_eq!(*reasoning, Some(text("why")));
            assert_eq!(*due, 1_700_000_000 + 7 * 86_400);
            assert_eq!(*ping, Some(RoleId::new(5)));
        }
        other => panic!("{other:?}"),
    }
    match &actions[10] {
        Action::PostComment(12, Comment::ReviewStarted { by, private, thread, days, .. }) => {
            assert_eq!((by.as_str(), *private, thread.get(), *days), ("bob", true, 400, 7));
        }
        other => panic!("{other:?}"),
    }
    let written: Vec<&Statement> = actions
        .iter()
        .filter_map(|a| match a {
            Action::Database(s) => Some(s),
            _ => None,
        })
        .skip(1)
        .collect();
    assert_eq!(
        written,
        vec![
            &Statement::UpdateForum { pr_id: 12, forum_id: 300 },
            &Statement::UpdateThread { pr_id: 12, thread_id: 400 },
            &Statement::UpdateTriagedBy { pr_id: 12, triaged_by: 7 },
            &Statement::ClearBody { pr_id: 12 },
            &Statement::UpdateReviewTime {
                pr_id: 12,
                total: 7,
                passed: 0,
                next_micros: now + DAY_MICROS
            },
        ]
    );
    assert!(matches!(actions[17], Action::DeleteThread(c) if c.get() == THREAD));
    assert!(matches!(actions[18], Action::Finish));
}

#[test]
fn a_review_is_not_started_with_settings_unset() {
    let public = drive(start(false), with(prepared(), vec![Answer::ForumIs(None)]));
    assert!(matches!(public[3], Action::ReadForum(ForumSetting::Public)));
    assert_eq!(told(&public[4]), "Error: Can't process review start with public forum unset.");
    let private = drive(start(true), with(prepared(), vec![Answer::ForumIs(None), Answer::Done]));
    assert_eq!(told(&private[4]), "Error: Can't process review start with private forum unset.");
    assert!(matches!(private[5], Action::Finish));
    let label = drive(
        start(true),
        with(prepared(), vec![Answer::ForumIs(Some(channel(REVIEW))), Answer::LabelIs(None)]),
    );
    assert_eq!(told(&label[5]), "Error: Can't process review start with under review label unset.");
}

fn asked() -> Vec<Answer> {
    with(
        prepared(),
        vec![Answer::ForumIs(Some(channel(REVIEW))), Answer::LabelIs(Some(text("under")))],
    )
}

#[test]
fn the_review_time_is_bounded() {
    for (days, words) in [
        ("91", "Error: Invalid review time provided. It can't be longer than 90 days."),
        ("week", "Error: Failed to parse review time."),
        ("-1", "Error: Failed to parse review time."),
        ("", "Error: Failed to parse review time."),
    ] {
        let actions = drive(start(false), with(asked(), vec![form(days)]));
        assert_eq!(told(actions.last().unwrap()), words);
    }
    for days in ["0", "90", "+7"] {
        let actions = drive(start(false), with(asked(), vec![form(days)]));
        assert!(matches!(actions.last(), Some(Action::ReadClock)));
    }
    let left_alone = drive(start(false), with(asked(), vec![Answer::ReviewForm(Ok(None))]));
    assert_eq!(told(left_alone.last().unwrap()), "Error: test");
    let broken = drive(start(false), with(asked(), vec![Answer::ReviewForm(Err(()))]));
    assert_eq!(told(broken.last().unwrap()), "Error: An internal error occurred.");
}

#[test]
fn a_review_start_tells_what_failed() {
    let entered = || with(asked(), vec![form("7"), Answer::Now(0)]);
    let labeled = || with(entered(), vec![Answer::Done, Answer::PingRoleIs(None)]);
    let posted = || {
        with(
            labeled(),
            vec![Answer::Posted(Some(NewThread { id: channel(400), guild: GuildId::new(1) }))],
        )
    };
    for (answers, words) in [
        (
            with(entered(), vec![Answer::Failed]),
            "Error: Failed to set under review label on GitHub.",
        ),
        (with(labeled(), vec![Answer::Posted(None)]), "Error: Failed to create forum post."),
        (with(posted(), vec![Answer::Failed]), "Error: Failed to add GitHub comment."),
        (
            with(posted(), vec![Answer::Done, Answer::Written(Err(DbError::Other))]),
            "Error: An internal error occurred.",
        ),
    ] {
        let actions = drive(start(false), answers);
        assert_eq!(told(actions.last().unwrap()), words);
    }
}

fn no_review() -> NoReview {
    NoReview { pr_id: 12, user_name: text("bob"), stage: NoReviewStage::New }
}

#[test]
fn a_review_is_declared_unnecessary() {
    let (run, action) = button_click_no_review_needed_task(no_review(), Answer::Start);
    assert!(matches!(action, Action::Database(Statement::SelectDiscussionByPr { pr_id: 12 })));
    let actions = drive(
        run,
        with(
            prepared().into_iter().skip(1).collect(),
            vec![
                Answer::LabelIs(Some(text("no review"))),
                Answer::Written(Ok(())),
                Answer::Done,
                Answer::Done,
                Answer::Done,
            ],
        ),
    );
    assert!(matches!(actions[2], Action::ReadLabel(LabelSetting::NoReviewNeeded)));
    assert!(matches!(actions[3], Action::Database(Statement::DeleteDiscussion { pr_id: 12 })));
    assert!(matches!(&actions[4], Action::AddLabel(12, l) if l == "no review"));
    assert!(matches!(&actions[5], Action::PostComment(12, Comment::NotNeeded { by }) if by == "bob"));
    assert!(matches!(actions[6], Action::DeleteThread(c) if c.get() == THREAD));
    assert!(matches!(actions[7], Action::Finish));
}

#[test]
fn a_dismissal_tells_what_failed() {
    let labeled = || with(prepared(), vec![Answer::LabelIs(Some(text("no")))]);
    for (answers, words) in [
        (
            with(prepared(), vec![Answer::LabelIs(None)]),
            "Error: Can't process No Review Needed with GitHub label unset.",
        ),
        (
            with(labeled(), vec![Answer::Written(Err(DbError::Other))]),
            "Error: An internal error occurred.",
        ),
        (
            with(labeled(), vec![Answer::Written(Ok(())), Answer::Failed]),
            "Error: Failed to set GitHub label.",
        ),
        (
            with(labeled(), vec![Answer::Written(Ok(())), Answer::Done, Answer::Failed]),
            "Error: Failed to create GitHub comment.",
        ),
        (
            with(
                labeled(),
                vec![Answer::Written(Ok(())), Answer::Done, Answer::Done, Answer::Failed],
            ),
            "Error: Failed to delete intake discussion.",
        ),
    ] {
        let actions = drive(no_review(), answers);
        assert_eq!(told(actions.last().unwrap()), words);
    }
}

fn mute() -> MuteReminders {
    MuteReminders { pr_id: 12, user_name: text("bob"), stage: MuteStage::New }
}

#[test]
fn reminders_are_muted() {
    let (run, _) = button_click_mute_reminders_task(mute(), Answer::Start);
    let actions = drive(
        run,
        vec![
            Answer::Discussion(Ok(reviewed())),
            Answer::Channel(Some(guild_channel(Some(REVIEW)))),
            Answer::Forum(Some(forum())),
            Answer::Written(Ok(())),
            Answer::Done,
        ],
    );
    assert!(matches!(actions[1], Action::Database(Statement::SelectForum { channel_id: 300 })));
    assert!(matches!(actions[2], Action::Database(Statement::ClearNextReminder { pr_id: 12 })));
    assert!(matches!(actions[3], Action::Respond { ephemeral: false, .. }));
    assert_eq!(told(&actions[3]), "bob disabled reminders for PR #12.");
    assert!(matches!(actions[4], Action::Finish));
}

#[test]
fn reminders_are_not_muted() {
    let up_to = |row: DiscussionRow| {
        vec![
            Answer::Start,
            Answer::Discussion(Ok(row)),
            Answer::Channel(Some(guild_channel(Some(REVIEW)))),
            Answer::Forum(Some(forum())),
        ]
    };
    let actions = drive(mute(), up_to(row()));
    assert_eq!(told(&actions[3]), "Reminders have already been disabled for this PR.");
    let failing = with(up_to(reviewed()), vec![Answer::Written(Err(DbError::Other)), Answer::Done]);
    let actions = drive(mute(), failing);
    assert!(matches!(actions[4], Action::DeferEphemeral));
    assert_eq!(
        told(&actions[5]),
        "Failed to disable reminders for PR #12: An internal error occurred."
    );
    let lost = drive(mute(), vec![Answer::Start, Answer::Discussion(Err(DbError::RowNotFound))]);
    assert!(matches!(lost[1], Action::Acknowledge));
}

fn complete(outcome: CrOutcome) -> Command<Complete> {
    Command::New {
        author: UserId::new(7),
        body: Complete {
            args: CompleteArgs {
                channel: channel(THREAD),
                author_name: text("bob"),
                outcome,
                comment: Some(text("done")),
            },
            stage: CompleteStage::New,
        },
    }
}

fn located(row: DiscussionRow) -> Vec<Answer> {
    vec![
        Answer::Start,
        Answer::Holds(true),
        Answer::Channel(Some(guild_channel(Some(REVIEW)))),
        Answer::Forum(Some(forum())),
        Answer::Discussion(Ok(row)),
    ]
}

#[test]
fn a_denied_review_is_completed() {
    let (run, first) = cr_complete(complete(CrOutcome::Denied), Answer::Start);
    assert!(matches!(first, Action::HasFlags(7, Permission::ContentReviewer)));
    let actions = drive(
        run,
        with(
            located(reviewed()).into_iter().skip(1).collect(),
            vec![
                Answer::LabelIs(Some(text("under"))),
                Answer::LabelIs(Some(text("denied"))),
                Answer::Done,
                Answer::Done,
                Answer::Failed,
                Answer::Done,
                Answer::Written(Ok(())),
                Answer::LabelRemoval(LabelRemoval::Refused(410)),
                Answer::Done,
                Answer::LabelIs(Some(text("changes"))),
                Answer::LabelRemoval(LabelRemoval::Refused(404)),
                Answer::Done,
                Answer::Done,
                Answer::Failed,
                Answer::Done,
                Answer::Done,
            ],
        ),
    );
    assert!(matches!(actions[0], Action::CurrentChannel));
    assert!(matches!(actions[1], Action::Database(Statement::SelectForum { channel_id: 300 })));
    assert!(matches!(
        actions[2],
        Action::Database(Statement::SelectDiscussionByThread { thread_id: 200 })
    ));
    assert!(matches!(actions[3], Action::ReadLabel(LabelSetting::UnderReview)));
    assert!(matches!(actions[4], Action::ReadLabel(LabelSetting::Denied)));
    assert!(matches!(actions[5], Action::Defer));
    assert!(matches!(&actions[6], Action::AddLabel(12, l) if l == "denied"));
    assert!(matches!(actions[7], Action::ClosePull(12)));
    assert_eq!(told(&actions[8]), "Failed to close PR.");
    assert!(matches!(actions[9], Action::Database(Statement::ClearNextReminder { pr_id: 12 })));
    assert!(matches!(&actions[10], Action::RemoveLabel(12, l) if l == "under"));
    assert_eq!(told(&actions[11]), "Failed to remove 'under' label");
    assert!(matches!(actions[12], Action::ReadLabel(LabelSetting::ChangesRequested)));
    assert!(matches!(&actions[13], Action::RemoveLabel(12, l) if l == "changes"));
    assert!(matches!(
        actions[14],
        Action::PostComment(12, Comment::Consensus { outcome: CrOutcome::Denied, .. })
    ));
    assert!(matches!(
        actions[15],
        Action::ReplyCard(Card::Closed { outcome: CrOutcome::Denied, .. })
    ));
    match &actions[16] {
        Action::EditThread(_, edit) => {
            assert_eq!(edit.new_tags(), Some(vec![ForumTagId::new(9), ForumTagId::new(3)]));
            assert!(!edit.archives());
        }
        other => panic!("{other:?}"),
    }
    assert_eq!(told(&actions[17]), "Failed to label thread. Lacking permissions?");
    assert!(matches!(actions[18], Action::EditThread(_, ThreadEdit::Archive)));
    assert!(matches!(actions[19], Action::Finish));
}

#[test]
fn an_approved_pull_stays_open() {
    for (outcome, tag) in [(CrOutcome::Approved, 2), (CrOutcome::TestMerge, 4)] {
        let actions = drive(
            complete(outcome),
            with(
                located(row()),
                vec![
                    Answer::LabelIs(Some(text("under"))),
                    Answer::LabelIs(Some(text("approved"))),
                    Answer::Done,
                    Answer::Done,
                    Answer::LabelRemoval(LabelRemoval::Removed),
                    Answer::LabelIs(None),
                    Answer::Done,
                    Answer::Done,
                    Answer::Done,
                    Answer::Failed,
                ],
            ),
        );
        assert!(matches!(actions[5], Action::ReadLabel(LabelSetting::Approved)));
        assert!(matches!(&actions[7], Action::AddLabel(12, l) if l == "approved"));
        assert!(actions.iter().all(|a| !matches!(a, Action::ClosePull(_))));
        assert!(matches!(actions[8], Action::RemoveLabel(12, _)));
        assert!(matches!(actions[10], Action::PostComment(..)));
        match &actions[12] {
            Action::EditThread(_, edit) => {
                assert_eq!(edit.new_tags().unwrap().last(), Some(&ForumTagId::new(tag)))
            }
            other => panic!("{other:?}"),
        }
        assert_eq!(told(&actions[14]), "Failed to archive thread. Lacking permissions?");
    }
}

#[test]
fn a_completion_tells_what_failed() {
    let done = |outcome: CrOutcome, more: Vec<Answer>| {
        let actions = drive(complete(outcome), with(located(row()), more));
        told(actions.last().unwrap())
    };
    let label = |s: &str| Answer::LabelIs(Some(text(s)));
    assert_eq!(
        done(CrOutcome::Denied, vec![Answer::LabelIs(None)]),
        "Can't close with unset Under Review label."
    );
    assert_eq!(
        done(CrOutcome::Denied, vec![label("u"), Answer::LabelIs(None)]),
        "Can't close with unset CR Denied label."
    );
    assert_eq!(
        done(CrOutcome::TestMerge, vec![label("u"), Answer::LabelIs(None)]),
        "Can't close with unset CR Approved label."
    );
    assert_eq!(
        done(CrOutcome::Denied, vec![label("u"), label("d"), Answer::Done, Answer::Failed]),
        "Failed to add CR Denied GitHub label."
    );
    assert_eq!(
        done(CrOutcome::Approved, vec![label("u"), label("d"), Answer::Done, Answer::Failed]),
        "Failed to add CR Approved GitHub label."
    );
    assert_eq!(
        done(
            CrOutcome::Approved,
            vec![
                label("u"),
                label("a"),
                Answer::Done,
                Answer::Done,
                Answer::LabelRemoval(LabelRemoval::Failed),
                Answer::LabelIs(None),
                Answer::Failed
            ]
        ),
        "Failed to create GitHub comment."
    );
}

#[test]
fn a_command_outside_of_a_discussion_is_refused() {
    let lost = |more: Vec<Answer>| {
        let actions = drive(
            complete(CrOutcome::Approved),
            with(vec![Answer::Start, Answer::Holds(true)], more),
        );
        told(actions.last().unwrap())
    };
    assert_eq!(lost(vec![Answer::Channel(None)]), "Error: Must be in a guild channel.");
    assert_eq!(
        lost(vec![Answer::Channel(Some(guild_channel(None)))]),
        "Error: Must be in a forum channel."
    );
    let here = || Answer::Channel(Some(guild_channel(Some(REVIEW))));
    assert_eq!(lost(vec![here(), Answer::Forum(None)]), "Error: Must be in a registered CR forum.");
    assert_eq!(
        lost(vec![
            here(),
            Answer::Forum(Some(forum())),
            Answer::Discussion(Err(DbError::RowNotFound))
        ]),
        "Error: There is no PR associated with this thread."
    );
}

fn request() -> Command<RequestChanges> {
    Command::New {
        author: UserId::new(7),
        body: RequestChanges {
            args: RequestArgs { channel: channel(THREAD), author_name: text("bob") },
            stage: RequestStage::New,
        },
    }
}

fn labels_read() -> Vec<Answer> {
    vec![Answer::LabelIs(Some(text("under"))), Answer::LabelIs(Some(text("changes")))]
}

#[test]
fn changes_are_requested() {
    let (run, _) = cr_request_changes(request(), Answer::Start);
    let answers = with(located(reviewed()).into_iter().skip(1).collect(), labels_read());
    let actions = drive(
        run,
        with(
            answers,
            vec![
                Answer::ChangesForm(Ok(Some(text("fix it")))),
                Answer::Done,
                Answer::Done,
                Answer::Done,
                Answer::LabelRemoval(LabelRemoval::Removed),
                Answer::Written(Ok(())),
            ],
        ),
    );
    assert!(matches!(actions[5], Action::ShowChangesForm));
    assert!(matches!(&actions[6], Action::PostComment(12, Comment::ChangesRequested { description, by })
        if description == "fix it" && by == "bob"));
    assert!(matches!(actions[7], Action::ReplyCard(Card::ChangesRequested { .. })));
    assert!(matches!(&actions[8], Action::AddLabel(12, l) if l == "changes"));
    assert!(matches!(&actions[9], Action::RemoveLabel(12, l) if l == "under"));
    assert!(matches!(actions[10], Action::Database(Statement::ClearNextReminder { pr_id: 12 })));
    assert!(matches!(actions[11], Action::Finish));
}

#[test]
fn changes_without_words_get_no_comment() {
    let answers = with(located(row()), labels_read());
    let actions = drive(
        request(),
        with(
            answers,
            vec![
                Answer::ChangesForm(Ok(Some(text("")))),
                Answer::Done,
                Answer::Done,
                Answer::LabelRemoval(LabelRemoval::Refused(410)),
                Answer::Done,
            ],
        ),
    );
    assert!(actions.iter().all(|a| !matches!(a, Action::PostComment(..))));
    assert!(matches!(actions[7], Action::ReplyCard(Card::ChangesRequested { .. })));
    assert!(matches!(&actions[8], Action::AddLabel(12, l) if l == "changes"));
    assert_eq!(told(&actions[10]), "Failed to remove 'under' label");
    assert!(matches!(actions[11], Action::Finish));
}

#[test]
fn a_request_tells_what_failed() {
    let done = |row: DiscussionRow, more: Vec<Answer>| {
        let actions = drive(request(), with(located(row), more));
        told(actions.last().unwrap())
    };
    assert_eq!(
        done(row(), vec![Answer::LabelIs(None)]),
        "Can't process change request with under review label unset."
    );
    assert_eq!(
        done(row(), vec![Answer::LabelIs(Some(text("u"))), Answer::LabelIs(None)]),
        "Can't process change request with changes requested label unset."
    );
    assert_eq!(
        done(row(), with(labels_read(), vec![Answer::ChangesForm(Ok(None))])),
        "Modal timed out."
    );
    let words = || Answer::ChangesForm(Ok(Some(text("x"))));
    assert_eq!(
        done(row(), with(labels_read(), vec![words(), Answer::Failed])),
        "Failed to create GitHub comment"
    );
    assert_eq!(
        done(row(), with(labels_read(), vec![words(), Answer::Done, Answer::Done, Answer::Failed])),
        "Failed to set changes requested label"
    );
    assert_eq!(
        done(
            reviewed(),
            with(
                labels_read(),
                vec![
                    words(),
                    Answer::Done,
                    Answer::Done,
                    Answer::Done,
                    Answer::LabelRemoval(LabelRemoval::Removed),
                    Answer::Written(Err(DbError::Other))
                ]
            )
        ),
        "Failed to disable reminders upon change request: An internal error occurred."
    );
}
