use deltav_bot::clock::DAY_MICROS;
use deltav_bot::discord::action::{Action, Answer, Run, Task};
use deltav_bot::discord::content_review::component_events::{
    accepts, cr_component_task, ComponentRun, ComponentStage,
};
use deltav_bot::discord::content_review::consts::make_component_id;
use deltav_bot::discord::content_review::notices::Notice;
use deltav_bot::discord::content_review::timers::{cr_timers_task, TimerStage, Timers};
use deltav_bot::discord::error::DbError;
use deltav_bot::discord::ids::{ChannelId, GuildId, RoleId, UserId};
use deltav_bot::discord::permissions::data::Permission;
use deltav_bot::discord::store::{DiscussionRow, Statement};
use deltav_bot::discord::texts::Text;

fn press(custom_id: &str) -> ComponentRun {
    ComponentRun {
        custom_id: custom_id.to_string(),
        is_button: true,
        user: UserId::new(5),
        guild: Some(GuildId::new(1)),
        stage: ComponentStage::New,
    }
}

#[test]
fn identifiers_belong_to_the_content_review() {
    assert!(accepts("cr_startPublic_5"));
    assert!(accepts("cr_"));
    assert!(!accepts("cr"));
    assert!(!accepts("xcr_a_5"));
    assert_eq!(make_component_id("startPublic", 18446744073709551615), "cr_startPublic_18446744073709551615");
    assert!(accepts(&make_component_id("any", 0)));
}

#[test]
fn buttons_lead_to_their_tasks() {
    for (action, task) in [
        ("startPublic", Task::StartReview { pr_id: 12, private: false }),
        ("startPrivate", Task::StartReview { pr_id: 12, private: true }),
        ("notNeeded", Task::NoReviewNeeded { pr_id: 12 }),
        ("muteReminders", Task::MuteReminders { pr_id: 12 }),
        ("viewIssues", Task::ViewIssues { pr_id: 12 }),
    ] {
        let run = press(&make_component_id(action, 12));
        let (run, asked) = cr_component_task(run, Answer::Start);
        assert!(matches!(asked, Action::HasFlags(5, Permission::ContentReviewer)));
        let (_, last) = cr_component_task(run, Answer::Holds(true));
        assert!(matches!(last, Action::Spawn(t) if t == task));
    }
}

#[test]
fn an_unknown_button_does_nothing() {
    let (run, _) = press("cr_other_12").step(Answer::Start);
    let (_, last) = run.step(Answer::Holds(true));
    assert!(matches!(last, Action::Finish));
}

#[test]
fn a_malformed_button_is_answered() {
    for id in ["cr_startPublic", "cr_startPublic_x", "cr_start_public_5", "cr_startPublic_-1"] {
        let (run, told) = press(id).step(Answer::Start);
        assert!(matches!(
            told,
            Action::Respond { text: Text::Plain("An internal error occurred."), ephemeral: false }
        ));
        let (_, last) = run.step(Answer::Done);
        assert!(matches!(last, Action::Finish));
    }
}

#[test]
fn menus_are_left_alone() {
    let run = ComponentRun { is_button: false, ..press("cr_startPublic_5") };
    let (_, last) = run.step(Answer::Start);
    assert!(matches!(last, Action::Finish));
}

#[test]
fn a_stranger_starts_no_task() {
    let (run, _) = press("cr_startPublic_5").step(Answer::Start);
    let (run, action) = run.step(Answer::Holds(false));
    assert!(matches!(action, Action::MemberRoles(..)));
    let (run, action) = run.step(Answer::Roles(Some(vec![RoleId::new(3)])));
    assert!(matches!(action, Action::HasFlags(3, Permission::ContentReviewer)));
    let (run, action) = run.step(Answer::Holds(false));
    assert!(matches!(action, Action::Respond { ephemeral: true, .. }));
    let (_, last) = run.step(Answer::Done);
    assert!(matches!(last, Action::Finish));
}

fn row(pr_id: i64, next: Option<i64>) -> DiscussionRow {
    DiscussionRow {
        pr_id,
        forum_id: ChannelId::new(100),
        thread_id: ChannelId::new(200),
        triaged_by: None,
        review_days_total: Some(7),
        review_days_passed: Some(2),
        review_days_next_micros: next,
        pr_title: "Title".to_string(),
        pr_author: "ann".to_string(),
        pr_body: None,
    }
}

fn round(rows: Vec<DiscussionRow>, answers: Vec<Answer>) -> Vec<Action> {
    let start = Timers { rows: vec![], at: 0, stage: TimerStage::New };
    let (run, first) = cr_timers_task(start, Answer::Start);
    assert!(matches!(first, Action::Database(Statement::SelectDiscussions)));
    let (mut run, action) = cr_timers_task(run, Answer::Discussions(Ok(rows)));
    let mut actions = vec![action];
    for answer in answers {
        let (next, action) = cr_timers_task(run, answer);
        run = next;
        actions.push(action);
    }
    actions
}

#[test]
fn reminders_are_sent_when_due() {
    let actions = round(
        vec![row(1, None), row(12, Some(1_000))],
        vec![
            Answer::Now(1_000),
            Answer::Now(1_500),
            Answer::Written(Ok(())),
            Answer::PingRoleIs(Some(RoleId::new(5))),
            Answer::Failed,
            Answer::Count(Ok(3)),
            Answer::Count(Err(DbError::Other)),
            Answer::Failed,
            Answer::Done,
        ],
    );
    assert!(matches!(actions[0], Action::ReadClock));
    assert!(matches!(actions[1], Action::ReadClock));
    match &actions[2] {
        Action::Database(statement) => assert_eq!(
            statement,
            &Statement::UpdateReviewTimer { pr_id: 12, passed: 3, next_micros: 1_500 + DAY_MICROS }
        ),
        other => panic!("{other:?}"),
    }
    assert!(matches!(actions[3], Action::ReadPingRole));
    match &actions[4] {
        Action::SendMessage(to, Notice::Reminder { pr_id, passed, total, ping }) => {
            assert_eq!((to.get(), *pr_id, *passed, *total), (200, 12, 3, 7));
            assert_eq!(*ping, Some(RoleId::new(5)));
        }
        other => panic!("{other:?}"),
    }
    assert!(matches!(actions[5], Action::Database(Statement::CountIssues { pr_id: 12 })));
    assert!(matches!(actions[6], Action::Database(Statement::CountOverrides { pr_id: 12 })));
    assert!(matches!(
        actions[7],
        Action::SendMessage(_, Notice::IssueSummary { pr_id: 12, issues: Some(3), overrides: None })
    ));
    assert!(matches!(actions[8], Action::Sleep(10)));
    assert!(matches!(actions[9], Action::Database(Statement::SelectDiscussions)));
}

#[test]
fn reminders_that_are_not_due_wait() {
    let actions = round(vec![row(12, Some(1_001))], vec![Answer::Now(1_000)]);
    assert!(matches!(actions[1], Action::Sleep(10)));
    let actions = round(vec![], vec![]);
    assert!(matches!(actions[0], Action::Sleep(10)));
    let actions = round(vec![row(1, None)], vec![]);
    assert!(matches!(actions[0], Action::Sleep(10)));
}

#[test]
fn a_reminder_that_cannot_be_recorded_is_not_sent() {
    let actions = round(
        vec![row(12, Some(1)), row(13, Some(2))],
        vec![Answer::Now(5), Answer::Now(5), Answer::Written(Err(DbError::Other)), Answer::Now(1)],
    );
    assert!(matches!(actions[3], Action::ReadClock));
    assert!(matches!(actions[4], Action::Sleep(10)));
}

#[test]
fn a_review_without_days_cannot_be_reminded_of() {
    let broken = DiscussionRow { review_days_total: None, ..row(12, Some(1)) };
    let actions = round(
        vec![broken],
        vec![
            Answer::Now(5),
            Answer::Now(5),
            Answer::Written(Ok(())),
            Answer::PingRoleIs(None),
        ],
    );
    assert!(matches!(
        actions[4],
        Action::Fault("If micros were set, this should be too")
    ));
}
