use deltav_bot::discord::action::ThreadEdit;
use deltav_bot::discord::content_review::data::config::ignored::{IgnoreCriteria, IgnoreCriterion, IgnoredKind};
use deltav_bot::discord::content_review::data::config::{CrConfig, Setting};
use deltav_bot::discord::content_review::data::discussions::{to_record, DiscussionRecord};
use deltav_bot::discord::content_review::data::forums::{
    delete_forum_by_channel_statement, ForumRecord,
};
use deltav_bot::discord::error::{DbError, HandledError};
use deltav_bot::discord::ids::{ChannelId, ForumTagId, MessageId, RoleId, UserId};
use deltav_bot::discord::pr_feeds::data::{PrFeed, PrFeeds};
use deltav_bot::discord::store::{
    ConfigColumn, ConfigRow, DiscussionRow, FeedRow, IgnoredRow, Statement,
};
use deltav_bot::clock::DAY_MICROS;

fn row() -> DiscussionRow {
    DiscussionRow {
        pr_id: 12,
        forum_id: ChannelId::new(100),
        thread_id: ChannelId::new(200),
        triaged_by: Some(UserId::new(9)),
        review_days_total: Some(7),
        review_days_passed: Some(2),
        review_days_next_micros: Some(1_000),
        pr_title: "Title".to_string(),
        pr_author: "Author".to_string(),
        pr_body: Some("Body".to_string()),
    }
}

#[test]
fn discussions_are_read() {
    let record = DiscussionRecord::get_by_thread(Ok(row())).unwrap();
    assert_eq!(record.pr_id, 12);
    assert_eq!(record.triaged_by, Some(UserId::new(9)));
    assert_eq!(record.review_days_total, Some(7));
    assert!(DiscussionRecord::get_by_thread(Err(DbError::RowNotFound)).is_none());
    let by_pr = DiscussionRecord::get_by_pr(Ok(row())).unwrap();
    assert_eq!(by_pr.triaged_by, None);
    assert_eq!(by_pr, DiscussionRecord { triaged_by: None, ..record.clone() });
    assert!(DiscussionRecord::get_by_pr(Err(DbError::Other)).is_none());
    assert_eq!(DiscussionRecord::get_all(Ok(vec![row(), row()])), vec![record.clone(), record]);
    assert!(DiscussionRecord::get_all(Err(DbError::Other)).is_empty());
}

#[test]
fn discussions_are_asked_for() {
    assert_eq!(DiscussionRecord::get_all_statement(), Statement::SelectDiscussions);
    assert_eq!(
        DiscussionRecord::get_by_pr_statement(u64::MAX),
        Statement::SelectDiscussionByPr { pr_id: -1 }
    );
    assert_eq!(
        DiscussionRecord::get_by_thread_statement(ChannelId::new(5)),
        Statement::SelectDiscussionByThread { thread_id: 5 }
    );
}

#[test]
fn an_inserted_discussion_reads_back() {
    let record = DiscussionRecord { triaged_by: None, ..to_record(row()) };
    match record.clone().insert_statement() {
        Statement::InsertDiscussion {
            pr_id,
            forum_id,
            thread_id,
            review_days_total,
            review_days_passed,
            review_days_next_micros,
            pr_title,
            pr_author,
            pr_body,
        } => {
            let kept = DiscussionRow {
                pr_id,
                forum_id: ChannelId::from_column(forum_id),
                thread_id: ChannelId::from_column(thread_id),
                triaged_by: None,
                review_days_total,
                review_days_passed,
                review_days_next_micros,
                pr_title,
                pr_author,
                pr_body,
            };
            assert_eq!(DiscussionRecord::get_by_pr(Ok(kept)), Some(record));
        }
        other => panic!("{other:?}"),
    }
    assert_eq!(DiscussionRecord::insert(Ok(())), Ok(()));
    assert_eq!(DiscussionRecord::insert(Err(DbError::Other)), Err(HandledError::InternalError));
}

#[test]
fn discussions_are_moved() {
    let mut record = to_record(row());
    let thread = ChannelId::new(201);
    let forum = ChannelId::new(101);
    assert_eq!(
        record.set_thread_id_statement(thread),
        Statement::UpdateThread { pr_id: 12, thread_id: 201 }
    );
    assert_eq!(record.set_thread_id(thread, Err(DbError::Other)), Err(HandledError::InternalError));
    assert_eq!(record.thread_id, ChannelId::new(200));
    assert_eq!(record.set_thread_id(thread, Ok(())), Ok(()));
    assert_eq!(record.thread_id, thread);
    assert_eq!(
        record.set_forum_id_statement(forum),
        Statement::UpdateForum { pr_id: 12, forum_id: 101 }
    );
    assert_eq!(record.set_forum_id(forum, Ok(())), Ok(()));
    assert_eq!(record.forum_id, forum);
    let user = UserId::new(77);
    assert_eq!(
        record.set_triaged_by_statement(user),
        Statement::UpdateTriagedBy { pr_id: 12, triaged_by: 77 }
    );
    assert_eq!(record.set_triaged_by(user, Ok(())), Ok(()));
    assert_eq!(record.triaged_by, Some(user));
    assert_eq!(record.delete_body_statement(), Statement::ClearBody { pr_id: 12 });
    assert_eq!(DiscussionRecord::delete_body(Err(DbError::Other)), Err(HandledError::InternalError));
    assert_eq!(record.delete_statement(), Statement::DeleteDiscussion { pr_id: 12 });
    assert_eq!(DiscussionRecord::delete(Ok(())), Ok(()));
}

#[test]
fn the_review_clock_runs() {
    let mut record = to_record(row());
    assert_eq!(DiscussionRecord::next_micros_after(5), Some(5 + DAY_MICROS));
    assert_eq!(
        record.setup_review_time_statement(30, 99),
        Statement::UpdateReviewTime { pr_id: 12, total: 30, passed: 0, next_micros: 99 }
    );
    assert_eq!(record.setup_review_time(30, 99, Ok(())), Ok(()));
    assert_eq!(record.review_days_total, Some(30));
    assert_eq!(record.review_days_passed, Some(0));
    assert_eq!(record.review_days_next_micros, Some(99));
    assert_eq!(
        record.advance_review_timer_statement(199),
        Statement::UpdateReviewTimer { pr_id: 12, passed: 1, next_micros: 199 }
    );
    assert_eq!(record.advance_review_timer(199, Err(DbError::Other)), Err(HandledError::InternalError));
    assert_eq!(record.review_days_passed, Some(0));
    assert_eq!(record.advance_review_timer(199, Ok(())), Ok(()));
    assert_eq!(record.review_days_passed, Some(1));
    assert_eq!(record.review_days_next_micros, Some(199));
    record.review_days_passed = None;
    assert_eq!(record.advance_review_timer(299, Ok(())), Ok(()));
    assert_eq!(record.review_days_passed, Some(1));
    assert!(DiscussionRecord::get_next_micros().unwrap() > DAY_MICROS);
}

#[test]
fn reminders_stop_once() {
    let mut record = to_record(row());
    assert_eq!(
        record.disable_reminders_statement(),
        Some(Statement::ClearNextReminder { pr_id: 12 })
    );
    assert_eq!(record.disable_reminders(Err(DbError::Other)), Err(HandledError::InternalError));
    assert_eq!(record.review_days_next_micros, Some(1_000));
    assert_eq!(record.disable_reminders(Ok(())), Ok(true));
    assert_eq!(record.disable_reminders_statement(), None);
    assert_eq!(record.disable_reminders(Err(DbError::Other)), Ok(false));
    assert_eq!(record.review_days_next_micros, None);
}

#[test]
fn issues_and_votes_are_asked_for() {
    let record = to_record(row());
    let user = UserId::new(3);
    let message = MessageId::new(4);
    assert_eq!(
        record.upsert_issue_statement(user, message),
        Statement::UpsertIssue { pr_id: 12, user_id: 3, message_id: 4 }
    );
    assert_eq!(
        record.upsert_issue_override_statement(user, message),
        Statement::UpsertOverride { pr_id: 12, user_id: 3, message_id: 4 }
    );
    assert_eq!(
        record.upsert_override_of_statement(UserId::new(8), user, message),
        Statement::UpsertIssueOverride { pr_id: 12, issue_author: 8, user_id: 3, message_id: 4 }
    );
    assert_eq!(
        record.get_issue_override_statement(UserId::new(8), user),
        Statement::SelectIssueOverride { pr_id: 12, issue_author: 8, user_id: 3 }
    );
    assert_eq!(
        record.get_overrides_of_statement(user),
        Statement::SelectIssueOverrides { pr_id: 12, issue_author: 3 }
    );
    assert_eq!(record.clear_issue_overrides_statement(), Statement::DeleteOverrides { pr_id: 12 });
    assert_eq!(record.get_raised_issues_statement(), Statement::SelectIssues { pr_id: 12 });
    assert_eq!(record.count_raised_issues_statement(), Statement::CountIssues { pr_id: 12 });
    assert_eq!(record.count_overrides_statement(), Statement::CountOverrides { pr_id: 12 });
    assert_eq!(
        record.delete_issue_by_author_statement(user),
        Statement::DeleteIssueByAuthor { pr_id: 12, user_id: 3 }
    );
    assert_eq!(
        record.delete_override_by_author_statement(user),
        Statement::DeleteOverrideByAuthor { pr_id: 12, user_id: 3 }
    );
    assert_eq!(DiscussionRecord::get_issue_by_author(Ok(Some(message))), Ok(Some(message)));
    assert_eq!(DiscussionRecord::get_issue_by_author(Err(DbError::RowNotFound)), Ok(None));
    assert_eq!(
        DiscussionRecord::get_override_by_author(Err(DbError::Other)),
        Err(HandledError::InternalError)
    );
    assert_eq!(DiscussionRecord::count_overrides(Ok(5)), Ok(5));
    assert_eq!(
        DiscussionRecord::count_raised_issues(Err(DbError::RowNotFound)),
        Err(HandledError::InternalError)
    );
    assert_eq!(DiscussionRecord::get_issue_overrides(Ok(vec![(user, message)])), Ok(vec![(user, message)]));
    assert_eq!(
        DiscussionRecord::get_raised_issues(Err(DbError::Other)),
        Err(HandledError::InternalError)
    );
}

fn config() -> CrConfig {
    CrConfig::from_db(Ok(None), IgnoreCriteria::from_db(Ok(vec![])).unwrap()).unwrap()
}

#[test]
fn settings_are_read() {
    let empty = config();
    assert_eq!(empty.get_intake_forum(), None);
    assert_eq!(empty.get_approved_label(), None);
    assert!(empty.get_cr_github_labels().is_empty());
    let row = ConfigRow {
        intake_cr_forum: Some(ChannelId::new(1)),
        private_cr_forum: Some(ChannelId::new(2)),
        public_cr_forum: Some(ChannelId::new(3)),
        gh_label_under_review: Some("under".to_string()),
        gh_label_no_review: Some("none".to_string()),
        gh_label_cr_approved: Some("yes".to_string()),
        gh_label_cr_denied: None,
        gh_label_cr_changes_requested: Some("change".to_string()),
        review_ping_role: Some(RoleId::new(4)),
    };
    let read = CrConfig::from_db(Ok(Some(row)), IgnoreCriteria::from_db(Ok(vec![])).unwrap()).unwrap();
    assert_eq!(read.get_intake_forum(), Some(ChannelId::new(1)));
    assert_eq!(read.get_private_forum(), Some(ChannelId::new(2)));
    assert_eq!(read.get_public_forum(), Some(ChannelId::new(3)));
    assert_eq!(read.get_no_review_needed_label(), Some("none".to_string()));
    assert_eq!(read.get_denied_label(), None);
    assert_eq!(read.get_review_ping_role(), Some(RoleId::new(4)));
    assert_eq!(read.get_cr_github_labels(), vec!["yes", "under", "change"]);
    assert!(CrConfig::from_db(Err(DbError::Other), IgnoreCriteria::from_db(Ok(vec![])).unwrap()).is_err());
}

#[test]
fn settings_are_made() {
    let mut c = config();
    let intake = Setting::IntakeForum(ChannelId::new(5));
    assert_eq!(
        intake.clone().statement(),
        Statement::UpsertConfig(ConfigColumn::IntakeForum(Some(5)))
    );
    assert_eq!(
        c.set(intake.clone(), Err(DbError::Other)),
        Err(HandledError::UserfacingError(
            "Failed to set intake forum. Did you register it as a forum first?"
        ))
    );
    assert_eq!(c.get_intake_forum(), None);
    assert_eq!(c.set(intake, Ok(())), Ok(()));
    assert_eq!(c.get_intake_forum(), Some(ChannelId::new(5)));
    assert_eq!(
        c.set_public_forum(Some(ChannelId::new(6)), Err(DbError::Other)),
        Err(HandledError::UserfacingError("Did you register it as a forum first?"))
    );
    assert_eq!(
        c.set_private_forum(Some(ChannelId::new(6)), Err(DbError::Other)),
        Err(HandledError::UserfacingError("Did you register it as a forum first?"))
    );
    assert_eq!(
        c.set(Setting::DeniedLabel("no".to_string()), Err(DbError::Other)),
        Err(HandledError::InternalError)
    );
    assert_eq!(c.set(Setting::DeniedLabel("no".to_string()), Ok(())), Ok(()));
    assert_eq!(c.set(Setting::ApprovedLabel("yes".to_string()), Ok(())), Ok(()));
    assert_eq!(c.set(Setting::ApprovedLabel("yes!".to_string()), Ok(())), Ok(()));
    assert_eq!(c.get_cr_github_labels(), vec!["yes!", "no"]);
    assert_eq!(c.set_review_ping_role(Some(RoleId::new(7)), Ok(())), Ok(()));
    assert_eq!(c.get_review_ping_role(), Some(RoleId::new(7)));
    assert_eq!(
        CrConfig::set_under_review_label_statement("x".to_string()),
        Statement::UpsertConfig(ConfigColumn::UnderReviewLabel("x".to_string()))
    );
    assert_eq!(
        CrConfig::set_review_ping_role_statement(None),
        Statement::UpsertConfig(ConfigColumn::ReviewPingRole(None))
    );
    assert_eq!(CrConfig::from_db_statement(), Statement::SelectConfig);
}

fn ignored(id: i64, kind: i64, value: &str) -> IgnoredRow {
    IgnoredRow { id, kind, value: value.to_string() }
}

#[test]
fn criteria_are_read_and_changed() {
    let mut c = IgnoreCriteria::from_db(Ok(vec![
        ignored(1, 0, "bot"),
        ignored(2, 2, "strange"),
        ignored(3, 1, "docs"),
    ]))
    .unwrap();
    assert_eq!(
        c.get_all(),
        vec![
            IgnoreCriterion { id: 1, kind: IgnoredKind::Author, value: "bot".to_string() },
            IgnoreCriterion { id: 3, kind: IgnoredKind::Label, value: "docs".to_string() },
        ]
    );
    assert!(c.is_ignored(IgnoredKind::Author, "bot"));
    assert!(!c.is_ignored(IgnoredKind::Label, "bot"));
    assert!(!c.is_ignored(IgnoredKind::Author, "Bot"));
    assert_eq!(
        IgnoreCriteria::add_statement(IgnoredKind::Label, "ci".to_string()),
        Statement::InsertIgnored { kind: 1, value: "ci".to_string() }
    );
    assert_eq!(c.add(Err(DbError::Other)), Err(HandledError::InternalError));
    assert_eq!(c.add(Ok(ignored(4, 1, "ci"))), Ok(()));
    assert!(c.is_ignored(IgnoredKind::Label, "ci"));
    assert_eq!(IgnoreCriteria::remove_statement(1), Statement::DeleteIgnored { id: 1 });
    assert_eq!(c.remove(1, Err(DbError::Other)), Err(HandledError::InternalError));
    assert!(c.is_ignored(IgnoredKind::Author, "bot"));
    assert_eq!(c.remove(1, Ok(())), Ok(()));
    assert!(!c.is_ignored(IgnoredKind::Author, "bot"));
    assert!(c.is_ignored(IgnoredKind::Label, "ci"));
    assert_eq!(c.remove(1, Ok(())), Ok(()));
    assert_eq!(c.get_all().len(), 2);
    assert!(IgnoreCriteria::from_db(Err(DbError::Other)).is_err());
    assert_eq!(IgnoreCriteria::from_db_statement(), Statement::SelectIgnored);
}

#[test]
fn kinds_have_numbers_and_names() {
    assert_eq!(IgnoredKind::from_repr(0), Some(IgnoredKind::Author));
    assert_eq!(IgnoredKind::from_repr(1), Some(IgnoredKind::Label));
    assert_eq!(IgnoredKind::from_repr(2), None);
    assert_eq!(IgnoredKind::from_repr(-1), None);
    assert_eq!(IgnoredKind::Label.to_repr(), 1);
    assert_eq!(IgnoredKind::Author.name(), "Author");
    assert_eq!(IgnoredKind::Label.name(), "Label");
}

fn feed_row(id: i64, label: &str) -> FeedRow {
    FeedRow {
        id,
        gh_label: label.to_string(),
        channel_id: ChannelId::new(50),
        ping_role: Some(RoleId::new(60)),
    }
}

#[test]
fn feeds_are_read_and_changed() {
    let mut feeds =
        PrFeeds::from_db(Ok(vec![feed_row(1, "bug"), feed_row(2, "art"), feed_row(3, "bug")])).unwrap();
    let first = PrFeed {
        id: 1,
        gh_label: "bug".to_string(),
        channel_id: ChannelId::new(50),
        ping_role: Some(RoleId::new(60)),
    };
    assert_eq!(feeds.get_by_label("bug"), Some(first.clone()));
    assert_eq!(feeds.get(1), Some(first));
    assert_eq!(feeds.get(9), None);
    assert_eq!(feeds.get_by_label("Bug"), None);
    assert_eq!(
        PrFeeds::add_statement("ui".to_string(), ChannelId::new(5), None),
        Statement::InsertFeed { gh_label: "ui".to_string(), channel_id: 5, ping_role: None }
    );
    assert_eq!(feeds.add(Err(DbError::Other)), Err(HandledError::InternalError));
    assert_eq!(feeds.add(Ok(feed_row(4, "ui"))), Ok(()));
    assert_eq!(feeds.get_by_label("ui").unwrap().id, 4);
    assert_eq!(PrFeeds::remove_statement(1), Statement::DeleteFeed { id: 1 });
    assert_eq!(feeds.remove(1, Err(DbError::Other)), Err(HandledError::InternalError));
    assert_eq!(feeds.remove(1, Ok(())), Ok(()));
    assert_eq!(feeds.get(1), None);
    assert_eq!(feeds.get_by_label("bug").unwrap().id, 3);
    assert_eq!(feeds.get_all().len(), 3);
    assert_eq!(feeds.remove(77, Ok(())), Ok(()));
    assert_eq!(feeds.get_all().len(), 3);
    assert!(PrFeeds::from_db(Err(DbError::Other)).is_err());
    assert_eq!(PrFeeds::from_db_statement(), Statement::SelectFeeds);
}

#[test]
fn forums_are_written() {
    let forum = ForumRecord {
        channel_id: ChannelId::new(1),
        private: true,
        tag_cr_approved: ForumTagId::new(2),
        tag_cr_denied: ForumTagId::new(3),
        tag_cr_test_merge: ForumTagId::new(4),
        tag_pr_closed: ForumTagId::new(5),
        tag_pr_merged: ForumTagId::new(6),
    };
    assert_eq!(
        forum.upsert_statement(),
        Statement::UpsertForum {
            channel_id: 1,
            private: true,
            tag_cr_approved: 2,
            tag_cr_denied: 3,
            tag_cr_test_merge: 4,
            tag_pr_closed: 5,
            tag_pr_merged: 6
        }
    );
    assert_eq!(
        ForumRecord::get_by_channel_statement(ChannelId::new(7)),
        Statement::SelectForum { channel_id: 7 }
    );
    assert_eq!(
        delete_forum_by_channel_statement(ChannelId::new(7)),
        Statement::DeleteForum { channel_id: 7 }
    );
}

#[test]
fn tags_are_changed() {
    let tag = |n: u64| ForumTagId::new(n);
    let remove = ThreadEdit::RemoveTag { applied: vec![tag(1), tag(2), tag(1)], tag: tag(1) };
    assert_eq!(remove.new_tags(), Some(vec![tag(2)]));
    assert!(!remove.archives());
    let add = ThreadEdit::AddTag { applied: vec![tag(1)], tag: tag(2), archive: true };
    assert_eq!(add.new_tags(), Some(vec![tag(1), tag(2)]));
    assert!(add.archives());
    let only = ThreadEdit::AddTag { applied: vec![], tag: tag(2), archive: false };
    assert_eq!(only.new_tags(), Some(vec![tag(2)]));
    assert!(!only.archives());
    assert_eq!(ThreadEdit::Archive.new_tags(), None);
    assert!(ThreadEdit::Archive.archives());
}
