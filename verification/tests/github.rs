use deltav_bot::discord::action::{
    Action, Answer, ForumSetting, GuildChannel, NewThread, Run, ThreadEdit,
};
use deltav_bot::discord::content_review::data::config::ignored::IgnoredKind;
use deltav_bot::discord::content_review::data::forums::ForumRecord;
use deltav_bot::discord::content_review::github_events::{cr_github_task, GithubRun};
use deltav_bot::discord::content_review::notices::{Comment, Notice, Post};
use deltav_bot::discord::error::DbError;
use deltav_bot::discord::ids::{ChannelId, ForumTagId, GuildId, RoleId};
use deltav_bot::discord::pr_feeds::data::PrFeed;
use deltav_bot::discord::store::{DiscussionRow, Statement};
use deltav_bot::github::{GitHubMessage, PullInfo};

const INTAKE: u64 = 100;
const THREAD: u64 = 200;

fn text(s: &str) -> String {
    s.to_string()
}

fn channel(n: u64) -> ChannelId {
    ChannelId::new(n)
}

fn row(forum: u64) -> DiscussionRow {
    DiscussionRow {
        pr_id: 12,
        forum_id: channel(forum),
        thread_id: channel(THREAD),
        triaged_by: None,
        review_days_total: None,
        review_days_passed: None,
        review_days_next_micros: None,
        pr_title: text("Title"),
        pr_author: text("ann"),
        pr_body: None,
    }
}

fn forum() -> ForumRecord {
    ForumRecord {
        channel_id: channel(300),
        private: false,
        tag_cr_approved: ForumTagId::new(2),
        tag_cr_denied: ForumTagId::new(3),
        tag_cr_test_merge: ForumTagId::new(4),
        tag_pr_closed: ForumTagId::new(5),
        tag_pr_merged: ForumTagId::new(6),
    }
}

fn thread(tags: Vec<ForumTagId>) -> GuildChannel {
    GuildChannel {
        id: channel(THREAD),
        guild: GuildId::new(1),
        parent: Some(channel(300)),
        applied_tags: tags,
    }
}

fn drive(message: GitHubMessage, answers: Vec<Answer>) -> Vec<Action> {
    let (mut run, first) = cr_github_task(GithubRun::New(message), Answer::Start);
    let mut actions = vec![first];
    for answer in answers {
        let (next, action) = run.step(answer);
        run = next;
        actions.push(action);
    }
    actions
}

fn opened() -> GitHubMessage {
    GitHubMessage::PrOpened {
        pr_id: 12,
        pr_title: text("Title"),
        pr_body: Some(text("Body")),
        opened_by: text("ann"),
    }
}

fn unknown() -> Answer {
    Answer::Discussion(Err(DbError::RowNotFound))
}

#[test]
fn an_opened_pull_gets_a_thread() {
    let actions = drive(
        opened(),
        vec![
            Answer::Ignored(false),
            Answer::ForumIs(Some(channel(INTAKE))),
            unknown(),
            Answer::Labels(Some(vec![text("bug")])),
            Answer::ReviewLabels(vec![text("approved")]),
            Answer::Posted(Some(NewThread { id: channel(THREAD), guild: GuildId::new(1) })),
            Answer::Written(Ok(())),
        ],
    );
    assert!(matches!(&actions[0], Action::IsIgnored(IgnoredKind::Author, a) if a == "ann"));
    assert!(matches!(actions[1], Action::ReadForum(ForumSetting::Intake)));
    assert!(matches!(actions[2], Action::Database(Statement::SelectDiscussionByPr { pr_id: 12 })));
    assert!(matches!(actions[3], Action::ListLabels(12)));
    assert!(matches!(actions[4], Action::ReadReviewLabels));
    match &actions[5] {
        Action::CreatePost(forum, post) => {
            assert_eq!(forum.get(), INTAKE);
            assert!(matches!(post, Post::Intake { .. }));
            assert_eq!(post.title(), "Title #12");
        }
        other => panic!("{other:?}"),
    }
    match &actions[6] {
        Action::Database(statement) => assert_eq!(
            statement,
            &Statement::InsertDiscussion {
                pr_id: 12,
                forum_id: 100,
                thread_id: 200,
                review_days_total: None,
                review_days_passed: None,
                review_days_next_micros: None,
                pr_title: text("Title"),
                pr_author: text("ann"),
                pr_body: Some(text("Body")),
            }
        ),
        other => panic!("{other:?}"),
    }
    assert!(matches!(actions[7], Action::Finish));
}

#[test]
fn an_ignored_author_gets_no_thread() {
    let actions = drive(opened(), vec![Answer::Ignored(true)]);
    assert!(matches!(actions[1], Action::Finish));
}

#[test]
fn without_an_intake_forum_there_is_no_thread() {
    let actions = drive(opened(), vec![Answer::Ignored(false), Answer::ForumIs(None)]);
    assert!(matches!(actions[2], Action::Finish));
}

#[test]
fn a_pull_with_a_known_label_gets_no_thread() {
    let actions = drive(
        opened(),
        vec![
            Answer::Ignored(false),
            Answer::ForumIs(Some(channel(INTAKE))),
            unknown(),
            Answer::Labels(Some(vec![text("bug"), text("approved")])),
            Answer::ReviewLabels(vec![text("denied"), text("approved")]),
        ],
    );
    assert!(matches!(actions[5], Action::Finish));
}

#[test]
fn failing_to_list_labels_does_not_hinder() {
    let actions = drive(
        opened(),
        vec![
            Answer::Ignored(false),
            Answer::ForumIs(Some(channel(INTAKE))),
            unknown(),
            Answer::Labels(None),
            Answer::ReviewLabels(vec![text("approved")]),
            Answer::Posted(None),
        ],
    );
    assert!(matches!(actions[5], Action::CreatePost(..)));
    assert!(matches!(actions[6], Action::Finish));
}

#[test]
fn a_reopened_pull_gets_no_second_thread() {
    let actions = drive(
        opened(),
        vec![
            Answer::Ignored(false),
            Answer::ForumIs(Some(channel(INTAKE))),
            Answer::Discussion(Ok(row(300))),
            Answer::Forum(Some(forum())),
            Answer::Failed,
            Answer::Channel(Some(thread(vec![ForumTagId::new(5), ForumTagId::new(9)]))),
            Answer::Done,
        ],
    );
    assert!(matches!(actions[3], Action::Database(Statement::SelectForum { channel_id: 300 })));
    match &actions[4] {
        Action::SendMessage(to, Notice::Opened { by }) => {
            assert_eq!(to.get(), THREAD);
            assert_eq!(by, "ann");
        }
        other => panic!("{other:?}"),
    }
    assert!(matches!(actions[5], Action::FetchChannel(c) if c.get() == THREAD));
    match &actions[6] {
        Action::EditThread(_, edit) => {
            assert_eq!(edit.new_tags(), Some(vec![ForumTagId::new(9)]));
            assert!(!edit.archives());
        }
        other => panic!("{other:?}"),
    }
    assert!(matches!(actions[7], Action::Finish));
}

fn comment(words: &str, is_pr_author: bool, is_staff: bool, is_contributor: bool) -> GitHubMessage {
    GitHubMessage::Comment {
        issue_id: 12,
        username: text("bob"),
        comment: text(words),
        is_pr_author,
        is_staff,
        is_contributor,
    }
}

#[test]
fn comments_are_relayed() {
    let actions = drive(
        comment("!Discord hello", true, false, false),
        vec![Answer::Discussion(Ok(row(300)))],
    );
    assert!(matches!(actions[0], Action::Database(Statement::SelectDiscussionByPr { pr_id: 12 })));
    match &actions[1] {
        Action::SendMessage(to, Notice::Relayed { username, comment }) => {
            assert_eq!(to.get(), THREAD);
            assert_eq!(username, "bob");
            assert_eq!(comment, "!Discord hello");
        }
        other => panic!("{other:?}"),
    }
    let staff = drive(comment("!discord", false, true, false), vec![unknown()]);
    assert!(matches!(staff[1], Action::Finish));
}

#[test]
fn idle_comments_do_nothing() {
    for (words, author, staff, contributor) in [
        ("hello", true, true, true),
        ("!discord hello", false, false, true),
        (" !discord hello", true, true, true),
        ("!review", false, true, false),
        ("!review please", true, true, true),
        ("", true, true, true),
    ] {
        let actions = drive(comment(words, author, staff, contributor), vec![]);
        assert!(matches!(actions[0], Action::Finish), "{words}");
    }
}

#[test]
fn a_review_is_asked_for() {
    let actions = drive(
        comment(" !REVIEW\n", false, false, true),
        vec![
            unknown(),
            Answer::ForumIs(Some(channel(INTAKE))),
            Answer::Pull(Some(PullInfo::new(None, None, None))),
        ],
    );
    assert!(matches!(actions[1], Action::ReadForum(ForumSetting::Intake)));
    assert!(matches!(actions[2], Action::GetPull(12)));
    match &actions[3] {
        Action::CreatePost(_, Post::Intake { pr_id, pr_title, pr_author, pr_body }) => {
            assert_eq!(*pr_id, 12);
            assert_eq!(pr_title, "Untitled");
            assert_eq!(pr_author, "Unknown");
            assert_eq!(*pr_body, None);
        }
        other => panic!("{other:?}"),
    }
    let known = drive(
        comment("!review", true, false, false),
        vec![Answer::Discussion(Ok(row(300)))],
    );
    assert!(matches!(known[1], Action::Finish));
}

#[test]
fn a_closed_pull_in_intake_is_forgotten() {
    let actions = drive(
        GitHubMessage::PrClosed { pr_id: 12, closed_by: text("ann") },
        vec![
            Answer::Discussion(Ok(row(INTAKE))),
            Answer::ForumIs(Some(channel(INTAKE))),
            Answer::Failed,
            Answer::Written(Ok(())),
        ],
    );
    assert!(matches!(actions[2], Action::DeleteThread(c) if c.get() == THREAD));
    assert!(matches!(actions[3], Action::Database(Statement::DeleteDiscussion { pr_id: 12 })));
    assert!(matches!(actions[4], Action::Finish));
}

#[test]
fn an_ended_review_is_tagged() {
    for (message, tag, merged) in [
        (GitHubMessage::PrClosed { pr_id: 12, closed_by: text("ann") }, 5, false),
        (GitHubMessage::PrMerged { pr_id: 12, merged_by: text("ann") }, 6, true),
    ] {
        let actions = drive(
            message,
            vec![
                Answer::Discussion(Ok(row(300))),
                Answer::ForumIs(None),
                Answer::Forum(Some(forum())),
                Answer::Channel(Some(thread(vec![ForumTagId::new(9)]))),
                Answer::Done,
            ],
        );
        match &actions[4] {
            Action::SendMessage(_, Notice::Merged { by }) => assert!(merged && by == "ann"),
            Action::SendMessage(_, Notice::Closed { by }) => assert!(!merged && by == "ann"),
            other => panic!("{other:?}"),
        }
        match &actions[5] {
            Action::EditThread(to, edit) => {
                assert_eq!(to.get(), THREAD);
                assert_eq!(edit.new_tags(), Some(vec![ForumTagId::new(9), ForumTagId::new(tag)]));
                assert!(edit.archives());
                assert!(matches!(edit, ThreadEdit::AddTag { .. }));
            }
            other => panic!("{other:?}"),
        }
    }
}

#[test]
fn an_unset_intake_forum_is_the_least_channel() {
    let actions = drive(
        GitHubMessage::PrClosed { pr_id: 12, closed_by: text("ann") },
        vec![Answer::Discussion(Ok(row(1))), Answer::ForumIs(None)],
    );
    assert!(matches!(actions[2], Action::DeleteThread(_)));
}

#[test]
fn a_draft_is_announced() {
    let message = GitHubMessage::PrDrafted { pr_id: 12, drafted_by: text("ann") };
    let actions = drive(message, vec![Answer::Discussion(Ok(row(300))), Answer::Failed]);
    assert!(matches!(&actions[1], Action::SendMessage(c, Notice::Drafted { by })
        if c.get() == THREAD && by == "ann"));
    assert!(matches!(actions[2], Action::Finish));
    let message = GitHubMessage::PrDrafted { pr_id: 13, drafted_by: text("ann") };
    let actions = drive(message, vec![unknown()]);
    assert!(matches!(actions[1], Action::Finish));
}

fn labeled() -> GitHubMessage {
    GitHubMessage::PrLabeled { pr_id: 12, label: text("docs") }
}

fn feed() -> PrFeed {
    PrFeed {
        id: 1,
        gh_label: text("docs"),
        channel_id: channel(77),
        ping_role: Some(RoleId::new(8)),
    }
}

#[test]
fn an_ignored_label_removes_the_intake_thread() {
    let actions = drive(
        labeled(),
        vec![
            Answer::Discussion(Ok(row(INTAKE))),
            Answer::Ignored(true),
            Answer::ForumIs(Some(channel(INTAKE))),
            Answer::Done,
            Answer::Written(Err(DbError::Other)),
            Answer::Failed,
            Answer::Feed(None),
        ],
    );
    assert!(matches!(&actions[1], Action::IsIgnored(IgnoredKind::Label, l) if l == "docs"));
    assert!(matches!(actions[3], Action::DeleteThread(_)));
    assert!(matches!(actions[4], Action::Database(Statement::DeleteDiscussion { pr_id: 12 })));
    assert!(matches!(&actions[5], Action::PostComment(12, Comment::Excluded { label }) if label == "docs"));
    assert!(matches!(&actions[6], Action::FindFeed(l) if l == "docs"));
    assert!(matches!(actions[7], Action::Finish));
}

#[test]
fn an_ignored_label_spares_a_started_review() {
    let actions = drive(
        labeled(),
        vec![
            Answer::Discussion(Ok(row(300))),
            Answer::Ignored(true),
            Answer::ForumIs(Some(channel(INTAKE))),
        ],
    );
    assert!(matches!(actions[3], Action::FindFeed(_)));
}

#[test]
fn a_labeled_pull_goes_into_its_feed() {
    let info = PullInfo::new(Some(text("Title")), Some(text("ann")), Some(text("Body")));
    let actions = drive(
        labeled(),
        vec![unknown(), Answer::Feed(Some(feed())), Answer::Pull(Some(info)), Answer::Done],
    );
    assert!(matches!(actions[2], Action::GetIssue(12)));
    match &actions[3] {
        Action::SendMessage(to, Notice::Feed { pr_id, pr_title, ping, .. }) => {
            assert_eq!(to.get(), 77);
            assert_eq!(*pr_id, 12);
            assert_eq!(pr_title, "Title");
            assert_eq!(*ping, Some(RoleId::new(8)));
        }
        other => panic!("{other:?}"),
    }
    assert!(matches!(actions[4], Action::Finish));
    let failed = drive(
        labeled(),
        vec![unknown(), Answer::Feed(Some(feed())), Answer::Pull(None)],
    );
    assert!(matches!(failed[3], Action::Finish));
}
