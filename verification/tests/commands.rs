use deltav_bot::discord::action::{Action, Answer, Run};
use deltav_bot::discord::content_review::data::config::commands::{
    cr_config, cr_forum_delete, cr_forum_upsert, cr_ignored_add, cr_ignored_list,
    cr_ignored_remove, AddIgnored, ConfigArgs, Configure, ConfigureStage, DeleteForum,
    ListIgnored, PlainStage, RemoveIgnored, UpsertForum,
};
use deltav_bot::discord::content_review::data::config::ignored::{IgnoreCriterion, IgnoredKind};
use deltav_bot::discord::content_review::data::config::Setting;
use deltav_bot::discord::content_review::data::forums::ForumRecord;
use deltav_bot::discord::error::{DbError, HandledError};
use deltav_bot::discord::ids::{ChannelId, ForumTagId, RoleId, UserId};
use deltav_bot::discord::permissions::check::{Body, Command};
use deltav_bot::discord::permissions::data::Permission;
use deltav_bot::discord::pr_feeds::{
    pr_feeds_add, pr_feeds_list, pr_feeds_remove, AddFeed, FeedStage, ListFeeds, RemoveFeed,
};
use deltav_bot::discord::store::Statement;

fn text(s: &str) -> String {
    s.to_string()
}

fn new<B: Body>(body: B) -> Command<B> {
    Command::New { author: UserId::new(7), body }
}

fn drive<R: Run>(run: R, answers: Vec<Answer>) -> Vec<Action> {
    let mut actions = Vec::new();
    let mut run = run;
    for answer in answers {
        let (next, action) = run.step(answer);
        run = next;
        actions.push(action);
    }
    actions
}

fn allowed(answers: Vec<Answer>) -> Vec<Answer> {
    let mut all = vec![Answer::Start, Answer::Holds(true)];
    all.extend(answers);
    all
}

fn told(action: &Action) -> String {
    match action {
        Action::Reply(text) => text.render(),
        other => panic!("{other:?}"),
    }
}

fn args() -> ConfigArgs {
    ConfigArgs {
        intake_cr_forum: None,
        public_cr_forum: None,
        private_cr_forum: None,
        gh_label_approved: None,
        gh_label_denied: None,
        gh_label_no_review: None,
        gh_label_under_review: None,
        gh_label_changes_requested: None,
        review_ping_role: None,
    }
}

fn configure(args: ConfigArgs) -> Command<Configure> {
    new(Configure { settings: args.settings(), stage: ConfigureStage::New })
}

#[test]
fn settings_are_taken_in_order() {
    assert!(args().settings().is_empty());
    let all = ConfigArgs {
        intake_cr_forum: Some(ChannelId::new(1)),
        public_cr_forum: Some(ChannelId::new(2)),
        private_cr_forum: Some(ChannelId::new(3)),
        gh_label_approved: Some(text("a")),
        gh_label_denied: Some(text("d")),
        gh_label_no_review: Some(text("n")),
        gh_label_under_review: Some(text("u")),
        gh_label_changes_requested: Some(text("c")),
        review_ping_role: Some(RoleId::new(4)),
    };
    assert_eq!(all.settings().len(), 9);
}

#[test]
fn the_configuration_is_made() {
    let given = ConfigArgs {
        intake_cr_forum: Some(ChannelId::new(1)),
        gh_label_denied: Some(text("d")),
        ..args()
    };
    let (run, first) = cr_config(configure(given), Answer::Start);
    assert!(matches!(first, Action::HasFlags(7, Permission::ContentReviewConfig)));
    let actions = drive(
        run,
        vec![Answer::Holds(true), Answer::Updated(Ok(())), Answer::Updated(Ok(())), Answer::Done],
    );
    assert!(matches!(&actions[0], Action::Configure(Setting::IntakeForum(c)) if c.get() == 1));
    assert!(matches!(&actions[1], Action::Configure(Setting::DeniedLabel(l)) if l == "d"));
    assert_eq!(told(&actions[2]), "Processed without errors.");
    assert!(matches!(actions[3], Action::Finish));
    let nothing = drive(configure(args()), allowed(vec![]));
    assert_eq!(told(&nothing[1]), "Processed without errors.");
}

#[test]
fn the_configuration_stops_at_an_error() {
    let given = ConfigArgs {
        intake_cr_forum: Some(ChannelId::new(1)),
        gh_label_denied: Some(text("d")),
        ..args()
    };
    let actions = drive(
        configure(given),
        allowed(vec![Answer::Updated(Err(HandledError::UserfacingError("no"))), Answer::Done]),
    );
    assert!(told(&actions[2]).ends_with("no"));
    assert!(matches!(actions[3], Action::Finish));
}

fn record() -> ForumRecord {
    ForumRecord {
        channel_id: ChannelId::new(1),
        private: true,
        tag_cr_approved: ForumTagId::new(2),
        tag_cr_denied: ForumTagId::new(3),
        tag_cr_test_merge: ForumTagId::new(4),
        tag_pr_closed: ForumTagId::new(5),
        tag_pr_merged: ForumTagId::new(6),
    }
}

#[test]
fn a_forum_is_registered() {
    let upsert = || new(UpsertForum { record: record(), stage: PlainStage::New });
    let (run, _) = cr_forum_upsert(upsert(), Answer::Start);
    let actions = drive(run, vec![Answer::Holds(true), Answer::Written(Ok(())), Answer::Done]);
    assert!(matches!(
        actions[0],
        Action::Database(Statement::UpsertForum { channel_id: 1, private: true, .. })
    ));
    assert_eq!(told(&actions[1]), "Processed without errors.");
    assert!(matches!(actions[2], Action::Finish));
    let failed = drive(upsert(), allowed(vec![Answer::Written(Err(DbError::Other))]));
    assert_eq!(told(&failed[2]), "Failed to upsert forum: An internal error occurred.");
}

#[test]
fn a_forum_is_removed() {
    let delete = || new(DeleteForum { forum: ChannelId::new(1), stage: PlainStage::New });
    let (run, _) = cr_forum_delete(delete(), Answer::Start);
    let actions = drive(run, vec![Answer::Holds(true), Answer::Written(Ok(()))]);
    assert!(matches!(actions[0], Action::Database(Statement::DeleteForum { channel_id: 1 })));
    assert_eq!(told(&actions[1]), "Processed without errors.");
    let failed = drive(delete(), allowed(vec![Answer::Written(Err(DbError::Other))]));
    assert_eq!(told(&failed[2]), "Failed to delete forum An internal error occurred..");
}

#[test]
fn criteria_are_listed() {
    let (run, _) = cr_ignored_list(new(ListIgnored { stage: PlainStage::New }), Answer::Start);
    let one = IgnoreCriterion { id: 1, kind: IgnoredKind::Author, value: text("bot") };
    let actions = drive(run, vec![Answer::Holds(true), Answer::Criteria(vec![one]), Answer::Done]);
    assert!(matches!(actions[0], Action::ListCriteria));
    assert_eq!(told(&actions[1]), "**PR Ignore Criteria**\nID 1: Author `bot`\n");
    assert!(matches!(actions[2], Action::Finish));
}

#[test]
fn a_criterion_is_added() {
    let add = || {
        new(AddIgnored { kind: IgnoredKind::Label, value: text("docs"), stage: PlainStage::New })
    };
    let (run, _) = cr_ignored_add(add(), Answer::Start);
    let actions = drive(run, vec![Answer::Holds(true), Answer::Updated(Ok(()))]);
    assert!(matches!(&actions[0], Action::AddCriterion(IgnoredKind::Label, v) if v == "docs"));
    assert_eq!(told(&actions[1]), "Successfully added ignore criterion.");
    let failed = drive(
        add(),
        allowed(vec![Answer::Updated(Err(HandledError::InternalError)), Answer::Done, Answer::Done]),
    );
    assert_eq!(told(&failed[2]), "Failed to add ignore criterion: An internal error occurred.");
    assert_eq!(told(&failed[3]), "Successfully added ignore criterion.");
    assert!(matches!(failed[4], Action::Finish));
}

#[test]
fn a_criterion_is_removed() {
    let remove = |id: &str| new(RemoveIgnored { id: text(id), stage: PlainStage::New });
    let (run, _) = cr_ignored_remove(remove("-3"), Answer::Start);
    let actions = drive(run, vec![Answer::Holds(true), Answer::Updated(Ok(()))]);
    assert!(matches!(actions[0], Action::RemoveCriterion(-3)));
    assert_eq!(told(&actions[1]), "Successfully removed ignore criterion.");
    let invalid = drive(remove("three"), allowed(vec![]));
    assert_eq!(told(&invalid[1]), "Specified ID is invalid.");
    let failed = drive(
        remove("3"),
        allowed(vec![Answer::Updated(Err(HandledError::InternalError)), Answer::Done]),
    );
    assert_eq!(told(&failed[2]), "Failed to remove ignore criterion: An internal error occurred.");
    assert_eq!(told(&failed[3]), "Successfully removed ignore criterion.");
}

fn add_feed() -> Command<AddFeed> {
    new(AddFeed {
        channel: ChannelId::new(5),
        github_label: text("bug"),
        ping_role: None,
        stage: FeedStage::New,
    })
}

#[test]
fn a_feed_is_added() {
    let (run, first) = pr_feeds_add(add_feed(), Answer::Start);
    assert!(matches!(first, Action::HasFlags(7, Permission::PrFeedsEdit)));
    let actions = drive(
        run,
        vec![
            Answer::Holds(true),
            Answer::Labels(Some(vec![text("art"), text("bug")])),
            Answer::Updated(Ok(())),
            Answer::Done,
        ],
    );
    assert!(matches!(actions[0], Action::ListRepoLabels));
    assert!(matches!(&actions[1], Action::AddFeed { gh_label, channel, ping_role: None }
        if gh_label == "bug" && channel.get() == 5));
    assert_eq!(told(&actions[2]), "Successfully added feed.");
    assert!(matches!(actions[3], Action::Finish));
}

#[test]
fn a_feed_needs_an_existing_label() {
    let words = |more: Vec<Answer>| told(drive(add_feed(), allowed(more)).last().unwrap());
    assert_eq!(words(vec![Answer::Labels(None)]), "Failed to fetch repo labels.");
    assert_eq!(
        words(vec![Answer::Labels(Some(vec![text("Bug")]))]),
        "The specified label does not exist."
    );
    assert_eq!(
        words(vec![
            Answer::Labels(Some(vec![text("bug")])),
            Answer::Updated(Err(HandledError::InternalError))
        ]),
        "An internal error occurred."
    );
}

#[test]
fn feeds_are_listed() {
    let (run, _) = pr_feeds_list(new(ListFeeds { stage: FeedStage::New }), Answer::Start);
    let actions = drive(run, vec![Answer::Holds(true), Answer::Feeds(vec![]), Answer::Done]);
    assert!(matches!(actions[0], Action::ListFeeds));
    assert_eq!(told(&actions[1]), "**Current PR Feeds**\nNone.");
    assert!(matches!(actions[2], Action::Finish));
}

#[test]
fn a_feed_is_removed() {
    let remove = |id: &str| new(RemoveFeed { feed_id: text(id), stage: FeedStage::New });
    let (run, _) = pr_feeds_remove(remove("4"), Answer::Start);
    let actions = drive(run, vec![Answer::Holds(true), Answer::Updated(Ok(()))]);
    assert!(matches!(actions[0], Action::RemoveFeed(4)));
    assert_eq!(told(&actions[1]), "Successfully removed feed.");
    let invalid = drive(remove("x"), allowed(vec![]));
    assert_eq!(told(&invalid[1]), "Invalid feed ID. Must be a number.");
    let failed = drive(remove("4"), allowed(vec![Answer::Updated(Err(HandledError::InternalError))]));
    assert_eq!(told(&failed[2]), "An internal error occurred.");
}
