use deltav_bot::discord::action::{
    Action, Answer, FetchedMessage, GuildChannel, Run, Selection, TargetMessage,
};
use deltav_bot::discord::content_review::data::discussions::to_record;
use deltav_bot::discord::content_review::notices::Card;
use deltav_bot::discord::content_review::raised_issues::comp_tasks::{
    button_click_view_issues_task, ViewIssues,
};
use deltav_bot::discord::content_review::raised_issues::overview::{
    GatherStage, Gathered, Gathering,
};
use deltav_bot::discord::content_review::raised_issues::own::{
    Dismiss, ViewIssue, ViewStage,
};
use deltav_bot::discord::content_review::raised_issues::targeted::{
    RaiseAlone, RaiseAloneStage, ViewVotes, ViewVotesStage, VoteAgainst, VoteStage,
};
use deltav_bot::discord::content_review::raised_issues::votes::{
    OverrideStage, OverrideVote, Raise, RaiseStage,
};
use deltav_bot::discord::content_review::raised_issues::{
    cr_issue_dismiss, cr_issue_dismiss_context, cr_issue_dismiss_override,
    cr_issue_dismiss_override_context, cr_issue_override, cr_issue_override_context,
    cr_issue_overview, cr_issue_overview_context, cr_issue_overview_impl, cr_issue_raise,
    cr_issue_raise_context, cr_issue_view, cr_issue_view_context, create_issue_overview_embeds,
    dismiss_own_impl,
};
use deltav_bot::discord::error::{DbError, HandledError};
use deltav_bot::discord::ids::{ChannelId, GuildId, MessageId, UserId};
use deltav_bot::discord::permissions::check::Command;
use deltav_bot::discord::store::{DiscussionRow, Statement};

const THREAD: u64 = 200;

fn user(n: u64) -> UserId {
    UserId::new(n)
}

fn message(n: u64) -> MessageId {
    MessageId::new(n)
}

fn row() -> DiscussionRow {
    DiscussionRow {
        pr_id: 12,
        forum_id: ChannelId::new(300),
        thread_id: ChannelId::new(THREAD),
        triaged_by: None,
        review_days_total: Some(7),
        review_days_passed: Some(2),
        review_days_next_micros: None,
        pr_title: "Title".to_string(),
        pr_author: "ann".to_string(),
        pr_body: None,
    }
}

fn here() -> Answer {
    Answer::Channel(Some(GuildChannel {
        id: ChannelId::new(THREAD),
        guild: GuildId::new(1),
        parent: Some(ChannelId::new(300)),
        applied_tags: vec![],
    }))
}

fn fetched(replied_to: Option<(MessageId, UserId)>) -> Answer {
    Answer::Fetched(Some(FetchedMessage {
        author: user(7),
        author_name: "bob".to_string(),
        content: "words".to_string(),
        replied_to,
    }))
}

fn none() -> Answer {
    Answer::Message(Err(DbError::RowNotFound))
}

fn some(n: u64) -> Answer {
    Answer::Message(Ok(Some(message(n))))
}

fn target(author: u64) -> TargetMessage {
    TargetMessage { id: message(50), author: user(author), channel: ChannelId::new(THREAD) }
}

fn drive<R: Run>(run: R, answers: Vec<Answer>) -> Vec<Action> {
    let mut actions = Vec::new();
    let mut run = run;
    for answer in answers {
        let (next, action) = run.step(answer);
        run = next;
        actions.push(action);
    }
    actions
}

fn allowed(answers: Vec<Answer>) -> Vec<Answer> {
    let mut all = vec![Answer::Start, Answer::Holds(true)];
    all.extend(answers);
    all
}

fn told(action: &Action) -> String {
    match action {
        Action::Reply(text) => text.render(),
        Action::Followup(text) => text.render(),
        other => panic!("{other:?}"),
    }
}

fn last_words(actions: &[Action]) -> String {
    told(actions.last().unwrap())
}

fn raise(author: u64) -> Command<Raise> {
    Command::New {
        author: user(7),
        body: Raise { author: user(7), message: target(author), stage: RaiseStage::New },
    }
}

#[test]
fn an_issue_is_raised_and_voids_votes() {
    let (run, _) = cr_issue_raise_context(raise(7), Answer::Start);
    let actions = drive(
        run,
        vec![
            Answer::Holds(true),
            Answer::Discussion(Ok(row())),
            some(40),
            none(),
            Answer::Written(Ok(())),
            Answer::Done,
            here(),
            fetched(None),
            Answer::Done,
            Answer::Votes(Ok(vec![(user(8), message(60)), (user(9), message(61))])),
            Answer::Fetched(None),
            fetched(None),
            Answer::Done,
            Answer::Done,
        ],
    );
    assert!(matches!(
        actions[0],
        Action::Database(Statement::SelectDiscussionByThread { thread_id: 200 })
    ));
    assert!(matches!(
        actions[1],
        Action::Database(Statement::SelectIssueByAuthor { pr_id: 12, user_id: 7 })
    ));
    assert!(matches!(
        actions[2],
        Action::Database(Statement::SelectOverrideByAuthor { pr_id: 12, user_id: 7 })
    ));
    assert!(matches!(
        actions[3],
        Action::Database(Statement::UpsertIssue { pr_id: 12, user_id: 7, message_id: 50 })
    ));
    assert!(matches!(actions[4], Action::Pin(c, m) if c.get() == THREAD && m.get() == 50));
    assert!(matches!(actions[5], Action::CurrentChannel));
    assert!(matches!(actions[6], Action::FetchMessage(_, m) if m.get() == 40));
    assert!(matches!(actions[7], Action::Unpin(_, m) if m.get() == 40));
    assert!(matches!(actions[8], Action::Database(Statement::DeleteOverrides { pr_id: 12 })));
    assert!(matches!(actions[9], Action::FetchMessage(_, m) if m.get() == 60));
    assert!(matches!(actions[10], Action::FetchMessage(_, m) if m.get() == 61));
    assert!(matches!(actions[11], Action::Unpin(_, m) if m.get() == 61));
    assert_eq!(told(&actions[12]), "Issue raised successfully.");
    assert!(matches!(actions[13], Action::Finish));
}

#[test]
fn an_issue_is_not_raised() {
    let words = |author: u64, more: Vec<Answer>| last_words(&drive(raise(author), allowed(more)));
    assert_eq!(words(8, vec![]), "You can't mark someone else's message as your raised issue.");
    assert_eq!(
        words(7, vec![Answer::Discussion(Err(DbError::RowNotFound))]),
        "You can't raise an issue outside of a review thread."
    );
    let found = || Answer::Discussion(Ok(row()));
    assert_eq!(
        words(7, vec![found(), Answer::Message(Err(DbError::Other))]),
        "Failed to check for previous issue: An internal error occurred."
    );
    assert_eq!(
        words(7, vec![found(), none(), Answer::Message(Err(DbError::Other))]),
        "Failed to check for override: An internal error occurred."
    );
    assert_eq!(words(7, vec![found(), none(), some(50)]), "Your override can't also be an issue.");
    assert_eq!(
        words(7, vec![found(), some(50), none()]),
        "You've already marked this message as your raised issue."
    );
    assert_eq!(
        words(7, vec![found(), none(), none(), Answer::Written(Err(DbError::Other))]),
        "Failed to raise issue: An internal error occurred."
    );
    assert_eq!(
        words(7, vec![found(), none(), none(), Answer::Written(Ok(())), Answer::Failed]),
        "Failed to pin message. Lacking permission?"
    );
}

fn vote(author: u64) -> Command<OverrideVote> {
    Command::New {
        author: user(7),
        body: OverrideVote { author: user(7), message: target(author), stage: OverrideStage::New },
    }
}

#[test]
fn a_vote_is_cast() {
    let (run, _) = cr_issue_override_context(vote(7), Answer::Start);
    let actions = drive(
        run,
        vec![
            Answer::Holds(true),
            Answer::Discussion(Ok(row())),
            here(),
            none(),
            some(41),
            Answer::Written(Ok(())),
            Answer::Done,
            Answer::Fetched(None),
            Answer::Done,
            Answer::Done,
        ],
    );
    assert!(matches!(
        actions[4],
        Action::Database(Statement::UpsertOverride { pr_id: 12, user_id: 7, message_id: 50 })
    ));
    assert!(matches!(actions[5], Action::Pin(_, m) if m.get() == 50));
    assert!(matches!(actions[6], Action::FetchMessage(_, m) if m.get() == 41));
    assert!(told(&actions[7]).starts_with("Failed to resolve old issue override message"));
    assert_eq!(told(&actions[8]), "Override vote added successfully.");
    assert!(matches!(actions[9], Action::Finish));
}

#[test]
fn a_vote_is_not_cast() {
    let words = |author: u64, more: Vec<Answer>| last_words(&drive(vote(author), allowed(more)));
    assert_eq!(
        words(8, vec![]),
        "You can't mark someone else's message as your issue override vote."
    );
    assert_eq!(
        words(7, vec![Answer::Discussion(Err(DbError::Other))]),
        "You can't override an issue outside of a review thread."
    );
    let found = || Answer::Discussion(Ok(row()));
    assert_eq!(
        words(7, vec![found(), here(), some(50)]),
        "You can't mark your issue as one of its overrides."
    );
    assert_eq!(
        words(7, vec![found(), here(), none(), some(50)]),
        "You've already marked this message as your override for <@{issue_author}>'s issue."
    );
    assert_eq!(
        words(7, vec![found(), here(), none(), Answer::Message(Err(DbError::Other))]),
        "Failed to check for previous override: An internal error occurred."
    );
    assert_eq!(
        words(7, vec![found(), here(), none(), none(), Answer::Written(Err(DbError::Other))]),
        "Failed to add issue override: An internal error occurred."
    );
}

fn view() -> Command<ViewIssue> {
    Command::New {
        author: user(7),
        body: ViewIssue { message: target(8), stage: ViewStage::New },
    }
}

#[test]
fn an_issue_is_viewed() {
    let (run, _) = cr_issue_view_context(view(), Answer::Start);
    let actions = drive(
        run,
        vec![
            Answer::Holds(true),
            Answer::Discussion(Ok(row())),
            some(40),
            here(),
            fetched(None),
            Answer::Done,
        ],
    );
    assert!(matches!(
        actions[1],
        Action::Database(Statement::SelectIssueByAuthor { pr_id: 12, user_id: 8 })
    ));
    match &actions[4] {
        Action::ReplyCard(card) => {
            assert!(matches!(card, Card::Issue { .. }));
            assert_eq!(card.embed().title, Some("bob's issue".to_string()));
        }
        other => panic!("{other:?}"),
    }
    assert!(matches!(actions[5], Action::Finish));
}

#[test]
fn there_is_no_issue_to_view() {
    let words = |more: Vec<Answer>| last_words(&drive(view(), allowed(more)));
    assert_eq!(
        words(vec![Answer::Discussion(Err(DbError::RowNotFound))]),
        "Issues can only be raised in review threads, there are no overrides to view here."
    );
    assert_eq!(
        words(vec![Answer::Discussion(Ok(row())), none()]),
        "<@8> has no active issue."
    );
    assert_eq!(
        words(vec![Answer::Discussion(Ok(row())), Answer::Message(Err(DbError::Other))]),
        "Failed to check for issue associated with author: An internal error occurred."
    );
}

#[test]
fn own_issues_and_votes_are_dismissed() {
    let channel = ChannelId::new(THREAD);
    let runs: Vec<(Command<Dismiss>, bool)> = vec![
        (cr_issue_dismiss(user(7), channel), false),
        (cr_issue_dismiss_context(user(7), channel, target(9)), false),
        (cr_issue_dismiss_override(user(7), channel), true),
        (cr_issue_dismiss_override_context(user(7), channel, target(9)), true),
    ];
    for (run, is_override) in runs {
        let (run, _) = dismiss_own_impl(run, Answer::Start);
        let actions = drive(
            run,
            vec![
                Answer::Holds(true),
                Answer::Discussion(Ok(row())),
                some(40),
                here(),
                fetched(None),
                Answer::Done,
                Answer::Done,
            ],
        );
        match &actions[1] {
            Action::Database(statement) => {
                let wanted = if is_override {
                    Statement::DeleteOverrideByAuthor { pr_id: 12, user_id: 7 }
                } else {
                    Statement::DeleteIssueByAuthor { pr_id: 12, user_id: 7 }
                };
                assert_eq!(*statement, wanted);
            }
            other => panic!("{other:?}"),
        }
        assert!(matches!(actions[4], Action::Unpin(_, m) if m.get() == 40));
        let words = if is_override { "Override" } else { "Issue" };
        assert_eq!(told(&actions[5]), format!("{words} dismissed successfully."));
        assert!(matches!(actions[6], Action::Finish));
    }
}

#[test]
fn nothing_is_dismissed() {
    let run = || cr_issue_dismiss(user(7), ChannelId::new(THREAD));
    let lost = drive(run(), allowed(vec![Answer::Discussion(Err(DbError::RowNotFound))]));
    assert_eq!(last_words(&lost), "There is no PR associated with this channel.");
    let empty = drive(run(), allowed(vec![Answer::Discussion(Ok(row())), none()]));
    assert_eq!(last_words(&empty), "You haven't raised an issue in this discussion.");
    let failed = drive(
        run(),
        allowed(vec![Answer::Discussion(Ok(row())), Answer::Message(Err(DbError::Other))]),
    );
    assert!(matches!(
        failed.last(),
        Some(Action::Abort(Some(HandledError::InternalError)))
    ));
    let outside = drive(
        run(),
        allowed(vec![Answer::Discussion(Ok(row())), some(40), Answer::Channel(None)]),
    );
    assert!(matches!(
        outside.last(),
        Some(Action::Abort(Some(HandledError::UserfacingError(
            "Issue/override dismissed outside of guild."
        ))))
    ));
}

#[test]
fn the_overview_holds_everything() {
    let gathering = Gathering { discussion: to_record(row()), stage: GatherStage::New };
    let mut step = create_issue_overview_embeds(gathering, Answer::Start);
    let answers = vec![
        here(),
        Answer::Votes(Ok((1..=6).map(|n| (user(n), message(n))).collect())),
        Answer::Votes(Ok((7..=12).map(|n| (user(n), message(n))).collect())),
    ];
    for answer in answers {
        step = match step {
            Gathered::Ask(run, _) => create_issue_overview_embeds(run, answer),
            other => panic!("{other:?}"),
        };
    }
    let mut order = Vec::new();
    let overview = loop {
        step = match step {
            Gathered::Ask(run, Action::FetchMessage(_, m)) => {
                order.push(m.get());
                let answer = if m.get() == 3 { Answer::Fetched(None) } else { fetched(None) };
                create_issue_overview_embeds(run, answer)
            }
            Gathered::Ready(overview) => break overview,
            other => panic!("{other:?}"),
        };
    };
    assert_eq!(order, (1..=12).collect::<Vec<u64>>());
    assert!(!overview.is_empty());
    let messages = overview.messages();
    assert_eq!(messages.iter().map(|m| m.len()).collect::<Vec<usize>>(), vec![10, 2]);
    let titles: Vec<String> =
        messages.into_iter().flatten().map(|embed| embed.title.unwrap()).collect();
    assert_eq!(titles[0], "bob's issue");
    assert_eq!(titles[2], "Unknown issue");
    assert_eq!(titles[6], "bob's override");
    assert_eq!(titles.len(), 12);
}

#[test]
fn the_overview_is_shown() {
    let channel = ChannelId::new(THREAD);
    for run in [
        cr_issue_overview(user(7), channel),
        cr_issue_overview_context(user(7), channel, target(9)),
    ] {
        let (run, _) = cr_issue_overview_impl(run, Answer::Start);
        let actions = drive(
            run,
            vec![
                Answer::Holds(true),
                Answer::Discussion(Ok(row())),
                here(),
                Answer::Votes(Ok(vec![(user(1), message(1))])),
                Answer::Votes(Ok(vec![])),
                fetched(None),
                Answer::Failed,
            ],
        );
        assert!(matches!(actions[1], Action::FetchChannel(c) if c.get() == THREAD));
        assert!(matches!(actions[2], Action::Database(Statement::SelectIssues { pr_id: 12 })));
        assert!(matches!(actions[3], Action::Database(Statement::SelectOverrides { pr_id: 12 })));
        assert!(matches!(&actions[5], Action::ReplyOverview(o) if o.messages().len() == 1));
        assert!(matches!(actions[6], Action::Finish));
    }
    let run = || cr_issue_overview(user(7), channel);
    let lost = drive(run(), allowed(vec![Answer::Discussion(Err(DbError::RowNotFound))]));
    assert_eq!(
        last_words(&lost),
        "Issues can only be raised in review threads, there is nothing to view here."
    );
    let failed = drive(
        run(),
        allowed(vec![Answer::Discussion(Ok(row())), here(), Answer::Votes(Err(DbError::Other))]),
    );
    assert_eq!(
        last_words(&failed),
        "Failed to create overview: An internal error occurred."
    );
}

#[test]
fn a_button_shows_the_issues() {
    let (run, action) = button_click_view_issues_task(ViewIssues::New { pr_id: 12 }, Answer::Start);
    assert!(matches!(action, Action::Database(Statement::SelectDiscussionByPr { pr_id: 12 })));
    let actions = drive(
        run,
        vec![
            Answer::Discussion(Ok(row())),
            Answer::Done,
            here(),
            Answer::Votes(Ok(vec![])),
            Answer::Votes(Ok(vec![])),
            Answer::Done,
        ],
    );
    assert!(matches!(actions[0], Action::Acknowledge));
    assert_eq!(
        told(&actions[4]),
        "There are no issues or overrides associated with this discussion."
    );
    assert!(matches!(actions[5], Action::Finish));
    let lost = drive(
        ViewIssues::New { pr_id: 12 },
        vec![Answer::Start, Answer::Discussion(Err(DbError::RowNotFound))],
    );
    assert_eq!(last_words(&lost), "Error: An internal error occurred.");
    let shown = drive(
        ViewIssues::New { pr_id: 12 },
        vec![
            Answer::Start,
            Answer::Discussion(Ok(row())),
            Answer::Failed,
            here(),
            Answer::Votes(Ok(vec![])),
            Answer::Votes(Ok(vec![(user(1), message(1))])),
            Answer::Fetched(None),
        ],
    );
    assert!(matches!(shown.last(), Some(Action::FollowupOverview(_))));
}

fn raise_alone() -> Command<RaiseAlone> {
    Command::New {
        author: user(7),
        body: RaiseAlone { author: user(7), message: target(7), stage: RaiseAloneStage::New },
    }
}

#[test]
fn an_issue_is_raised_alone() {
    let (run, _) = cr_issue_raise(raise_alone(), Answer::Start);
    let actions = drive(
        run,
        vec![
            Answer::Holds(true),
            Answer::Discussion(Ok(row())),
            some(40),
            Answer::Written(Ok(())),
            Answer::Done,
            here(),
            Answer::Fetched(None),
            Answer::Done,
        ],
    );
    assert!(matches!(
        actions[2],
        Action::Database(Statement::UpsertIssue { pr_id: 12, user_id: 7, message_id: 50 })
    ));
    assert!(told(&actions[6]).starts_with("Failed to resolve old issue message"));
    assert_eq!(told(&actions[7]), "Issue raised successfully.");
    let outside = drive(
        raise_alone(),
        allowed(vec![
            Answer::Discussion(Ok(row())),
            some(40),
            Answer::Written(Ok(())),
            Answer::Done,
            Answer::Channel(None),
        ]),
    );
    assert!(matches!(
        outside.last(),
        Some(Action::Fault("We already know this is a guild channel"))
    ));
}

fn vote_against() -> Command<VoteAgainst> {
    Command::New {
        author: user(7),
        body: VoteAgainst { author: user(7), message: target(7), stage: VoteStage::New },
    }
}

#[test]
fn a_reply_to_an_issue_votes_against_it() {
    let (run, _) = cr_issue_override(vote_against(), Answer::Start);
    let actions = drive(
        run,
        vec![
            Answer::Holds(true),
            Answer::Discussion(Ok(row())),
            here(),
            fetched(Some((message(40), user(8)))),
            some(40),
            some(40),
            none(),
            Answer::Written(Ok(())),
            Answer::Done,
        ],
    );
    assert!(matches!(
        actions[3],
        Action::Database(Statement::SelectIssueByAuthor { pr_id: 12, user_id: 8 })
    ));
    assert!(matches!(
        actions[5],
        Action::Database(Statement::SelectIssueOverride { pr_id: 12, issue_author: 8, user_id: 7 })
    ));
    assert!(matches!(
        actions[6],
        Action::Database(Statement::UpsertIssueOverride {
            pr_id: 12,
            issue_author: 8,
            user_id: 7,
            message_id: 50
        })
    ));
    assert_eq!(told(&actions[8]), "Override vote added successfully.");
}

#[test]
fn the_author_of_an_issue_is_chosen() {
    let asked = |selection: Selection, more: Vec<Answer>| {
        let mut answers = vec![
            Answer::Discussion(Ok(row())),
            here(),
            fetched(None),
            Answer::Done,
            Answer::Selected(selection),
        ];
        answers.extend(more);
        drive(vote_against(), allowed(answers))
    };
    let actions = asked(Selection::TimedOut, vec![]);
    assert!(matches!(actions[4], Action::ShowUserMenu(12)));
    assert!(matches!(actions[5], Action::AwaitSelection));
    assert_eq!(last_words(&actions), "Interaction aborted due to inactivity.");
    assert_eq!(last_words(&asked(Selection::Invalid, vec![])), "Invalid interaction received.");
    let two = asked(Selection::Chosen(vec![user(1), user(2)]), vec![Answer::Done]);
    assert!(matches!(two[6], Action::DeleteUserMenu));
    assert_eq!(last_words(&two), "You must select exactly 1 user.");
    let one = asked(Selection::Chosen(vec![user(8)]), vec![Answer::Failed]);
    assert!(matches!(
        one.last(),
        Some(Action::Database(Statement::SelectIssueByAuthor { pr_id: 12, user_id: 8 }))
    ));
}

#[test]
fn a_vote_goes_to_the_selected_author() {
    let voted = |replied_to: Option<(MessageId, UserId)>, first: Vec<Answer>, issue: Answer| {
        let mut answers = vec![Answer::Discussion(Ok(row())), here(), fetched(replied_to)];
        answers.extend(first);
        answers.extend(vec![
            Answer::Done,
            Answer::Selected(Selection::Chosen(vec![user(9)])),
            Answer::Done,
            issue,
            none(),
        ]);
        drive(vote_against(), allowed(answers))
    };
    let reply = Some((message(40), user(8)));
    for actions in [voted(None, vec![], some(41)), voted(reply, vec![some(39)], none())] {
        assert!(matches!(
            actions.last(),
            Some(Action::Database(Statement::UpsertIssueOverride {
                pr_id: 12,
                issue_author: 9,
                user_id: 7,
                message_id: 50
            }))
        ));
    }
    let own = voted(None, vec![], some(50));
    assert!(own
        .iter()
        .all(|a| !matches!(a, Action::Database(Statement::UpsertIssueOverride { .. }))));
}

#[test]
fn votes_against_an_issue_are_viewed() {
    let run = || Command::New {
        author: user(7),
        body: ViewVotes {
            message: target(8),
            channel: ChannelId::new(THREAD),
            guild: Some(GuildId::new(1)),
            stage: ViewVotesStage::New,
        },
    };
    let (first, _) = cr_issue_view(run(), Answer::Start);
    let actions = drive(
        first,
        vec![
            Answer::Holds(true),
            Answer::Discussion(Ok(row())),
            some(40),
            Answer::Votes(Ok(vec![(user(9), message(60))])),
        ],
    );
    assert!(matches!(
        actions[2],
        Action::Database(Statement::SelectIssueOverrides { pr_id: 12, issue_author: 8 })
    ));
    assert_eq!(
        told(&actions[3]),
        "**<@8>'s issue:** https://discord.com/channels/1/200/40\n**Override votes:** 1\n- <@9>: https://discord.com/channels/1/200/60\n"
    );
    let found = || vec![Answer::Discussion(Ok(row())), some(40)];
    let with = |answer: Answer| {
        let mut answers = found();
        answers.push(answer);
        last_words(&drive(run(), allowed(answers)))
    };
    assert_eq!(
        with(Answer::Votes(Ok(vec![]))),
        "Nobody has voted to override their issue yet."
    );
    assert_eq!(
        with(Answer::Votes(Err(DbError::Other))),
        "Failed to retrieve issue overrides: An internal error occurred."
    );
}
