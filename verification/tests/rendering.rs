use deltav_bot::discord::action::{FetchedMessage, LabelRemoval};
use deltav_bot::discord::content_review::data::config::ignored::{IgnoreCriterion, IgnoredKind};
use deltav_bot::discord::content_review::notices::{Card, Comment, Notice, Post};
use deltav_bot::discord::content_review::raised_issues::create_message_embed;
use deltav_bot::discord::content_review::triage::commands::CrOutcome;
use deltav_bot::discord::content_review::util::{create_pr_embed, try_remove_label};
use deltav_bot::discord::error::HandledError;
use deltav_bot::discord::ids::{ChannelId, GuildId, MessageId, RoleId, UserId};
use deltav_bot::discord::message::{split_embeds, Embed, Field, EMBED_DESC_MAX_LEN, EMBED_MAX_LENGTH};
use deltav_bot::discord::pr_feeds::data::PrFeed;
use deltav_bot::discord::texts::Text;
use deltav_bot::github::Repo;

fn text(s: &str) -> String {
    s.to_string()
}

fn repo() -> Repo {
    Repo { owner: text("DeltaV-Station"), name: text("Delta-v") }
}

fn empty_embed(title: &str) -> Embed {
    Embed {
        title: Some(text(title)),
        url: None,
        author: None,
        description: None,
        footer: None,
        fields: vec![],
    }
}

#[test]
fn a_pull_is_presented() {
    assert_eq!(
        create_pr_embed(12, "Title", "ann", Some("Body"), &repo()),
        Embed {
            title: Some(text("Title")),
            url: Some(text("https://github.com/DeltaV-Station/Delta-v/pull/12")),
            author: None,
            description: Some(text("Body")),
            footer: Some(text("PR #12, submitted by ann")),
            fields: vec![],
        }
    );
    let without = create_pr_embed(12, "Title", "ann", None, &repo());
    assert_eq!(without.description, Some(text("No description.")));
    let long = "ä".repeat(EMBED_DESC_MAX_LEN + 1);
    let cut = create_pr_embed(12, "Title", "ann", Some(&long), &repo());
    assert_eq!(cut.description.unwrap().chars().count(), EMBED_DESC_MAX_LEN);
}

#[test]
fn an_intake_post_has_buttons() {
    let post = Post::Intake {
        pr_id: 12,
        pr_title: text("Title"),
        pr_author: text("ann"),
        pr_body: None,
    };
    assert_eq!(post.title(), "Title #12");
    let message = post.message(&repo());
    assert_eq!(message.content, None);
    assert_eq!(message.embeds, vec![create_pr_embed(12, "Title", "ann", None, &repo())]);
    let ids: Vec<&str> = message.buttons.iter().map(|b| b.id.as_str()).collect();
    assert_eq!(ids, vec!["cr_startPublic_12", "cr_startPrivate_12", "cr_notNeeded_12"]);
    let labels: Vec<&str> = message.buttons.iter().map(|b| b.label).collect();
    assert_eq!(labels, vec!["Public review", "Private review", "No review needed"]);
}

#[test]
fn a_review_post_tells_when_it_is_due() {
    let post = Post::Review {
        pr_id: 12,
        pr_title: text("Title"),
        pr_author: text("ann"),
        pr_body: Some(text("Body")),
        triaged_by: text("bob"),
        reasoning: None,
        days: 7,
        due: 1_700_000_000,
        ping: Some(RoleId::new(5)),
    };
    let message = post.message(&repo());
    assert_eq!(message.content, Some(text("<@&5>")));
    assert_eq!(message.notifies, Some(RoleId::new(5)));
    assert!(message.buttons.is_empty());
    assert_eq!(message.embeds.len(), 2);
    assert_eq!(
        message.embeds[1],
        Embed {
            title: Some(text("Triaged by bob")),
            url: None,
            author: None,
            description: Some(text("*No reasoning provided.*")),
            footer: None,
            fields: vec![
                Field { name: "Review duration", value: text("7 days"), inline: true },
                Field { name: "Due", value: text("<t:1700000000:R>"), inline: true },
            ],
        }
    );
}

#[test]
fn notices_say_what_happened() {
    let by = text("ann");
    for (notice, words) in [
        (Notice::Opened { by: by.clone() }, "This PR has been opened by `ann`."),
        (Notice::Closed { by: by.clone() }, "This PR has been closed by `ann`."),
        (Notice::Merged { by: by.clone() }, "This PR has been merged by `ann`."),
        (Notice::Drafted { by }, "This PR has been converted into a draft by `ann`."),
    ] {
        let message = notice.message(&repo());
        assert_eq!(message.content, Some(text(words)));
        assert!(message.embeds.is_empty());
    }
}

#[test]
fn a_relayed_comment_lacks_its_command() {
    let notice = Notice::Relayed { username: text("bob"), comment: text("!Discord hello ä") };
    let message = notice.message(&repo());
    assert_eq!(message.embeds[0].author, Some(text("bob via GitHub")));
    assert_eq!(message.embeds[0].description, Some(text(" hello ä")));
    let long = "!discord".to_string() + &"x".repeat(EMBED_DESC_MAX_LEN + 5);
    let message = Notice::Relayed { username: text("bob"), comment: long }.message(&repo());
    assert_eq!(message.embeds[0].description, Some("x".repeat(EMBED_DESC_MAX_LEN)));
}

#[test]
fn a_feed_hides_html_comments() {
    let notice = Notice::Feed {
        pr_id: 12,
        pr_title: text("Title"),
        pr_author: text("ann"),
        pr_body: Some(text("a<!-- template -->b")),
        ping: None,
    };
    let message = notice.message(&repo());
    assert_eq!(message.content, None);
    assert_eq!(message.embeds[0].description, Some(text("ab")));
}

#[test]
fn reminders_get_urgent() {
    let words = |passed: u64, total: u64| {
        let notice = Notice::Reminder { pr_id: 12, passed, total, ping: Some(RoleId::new(5)) };
        let mut message = notice.message(&repo());
        assert_eq!(message.content, Some(text("<@&5>")));
        assert_eq!(message.buttons[0].id, "cr_muteReminders_12");
        assert_eq!(message.buttons[0].label, "Disable reminders");
        assert_eq!(message.embeds[0].title, Some(text("Review reminder")));
        message.embeds.remove(0).description.unwrap()
    };
    assert_eq!(words(1, 7), "Day 1 of 7 has passed. ");
    assert_eq!(words(7, 7), "Day 7 of 7 has passed. It's time to come to a decision.");
    assert_eq!(words(8, 7), "Day 8 of 7 has passed. This review is overdue.");
}

#[test]
fn issues_are_summed_up() {
    let notice = Notice::IssueSummary { pr_id: 12, issues: Some(3), overrides: None };
    let message = notice.message(&repo());
    assert_eq!(
        message.embeds[0].description,
        Some(text("There are currently 3 issues and ERROR votes to override."))
    );
    assert_eq!(message.buttons[0].id, "cr_viewIssues_12");
}

#[test]
fn comments_are_written() {
    assert_eq!(
        Comment::Excluded { label: text("docs") }.render(),
        "This PR has been automatically excluded from the Content Review process because it was labeled `docs`. If it should be reviewed anyway, please comment `!review`."
    );
    assert_eq!(
        Comment::NotNeeded { by: text("bob") }.render(),
        "**Triaged by bob:** This PR does not require a content review discussion."
    );
    assert_eq!(
        Comment::ChangesRequested { description: text("one\ntwo"), by: text("bob") }.render(),
        "**Changes requested by CR**\n> one\n> two\n\nSent by bob."
    );
    assert_eq!(
        Comment::Consensus { outcome: CrOutcome::TestMerge, comment: None, by: text("bob") }.render(),
        "**CR consensus: Test-Merge**\nReview closed by bob."
    );
    assert_eq!(
        Comment::Consensus {
            outcome: CrOutcome::Denied,
            comment: Some(text("no")),
            by: text("bob")
        }
        .render(),
        "**CR consensus: Denied**\n> no\n\nReview closed by bob."
    );
    assert_eq!(
        Comment::ReviewStarted {
            by: text("bob"),
            private: true,
            reasoning: Some(text("why")),
            guild: GuildId::new(1),
            thread: ChannelId::new(2),
            days: 7
        }
        .render(),
        "**Triaged by bob:**\nThis PR requires a content review discussion, which will be held in private.\n> why\n\n\nYou can [view the discussion here](https://discord.com/channels/1/2) and write comments starting with `!discord` to send messages into the thread.\nThe review duration has been set to 7 days."
    );
}

#[test]
fn cards_are_shown() {
    let card = Card::ChangesRequested { description: text(""), by: text("bob") };
    assert!(!card.is_ephemeral());
    let embed = card.embed();
    assert_eq!(embed.title, Some(text("Changes requested")));
    assert_eq!(
        embed.description,
        Some(text("Description was unset. Label has been applied, please write a comment describing the required changes yourself."))
    );
    assert_eq!(embed.footer, Some(text("bob")));
    let card = Card::Closed { outcome: CrOutcome::Approved, comment: None, by: text("bob") };
    assert!(card.is_ephemeral());
    let embed = card.embed();
    assert_eq!(embed.title, Some(text("Discussion closed: Approved")));
    assert_eq!(embed.description, Some(text("*No reasoning provided.*")));
    assert_eq!(embed.footer, Some(text("Closed by bob")));
    let card = Card::Issue {
        message: MessageId::new(3),
        channel: ChannelId::new(2),
        guild: GuildId::new(1),
        fetched: None,
    };
    assert!(card.is_ephemeral());
    assert_eq!(card.embed().title, Some(text("Unknown issue")));
}

#[test]
fn messages_are_shown() {
    let message = MessageId::new(3);
    let channel = ChannelId::new(2);
    let guild = GuildId::new(1);
    let lost = create_message_embed(message, channel, guild, &None, Some("override"));
    assert_eq!(lost.title, Some(text("Unknown override")));
    assert_eq!(lost.url, Some(text("https://discord.com/channels/1/2/3")));
    assert_eq!(lost.description, Some(text("Failed to retrieve message.")));
    assert!(lost.fields.is_empty());
    let unnamed = create_message_embed(message, channel, guild, &None, None);
    assert_eq!(unnamed.title, Some(text("Unknown message")));
    let found = Some(FetchedMessage {
        author: UserId::new(9),
        author_name: text("ann"),
        content: "x".repeat(EMBED_MAX_LENGTH + 1),
        replied_to: None,
    });
    let embed = create_message_embed(message, channel, guild, &found, Some("issue"));
    assert_eq!(embed.title, Some(text("ann's issue")));
    assert_eq!(embed.description, Some("x".repeat(EMBED_MAX_LENGTH)));
    assert_eq!(
        embed.fields,
        vec![Field { name: "Author", value: text("<@9>"), inline: true }]
    );
}

#[test]
fn embeds_fill_messages_of_ten() {
    let many = |n: usize| split_embeds((0..n).map(|i| empty_embed(&i.to_string())).collect());
    assert!(many(0).is_empty());
    let sizes = |n: usize| many(n).iter().map(|piece| piece.len()).collect::<Vec<usize>>();
    assert_eq!(sizes(1), vec![1]);
    assert_eq!(sizes(10), vec![10]);
    assert_eq!(sizes(11), vec![10, 1]);
    assert_eq!(sizes(25), vec![10, 10, 5]);
    let all: Vec<Embed> = many(25).into_iter().flatten().collect();
    assert_eq!(all, (0..25).map(|i| empty_embed(&i.to_string())).collect::<Vec<Embed>>());
}

#[test]
fn errors_have_texts() {
    assert_eq!(HandledError::InternalError.message(), "An internal error occurred.");
    assert_eq!(HandledError::UserfacingError("no").message(), "no");
    let wrapped = Text::Error { before: "a ", error: HandledError::UserfacingError("b"), after: "." };
    assert_eq!(wrapped.render(), "a b.");
}

#[test]
fn lists_are_written() {
    let feed = |id: i64, ping_role: Option<RoleId>| PrFeed {
        id,
        gh_label: text("bug"),
        channel_id: ChannelId::new(7),
        ping_role,
    };
    assert_eq!(
        Text::Feeds(vec![feed(1, None), feed(2, Some(RoleId::new(5)))]).render(),
        "**Current PR Feeds**\nID 1: Label 'bug' to <#7>, pinging nobody\nID 2: Label 'bug' to <#7>, pinging <@&5>\n"
    );
    assert_eq!(Text::Feeds(vec![]).render(), "**Current PR Feeds**\nNone.");
    let criteria = vec![
        IgnoreCriterion { id: 1, kind: IgnoredKind::Author, value: text("bot") },
        IgnoreCriterion { id: 2, kind: IgnoredKind::Label, value: text("docs") },
    ];
    assert_eq!(
        Text::Criteria(criteria).render(),
        "**PR Ignore Criteria**\nID 1: Author `bot`\nID 2: Label `docs`\n"
    );
    assert_eq!(Text::Criteria(vec![]).render(), "**PR Ignore Criteria**\nNone.");
}

#[test]
fn short_replies_are_written() {
    let internal = HandledError::InternalError;
    for (reply, words) in [
        (Text::LabelNotRemoved(text("docs")), "Failed to remove 'docs' label"),
        (
            Text::RemindersDisabled { by: text("ann"), pr_id: 12 },
            "ann disabled reminders for PR #12.",
        ),
        (
            Text::RemindersNotDisabled { pr_id: 12, error: internal },
            "Failed to disable reminders for PR #12: An internal error occurred.",
        ),
        (Text::NoActiveIssue(UserId::new(9)), "<@9> has no active issue."),
        (
            Text::NothingToDismiss { is_override: false },
            "You haven't raised an issue in this discussion.",
        ),
        (
            Text::NothingToDismiss { is_override: true },
            "You haven't voted to override the issues in this discussion.",
        ),
        (Text::Dismissed { is_override: false }, "Issue dismissed successfully."),
        (Text::Dismissed { is_override: true }, "Override dismissed successfully."),
        (
            Text::IssueVotes {
                author: UserId::new(9),
                issue: MessageId::new(3),
                channel: ChannelId::new(2),
                guild: None,
                votes: vec![(UserId::new(7), MessageId::new(4))],
            },
            "**<@9>'s issue:** https://discord.com/channels/@me/2/3\n**Override votes:** 1\n- <@7>: https://discord.com/channels/@me/2/4\n",
        ),
    ] {
        assert_eq!(reply.render(), words);
    }
}

#[test]
fn a_label_that_is_gone_is_reported() {
    let told = try_remove_label(text("docs"), LabelRemoval::Refused(410));
    assert!(matches!(&told, Some(Text::LabelNotRemoved(label)) if label == "docs"));
    assert!(told.unwrap().render().contains("docs"));
    for removal in [LabelRemoval::Removed, LabelRemoval::Failed, LabelRemoval::Refused(404)] {
        assert!(try_remove_label(text("docs"), removal).is_none());
    }
}
