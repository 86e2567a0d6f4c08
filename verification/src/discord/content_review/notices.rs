//! The posts, messages and comments of the content review.

use vstd::prelude::*;
use vstd::string::*;

use crate::discord::content_review::component_events::{law_buttons_lead_to_their_tasks, pressed};
use crate::discord::content_review::consts::{
    component_id, make_component_id, BUTTON_ID_ACTION_MUTE_REMINDERS, BUTTON_ID_ACTION_NOT_NEEDED,
    BUTTON_ID_ACTION_START_PRIVATE, BUTTON_ID_ACTION_START_PUBLIC, BUTTON_ID_ACTION_VIEW_ISSUES,
};
use crate::discord::content_review::raised_issues::embeds::{create_message_embed, message_embed};
use crate::discord::content_review::triage::commands::CrOutcome;
use crate::discord::content_review::util::{create_pr_embed, pr_embed};
use crate::discord::action::{FetchedMessage, Task};
use crate::discord::ids::{ChannelId, GuildId, MessageId, RoleId};
use crate::discord::mention::{
    mention_role, message_address, role_mention, thread_address, thread_link,
};
use crate::discord::message::{
    opt_text, plain_message, text_message, Button, ButtonView, Embed, EmbedView, Field, FieldView,
    Message, MessageView, EMBED_DESC_MAX_LEN,
};
use crate::discord::{md_quote_block, to_md_quote_block};
use crate::github::Repo;
use crate::text::chars::{has_prefix, prefix_of, skip_chars, take_chars};
use crate::text::decimal::{decimal, push_i64, push_u64, signed_decimal};
use crate::util::{occurs_at, remove_html_comments, without_html_comments};

verus! {

/// A forum post, which starts a thread.
#[derive(Debug)]
pub enum Post {
    /// A pull request that is to be triaged.
    Intake { pr_id: u64, pr_title: String, pr_author: String, pr_body: Option<String> },
    /// A review that starts.
    Review {
        pr_id: u64,
        pr_title: String,
        pr_author: String,
        pr_body: Option<String>,
        triaged_by: String,
        reasoning: Option<String>,
        days: u64,
        /// When the review is due, in seconds.
        due: i64,
        ping: Option<RoleId>,
    },
}

/// The button with a given action for a pull request.
pub open spec fn button(action: Seq<char>, pr_id: u64, label: Seq<char>) -> ButtonView {
    ButtonView { id: component_id(action, pr_id), label }
}

fn make_button(action: &str, pr_id: u64, label: &'static str) -> (r: Button)
    ensures
        r@ == button(action@, pr_id, label@),
{
    Button { id: make_component_id(action, pr_id), label }
}

/// The embed that says how a pull request was triaged.
pub open spec fn triage_embed(
    triaged_by: Seq<char>,
    reasoning: Option<Seq<char>>,
    days: u64,
    due: i64,
) -> EmbedView {
    EmbedView {
        title: Some("Triaged by "@ + triaged_by),
        url: None,
        author: None,
        description: Some(
            match reasoning {
                Some(x) => x,
                None => "*No reasoning provided.*"@,
            },
        ),
        footer: None,
        fields: seq![
            FieldView {
                name: "Review duration"@,
                value: decimal(days as nat) + " days"@,
                inline: true,
            },
            FieldView {
                name: "Due"@,
                value: "<t:"@ + signed_decimal(due as int) + ":R>"@,
                inline: true,
            },
        ],
    }
}

fn make_triage_embed(triaged_by: &str, reasoning: &Option<String>, days: u64, due: i64) -> (r: Embed)
    ensures
        r@ == triage_embed(triaged_by@, opt_text(*reasoning), days, due),
{
    let mut title = "Triaged by ".to_owned();
    title.append(triaged_by);
    let description = match reasoning {
        Some(x) => x.clone(),
        None => "*No reasoning provided.*".to_owned(),
    };
    let mut duration = String::new();
    push_u64(&mut duration, days);
    duration.append(" days");
    let mut due_text = "<t:".to_owned();
    push_i64(&mut due_text, due);
    due_text.append(":R>");
    let mut fields: Vec<Field> = Vec::new();
    fields.push(Field { name: "Review duration", value: duration, inline: true });
    fields.push(Field { name: "Due", value: due_text, inline: true });
    proof {
        assert(Seq::<char>::empty() + decimal(days as nat) =~= decimal(days as nat));
        let want = triage_embed(triaged_by@, opt_text(*reasoning), days, due).fields;
        assert(fields@.map_values(|f: Field| f@) =~= want);
    }
    Embed {
        title: Some(title),
        url: None,
        author: None,
        description: Some(description),
        footer: None,
        fields,
    }
}

/// The mention of a role that may be missing.
pub open spec fn ping_text(ping: Option<RoleId>) -> Option<Seq<char>> {
    match ping {
        Some(role) => Some(role_mention(role@)),
        None => None,
    }
}

fn make_ping(ping: Option<RoleId>) -> (r: Option<String>)
    ensures
        opt_text(r) == ping_text(ping),
{
    match ping {
        Some(role) => Some(mention_role(role)),
        None => None,
    }
}

/// A text, behind a reference, that may be missing.
pub fn as_text(s: &Option<String>) -> (r: Option<&str>)
    ensures
        (match r {
            Some(x) => Some(x@),
            None => None,
        }) == opt_text(*s),
{
    match s {
        Some(x) => Some(x.as_str()),
        None => None,
    }
}

impl Post {
    /// The title of the thread: that of the pull request, and its number.
    pub open spec fn title_text(self) -> Seq<char> {
        match self {
            Post::Intake { pr_id, pr_title, .. } => pr_title@ + " #"@ + decimal(pr_id as nat),
            Post::Review { pr_id, pr_title, .. } => pr_title@ + " #"@ + decimal(pr_id as nat),
        }
    }

    /// The title of the thread.
    pub fn title(&self) -> (r: String)
        ensures
            r@ == self.title_text(),
    {
        match self {
            Post::Intake { pr_id, pr_title, .. } => {
                let mut out = pr_title.clone();
                out.append(" #");
                push_u64(&mut out, *pr_id);
                out
            },
            Post::Review { pr_id, pr_title, .. } => {
                let mut out = pr_title.clone();
                out.append(" #");
                push_u64(&mut out, *pr_id);
                out
            },
        }
    }

    /// The first message of the thread.
    pub open spec fn content(self, repo: Repo) -> MessageView {
        match self {
            Post::Intake { pr_id, pr_title, pr_author, pr_body } => MessageView {
                content: None,
                notifies: None,
                embeds: seq![pr_embed(pr_id, pr_title@, pr_author@, opt_text(pr_body), repo)],
                buttons: seq![
                    button(BUTTON_ID_ACTION_START_PUBLIC@, pr_id, "Public review"@),
                    button(BUTTON_ID_ACTION_START_PRIVATE@, pr_id, "Private review"@),
                    button(BUTTON_ID_ACTION_NOT_NEEDED@, pr_id, "No review needed"@),
                ],
            },
            Post::Review {
                pr_id,
                pr_title,
                pr_author,
                pr_body,
                triaged_by,
                reasoning,
                days,
                due,
                ping,
            } => MessageView {
                content: ping_text(ping),
                notifies: ping,
                embeds: seq![
                    pr_embed(pr_id, pr_title@, pr_author@, opt_text(pr_body), repo),
                    triage_embed(triaged_by@, opt_text(reasoning), days, due),
                ],
                buttons: Seq::empty(),
            },
        }
    }

    /// The first message of the thread.
    pub fn message(&self, repo: &Repo) -> (r: Message)
        ensures
            r@ == self.content(*repo),
    {
        let mut embeds: Vec<Embed> = Vec::new();
        let mut buttons: Vec<Button> = Vec::new();
        match self {
            Post::Intake { pr_id, pr_title, pr_author, pr_body } => {
                embeds.push(
                    create_pr_embed(
                        *pr_id,
                        pr_title.as_str(),
                        pr_author.as_str(),
                        as_text(pr_body),
                        repo,
                    ),
                );
                buttons.push(make_button(BUTTON_ID_ACTION_START_PUBLIC, *pr_id, "Public review"));
                buttons.push(make_button(BUTTON_ID_ACTION_START_PRIVATE, *pr_id, "Private review"));
                buttons.push(make_button(BUTTON_ID_ACTION_NOT_NEEDED, *pr_id, "No review needed"));
                let r = Message { content: None, notifies: None, embeds, buttons };
                assert(r@ =~= self.content(*repo));
                r
            },
            Post::Review {
                pr_id,
                pr_title,
                pr_author,
                pr_body,
                triaged_by,
                reasoning,
                days,
                due,
                ping,
            } => {
                embeds.push(
                    create_pr_embed(
                        *pr_id,
                        pr_title.as_str(),
                        pr_author.as_str(),
                        as_text(pr_body),
                        repo,
                    ),
                );
                embeds.push(make_triage_embed(triaged_by.as_str(), reasoning, *days, *due));
                let r = Message { content: make_ping(*ping), notifies: *ping, embeds, buttons };
                assert(r@ =~= self.content(*repo));
                r
            },
        }
    }
}

/// A message into a channel or a thread.
#[derive(Debug)]
pub enum Notice {
    /// A pull request was opened again.
    Opened { by: String },
    /// A pull request was closed.
    Closed { by: String },
    /// A pull request was merged.
    Merged { by: String },
    /// A pull request was made a draft.
    Drafted { by: String },
    /// A comment from GitHub that is meant for the thread.
    Relayed { username: String, comment: String },
    /// A pull request in a feed.
    Feed { pr_id: u64, pr_title: String, pr_author: String, pr_body: Option<String>, ping: Option<RoleId> },
    /// A day of the review has passed.
    Reminder { pr_id: u64, passed: u64, total: u64, ping: Option<RoleId> },
    /// How many issues and votes to override there are; a count that is missing failed.
    IssueSummary { pr_id: u64, issues: Option<i64>, overrides: Option<i64> },
}

/// The command that a comment from GitHub begins with to be sent into the thread.
pub const GH_COMMENT_COMMAND: &'static str = "!discord";

/// How many characters that command has.
pub const GH_COMMENT_COMMAND_LEN: usize = 8;

/// What follows the command in a comment.
pub open spec fn after_command(comment: Seq<char>) -> Seq<char> {
    if comment.len() >= GH_COMMENT_COMMAND_LEN {
        comment.skip(GH_COMMENT_COMMAND_LEN as int)
    } else {
        Seq::empty()
    }
}

/// What is said of the time left.
pub open spec fn urgency(passed: u64, total: u64) -> Seq<char> {
    if passed == total {
        "It's time to come to a decision."@
    } else if passed > total {
        "This review is overdue."@
    } else {
        ""@
    }
}

/// A count in words, or that it failed.
pub open spec fn count_text(count: Option<i64>) -> Seq<char> {
    match count {
        Some(n) => signed_decimal(n as int),
        None => "ERROR"@,
    }
}

fn push_count(out: &mut String, count: Option<i64>)
    ensures
        final(out)@ == old(out)@ + count_text(count),
{
    match count {
        Some(n) => push_i64(out, n),
        None => out.append("ERROR"),
    }
}

/// An embed that has a title and a description, and nothing else.
pub open spec fn simple_embed(title: Seq<char>, description: Seq<char>) -> EmbedView {
    EmbedView {
        title: Some(title),
        url: None,
        author: None,
        description: Some(description),
        footer: None,
        fields: Seq::empty(),
    }
}

fn make_simple_embed(title: &str, description: String) -> (r: Embed)
    ensures
        r@ == simple_embed(title@, description@),
{
    let fields: Vec<Field> = Vec::new();
    assert(fields@.map_values(|f: Field| f@) =~= Seq::<FieldView>::empty());
    Embed {
        title: Some(title.to_owned()),
        url: None,
        author: None,
        description: Some(description),
        footer: None,
        fields,
    }
}

/// What happened to a pull request, and by whom.
pub open spec fn event_text(what: Seq<char>, by: Seq<char>) -> Seq<char> {
    "This PR has been "@ + what + " by `"@ + by + "`."@
}

fn make_event(what: &str, by: &str) -> (r: Message)
    ensures
        r@ == plain_message(event_text(what@, by@)),
{
    let mut out = "This PR has been ".to_owned();
    out.append(what);
    out.append(" by `");
    out.append(by);
    out.append("`.");
    text_message(out)
}

impl Notice {
    /// What the message shows.
    pub open spec fn content(self, repo: Repo) -> MessageView {
        match self {
            Notice::Opened { by } => plain_message(event_text("opened"@, by@)),
            Notice::Closed { by } => plain_message(event_text("closed"@, by@)),
            Notice::Merged { by } => plain_message(event_text("merged"@, by@)),
            Notice::Drafted { by } => plain_message(event_text("converted into a draft"@, by@)),
            Notice::Relayed { username, comment } => MessageView {
                content: None,
                notifies: None,
                embeds: seq![
                    EmbedView {
                        title: None,
                        url: None,
                        author: Some(username@ + " via GitHub"@),
                        description: Some(
                            prefix_of(
                                after_command(comment@),
                                EMBED_DESC_MAX_LEN as int,
                            ),
                        ),
                        footer: None,
                        fields: Seq::empty(),
                    },
                ],
                buttons: Seq::empty(),
            },
            Notice::Feed { pr_id, pr_title, pr_author, pr_body, ping } => MessageView {
                content: ping_text(ping),
                notifies: ping,
                embeds: seq![
                    pr_embed(
                        pr_id,
                        pr_title@,
                        pr_author@,
                        match pr_body {
                            Some(x) => Some(without_html_comments(x@)),
                            None => None,
                        },
                        repo,
                    ),
                ],
                buttons: Seq::empty(),
            },
            Notice::Reminder { pr_id, passed, total, ping } => MessageView {
                content: ping_text(ping),
                notifies: ping,
                embeds: seq![
                    simple_embed(
                        "Review reminder"@,
                        "Day "@ + decimal(passed as nat) + " of "@ + decimal(total as nat)
                            + " has passed. "@ + urgency(passed, total),
                    ),
                ],
                buttons: seq![
                    button(BUTTON_ID_ACTION_MUTE_REMINDERS@, pr_id, "Disable reminders"@),
                ],
            },
            Notice::IssueSummary { pr_id, issues, overrides } => MessageView {
                content: None,
                notifies: None,
                embeds: seq![
                    simple_embed(
                        "Issues"@,
                        "There are currently "@ + count_text(issues) + " issues and "@
                            + count_text(overrides) + " votes to override."@,
                    ),
                ],
                buttons: seq![button(BUTTON_ID_ACTION_VIEW_ISSUES@, pr_id, "View"@)],
            },
        }
    }

    /// The message.
    pub fn message(&self, repo: &Repo) -> (r: Message)
        ensures
            r@ == self.content(*repo),
    {
        let mut embeds: Vec<Embed> = Vec::new();
        let mut buttons: Vec<Button> = Vec::new();
        match self {
            Notice::Opened { by } => make_event("opened", by.as_str()),
            Notice::Closed { by } => make_event("closed", by.as_str()),
            Notice::Merged { by } => make_event("merged", by.as_str()),
            Notice::Drafted { by } => make_event("converted into a draft", by.as_str()),
            Notice::Relayed { username, comment } => {
                let mut author = username.clone();
                author.append(" via GitHub");
                let rest = if comment.as_str().unicode_len() >= GH_COMMENT_COMMAND_LEN {
                    skip_chars(comment.as_str(), GH_COMMENT_COMMAND_LEN)
                } else {
                    String::new()
                };
                let description = take_chars(rest.as_str(), EMBED_DESC_MAX_LEN);
                let fields: Vec<Field> = Vec::new();
                assert(fields@.map_values(|f: Field| f@) =~= Seq::<FieldView>::empty());
                embeds.push(
                    Embed {
                        title: None,
                        url: None,
                        author: Some(author),
                        description: Some(description),
                        footer: None,
                        fields,
                    },
                );
                let r = Message { content: None, notifies: None, embeds, buttons };
                assert(r@ =~= self.content(*repo));
                r
            },
            Notice::Feed { pr_id, pr_title, pr_author, pr_body, ping } => {
                let body = match pr_body {
                    Some(x) => Some(remove_html_comments(x.as_str())),
                    None => None,
                };
                embeds.push(
                    create_pr_embed(
                        *pr_id,
                        pr_title.as_str(),
                        pr_author.as_str(),
                        as_text(&body),
                        repo,
                    ),
                );
                let r = Message { content: make_ping(*ping), notifies: *ping, embeds, buttons };
                assert(r@ =~= self.content(*repo));
                r
            },
            Notice::Reminder { pr_id, passed, total, ping } => {
                let mut text = "Day ".to_owned();
                push_u64(&mut text, *passed);
                text.append(" of ");
                push_u64(&mut text, *total);
                text.append(" has passed. ");
                if *passed == *total {
                    text.append("It's time to come to a decision.");
                } else if *passed > *total {
                    text.append("This review is overdue.");
                } else {
                    text.append("");
                }
                embeds.push(make_simple_embed("Review reminder", text));
                buttons.push(
                    make_button(BUTTON_ID_ACTION_MUTE_REMINDERS, *pr_id, "Disable reminders"),
                );
                let r = Message { content: make_ping(*ping), notifies: *ping, embeds, buttons };
                assert(r@ =~= self.content(*repo));
                r
            },
            Notice::IssueSummary { pr_id, issues, overrides } => {
                let mut text = "There are currently ".to_owned();
                push_count(&mut text, *issues);
                text.append(" issues and ");
                push_count(&mut text, *overrides);
                text.append(" votes to override.");
                embeds.push(make_simple_embed("Issues", text));
                buttons.push(make_button(BUTTON_ID_ACTION_VIEW_ISSUES, *pr_id, "View"));
                let r = Message { content: None, notifies: None, embeds, buttons };
                assert(r@ =~= self.content(*repo));
                r
            },
        }
    }
}

/// A comment on a pull request.
#[derive(Debug)]
pub enum Comment {
    /// The pull request is excluded from the review because of a label.
    Excluded { label: String },
    /// A review starts.
    ReviewStarted {
        by: String,
        private: bool,
        reasoning: Option<String>,
        guild: GuildId,
        thread: ChannelId,
        days: u64,
    },
    /// No review is needed.
    NotNeeded { by: String },
    /// Changes are requested.
    ChangesRequested { description: String, by: String },
    /// A review ended.
    Consensus { outcome: CrOutcome, comment: Option<String>, by: String },
}

/// A text as a quote, or nothing where it is missing.
pub open spec fn opt_quote(s: Option<Seq<char>>) -> Seq<char> {
    match s {
        Some(x) => md_quote_block(x),
        None => ""@,
    }
}

fn push_opt_quote(out: &mut String, s: &Option<String>)
    ensures
        final(out)@ == old(out)@ + opt_quote(opt_text(*s)),
{
    match s {
        Some(x) => {
            let quote = to_md_quote_block(x.as_str());
            out.append(quote.as_str());
        },
        None => out.append(""),
    }
}

impl Comment {
    /// What the comment says.
    pub open spec fn text(self) -> Seq<char> {
        match self {
            Comment::Excluded { label } => {
                "This PR has been automatically excluded from the Content Review process because it was labeled `"@
                    + label@
                    + "`. If it should be reviewed anyway, please comment `!review`."@
            },
            Comment::ReviewStarted { by, private, reasoning, guild, thread, days } => {
                "**Triaged by "@ + by@
                    + ":**\nThis PR requires a content review discussion, which will be held in "@
                    + (if private {
                    "private"@
                } else {
                    "public"@
                }) + ".\n"@ + opt_quote(opt_text(reasoning)) + "\nYou can [view the discussion here]("@
                    + thread_address(guild, thread)
                    + ") and write comments starting with `!discord` to send messages into the thread.\n"@
                    + "The review duration has been set to "@ + decimal(days as nat) + " days."@
            },
            Comment::NotNeeded { by } => {
                "**Triaged by "@ + by@
                    + ":** This PR does not require a content review discussion."@
            },
            Comment::ChangesRequested { description, by } => {
                "**Changes requested by CR**\n"@ + md_quote_block(description@) + "Sent by "@ + by@
                    + "."@
            },
            Comment::Consensus { outcome, comment, by } => {
                "**CR consensus: "@ + outcome.name_text() + "**\n"@ + opt_quote(opt_text(comment))
                    + "Review closed by "@ + by@ + "."@
            },
        }
    }

    /// What the comment says.
    pub fn render(&self) -> (r: String)
        ensures
            r@ == self.text(),
    {
        match self {
            Comment::Excluded { label } => {
                let mut out =
                    "This PR has been automatically excluded from the Content Review process because it was labeled `".to_owned();
                out.append(label.as_str());
                out.append("`. If it should be reviewed anyway, please comment `!review`.");
                out
            },
            Comment::ReviewStarted { by, private, reasoning, guild, thread, days } => {
                let mut out = "**Triaged by ".to_owned();
                out.append(by.as_str());
                out.append(
                    ":**\nThis PR requires a content review discussion, which will be held in ",
                );
                if *private {
                    out.append("private");
                } else {
                    out.append("public");
                }
                out.append(".\n");
                push_opt_quote(&mut out, reasoning);
                out.append("\nYou can [view the discussion here](");
                let link = thread_link(*guild, *thread);
                out.append(link.as_str());
                out.append(
                    ") and write comments starting with `!discord` to send messages into the thread.\n",
                );
                out.append("The review duration has been set to ");
                push_u64(&mut out, *days);
                out.append(" days.");
                out
            },
            Comment::NotNeeded { by } => {
                let mut out = "**Triaged by ".to_owned();
                out.append(by.as_str());
                out.append(":** This PR does not require a content review discussion.");
                out
            },
            Comment::ChangesRequested { description, by } => {
                let mut out = "**Changes requested by CR**\n".to_owned();
                let quote = to_md_quote_block(description.as_str());
                out.append(quote.as_str());
                out.append("Sent by ");
                out.append(by.as_str());
                out.append(".");
                out
            },
            Comment::Consensus { outcome, comment, by } => {
                let mut out = "**CR consensus: ".to_owned();
                out.append(outcome.name());
                out.append("**\n");
                push_opt_quote(&mut out, comment);
                out.append("Review closed by ");
                out.append(by.as_str());
                out.append(".");
                out
            },
        }
    }
}

/// An embed in reply to a command.
#[derive(Debug)]
pub enum Card {
    /// Changes were requested.
    ChangesRequested { description: String, by: String },
    /// A review ended.
    Closed { outcome: CrOutcome, comment: Option<String>, by: String },
    /// The message of an issue.
    Issue {
        message: MessageId,
        channel: ChannelId,
        guild: GuildId,
        fetched: Option<FetchedMessage>,
    },
}

impl Card {
    /// Whether only the one who gave the command sees the reply: all but a request for changes.
    pub fn is_ephemeral(&self) -> (r: bool)
        ensures
            r == !(self is ChangesRequested),
    {
        match self {
            Card::ChangesRequested { .. } => false,
            _ => true,
        }
    }

    /// What the embed shows.
    pub open spec fn content(self) -> EmbedView {
        match self {
            Card::ChangesRequested { description, by } => EmbedView {
                title: Some("Changes requested"@),
                url: None,
                author: None,
                description: Some(
                    if description@.len() == 0 {
                        "Description was unset. Label has been applied, please write a comment describing the required changes yourself."@
                    } else {
                        description@
                    },
                ),
                footer: Some(by@),
                fields: Seq::empty(),
            },
            Card::Closed { outcome, comment, by } => EmbedView {
                title: Some("Discussion closed: "@ + outcome.name_text()),
                url: None,
                author: None,
                description: Some(
                    match comment {
                        Some(x) => x@,
                        None => "*No reasoning provided.*"@,
                    },
                ),
                footer: Some("Closed by "@ + by@),
                fields: Seq::empty(),
            },
            Card::Issue { message, channel, guild, fetched } => message_embed(
                message,
                channel,
                guild,
                fetched,
                Some("issue"@),
            ),
        }
    }

    /// The embed.
    pub fn embed(&self) -> (r: Embed)
        ensures
            r@ == self.content(),
    {
        let fields: Vec<Field> = Vec::new();
        assert(fields@.map_values(|f: Field| f@) =~= Seq::<FieldView>::empty());
        match self {
            Card::ChangesRequested { description, by } => {
                let text = if is_blank(description) {
                    "Description was unset. Label has been applied, please write a comment describing the required changes yourself.".to_owned()
                } else {
                    description.clone()
                };
                Embed {
                    title: Some("Changes requested".to_owned()),
                    url: None,
                    author: None,
                    description: Some(text),
                    footer: Some(by.clone()),
                    fields,
                }
            },
            Card::Closed { outcome, comment, by } => {
                let mut title = "Discussion closed: ".to_owned();
                title.append(outcome.name());
                let mut footer = "Closed by ".to_owned();
                footer.append(by.as_str());
                let text = match comment {
                    Some(x) => x.clone(),
                    None => "*No reasoning provided.*".to_owned(),
                };
                Embed {
                    title: Some(title),
                    url: None,
                    author: None,
                    description: Some(text),
                    footer: Some(footer),
                    fields,
                }
            },
            Card::Issue { message, channel, guild, fetched } => create_message_embed(
                *message,
                *channel,
                *guild,
                fetched,
                Some("issue"),
            ),
        }
    }
}

/// Whether a text has no characters.
pub fn is_blank(s: &String) -> (r: bool)
    ensures
        r == (s@.len() == 0),
{
    s.as_str().unicode_len() == 0
}

/// The announcement of a review says truly whether the discussion is public or private, who triaged
/// the pull request, and how many days there are.
pub proof fn law_review_start_is_announced(
    by: String,
    private: bool,
    reasoning: Option<String>,
    guild: GuildId,
    thread: ChannelId,
    days: u64,
)
    ensures
        ({
            let text = (Comment::ReviewStarted { by, private, reasoning, guild, thread, days }).text();
            let public_words =
                ":**\nThis PR requires a content review discussion, which will be held in public.\n"@;
            let private_words =
                ":**\nThis PR requires a content review discussion, which will be held in private.\n"@;
            &&& private ==> has_prefix(text, "**Triaged by "@ + by@ + private_words)
            &&& !private ==> has_prefix(text, "**Triaged by "@ + by@ + public_words)
            &&& has_suffix(
                text,
                "\nYou can [view the discussion here]("@ + thread_address(guild, thread)
                    + ") and write comments starting with `!discord` to send messages into the thread.\nThe review duration has been set to "@
                    + decimal(days as nat) + " days."@,
            )
            &&& reasoning matches Some(words) ==> mentions(text, md_quote_block(words@))
        }),
{
    reveal_strlit(":**\nThis PR requires a content review discussion, which will be held in ");
    reveal_strlit(":**\nThis PR requires a content review discussion, which will be held in public.\n");
    reveal_strlit(":**\nThis PR requires a content review discussion, which will be held in private.\n");
    reveal_strlit("private");
    reveal_strlit("public");
    reveal_strlit(".\n");
    reveal_strlit(
        ") and write comments starting with `!discord` to send messages into the thread.\nThe review duration has been set to ",
    );
    reveal_strlit(
        ") and write comments starting with `!discord` to send messages into the thread.\n",
    );
    reveal_strlit("The review duration has been set to ");
    let text = (Comment::ReviewStarted { by, private, reasoning, guild, thread, days }).text();
    let where_held = if private {
        "private"@
    } else {
        "public"@
    };
    let head = "**Triaged by "@ + by@
        + ":**\nThis PR requires a content review discussion, which will be held in "@ + where_held
        + ".\n"@;
    let quote = opt_quote(opt_text(reasoning));
    let tail = "\nYou can [view the discussion here]("@ + thread_address(guild, thread)
        + ") and write comments starting with `!discord` to send messages into the thread.\nThe review duration has been set to "@
        + decimal(days as nat) + " days."@;
    assert(") and write comments starting with `!discord` to send messages into the thread.\nThe review duration has been set to "@
        =~= ") and write comments starting with `!discord` to send messages into the thread.\n"@
        + "The review duration has been set to "@);
    assert(text =~= head + quote + tail);
    assert(text.take(head.len() as int) =~= head);
    assert(text.skip(text.len() - tail.len()) =~= tail);
    if private {
        assert(head =~= "**Triaged by "@ + by@
            + ":**\nThis PR requires a content review discussion, which will be held in private.\n"@);
    } else {
        assert(head =~= "**Triaged by "@ + by@
            + ":**\nThis PR requires a content review discussion, which will be held in public.\n"@);
    }
    lemma_mentions(head, quote, tail);
}

/// Whether a text ends with another.
pub open spec fn has_suffix(s: Seq<char>, p: Seq<char>) -> bool {
    p.len() <= s.len() && s.skip(s.len() - p.len()) == p
}

/// Whether a text says another somewhere.
pub open spec fn mentions(s: Seq<char>, p: Seq<char>) -> bool {
    exists|i: int| occurs_at(s, p, i)
}

proof fn lemma_mentions(a: Seq<char>, p: Seq<char>, b: Seq<char>)
    ensures
        mentions(a + p + b, p),
{
    assert((a + p + b).subrange(a.len() as int, (a.len() + p.len()) as int) =~= p);
    assert(occurs_at(a + p + b, p, a.len() as int));
}

/// The other comments say what was decided and by whom: that no review is needed, which changes are
/// requested, which outcome the review has and why, or which label excluded the pull request.
pub proof fn law_decisions_are_announced(
    by: String,
    description: String,
    outcome: CrOutcome,
    reason: String,
    label: String,
)
    ensures
        (Comment::NotNeeded { by }).text() == "**Triaged by "@ + by@
            + ":** This PR does not require a content review discussion."@,
        (Comment::ChangesRequested { description, by }).text() == "**Changes requested by CR**\n"@
            + md_quote_block(description@) + "Sent by "@ + by@ + "."@,
        (Comment::Excluded { label }).text()
            == "This PR has been automatically excluded from the Content Review process because it was labeled `"@
            + label@ + "`. If it should be reviewed anyway, please comment `!review`."@,
        ({
            let text = (Comment::Consensus { outcome, comment: Some(reason), by }).text();
            let short = (Comment::Consensus { outcome, comment: None, by }).text();
            &&& outcome is Denied ==> has_prefix(text, "**CR consensus: Denied**\n"@)
            &&& outcome is Approved ==> has_prefix(text, "**CR consensus: Approved**\n"@)
            &&& outcome is TestMerge ==> has_prefix(text, "**CR consensus: Test-Merge**\n"@)
            &&& has_suffix(text, md_quote_block(reason@) + "Review closed by "@ + by@ + "."@)
            &&& has_suffix(short, "Review closed by "@ + by@ + "."@)
            &&& outcome is Denied ==> has_prefix(short, "**CR consensus: Denied**\n"@)
            &&& outcome is Approved ==> has_prefix(short, "**CR consensus: Approved**\n"@)
            &&& outcome is TestMerge ==> has_prefix(short, "**CR consensus: Test-Merge**\n"@)
        }),
{
    reveal_strlit("**CR consensus: ");
    reveal_strlit("Denied");
    reveal_strlit("Approved");
    reveal_strlit("Test-Merge");
    reveal_strlit("**\n");
    reveal_strlit("**CR consensus: Denied**\n");
    reveal_strlit("**CR consensus: Approved**\n");
    reveal_strlit("**CR consensus: Test-Merge**\n");
    reveal_strlit("");
    let text = (Comment::Consensus { outcome, comment: Some(reason), by }).text();
    let short = (Comment::Consensus { outcome, comment: None, by }).text();
    let head = "**CR consensus: "@ + outcome.name_text() + "**\n"@;
    let end = "Review closed by "@ + by@ + "."@;
    let tail = md_quote_block(reason@) + end;
    assert(tail =~= md_quote_block(reason@) + "Review closed by "@ + by@ + "."@);
    assert(text =~= head + tail);
    assert(short =~= head + end);
    assert(text.take(head.len() as int) =~= head);
    assert(short.take(head.len() as int) =~= head);
    assert(text.skip(text.len() - tail.len()) =~= tail);
    assert(short.skip(short.len() - end.len()) =~= end);
    if outcome is Denied {
        assert(head =~= "**CR consensus: Denied**\n"@);
    } else if outcome is Approved {
        assert(head =~= "**CR consensus: Approved**\n"@);
    } else {
        assert(head =~= "**CR consensus: Test-Merge**\n"@);
    }
}

/// A pull request in triage is presented with three buttons, and each of them does what it says, for
/// that pull request: a press starts a public review, a private one, or declares that none is needed.
pub proof fn law_triage_offers_three_ways(
    pr_id: u64,
    pr_title: String,
    pr_author: String,
    pr_body: Option<String>,
    repo: Repo,
)
    ensures
        ({
            let post = Post::Intake { pr_id, pr_title, pr_author, pr_body };
            let message = post.content(repo);
            &&& post.title_text() == pr_title@ + " #"@ + decimal(pr_id as nat)
            &&& message.content is None
            &&& message.notifies is None
            &&& message.embeds == seq![
                pr_embed(pr_id, pr_title@, pr_author@, opt_text(pr_body), repo),
            ]
            &&& message.buttons.len() == 3
            &&& message.buttons[0].label == "Public review"@
            &&& message.buttons[1].label == "Private review"@
            &&& message.buttons[2].label == "No review needed"@
            &&& pressed(message.buttons[0].id) == Some(Task::StartReview { pr_id, private: false })
            &&& pressed(message.buttons[1].id) == Some(Task::StartReview { pr_id, private: true })
            &&& pressed(message.buttons[2].id) == Some(Task::NoReviewNeeded { pr_id })
        }),
{
    law_buttons_lead_to_their_tasks(pr_id);
}

/// A review is presented with its pull request, who triaged it and why, how long it lasts and when it
/// is due; the role that is set for that is mentioned and notified.
pub proof fn law_review_is_presented(
    pr_id: u64,
    pr_title: String,
    pr_author: String,
    pr_body: Option<String>,
    triaged_by: String,
    reasoning: Option<String>,
    days: u64,
    due: i64,
    ping: Option<RoleId>,
    repo: Repo,
)
    ensures
        ({
            let post = Post::Review {
                pr_id,
                pr_title,
                pr_author,
                pr_body,
                triaged_by,
                reasoning,
                days,
                due,
                ping,
            };
            let message = post.content(repo);
            &&& post.title_text() == pr_title@ + " #"@ + decimal(pr_id as nat)
            &&& message.notifies == ping
            &&& ping is None ==> message.content is None
            &&& ping matches Some(role) ==> message.content == Some(role_mention(role@))
            &&& message.buttons.len() == 0
            &&& message.embeds.len() == 2
            &&& message.embeds[0] == pr_embed(
                pr_id,
                pr_title@,
                pr_author@,
                opt_text(pr_body),
                repo,
            )
            &&& message.embeds[1].title == Some("Triaged by "@ + triaged_by@)
            &&& reasoning matches Some(words) ==> message.embeds[1].description == Some(words@)
            &&& reasoning is None ==> message.embeds[1].description == Some(
                "*No reasoning provided.*"@,
            )
            &&& message.embeds[1].fields.len() == 2
            &&& message.embeds[1].fields[0].name == "Review duration"@
            &&& message.embeds[1].fields[0].value == decimal(days as nat) + " days"@
            &&& message.embeds[1].fields[1].name == "Due"@
            &&& message.embeds[1].fields[1].value == "<t:"@ + signed_decimal(due as int) + ":R>"@
        }),
{
}

/// What happened to a pull request is told in its thread in the right words, with the name of the one
/// who did it.
pub proof fn law_events_are_told(by: String, repo: Repo)
    ensures
        (Notice::Opened { by }).content(repo).content == Some(
            "This PR has been opened by `"@ + by@ + "`."@,
        ),
        (Notice::Closed { by }).content(repo).content == Some(
            "This PR has been closed by `"@ + by@ + "`."@,
        ),
        (Notice::Merged { by }).content(repo).content == Some(
            "This PR has been merged by `"@ + by@ + "`."@,
        ),
        (Notice::Drafted { by }).content(repo).content == Some(
            "This PR has been converted into a draft by `"@ + by@ + "`."@,
        ),
{
    reveal_strlit("This PR has been ");
    reveal_strlit(" by `");
    reveal_strlit("opened");
    reveal_strlit("closed");
    reveal_strlit("merged");
    reveal_strlit("converted into a draft");
    reveal_strlit("This PR has been opened by `");
    reveal_strlit("This PR has been closed by `");
    reveal_strlit("This PR has been merged by `");
    reveal_strlit("This PR has been converted into a draft by `");
    assert(event_text("opened"@, by@) =~= "This PR has been opened by `"@ + by@ + "`."@);
    assert(event_text("closed"@, by@) =~= "This PR has been closed by `"@ + by@ + "`."@);
    assert(event_text("merged"@, by@) =~= "This PR has been merged by `"@ + by@ + "`."@);
    assert(event_text("converted into a draft"@, by@)
        =~= "This PR has been converted into a draft by `"@ + by@ + "`."@);
}

/// A comment from GitHub goes into the thread without its command, under the name of its author, as
/// far as there is room for it.
pub proof fn law_relayed_comment_is_shown(username: String, rest: Seq<char>, comment: String, repo: Repo)
    requires
        comment@.len() >= 8,
        rest == comment@.skip(8),
    ensures
        ({
            let message = (Notice::Relayed { username, comment }).content(repo);
            &&& message.notifies is None
            &&& message.embeds.len() == 1
            &&& message.embeds[0].author == Some(username@ + " via GitHub"@)
            &&& rest.len() <= 4096 ==> message.embeds[0].description == Some(rest)
            &&& rest.len() > 4096 ==> message.embeds[0].description == Some(
                rest.take(4096),
            )
        }),
{
    if rest.len() <= 4096 {
        assert(prefix_of(rest, 4096) =~= rest);
    }
}

/// A pull request in a feed is presented without the hidden parts of its description, and the role
/// of the feed is mentioned and notified.
pub proof fn law_feed_presents_the_pull(
    pr_id: u64,
    pr_title: String,
    pr_author: String,
    body: String,
    ping: Option<RoleId>,
    repo: Repo,
)
    ensures
        ({
            let message = (Notice::Feed { pr_id, pr_title, pr_author, pr_body: Some(body), ping }).content(
                repo,
            );
            let bare = (Notice::Feed { pr_id, pr_title, pr_author, pr_body: None, ping }).content(
                repo,
            );
            &&& message.notifies == ping
            &&& ping is None ==> message.content is None
            &&& ping matches Some(role) ==> message.content == Some(role_mention(role@))
            &&& message.embeds == seq![
                pr_embed(
                    pr_id,
                    pr_title@,
                    pr_author@,
                    Some(without_html_comments(body@)),
                    repo,
                ),
            ]
            &&& bare.embeds == seq![pr_embed(pr_id, pr_title@, pr_author@, None, repo)]
        }),
{
}

/// A reminder counts the days of the review, says when it is time to decide and when the review is
/// overdue, notifies the role that is set, and offers to stop the reminders of its pull request.
pub proof fn law_reminder_counts_the_days(
    pr_id: u64,
    passed: u64,
    total: u64,
    ping: Option<RoleId>,
    repo: Repo,
)
    ensures
        ({
            let message = (Notice::Reminder { pr_id, passed, total, ping }).content(repo);
            let count = "Day "@ + decimal(passed as nat) + " of "@ + decimal(total as nat)
                + " has passed. "@;
            &&& message.notifies == ping
            &&& ping is None ==> message.content is None
            &&& ping matches Some(role) ==> message.content == Some(role_mention(role@))
            &&& message.embeds.len() == 1
            &&& message.embeds[0].title == Some("Review reminder"@)
            &&& passed < total ==> message.embeds[0].description == Some(count)
            &&& passed == total ==> message.embeds[0].description == Some(
                count + "It's time to come to a decision."@,
            )
            &&& passed > total ==> message.embeds[0].description == Some(
                count + "This review is overdue."@,
            )
            &&& message.buttons.len() == 1
            &&& message.buttons[0].label == "Disable reminders"@
            &&& pressed(message.buttons[0].id) == Some(Task::MuteReminders { pr_id })
        }),
{
    reveal_strlit("");
    law_buttons_lead_to_their_tasks(pr_id);
    let count = "Day "@ + decimal(passed as nat) + " of "@ + decimal(total as nat)
        + " has passed. "@;
    assert(count + ""@ =~= count);
}

/// A summary tells how many issues and votes there are, or that they could not be counted, and offers
/// to show those of its pull request.
pub proof fn law_summary_tells_both_counts(pr_id: u64, issues: i64, overrides: i64, repo: Repo)
    ensures
        ({
            let message = (Notice::IssueSummary {
                pr_id,
                issues: Some(issues),
                overrides: Some(overrides),
            }).content(repo);
            let failed = (Notice::IssueSummary { pr_id, issues: None, overrides: None }).content(
                repo,
            );
            &&& message.embeds.len() == 1
            &&& message.embeds[0].title == Some("Issues"@)
            &&& message.embeds[0].description == Some(
                "There are currently "@ + signed_decimal(issues as int) + " issues and "@
                    + signed_decimal(overrides as int) + " votes to override."@,
            )
            &&& failed.embeds[0].description == Some(
                "There are currently "@ + "ERROR"@ + " issues and "@ + "ERROR"@
                    + " votes to override."@,
            )
            &&& message.buttons.len() == 1
            &&& message.buttons[0].label == "View"@
            &&& pressed(message.buttons[0].id) == Some(Task::ViewIssues { pr_id })
        }),
{
    law_buttons_lead_to_their_tasks(pr_id);
}

/// The cards in reply to commands show what was decided, why and by whom.
pub proof fn law_cards_show_what_was_decided(
    description: String,
    by: String,
    outcome: CrOutcome,
    reason: String,
    message: MessageId,
    channel: ChannelId,
    guild: GuildId,
    fetched: Option<FetchedMessage>,
)
    ensures
        ({
            let changes = (Card::ChangesRequested { description, by }).content();
            let closed = (Card::Closed { outcome, comment: Some(reason), by }).content();
            let bare = (Card::Closed { outcome, comment: None, by }).content();
            let issue = (Card::Issue { message, channel, guild, fetched }).content();
            &&& changes.title == Some("Changes requested"@)
            &&& description@.len() > 0 ==> changes.description == Some(description@)
            &&& description@.len() == 0 ==> changes.description == Some(
                "Description was unset. Label has been applied, please write a comment describing the required changes yourself."@,
            )
            &&& changes.footer == Some(by@)
            &&& outcome is Denied ==> closed.title == Some("Discussion closed: "@ + "Denied"@)
            &&& outcome is Approved ==> closed.title == Some("Discussion closed: "@ + "Approved"@)
            &&& outcome is TestMerge ==> closed.title == Some(
                "Discussion closed: "@ + "Test-Merge"@,
            )
            &&& closed.description == Some(reason@)
            &&& bare.description == Some("*No reasoning provided.*"@)
            &&& closed.footer == Some("Closed by "@ + by@)
            &&& issue.url == Some(message_address(message@, channel@, Some(guild@)))
            &&& fetched matches Some(found) ==> issue.title == Some(
                found.author_name@ + "'s "@ + "issue"@,
            )
            &&& fetched is None ==> issue.title == Some("Unknown "@ + "issue"@)
        }),
{
}

} // verus!
