//! What the bot says in reply.

use vstd::prelude::*;
use vstd::string::*;

use crate::discord::content_review::data::config::ignored::IgnoreCriterion;
use crate::discord::error::HandledError;
use crate::discord::ids::{ChannelId, GuildId, MessageId, RoleId, UserId};
use crate::discord::mention::{
    guild_number, mention_role, message_address, message_link, role_mention,
};
use crate::discord::permissions::data::{Permission, PermissionFlags};
use crate::discord::permissions::Breakdown;
use crate::discord::pr_feeds::data::PrFeed;
use crate::discord::store::Vote;
use crate::text::decimal::{decimal, push_i64, push_u64, signed_decimal};

verus! {

/// A reply.
#[derive(Debug)]
pub enum Text {
    Plain(&'static str),
    /// What went wrong, between two fixed texts.
    Error { before: &'static str, error: HandledError, after: &'static str },
    /// The permissions of somebody.
    Granted(PermissionFlags),
    PermissionAdded(Permission),
    PermissionRemoved(Permission),
    Breakdown(Breakdown),
    Feeds(Vec<PrFeed>),
    Criteria(Vec<IgnoreCriterion>),
    LabelNotRemoved(String),
    RemindersDisabled { by: String, pr_id: u64 },
    RemindersNotDisabled { pr_id: u64, error: HandledError },
    NoActiveIssue(UserId),
    NothingToDismiss { is_override: bool },
    Dismissed { is_override: bool },
    /// The issue of an author, and the votes against it.
    IssueVotes {
        author: UserId,
        issue: MessageId,
        channel: ChannelId,
        guild: Option<GuildId>,
        votes: Vec<Vote>,
    },
}

/// The line for a permission in a list.
pub open spec fn permission_line(p: Permission) -> Seq<char> {
    "- `"@ + p.name_text() + "`\n"@
}

/// The list of permissions, a line each.
pub open spec fn permission_lines(held: Seq<Permission>) -> Seq<char>
    decreases held.len(),
{
    if held.len() == 0 {
        Seq::empty()
    } else {
        permission_lines(held.drop_last()) + permission_line(held.last())
    }
}

/// Appends the list of permissions.
pub fn push_permission_lines(out: &mut String, flags: PermissionFlags)
    ensures
        final(out)@ == old(out)@ + permission_lines(flags.granted()),
{
    let held = flags.iter_names();
    let mut i: usize = 0;
    let ghost before = out@;
    assert(held@.take(0) =~= Seq::<Permission>::empty());
    assert(before + permission_lines(held@.take(0)) =~= before);
    while i < held.len()
        invariant
            i <= held.len(),
            held@ == flags.granted(),
            out@ == before + permission_lines(held@.take(i as int)),
        decreases held.len() - i,
    {
        out.append("- `");
        out.append(held[i].name());
        out.append("`\n");
        assert(held@.take(i + 1).drop_last() =~= held@.take(i as int));
        assert(out@ =~= before + permission_lines(held@.take(i + 1)));
        i = i + 1;
    }
    assert(held@.take(held@.len() as int) =~= held@);
}

/// Who a feed notifies.
pub open spec fn pinged(role: Option<RoleId>) -> Seq<char> {
    match role {
        Some(r) => role_mention(r@),
        None => "nobody"@,
    }
}

/// The line for a feed in a list.
pub open spec fn feed_line(feed: PrFeed) -> Seq<char> {
    "ID "@ + signed_decimal(feed.id as int) + ": Label '"@ + feed.gh_label@ + "' to <#"@ + decimal(
        feed.channel_id@ as nat,
    ) + ">, pinging "@ + pinged(feed.ping_role) + "\n"@
}

/// The list of feeds, a line each.
pub open spec fn feed_lines(feeds: Seq<PrFeed>) -> Seq<char>
    decreases feeds.len(),
{
    if feeds.len() == 0 {
        Seq::empty()
    } else {
        feed_lines(feeds.drop_last()) + feed_line(feeds.last())
    }
}

fn push_feed_line(out: &mut String, feed: &PrFeed)
    ensures
        final(out)@ == old(out)@ + feed_line(*feed),
{
    out.append("ID ");
    push_i64(out, feed.id);
    out.append(": Label '");
    out.append(feed.gh_label.as_str());
    out.append("' to <#");
    push_u64(out, feed.channel_id.get());
    out.append(">, pinging ");
    match feed.ping_role {
        Some(role) => {
            let mention = mention_role(role);
            out.append(mention.as_str());
        },
        None => out.append("nobody"),
    }
    out.append("\n");
    assert(out@ =~= old(out)@ + feed_line(*feed));
}

fn push_feed_lines(out: &mut String, feeds: &Vec<PrFeed>)
    ensures
        final(out)@ == old(out)@ + feed_lines(feeds@),
{
    let mut i: usize = 0;
    let ghost before = out@;
    assert(feeds@.take(0) =~= Seq::<PrFeed>::empty());
    assert(before + feed_lines(feeds@.take(0)) =~= before);
    while i < feeds.len()
        invariant
            i <= feeds.len(),
            out@ == before + feed_lines(feeds@.take(i as int)),
        decreases feeds.len() - i,
    {
        push_feed_line(out, &feeds[i]);
        assert(feeds@.take(i + 1).drop_last() =~= feeds@.take(i as int));
        assert(out@ =~= before + feed_lines(feeds@.take(i + 1)));
        i = i + 1;
    }
    assert(feeds@.take(feeds@.len() as int) =~= feeds@);
}

/// The line for a criterion in a list.
pub open spec fn criterion_line(c: IgnoreCriterion) -> Seq<char> {
    "ID "@ + signed_decimal(c.id as int) + ": "@ + c.kind.name_text() + " `"@ + c.value@ + "`\n"@
}

/// The list of criteria, a line each.
pub open spec fn criterion_lines(criteria: Seq<IgnoreCriterion>) -> Seq<char>
    decreases criteria.len(),
{
    if criteria.len() == 0 {
        Seq::empty()
    } else {
        criterion_lines(criteria.drop_last()) + criterion_line(criteria.last())
    }
}

fn push_criterion_line(out: &mut String, c: &IgnoreCriterion)
    ensures
        final(out)@ == old(out)@ + criterion_line(*c),
{
    out.append("ID ");
    push_i64(out, c.id);
    out.append(": ");
    out.append(c.kind.name());
    out.append(" `");
    out.append(c.value.as_str());
    out.append("`\n");
    assert(out@ =~= old(out)@ + criterion_line(*c));
}

fn push_criterion_lines(out: &mut String, criteria: &Vec<IgnoreCriterion>)
    ensures
        final(out)@ == old(out)@ + criterion_lines(criteria@),
{
    let mut i: usize = 0;
    let ghost before = out@;
    assert(criteria@.take(0) =~= Seq::<IgnoreCriterion>::empty());
    assert(before + criterion_lines(criteria@.take(0)) =~= before);
    while i < criteria.len()
        invariant
            i <= criteria.len(),
            out@ == before + criterion_lines(criteria@.take(i as int)),
        decreases criteria.len() - i,
    {
        push_criterion_line(out, &criteria[i]);
        assert(criteria@.take(i + 1).drop_last() =~= criteria@.take(i as int));
        assert(out@ =~= before + criterion_lines(criteria@.take(i + 1)));
        i = i + 1;
    }
    assert(criteria@.take(criteria@.len() as int) =~= criteria@);
}

/// The line for a vote in a list.
pub open spec fn vote_line(vote: Vote, channel: ChannelId, guild: Option<GuildId>) -> Seq<char> {
    "- <@"@ + decimal(vote.0@ as nat) + ">: "@ + message_address(
        vote.1@,
        channel@,
        guild_number(guild),
    ) + "\n"@
}

/// The list of votes, a line each.
pub open spec fn vote_lines(votes: Seq<Vote>, channel: ChannelId, guild: Option<GuildId>) -> Seq<char>
    decreases votes.len(),
{
    if votes.len() == 0 {
        Seq::empty()
    } else {
        vote_lines(votes.drop_last(), channel, guild) + vote_line(votes.last(), channel, guild)
    }
}

fn push_vote_line(out: &mut String, vote: Vote, channel: ChannelId, guild: Option<GuildId>)
    ensures
        final(out)@ == old(out)@ + vote_line(vote, channel, guild),
{
    out.append("- <@");
    push_u64(out, vote.0.get());
    out.append(">: ");
    let link = message_link(vote.1, channel, guild);
    out.append(link.as_str());
    out.append("\n");
    assert(out@ =~= old(out)@ + vote_line(vote, channel, guild));
}

fn push_vote_lines(out: &mut String, votes: &Vec<Vote>, channel: ChannelId, guild: Option<GuildId>)
    ensures
        final(out)@ == old(out)@ + vote_lines(votes@, channel, guild),
{
    let mut i: usize = 0;
    let ghost before = out@;
    assert(votes@.take(0) =~= Seq::<Vote>::empty());
    assert(before + vote_lines(votes@.take(0), channel, guild) =~= before);
    while i < votes.len()
        invariant
            i <= votes.len(),
            out@ == before + vote_lines(votes@.take(i as int), channel, guild),
        decreases votes.len() - i,
    {
        push_vote_line(out, votes[i], channel, guild);
        assert(votes@.take(i + 1).drop_last() =~= votes@.take(i as int));
        assert(out@ =~= before + vote_lines(votes@.take(i + 1), channel, guild));
        i = i + 1;
    }
    assert(votes@.take(votes@.len() as int) =~= votes@);
}

impl Text {
    /// What the reply says.
    pub open spec fn text(self) -> Seq<char> {
        match self {
            Text::Plain(s) => s@,
            Text::Error { before, error, after } => before@ + error.text() + after@,
            Text::Granted(flags) => if flags.granted().len() == 0 {
                "No permissions granted."@
            } else {
                permission_lines(flags.granted())
            },
            Text::PermissionAdded(p) => "Added `"@ + p.name_text() + "` flag."@,
            Text::PermissionRemoved(p) => "Removed `"@ + p.name_text() + "` flag."@,
            Text::Breakdown(breakdown) => breakdown.text(),
            Text::Feeds(feeds) => "**Current PR Feeds**\n"@ + feed_lines(feeds@) + (if feeds@.len()
                == 0 {
                "None."@
            } else {
                ""@
            }),
            Text::Criteria(criteria) => "**PR Ignore Criteria**\n"@ + criterion_lines(criteria@) + (
            if criteria@.len() == 0 {
                "None."@
            } else {
                ""@
            }),
            Text::LabelNotRemoved(label) => "Failed to remove '"@ + label@ + "' label"@,
            Text::RemindersDisabled { by, pr_id } => by@ + " disabled reminders for PR #"@ + decimal(
                pr_id as nat,
            ) + "."@,
            Text::RemindersNotDisabled { pr_id, error } => "Failed to disable reminders for PR #"@
                + decimal(pr_id as nat) + ": "@ + error.text(),
            Text::NoActiveIssue(user) => "<@"@ + decimal(user@ as nat) + "> has no active issue."@,
            Text::NothingToDismiss { is_override } => "You haven't "@ + (if is_override {
                "voted to override the issues"@
            } else {
                "raised an issue"@
            }) + " in this discussion."@,
            Text::Dismissed { is_override } => (if is_override {
                "Override"@
            } else {
                "Issue"@
            }) + " dismissed successfully."@,
            Text::IssueVotes { author, issue, channel, guild, votes } => "**<@"@ + decimal(
                author@ as nat,
            ) + ">'s issue:** "@ + message_address(issue@, channel@, guild_number(guild))
                + "\n**Override votes:** "@ + decimal(votes@.len()) + "\n"@ + vote_lines(
                votes@,
                channel,
                guild,
            ),
        }
    }

    /// What the reply says.
    pub fn render(&self) -> (r: String)
        ensures
            r@ == self.text(),
    {
        match self {
            Text::Plain(s) => (*s).to_owned(),
            Text::Error { before, error, after } => {
                let mut out = (*before).to_owned();
                out.append(error.message());
                out.append(after);
                out
            },
            Text::Granted(flags) => {
                let held = flags.iter_names();
                if held.len() == 0 {
                    "No permissions granted.".to_owned()
                } else {
                    let mut out = String::new();
                    push_permission_lines(&mut out, *flags);
                    assert(Seq::<char>::empty() + permission_lines(flags.granted())
                        =~= permission_lines(flags.granted()));
                    out
                }
            },
            Text::PermissionAdded(p) => {
                let mut out = "Added `".to_owned();
                out.append(p.name());
                out.append("` flag.");
                out
            },
            Text::PermissionRemoved(p) => {
                let mut out = "Removed `".to_owned();
                out.append(p.name());
                out.append("` flag.");
                out
            },
            Text::Breakdown(breakdown) => breakdown.render(),
            Text::Feeds(feeds) => {
                let mut out = "**Current PR Feeds**\n".to_owned();
                push_feed_lines(&mut out, feeds);
                if feeds.len() == 0 {
                    out.append("None.");
                } else {
                    out.append("");
                }
                out
            },
            Text::Criteria(criteria) => {
                let mut out = "**PR Ignore Criteria**\n".to_owned();
                push_criterion_lines(&mut out, criteria);
                if criteria.len() == 0 {
                    out.append("None.");
                } else {
                    out.append("");
                }
                out
            },
            Text::LabelNotRemoved(label) => {
                let mut out = "Failed to remove '".to_owned();
                out.append(label.as_str());
                out.append("' label");
                out
            },
            Text::RemindersDisabled { by, pr_id } => {
                let mut out = by.clone();
                out.append(" disabled reminders for PR #");
                push_u64(&mut out, *pr_id);
                out.append(".");
                out
            },
            Text::RemindersNotDisabled { pr_id, error } => {
                let mut out = "Failed to disable reminders for PR #".to_owned();
                push_u64(&mut out, *pr_id);
                out.append(": ");
                out.append(error.message());
                out
            },
            Text::NoActiveIssue(user) => {
                let mut out = "<@".to_owned();
                push_u64(&mut out, user.get());
                out.append("> has no active issue.");
                out
            },
            Text::NothingToDismiss { is_override } => {
                let mut out = "You haven't ".to_owned();
                if *is_override {
                    out.append("voted to override the issues");
                } else {
                    out.append("raised an issue");
                }
                out.append(" in this discussion.");
                out
            },
            Text::Dismissed { is_override } => {
                let mut out = if *is_override {
                    "Override".to_owned()
                } else {
                    "Issue".to_owned()
                };
                out.append(" dismissed successfully.");
                out
            },
            Text::IssueVotes { author, issue, channel, guild, votes } => {
                let mut out = "**<@".to_owned();
                push_u64(&mut out, author.get());
                out.append(">'s issue:** ");
                let link = message_link(*issue, *channel, *guild);
                out.append(link.as_str());
                out.append("\n**Override votes:** ");
                push_u64(&mut out, votes.len() as u64);
                out.append("\n");
                push_vote_lines(&mut out, votes, *channel, *guild);
                out
            },
        }
    }
}

/// The replies say what they are about, and about whom or what.
pub proof fn law_replies_say_what_they_are_about(
    words: &'static str,
    error: HandledError,
    permission: Permission,
    label: String,
    by: String,
    pr_id: u64,
    user: UserId,
)
    ensures
        Text::Plain(words).text() == words@,
        (Text::Error { before: words, error, after: words }).text() == words@ + error.text()
            + words@,
        HandledError::InternalError.text() == "An internal error occurred."@,
        HandledError::UserfacingError(words).text() == words@,
        Text::PermissionAdded(permission).text() == "Added `"@ + permission.name_text()
            + "` flag."@,
        Text::PermissionRemoved(permission).text() == "Removed `"@ + permission.name_text()
            + "` flag."@,
        Text::LabelNotRemoved(label).text() == "Failed to remove '"@ + label@ + "' label"@,
        (Text::RemindersDisabled { by, pr_id }).text() == by@ + " disabled reminders for PR #"@
            + decimal(pr_id as nat) + "."@,
        (Text::RemindersNotDisabled { pr_id, error }).text()
            == "Failed to disable reminders for PR #"@ + decimal(pr_id as nat) + ": "@
            + error.text(),
        Text::NoActiveIssue(user).text() == "<@"@ + decimal(user@ as nat)
            + "> has no active issue."@,
        (Text::Dismissed { is_override: true }).text() == "Override dismissed successfully."@,
        (Text::Dismissed { is_override: false }).text() == "Issue dismissed successfully."@,
        (Text::NothingToDismiss { is_override: true }).text()
            == "You haven't voted to override the issues in this discussion."@,
        (Text::NothingToDismiss { is_override: false }).text()
            == "You haven't raised an issue in this discussion."@,
{
    reveal_strlit("Override");
    reveal_strlit("Issue");
    reveal_strlit(" dismissed successfully.");
    reveal_strlit("Override dismissed successfully.");
    reveal_strlit("Issue dismissed successfully.");
    reveal_strlit("You haven't ");
    reveal_strlit("voted to override the issues");
    reveal_strlit("raised an issue");
    reveal_strlit(" in this discussion.");
    reveal_strlit("You haven't voted to override the issues in this discussion.");
    reveal_strlit("You haven't raised an issue in this discussion.");
    assert((Text::Dismissed { is_override: true }).text() =~= "Override dismissed successfully."@);
    assert((Text::Dismissed { is_override: false }).text() =~= "Issue dismissed successfully."@);
    assert((Text::NothingToDismiss { is_override: true }).text()
        =~= "You haven't voted to override the issues in this discussion."@);
    assert((Text::NothingToDismiss { is_override: false }).text()
        =~= "You haven't raised an issue in this discussion."@);
}

/// Lists name everything that is in them, in order: a list with one more at its end says the same
/// with one more line. An empty list says so.
pub proof fn law_lists_grow_by_a_line(
    feeds: Seq<PrFeed>,
    feed: PrFeed,
    criteria: Seq<IgnoreCriterion>,
    criterion: IgnoreCriterion,
    votes: Seq<Vote>,
    vote: Vote,
    held: Seq<Permission>,
    permission: Permission,
    channel: ChannelId,
    guild: Option<GuildId>,
)
    ensures
        feed_lines(feeds.push(feed)) == feed_lines(feeds) + ("ID "@ + signed_decimal(
            feed.id as int,
        ) + ": Label '"@ + feed.gh_label@ + "' to <#"@ + decimal(feed.channel_id@ as nat)
            + ">, pinging "@ + (match feed.ping_role {
            Some(role) => role_mention(role@),
            None => "nobody"@,
        }) + "\n"@),
        criterion_lines(criteria.push(criterion)) == criterion_lines(criteria) + ("ID "@
            + signed_decimal(criterion.id as int) + ": "@ + criterion.kind.name_text() + " `"@
            + criterion.value@ + "`\n"@),
        vote_lines(votes.push(vote), channel, guild) == vote_lines(votes, channel, guild) + ("- <@"@
            + decimal(vote.0@ as nat) + ">: "@ + message_address(
            vote.1@,
            channel@,
            guild_number(guild),
        ) + "\n"@),
        permission_lines(held.push(permission)) == permission_lines(held) + ("- `"@
            + permission.name_text() + "`\n"@),
        feed_lines(Seq::empty()) == Seq::<char>::empty(),
        criterion_lines(Seq::empty()) == Seq::<char>::empty(),
        vote_lines(Seq::empty(), channel, guild) == Seq::<char>::empty(),
        permission_lines(Seq::empty()) == Seq::<char>::empty(),
{
    assert(feeds.push(feed).drop_last() =~= feeds);
    assert(criteria.push(criterion).drop_last() =~= criteria);
    assert(votes.push(vote).drop_last() =~= votes);
    assert(held.push(permission).drop_last() =~= held);
}

/// The lists of feeds, of criteria, of permissions and of votes stand under their headings.
pub proof fn law_lists_have_headings(
    feeds: Vec<PrFeed>,
    criteria: Vec<IgnoreCriterion>,
    flags: PermissionFlags,
    author: UserId,
    issue: MessageId,
    channel: ChannelId,
    guild: Option<GuildId>,
    votes: Vec<Vote>,
)
    ensures
        feeds@.len() > 0 ==> Text::Feeds(feeds).text() == "**Current PR Feeds**\n"@ + feed_lines(
            feeds@,
        ),
        feeds@.len() == 0 ==> Text::Feeds(feeds).text() == "**Current PR Feeds**\nNone."@,
        criteria@.len() > 0 ==> Text::Criteria(criteria).text() == "**PR Ignore Criteria**\n"@
            + criterion_lines(criteria@),
        criteria@.len() == 0 ==> Text::Criteria(criteria).text()
            == "**PR Ignore Criteria**\nNone."@,
        flags.granted().len() == 0 ==> Text::Granted(flags).text() == "No permissions granted."@,
        flags.granted().len() > 0 ==> Text::Granted(flags).text() == permission_lines(
            flags.granted(),
        ),
        (Text::IssueVotes { author, issue, channel, guild, votes }).text() == "**<@"@ + decimal(
            author@ as nat,
        ) + ">'s issue:** "@ + message_address(issue@, channel@, guild_number(guild))
            + "\n**Override votes:** "@ + decimal(votes@.len()) + "\n"@ + vote_lines(
            votes@,
            channel,
            guild,
        ),
{
    reveal_strlit("");
    reveal_strlit("None.");
    reveal_strlit("**Current PR Feeds**\n");
    reveal_strlit("**Current PR Feeds**\nNone.");
    reveal_strlit("**PR Ignore Criteria**\n");
    reveal_strlit("**PR Ignore Criteria**\nNone.");
    if feeds@.len() == 0 {
        assert(feed_lines(feeds@) =~= Seq::<char>::empty());
        assert(Text::Feeds(feeds).text() =~= "**Current PR Feeds**\nNone."@);
    } else {
        assert(Text::Feeds(feeds).text() =~= "**Current PR Feeds**\n"@ + feed_lines(feeds@));
    }
    if criteria@.len() == 0 {
        assert(criterion_lines(criteria@) =~= Seq::<char>::empty());
        assert(Text::Criteria(criteria).text() =~= "**PR Ignore Criteria**\nNone."@);
    } else {
        assert(Text::Criteria(criteria).text() =~= "**PR Ignore Criteria**\n"@ + criterion_lines(
            criteria@,
        ));
    }
}

} // verus!
