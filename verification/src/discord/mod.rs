//! The bot on Discord.

pub mod action;
pub mod content_review;
pub mod error;
pub mod ids;
pub mod mention;
pub mod message;
pub mod permissions;
pub mod pr_feeds;
pub mod store;
pub mod texts;

use vstd::prelude::*;
use vstd::string::*;

use crate::discord::error::{DbError, HandledError};
use crate::discord::ids::UserId;
use crate::discord::permissions::data::{set_result, PermissionFlags, Snowflake, ALL_BITS};
use crate::text::decimal::{parse_u64, u64_from};

verus! {

/// What is done about the operator when the bot starts.
#[derive(Clone, Copy, Debug, PartialEq, Eq, Structural)]
pub enum Operator {
    /// No operator is named.
    Absent,
    /// What is named is no number.
    Invalid,
    /// The operator gets these permissions.
    Grant(Snowflake, PermissionFlags),
}

/// Whether this is what is done about the operator that is named, if one is: who is named by a
/// number gets every permission, and nobody else gets any.
pub open spec fn decided(operator_id: Option<Seq<char>>, operator: Operator) -> bool {
    match operator_id {
        None => operator is Absent,
        Some(text) => match u64_from(text) {
            None => operator is Invalid,
            Some(id) => operator matches Operator::Grant(who, flags) && who == id && flags@
                == ALL_BITS,
        },
    }
}

/// What is done about the operator that is named, if one is: they get every permission.
pub fn initialize(operator_id: Option<&str>) -> (r: Operator)
    ensures
        decided(
            match operator_id {
                None => None,
                Some(text) => Some(text@),
            },
            r,
        ),
{
    match operator_id {
        None => Operator::Absent,
        Some(text) => match parse_u64(text) {
            None => Operator::Invalid,
            Some(id) => Operator::Grant(id, PermissionFlags::all()),
        },
    }
}

/// Whether the start ends before the client is built: the operator should get permissions and
/// could not be given them.
pub open spec fn grant_fails(operator: Operator, granted: Result<(), HandledError>) -> bool {
    operator is Grant && granted is Err
}

/// Whether the start goes on to the client, once it was tried to give the operator their
/// permissions. Where there is nothing to give, it does.
pub fn grant_result(operator: Operator, granted: Result<(), HandledError>) -> (r: Result<(), ()>)
    ensures
        r is Err <==> grant_fails(operator, granted),
{
    match operator {
        Operator::Absent => Ok(()),
        Operator::Invalid => Ok(()),
        Operator::Grant(_, _) => match granted {
            Ok(_) => Ok(()),
            Err(_) => Err(()),
        },
    }
}

/// Whether the start ends with an error.
pub open spec fn start_fails(
    operator: Operator,
    granted: Result<(), HandledError>,
    client_built: bool,
) -> bool {
    grant_fails(operator, granted) || !client_built
}

/// What the start comes to: it fails exactly if the operator could not be given their permissions
/// or the client could not be built.
pub fn start_result(
    operator: Operator,
    granted: Result<(), HandledError>,
    client_built: bool,
) -> (r: Result<(), ()>)
    ensures
        r is Err <==> (operator is Grant && granted is Err) || !client_built,
        r is Err <==> start_fails(operator, granted, client_built),
{
    if grant_result(operator, granted).is_err() || !client_built {
        Err(())
    } else {
        Ok(())
    }
}

/// A start with an operator who is named by a number fails before the client is built exactly if
/// the database does not write their permissions. Any other start goes on, whatever the database
/// would say.
pub proof fn law_failed_grant_ends_the_start(
    operator_id: Option<Seq<char>>,
    operator: Operator,
    written: Result<(), DbError>,
)
    requires
        decided(operator_id, operator),
    ensures
        grant_fails(operator, set_result(ALL_BITS, written)) <==> operator_id is Some && u64_from(
            operator_id->0,
        ) is Some && written is Err,
        operator matches Operator::Grant(who, flags) ==> operator_id is Some && u64_from(
            operator_id->0,
        ) == Some(who) && flags@ == ALL_BITS,
        start_fails(operator, set_result(ALL_BITS, written), false),
        start_fails(operator, set_result(ALL_BITS, written), true) <==> operator_id is Some
            && u64_from(operator_id->0) is Some && written is Err,
{
}

/// Something that happened on Discord.
#[derive(Clone, Copy, Debug, PartialEq, Eq, Structural)]
pub enum Event {
    /// The bot is connected.
    Ready,
    /// A message was sent.
    Message { author: UserId, announces_pin: bool },
    /// Something else.
    Other,
}

/// What the bot does about something that happened on Discord.
#[derive(Clone, Copy, Debug, PartialEq, Eq, Structural)]
pub enum Reaction {
    Nothing,
    /// Starts to deal with GitHub, with buttons and with the clock of the reviews.
    StartTasks,
    /// Deletes the message.
    DeleteMessage,
}

/// What the bot does about something that happened on Discord.
pub open spec fn reaction(event: Event, bot_id: UserId) -> Reaction {
    match event {
        Event::Ready => Reaction::StartTasks,
        Event::Message { author, announces_pin } => if author == bot_id && announces_pin {
            Reaction::DeleteMessage
        } else {
            Reaction::Nothing
        },
        Event::Other => Reaction::Nothing,
    }
}

/// The bot deletes nothing but its own announcements of a pinned message, and starts its tasks exactly
/// when it is connected.
pub proof fn law_only_own_announcements_are_deleted(event: Event, bot_id: UserId)
    ensures
        reaction(event, bot_id) is StartTasks <==> event is Ready,
        reaction(event, bot_id) is DeleteMessage <==> event == (Event::Message {
            author: bot_id,
            announces_pin: true,
        }),
{
}

/// What the bot does about something that happened on Discord: it starts its tasks when it is
/// connected, and it deletes its own announcements that it has pinned a message.
pub fn event_handler(event: Event, bot_id: UserId) -> (r: Reaction)
    ensures
        r == reaction(event, bot_id),
{
    match event {
        Event::Ready => Reaction::StartTasks,
        Event::Message { author, announces_pin } => {
            if author != bot_id {
                return Reaction::Nothing;
            }
            if announces_pin {
                Reaction::DeleteMessage
            } else {
                Reaction::Nothing
            }
        },
        Event::Other => Reaction::Nothing,
    }
}

/// A text with `> ` put behind each of its line breaks.
pub open spec fn quoted_lines(s: Seq<char>) -> Seq<char>
    decreases s.len(),
{
    if s.len() == 0 {
        s
    } else if s.last() == '\n' {
        quoted_lines(s.drop_last()) + "\n> "@
    } else {
        quoted_lines(s.drop_last()).push(s.last())
    }
}

/// A text as a quote: each line begins with `> `, and an empty line ends the quote.
pub open spec fn md_quote_block(s: Seq<char>) -> Seq<char> {
    "> "@ + quoted_lines(s) + "\n\n"@
}

/// Prepends each line with `> ` and ensures there's two newlines at the end, as text on the next
/// line would become part of the quote.
pub fn to_md_quote_block(comment: &str) -> (r: String)
    ensures
        r@ == md_quote_block(comment@),
{
    let mut out = "> ".to_owned();
    let ghost all = comment@;
    assert(all.take(0) =~= Seq::<char>::empty());
    assert("> "@ + quoted_lines(all.take(0)) =~= "> "@);
    for c in it: comment.chars()
        invariant
            it.seq() == all,
            out@ == "> "@ + quoted_lines(all.take(it.index())),
    {
        let ghost so_far = all.take(it.index() + 1);
        assert(so_far.drop_last() =~= all.take(it.index()));
        assert(so_far.last() == c);
        if c != '\n' {
            out.push(c);
        } else {
            out.append("\n> ");
        }
        assert(out@ =~= "> "@ + quoted_lines(so_far));
    }
    assert(all.take(all.len() as int) =~= all);
    out.append("\n\n");
    out
}

/// A quote, read back: the lines without what was put before them.
pub open spec fn unquoted(s: Seq<char>) -> Seq<char>
    decreases s.len(),
{
    if s.len() == 0 {
        s
    } else if s.len() >= 3 && s[s.len() - 3] == '\n' && s[s.len() - 2] == '>' && s.last() == ' ' {
        unquoted(s.take(s.len() - 3)).push('\n')
    } else {
        unquoted(s.drop_last()).push(s.last())
    }
}

/// Each line of a quote begins with `> `: every line break inside it is followed by that.
pub proof fn law_quoted_lines_are_marked(s: Seq<char>, i: int)
    requires
        0 <= i < quoted_lines(s).len(),
        quoted_lines(s)[i] == '\n',
    ensures
        i + 2 < quoted_lines(s).len(),
        quoted_lines(s)[i + 1] == '>',
        quoted_lines(s)[i + 2] == ' ',
    decreases s.len(),
{
    reveal_strlit("\n> ");
    let inner = quoted_lines(s.drop_last());
    if i < inner.len() {
        law_quoted_lines_are_marked(s.drop_last(), i);
    }
}

/// The lines of a quote, read back, are those of the text.
pub proof fn law_quote_reads_back(s: Seq<char>)
    ensures
        unquoted(quoted_lines(s)) == s,
    decreases s.len(),
{
    reveal_strlit("\n> ");
    if s.len() > 0 {
        let inner = quoted_lines(s.drop_last());
        law_quote_reads_back(s.drop_last());
        if s.last() == '\n' {
            assert((inner + "\n> "@).take(inner.len() as int) =~= inner);
        } else {
            if inner.len() >= 2 && inner[inner.len() - 2] == '\n' {
                law_quoted_lines_are_marked(s.drop_last(), inner.len() - 2);
            }
            assert(inner.push(s.last()).drop_last() =~= inner);
        }
        assert(s.drop_last().push(s.last()) =~= s);
    }
}

/// A quote as a whole, read back: what stands between its first mark and the empty line at its end.
pub open spec fn unquoted_block(quote: Seq<char>) -> Seq<char> {
    unquoted(quote.subrange(2, quote.len() - 2))
}

/// A quote can be read back, so that no two texts have the same quote.
pub proof fn law_quote_block_reads_back(s: Seq<char>, other: Seq<char>)
    ensures
        unquoted_block(md_quote_block(s)) == s,
        md_quote_block(s) == md_quote_block(other) ==> s == other,
{
    lemma_block_reads_back(s);
    lemma_block_reads_back(other);
}

proof fn lemma_block_reads_back(s: Seq<char>)
    ensures
        unquoted_block(md_quote_block(s)) == s,
{
    reveal_strlit("> ");
    reveal_strlit("\n\n");
    let quote = md_quote_block(s);
    assert(quote.subrange(2, quote.len() - 2) =~= quoted_lines(s));
    law_quote_reads_back(s);
}

proof fn lemma_quoted_together(a: Seq<char>, b: Seq<char>)
    ensures
        quoted_lines(a + b) == quoted_lines(a) + quoted_lines(b),
    decreases b.len(),
{
    if b.len() == 0 {
        assert(a + b =~= a);
        assert(quoted_lines(a) + quoted_lines(b) =~= quoted_lines(a));
    } else {
        lemma_quoted_together(a, b.drop_last());
        assert((a + b).drop_last() =~= a + b.drop_last());
        assert(quoted_lines(a + b) =~= quoted_lines(a) + quoted_lines(b));
    }
}

/// A quote splits where its text does: at a line break stand the lines before it, a break with a
/// new mark, and the lines behind it.
pub proof fn law_quote_splits_at_line_breaks(a: Seq<char>, b: Seq<char>)
    ensures
        quoted_lines(a + "\n"@ + b) == quoted_lines(a) + "\n> "@ + quoted_lines(b),
        md_quote_block(a + "\n"@ + b) == "> "@ + quoted_lines(a) + "\n> "@ + quoted_lines(b)
            + "\n\n"@,
{
    reveal_strlit("\n");
    lemma_quoted_together(a + "\n"@, b);
    assert((a + "\n"@).drop_last() =~= a);
    assert(md_quote_block(a + "\n"@ + b) =~= "> "@ + quoted_lines(a) + "\n> "@ + quoted_lines(b)
        + "\n\n"@);
}

} // verus!
