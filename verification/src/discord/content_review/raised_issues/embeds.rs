//! How the messages of issues and votes are shown.

use vstd::prelude::*;
use vstd::string::*;

use crate::discord::action::FetchedMessage;
use crate::discord::ids::{ChannelId, GuildId, MessageId};
use crate::discord::mention::{mention_user, message_address, message_link, user_mention};
use crate::discord::message::{Embed, EmbedView, Field, FieldView, EMBED_MAX_LENGTH};
use crate::text::chars::{prefix_of, take_chars};

verus! {

/// The embed that shows a message: whose it is, where it is and what it says. Of a message that
/// could not be fetched it shows only where it was. What the message is called is a message, unless
/// a label says otherwise.
pub open spec fn message_embed(
    message: MessageId,
    channel: ChannelId,
    guild: GuildId,
    fetched: Option<FetchedMessage>,
    label: Option<Seq<char>>,
) -> EmbedView {
    let called = match label {
        Some(x) => x,
        None => "message"@,
    };
    let url = message_address(message@, channel@, Some(guild@));
    match fetched {
        None => EmbedView {
            title: Some("Unknown "@ + called),
            url: Some(url),
            author: None,
            description: Some("Failed to retrieve message."@),
            footer: None,
            fields: Seq::empty(),
        },
        Some(found) => EmbedView {
            title: Some(found.author_name@ + "'s "@ + called),
            url: Some(url),
            author: None,
            description: Some(prefix_of(found.content@, EMBED_MAX_LENGTH as int)),
            footer: None,
            fields: seq![
                FieldView { name: "Author"@, value: user_mention(found.author@), inline: true },
            ],
        },
    }
}

/// Shows a message.
pub fn create_message_embed(
    message: MessageId,
    channel: ChannelId,
    guild: GuildId,
    fetched: &Option<FetchedMessage>,
    label: Option<&str>,
) -> (r: Embed)
    ensures
        r@ == message_embed(
            message,
            channel,
            guild,
            *fetched,
            match label {
                Some(x) => Some(x@),
                None => None,
            },
        ),
{
    let called = match label {
        Some(x) => x,
        None => "message",
    };
    let url = message_link(message, channel, Some(guild));
    let mut fields: Vec<Field> = Vec::new();
    match fetched {
        None => {
            let mut title = "Unknown ".to_owned();
            title.append(called);
            assert(fields@.map_values(|f: Field| f@) =~= Seq::<FieldView>::empty());
            Embed {
                title: Some(title),
                url: Some(url),
                author: None,
                description: Some("Failed to retrieve message.".to_owned()),
                footer: None,
                fields,
            }
        },
        Some(found) => {
            let mut title = found.author_name.clone();
            title.append("'s ");
            title.append(called);
            fields.push(Field { name: "Author", value: mention_user(found.author), inline: true });
            assert(fields@.map_values(|f: Field| f@) =~= message_embed(
                message,
                channel,
                guild,
                *fetched,
                Some(called@),
            ).fields);
            Embed {
                title: Some(title),
                url: Some(url),
                author: None,
                description: Some(take_chars(found.content.as_str(), EMBED_MAX_LENGTH)),
                footer: None,
                fields,
            }
        },
    }
}

/// A message is shown with its address, its author and as much of what it says as there is room for;
/// of one that could not be fetched, only where it was.
pub proof fn law_message_is_shown(
    message: MessageId,
    channel: ChannelId,
    guild: GuildId,
    found: FetchedMessage,
    label: Seq<char>,
)
    ensures
        ({
            let shown = message_embed(message, channel, guild, Some(found), Some(label));
            let lost = message_embed(message, channel, guild, None, Some(label));
            &&& shown.url == Some(message_address(message@, channel@, Some(guild@)))
            &&& lost.url == shown.url
            &&& shown.title == Some(found.author_name@ + "'s "@ + label)
            &&& lost.title == Some("Unknown "@ + label)
            &&& shown.description is Some
            &&& found.content@.len() <= 6000 ==> shown.description == Some(
                found.content@,
            )
            &&& shown.description->0.len() <= 6000
            &&& shown.description->0 == found.content@.take(shown.description->0.len() as int)
            &&& lost.description == Some("Failed to retrieve message."@)
            &&& shown.fields.len() == 1
            &&& shown.fields[0].name == "Author"@
            &&& shown.fields[0].value == user_mention(found.author@)
            &&& lost.fields.len() == 0
            &&& message_embed(message, channel, guild, Some(found), None) == message_embed(
                message,
                channel,
                guild,
                Some(found),
                Some("message"@),
            )
        }),
{
    let s = found.content@;
    assert(s.take(s.len() as int) =~= s);
}

} // verus!
