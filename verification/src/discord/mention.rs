//! How users, roles and messages are referred to in a message.

use poise::serenity_prelude as serenity;
use poise::serenity_prelude::Mentionable;
use vstd::prelude::*;
use vstd::string::*;

use crate::discord::ids::{ChannelId, GuildId, MessageId, RoleId, UserId};
use crate::text::decimal::{decimal, push_u64};

verus! {

/// The mention of a role, which notifies its members.
pub open spec fn role_mention(id: u64) -> Seq<char> {
    "<@&"@ + decimal(id as nat) + ">"@
}

/// The mention of a user.
pub open spec fn user_mention(id: u64) -> Seq<char> {
    "<@"@ + decimal(id as nat) + ">"@
}

/// The address of a message: that of its guild, or of the private messages where there is none,
/// its channel and the message itself.
pub open spec fn message_address(message: u64, channel: u64, guild: Option<u64>) -> Seq<char> {
    "https://discord.com/channels/"@ + match guild {
        Some(id) => decimal(id as nat),
        None => "@me"@,
    } + "/"@ + decimal(channel as nat) + "/"@ + decimal(message as nat)
}

/// Calls `serenity`'s `mention` of a `RoleId` and writes the `Mention` out.
///
/// The contract claims that the mention is the role's number, in decimal, between `<@&` and `>`.
/// A `RoleId` cannot be made of zero.
#[verifier::external_body]
fn serenity_role_mention(id: u64) -> (r: String)
    requires
        id != 0,
    ensures
        r@ == role_mention(id),
{
    serenity::RoleId::new(id).mention().to_string()
}

/// Calls `serenity`'s `mention` of a `UserId` and writes the `Mention` out.
///
/// The contract claims that the mention is the user's number, in decimal, between `<@` and `>`.
/// A `UserId` cannot be made of zero.
#[verifier::external_body]
fn serenity_user_mention(id: u64) -> (r: String)
    requires
        id != 0,
    ensures
        r@ == user_mention(id),
{
    serenity::UserId::new(id).mention().to_string()
}

/// Calls `serenity`'s `MessageId::link`.
///
/// The contract claims that the link is made of the numbers of the guild, the channel and the
/// message, in decimal, with `@me` in place of a guild that is missing. None of the identifiers
/// can be made of zero.
#[verifier::external_body]
fn serenity_message_link(message: u64, channel: u64, guild: Option<u64>) -> (r: String)
    requires
        message != 0,
        channel != 0,
        guild != Some(0u64),
    ensures
        r@ == message_address(message, channel, guild),
{
    serenity::MessageId::new(message).link(
        serenity::ChannelId::new(channel),
        guild.map(serenity::GuildId::new),
    )
}

/// Mentions a role.
pub fn mention_role(role: RoleId) -> (r: String)
    ensures
        r@ == role_mention(role@),
{
    serenity_role_mention(role.get())
}

/// Mentions a user.
pub fn mention_user(user: UserId) -> (r: String)
    ensures
        r@ == user_mention(user@),
{
    serenity_user_mention(user.get())
}

/// The number of a guild, where there is one.
pub open spec fn guild_number(guild: Option<GuildId>) -> Option<u64> {
    match guild {
        Some(id) => Some(id@),
        None => None,
    }
}

/// Links to a message.
pub fn message_link(message: MessageId, channel: ChannelId, guild: Option<GuildId>) -> (r: String)
    ensures
        r@ == message_address(message@, channel@, guild_number(guild)),
{
    match guild {
        Some(id) => serenity_message_link(message.get(), channel.get(), Some(id.get())),
        None => serenity_message_link(message.get(), channel.get(), None),
    }
}

/// The address of a thread in a guild.
pub open spec fn thread_address(guild: GuildId, thread: ChannelId) -> Seq<char> {
    "https://discord.com/channels/"@ + decimal(guild@ as nat) + "/"@ + decimal(thread@ as nat)
}

/// Links to a thread in a guild.
pub fn thread_link(guild: GuildId, thread: ChannelId) -> (r: String)
    ensures
        r@ == thread_address(guild, thread),
{
    let mut out = "https://discord.com/channels/".to_owned();
    push_u64(&mut out, guild.get());
    out.append("/");
    push_u64(&mut out, thread.get());
    out
}

} // verus!
