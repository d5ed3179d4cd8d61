//! Gateway event payloads. Pure data declarations mirroring the wire
//! schema; the surrounding application handles (de)serialization.

use vstd::prelude::*;
use crate::model::{Emoji, Member, PresenceUpdate, Role, ShardInfo, UnavailableGuild, User};
use crate::snowflake::Snowflake;
use crate::timestamp::Timestamp;

verus! {

/// Sent once after identifying on the gateway.
#[derive(Clone, Debug)]
pub struct Ready {
    pub gateway_version: i32,
    pub user: User,
    pub guilds: Vec<UnavailableGuild>,
    pub session_id: String,
    pub shard: ShardInfo,
}

/// A channel's pinned messages changed.
#[derive(Clone, Debug)]
pub struct ChannelPinsUpdate {
    pub guild_id: Option<Snowflake>,
    pub channel_id: Snowflake,
    pub last_pin_timestamp: Option<Timestamp>,
}

/// A user was banned from a guild.
#[derive(Clone, Debug)]
pub struct GuildBanAdd {
    pub guild_id: Snowflake,
    pub user: User,
}

/// A user's ban was lifted.
#[derive(Clone, Debug)]
pub struct GuildBanRemove {
    pub guild_id: Snowflake,
    pub user: User,
}

/// A guild's emoji set changed.
#[derive(Clone, Debug)]
pub struct GuildEmojisUpdate {
    pub guild_id: Snowflake,
    pub emojis: Vec<Emoji>,
}

/// A guild's integrations changed.
#[derive(Clone, Copy, Debug)]
pub struct GuildIntegrationsUpdate {
    pub guild_id: Snowflake,
}

/// A member joined a guild.
#[derive(Clone, Debug)]
pub struct GuildMemberAdd {
    pub guild_id: Snowflake,
    pub member: Member,
}

/// A member left, or was removed from, a guild.
#[derive(Clone, Debug)]
pub struct GuildMemberRemove {
    pub guild_id: Snowflake,
    pub user: User,
}

/// A guild member's settings changed.
#[derive(Clone, Debug)]
pub struct GuildMemberUpdate {
    pub guild_id: Snowflake,
    pub roles: Vec<Snowflake>,
    pub user: User,
    pub nick: Option<String>,
    pub joined_at: Timestamp,
    pub premium_since: Option<Timestamp>,
}

/// One chunk of a requested guild member listing.
#[derive(Clone, Debug)]
pub struct GuildMembersChunk {
    pub guild_id: Snowflake,
    pub members: Vec<Member>,
    pub chunk_index: u32,
    pub chunk_count: u32,
    pub not_found: Option<Vec<Snowflake>>,
    pub presences: Option<Vec<PresenceUpdate>>,
    pub nonce: Option<String>,
}

/// A role was created in a guild.
#[derive(Clone, Debug)]
pub struct GuildRoleCreate {
    pub guild_id: Snowflake,
    pub role: Role,
}

/// A guild role changed.
#[derive(Clone, Debug)]
pub struct GuildRoleUpdate {
    pub guild_id: Snowflake,
    pub role: Role,
}

/// A guild role was deleted.
#[derive(Clone, Copy, Debug)]
pub struct GuildRoleDelete {
    pub guild_id: Snowflake,
    pub role_id: Snowflake,
}

/// An invite was created.
#[derive(Clone, Debug)]
pub struct InviteCreate {
    pub channel_id: Snowflake,
    pub code: String,
    pub created_at: Timestamp,
    pub guild_id: Option<Snowflake>,
    pub inviter: Option<User>,
    pub max_age: usize,
    pub max_uses: u32,
    pub target_user: Option<User>,
    pub target_user_type: Option<TargetUserType>,
    pub temporary: bool,
    pub uses: u8,
}

/// What an invite targets.
#[derive(Clone, Copy, Debug)]
pub enum TargetUserType {
    Stream,
}

/// An invite was revoked or expired.
#[derive(Clone, Debug)]
pub struct InviteDelete {
    pub channel_id: Snowflake,
    pub guild_id: Option<Snowflake>,
    pub code: String,
}

/// A message was deleted.
#[derive(Clone, Copy, Debug)]
pub struct MessageDelete {
    pub id: Snowflake,
    pub channel_id: Snowflake,
    pub guild_id: Option<Snowflake>,
}

/// Several messages were deleted at once.
#[derive(Clone, Debug)]
pub struct MessageDeleteBulk {
    pub ids: Vec<Snowflake>,
    pub channel_id: Snowflake,
    pub guild_id: Option<Snowflake>,
}

/// A reaction was added to a message.
#[derive(Clone, Debug)]
pub struct MessageReactionAdd {
    pub user_id: Snowflake,
    pub channel_id: Snowflake,
    pub message_id: Snowflake,
    pub guild_id: Option<Snowflake>,
    pub member: Option<Member>,
    pub emoji: Emoji,
}

/// A reaction was removed from a message.
#[derive(Clone, Debug)]
pub struct MessageReactionRemove {
    pub user_id: Snowflake,
    pub channel_id: Snowflake,
    pub message_id: Snowflake,
    pub guild_id: Option<Snowflake>,
    pub emoji: Emoji,
}

/// All reactions were cleared from a message.
#[derive(Clone, Copy, Debug)]
pub struct MessageReactionRemoveAll {
    pub channel_id: Snowflake,
    pub message_id: Snowflake,
    pub guild_id: Option<Snowflake>,
}

/// Every reaction with one emoji was cleared from a message.
#[derive(Clone, Debug)]
pub struct MessageReactionRemoveEmoji {
    pub channel_id: Snowflake,
    pub guild_id: Option<Snowflake>,
    pub message_id: Snowflake,
    pub emoji: Emoji,
}

/// A user started typing in a channel.
#[derive(Clone, Debug)]
pub struct TypingStart {
    pub channel_id: Snowflake,
    pub guild_id: Option<Snowflake>,
    pub user_id: Snowflake,
    pub timestamp: u64,
    pub member: Option<Member>,
}

/// The voice server of a guild moved.
#[derive(Clone, Debug)]
pub struct VoiceServerUpdate {
    pub token: String,
    pub guild_id: Snowflake,
    pub endpoint: String,
}

/// A channel's webhooks changed.
#[derive(Clone, Copy, Debug)]
pub struct WebhooksUpdate {
    pub guild_id: Snowflake,
    pub channel_id: Snowflake,
}

} // verus!
