//! Gateway object shapes referenced by the event payloads. Pure data
//! declarations: the library states no behaviour over them.

use vstd::prelude::*;
use crate::snowflake::Snowflake;
use crate::timestamp::Timestamp;

verus! {

/// A gateway user.
#[derive(Clone, Debug)]
pub struct User {
    pub id: Snowflake,
    pub username: String,
    pub bot: Option<bool>,
}

/// A guild that is known but not yet available on this connection.
#[derive(Clone, Copy, Debug)]
pub struct UnavailableGuild {
    pub id: Snowflake,
    pub unavailable: bool,
}

/// Which shard of the gateway connection an event belongs to.
#[derive(Clone, Copy, Debug)]
pub struct ShardInfo {
    pub shard_id: u16,
    pub num_shards: u16,
}

/// A custom emoji, or a built-in one carried by name only.
#[derive(Clone, Debug)]
pub struct Emoji {
    pub id: Option<Snowflake>,
    pub name: Option<String>,
}

/// A guild role.
#[derive(Clone, Debug)]
pub struct Role {
    pub id: Snowflake,
    pub name: String,
}

/// A guild member.
#[derive(Clone, Debug)]
pub struct Member {
    pub user: Option<User>,
    pub nick: Option<String>,
    pub roles: Vec<Snowflake>,
    pub joined_at: Timestamp,
}

/// A presence change of one user.
#[derive(Clone, Debug)]
pub struct PresenceUpdate {
    pub user_id: Snowflake,
    pub status: String,
}

} // verus!
