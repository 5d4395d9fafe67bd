//! What the client remembers of the guilds that it has seen.

use crate::model::guild::{find_guild, guild_with_id, Guild};
use crate::model::id::GuildId;
use vstd::prelude::*;

verus! {

/// The guilds that the client has seen, each with its roles, members and
/// channels.
#[derive(Debug)]
pub struct Cache {
    pub guilds: Vec<Guild>,
}

impl Cache {
    /// A cache that remembers nothing.
    pub fn new() -> (c: Self)
        ensures
            c.guilds@.len() == 0,
    {
        Cache { guilds: Vec::new() }
    }

    /// The guild with the id, if the cache remembers it.
    pub fn guild(&self, id: GuildId) -> (g: Option<&Guild>)
        ensures
            match g {
                Some(guild) => guild_with_id(self.guilds@, id) == Some(*guild) && guild.id == id,
                None => guild_with_id(self.guilds@, id) is None,
            },
    {
        find_guild(&self.guilds, id)
    }
}

} // verus!
