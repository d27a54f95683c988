//! Process configuration, as plain values.
//!
//! The caller fills these in from its environment at startup; here they
//! are only data, with the identifier fields kept behind getters the way
//! other components read them.

use vstd::prelude::*;

verus! {

/// Everything the process is configured with.
pub struct Config {
    pub db_string: String,
    pub max_hist: usize,
    pub default_hist: usize,
    pub steam_api_key: String,
    pub discord: DiscordConfig,
    pub sheets: SheetsConfig,
}

/// Where the bot lives: its credentials and the guild, owner and voice
/// channel identifiers it is pinned to.
pub struct DiscordConfig {
    pub auth: DiscordAuth,
    guild: u64,
    owner: u64,
    voice_channel: u64,
}

impl DiscordConfig {
    /// Pin the identifiers at startup.
    pub fn new(auth: DiscordAuth, guild: u64, owner: u64, voice_channel: u64) -> (c: Self)
        ensures
            c.guild_id() == guild,
            c.owner_id() == owner,
            c.voice_channel_id() == voice_channel,
    {
        DiscordConfig { auth, guild, owner, voice_channel }
    }

    pub closed spec fn guild_id(&self) -> u64 {
        self.guild
    }

    pub closed spec fn owner_id(&self) -> u64 {
        self.owner
    }

    pub closed spec fn voice_channel_id(&self) -> u64 {
        self.voice_channel
    }

    /// The guild all commands are served in.
    pub fn guild(&self) -> (r: u64)
        ensures
            r == self.guild_id(),
    {
        self.guild
    }

    /// The user the bot answers to.
    pub fn owner(&self) -> (r: u64)
        ensures
            r == self.owner_id(),
    {
        self.owner
    }

    /// The one destination voice channel.
    pub fn voice_channel(&self) -> (r: u64)
        ensures
            r == self.voice_channel_id(),
    {
        self.voice_channel
    }
}

/// The bot's own credentials.
pub struct DiscordAuth {
    pub client_id: u64,
    pub token: String,
}

/// The spreadsheet the game-picking feature reads.
pub struct SheetsConfig {
    pub api_key: String,
    pub spreadsheet: String,
    pub max_column: String,
}

} // verus!
