//! Error taxonomy of the pipeline: gateway/session failures ([`BotError`])
//! and catalog failures ([`QQMusicError`]). Each error carries a fixed
//! user-facing message, exposed through `message`.

use vstd::prelude::*;

verus! {

/// Failures of the gateway and of the playback session machinery.
#[derive(Debug, Clone, Copy, PartialEq, Eq, Structural)]
pub enum BotError {
    /// The chat client could not be initialized at startup.
    BotClientError,
    /// The command carried no guild, so no audio channel can exist for it.
    BotAudioChannelError,
    /// The voice subsystem handle could not be obtained.
    BotPlayerError,
    /// The requesting user is not in any voice channel of the guild.
    BotUserNotJoinChannelError,
    /// The voice subsystem rejected the join.
    BotJoinChannelError,
    /// Downloading the resolved audio payload failed.
    BotDownloadMusicError,
}

impl BotError {
    /// The fixed user-facing text of this error.
    pub open spec fn spec_message(self) -> Seq<char> {
        match self {
            BotError::BotClientError => "DiscordBot: Failed to initialize client"@,
            BotError::BotAudioChannelError => "DiscordBot: Failed to load audio channel"@,
            BotError::BotPlayerError => "DiscordBot: Failed to load player"@,
            BotError::BotUserNotJoinChannelError => "DiscordBot: You need to join a channel first"@,
            BotError::BotJoinChannelError => "DiscordBot: Bot Failed to join the audio channel"@,
            BotError::BotDownloadMusicError => "DiscordBot: Bot Failed to download the target music"@,
        }
    }

    pub fn message(&self) -> (m: &'static str)
        ensures
            m@ == self.spec_message(),
    {
        match self {
            BotError::BotClientError => "DiscordBot: Failed to initialize client",
            BotError::BotAudioChannelError => "DiscordBot: Failed to load audio channel",
            BotError::BotPlayerError => "DiscordBot: Failed to load player",
            BotError::BotUserNotJoinChannelError => "DiscordBot: You need to join a channel first",
            BotError::BotJoinChannelError => "DiscordBot: Bot Failed to join the audio channel",
            BotError::BotDownloadMusicError => "DiscordBot: Bot Failed to download the target music",
        }
    }
}

/// Failures of the music catalog client.
#[derive(Debug, Clone, Copy, PartialEq, Eq, Structural)]
pub enum QQMusicError {
    /// The HTTP client could not be built at startup.
    QQMusicClientError,
    /// The resolve response held no usable stream descriptor.
    QQMusicPlayError,
    /// The search response held no song list at all.
    QQMusicPlaylistError,
}

impl QQMusicError {
    /// The fixed user-facing text of this error.
    pub open spec fn spec_message(self) -> Seq<char> {
        match self {
            QQMusicError::QQMusicClientError => "QQMusic: Failed to build client"@,
            QQMusicError::QQMusicPlayError => "QQMusic: Failed to get the music play url"@,
            QQMusicError::QQMusicPlaylistError => "QQMusic: Failed to get playlist"@,
        }
    }

    pub fn message(&self) -> (m: &'static str)
        ensures
            m@ == self.spec_message(),
    {
        match self {
            QQMusicError::QQMusicClientError => "QQMusic: Failed to build client",
            QQMusicError::QQMusicPlayError => "QQMusic: Failed to get the music play url",
            QQMusicError::QQMusicPlaylistError => "QQMusic: Failed to get playlist",
        }
    }
}

} // verus!
