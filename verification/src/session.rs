//! Session Manager: one playback-session state machine per guild.
//!
//! Normal path: `Idle → Joining → Downloading → Playing → Idle`; any
//! state falls back to `Idle` on cancel or unrecoverable error, with
//! the voice connection released. The manager owns every guild's
//! session exclusively and a transition for one guild never touches
//! another guild's session.
//!
//! The voice subsystem itself is an outside collaborator: transitions
//! here return the action the caller must perform (which channel to
//! join, which stream to stop) and are fed the outcome back.

use vstd::prelude::*;
use std::collections::HashMap;
use crate::error::BotError;

verus! {

broadcast use vstd::std_specs::hash::group_hash_axioms;

/// The phase of one guild's playback session.
#[derive(Debug, Clone, Copy, PartialEq, Eq, Structural)]
pub enum SessionState {
    Idle,
    Joining,
    Downloading,
    Playing,
    Stopping,
}

/// The track currently streaming in a guild: its catalog id and the
/// handle of the active stream in the voice subsystem.
#[derive(Debug, Clone, PartialEq)]
pub struct CurrentTrack {
    pub track_id: String,
    pub stream_handle: u64,
}

/// One guild's playback session: its phase, the voice-connection
/// handle it owns (exclusive per guild), and the streaming track.
#[derive(Debug, Clone, PartialEq)]
pub struct PlaybackSession {
    pub state: SessionState,
    pub connection: Option<u64>,
    pub current_track: Option<CurrentTrack>,
}

impl PlaybackSession {
    /// The session of a guild nothing ever played in: `Idle`, no
    /// connection, no track.
    pub open spec fn spec_idle() -> PlaybackSession {
        PlaybackSession { state: SessionState::Idle, connection: None, current_track: None }
    }

    /// Internal consistency of one session: an idle session owns
    /// nothing, a downloading one owns a connection and no track yet,
    /// a playing one owns both.
    pub open spec fn wf(self) -> bool {
        &&& (self.state is Idle ==> self.connection is None && self.current_track is None)
        &&& (self.state is Joining ==> self.current_track is None)
        &&& (self.state is Downloading ==> self.connection is Some && self.current_track is None)
        &&& (self.state is Playing ==> self.connection is Some && self.current_track is Some)
        &&& (self.state is Stopping ==> self.connection is Some)
    }
}

/// What the caller must do to start playing: join this voice channel,
/// after stopping this still-active stream, if any.
#[derive(Debug, Clone, Copy, PartialEq, Eq, Structural)]
pub struct PlayStart {
    pub channel: u64,
    pub stop_stream: Option<u64>,
}

/// What the caller must release after a cancel: the active stream to
/// stop and the voice connection to drop, if the guild held them.
#[derive(Debug, Clone, Copy, PartialEq, Eq, Structural)]
pub struct CancelAction {
    pub stop_stream: Option<u64>,
    pub release_connection: Option<u64>,
}

/// All playback sessions, keyed by guild identity. Sessions are
/// created lazily on the first `Play` for a guild and destroyed when
/// the guild falls back to `Idle`.
pub struct SessionManager {
    sessions: HashMap<u64, PlaybackSession>,
}

impl SessionManager {
    /// The keyed sessions this manager holds.
    pub closed spec fn map(self) -> Map<u64, PlaybackSession> {
        self.sessions@
    }

    /// The session of guild `g`; a guild with no stored session is
    /// idle.
    pub open spec fn session_of(self, g: u64) -> PlaybackSession {
        if self.map().contains_key(g) {
            self.map()[g]
        } else {
            PlaybackSession::spec_idle()
        }
    }

    /// Every stored session is internally consistent.
    pub open spec fn wf(self) -> bool {
        forall|g: u64| #[trigger] self.map().contains_key(g) ==> self.map()[g].wf()
    }

    /// A manager with no sessions: every guild is idle.
    pub fn new() -> (m: SessionManager)
        ensures
            m.wf(),
            forall|g: u64| m.session_of(g) == PlaybackSession::spec_idle(),
    {
        SessionManager { sessions: HashMap::new() }
    }

    /// Begin a `Play` for `guild`. Fails before any join is attempted
    /// when the command carries no guild, or when the requesting user
    /// occupies no voice channel (`user_channel`); on either failure no
    /// session changes. Otherwise the guild's session moves to
    /// `Joining`, keeping its connection for reuse, and the returned
    /// action names the channel to join and the previously streaming
    /// track to stop first, if any.
    pub fn begin_play(&mut self, guild: Option<u64>, user_channel: Option<u64>) -> (r: Result<
        PlayStart,
        BotError,
    >)
        requires
            old(self).wf(),
        ensures
            final(self).wf(),
            guild is None ==> (r == Err::<PlayStart, BotError>(BotError::BotAudioChannelError)
                && final(self).map() == old(self).map()),
            guild is Some && user_channel is None ==> (r == Err::<PlayStart, BotError>(
                BotError::BotUserNotJoinChannelError,
            ) && final(self).map() == old(self).map()),
            guild is Some && user_channel is Some ==> {
                let g = guild->Some_0;
                let ch = user_channel->Some_0;
                &&& r matches Ok(ps) && ps.channel == ch && ps.stop_stream == stream_of(
                    old(self).session_of(g),
                )
                &&& final(self).session_of(g) == (PlaybackSession {
                    state: SessionState::Joining,
                    connection: old(self).session_of(g).connection,
                    current_track: None,
                })
                &&& forall|g2: u64|
                    g2 != g ==> final(self).session_of(g2) == old(self).session_of(g2)
            },
    {
        let g = match guild {
            Some(g) => g,
            None => {
                return Err(BotError::BotAudioChannelError);
            },
        };
        let ch = match user_channel {
            Some(ch) => ch,
            None => {
                return Err(BotError::BotUserNotJoinChannelError);
            },
        };
        let (connection, stop_stream): (Option<u64>, Option<u64>) = match self.sessions.get(&g) {
            Some(s) => (
                s.connection,
                match &s.current_track {
                    Some(t) => Some(t.stream_handle),
                    None => None,
                },
            ),
            None => (None, None),
        };
        let next = PlaybackSession {
            state: SessionState::Joining,
            connection,
            current_track: None,
        };
        self.sessions.insert(g, next);
        Ok(PlayStart { channel: ch, stop_stream })
    }

    /// Feed back the outcome of the join. On success the session moves
    /// to `Downloading`, owning the acquired connection; on failure it
    /// falls back to idle and the error is reported.
    pub fn on_join_outcome(&mut self, guild: u64, conn: Option<u64>) -> (r: Result<(), BotError>)
        requires
            old(self).wf(),
            old(self).session_of(guild).state is Joining,
        ensures
            final(self).wf(),
            conn matches Some(c) ==> (r is Ok && final(self).session_of(guild)
                == (PlaybackSession {
                state: SessionState::Downloading,
                connection: Some(c),
                current_track: None,
            })),
            conn is None ==> (r == Err::<(), BotError>(BotError::BotJoinChannelError)
                && final(self).session_of(guild) == PlaybackSession::spec_idle()),
            forall|g2: u64| g2 != guild ==> final(self).session_of(g2) == old(self).session_of(g2),
    {
        match conn {
            Some(c) => {
                let next = PlaybackSession {
                    state: SessionState::Downloading,
                    connection: Some(c),
                    current_track: None,
                };
                self.sessions.insert(guild, next);
                Ok(())
            },
            None => {
                self.sessions.remove(&guild);
                Err(BotError::BotJoinChannelError)
            },
        }
    }

    /// Record that the audio download failed: the guild's session
    /// falls back to idle with its connection released, never stuck in
    /// `Downloading`, and the per-command error is returned.
    pub fn on_download_failure(&mut self, guild: u64) -> (e: BotError)
        requires
            old(self).wf(),
        ensures
            final(self).wf(),
            e == BotError::BotDownloadMusicError,
            final(self).session_of(guild) == PlaybackSession::spec_idle(),
            forall|g2: u64| g2 != guild ==> final(self).session_of(g2) == old(self).session_of(g2),
    {
        self.sessions.remove(&guild);
        BotError::BotDownloadMusicError
    }

    /// Record that the downloaded track was handed to the voice
    /// subsystem and streams now: the session moves to `Playing` and
    /// owns the new track.
    pub fn on_stream_started(&mut self, guild: u64, track_id: String, stream_handle: u64)
        requires
            old(self).wf(),
            old(self).session_of(guild).state is Downloading,
        ensures
            final(self).wf(),
            final(self).session_of(guild) == (PlaybackSession {
                state: SessionState::Playing,
                connection: old(self).session_of(guild).connection,
                current_track: Some(CurrentTrack { track_id, stream_handle }),
            }),
            forall|g2: u64| g2 != guild ==> final(self).session_of(g2) == old(self).session_of(g2),
    {
        let connection: Option<u64> = match self.sessions.get(&guild) {
            Some(s) => s.connection,
            None => None,
        };
        let next = PlaybackSession {
            state: SessionState::Playing,
            connection,
            current_track: Some(CurrentTrack { track_id, stream_handle }),
        };
        self.sessions.insert(guild, next);
    }

    /// Cancel playback for `guild`: always a success, idempotent. The
    /// guild's session is idle afterwards, and the returned action
    /// names the stream to stop and the connection to release, if the
    /// guild held any. Cancelling a guild with no active session does
    /// nothing and changes no state.
    pub fn cancel(&mut self, guild: Option<u64>) -> (r: CancelAction)
        requires
            old(self).wf(),
        ensures
            final(self).wf(),
            guild is None ==> (final(self).map() == old(self).map() && r == (CancelAction {
                stop_stream: None,
                release_connection: None,
            })),
            guild matches Some(g) ==> (final(self).session_of(g) == PlaybackSession::spec_idle()
                && r == (CancelAction {
                stop_stream: stream_of(old(self).session_of(g)),
                release_connection: old(self).session_of(g).connection,
            }) && (forall|g2: u64|
                g2 != g ==> final(self).session_of(g2) == old(self).session_of(g2))),
    {
        let g = match guild {
            Some(g) => g,
            None => {
                return CancelAction { stop_stream: None, release_connection: None };
            },
        };
        match self.sessions.remove(&g) {
            Some(s) => CancelAction {
                stop_stream: match &s.current_track {
                    Some(t) => Some(t.stream_handle),
                    None => None,
                },
                release_connection: s.connection,
            },
            None => CancelAction { stop_stream: None, release_connection: None },
        }
    }
}

/// The handle of the stream a session plays, if any.
pub open spec fn stream_of(s: PlaybackSession) -> Option<u64> {
    match s.current_track {
        Some(t) => Some(t.stream_handle),
        None => None,
    }
}

} // verus!
