use discord_qqmusic_bot::error::BotError;
use discord_qqmusic_bot::session::{CancelAction, PlayStart, SessionManager};

#[test]
fn cancel_with_no_session_is_a_quiet_success() {
    let mut mgr = SessionManager::new();
    let action = mgr.cancel(Some(7));
    assert_eq!(action, CancelAction { stop_stream: None, release_connection: None });
    // Still idle: cancelling again asks for nothing either.
    let again = mgr.cancel(Some(7));
    assert_eq!(again, CancelAction { stop_stream: None, release_connection: None });
}

#[test]
fn cancel_without_guild_does_nothing() {
    let mut mgr = SessionManager::new();
    let action = mgr.cancel(None);
    assert_eq!(action, CancelAction { stop_stream: None, release_connection: None });
}

#[test]
fn play_without_guild_fails_before_joining() {
    let mut mgr = SessionManager::new();
    assert_eq!(mgr.begin_play(None, Some(3)), Err(BotError::BotAudioChannelError));
}

#[test]
fn play_outside_voice_channel_fails_before_joining() {
    let mut mgr = SessionManager::new();
    assert_eq!(mgr.begin_play(Some(7), None), Err(BotError::BotUserNotJoinChannelError));
    // Nothing was acquired: cancelling releases nothing.
    let action = mgr.cancel(Some(7));
    assert_eq!(action, CancelAction { stop_stream: None, release_connection: None });
}

#[test]
fn normal_play_path_reaches_playing_and_cancel_releases_all() {
    let mut mgr = SessionManager::new();
    let start = mgr.begin_play(Some(7), Some(3)).unwrap();
    assert_eq!(start, PlayStart { channel: 3, stop_stream: None });
    mgr.on_join_outcome(7, Some(100)).unwrap();
    mgr.on_stream_started(7, "002GwAma2DGN2x".to_string(), 55);
    let action = mgr.cancel(Some(7));
    assert_eq!(action, CancelAction { stop_stream: Some(55), release_connection: Some(100) });
    // And the session is idle again.
    let again = mgr.cancel(Some(7));
    assert_eq!(again, CancelAction { stop_stream: None, release_connection: None });
}

#[test]
fn join_failure_resets_to_idle() {
    let mut mgr = SessionManager::new();
    mgr.begin_play(Some(7), Some(3)).unwrap();
    assert_eq!(mgr.on_join_outcome(7, None), Err(BotError::BotJoinChannelError));
    let action = mgr.cancel(Some(7));
    assert_eq!(action, CancelAction { stop_stream: None, release_connection: None });
}

#[test]
fn download_failure_leaves_idle_with_connection_released() {
    let mut mgr = SessionManager::new();
    mgr.begin_play(Some(7), Some(3)).unwrap();
    mgr.on_join_outcome(7, Some(100)).unwrap();
    let e = mgr.on_download_failure(7);
    assert_eq!(e, BotError::BotDownloadMusicError);
    // Idle, not stuck in the download phase: nothing left to release.
    let action = mgr.cancel(Some(7));
    assert_eq!(action, CancelAction { stop_stream: None, release_connection: None });
}

#[test]
fn play_while_playing_stops_the_old_stream_first() {
    let mut mgr = SessionManager::new();
    mgr.begin_play(Some(7), Some(3)).unwrap();
    mgr.on_join_outcome(7, Some(100)).unwrap();
    mgr.on_stream_started(7, "first".to_string(), 55);
    let start = mgr.begin_play(Some(7), Some(3)).unwrap();
    assert_eq!(start, PlayStart { channel: 3, stop_stream: Some(55) });
    // The kept connection is reused through the new join.
    mgr.on_join_outcome(7, Some(100)).unwrap();
    mgr.on_stream_started(7, "second".to_string(), 56);
    let action = mgr.cancel(Some(7));
    assert_eq!(action, CancelAction { stop_stream: Some(56), release_connection: Some(100) });
}

#[test]
fn guilds_do_not_disturb_each_other() {
    let mut mgr = SessionManager::new();
    mgr.begin_play(Some(7), Some(3)).unwrap();
    mgr.on_join_outcome(7, Some(100)).unwrap();
    mgr.on_stream_started(7, "a".to_string(), 55);
    mgr.begin_play(Some(8), Some(4)).unwrap();
    mgr.on_join_outcome(8, Some(200)).unwrap();
    mgr.on_stream_started(8, "b".to_string(), 66);
    // Cancelling guild 8 leaves guild 7 playing.
    let action8 = mgr.cancel(Some(8));
    assert_eq!(action8, CancelAction { stop_stream: Some(66), release_connection: Some(200) });
    let action7 = mgr.cancel(Some(7));
    assert_eq!(action7, CancelAction { stop_stream: Some(55), release_connection: Some(100) });
}
