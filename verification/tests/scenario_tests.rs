//! End-to-end scenarios: a chat event runs through the parser, the
//! queue, and the executor's dispatch against the session manager and
//! the catalog mapping, with the outside collaborators' outcomes fed
//! in as plain values.

use discord_qqmusic_bot::catalog::{get_play_url, map_search_response, SearchBody, SongItem};
use discord_qqmusic_bot::error::BotError;
use discord_qqmusic_bot::executor::{reply_for_play, reply_for_search, PlayFailure};
use discord_qqmusic_bot::parser::{parse_message, Command, MessageEvent, ParseOutcome, ReplyTarget};
use discord_qqmusic_bot::queue::CommandQueue;
use discord_qqmusic_bot::session::SessionManager;
use discord_qqmusic_bot::structs::{ApiResponse, Data, MidUrlInfo, Req1};

const BOT_ID: u64 = 42;
const GUILD: u64 = 7;

fn mention_event(rest: &str) -> MessageEvent {
    MessageEvent {
        text: format!("<@42> {}", rest),
        author_is_bot: false,
        mentioned_user_ids: vec![BOT_ID],
        guild_id: Some(GUILD),
        reply_target: ReplyTarget { channel_id: 5, message_id: 9 },
    }
}

#[test]
fn play_from_voice_channel_streams_and_confirms() {
    // Mention + /play <id> from a user in voice channel 3.
    let ev = mention_event("/play 002GwAma2DGN2x");
    let mut queue = CommandQueue::new(100);
    match parse_message(BOT_ID, &ev) {
        ParseOutcome::Enqueue(c) => assert!(queue.try_enqueue(c)),
        other => panic!("expected a command, got {:?}", other),
    }
    let cmd = queue.dequeue().unwrap();
    let (guild, track_id) = match cmd {
        Command::Play { guild, track_id, .. } => (guild, track_id),
        other => panic!("expected Play, got {:?}", other),
    };

    // The catalog resolves the id to a fresh signed URL.
    let resp = ApiResponse {
        req_1: Req1 {
            data: Data {
                sip: vec!["http://edge.example/".to_string()],
                midurlinfo: vec![MidUrlInfo { purl: format!("{}?vkey=s", track_id) }],
            },
        },
    };
    let url = get_play_url(&resp).unwrap();
    assert_eq!(url, "http://edge.example/002GwAma2DGN2x?vkey=s");

    // Session: Idle -> Joining -> Downloading -> Playing.
    let mut mgr = SessionManager::new();
    let start = mgr.begin_play(guild, Some(3)).unwrap();
    assert_eq!(start.channel, 3);
    mgr.on_join_outcome(GUILD, Some(100)).unwrap();
    mgr.on_stream_started(GUILD, track_id, 55);

    assert_eq!(reply_for_play(&Ok(())), "Got it! I'm playing this music");
}

#[test]
fn search_lists_both_tracks_in_catalog_order() {
    let ev = mention_event("/search 晴天");
    let query = match parse_message(BOT_ID, &ev) {
        ParseOutcome::Enqueue(Command::Search { query, .. }) => query,
        other => panic!("expected Search, got {:?}", other),
    };
    assert_eq!(query, "晴天");

    // The catalog returns two tracks.
    let body = SearchBody {
        song_list: Some(vec![
            SongItem {
                mid: "C400000HnvQU05eTgI".to_string(),
                name: "晴天".to_string(),
                singers: vec!["周杰伦".to_string()],
            },
            SongItem {
                mid: "C400003lghpv0iXmD6".to_string(),
                name: "以父之名".to_string(),
                singers: vec!["周杰伦".to_string()],
            },
        ]),
    };
    let reply = reply_for_search(&map_search_response(&body));
    let p1 = reply.find("C400000HnvQU05eTgI").unwrap();
    let p2 = reply.find("C400003lghpv0iXmD6").unwrap();
    assert!(p1 < p2);
    assert!(reply.contains("晴天") && reply.contains("以父之名"));
    assert!(reply.contains("周杰伦"));
}

#[test]
fn play_without_id_hints_usage_and_enqueues_nothing() {
    let ev = mention_event("/play");
    let mut queue = CommandQueue::new(100);
    match parse_message(BOT_ID, &ev) {
        ParseOutcome::Reply(m) => assert_eq!(m, "Error! eg. @me /play 002GwAma2DGN2x"),
        ParseOutcome::Enqueue(c) => {
            queue.try_enqueue(c);
            panic!("no command may be enqueued for an empty argument");
        }
        ParseOutcome::Ignore => panic!("an addressed message is never ignored"),
    }
    assert_eq!(queue.len(), 0);
}

#[test]
fn play_outside_any_voice_channel_reports_join_first() {
    let ev = mention_event("/play 002GwAma2DGN2x");
    let guild = match parse_message(BOT_ID, &ev) {
        ParseOutcome::Enqueue(Command::Play { guild, .. }) => guild,
        other => panic!("expected Play, got {:?}", other),
    };
    let mut mgr = SessionManager::new();
    // The user occupies no voice channel: the session refuses before
    // any join attempt.
    let err = mgr.begin_play(guild, None).unwrap_err();
    assert_eq!(err, BotError::BotUserNotJoinChannelError);
    let reply = reply_for_play(&Err(PlayFailure::Bot(err)));
    assert_eq!(reply, "DiscordBot: You need to join a channel first");
}
