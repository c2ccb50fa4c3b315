use discord_qqmusic_bot::parser::{parse_message, Command, MessageEvent, ParseOutcome, ReplyTarget};

const BOT_ID: u64 = 1234567890;

fn event(text: &str, mentioned: Vec<u64>, author_is_bot: bool) -> MessageEvent {
    MessageEvent {
        text: text.to_string(),
        author_is_bot,
        mentioned_user_ids: mentioned,
        guild_id: Some(77),
        reply_target: ReplyTarget { channel_id: 5, message_id: 9 },
    }
}

#[test]
fn not_mentioned_is_silent() {
    let ev = event("/play 002GwAma2DGN2x", vec![42, 99], false);
    assert_eq!(parse_message(BOT_ID, &ev), ParseOutcome::Ignore);
}

#[test]
fn empty_mentions_is_silent() {
    let ev = event("hello there", vec![], false);
    assert_eq!(parse_message(BOT_ID, &ev), ParseOutcome::Ignore);
}

#[test]
fn bot_author_is_silent_even_when_mentioned() {
    let ev = event("<@1234567890> /cancel", vec![BOT_ID], true);
    assert_eq!(parse_message(BOT_ID, &ev), ParseOutcome::Ignore);
}

#[test]
fn play_with_id_becomes_command() {
    let ev = event("<@1234567890> /play 002GwAma2DGN2x", vec![BOT_ID], false);
    match parse_message(BOT_ID, &ev) {
        ParseOutcome::Enqueue(Command::Play { guild, reply, track_id }) => {
            assert_eq!(guild, Some(77));
            assert_eq!(reply, ReplyTarget { channel_id: 5, message_id: 9 });
            assert_eq!(track_id, "002GwAma2DGN2x");
        }
        other => panic!("expected a Play command, got {:?}", other),
    }
}

#[test]
fn nick_mention_is_stripped_too() {
    let ev = event("<@!1234567890> /search 晴天", vec![BOT_ID], false);
    match parse_message(BOT_ID, &ev) {
        ParseOutcome::Enqueue(Command::Search { query, .. }) => {
            assert_eq!(query, "晴天");
        }
        other => panic!("expected a Search command, got {:?}", other),
    }
}

#[test]
fn cancel_needs_no_argument() {
    let ev = event("<@1234567890> /cancel", vec![BOT_ID], false);
    match parse_message(BOT_ID, &ev) {
        ParseOutcome::Enqueue(Command::Cancel { guild, reply }) => {
            assert_eq!(guild, Some(77));
            assert_eq!(reply.channel_id, 5);
        }
        other => panic!("expected a Cancel command, got {:?}", other),
    }
}

#[test]
fn search_without_argument_gets_usage_hint() {
    let ev = event("<@1234567890> /search", vec![BOT_ID], false);
    match parse_message(BOT_ID, &ev) {
        ParseOutcome::Reply(m) => assert_eq!(m, "Error! eg. @me /search 永不失联的爱"),
        other => panic!("expected a usage reply, got {:?}", other),
    }
}

#[test]
fn play_with_whitespace_argument_gets_usage_hint() {
    let ev = event("<@1234567890> /play    ", vec![BOT_ID], false);
    match parse_message(BOT_ID, &ev) {
        ParseOutcome::Reply(m) => assert_eq!(m, "Error! eg. @me /play 002GwAma2DGN2x"),
        other => panic!("expected a usage reply, got {:?}", other),
    }
}

#[test]
fn unknown_word_gets_unknown_command_reply() {
    let ev = event("<@1234567890> /dance", vec![BOT_ID], false);
    match parse_message(BOT_ID, &ev) {
        ParseOutcome::Reply(m) => assert_eq!(m, "Error: Unkown Command"),
        other => panic!("expected the unknown-command reply, got {:?}", other),
    }
}

#[test]
fn argument_is_trimmed() {
    let ev = event("<@1234567890>   /play   002GwAma2DGN2x  ", vec![BOT_ID], false);
    match parse_message(BOT_ID, &ev) {
        ParseOutcome::Enqueue(Command::Play { track_id, .. }) => {
            assert_eq!(track_id, "002GwAma2DGN2x");
        }
        other => panic!("expected a Play command, got {:?}", other),
    }
}

#[test]
fn largest_bot_id_mention_parses() {
    let id = u64::MAX;
    let ev = MessageEvent {
        text: format!("<@{}> /cancel", id),
        author_is_bot: false,
        mentioned_user_ids: vec![id],
        guild_id: Some(77),
        reply_target: ReplyTarget { channel_id: 5, message_id: 9 },
    };
    match parse_message(id, &ev) {
        ParseOutcome::Enqueue(Command::Cancel { .. }) => {}
        other => panic!("expected a Cancel command, got {:?}", other),
    }
}

#[test]
fn mention_in_the_middle_is_stripped() {
    let ev = event("/search <@1234567890> rain", vec![BOT_ID], false);
    match parse_message(BOT_ID, &ev) {
        ParseOutcome::Enqueue(Command::Search { query, .. }) => {
            assert_eq!(query, "rain");
        }
        other => panic!("expected a Search command, got {:?}", other),
    }
}
