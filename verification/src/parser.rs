//! Command Parser: turns the raw text of a chat message plus the
//! identities it mentions into a typed [`Command`], an immediate reply
//! (usage hint or unknown-command notice), or silence.
//!
//! A message is addressed to the bot when its author is not a bot and
//! the bot's identity is among the mentioned users. Every form of the
//! bot's own mention token is stripped from the text before the first
//! whitespace run splits it into command word and argument.

use vstd::prelude::*;
use crate::text::{
    arg_of, chars_to_string, cmd_token, contains_id, dec_chars, dec_digits, remove_all,
    remove_all_chars, split_command, str_chars, trim, trim_chars, vec_eq_str,
};

verus! {

/// Opaque handle through which the chat collaborator delivers a reply:
/// the channel and the message being answered. The core never inspects
/// it, only threads it through.
#[derive(Debug, Clone, Copy, PartialEq, Eq, Structural)]
pub struct ReplyTarget {
    pub channel_id: u64,
    pub message_id: u64,
}

/// One decoded "message received" event from the chat gateway.
#[derive(Debug, Clone)]
pub struct MessageEvent {
    pub text: String,
    pub author_is_bot: bool,
    pub mentioned_user_ids: Vec<u64>,
    pub guild_id: Option<u64>,
    pub reply_target: ReplyTarget,
}

/// One typed user command, carrying the guild it concerns and where to
/// answer. `query` and `track_id` are non-empty, trimmed: the parser
/// rejects empty arguments before a `Command` is built.
#[derive(Debug, Clone, PartialEq)]
pub enum Command {
    Cancel { guild: Option<u64>, reply: ReplyTarget },
    Search { guild: Option<u64>, reply: ReplyTarget, query: String },
    Play { guild: Option<u64>, reply: ReplyTarget, track_id: String },
}

impl Command {
    /// The guild this command concerns, if the message carried one.
    pub open spec fn guild(self) -> Option<u64> {
        match self {
            Command::Cancel { guild, .. } => guild,
            Command::Search { guild, .. } => guild,
            Command::Play { guild, .. } => guild,
        }
    }

    /// The parser's guarantee on every command it builds: an argument
    /// is non-empty and carries no surrounding whitespace.
    pub open spec fn wf(self) -> bool {
        match self {
            Command::Cancel { .. } => true,
            Command::Search { query, .. } => query@.len() > 0 && trim(query@) == query@,
            Command::Play { track_id, .. } => track_id@.len() > 0 && trim(track_id@) == track_id@,
        }
    }

    /// Where the reply to this command must be delivered.
    pub open spec fn reply_target(self) -> ReplyTarget {
        match self {
            Command::Cancel { reply, .. } => reply,
            Command::Search { reply, .. } => reply,
            Command::Play { reply, .. } => reply,
        }
    }
}

/// What parsing one event yields: silence, one immediate reply, or one
/// command to enqueue. Never both a reply and a command.
#[derive(Debug, Clone, PartialEq)]
pub enum ParseOutcome {
    Ignore,
    Reply(String),
    Enqueue(Command),
}

/// Whether the event addresses the bot: a non-bot author mentioning it.
pub open spec fn spec_addressed(bot_id: u64, ev: MessageEvent) -> bool {
    &&& !ev.author_is_bot
    &&& ev.mentioned_user_ids@.contains(bot_id)
}

/// The plain mention token of the bot.
pub open spec fn mention_normal(bot_id: u64) -> Seq<char> {
    seq!['<', '@'] + dec_digits(bot_id as nat) + seq!['>']
}

/// The nickname mention token of the bot.
pub open spec fn mention_nick(bot_id: u64) -> Seq<char> {
    seq!['<', '@', '!'] + dec_digits(bot_id as nat) + seq!['>']
}

/// The message text with both mention tokens stripped and the result
/// trimmed: what the dispatch table looks at.
pub open spec fn cleaned(bot_id: u64, text: Seq<char>) -> Seq<char> {
    trim(remove_all(remove_all(text, mention_normal(bot_id)), mention_nick(bot_id)))
}

pub open spec fn usage_search_text() -> Seq<char> {
    "Error! eg. @me /search 永不失联的爱"@
}

pub open spec fn usage_play_text() -> Seq<char> {
    "Error! eg. @me /play 002GwAma2DGN2x"@
}

pub open spec fn unknown_command_text() -> Seq<char> {
    "Error: Unkown Command"@
}

/// The usage hint sent when `/search` comes with an empty argument.
pub fn usage_search_reply() -> (r: String)
    ensures
        r@ == usage_search_text(),
{
    "Error! eg. @me /search 永不失联的爱".to_owned()
}

/// The usage hint sent when `/play` comes with an empty argument.
pub fn usage_play_reply() -> (r: String)
    ensures
        r@ == usage_play_text(),
{
    "Error! eg. @me /play 002GwAma2DGN2x".to_owned()
}

/// The reply sent for any unrecognized command word.
pub fn unknown_command_reply() -> (r: String)
    ensures
        r@ == unknown_command_text(),
{
    "Error: Unkown Command".to_owned()
}

/// Parse one chat event against the dispatch table.
///
/// A message not addressed to the bot yields `Ignore`: no command, no
/// reply. An addressed `/cancel` always yields a command; `/search` and
/// `/play` yield a command exactly when their trimmed argument is
/// non-empty, and the matching usage hint otherwise; any other word
/// yields the unknown-command reply.
pub fn parse_message(bot_id: u64, ev: &MessageEvent) -> (r: ParseOutcome)
    ensures
        !spec_addressed(bot_id, *ev) ==> r == ParseOutcome::Ignore,
        r matches ParseOutcome::Enqueue(cmd) ==> cmd.wf(),
        spec_addressed(bot_id, *ev) ==> {
            let t = cleaned(bot_id, ev.text@);
            let c = cmd_token(t);
            let a = arg_of(t);
            &&& (c == "/cancel"@ ==> (r matches ParseOutcome::Enqueue(cmd) && cmd == (Command::Cancel {
                guild: ev.guild_id,
                reply: ev.reply_target,
            })))
            &&& (c == "/search"@ && a.len() == 0 ==> (r matches ParseOutcome::Reply(m) && m@
                == usage_search_text()))
            &&& (c == "/search"@ && a.len() > 0 ==> (r matches ParseOutcome::Enqueue(cmd)
                && cmd matches Command::Search { guild, reply, query } && guild == ev.guild_id
                && reply == ev.reply_target && query@ == a))
            &&& (c == "/play"@ && a.len() == 0 ==> (r matches ParseOutcome::Reply(m) && m@
                == usage_play_text()))
            &&& (c == "/play"@ && a.len() > 0 ==> (r matches ParseOutcome::Enqueue(cmd)
                && cmd matches Command::Play { guild, reply, track_id } && guild == ev.guild_id
                && reply == ev.reply_target && track_id@ == a))
            &&& (c != "/cancel"@ && c != "/search"@ && c != "/play"@ ==> (r
                matches ParseOutcome::Reply(m) && m@ == unknown_command_text()))
        },
{
    if ev.author_is_bot {
        return ParseOutcome::Ignore;
    }
    if !contains_id(&ev.mentioned_user_ids, bot_id) {
        return ParseOutcome::Ignore;
    }
    let chars = str_chars(ev.text.as_str());

    let mut pat_normal: Vec<char> = Vec::new();
    pat_normal.push('<');
    pat_normal.push('@');
    let mut digits = dec_chars(bot_id);
    pat_normal.append(&mut digits);
    pat_normal.push('>');
    proof {
        assert(pat_normal@ =~= mention_normal(bot_id));
    }

    let mut pat_nick: Vec<char> = Vec::new();
    pat_nick.push('<');
    pat_nick.push('@');
    pat_nick.push('!');
    let mut digits2 = dec_chars(bot_id);
    pat_nick.append(&mut digits2);
    pat_nick.push('>');
    proof {
        assert(pat_nick@ =~= mention_nick(bot_id));
    }

    let stripped1 = remove_all_chars(&chars, &pat_normal);
    let stripped2 = remove_all_chars(&stripped1, &pat_nick);
    let t = trim_chars(&stripped2);
    let (c, a) = split_command(&t);

    let res: ParseOutcome = if vec_eq_str(&c, "/cancel") {
        ParseOutcome::Enqueue(Command::Cancel { guild: ev.guild_id, reply: ev.reply_target })
    } else if vec_eq_str(&c, "/search") {
        if a.len() == 0 {
            ParseOutcome::Reply(usage_search_reply())
        } else {
            ParseOutcome::Enqueue(
                Command::Search {
                    guild: ev.guild_id,
                    reply: ev.reply_target,
                    query: chars_to_string(&a),
                },
            )
        }
    } else if vec_eq_str(&c, "/play") {
        if a.len() == 0 {
            ParseOutcome::Reply(usage_play_reply())
        } else {
            ParseOutcome::Enqueue(
                Command::Play {
                    guild: ev.guild_id,
                    reply: ev.reply_target,
                    track_id: chars_to_string(&a),
                },
            )
        }
    } else {
        ParseOutcome::Reply(unknown_command_reply())
    };
    proof {
        reveal_strlit("/cancel");
        reveal_strlit("/search");
        reveal_strlit("/play");
        assert("/cancel"@[1] == 'c' && "/search"@[1] == 's');
        assert("/cancel"@ != "/search"@);
        assert("/play"@.len() != "/search"@.len() && "/play"@.len() != "/cancel"@.len());
        assert("/play"@ != "/search"@ && "/play"@ != "/cancel"@);
        assert(t@ == cleaned(bot_id, ev.text@));
        crate::text::lemma_trim_idempotent(t@.skip(crate::text::token_len(t@)));
    }
    res
}

} // verus!
