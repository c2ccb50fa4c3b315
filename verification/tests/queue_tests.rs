use discord_qqmusic_bot::parser::{Command, ReplyTarget};
use discord_qqmusic_bot::queue::CommandQueue;

fn reply() -> ReplyTarget {
    ReplyTarget { channel_id: 1, message_id: 2 }
}

fn play(guild: u64, track: &str) -> Command {
    Command::Play { guild: Some(guild), reply: reply(), track_id: track.to_string() }
}

fn cancel(guild: u64) -> Command {
    Command::Cancel { guild: Some(guild), reply: reply() }
}

#[test]
fn fifo_order_is_kept() {
    let mut q = CommandQueue::new(100);
    assert!(q.try_enqueue(play(1, "a")));
    assert!(q.try_enqueue(play(1, "b")));
    assert!(q.try_enqueue(cancel(1)));
    assert_eq!(q.dequeue(), Some(play(1, "a")));
    assert_eq!(q.dequeue(), Some(play(1, "b")));
    assert_eq!(q.dequeue(), Some(cancel(1)));
    assert_eq!(q.dequeue(), None);
}

#[test]
fn per_guild_order_survives_interleaving() {
    let mut q = CommandQueue::new(100);
    // Two producers interleave: guild 1 and guild 2 each submit in
    // their own order.
    assert!(q.try_enqueue(play(1, "a1")));
    assert!(q.try_enqueue(play(2, "b1")));
    assert!(q.try_enqueue(cancel(1)));
    assert!(q.try_enqueue(play(2, "b2")));
    assert!(q.try_enqueue(play(1, "a2")));

    let mut guild1: Vec<Command> = Vec::new();
    let mut guild2: Vec<Command> = Vec::new();
    while let Some(c) = q.dequeue() {
        match &c {
            Command::Play { guild: Some(1), .. } | Command::Cancel { guild: Some(1), .. } => {
                guild1.push(c)
            }
            _ => guild2.push(c),
        }
    }
    assert_eq!(guild1, vec![play(1, "a1"), cancel(1), play(1, "a2")]);
    assert_eq!(guild2, vec![play(2, "b1"), play(2, "b2")]);
}

#[test]
fn full_queue_rejects_without_losing_commands() {
    let mut q = CommandQueue::new(2);
    assert!(q.try_enqueue(play(1, "a")));
    assert!(q.try_enqueue(play(1, "b")));
    assert!(!q.try_enqueue(play(1, "c")));
    assert_eq!(q.len(), 2);
    assert_eq!(q.dequeue(), Some(play(1, "a")));
    assert!(q.try_enqueue(play(1, "d")));
    assert_eq!(q.dequeue(), Some(play(1, "b")));
    assert_eq!(q.dequeue(), Some(play(1, "d")));
}
