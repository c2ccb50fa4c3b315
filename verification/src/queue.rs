//! Command Queue: a bounded, ordered, first-in-first-out hand-off
//! channel carrying [`Command`]s from event ingestion to execution.
//!
//! `try_enqueue` accepts a command exactly when the queue is below its
//! fixed capacity; a full queue is the backpressure point, never a drop
//! policy. `dequeue` hands commands out in submission order, so
//! commands of one guild are executed in the order they were enqueued.

use vstd::prelude::*;
use crate::parser::Command;

verus! {

/// The subsequence of `s` addressed to guild `g`, in order.
pub open spec fn for_guild(s: Seq<Command>, g: Option<u64>) -> Seq<Command> {
    s.filter(|c: Command| c.guild() == g)
}

/// Bounded FIFO queue of pending commands. Its view is the sequence of
/// queued commands, oldest first.
pub struct CommandQueue {
    items: Vec<Command>,
    capacity: usize,
}

impl View for CommandQueue {
    type V = Seq<Command>;

    closed spec fn view(&self) -> Seq<Command> {
        self.items@
    }
}

impl CommandQueue {
    /// The fixed capacity the queue was created with.
    pub closed spec fn cap(self) -> nat {
        self.capacity as nat
    }

    /// The queue never holds more than its capacity.
    pub open spec fn wf(self) -> bool {
        self@.len() <= self.cap()
    }

    /// An empty queue with the given capacity.
    pub fn new(capacity: usize) -> (q: CommandQueue)
        requires
            capacity > 0,
        ensures
            q@ == Seq::<Command>::empty(),
            q.cap() == capacity,
            q.wf(),
    {
        CommandQueue { items: Vec::new(), capacity }
    }

    /// How many commands wait in the queue.
    pub fn len(&self) -> (n: usize)
        ensures
            n == self@.len(),
    {
        self.items.len()
    }

    /// Accept `c` at the back of the queue if there is room. Succeeds
    /// exactly when the queue is below capacity; a rejected command
    /// leaves the queue unchanged, so the caller can hold the producer
    /// back rather than lose it.
    pub fn try_enqueue(&mut self, c: Command) -> (accepted: bool)
        requires
            old(self).wf(),
        ensures
            final(self).wf(),
            final(self).cap() == old(self).cap(),
            accepted == (old(self)@.len() < old(self).cap()),
            accepted ==> final(self)@ == old(self)@.push(c),
            !accepted ==> final(self)@ == old(self)@,
    {
        if self.items.len() < self.capacity {
            self.items.push(c);
            true
        } else {
            false
        }
    }

    /// Hand out the oldest queued command, if any.
    pub fn dequeue(&mut self) -> (r: Option<Command>)
        ensures
            final(self).cap() == old(self).cap(),
            old(self)@.len() == 0 ==> (r is None && final(self)@ == old(self)@),
            old(self)@.len() > 0 ==> (r == Some(old(self)@[0]) && final(self)@ == old(self)@.skip(
                1,
            )),
            old(self).wf() ==> final(self).wf(),
    {
        if self.items.len() == 0 {
            None
        } else {
            let c = self.items.remove(0);
            proof {
                assert(self.items@ =~= old(self)@.skip(1));
            }
            Some(c)
        }
    }
}

/// Law: enqueueing preserves per-guild submission order. The commands
/// of guild `g` after an enqueue are exactly those before it, with the
/// new command appended when it belongs to `g` — so for any
/// interleaving of producers, each guild's commands stand in the queue
/// in the order they were submitted.
pub proof fn lemma_enqueue_preserves_guild_order(s: Seq<Command>, c: Command, g: Option<u64>)
    ensures
        c.guild() == g ==> for_guild(s.push(c), g) == for_guild(s, g).push(c),
        c.guild() != g ==> for_guild(s.push(c), g) == for_guild(s, g),
{
    reveal(Seq::filter);
    assert(s.push(c).drop_last() =~= s);
    assert(s.push(c).last() == c);
}

/// Law: dequeueing takes the front command and leaves every guild's
/// remaining commands in their submission order. The commands of guild
/// `g` in the whole queue are the front command (when it belongs to
/// `g`) followed by the commands of `g` in the rest.
pub proof fn lemma_dequeue_preserves_guild_order(s: Seq<Command>, g: Option<u64>)
    requires
        s.len() > 0,
    ensures
        s[0].guild() == g ==> for_guild(s, g) == seq![s[0]] + for_guild(s.skip(1), g),
        s[0].guild() != g ==> for_guild(s, g) == for_guild(s.skip(1), g),
{
    let pred = |c: Command| c.guild() == g;
    let front: Seq<Command> = seq![s[0]];
    assert(s =~= front + s.skip(1));
    Seq::<Command>::filter_distributes_over_add(front, s.skip(1), pred);
    reveal_with_fuel(Seq::filter, 2);
    assert(front.drop_last() =~= Seq::<Command>::empty());
    assert(front.last() == s[0]);
    if s[0].guild() == g {
        assert(front.filter(pred) =~= front);
    } else {
        assert(front.filter(pred) =~= Seq::<Command>::empty());
    }
    assert(for_guild(s, g) == front.filter(pred) + for_guild(s.skip(1), g));
    if s[0].guild() != g {
        assert(Seq::<Command>::empty() + for_guild(s.skip(1), g) =~= for_guild(s.skip(1), g));
    }
}

} // verus!
