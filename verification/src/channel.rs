//! The event channel: a bounded first-in, first-out queue of display
//! strings between the capture service and the render loop.
//!
//! Sending never waits. A string sent to a full channel is dropped, and
//! the channel stays as it was. What the channel hands out, it hands out
//! in the order in which it was accepted, each string once.

use std::collections::VecDeque;
use vstd::prelude::*;

verus! {

/// The number of strings that a channel of the usual size holds.
pub const CHANNEL_CAPACITY: usize = 32;

/// Most events that the render loop takes from the channel in one frame.
pub const DRAIN_LIMIT: usize = 10;

/// A bounded queue of display strings.
pub struct EventChannel {
    /// The strings that wait, oldest first.
    pub queue: VecDeque<String>,
    /// The number of strings that may wait at once.
    pub capacity: usize,
}

/// The texts of a sequence of strings.
pub open spec fn texts_of(strings: Seq<String>) -> Seq<Seq<char>> {
    Seq::new(strings.len(), |i: int| strings[i]@)
}

impl View for EventChannel {
    type V = Seq<Seq<char>>;

    /// The texts that wait, oldest first.
    open spec fn view(&self) -> Seq<Seq<char>> {
        texts_of(self.queue@)
    }
}

/// What waits in a channel of `capacity` after `text` was sent to it.
pub open spec fn after_send(waiting: Seq<Seq<char>>, capacity: nat, text: Seq<char>) -> Seq<
    Seq<char>,
> {
    if waiting.len() < capacity {
        waiting.push(text)
    } else {
        waiting
    }
}

/// The number of strings that a drain of at most `limit` takes from
/// `waiting`.
pub open spec fn drained_count(waiting: Seq<Seq<char>>, limit: nat) -> nat {
    if waiting.len() < limit {
        waiting.len()
    } else {
        limit
    }
}

impl EventChannel {
    /// The invariant of the channel: no more strings wait than it holds.
    pub open spec fn wf(&self) -> bool {
        self.queue@.len() <= self.capacity
    }

    /// An empty channel that holds up to `capacity` strings.
    pub fn new(capacity: usize) -> (channel: EventChannel)
        ensures
            channel@ == Seq::<Seq<char>>::empty(),
            channel.capacity == capacity,
            channel.wf(),
    {
        let channel = EventChannel { queue: VecDeque::new(), capacity };
        assert(channel@ =~= Seq::<Seq<char>>::empty());
        channel
    }

    /// The number of strings that wait.
    pub fn len(&self) -> (n: usize)
        ensures
            n == self@.len(),
    {
        self.queue.len()
    }

    /// Whether nothing waits.
    pub fn is_empty(&self) -> (b: bool)
        ensures
            b == (self@.len() == 0),
    {
        self.queue.len() == 0
    }

    /// Whether the next string sent would be dropped.
    pub fn is_full(&self) -> (b: bool)
        ensures
            b == (self@.len() >= self.capacity),
    {
        self.queue.len() >= self.capacity
    }

    /// Sends `text` without waiting. Returns whether the channel took it;
    /// a full channel drops it and stays as it was.
    pub fn try_send(&mut self, text: String) -> (accepted: bool)
        ensures
            accepted == (old(self)@.len() < old(self).capacity),
            final(self)@ == after_send(old(self)@, old(self).capacity as nat, text@),
            final(self).capacity == old(self).capacity,
            old(self).wf() ==> final(self).wf(),
    {
        if self.queue.len() < self.capacity {
            self.queue.push_back(text);
            assert(self@ =~= old(self)@.push(text@));
            true
        } else {
            false
        }
    }

    /// Takes the oldest waiting string without waiting, if there is one.
    pub fn try_recv(&mut self) -> (out: Option<String>)
        ensures
            out is Some <==> old(self)@.len() > 0,
            out matches Some(text) ==> text@ == old(self)@[0],
            final(self)@ == if old(self)@.len() > 0 {
                old(self)@.drop_first()
            } else {
                old(self)@
            },
            final(self).capacity == old(self).capacity,
            old(self).wf() ==> final(self).wf(),
    {
        let out = self.queue.pop_front();
        match &out {
            Some(_) => {
                assert(self@ =~= old(self)@.drop_first());
            },
            None => {
                assert(self@ =~= old(self)@);
            },
        }
        out
    }

    /// Takes up to `limit` waiting strings, oldest first, and leaves the
    /// rest waiting.
    pub fn drain(&mut self, limit: usize) -> (taken: Vec<String>)
        ensures
            texts_of(taken@) == old(self)@.take(drained_count(old(self)@, limit as nat) as int),
            final(self)@ == old(self)@.skip(drained_count(old(self)@, limit as nat) as int),
            texts_of(taken@) + final(self)@ == old(self)@,
            taken@.len() <= limit,
            final(self).capacity == old(self).capacity,
            old(self).wf() ==> final(self).wf(),
    {
        let mut taken: Vec<String> = Vec::new();
        let mut count: usize = 0;
        while count < limit
            invariant
                count <= limit,
                count == taken@.len(),
                count <= old(self)@.len(),
                texts_of(taken@) == old(self)@.take(count as int),
                self@ == old(self)@.skip(count as int),
                self.capacity == old(self).capacity,
            ensures
                count == drained_count(old(self)@, limit as nat),
                count == taken@.len(),
                texts_of(taken@) == old(self)@.take(count as int),
                self@ == old(self)@.skip(count as int),
                self.capacity == old(self).capacity,
            decreases limit - count,
        {
            match self.try_recv() {
                Some(text) => {
                    taken.push(text);
                    count += 1;
                    assert(texts_of(taken@) =~= old(self)@.take(count as int));
                    assert(self@ =~= old(self)@.skip(count as int));
                },
                None => {
                    break ;
                },
            }
        }
        assert(texts_of(taken@) + self@ =~= old(self)@);
        taken
    }
}

/// One use of the channel.
pub enum ChannelOp {
    /// The capture service sends a text.
    Send(Seq<char>),
    /// The render loop asks for the oldest text.
    Recv,
}

/// What has happened at a channel.
pub struct ChannelHistory {
    /// The texts that wait, oldest first.
    pub waiting: Seq<Seq<char>>,
    /// The texts that the channel took, in the order of their sending.
    pub accepted: Seq<Seq<char>>,
    /// The texts that the channel handed out, in the order of their
    /// handing out.
    pub delivered: Seq<Seq<char>>,
    /// The number of texts that the channel dropped.
    pub dropped: nat,
    /// The number of texts that were sent.
    pub sent: nat,
}

impl ChannelHistory {
    /// The history of a channel that was never used.
    pub open spec fn start() -> ChannelHistory {
        ChannelHistory {
            waiting: Seq::empty(),
            accepted: Seq::empty(),
            delivered: Seq::empty(),
            dropped: 0,
            sent: 0,
        }
    }

    /// The history after one more use of a channel of `capacity`, where
    /// the channel does what `try_send` and `try_recv` do.
    pub open spec fn extended(self, capacity: nat, op: ChannelOp) -> ChannelHistory {
        match op {
            ChannelOp::Send(text) => ChannelHistory {
                waiting: after_send(self.waiting, capacity, text),
                accepted: if self.waiting.len() < capacity {
                    self.accepted.push(text)
                } else {
                    self.accepted
                },
                dropped: if self.waiting.len() < capacity {
                    self.dropped
                } else {
                    self.dropped + 1
                },
                sent: self.sent + 1,
                ..self
            },
            ChannelOp::Recv => if self.waiting.len() > 0 {
                ChannelHistory {
                    waiting: self.waiting.drop_first(),
                    delivered: self.delivered.push(self.waiting[0]),
                    ..self
                }
            } else {
                self
            },
        }
    }

    /// The history of a channel of `capacity` after the uses `ops`, first
    /// to last.
    pub open spec fn after(capacity: nat, ops: Seq<ChannelOp>) -> ChannelHistory
        decreases ops.len(),
    {
        if ops.len() == 0 {
            ChannelHistory::start()
        } else {
            ChannelHistory::after(capacity, ops.drop_last()).extended(capacity, ops.last())
        }
    }
}

/// Whatever is sent to a channel and asked of it, in whatever order: what
/// the channel has handed out, followed by what still waits, is what it
/// took, in the order of sending. So nothing that the channel took is
/// lost, doubled or overtaken. Never do more texts wait than the channel
/// holds, and every text sent was either taken or dropped.
pub proof fn lemma_channel_is_fifo(capacity: nat, ops: Seq<ChannelOp>)
    ensures
        ({
            let history = ChannelHistory::after(capacity, ops);
            &&& history.delivered + history.waiting == history.accepted
            &&& history.waiting.len() <= capacity
            &&& history.accepted.len() + history.dropped == history.sent
            &&& history.sent <= ops.len()
        }),
    decreases ops.len(),
{
    if ops.len() > 0 {
        lemma_channel_is_fifo(capacity, ops.drop_last());
        let before = ChannelHistory::after(capacity, ops.drop_last());
        let history = before.extended(capacity, ops.last());
        assert(history.delivered + history.waiting =~= history.accepted);
    } else {
        let history = ChannelHistory::start();
        assert(history.delivered + history.waiting =~= history.accepted);
    }
}

/// The texts that were sent in the uses `ops`, in order.
pub open spec fn sent_texts(ops: Seq<ChannelOp>) -> Seq<Seq<char>>
    decreases ops.len(),
{
    if ops.len() == 0 {
        Seq::empty()
    } else {
        match ops.last() {
            ChannelOp::Send(text) => sent_texts(ops.drop_last()).push(text),
            ChannelOp::Recv => sent_texts(ops.drop_last()),
        }
    }
}

/// Whether `part` is what is left of `whole` when some of its members are
/// taken out: the same members in the same order, none of them twice.
pub open spec fn is_subsequence(part: Seq<Seq<char>>, whole: Seq<Seq<char>>) -> bool
    decreases whole.len(),
{
    if part.len() == 0 {
        true
    } else if whole.len() == 0 {
        false
    } else if part.last() == whole.last() && is_subsequence(part.drop_last(), whole.drop_last()) {
        true
    } else {
        is_subsequence(part, whole.drop_last())
    }
}

/// What a channel took is what was sent to it, less what it dropped, in
/// the order of sending; and so is what it handed out.
pub proof fn lemma_delivery_follows_sending(capacity: nat, ops: Seq<ChannelOp>)
    ensures
        is_subsequence(ChannelHistory::after(capacity, ops).accepted, sent_texts(ops)),
        ChannelHistory::after(capacity, ops).delivered.is_prefix_of(
            ChannelHistory::after(capacity, ops).accepted,
        ),
        ChannelHistory::after(capacity, ops).sent == sent_texts(ops).len(),
    decreases ops.len(),
{
    lemma_channel_is_fifo(capacity, ops);
    if ops.len() > 0 {
        lemma_delivery_follows_sending(capacity, ops.drop_last());
        let before = ChannelHistory::after(capacity, ops.drop_last());
        let sent_before = sent_texts(ops.drop_last());
        match ops.last() {
            ChannelOp::Send(text) => {
                let sent = sent_before.push(text);
                assert(sent.drop_last() =~= sent_before);
                if before.waiting.len() < capacity {
                    assert(before.accepted.push(text).drop_last() =~= before.accepted);
                }
            },
            ChannelOp::Recv => {},
        }
    }
}

/// A text is dropped only by a full channel, and a full channel is left
/// as it was by a send.
pub proof fn lemma_drop_only_when_full(history: ChannelHistory, capacity: nat, text: Seq<char>)
    ensures
        ({
            let next = history.extended(capacity, ChannelOp::Send(text));
            &&& next.dropped > history.dropped <==> history.waiting.len() >= capacity
            &&& history.waiting.len() >= capacity ==> next.waiting == history.waiting
            &&& history.waiting.len() < capacity ==> next.waiting == history.waiting.push(text)
        }),
{
}

} // verus!
