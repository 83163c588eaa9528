//! The priority-ordered multi-source message queue of one actor.
//!
//! The dispatcher consumes three sources through one stream: the drop (kill)
//! signal, the unbounded subordinate-end channel, and the bounded mailbox
//! channel. Each poll serves the highest-priority ready source: the kill
//! signal terminates the stream outright, a pending subordinate end is
//! emitted before any ordinary mail, and mail comes last. Both channels are
//! fused: once closed they stay closed, and the queue may be polled after
//! completion without concern.
//!
//! A channel is modelled by its buffered contents together with the count of
//! its live senders; a channel is closed once every sender is gone.

use vstd::prelude::*;

use crate::Actor;
use crate::drop_signal::DropSignal;
use crate::msg_union::MailboxEntry;

verus! {

/// Capacity of the bounded mailbox channel.
pub const MAILBOX_CAPACITY: usize = 1000;

/// Element type of `MsgQueue`.
pub enum MsgQueueEntry<Act: Actor> {
    /// An entry from the actor's mailbox.
    MailboxEntry(MailboxEntry<Act::Message>),
    /// The end value of a terminated subordinate.
    SubordinateEnd(Act::SubordinateEnd),
}

impl<Act: Actor> MsgQueueEntry<Act> {
    /// Whether this entry asks for shared access. A subordinate-end
    /// notification needs exclusive access: its handler may mutate the
    /// supervisor.
    pub open spec fn shared_access(&self) -> bool {
        match self {
            MsgQueueEntry::MailboxEntry(me) => me is Shared,
            MsgQueueEntry::SubordinateEnd(_) => false,
        }
    }
}

/// Result of polling a `MsgQueue` once.
pub enum QueuePoll<Act: Actor> {
    /// The highest-priority ready entry.
    Ready(MsgQueueEntry<Act>),
    /// The stream is over: the kill signal fired, or every source is closed
    /// and drained. The actor must terminate.
    Terminated,
    /// No source is ready and at least one is still open.
    Pending,
}

/// The multi-source message queue: the receive ends of the kill signal, the
/// subordinate-end channel and the mailbox channel.
pub struct MsgQueue<Act: Actor> {
    /// The drop (kill) signal; fires when the actor is orphaned.
    pub kill: DropSignal,
    /// Buffered subordinate-end notifications, oldest first (unbounded).
    pub sub_ends: Vec<Act::SubordinateEnd>,
    /// Live senders of the subordinate-end channel.
    pub sub_senders: u32,
    /// Buffered mailbox entries, oldest first (bounded).
    pub mailbox: Vec<MailboxEntry<Act::Message>>,
    /// Live senders of the mailbox channel.
    pub mailbox_senders: u32,
}

impl<Act: Actor> MsgQueue<Act> {
    /// Well-formedness: the kill signal is consistent and the bounded mailbox
    /// respects its capacity.
    pub open spec fn wf(&self) -> bool {
        &&& self.kill.wf()
        &&& self.mailbox@.len() <= MAILBOX_CAPACITY
    }

    /// Whether the subordinate-end channel is closed (every sender gone).
    pub open spec fn sub_closed(&self) -> bool {
        self.sub_senders == 0
    }

    /// Whether the mailbox channel is closed (every sender gone).
    pub open spec fn mailbox_closed(&self) -> bool {
        self.mailbox_senders == 0
    }

    /// Whether the next poll ends the stream: the kill signal has fired, or
    /// every channel is closed and drained.
    pub open spec fn poll_terminated(&self) -> bool {
        ||| self.kill.killed()
        ||| (self.sub_closed() && self.mailbox_closed() && self.sub_ends@.len() == 0
            && self.mailbox@.len() == 0)
    }

    /// Whether the next poll finds nothing ready while a source is still open.
    pub open spec fn poll_pending(&self) -> bool {
        !self.poll_terminated() && self.sub_ends@.len() == 0 && self.mailbox@.len() == 0
    }

    /// Create the queue around a given kill signal, with a fresh
    /// subordinate-end channel and a fresh mailbox channel of one sender each.
    pub fn new(kill: DropSignal) -> (q: Self)
        requires
            kill.wf(),
        ensures
            q.kill == kill,
            q.sub_ends@ =~= Seq::<Act::SubordinateEnd>::empty(),
            q.mailbox@ =~= Seq::<MailboxEntry<Act::Message>>::empty(),
            q.sub_senders == 1,
            q.mailbox_senders == 1,
            q.wf(),
    {
        MsgQueue {
            kill,
            sub_ends: Vec::new(),
            sub_senders: 1,
            mailbox: Vec::new(),
            mailbox_senders: 1,
        }
    }

    /// Poll the queue once, serving the highest-priority ready source.
    ///
    /// The kill signal is polled first: once it has fired the stream
    /// terminates at once, and the buffered entries of the other sources are
    /// left untouched (the actor drops them unprocessed). Otherwise a
    /// buffered subordinate end is emitted before any mailbox entry, each
    /// channel in first-in, first-out order.
    pub fn poll_next(&mut self) -> (r: QueuePoll<Act>)
        requires
            old(self).wf(),
        ensures
            final(self).wf(),
            final(self).sub_senders == old(self).sub_senders,
            final(self).mailbox_senders == old(self).mailbox_senders,
            final(self).kill.killed() == old(self).kill.killed(),
            final(self).kill.owners == old(self).kill.owners,
            old(self).poll_terminated() ==> {
                &&& r is Terminated
                &&& final(self).sub_ends@ == old(self).sub_ends@
                &&& final(self).mailbox@ == old(self).mailbox@
            },
            old(self).poll_pending() ==> {
                &&& r is Pending
                &&& final(self).sub_ends@ == old(self).sub_ends@
                &&& final(self).mailbox@ == old(self).mailbox@
            },
            !old(self).poll_terminated() && old(self).sub_ends@.len() > 0 ==> {
                &&& r matches QueuePoll::Ready(e)
                    && e matches MsgQueueEntry::SubordinateEnd(u)
                    && u == old(self).sub_ends@[0]
                &&& final(self).sub_ends@ == old(self).sub_ends@.subrange(
                    1,
                    old(self).sub_ends@.len() as int,
                )
                &&& final(self).mailbox@ == old(self).mailbox@
            },
            !old(self).poll_terminated() && old(self).sub_ends@.len() == 0
                && old(self).mailbox@.len() > 0 ==> {
                &&& r matches QueuePoll::Ready(e)
                    && e matches MsgQueueEntry::MailboxEntry(m)
                    && m == old(self).mailbox@[0]
                &&& final(self).sub_ends@ == old(self).sub_ends@
                &&& final(self).mailbox@ == old(self).mailbox@.subrange(
                    1,
                    old(self).mailbox@.len() as int,
                )
            },
    {
        let kill_poll = self.kill.poll();
        if kill_poll == crate::drop_signal::SignalPoll::Ready {
            return QueuePoll::Terminated;
        }
        if self.sub_ends.len() > 0 {
            let u = self.sub_ends.remove(0);
            return QueuePoll::Ready(MsgQueueEntry::SubordinateEnd(u));
        }
        if self.mailbox.len() > 0 {
            let m = self.mailbox.remove(0);
            return QueuePoll::Ready(MsgQueueEntry::MailboxEntry(m));
        }
        if self.sub_senders == 0 && self.mailbox_senders == 0 {
            return QueuePoll::Terminated;
        }
        QueuePoll::Pending
    }

    /// A producer pushes one entry into the bounded mailbox channel.
    pub fn push_mailbox(&mut self, entry: MailboxEntry<Act::Message>)
        requires
            old(self).wf(),
            old(self).mailbox_senders >= 1,
            old(self).mailbox@.len() < MAILBOX_CAPACITY,
        ensures
            final(self).wf(),
            final(self).mailbox@ == old(self).mailbox@.push(entry),
            final(self).sub_ends@ == old(self).sub_ends@,
            final(self).kill == old(self).kill,
            final(self).sub_senders == old(self).sub_senders,
            final(self).mailbox_senders == old(self).mailbox_senders,
    {
        self.mailbox.push(entry);
    }

    /// A producer pushes one notification into the unbounded subordinate-end
    /// channel. Supervisor notification must never block a dying subordinate,
    /// so this channel has no capacity bound.
    pub fn push_sub_end(&mut self, end: Act::SubordinateEnd)
        requires
            old(self).wf(),
            old(self).sub_senders >= 1,
        ensures
            final(self).wf(),
            final(self).sub_ends@ == old(self).sub_ends@.push(end),
            final(self).mailbox@ == old(self).mailbox@,
            final(self).kill == old(self).kill,
            final(self).sub_senders == old(self).sub_senders,
            final(self).mailbox_senders == old(self).mailbox_senders,
    {
        self.sub_ends.push(end);
    }

    /// The notifications that repeated polling drains from a pending
    /// subordinate-end buffer: each poll serves the oldest one first, exactly
    /// as `poll_next` does while the kill signal has not fired.
    pub open spec fn sub_drain(pending: Seq<Act::SubordinateEnd>, polls: nat) -> Seq<
        Act::SubordinateEnd,
    >
        decreases polls,
    {
        if polls == 0 || pending.len() == 0 {
            Seq::empty()
        } else {
            seq![pending[0]] + Self::sub_drain(
                pending.subrange(1, pending.len() as int),
                (polls - 1) as nat,
            )
        }
    }

    /// Subordinate-end notifications are delivered in the order they were
    /// produced: draining a pending buffer yields exactly its oldest-first
    /// prefix, and enough polls yield the whole buffer, unreordered. (A
    /// producer appends — see `push_sub_end` — and each poll takes the head —
    /// see `poll_next` — so production order is delivery order.)
    pub proof fn lemma_subordinate_end_order(pending: Seq<Act::SubordinateEnd>, polls: nat)
        ensures
            Self::sub_drain(pending, polls) == pending.take(
                if polls <= pending.len() {
                    polls as int
                } else {
                    pending.len() as int
                },
            ),
            polls >= pending.len() ==> Self::sub_drain(pending, polls) == pending,
        decreases polls,
    {
        if polls == 0 || pending.len() == 0 {
            assert(Self::sub_drain(pending, polls) =~= pending.take(
                if polls <= pending.len() {
                    polls as int
                } else {
                    pending.len() as int
                },
            ));
        } else {
            let rest = pending.subrange(1, pending.len() as int);
            Self::lemma_subordinate_end_order(rest, (polls - 1) as nat);
            assert(Self::sub_drain(pending, polls) =~= pending.take(
                if polls <= pending.len() {
                    polls as int
                } else {
                    pending.len() as int
                },
            ));
        }
        if polls >= pending.len() {
            assert(Self::sub_drain(pending, polls) =~= pending);
        }
    }

    /// Clone a mailbox sender handle.
    pub fn clone_mailbox_sender(&mut self)
        requires
            old(self).wf(),
            old(self).mailbox_senders >= 1,
            old(self).mailbox_senders < u32::MAX,
        ensures
            final(self).wf(),
            *final(self) == (MsgQueue {
                mailbox_senders: (old(self).mailbox_senders + 1) as u32,
                ..*old(self)
            }),
    {
        self.mailbox_senders = self.mailbox_senders + 1;
    }

    /// Drop a mailbox sender handle; the channel closes with the last one.
    pub fn drop_mailbox_sender(&mut self)
        requires
            old(self).wf(),
            old(self).mailbox_senders >= 1,
        ensures
            final(self).wf(),
            *final(self) == (MsgQueue {
                mailbox_senders: (old(self).mailbox_senders - 1) as u32,
                ..*old(self)
            }),
    {
        self.mailbox_senders = self.mailbox_senders - 1;
    }

    /// Clone a subordinate-end sender handle.
    pub fn clone_sub_sender(&mut self)
        requires
            old(self).wf(),
            old(self).sub_senders >= 1,
            old(self).sub_senders < u32::MAX,
        ensures
            final(self).wf(),
            *final(self) == (MsgQueue {
                sub_senders: (old(self).sub_senders + 1) as u32,
                ..*old(self)
            }),
    {
        self.sub_senders = self.sub_senders + 1;
    }

    /// Drop a subordinate-end sender handle; the channel closes with the
    /// last one.
    pub fn drop_sub_sender(&mut self)
        requires
            old(self).wf(),
            old(self).sub_senders >= 1,
        ensures
            final(self).wf(),
            *final(self) == (MsgQueue {
                sub_senders: (old(self).sub_senders - 1) as u32,
                ..*old(self)
            }),
    {
        self.sub_senders = self.sub_senders - 1;
    }
}

} // verus!
