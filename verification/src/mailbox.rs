//! Handles for sending messages to an actor.
//!
//! A mailbox wraps one sender handle of the actor's bounded mailbox channel
//! and, when it is an owning mailbox, one owning handle of the actor's drop
//! signal: the owning variant keeps the actor alive, and an actor held only
//! by weak mailboxes is orphaned when its owners go away.
//!
//! Sending offers at-most-once, non-reliable delivery by design: a send to a
//! dead actor is silently swallowed, since a caller could never distinguish
//! "actor died after acceptance" from "actor died before acceptance".
//! Backpressure, by contrast, is surfaced: the message comes back to the
//! caller.

use vstd::prelude::*;

use crate::Actor;
use crate::internal::ActorState;
use crate::msg_union::MailboxEntry;
use crate::queue::MAILBOX_CAPACITY;

verus! {

/// Mechanism for mailbox actor-ownership semantics.
pub trait Ownership: Sized {
    /// Whether a mailbox with this ownership keeps the actor alive.
    spec fn owning(&self) -> bool;

    /// Executable form of `owning`.
    fn is_owning(&self) -> (r: bool)
        ensures
            r == self.owning(),
    ;

    /// A fresh handle with the same semantics, for cloning a mailbox.
    fn duplicate(&self) -> (r: Self)
        ensures
            r.owning() == self.owning(),
    ;
}

/// Supervisor ownership semantics: the mailbox holds one owning handle of
/// the actor's drop signal, and so keeps the actor alive until the mailbox
/// is dropped.
pub struct Supervisor {}

impl Supervisor {
    /// Crate-internal constructor: stands for taking charge of one owning
    /// handle of the actor's drop signal.
    pub(crate) fn new() -> (r: Self)
        ensures
            r.owning(),
    {
        Supervisor {  }
    }
}

impl Ownership for Supervisor {
    open spec fn owning(&self) -> bool {
        true
    }

    fn is_owning(&self) -> (r: bool) {
        true
    }

    fn duplicate(&self) -> (r: Self) {
        Supervisor {  }
    }
}

/// Weak ownership semantics: this mailbox will not keep the actor alive.
#[derive(Clone, Copy, Debug)]
pub struct Weak {}

impl Ownership for Weak {
    open spec fn owning(&self) -> bool {
        false
    }

    fn is_owning(&self) -> (r: bool) {
        false
    }

    fn duplicate(&self) -> (r: Self) {
        Weak {  }
    }
}

/// A handle for sending messages to an actor, which keeps the actor alive.
pub type MailboxOwned = Mailbox<Supervisor>;

/// A handle for sending messages to an actor, without keeping it alive.
pub type MailboxWeak = Mailbox<Weak>;

/// Result of one attempt to drive an asynchronous send to completion.
pub enum SendPoll<Act: Actor> {
    /// The send future resolves: the message was accepted, or the actor is
    /// dead and the message was silently dropped.
    Sent,
    /// The bounded channel is full: the message is kept for the next
    /// attempt, once capacity frees up.
    Pending(MailboxEntry<Act::Message>),
}

/// A handle for sending messages to an actor.
///
/// Notable properties:
/// - sending provides no guarantee of delivery or of processing: a dead
///   actor swallows the message without an error;
/// - an owning mailbox accounts for one owning handle of the actor's drop
///   signal, a weak one for none;
/// - every mailbox accounts for one sender handle of the mailbox channel.
pub struct Mailbox<O: Ownership> {
    /// The ownership semantics of this handle.
    pub ownership: O,
}

impl<O: Ownership> Mailbox<O> {
    /// Crate-internal constructor.
    pub(crate) fn new(ownership: O) -> (r: Self)
        ensures
            r.ownership == ownership,
    {
        Mailbox { ownership }
    }

    /// What this handle accounts for in the actor's state: one mailbox
    /// sender, and, when owning, one owning handle of the drop signal.
    pub open spec fn accounted<Act: Actor>(&self, state: ActorState<Act>) -> bool {
        &&& state.msg_recv.mailbox_senders >= 1
        &&& self.ownership.owning() ==> state.msg_recv.kill.owners >= 1
    }

    /// Relation of the actor's state before and after a send was accepted:
    /// the entry stands at the back of the mailbox buffer, and nothing else
    /// moved.
    pub open spec fn mail_accepted<Act: Actor>(
        pre: ActorState<Act>,
        post: ActorState<Act>,
        entry: MailboxEntry<Act::Message>,
    ) -> bool {
        &&& post.msg_recv.mailbox@ == pre.msg_recv.mailbox@.push(entry)
        &&& post.msg_recv.sub_ends@ == pre.msg_recv.sub_ends@
        &&& post.msg_recv.kill == pre.msg_recv.kill
        &&& post.msg_recv.mailbox_senders == pre.msg_recv.mailbox_senders
        &&& post.msg_recv.sub_senders == pre.msg_recv.sub_senders
        &&& post.shared == pre.shared
        &&& post.access_status == pre.access_status
        &&& post.curr_msg == pre.curr_msg
        &&& post.completed == pre.completed
    }

    /// Drive an asynchronous send by one step.
    ///
    /// A send on a dead actor never observably fails: the future resolves as
    /// if the message had been accepted. Only backpressure keeps the future
    /// pending, handing the message back for the next attempt.
    pub fn send<Act: Actor>(
        &self,
        state: &mut ActorState<Act>,
        entry: MailboxEntry<Act::Message>,
    ) -> (r: SendPoll<Act>)
        requires
            old(state).wf(),
            self.accounted(*old(state)),
        ensures
            final(state).wf(),
            // the send future resolves in every case but backpressure on a
            // live actor: a dead actor never observably fails the caller
            r is Sent <==> !(!old(state).completed && old(state).msg_recv.mailbox@.len()
                >= MAILBOX_CAPACITY),
            old(state).completed ==> r is Sent && *final(state) == *old(state),
            !old(state).completed && old(state).msg_recv.mailbox@.len() >= MAILBOX_CAPACITY
                ==> (r matches SendPoll::Pending(e) && e == entry)
                && *final(state) == *old(state),
            !old(state).completed && old(state).msg_recv.mailbox@.len() < MAILBOX_CAPACITY
                ==> r is Sent && Self::mail_accepted(*old(state), *final(state), entry),
    {
        if state.completed {
            // actor dead: swallow, by design
            return SendPoll::Sent;
        }
        if state.msg_recv.mailbox.len() >= MAILBOX_CAPACITY {
            return SendPoll::Pending(entry);
        }
        state.msg_recv.push_mailbox(entry);
        SendPoll::Sent
    }

    /// Send a message synchronously, unless there is backpressure.
    ///
    /// If the mailbox is full, the input message is returned. As usual, if
    /// the actor is dead, the error is swallowed and the message dropped.
    pub fn send_now<Act: Actor>(
        &self,
        state: &mut ActorState<Act>,
        entry: MailboxEntry<Act::Message>,
    ) -> (r: Result<(), MailboxEntry<Act::Message>>)
        requires
            old(state).wf(),
            self.accounted(*old(state)),
        ensures
            final(state).wf(),
            // the only surfaced error is backpressure on a live actor
            r is Err <==> (!old(state).completed && old(state).msg_recv.mailbox@.len()
                >= MAILBOX_CAPACITY),
            r matches Err(e) ==> e == entry && *final(state) == *old(state),
            old(state).completed ==> *final(state) == *old(state),
            !old(state).completed && old(state).msg_recv.mailbox@.len() < MAILBOX_CAPACITY
                ==> r is Ok && Self::mail_accepted(*old(state), *final(state), entry),
    {
        if state.completed {
            return Ok(());
        }
        if state.msg_recv.mailbox.len() >= MAILBOX_CAPACITY {
            return Err(entry);
        }
        state.msg_recv.push_mailbox(entry);
        Ok(())
    }

    /// Whether the underlying channel is closed. If this returns true, the
    /// actor is dead; the converse may lag, so this is hard to use without
    /// races and is unlikely to be the correct way to implement code.
    pub fn is_closed<Act: Actor>(&self, state: &ActorState<Act>) -> (r: bool)
        ensures
            r == state.completed,
    {
        state.completed
    }

    /// Clone this mailbox: one more sender handle, and, for an owning
    /// mailbox, one more owning handle of the drop signal.
    pub fn clone_handle<Act: Actor>(&self, state: &mut ActorState<Act>) -> (r: Mailbox<O>)
        requires
            old(state).wf(),
            self.accounted(*old(state)),
            old(state).msg_recv.mailbox_senders < u32::MAX,
            old(state).msg_recv.kill.owners < u32::MAX,
        ensures
            final(state).wf(),
            r.ownership.owning() == self.ownership.owning(),
            r.accounted(*final(state)),
            self.accounted(*final(state)),
            final(state).msg_recv.mailbox_senders == old(state).msg_recv.mailbox_senders + 1,
            final(state).msg_recv.kill.owners == old(state).msg_recv.kill.owners + (
            if self.ownership.owning() {
                1int
            } else {
                0int
            }),
            final(state).msg_recv.kill.fired == old(state).msg_recv.kill.fired,
            final(state).msg_recv.kill.dead == old(state).msg_recv.kill.dead,
            final(state).msg_recv.sub_senders == old(state).msg_recv.sub_senders,
            final(state).msg_recv.mailbox@ == old(state).msg_recv.mailbox@,
            final(state).msg_recv.sub_ends@ == old(state).msg_recv.sub_ends@,
            final(state).shared == old(state).shared,
            final(state).access_status == old(state).access_status,
            final(state).curr_msg == old(state).curr_msg,
            final(state).completed == old(state).completed,
    {
        state.msg_recv.clone_mailbox_sender();
        if self.ownership.is_owning() {
            state.msg_recv.kill.clone_owner();
        }
        Mailbox { ownership: self.ownership.duplicate() }
    }

    /// Drop this mailbox: one fewer sender handle, and, for an owning
    /// mailbox, one fewer owning handle of the drop signal — when the last
    /// owner goes away the actor is orphaned and the kill signal fires.
    pub fn drop_handle<Act: Actor>(self, state: &mut ActorState<Act>)
        requires
            old(state).wf(),
            self.accounted(*old(state)),
        ensures
            final(state).wf(),
            final(state).msg_recv.mailbox_senders == old(state).msg_recv.mailbox_senders - 1,
            final(state).msg_recv.kill.owners == old(state).msg_recv.kill.owners - (
            if self.ownership.owning() {
                1int
            } else {
                0int
            }),
            final(state).msg_recv.kill.fired == (old(state).msg_recv.kill.fired || (
            self.ownership.owning() && old(state).msg_recv.kill.owners == 1)),
            final(state).msg_recv.kill.dead == old(state).msg_recv.kill.dead,
            final(state).msg_recv.sub_senders == old(state).msg_recv.sub_senders,
            final(state).msg_recv.mailbox@ == old(state).msg_recv.mailbox@,
            final(state).msg_recv.sub_ends@ == old(state).msg_recv.sub_ends@,
            final(state).shared == old(state).shared,
            final(state).access_status == old(state).access_status,
            final(state).curr_msg == old(state).curr_msg,
            final(state).completed == old(state).completed,
    {
        state.msg_recv.drop_mailbox_sender();
        if self.ownership.is_owning() {
            state.msg_recv.kill.drop_owner();
        }
    }
}

impl Mailbox<Supervisor> {
    /// Crate-internal constructor for an owning mailbox: wraps the one
    /// mailbox sender and the one owning drop-signal handle that the actor's
    /// creation accounted for.
    pub(crate) fn new_owned() -> (r: Self)
        ensures
            r.ownership.owning(),
    {
        Mailbox::new(Supervisor::new())
    }

    /// Downgrade into a weak mailbox, which will not keep the actor alive:
    /// the sender handle is kept, the owning drop-signal handle is given up.
    pub fn downgrade<Act: Actor>(self, state: &mut ActorState<Act>) -> (r: Mailbox<Weak>)
        requires
            old(state).wf(),
            self.accounted(*old(state)),
        ensures
            final(state).wf(),
            r.accounted(*final(state)),
            final(state).msg_recv.kill.owners == old(state).msg_recv.kill.owners - 1,
            final(state).msg_recv.kill.fired == (old(state).msg_recv.kill.fired || old(state).msg_recv.kill.owners == 1),
            final(state).msg_recv.kill.dead == old(state).msg_recv.kill.dead,
            final(state).msg_recv.mailbox_senders == old(state).msg_recv.mailbox_senders,
            final(state).msg_recv.sub_senders == old(state).msg_recv.sub_senders,
            final(state).msg_recv.mailbox@ == old(state).msg_recv.mailbox@,
            final(state).msg_recv.sub_ends@ == old(state).msg_recv.sub_ends@,
            final(state).shared == old(state).shared,
            final(state).access_status == old(state).access_status,
            final(state).curr_msg == old(state).curr_msg,
            final(state).completed == old(state).completed,
    {
        state.msg_recv.kill.drop_owner();
        Mailbox { ownership: Weak {  } }
    }
}

} // verus!
