//! The per-actor dispatch state and the decisions it is driven by.
//!
//! The dispatcher owns an `ActorState`: the shared cell (user value, access
//! counter, release-mode word, end channel), its private view of the current
//! access mode, the multi-source queue, and the held-back slot for a message
//! that could not begin yet.
//!
//! In the running system the cell is shared with every outstanding guard and
//! the counter and mode are atomics; here the machine is sequential, each
//! concurrent step an explicit operation, so the protocol's bookkeeping is
//! stated and checked exactly.

use vstd::prelude::*;

use crate::Actor;
use crate::queue::{MsgQueue, MsgQueueEntry};

verus! {

/// The way in which an actor is currently being accessed, equivalent to the
/// state of a read/write lock. Held only by the dispatch task.
#[derive(Clone, Copy, PartialEq, Eq, Structural, Debug)]
pub enum ActorAccessStatus {
    /// The actor is not being accessed.
    Available,
    /// The actor is being immutably accessed, and is available for further
    /// concurrent immutable access.
    Shared,
    /// The actor is experiencing mutually exclusive, mutable access.
    Exclusive,
}

/// A possible indicator of an actor guard releasing in some non-default way,
/// conveyed to the dispatcher through the shared cell and read-and-cleared by
/// it at each observation.
#[derive(Clone, Copy, PartialEq, Eq, Structural, Debug)]
pub enum ReleaseMode {
    /// There is nothing notable about the release mode.
    Normal,
    /// A mut guard is downgrading itself to a shared guard, allowing further
    /// concurrent reads; the counter never dips to zero on the way.
    Downgrade,
    /// A mut guard deleted the actor: the deleting caller took ownership of
    /// the user value, and the dispatcher must terminate without touching
    /// the emptied slot.
    Delete,
}

/// The actor's shared cell: state reachable from the dispatcher and from
/// every outstanding guard.
pub struct ActorStateShared<Act: Actor> {
    /// The user's actor value. `Some` for the actor's whole life, except
    /// after an explicit delete took ownership of it.
    pub user_state: Option<Act>,
    /// The number of live guards currently accessing the user value.
    pub access_count: u32,
    /// A releasing guard's announcement of a non-default release.
    pub release_mode: ReleaseMode,
    /// End values sent towards whoever supervises this actor and not yet
    /// received there (the unbounded end-signal channel).
    pub end_outbox: Vec<Act::End>,
    /// Whether the receive end of the end-signal channel still exists. A
    /// send towards a vanished receiver is dropped, and deletion proceeds
    /// regardless.
    pub end_recv_open: bool,
}

/// The full dispatch state of one actor: the dispatch task's own fields
/// around the shared cell.
pub struct ActorState<Act: Actor> {
    /// The shared cell.
    pub shared: ActorStateShared<Act>,
    /// The dispatcher's view of the current access mode.
    pub access_status: ActorAccessStatus,
    /// The multi-source message queue.
    pub msg_recv: MsgQueue<Act>,
    /// The held-back slot: a dequeued message that was incompatible with the
    /// access status and waits for the next observation.
    pub curr_msg: Option<MsgQueueEntry<Act>>,
    /// Whether the dispatch task has completed (the actor is gone).
    pub completed: bool,
}

impl<Act: Actor> ActorStateShared<Act> {
    /// Invariant of the shared cell: only a delete empties the user slot,
    /// and a delete leaves no live guard behind.
    pub open spec fn wf(&self) -> bool {
        &&& self.release_mode is Delete ==> self.access_count == 0 && self.user_state is None
        &&& !(self.release_mode is Delete) ==> self.user_state is Some
    }
}

impl<Act: Actor> ActorState<Act> {
    /// Invariant of the dispatch state. The dispatcher's status may lag the
    /// counter (a guard released on another thread lowers the counter before
    /// the dispatcher resynchronises), so the status bounds the counter only
    /// from above:
    /// - while the dispatcher believes the actor is available, no guard
    ///   exists;
    /// - while it believes access is exclusive and no downgrade or delete has
    ///   been announced, at most the one mut guard exists.
    pub open spec fn wf(&self) -> bool {
        &&& self.shared.wf()
        &&& self.msg_recv.wf()
        &&& self.access_status is Available ==> self.shared.access_count == 0
        &&& self.access_status is Exclusive && self.shared.release_mode is Normal
            ==> self.shared.access_count <= 1
    }

    /// Whether an observation would obtain a message: one is held back, or
    /// the queue has one ready.
    pub open spec fn obtains(self) -> bool {
        ||| self.curr_msg is Some
        ||| (!self.msg_recv.poll_terminated() && (self.msg_recv.sub_ends@.len() > 0
            || self.msg_recv.mailbox@.len() > 0))
    }

    /// The message an observation would obtain: the held-back one first,
    /// otherwise the queue's highest-priority ready entry.
    pub open spec fn obtained_entry(self) -> MsgQueueEntry<Act>
        recommends
            self.obtains(),
    {
        match self.curr_msg {
            Some(e) => e,
            None => if self.msg_recv.sub_ends@.len() > 0 {
                MsgQueueEntry::SubordinateEnd(self.msg_recv.sub_ends@[0])
            } else {
                MsgQueueEntry::MailboxEntry(self.msg_recv.mailbox@[0])
            },
        }
    }

    /// Whether the next observation of a live actor hands work to a handler:
    /// a message is obtained, no delete is pending, and the message is
    /// compatible with the access status after resynchronisation and the
    /// announced release mode.
    pub open spec fn dispatches_handler_work(self) -> bool {
        &&& self.obtains()
        &&& !(self.shared.release_mode is Delete)
        &&& may_access_spec(
            self.obtained_entry().shared_access(),
            apply_release_mode_spec(
                resync_status_spec(self.access_status, self.shared.access_count),
                self.shared.release_mode,
            ),
        )
    }

    /// Whether the next observation of a live actor completes the dispatch
    /// task: the queue terminated (the kill signal fired, or every source is
    /// closed and drained), or a message arrives while a delete is pending.
    pub open spec fn dispatch_completes(self) -> bool {
        ||| (self.curr_msg is None && self.msg_recv.poll_terminated())
        ||| (self.obtains() && self.shared.release_mode is Delete)
    }

    /// Machine limit on admission: minting one guard per message of the next
    /// shared batch must not overflow the access counter.
    pub open spec fn admission_room(self) -> bool {
        self.obtains() ==> match self.obtained_entry() {
            MsgQueueEntry::MailboxEntry(me) => match me {
                crate::msg_union::MailboxEntry::Shared(b) => self.shared.access_count + b@.len()
                    <= u32::MAX,
                crate::msg_union::MailboxEntry::Mut(_) => true,
            },
            MsgQueueEntry::SubordinateEnd(_) => true,
        }
    }
}

/// The dispatcher's resynchronisation of its access status against the
/// counter: a counter observed at zero means every guard of the previous
/// access has released, so the actor is available again.
pub open spec fn resync_status_spec(status: ActorAccessStatus, count: u32) -> ActorAccessStatus {
    if count == 0 {
        ActorAccessStatus::Available
    } else {
        status
    }
}

/// The dispatcher's application of an announced release mode to its status:
/// a downgrade turns exclusive access into shared access, unless the status
/// was already reset to available; a delete terminates instead (see
/// `release_mode_terminates`).
pub open spec fn apply_release_mode_spec(
    status: ActorAccessStatus,
    mode: ReleaseMode,
) -> ActorAccessStatus {
    if mode is Downgrade && status is Exclusive {
        ActorAccessStatus::Shared
    } else {
        status
    }
}

/// Whether an announced release mode terminates the dispatcher outright.
pub open spec fn release_mode_terminates(mode: ReleaseMode) -> bool {
    mode is Delete
}

/// Compatibility of a message with the current access status: shared-access
/// messages may begin while the actor is available or already shared;
/// exclusive work (a mut message or a subordinate-end notification) only
/// while it is available.
pub open spec fn may_access_spec(shared_access: bool, status: ActorAccessStatus) -> bool {
    match status {
        ActorAccessStatus::Available => true,
        ActorAccessStatus::Shared => shared_access,
        ActorAccessStatus::Exclusive => false,
    }
}

/// Executable form of `resync_status_spec`, for the shell that drives the
/// real atomics.
pub fn resync_status(status: ActorAccessStatus, count: u32) -> (r: ActorAccessStatus)
    ensures
        r == resync_status_spec(status, count),
{
    if count == 0 {
        ActorAccessStatus::Available
    } else {
        status
    }
}

/// Executable form of `apply_release_mode_spec` and
/// `release_mode_terminates`: the status after applying an announced release
/// mode, and whether the dispatcher must terminate instead.
pub fn apply_release_mode(status: ActorAccessStatus, mode: ReleaseMode) -> (r: (
    ActorAccessStatus,
    bool,
))
    ensures
        r.0 == apply_release_mode_spec(status, mode),
        r.1 == release_mode_terminates(mode),
{
    match mode {
        ReleaseMode::Normal => (status, false),
        ReleaseMode::Downgrade => {
            if status == ActorAccessStatus::Exclusive {
                (ActorAccessStatus::Shared, false)
            } else {
                (status, false)
            }
        },
        ReleaseMode::Delete => (status, true),
    }
}

/// Executable form of `may_access_spec`, the compatibility table of the
/// dispatcher.
pub fn may_access(shared_access: bool, status: ActorAccessStatus) -> (r: bool)
    ensures
        r == may_access_spec(shared_access, status),
{
    match (shared_access, status) {
        (true, ActorAccessStatus::Available) => true,
        (true, ActorAccessStatus::Shared) => true,
        (false, ActorAccessStatus::Available) => true,
        _ => false,
    }
}

/// Set up the internal concurrency mechanism for an actor: fresh channels, a
/// fresh drop signal with one owning handle, and the dispatch state around
/// the user value.
///
/// The caller holds the one mailbox sender and the one owning handle of the
/// drop signal that this accounts for, and wraps them into an owning mailbox.
pub fn create_actor<Act: Actor>(user_state: Act) -> (state: ActorState<Act>)
    ensures
        state.wf(),
        state.shared.user_state == Some(user_state),
        state.shared.access_count == 0,
        state.shared.release_mode is Normal,
        state.shared.end_outbox@ =~= Seq::<Act::End>::empty(),
        state.shared.end_recv_open,
        state.access_status is Available,
        state.msg_recv.kill == (crate::drop_signal::DropSignal {
            owners: 1,
            fired: false,
            dead: false,
        }),
        state.msg_recv.sub_ends@ =~= Seq::<Act::SubordinateEnd>::empty(),
        state.msg_recv.mailbox@ =~= Seq::<
            crate::msg_union::MailboxEntry<Act::Message>,
        >::empty(),
        state.msg_recv.sub_senders == 1,
        state.msg_recv.mailbox_senders == 1,
        state.curr_msg is None,
        !state.completed,
{
    let kill = crate::drop_signal::drop_signal_channel();
    let msg_recv = MsgQueue::new(kill);
    create_actor_using_mailbox(user_state, msg_recv)
}

/// Set up the internal concurrency mechanism for an actor whose message
/// queue already exists.
pub fn create_actor_using_mailbox<Act: Actor>(user_state: Act, msg_recv: MsgQueue<Act>) -> (state:
    ActorState<Act>)
    requires
        msg_recv.wf(),
    ensures
        state.wf(),
        state.shared.user_state == Some(user_state),
        state.shared.access_count == 0,
        state.shared.release_mode is Normal,
        state.shared.end_outbox@ =~= Seq::<Act::End>::empty(),
        state.shared.end_recv_open,
        state.access_status is Available,
        state.msg_recv == msg_recv,
        state.curr_msg is None,
        !state.completed,
{
    let state_shared = ActorStateShared {
        user_state: Some(user_state),
        access_count: 0,
        release_mode: ReleaseMode::Normal,
        end_outbox: Vec::new(),
        end_recv_open: true,
    };
    ActorState {
        shared: state_shared,
        access_status: ActorAccessStatus::Available,
        msg_recv,
        curr_msg: None,
        completed: false,
    }
}

impl<Act: Actor> ActorState<Act> {
    /// The receive end of the end-signal channel goes away (its holder was
    /// dropped): later end values are silently discarded.
    pub fn close_end_receiver(&mut self)
        requires
            old(self).wf(),
        ensures
            final(self).wf(),
            *final(self) == (ActorState {
                shared: ActorStateShared { end_recv_open: false, ..old(self).shared },
                ..*old(self)
            }),
    {
        self.shared.end_recv_open = false;
    }
}

} // verus!
