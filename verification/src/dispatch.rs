//! The dispatch step of an actor: one observation of the protocol.
//!
//! Each observation resynchronises the access status against the counter,
//! obtains a message (the held-back one first, else the queue's
//! highest-priority ready entry), takes and applies the announced release
//! mode, checks the message's compatibility with the current access, and
//! either begins it — minting the guards its handler will receive — or holds
//! it back and suspends. The embedding shell loops: it hands the returned
//! guards and messages to the user's handlers and polls again until the step
//! blocks or completes.

use vstd::prelude::*;

use crate::Actor;
use crate::actor_guard::{ActorGuardMut, ActorGuardShared};
use crate::internal::{
    ActorAccessStatus,
    ActorState,
    ActorStateShared,
    ReleaseMode,
    apply_release_mode_spec,
    may_access,
    may_access_spec,
    resync_status_spec,
    resync_status,
    apply_release_mode,
};
use crate::msg_union::{MailboxEntry, MessageTypeUnion};
use crate::queue::{MsgQueueEntry, QueuePoll};

verus! {

/// What one dispatch observation decided: the handler work to perform, or
/// why none begins.
pub enum DispatchStep<Act: Actor> {
    /// The dispatch task is over: the queue terminated, or a delete was
    /// observed. No handler is invoked, now or ever again.
    Complete,
    /// Nothing can begin: no source was ready, or the current message is
    /// incompatible with the access status. The task suspends until a
    /// channel push or a guard release wakes it.
    Blocked,
    /// A shared batch begins: one guard per message, in batch order, all
    /// under a single shared-access session.
    SharedBatch(Vec<(ActorGuardShared, <<Act as Actor>::Message as MessageTypeUnion>::SharedUnion)>),
    /// An exclusive message begins under the unique mut guard.
    Exclusive(ActorGuardMut, <<Act as Actor>::Message as MessageTypeUnion>::MutUnion),
    /// A subordinate's end value is handed to the supervisor's handler,
    /// under the mut guard (the handler may mutate the supervisor).
    SubordinateEnd(ActorGuardMut, <Act as Actor>::SubordinateEnd),
}

impl<Act: Actor> DispatchStep<Act> {
    /// Whether this step hands work to a handler.
    pub open spec fn invokes_handler(&self) -> bool {
        match self {
            DispatchStep::Complete => false,
            DispatchStep::Blocked => false,
            DispatchStep::SharedBatch(_) => true,
            DispatchStep::Exclusive(_, _) => true,
            DispatchStep::SubordinateEnd(_, _) => true,
        }
    }
}

impl<Act: Actor> ActorState<Act> {
    /// The full effect of one dispatch observation of a live actor: how the
    /// state `post` and the step `r` relate to the state `pre` the
    /// observation started from. This is the contract of `poll_dispatch`,
    /// stated once so that the handles that delegate to it promise the same.
    pub open spec fn dispatch_transition(pre: Self, post: Self, r: DispatchStep<Act>) -> bool {
        &&& post.wf()
        // what the dispatcher never touches
        &&& post.shared.user_state == pre.shared.user_state
        &&& post.shared.end_outbox@ == pre.shared.end_outbox@
        &&& post.shared.end_recv_open == pre.shared.end_recv_open
        &&& post.msg_recv.sub_senders == pre.msg_recv.sub_senders
        &&& post.msg_recv.mailbox_senders == pre.msg_recv.mailbox_senders
        &&& post.msg_recv.kill.owners == pre.msg_recv.kill.owners
        &&& post.msg_recv.kill.killed() == pre.msg_recv.kill.killed()
        // completion happens exactly when the step says so, and handler work
        // is handed out exactly when the protocol admits some
        &&& post.completed == (r is Complete)
        &&& (r is Complete) == pre.dispatch_completes()
        &&& r.invokes_handler() == pre.dispatches_handler_work()
        // source of the message, and the queue afterwards
        &&& pre.curr_msg is Some ==> post.msg_recv == pre.msg_recv
        &&& pre.curr_msg is None ==> post.msg_recv.sub_ends@ == (
        if !pre.msg_recv.poll_terminated() && pre.msg_recv.sub_ends@.len() > 0 {
            pre.msg_recv.sub_ends@.subrange(1, pre.msg_recv.sub_ends@.len() as int)
        } else {
            pre.msg_recv.sub_ends@
        })
        &&& pre.curr_msg is None ==> post.msg_recv.mailbox@ == (
        if !pre.msg_recv.poll_terminated() && pre.msg_recv.sub_ends@.len() == 0
            && pre.msg_recv.mailbox@.len() > 0 {
            pre.msg_recv.mailbox@.subrange(1, pre.msg_recv.mailbox@.len() as int)
        } else {
            pre.msg_recv.mailbox@
        })
        // a fired kill signal completes the task at once; the buffered mail
        // is dropped, not processed
        &&& pre.curr_msg is None && pre.msg_recv.kill.killed() ==> r is Complete
            && post.msg_recv.sub_ends@ == pre.msg_recv.sub_ends@
            && post.msg_recv.mailbox@ == pre.msg_recv.mailbox@
        &&& pre.curr_msg is None && pre.msg_recv.poll_terminated() ==> r is Complete
        // nothing ready: suspend, with only the status resynchronised
        &&& pre.curr_msg is None && pre.msg_recv.poll_pending() ==> r is Blocked
            && post.curr_msg is None && post.shared == pre.shared
            && post.access_status == resync_status_spec(
            pre.access_status,
            pre.shared.access_count,
        )
        // a pending delete yields no handler work, and stays pending until
        // it completes the task
        &&& pre.shared.release_mode is Delete ==> !r.invokes_handler()
            && (post.completed || post.shared.release_mode is Delete)
        &&& pre.obtains() && pre.shared.release_mode is Delete ==> r is Complete
        // every handler runs with the user slot full
        &&& r.invokes_handler() ==> post.shared.user_state is Some
        // at this observation the status and the counter agree
        &&& !(r is Complete) ==> {
            &&& post.access_status is Available ==> post.shared.access_count == 0
            &&& post.access_status is Shared ==> post.shared.access_count >= 1
            &&& post.access_status is Exclusive && post.shared.release_mode is Normal
                ==> post.shared.access_count == 1
        }
        // the message obtained, and what became of it
        &&& pre.obtains() && !(pre.shared.release_mode is Delete) ==> ({
            let e = pre.obtained_entry();
            let st2 = apply_release_mode_spec(
                resync_status_spec(pre.access_status, pre.shared.access_count),
                pre.shared.release_mode,
            );
            &&& post.shared.release_mode is Normal
            &&& !may_access_spec(e.shared_access(), st2) ==> r is Blocked && post.curr_msg
                == Some(e) && post.access_status == st2 && post.shared.access_count
                == pre.shared.access_count
            &&& may_access_spec(e.shared_access(), st2) ==> {
                &&& post.curr_msg is None
                &&& (e matches MsgQueueEntry::MailboxEntry(MailboxEntry::Shared(batch)) ==> {
                    &&& r matches DispatchStep::SharedBatch(v) && v@.len() == batch@.len() && (
                    forall|j: int| 0 <= j < batch@.len() ==> #[trigger] v@[j].1 == batch@[j])
                    &&& post.shared.access_count == pre.shared.access_count + batch@.len()
                    &&& post.access_status == (if batch@.len() > 0 {
                        ActorAccessStatus::Shared
                    } else {
                        st2
                    })
                })
                &&& (e matches MsgQueueEntry::MailboxEntry(MailboxEntry::Mut(m)) ==> {
                    &&& r matches DispatchStep::Exclusive(_g, m2) && m2 == m
                    &&& post.shared.access_count == 1
                    &&& post.access_status is Exclusive
                })
                &&& (e matches MsgQueueEntry::SubordinateEnd(u) ==> {
                    &&& r matches DispatchStep::SubordinateEnd(_g, u2) && u2 == u
                    &&& post.shared.access_count == 1
                    &&& post.access_status is Exclusive
                })
            }
        })
    }

    /// Mint the unique mut guard: the counter goes from zero to one and the
    /// status becomes exclusive.
    fn acquire_guard_mut(&mut self) -> (g: ActorGuardMut)
        requires
            old(self).wf(),
            old(self).shared.access_count == 0,
            old(self).shared.release_mode is Normal,
        ensures
            final(self).wf(),
            *final(self) == (ActorState {
                shared: ActorStateShared { access_count: 1, ..old(self).shared },
                access_status: ActorAccessStatus::Exclusive,
                ..*old(self)
            }),
    {
        self.shared.access_count = 1;
        self.access_status = ActorAccessStatus::Exclusive;
        ActorGuardMut {}
    }

    /// One observation of the dispatch protocol.
    ///
    /// The contract pins down, for every starting state: which source the
    /// message comes from and what the queue looks like afterwards; that the
    /// kill signal completes the task at once without processing the buffered
    /// mail; that a pending delete completes the task before any further
    /// handler work; that an incompatible message is held back unaltered;
    /// that a shared batch is begun whole and in order; and that at the
    /// observation's end the access status and the counter agree.
    pub fn poll_dispatch(&mut self) -> (r: DispatchStep<Act>)
        requires
            old(self).wf(),
            !old(self).completed,
            old(self).admission_room(),
        ensures
            ActorState::dispatch_transition(*old(self), *final(self), r),
    {
        // Step A: if every guard of the previous access has released, the
        // actor is available again.
        self.access_status = resync_status(self.access_status, self.shared.access_count);

        // Step B: obtain the current message; fill the held-back slot from
        // the queue only when it is empty.
        let msg: MsgQueueEntry<Act>;
        match self.curr_msg.take() {
            Some(m) => {
                msg = m;
            },
            None => {
                match self.msg_recv.poll_next() {
                    QueuePoll::Pending => {
                        return DispatchStep::Blocked;
                    },
                    QueuePoll::Terminated => {
                        self.completed = true;
                        return DispatchStep::Complete;
                    },
                    QueuePoll::Ready(m) => {
                        msg = m;
                    },
                }
            },
        }
        // Step C: take the announced release mode and apply it.
        let mode = self.shared.release_mode;
        let (applied_status, terminate) = apply_release_mode(self.access_status, mode);
        if terminate {
            // A delete was announced: the deleting guard took the user
            // value; terminate without touching the slot (the announcement
            // is never read again). The obtained message is dropped
            // unprocessed.
            self.completed = true;
            return DispatchStep::Complete;
        }
        self.shared.release_mode = ReleaseMode::Normal;
        self.access_status = applied_status;

        // Step D: hold the message back if it cannot begin under the current
        // access status.
        let shared_access = match &msg {
            MsgQueueEntry::MailboxEntry(me) => match me {
                MailboxEntry::Shared(_) => true,
                MailboxEntry::Mut(_) => false,
            },
            MsgQueueEntry::SubordinateEnd(_) => false,
        };
        if !may_access(shared_access, self.access_status) {
            self.curr_msg = Some(msg);
            return DispatchStep::Blocked;
        }

        // Step E: begin the message, minting its guards.
        match msg {
            MsgQueueEntry::MailboxEntry(me) => match me {
                MailboxEntry::Shared(batch) => {
                    let mut batch = batch;
                    let n: usize = batch.len();
                    let ghost batch0 = batch@;
                    let mut out: Vec<
                        (ActorGuardShared, <<Act as Actor>::Message as MessageTypeUnion>::SharedUnion),
                    > = Vec::new();
                    while batch.len() > 0
                        invariant
                            out@.len() + batch@.len() == batch0.len(),
                            forall|j: int|
                                0 <= j < out@.len() ==> #[trigger] out@[j].1 == batch0[j],
                            batch@ == batch0.subrange(out@.len() as int, batch0.len() as int),
                        decreases batch@.len(),
                    {
                        let m = batch.remove(0);
                        out.push((ActorGuardShared {}, m));
                    }
                    // one access slot per message of the batch
                    self.shared.access_count = self.shared.access_count + (n as u32);
                    if n > 0 {
                        self.access_status = ActorAccessStatus::Shared;
                    }
                    DispatchStep::SharedBatch(out)
                },
                MailboxEntry::Mut(m) => {
                    let g = self.acquire_guard_mut();
                    DispatchStep::Exclusive(g, m)
                },
            },
            MsgQueueEntry::SubordinateEnd(u) => {
                let g = self.acquire_guard_mut();
                DispatchStep::SubordinateEnd(g, u)
            },
        }
    }
}

} // verus!
