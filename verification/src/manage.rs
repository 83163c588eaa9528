//! Root and subordinate handles around an actor's dispatch state.
//!
//! A root actor has no supervisor: the root handle is the manager. Polling
//! it drives the dispatch state and then the end-signal channel, and it
//! resolves to the actor's end value converted into a result — or to an
//! abnormal-close error when the actor went away without producing one.
//!
//! A subordinate actor is an opaque future around the dispatch state,
//! spawned by its supervisor at creation.

use vstd::prelude::*;

use crate::Actor;
use crate::dispatch::DispatchStep;
use crate::internal::{ActorState, create_actor};
use crate::mailbox::{Mailbox, Ownership, Supervisor, Weak};

verus! {

/// Error which denotes that an actor closed without properly producing an
/// end value.
#[derive(Copy, Clone, Debug, Eq, PartialEq, Structural, Ord, PartialOrd, Hash)]
pub struct AbnormalClose;

impl AbnormalClose {
    /// A human-readable description of this error.
    pub fn message(&self) -> (s: &'static str)
        ensures
            s@ == "future abnormally closed"@,
    {
        "future abnormally closed"
    }
}

/// Type that can synchronously convert into a result.
pub trait IntoResult: Sized {
    /// The success type of the conversion.
    type Item;

    /// The error type of the conversion.
    type Error;

    /// What the conversion returns.
    spec fn into_result_spec(self) -> Result<Self::Item, Self::Error>;

    /// Convert into a result.
    fn into_result(self) -> (r: Result<Self::Item, Self::Error>)
        ensures
            r == self.into_result_spec(),
    ;
}

impl<I, E> IntoResult for Result<I, E> {
    type Item = I;

    type Error = E;

    open spec fn into_result_spec(self) -> Result<I, E> {
        self
    }

    fn into_result(self) -> (r: Result<I, E>) {
        self
    }
}

/// What one poll of a root actor produced.
pub enum RootPoll<Act: Actor> where Act::End: IntoResult {
    /// The dispatch state produced handler work: perform it (hand the guards
    /// and messages to the actor's handlers), then poll again.
    Dispatch(DispatchStep<Act>),
    /// Neither the actor nor its end-signal channel is ready.
    Pending,
    /// The actor ended explicitly: its end value, converted into a result.
    /// Delivered exactly once.
    Ready(Result<<Act::End as IntoResult>::Item, <Act::End as IntoResult>::Error>),
    /// The end-signal channel closed without an end value: the actor was
    /// orphaned or its task went away. See `AbnormalClose`.
    AbnormallyClosed,
}

/// Handle to an owned actor with no manager. Resolves to the actor's
/// end-mapped result.
pub struct RootActor<Act: Actor> where Act::End: IntoResult {
    /// The dispatch state this handle drives.
    pub actor: ActorState<Act>,
    /// The root's owning mailbox.
    pub mailbox: Mailbox<Supervisor>,
}

impl<Act: Actor> RootActor<Act> where Act::End: IntoResult {
    /// Create a new root actor around a user value. It still must be driven
    /// (polled) by an executor.
    pub fn new(state: Act) -> (r: Self)
        ensures
            r.actor.wf(),
            r.actor.shared.user_state == Some(state),
            r.actor.shared.access_count == 0,
            r.actor.shared.release_mode is Normal,
            r.actor.shared.end_outbox@ =~= Seq::<Act::End>::empty(),
            r.actor.shared.end_recv_open,
            r.actor.access_status is Available,
            r.actor.msg_recv.kill.owners == 1,
            !r.actor.msg_recv.kill.fired,
            !r.actor.msg_recv.kill.dead,
            r.actor.msg_recv.sub_ends@ =~= Seq::<Act::SubordinateEnd>::empty(),
            r.actor.msg_recv.mailbox@ =~= Seq::<
                crate::msg_union::MailboxEntry<Act::Message>,
            >::empty(),
            r.actor.msg_recv.sub_senders == 1,
            r.actor.msg_recv.mailbox_senders == 1,
            r.actor.curr_msg is None,
            !r.actor.completed,
            r.mailbox.ownership.owning(),
            r.mailbox.accounted(r.actor),
    {
        let actor = create_actor(state);
        let mailbox = Mailbox::new_owned();
        RootActor { actor, mailbox }
    }

    /// The root's owning mailbox.
    pub fn mailbox(&self) -> (r: &Mailbox<Supervisor>)
        ensures
            r == &self.mailbox,
    {
        &self.mailbox
    }

    /// The root's owning mailbox, from a mutable handle.
    pub fn mailbox_mut(&mut self) -> (r: &Mailbox<Supervisor>)
        ensures
            r == &old(self).mailbox,
            *final(self) == *old(self),
    {
        &self.mailbox
    }

    /// Clone and downgrade the mailbox: a weak handle that does not keep the
    /// actor alive.
    pub fn mailbox_handle(&mut self) -> (r: Mailbox<Weak>)
        requires
            old(self).actor.wf(),
            old(self).mailbox.accounted(old(self).actor),
            old(self).actor.msg_recv.mailbox_senders < u32::MAX,
            old(self).actor.msg_recv.kill.owners < u32::MAX,
        ensures
            final(self).actor.wf(),
            r.accounted(final(self).actor),
            final(self).mailbox.accounted(final(self).actor),
            final(self).actor.msg_recv.mailbox_senders == old(self).actor.msg_recv.mailbox_senders
                + 1,
            final(self).actor.msg_recv.kill == old(self).actor.msg_recv.kill,
            final(self).actor.msg_recv.mailbox@ == old(self).actor.msg_recv.mailbox@,
            final(self).actor.msg_recv.sub_ends@ == old(self).actor.msg_recv.sub_ends@,
            final(self).actor.msg_recv.sub_senders == old(self).actor.msg_recv.sub_senders,
            final(self).actor.shared == old(self).actor.shared,
            final(self).actor.access_status == old(self).actor.access_status,
            final(self).actor.curr_msg == old(self).actor.curr_msg,
            final(self).actor.completed == old(self).actor.completed,
    {
        let cloned = self.mailbox.clone_handle(&mut self.actor);
        cloned.downgrade(&mut self.actor)
    }

    /// Poll the root: drive the dispatch state (unless it already
    /// completed), then the end-signal channel.
    ///
    /// An end value is delivered exactly once, converted through
    /// `IntoResult`; a closed end-signal channel without an end value is an
    /// abnormal close, distinct from any end-mapped user error.
    pub fn poll(&mut self) -> (r: RootPoll<Act>)
        requires
            old(self).actor.wf(),
            old(self).actor.admission_room(),
        ensures
            final(self).actor.wf(),
            final(self).mailbox == old(self).mailbox,
            // completion is latched
            old(self).actor.completed ==> final(self).actor.completed,
            // a live actor with admissible handler work hands it out, before
            // the end channel is looked at, and the step and the state change
            // are exactly the dispatch protocol's
            !old(self).actor.completed && old(self).actor.dispatches_handler_work() ==> r
                is Dispatch,
            r matches RootPoll::Dispatch(step) ==> step.invokes_handler()
                && ActorState::dispatch_transition(old(self).actor, final(self).actor, step),
            // a completed actor is never polled again (the inner task is
            // fused): only the end channel moves
            old(self).actor.completed ==> !(r is Dispatch) && final(self).actor.msg_recv == old(self).actor.msg_recv && final(self).actor.shared.user_state == old(self).actor.shared.user_state && final(self).actor.shared.access_count == old(self).actor.shared.access_count && final(self).actor.shared.release_mode == old(self).actor.shared.release_mode && final(self).actor.shared.end_recv_open == old(self).actor.shared.end_recv_open && final(self).actor.access_status == old(self).actor.access_status && final(self).actor.curr_msg == old(self).actor.curr_msg,
            // when the actor yields no handler work, the dispatch step that
            // ran first still had the protocol's effect on the sources
            !old(self).actor.completed && !(r is Dispatch) ==> ({
                let o = old(self).actor;
                let f = final(self).actor;
                &&& f.completed == o.dispatch_completes()
                &&& f.shared.user_state == o.shared.user_state
                &&& f.msg_recv.sub_senders == o.msg_recv.sub_senders
                &&& f.msg_recv.mailbox_senders == o.msg_recv.mailbox_senders
                &&& f.msg_recv.kill.owners == o.msg_recv.kill.owners
                &&& f.msg_recv.kill.killed() == o.msg_recv.kill.killed()
                &&& o.curr_msg is Some ==> f.msg_recv == o.msg_recv
                &&& o.curr_msg is None ==> f.msg_recv.sub_ends@ == (
                if !o.msg_recv.poll_terminated() && o.msg_recv.sub_ends@.len() > 0 {
                    o.msg_recv.sub_ends@.subrange(1, o.msg_recv.sub_ends@.len() as int)
                } else {
                    o.msg_recv.sub_ends@
                })
                &&& o.curr_msg is None ==> f.msg_recv.mailbox@ == (
                if !o.msg_recv.poll_terminated() && o.msg_recv.sub_ends@.len() == 0
                    && o.msg_recv.mailbox@.len() > 0 {
                    o.msg_recv.mailbox@.subrange(1, o.msg_recv.mailbox@.len() as int)
                } else {
                    o.msg_recv.mailbox@
                })
                &&& o.curr_msg is None && o.msg_recv.kill.killed() ==> f.msg_recv.sub_ends@
                    == o.msg_recv.sub_ends@ && f.msg_recv.mailbox@ == o.msg_recv.mailbox@
            }),
            // away from the end channel, the full dispatch transition holds
            !old(self).actor.completed && (r is Pending || r is AbnormallyClosed) ==> (
            exists|step: DispatchStep<Act>|
                #[trigger] ActorState::dispatch_transition(
                    old(self).actor,
                    final(self).actor,
                    step,
                ) && !step.invokes_handler()),
            // the end value is delivered exactly once, oldest first, whenever
            // no handler work pre-empts it
            (old(self).actor.completed || !old(self).actor.dispatches_handler_work()) && old(self).actor.shared.end_outbox@.len() > 0 ==> r is Ready,
            r matches RootPoll::Ready(res) ==> old(self).actor.shared.end_outbox@.len() > 0 && res
                == old(self).actor.shared.end_outbox@[0].into_result_spec() && final(self).actor.shared.end_outbox@ == old(self).actor.shared.end_outbox@.subrange(
                1,
                old(self).actor.shared.end_outbox@.len() as int,
            ),
            r is Dispatch || r is Pending || r is AbnormallyClosed ==> final(self).actor.shared.end_outbox@ == old(self).actor.shared.end_outbox@,
            // abnormal close is owed exactly when the actor is gone — or goes
            // now — with no end value to deliver
            old(self).actor.completed && old(self).actor.shared.end_outbox@.len() == 0 ==> r
                is AbnormallyClosed,
            !old(self).actor.completed && old(self).actor.dispatch_completes() && old(self).actor.shared.end_outbox@.len() == 0 ==> r is AbnormallyClosed,
            r is AbnormallyClosed ==> final(self).actor.completed && old(self).actor.shared.end_outbox@.len() == 0,
            // nothing to report: the actor is alive, blocked, and has sent no
            // end value
            !old(self).actor.completed && !old(self).actor.dispatches_handler_work() && !old(self).actor.dispatch_completes() && old(self).actor.shared.end_outbox@.len() == 0 ==> r
                is Pending,
            r is Pending ==> !final(self).actor.completed && old(self).actor.shared.end_outbox@.len() == 0,
    {
        if !self.actor.completed {
            let step = self.actor.poll_dispatch();
            let invokes = match &step {
                DispatchStep::Complete => false,
                DispatchStep::Blocked => false,
                DispatchStep::SharedBatch(_) => true,
                DispatchStep::Exclusive(_, _) => true,
                DispatchStep::SubordinateEnd(_, _) => true,
            };
            if invokes {
                return RootPoll::Dispatch(step);
            }
        }
        if self.actor.shared.end_outbox.len() > 0 {
            let end = self.actor.shared.end_outbox.remove(0);
            return RootPoll::Ready(end.into_result());
        }
        if self.actor.completed {
            return RootPoll::AbnormallyClosed;
        }
        RootPoll::Pending
    }
}

/// A future that drives a subordinate actor: an opaque wrapper around the
/// dispatch state, returned from creating a subordinate. It must be spawned
/// onto an executor, and that is the only thing its holder does with it.
pub struct SubordinateActor<Act: Actor> {
    /// The subordinate's dispatch state.
    pub actor: ActorState<Act>,
}

impl<Act: Actor> SubordinateActor<Act> {
    /// Crate-internal constructor.
    pub(crate) fn new(actor: ActorState<Act>) -> (r: Self)
        ensures
            r.actor == actor,
    {
        SubordinateActor { actor }
    }

    /// Poll the subordinate's dispatch state once: the step and the state
    /// change are exactly those of the dispatch protocol.
    pub fn poll(&mut self) -> (r: DispatchStep<Act>)
        requires
            old(self).actor.wf(),
            !old(self).actor.completed,
            old(self).actor.admission_room(),
        ensures
            ActorState::dispatch_transition(old(self).actor, final(self).actor, r),
    {
        self.actor.poll_dispatch()
    }
}

} // verus!
