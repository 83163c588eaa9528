//! Actors supervising other actors.
//!
//! A subordinate's end-signal sender is a clone of its supervisor's
//! subordinate-end sender, so that the subordinate's end value arrives in
//! the supervisor's queue at the highest non-kill priority. No strong
//! back-pointer from subordinate to supervisor exists; the end channel is
//! sufficient.
//!
//! Here the cloned sender is accounted for in the supervisor's queue, and
//! the channel's transport is the explicit delivery operation that moves a
//! subordinate's sent end values into the supervisor's queue, in the order
//! they were produced.

use vstd::prelude::*;

use crate::Actor;
use crate::internal::{ActorState, create_actor};
use crate::mailbox::{Mailbox, Ownership, Supervisor};
use crate::manage::SubordinateActor;
use crate::queue::MsgQueue;

verus! {

/// A subordinate actor's reception machinery, created before the user value
/// exists: the wired message queue, ready to be completed into a dispatch
/// state with `create_actor_using_mailbox`.
pub struct ActorSocket<Act: Actor> {
    /// The subordinate's multi-source message queue.
    pub msg_recv: MsgQueue<Act>,
}

/// Create a subordinate actor, given its supervisor's state.
///
/// The subordinate's end-signal sender is a clone of the supervisor's
/// subordinate-end sender (accounted in the supervisor's queue); the
/// returned owning mailbox keeps the subordinate alive.
pub fn create_subordinate<Sup: Actor, Sub: Actor<End = Sup::SubordinateEnd>>(
    supervisor: &mut ActorState<Sup>,
    subordinate: Sub,
) -> (r: (SubordinateActor<Sub>, Mailbox<Supervisor>))
    requires
        old(supervisor).wf(),
        old(supervisor).msg_recv.sub_senders >= 1,
        old(supervisor).msg_recv.sub_senders < u32::MAX,
    ensures
        final(supervisor).wf(),
        // the supervisor hands one more subordinate-end sender out
        final(supervisor).msg_recv.sub_senders == old(supervisor).msg_recv.sub_senders + 1,
        final(supervisor).msg_recv.mailbox@ == old(supervisor).msg_recv.mailbox@,
        final(supervisor).msg_recv.sub_ends@ == old(supervisor).msg_recv.sub_ends@,
        final(supervisor).msg_recv.kill == old(supervisor).msg_recv.kill,
        final(supervisor).msg_recv.mailbox_senders == old(supervisor).msg_recv.mailbox_senders,
        final(supervisor).shared == old(supervisor).shared,
        final(supervisor).access_status == old(supervisor).access_status,
        final(supervisor).curr_msg == old(supervisor).curr_msg,
        final(supervisor).completed == old(supervisor).completed,
        // the subordinate starts fresh
        r.0.actor.wf(),
        r.0.actor.shared.user_state == Some(subordinate),
        r.0.actor.shared.access_count == 0,
        r.0.actor.shared.release_mode is Normal,
        r.0.actor.shared.end_outbox@ =~= Seq::<Sub::End>::empty(),
        r.0.actor.shared.end_recv_open,
        r.0.actor.access_status is Available,
        r.0.actor.msg_recv.kill.owners == 1,
        !r.0.actor.msg_recv.kill.fired,
        !r.0.actor.msg_recv.kill.dead,
        r.0.actor.msg_recv.sub_ends@ =~= Seq::<Sub::SubordinateEnd>::empty(),
        r.0.actor.msg_recv.mailbox@ =~= Seq::<
            crate::msg_union::MailboxEntry<Sub::Message>,
        >::empty(),
        r.0.actor.msg_recv.sub_senders == 1,
        r.0.actor.msg_recv.mailbox_senders == 1,
        r.0.actor.curr_msg is None,
        !r.0.actor.completed,
        r.1.ownership.owning(),
        r.1.accounted(r.0.actor),
{
    supervisor.msg_recv.clone_sub_sender();
    let actor = create_actor(subordinate);
    (SubordinateActor::new(actor), Mailbox::new_owned())
}

/// Create a subordinate actor socket, given the supervisor's state: the
/// wired reception machinery for a subordinate whose user value arrives
/// later, together with its owning mailbox.
pub fn create_subordinate_socket<Sup: Actor, Sub: Actor<End = Sup::SubordinateEnd>>(
    supervisor: &mut ActorState<Sup>,
) -> (r: (ActorSocket<Sub>, Mailbox<Supervisor>))
    requires
        old(supervisor).wf(),
        old(supervisor).msg_recv.sub_senders >= 1,
        old(supervisor).msg_recv.sub_senders < u32::MAX,
    ensures
        final(supervisor).wf(),
        final(supervisor).msg_recv.sub_senders == old(supervisor).msg_recv.sub_senders + 1,
        final(supervisor).msg_recv.mailbox@ == old(supervisor).msg_recv.mailbox@,
        final(supervisor).msg_recv.sub_ends@ == old(supervisor).msg_recv.sub_ends@,
        final(supervisor).msg_recv.kill == old(supervisor).msg_recv.kill,
        final(supervisor).msg_recv.mailbox_senders == old(supervisor).msg_recv.mailbox_senders,
        final(supervisor).shared == old(supervisor).shared,
        final(supervisor).access_status == old(supervisor).access_status,
        final(supervisor).curr_msg == old(supervisor).curr_msg,
        final(supervisor).completed == old(supervisor).completed,
        r.0.msg_recv.wf(),
        r.0.msg_recv.kill.owners == 1,
        !r.0.msg_recv.kill.fired,
        !r.0.msg_recv.kill.dead,
        r.0.msg_recv.sub_ends@ =~= Seq::<Sub::SubordinateEnd>::empty(),
        r.0.msg_recv.mailbox@ =~= Seq::<crate::msg_union::MailboxEntry<Sub::Message>>::empty(),
        r.0.msg_recv.sub_senders == 1,
        r.0.msg_recv.mailbox_senders == 1,
        r.1.ownership.owning(),
{
    supervisor.msg_recv.clone_sub_sender();
    let kill = crate::drop_signal::drop_signal_channel();
    let msg_recv = MsgQueue::new(kill);
    (ActorSocket { msg_recv }, Mailbox::new_owned())
}

/// Deliver a subordinate's sent end values into its supervisor's queue: the
/// transport of the cloned subordinate-end sender. The values arrive in the
/// order the subordinate produced them, behind whatever the supervisor's
/// queue already holds.
pub fn deliver_subordinate_ends<Sup: Actor, Sub: Actor<End = Sup::SubordinateEnd>>(
    subordinate: &mut ActorState<Sub>,
    supervisor: &mut ActorState<Sup>,
)
    requires
        old(subordinate).wf(),
        old(supervisor).wf(),
        old(supervisor).msg_recv.sub_senders >= 1,
    ensures
        final(subordinate).wf(),
        final(supervisor).wf(),
        // order-preserving delivery
        final(supervisor).msg_recv.sub_ends@ == old(supervisor).msg_recv.sub_ends@ + old(
            subordinate,
        ).shared.end_outbox@,
        final(subordinate).shared.end_outbox@ =~= Seq::<Sub::End>::empty(),
        // nothing else moves
        final(subordinate).shared.user_state == old(subordinate).shared.user_state,
        final(subordinate).shared.access_count == old(subordinate).shared.access_count,
        final(subordinate).shared.release_mode == old(subordinate).shared.release_mode,
        final(subordinate).shared.end_recv_open == old(subordinate).shared.end_recv_open,
        final(subordinate).access_status == old(subordinate).access_status,
        final(subordinate).msg_recv == old(subordinate).msg_recv,
        final(subordinate).curr_msg == old(subordinate).curr_msg,
        final(subordinate).completed == old(subordinate).completed,
        final(supervisor).msg_recv.mailbox@ == old(supervisor).msg_recv.mailbox@,
        final(supervisor).msg_recv.kill == old(supervisor).msg_recv.kill,
        final(supervisor).msg_recv.sub_senders == old(supervisor).msg_recv.sub_senders,
        final(supervisor).msg_recv.mailbox_senders == old(supervisor).msg_recv.mailbox_senders,
        final(supervisor).shared == old(supervisor).shared,
        final(supervisor).access_status == old(supervisor).access_status,
        final(supervisor).curr_msg == old(supervisor).curr_msg,
        final(supervisor).completed == old(supervisor).completed,
{
    let ghost outbox0 = subordinate.shared.end_outbox@;
    let ghost sup0 = supervisor.msg_recv.sub_ends@;
    let ghost sub0 = *subordinate;
    let ghost supstate0 = *supervisor;
    while subordinate.shared.end_outbox.len() > 0
        invariant
            subordinate.wf(),
            supervisor.wf(),
            supervisor.msg_recv.sub_senders >= 1,
            sup0 + outbox0 =~= supervisor.msg_recv.sub_ends@ + subordinate.shared.end_outbox@,
            subordinate.shared.user_state == sub0.shared.user_state,
            subordinate.shared.access_count == sub0.shared.access_count,
            subordinate.shared.release_mode == sub0.shared.release_mode,
            subordinate.shared.end_recv_open == sub0.shared.end_recv_open,
            subordinate.access_status == sub0.access_status,
            subordinate.msg_recv == sub0.msg_recv,
            subordinate.curr_msg == sub0.curr_msg,
            subordinate.completed == sub0.completed,
            supervisor.msg_recv.mailbox@ == supstate0.msg_recv.mailbox@,
            supervisor.msg_recv.kill == supstate0.msg_recv.kill,
            supervisor.msg_recv.sub_senders == supstate0.msg_recv.sub_senders,
            supervisor.msg_recv.mailbox_senders == supstate0.msg_recv.mailbox_senders,
            supervisor.shared == supstate0.shared,
            supervisor.access_status == supstate0.access_status,
            supervisor.curr_msg == supstate0.curr_msg,
            supervisor.completed == supstate0.completed,
        decreases subordinate.shared.end_outbox@.len(),
    {
        let end = subordinate.shared.end_outbox.remove(0);
        supervisor.msg_recv.push_sub_end(end);
    }
    proof {
        assert(supervisor.msg_recv.sub_ends@ =~= sup0 + outbox0);
    }
}

} // verus!
