//! Synchronization guards for access to an actor's user value.
//!
//! A guard is minted by the dispatcher when a message begins, handed to the
//! handler by value, and releases its access when it is given back. A shared
//! guard may be duplicated (more concurrent readers); the mut guard is
//! unique, and may end its life in three ways: a plain release, a downgrade
//! to a shared guard, or a delete that takes the user value with it.
//!
//! In the running system each of these operations is an atomic handshake with
//! the dispatch task over the shared cell; here each is an explicit operation
//! on the dispatch state, with the handshake's effect in its contract.

use vstd::prelude::*;

use crate::Actor;
use crate::internal::{
    ActorAccessStatus,
    ActorState,
    ActorStateShared,
    ReleaseMode,
    apply_release_mode_spec,
    resync_status_spec,
};

verus! {

/// Guard for shared (immutable) access to an actor. Duplicable.
pub struct ActorGuardShared {}

/// Guard for exclusive (mutable) access to an actor. Unique.
pub struct ActorGuardMut {}

impl<Act: Actor> ActorState<Act> {
    /// The state after a new shared guard is minted or duplicated: one more
    /// reader holds the actor.
    pub open spec fn after_shared_acquire(self) -> Self {
        ActorState {
            shared: ActorStateShared {
                access_count: (self.shared.access_count + 1) as u32,
                ..self.shared
            },
            access_status: ActorAccessStatus::Shared,
            ..self
        }
    }

    /// The state after a shared guard releases: one fewer reader.
    pub open spec fn after_shared_release(self) -> Self {
        ActorState {
            shared: ActorStateShared {
                access_count: (self.shared.access_count - 1) as u32,
                ..self.shared
            },
            ..self
        }
    }

    /// The state after the mut guard releases: the counter returns to zero.
    pub open spec fn after_mut_release(self) -> Self {
        ActorState { shared: ActorStateShared { access_count: 0, ..self.shared }, ..self }
    }

    /// The state after the mut guard announces a downgrade: only the
    /// release-mode word changes; the counter stays at one, since the guard
    /// keeps its access slot under the new mode.
    pub open spec fn after_downgrade(self) -> Self {
        ActorState {
            shared: ActorStateShared { release_mode: ReleaseMode::Downgrade, ..self.shared },
            ..self
        }
    }

    /// The dispatcher's next observation of the cell, as far as the access
    /// status is concerned: resynchronise the status against the counter,
    /// then take and clear the announced release mode and apply it.
    pub open spec fn after_observe(self) -> Self {
        ActorState {
            shared: ActorStateShared { release_mode: ReleaseMode::Normal, ..self.shared },
            access_status: apply_release_mode_spec(
                resync_status_spec(self.access_status, self.shared.access_count),
                self.shared.release_mode,
            ),
            ..self
        }
    }
}

impl ActorGuardShared {
    /// Read access to the user value through the live guard (the model of
    /// the shared guard's dereference).
    pub fn user_ref<'a, Act: Actor>(&self, state: &'a ActorState<Act>) -> (r: &'a Act)
        requires
            state.wf(),
            state.shared.access_count >= 1,
        ensures
            Some(*r) == state.shared.user_state,
    {
        match &state.shared.user_state {
            Some(act) => act,
            None => unreached(),
        }
    }

    /// Duplicate a shared guard: one more reader.
    ///
    /// A shared guard can be live only while the dispatcher believes access
    /// is shared, or still believes it exclusive because a downgrade has been
    /// announced but not observed yet.
    pub fn clone_guard<Act: Actor>(&self, state: &mut ActorState<Act>) -> (g: ActorGuardShared)
        requires
            old(state).wf(),
            old(state).shared.access_count >= 1,
            old(state).shared.access_count < u32::MAX,
            old(state).access_status is Exclusive ==> old(state).shared.release_mode is Downgrade,
        ensures
            final(state).wf(),
            *final(state) == (ActorState {
                shared: ActorStateShared {
                    access_count: (old(state).shared.access_count + 1) as u32,
                    ..old(state).shared
                },
                ..*old(state)
            }),
    {
        state.shared.access_count = state.shared.access_count + 1;
        ActorGuardShared {}
    }

    /// Release a shared guard: decrement the counter, and report whether this
    /// was the last access, which is what wakes the dispatch task.
    pub fn release<Act: Actor>(self, state: &mut ActorState<Act>) -> (woke: bool)
        requires
            old(state).wf(),
            old(state).shared.access_count >= 1,
        ensures
            final(state).wf(),
            *final(state) == old(state).after_shared_release(),
            woke == (old(state).shared.access_count == 1),
    {
        let previous_access_count = state.shared.access_count;
        state.shared.access_count = state.shared.access_count - 1;
        previous_access_count == 1
    }
}

impl ActorGuardMut {
    /// Write access to the user value through the live mut guard (the model
    /// of the mut guard's dereference).
    pub fn user_mut<'a, Act: Actor>(&self, state: &'a mut ActorState<Act>) -> (r: &'a mut Act)
        requires
            old(state).wf(),
            old(state).access_status is Exclusive,
            old(state).shared.release_mode is Normal,
            old(state).shared.access_count == 1,
        ensures
            Some(*r) == old(state).shared.user_state,
            *final(state) == (ActorState {
                shared: ActorStateShared {
                    user_state: Some(*final(r)),
                    ..old(state).shared
                },
                ..*old(state)
            }),
    {
        match &mut state.shared.user_state {
            Some(act) => act,
            None => unreached(),
        }
    }

    /// Release the mut guard: the counter returns from one to zero, and the
    /// dispatch task is woken unconditionally.
    pub fn release<Act: Actor>(self, state: &mut ActorState<Act>)
        requires
            old(state).wf(),
            old(state).access_status is Exclusive,
            old(state).shared.release_mode is Normal,
            old(state).shared.access_count == 1,
        ensures
            final(state).wf(),
            *final(state) == old(state).after_mut_release(),
    {
        state.shared.access_count = 0;
    }

    /// Downgrade from mutable to shared access.
    ///
    /// This announces the downgrade through the release-mode word and wakes
    /// the dispatcher, then hands back the same access slot as a shared
    /// guard: the counter stays at one throughout, so no other message can
    /// slip in between the two modes.
    pub fn downgrade<Act: Actor>(self, state: &mut ActorState<Act>) -> (g: ActorGuardShared)
        requires
            old(state).wf(),
            old(state).access_status is Exclusive,
            old(state).shared.release_mode is Normal,
            old(state).shared.access_count == 1,
        ensures
            final(state).wf(),
            *final(state) == old(state).after_downgrade(),
            final(state).shared.access_count == 1,
    {
        state.shared.release_mode = ReleaseMode::Downgrade;
        ActorGuardShared {}
    }

    /// Delete this actor, and extract the user value.
    ///
    /// The end value is sent towards the supervisor (if the receive end is
    /// already gone, the value is dropped and deletion still proceeds), the
    /// user value is taken out of the cell, the delete is announced through
    /// the release-mode word, and the guard's access slot is given up, waking
    /// the dispatcher, which terminates at its next observation.
    pub fn delete<Act: Actor>(self, state: &mut ActorState<Act>, end: Act::End) -> (user: Act)
        requires
            old(state).wf(),
            old(state).access_status is Exclusive,
            old(state).shared.release_mode is Normal,
            old(state).shared.access_count == 1,
        ensures
            final(state).wf(),
            Some(user) == old(state).shared.user_state,
            final(state).shared.user_state is None,
            final(state).shared.release_mode is Delete,
            final(state).shared.access_count == 0,
            final(state).shared.end_outbox@ == (if old(state).shared.end_recv_open {
                old(state).shared.end_outbox@.push(end)
            } else {
                old(state).shared.end_outbox@
            }),
            final(state).shared.end_recv_open == old(state).shared.end_recv_open,
            final(state).access_status == old(state).access_status,
            final(state).msg_recv == old(state).msg_recv,
            final(state).curr_msg == old(state).curr_msg,
            final(state).completed == old(state).completed,
    {
        if state.shared.end_recv_open {
            state.shared.end_outbox.push(end);
        }
        let user = match state.shared.user_state.take() {
            Some(user) => user,
            None => unreached(),
        };
        state.shared.release_mode = ReleaseMode::Delete;
        state.shared.access_count = 0;
        user
    }
}

/// At every dispatcher observation the access status and the counter agree:
/// an available actor has no guard; a shared actor, at least one reader; an
/// exclusively held actor with no pending downgrade or delete announcement,
/// exactly the one mut guard. (Between a release on another thread and the
/// next observation the status lags the counter; and once a downgrade is
/// announced, the downgraded guard may be duplicated before the dispatcher
/// observes the new mode, so the exclusive case is stated under a normal
/// release mode.)
pub proof fn lemma_status_counter_invariant<Act: Actor>(s: ActorState<Act>)
    requires
        s.wf(),
    ensures
        s.access_status is Available ==> s.shared.access_count == 0,
        s.access_status is Exclusive && s.shared.release_mode is Normal
            ==> s.shared.access_count <= 1,
        s.shared.release_mode is Delete ==> s.shared.access_count == 0
            && s.shared.user_state is None,
        !(s.shared.release_mode is Delete) ==> s.shared.user_state is Some,
{
}

/// Downgrade-then-release is observationally equivalent to releasing the mut
/// guard and immediately acquiring a shared guard: after the dispatcher's
/// next observation both paths leave the actor shared, with one access slot
/// held and a normal release mode. They differ in one respect only: along the
/// downgrade path the counter never touches zero, so no intermediate message
/// can interleave, while the release path passes through zero.
pub proof fn lemma_downgrade_equivalence<Act: Actor>(s: ActorState<Act>)
    requires
        s.wf(),
        s.access_status is Exclusive,
        s.shared.release_mode is Normal,
        s.shared.access_count == 1,
    ensures
        s.after_downgrade().after_observe() == s.after_mut_release().after_observe()
            .after_shared_acquire(),
        s.after_downgrade().shared.access_count == 1,
        s.after_downgrade().after_observe().shared.access_count == 1,
        s.after_mut_release().shared.access_count == 0,
{
}

} // verus!
