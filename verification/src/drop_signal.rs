//! The orphan/kill signal of an actor.
//!
//! The runtime pairs a send end with a receive end: the send end is wrapped
//! in a reference counter and held by every owning mailbox, and when the last
//! owner is dropped (or the signal is sent early) the receive end completes.
//! The receive end may be polled any number of times, even after completion.
//!
//! Here the pair is one value: `owners` counts the live owning handles of the
//! send end, `fired` records that the signal was sent, and `dead` latches the
//! receive end's observation of it.

use vstd::prelude::*;

verus! {

/// Result of polling a signal or a stream source once.
#[derive(Clone, Copy, PartialEq, Eq, Structural, Debug)]
pub enum SignalPoll {
    /// The signal has fired (or had already been observed to fire).
    Ready,
    /// The signal has not fired yet.
    Pending,
}

/// A drop signal: both ends of the oneshot pair, with the reference count of
/// the owning handles around its send end.
#[derive(Clone, Copy, Debug)]
pub struct DropSignal {
    /// Live owning handles of the send end. When the count reaches zero the
    /// signal fires: the actor is orphaned.
    pub owners: u32,
    /// The signal was sent, by an owner or by the last owner going away.
    pub fired: bool,
    /// The receive end has observed the signal; latched, so that the signal
    /// may be polled after completion without concern.
    pub dead: bool,
}

impl DropSignal {
    /// A signal fires at most after it is sent; the latch never runs ahead of
    /// the send, and once every owner is gone the signal has been sent.
    pub open spec fn wf(&self) -> bool {
        &&& self.dead ==> self.fired
        &&& self.owners == 0 ==> self.fired
    }

    /// Whether the receive end completes on its next poll.
    pub open spec fn killed(&self) -> bool {
        self.fired || self.dead
    }
}

/// Create a new drop signal with one owning handle around its send end.
pub fn drop_signal_channel() -> (s: DropSignal)
    ensures
        s == (DropSignal { owners: 1, fired: false, dead: false }),
        s.wf(),
{
    DropSignal { owners: 1, fired: false, dead: false }
}

impl DropSignal {
    /// Send the signal early, without dropping the owners. Idempotent.
    pub fn send(&mut self)
        requires
            old(self).wf(),
        ensures
            *final(self) == (DropSignal { fired: true, ..*old(self) }),
            final(self).wf(),
    {
        self.fired = true;
    }

    /// Wrap the send end in one more owning handle (a reference-count clone).
    pub fn clone_owner(&mut self)
        requires
            old(self).wf(),
            old(self).owners >= 1,
            old(self).owners < u32::MAX,
        ensures
            *final(self) == (DropSignal { owners: (old(self).owners + 1) as u32, ..*old(self) }),
            final(self).wf(),
    {
        self.owners = self.owners + 1;
    }

    /// Drop one owning handle of the send end. When the last owner goes away
    /// the send end itself is dropped, which sends the signal.
    pub fn drop_owner(&mut self)
        requires
            old(self).wf(),
            old(self).owners >= 1,
        ensures
            final(self).owners == old(self).owners - 1,
            final(self).fired == (old(self).fired || old(self).owners == 1),
            final(self).dead == old(self).dead,
            final(self).wf(),
    {
        self.owners = self.owners - 1;
        if self.owners == 0 {
            self.fired = true;
        }
    }

    /// Poll the receive end: ready exactly when the signal has fired or was
    /// already observed. Latches, so later polls stay ready even if the
    /// underlying channel would report nothing further.
    pub fn poll(&mut self) -> (r: SignalPoll)
        requires
            old(self).wf(),
        ensures
            final(self).wf(),
            r == (if old(self).killed() { SignalPoll::Ready } else { SignalPoll::Pending }),
            final(self).owners == old(self).owners,
            final(self).fired == old(self).fired,
            final(self).dead == (old(self).dead || old(self).fired),
            final(self).killed() == old(self).killed(),
    {
        if self.dead {
            return SignalPoll::Ready;
        }
        if self.fired {
            self.dead = true;
            return SignalPoll::Ready;
        }
        SignalPoll::Pending
    }
}

} // verus!
