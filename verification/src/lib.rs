//! Core of a lightweight actor runtime: the per-actor dispatch protocol.
//!
//! An actor is a user value plus handler callbacks. Around it the runtime
//! keeps a shared cell (the user value, an access counter and a release-mode
//! word), a dispatcher that polls a priority-ordered multi-source queue and
//! decides which messages may begin under the current access mode, and guards
//! that release access when they are dropped.
//!
//! This crate holds the protocol itself as a sequential state machine with
//! verified contracts: the queue's priority rule, the dispatcher's
//! compatibility and release-mode decisions, the counter/status/mode
//! bookkeeping of the guards, and the supervisor/subordinate lifecycle
//! signalling. Channels are modelled by their buffered contents and
//! sender counts; the asynchronous shell that drives this machine from an
//! executor lives outside the verified library.

use vstd::prelude::*;

pub mod actor_guard;
pub mod dispatch;
pub mod drop_signal;
pub mod internal;
pub mod mailbox;
pub mod manage;
pub mod msg_union;
pub mod queue;
pub mod supervise;

pub use crate::actor_guard::ActorGuardMut;
pub use crate::actor_guard::ActorGuardShared;

verus! {

/// An actor type: the user value, together with the message types its
/// handlers consume and the end values it exchanges with a supervisor.
pub trait Actor: Sized {
    /// Message types which this actor can process.
    type Message: crate::msg_union::MessageTypeUnion;

    /// Type which signals the intentional termination of this actor.
    type End;

    /// The `Actor::End` type of subordinates to this actor.
    type SubordinateEnd;
}

} // verus!
