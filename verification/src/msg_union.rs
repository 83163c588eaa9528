//! Union types for messages which actors can process.

use vstd::prelude::*;

verus! {

/// Types which can be valid messages. A blanket impl covers every owned
/// type.
pub trait Message: Sized {
}

impl<T: Sized + 'static> Message for T {
}

/// Trait binding together a set of message types which an actor can process,
/// both shared and mut.
pub trait MessageTypeUnion: Sized {
    /// Associated shared message union type.
    type SharedUnion;

    /// Associated mut message union type.
    type MutUnion;
}

/// The runtime value which can be sent into a mailbox.
///
/// The shared variant carries a batch of messages: a producer releases
/// several read-only messages at once, and the dispatcher admits the whole
/// batch under a single shared-access session, so the batch is never
/// interleaved with exclusive work.
pub enum MailboxEntry<T: MessageTypeUnion> {
    /// A batch of shared-access messages, processed in order.
    Shared(Vec<T::SharedUnion>),
    /// A single exclusive-access message.
    Mut(T::MutUnion),
}

impl<T: MessageTypeUnion> MailboxEntry<T> {
    /// Whether this entry asks for shared (rather than exclusive) access.
    pub open spec fn is_shared_access(&self) -> bool {
        self is Shared
    }
}

/// `MessageTypeUnion` for `()`, to help partially-written actors compile.
impl MessageTypeUnion for () {
    type SharedUnion = ();
    type MutUnion = ();
}

} // verus!
