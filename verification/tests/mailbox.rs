//! Tests for the mailbox handles: sending, backpressure, the silent
//! swallowing of dead-actor errors, and ownership semantics.

use reflex::dispatch::DispatchStep;
use reflex::mailbox::SendPoll;
use reflex::manage::RootActor;
use reflex::msg_union::{MailboxEntry, MessageTypeUnion};
use reflex::queue::MAILBOX_CAPACITY;
use reflex::Actor;

struct Union;

impl MessageTypeUnion for Union {
    type SharedUnion = u32;
    type MutUnion = u32;
}

struct Probe;

impl Actor for Probe {
    type Message = Union;
    type End = Result<u32, u32>;
    type SubordinateEnd = u32;
}

#[test]
fn send_now_accepts_and_reports_backpressure() {
    let mut root: RootActor<Probe> = RootActor::new(Probe);
    for i in 0..MAILBOX_CAPACITY {
        let r = root.mailbox.send_now(&mut root.actor, MailboxEntry::Mut(i as u32));
        assert!(r.is_ok());
    }
    // the bounded channel is full: the message comes back
    match root.mailbox.send_now(&mut root.actor, MailboxEntry::Mut(7)) {
        Err(MailboxEntry::Mut(m)) => assert_eq!(m, 7),
        _ => panic!("expected the message back on backpressure"),
    }
    assert_eq!(root.actor.msg_recv.mailbox.len(), MAILBOX_CAPACITY);
}

#[test]
fn send_polls_pending_on_backpressure() {
    let mut root: RootActor<Probe> = RootActor::new(Probe);
    for i in 0..MAILBOX_CAPACITY {
        match root.mailbox.send(&mut root.actor, MailboxEntry::Mut(i as u32)) {
            SendPoll::Sent => {}
            SendPoll::Pending(_) => panic!("capacity not yet reached"),
        }
    }
    match root.mailbox.send(&mut root.actor, MailboxEntry::Mut(7)) {
        SendPoll::Pending(MailboxEntry::Mut(m)) => assert_eq!(m, 7),
        _ => panic!("expected the send future to stay pending"),
    }
}

#[test]
fn send_on_dead_actor_never_fails() {
    // complete the actor by orphaning it, then send: no observable error
    let mut root: RootActor<Probe> = RootActor::new(Probe);
    root.actor.msg_recv.kill.send();
    assert!(matches!(root.actor.poll_dispatch(), DispatchStep::Complete));
    assert!(root.actor.completed);

    let r = root.mailbox.send_now(&mut root.actor, MailboxEntry::Mut(1));
    assert!(r.is_ok(), "a dead actor swallows the message silently");
    match root.mailbox.send(&mut root.actor, MailboxEntry::Mut(2)) {
        SendPoll::Sent => {}
        SendPoll::Pending(_) => panic!("a dead actor resolves the send future"),
    }
    // the messages were dropped, not delivered
    assert_eq!(root.actor.msg_recv.mailbox.len(), 0);
    assert!(root.mailbox.is_closed(&root.actor));
}

#[test]
fn is_closed_reports_liveness() {
    let mut root: RootActor<Probe> = RootActor::new(Probe);
    assert!(!root.mailbox.is_closed(&root.actor));
    root.actor.msg_recv.kill.send();
    assert!(matches!(root.actor.poll_dispatch(), DispatchStep::Complete));
    assert!(root.mailbox.is_closed(&root.actor));
}

#[test]
fn clone_and_drop_track_ownership() {
    let mut root: RootActor<Probe> = RootActor::new(Probe);
    assert_eq!(root.actor.msg_recv.mailbox_senders, 1);
    assert_eq!(root.actor.msg_recv.kill.owners, 1);

    let clone = root.mailbox.clone_handle(&mut root.actor);
    assert_eq!(root.actor.msg_recv.mailbox_senders, 2);
    assert_eq!(root.actor.msg_recv.kill.owners, 2);

    clone.drop_handle(&mut root.actor);
    assert_eq!(root.actor.msg_recv.mailbox_senders, 1);
    assert_eq!(root.actor.msg_recv.kill.owners, 1);
    assert!(!root.actor.msg_recv.kill.fired, "one owner still lives");
}

#[test]
fn downgraded_mailbox_does_not_keep_the_actor_alive() {
    let mut root: RootActor<Probe> = RootActor::new(Probe);
    let clone = root.mailbox.clone_handle(&mut root.actor);
    let weak = clone.downgrade(&mut root.actor);
    assert_eq!(root.actor.msg_recv.kill.owners, 1);
    assert_eq!(root.actor.msg_recv.mailbox_senders, 2);

    // a weak mailbox still sends
    assert!(weak.send_now(&mut root.actor, MailboxEntry::Mut(3)).is_ok());
    assert_eq!(root.actor.msg_recv.mailbox.len(), 1);

    // dropping it costs no drop-signal owner
    weak.drop_handle(&mut root.actor);
    assert_eq!(root.actor.msg_recv.kill.owners, 1);
    assert!(!root.actor.msg_recv.kill.fired);
}

#[test]
fn mailbox_handle_is_weak() {
    let mut root: RootActor<Probe> = RootActor::new(Probe);
    let weak = root.mailbox_handle();
    assert_eq!(root.actor.msg_recv.kill.owners, 1);
    assert_eq!(root.actor.msg_recv.mailbox_senders, 2);
    assert!(weak.send_now(&mut root.actor, MailboxEntry::Mut(4)).is_ok());
}
