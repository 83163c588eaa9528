//! Lifecycle tests: root resolution, orphaning, delete through the root,
//! and supervisor/subordinate termination.

use reflex::dispatch::DispatchStep;
use reflex::manage::{AbnormalClose, IntoResult, RootActor, RootPoll};
use reflex::msg_union::{MailboxEntry, MessageTypeUnion};
use reflex::internal::create_actor_using_mailbox;
use reflex::supervise::{create_subordinate, create_subordinate_socket, deliver_subordinate_ends};
use reflex::Actor;

struct Union;

impl MessageTypeUnion for Union {
    type SharedUnion = u32;
    type MutUnion = u32;
}

struct Root {
    tally: u32,
}

impl Actor for Root {
    type Message = Union;
    type End = Result<u32, AbnormalClose>;
    type SubordinateEnd = u32;
}

struct Child;

impl Actor for Child {
    type Message = Union;
    type End = u32;
    type SubordinateEnd = u32;
}

#[test]
fn root_resolves_to_the_end_value() {
    // delete with end value E: the root future yields Ok(E) exactly once
    let mut root: RootActor<Root> = RootActor::new(Root { tally: 0 });
    root.mailbox
        .send_now(&mut root.actor, MailboxEntry::Mut(5))
        .ok().unwrap();

    let end_value: Result<u32, AbnormalClose> = Ok(41);
    match root.poll() {
        RootPoll::Dispatch(DispatchStep::Exclusive(guard, msg)) => {
            assert_eq!(msg, 5);
            let user = guard.delete(&mut root.actor, end_value);
            assert_eq!(user.tally, 0);
        }
        _ => panic!("expected the exclusive message through the root"),
    }
    match root.poll() {
        RootPoll::Ready(res) => assert_eq!(res, Ok(41)),
        _ => panic!("expected the end value"),
    }
    // exactly once: the channel holds nothing further
    assert!(matches!(root.poll(), RootPoll::Pending) || root.actor.completed);

    // any further mailbox send is silently dropped once the actor completes
    root.actor.msg_recv.push_mailbox(MailboxEntry::Mut(6));
    match root.poll() {
        RootPoll::Dispatch(_) => panic!("no handler runs after a delete"),
        _ => {}
    }
    assert!(root.actor.completed);
    assert!(root
        .mailbox
        .send_now(&mut root.actor, MailboxEntry::Mut(7))
        .is_ok());
}

#[test]
fn orphaned_root_closes_abnormally() {
    // all owning mailboxes gone: the kill signal fires, the dispatcher
    // terminates promptly without draining pending mail, and the root
    // resolves to an abnormal close
    let mut root: RootActor<Root> = RootActor::new(Root { tally: 0 });
    root.mailbox
        .send_now(&mut root.actor, MailboxEntry::Mut(1))
        .ok().unwrap();
    root.mailbox
        .send_now(&mut root.actor, MailboxEntry::Mut(2))
        .ok().unwrap();

    // the root's owned mailbox and every clone go away
    root.actor.msg_recv.drop_mailbox_sender();
    root.actor.msg_recv.kill.drop_owner();

    match root.poll() {
        RootPoll::AbnormallyClosed => {}
        _ => panic!("expected an abnormal close"),
    }
    assert!(root.actor.completed);
    assert_eq!(
        root.actor.msg_recv.mailbox.len(),
        2,
        "pending mail is dropped, not processed"
    );
    assert_eq!(AbnormalClose.message(), "future abnormally closed");
}

#[test]
fn subordinate_end_reaches_the_supervisor_first() {
    // supervisor S creates subordinate T; T deletes itself with end ET;
    // S receives ET before any later mailbox message, under a mut guard
    let mut root: RootActor<Root> = RootActor::new(Root { tally: 0 });
    let (mut sub, sub_mailbox) = create_subordinate::<Root, Child>(&mut root.actor, Child);
    assert_eq!(root.actor.msg_recv.sub_senders, 2);

    sub_mailbox
        .send_now(&mut sub.actor, MailboxEntry::Mut(9))
        .ok().unwrap();
    match sub.poll() {
        DispatchStep::Exclusive(guard, msg) => {
            assert_eq!(msg, 9);
            let _child = guard.delete(&mut sub.actor, 123);
        }
        _ => panic!("expected the subordinate's exclusive message"),
    }
    // the cloned subordinate-end sender carries ET to the supervisor
    deliver_subordinate_ends(&mut sub.actor, &mut root.actor);
    assert_eq!(root.actor.msg_recv.sub_ends, vec![123]);

    // ordinary mail arrives afterwards; the notification still goes first
    root.mailbox
        .send_now(&mut root.actor, MailboxEntry::Mut(50))
        .ok().unwrap();
    match root.poll() {
        RootPoll::Dispatch(DispatchStep::SubordinateEnd(guard, end)) => {
            assert_eq!(end, 123);
            guard.user_mut(&mut root.actor).tally = end;
            guard.release(&mut root.actor);
        }
        _ => panic!("expected the subordinate-end notification first"),
    }
    match root.poll() {
        RootPoll::Dispatch(DispatchStep::Exclusive(guard, msg)) => {
            assert_eq!(msg, 50);
            assert_eq!(guard.user_mut(&mut root.actor).tally, 123);
            guard.release(&mut root.actor);
        }
        _ => panic!("expected the mailbox message second"),
    }
}

#[test]
fn socket_wires_a_late_subordinate() {
    let mut root: RootActor<Root> = RootActor::new(Root { tally: 0 });
    let (socket, mailbox) = create_subordinate_socket::<Root, Child>(&mut root.actor);
    assert_eq!(root.actor.msg_recv.sub_senders, 2);

    let mut sub_state = create_actor_using_mailbox(Child, socket.msg_recv);
    mailbox
        .send_now(&mut sub_state, MailboxEntry::Mut(70))
        .ok().unwrap();
    match sub_state.poll_dispatch() {
        DispatchStep::Exclusive(guard, msg) => {
            assert_eq!(msg, 70);
            guard.release(&mut sub_state);
        }
        _ => panic!("expected the late subordinate's message"),
    }
}

#[test]
fn into_result_is_identity_on_results() {
    let ok: Result<u32, AbnormalClose> = Ok(3);
    assert_eq!(ok.into_result(), Ok(3));
    let err: Result<u32, AbnormalClose> = Err(AbnormalClose);
    assert_eq!(err.into_result(), Err(AbnormalClose));
}

#[test]
fn abnormal_close_is_latched() {
    // once the root reports an abnormal close, every further poll does too:
    // completion is preserved and no end value ever appears
    let mut root: RootActor<Root> = RootActor::new(Root { tally: 0 });
    root.actor.msg_recv.drop_mailbox_sender();
    root.actor.msg_recv.kill.drop_owner();
    assert!(matches!(root.poll(), RootPoll::AbnormallyClosed));
    assert!(matches!(root.poll(), RootPoll::AbnormallyClosed));
    assert!(root.actor.completed);
}
