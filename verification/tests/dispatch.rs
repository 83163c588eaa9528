//! Scenario tests for the dispatch protocol.

use reflex::dispatch::DispatchStep;
use reflex::internal::{
    apply_release_mode, create_actor, may_access, resync_status, ActorAccessStatus, ReleaseMode,
};
use reflex::msg_union::{MailboxEntry, MessageTypeUnion};
use reflex::queue::MsgQueueEntry;
use reflex::Actor;

struct Union;

impl MessageTypeUnion for Union {
    type SharedUnion = u32;
    type MutUnion = u32;
}

struct Counter {
    seen: Vec<u32>,
}

impl Actor for Counter {
    type Message = Union;
    type End = u32;
    type SubordinateEnd = u32;
}

fn shared_batch(msgs: &[u32]) -> MailboxEntry<Union> {
    MailboxEntry::Shared(msgs.to_vec())
}

#[test]
fn simple_round_trip() {
    // shared-batch [A, B, C], then exclusive [D]: handlers see A, B, C in
    // order, the status passes Shared -> Available -> Exclusive
    let mut state = create_actor(Counter { seen: Vec::new() });
    state.msg_recv.push_mailbox(shared_batch(&[1, 2, 3]));
    state.msg_recv.push_mailbox(MailboxEntry::Mut(4));

    let step = state.poll_dispatch();
    let guards = match step {
        DispatchStep::SharedBatch(v) => v,
        _ => panic!("expected a shared batch"),
    };
    let order: Vec<u32> = guards.iter().map(|p| p.1).collect();
    assert_eq!(order, vec![1, 2, 3]);
    assert_eq!(state.access_status, ActorAccessStatus::Shared);
    assert_eq!(state.shared.access_count, 3);

    // the exclusive message cannot begin while the batch is out
    assert!(matches!(state.poll_dispatch(), DispatchStep::Blocked));

    let mut woke = false;
    for (guard, msg) in guards {
        assert!(guard.user_ref(&state).seen.is_empty());
        assert!(msg >= 1 && msg <= 3);
        woke = guard.release(&mut state);
    }
    assert!(woke, "the last release wakes the dispatcher");
    assert_eq!(state.shared.access_count, 0);

    let step = state.poll_dispatch();
    match step {
        DispatchStep::Exclusive(guard, msg) => {
            assert_eq!(msg, 4);
            assert_eq!(state.access_status, ActorAccessStatus::Exclusive);
            assert_eq!(state.shared.access_count, 1);
            guard.user_mut(&mut state).seen.push(msg);
            guard.release(&mut state);
        }
        _ => panic!("expected the exclusive message"),
    }

    // nothing further: blocked, with the status resynchronised to Available
    assert!(matches!(state.poll_dispatch(), DispatchStep::Blocked));
    assert_eq!(state.access_status, ActorAccessStatus::Available);
}

#[test]
fn blocked_exclusive() {
    // a held shared guard blocks an exclusive message until it releases
    let mut state = create_actor(Counter { seen: Vec::new() });
    state.msg_recv.push_mailbox(shared_batch(&[7]));
    state.msg_recv.push_mailbox(MailboxEntry::Mut(8));

    let mut guards = match state.poll_dispatch() {
        DispatchStep::SharedBatch(v) => v,
        _ => panic!("expected a shared batch"),
    };
    // the handler moved its guard elsewhere; B stays blocked
    assert!(matches!(state.poll_dispatch(), DispatchStep::Blocked));
    assert!(matches!(state.poll_dispatch(), DispatchStep::Blocked));
    assert_eq!(state.shared.access_count, 1);

    // the guard drops on the other thread: counter 0, dispatcher wakes,
    // resynchronises to Available, and admits B
    let (guard, _msg) = guards.pop().unwrap();
    assert!(guard.release(&mut state));
    match state.poll_dispatch() {
        DispatchStep::Exclusive(guard, msg) => {
            assert_eq!(msg, 8);
            assert_eq!(state.access_status, ActorAccessStatus::Exclusive);
            guard.release(&mut state);
        }
        _ => panic!("expected the exclusive message"),
    }
}

#[test]
fn downgrade_under_load() {
    // exclusive [X]; X's handler downgrades its guard; shared [Y, Z] are
    // then admitted while the downgraded guard is still held
    let mut state = create_actor(Counter { seen: Vec::new() });
    state.msg_recv.push_mailbox(MailboxEntry::Mut(10));

    let guard = match state.poll_dispatch() {
        DispatchStep::Exclusive(g, _) => g,
        _ => panic!("expected the exclusive message"),
    };
    assert_eq!(state.access_status, ActorAccessStatus::Exclusive);
    state.msg_recv.push_mailbox(shared_batch(&[11, 12]));

    // still exclusive: the batch must wait
    assert!(matches!(state.poll_dispatch(), DispatchStep::Blocked));

    let downgraded = guard.downgrade(&mut state);
    assert_eq!(state.shared.release_mode, ReleaseMode::Downgrade);
    assert_eq!(state.shared.access_count, 1, "the counter never touches 0");

    // on the next poll the dispatcher applies the downgrade and admits the
    // batch concurrently with the downgraded guard
    let guards = match state.poll_dispatch() {
        DispatchStep::SharedBatch(v) => v,
        _ => panic!("expected the shared batch after the downgrade"),
    };
    assert_eq!(state.access_status, ActorAccessStatus::Shared);
    assert_eq!(state.shared.access_count, 3);
    assert_eq!(state.shared.release_mode, ReleaseMode::Normal);

    for (g, _) in guards {
        g.release(&mut state);
    }
    assert!(downgraded.release(&mut state));
    assert_eq!(state.shared.access_count, 0);
}

#[test]
fn delete_is_terminal() {
    // exclusive [K] whose handler deletes with end value E: the user value
    // moves out, the end is sent once, and no handler runs afterwards
    let mut state = create_actor(Counter { seen: vec![99] });
    state.msg_recv.push_mailbox(MailboxEntry::Mut(20));
    state.msg_recv.push_mailbox(shared_batch(&[21]));

    let guard = match state.poll_dispatch() {
        DispatchStep::Exclusive(g, _) => g,
        _ => panic!("expected the exclusive message"),
    };
    let user = guard.delete(&mut state, 500);
    assert_eq!(user.seen, vec![99]);
    assert!(state.shared.user_state.is_none());
    assert_eq!(state.shared.release_mode, ReleaseMode::Delete);
    assert_eq!(state.shared.access_count, 0);
    assert_eq!(state.shared.end_outbox, vec![500]);

    // the queued shared batch is never begun: the dispatcher observes the
    // delete and completes
    let step = state.poll_dispatch();
    assert!(matches!(step, DispatchStep::Complete));
    assert!(state.completed);
}

#[test]
fn empty_shared_batch_mints_no_guard() {
    let mut state = create_actor(Counter { seen: Vec::new() });
    state.msg_recv.push_mailbox(MailboxEntry::Shared(Vec::new()));
    match state.poll_dispatch() {
        DispatchStep::SharedBatch(v) => assert!(v.is_empty()),
        _ => panic!("expected an empty shared batch"),
    }
    assert_eq!(state.shared.access_count, 0);
    assert_eq!(state.access_status, ActorAccessStatus::Available);
}

#[test]
fn held_back_message_is_not_reordered() {
    // an incompatible message parks in the held-back slot and goes first
    // once compatible, ahead of newer queue entries
    let mut state = create_actor(Counter { seen: Vec::new() });
    state.msg_recv.push_mailbox(shared_batch(&[1]));
    state.msg_recv.push_mailbox(MailboxEntry::Mut(2));

    let mut guards = match state.poll_dispatch() {
        DispatchStep::SharedBatch(v) => v,
        _ => panic!("expected a shared batch"),
    };
    assert!(matches!(state.poll_dispatch(), DispatchStep::Blocked));
    assert!(matches!(
        state.curr_msg,
        Some(MsgQueueEntry::MailboxEntry(MailboxEntry::Mut(2)))
    ));
    state.msg_recv.push_mailbox(MailboxEntry::Mut(3));
    guards.pop().unwrap().0.release(&mut state);

    match state.poll_dispatch() {
        DispatchStep::Exclusive(g, msg) => {
            assert_eq!(msg, 2);
            g.release(&mut state);
        }
        _ => panic!("expected the held-back message first"),
    }
    match state.poll_dispatch() {
        DispatchStep::Exclusive(g, msg) => {
            assert_eq!(msg, 3);
            g.release(&mut state);
        }
        _ => panic!("expected the newer message second"),
    }
}

#[test]
fn compatibility_table() {
    // the dispatcher's step-D table, case by case
    assert!(may_access(true, ActorAccessStatus::Available));
    assert!(may_access(true, ActorAccessStatus::Shared));
    assert!(!may_access(true, ActorAccessStatus::Exclusive));
    assert!(may_access(false, ActorAccessStatus::Available));
    assert!(!may_access(false, ActorAccessStatus::Shared));
    assert!(!may_access(false, ActorAccessStatus::Exclusive));
}

#[test]
fn release_mode_application() {
    let (st, term) = apply_release_mode(ActorAccessStatus::Exclusive, ReleaseMode::Normal);
    assert_eq!((st, term), (ActorAccessStatus::Exclusive, false));
    let (st, term) = apply_release_mode(ActorAccessStatus::Exclusive, ReleaseMode::Downgrade);
    assert_eq!((st, term), (ActorAccessStatus::Shared, false));
    let (st, term) = apply_release_mode(ActorAccessStatus::Available, ReleaseMode::Downgrade);
    assert_eq!((st, term), (ActorAccessStatus::Available, false));
    let (st, term) = apply_release_mode(ActorAccessStatus::Available, ReleaseMode::Delete);
    assert!(term);
    assert_eq!(st, ActorAccessStatus::Available);

    assert_eq!(
        resync_status(ActorAccessStatus::Shared, 0),
        ActorAccessStatus::Available
    );
    assert_eq!(
        resync_status(ActorAccessStatus::Shared, 2),
        ActorAccessStatus::Shared
    );
}

#[test]
fn cloned_shared_guard_holds_access() {
    let mut state = create_actor(Counter { seen: Vec::new() });
    state.msg_recv.push_mailbox(shared_batch(&[5]));
    let mut guards = match state.poll_dispatch() {
        DispatchStep::SharedBatch(v) => v,
        _ => panic!("expected a shared batch"),
    };
    let (g1, _) = guards.pop().unwrap();
    let g2 = g1.clone_guard(&mut state);
    assert_eq!(state.shared.access_count, 2);
    assert!(!g1.release(&mut state));
    assert_eq!(state.shared.access_count, 1);
    assert!(g2.release(&mut state));
    assert_eq!(state.shared.access_count, 0);
}

struct Foo;

impl Actor for Foo {
    type Message = ();
    type End = ();
    type SubordinateEnd = ();
}

#[test]
fn test_a() {
    // very simple use test of internal dispatching: a shared batch of three
    // unit messages, then one exclusive unit message
    let mut state = create_actor(Foo);
    state
        .msg_recv
        .push_mailbox(MailboxEntry::Shared(vec![(), (), ()]));
    state.msg_recv.push_mailbox(MailboxEntry::Mut(()));

    match state.poll_dispatch() {
        DispatchStep::SharedBatch(guards) => {
            assert_eq!(guards.len(), 3);
            for (guard, ()) in guards {
                guard.release(&mut state);
            }
        }
        _ => panic!("expected the shared batch"),
    }
    match state.poll_dispatch() {
        DispatchStep::Exclusive(guard, ()) => {
            guard.release(&mut state);
        }
        _ => panic!("expected the exclusive message"),
    }
    assert!(matches!(state.poll_dispatch(), DispatchStep::Blocked));
}

#[test]
fn delete_proceeds_without_an_end_receiver() {
    // nobody listens for the end value any more: the send is dropped, the
    // deletion still goes through
    let mut state = create_actor(Counter { seen: Vec::new() });
    state.close_end_receiver();
    state.msg_recv.push_mailbox(MailboxEntry::Mut(1));
    let guard = match state.poll_dispatch() {
        DispatchStep::Exclusive(g, _) => g,
        _ => panic!("expected the exclusive message"),
    };
    let _user = guard.delete(&mut state, 900);
    assert!(state.shared.end_outbox.is_empty(), "the end value went nowhere");
    assert_eq!(state.shared.release_mode, ReleaseMode::Delete);
}

#[test]
fn delete_with_an_empty_queue_completes_on_the_next_event() {
    // the dispatcher observes a delete only when something wakes it with a
    // message or the queue terminates; meanwhile no handler ever runs
    let mut state = create_actor(Counter { seen: Vec::new() });
    state.msg_recv.push_mailbox(MailboxEntry::Mut(1));
    let guard = match state.poll_dispatch() {
        DispatchStep::Exclusive(g, _) => g,
        _ => panic!("expected the exclusive message"),
    };
    let _user = guard.delete(&mut state, 901);

    // queue empty: the task just suspends, still delete-pending
    assert!(matches!(state.poll_dispatch(), DispatchStep::Blocked));
    assert!(!state.completed);
    assert_eq!(state.shared.release_mode, ReleaseMode::Delete);

    // the owners go away: the kill signal terminates the task
    state.msg_recv.kill.drop_owner();
    assert!(matches!(state.poll_dispatch(), DispatchStep::Complete));
    assert!(state.completed);
}
