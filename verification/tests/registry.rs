use mailbox_relay::mailbox::{Mailbox, CAPACITY};
use mailbox_relay::registry::{new_state, MailboxState, RoleConflict};
use mailbox_relay::role::Role;

#[test]
fn new_state_is_empty() {
    let state = new_state();
    assert_eq!(state.len(), 0);
    assert!(!state.contains("abc"));
    assert!(state.get("abc").is_none());
    // a claim on an unknown identifier would succeed: the record is made for it
    assert!(state.is_claimable("abc", Role::Initiator));
    assert!(state.is_claimable("abc", Role::Responder));
}

#[test]
fn new_and_new_state_agree() {
    assert_eq!(MailboxState::new().len(), new_state().len());
}

#[test]
fn capacity_is_thirty_two() {
    assert_eq!(CAPACITY, 32);
}

#[test]
fn get_or_create_creates_once() {
    let mut state = new_state();
    assert!(state.get_or_create("abc"));
    assert!(!state.get_or_create("abc"));
    assert_eq!(state.len(), 1);
    assert!(state.contains("abc"));
    let record = state.get("abc").unwrap();
    assert!(record.fwd_producer.is_some());
    assert!(record.fwd_consumer.is_some());
    assert!(record.rev_producer.is_some());
    assert!(record.rev_consumer.is_some());
}

#[test]
fn fresh_record_queues_hold_thirty_two() {
    let mut state = new_state();
    state.get_or_create("abc");
    let record = state.get("abc").unwrap();
    assert_eq!(record.fwd_producer.as_ref().unwrap().max_capacity(), 32);
    assert_eq!(record.fwd_consumer.as_ref().unwrap().max_capacity(), 32);
    assert_eq!(record.rev_producer.as_ref().unwrap().max_capacity(), 32);
    assert_eq!(record.rev_consumer.as_ref().unwrap().max_capacity(), 32);
}

#[test]
fn opened_mailbox_is_fresh() {
    let mailbox = Mailbox::open();
    assert!(mailbox.is_available(Role::Initiator));
    assert!(mailbox.is_available(Role::Responder));
    assert_eq!(mailbox.fwd_producer.as_ref().unwrap().max_capacity(), CAPACITY);
    assert_eq!(mailbox.rev_consumer.as_ref().unwrap().max_capacity(), CAPACITY);
}

#[test]
fn vacant_mailbox_holds_nothing() {
    let mut mailbox = Mailbox::vacant();
    assert!(mailbox.fwd_producer.is_none());
    assert!(mailbox.fwd_consumer.is_none());
    assert!(mailbox.rev_producer.is_none());
    assert!(mailbox.rev_consumer.is_none());
    assert!(!mailbox.is_available(Role::Initiator));
    assert!(!mailbox.is_available(Role::Responder));
    assert!(mailbox.claim(Role::Initiator).is_none());
}

#[test]
fn assemble_wires_each_queue_to_both_roles() {
    let fwd = tokio::sync::mpsc::channel::<String>(4);
    let rev = tokio::sync::mpsc::channel::<String>(4);
    let mut mailbox = Mailbox::assemble(fwd, rev);
    let (alice_tx, mut alice_rx) = mailbox.claim(Role::Initiator).unwrap();
    let (bob_tx, mut bob_rx) = mailbox.claim(Role::Responder).unwrap();
    alice_tx.try_send("to bob".to_string()).unwrap();
    bob_tx.try_send("to alice".to_string()).unwrap();
    assert_eq!(bob_rx.try_recv().unwrap(), "to bob");
    assert_eq!(alice_rx.try_recv().unwrap(), "to alice");
    assert!(alice_rx.try_recv().is_err());
    assert!(bob_rx.try_recv().is_err());
}

#[test]
fn claim_empties_only_the_roles_slots() {
    let mut mailbox = Mailbox::open();
    assert!(mailbox.claim(Role::Initiator).is_some());
    assert!(mailbox.fwd_producer.is_none());
    assert!(mailbox.rev_consumer.is_none());
    assert!(mailbox.rev_producer.is_some());
    assert!(mailbox.fwd_consumer.is_some());
    assert!(!mailbox.is_available(Role::Initiator));
    assert!(mailbox.is_available(Role::Responder));
    // a second claim hands out nothing and drops nothing
    assert!(mailbox.claim(Role::Initiator).is_none());
    assert!(mailbox.rev_producer.is_some());
    assert!(mailbox.fwd_consumer.is_some());
}

#[test]
fn claim_with_one_end_missing_drops_nothing() {
    let (tx, _rx) = tokio::sync::mpsc::channel::<String>(1);
    let mut mailbox = Mailbox::vacant();
    mailbox.fwd_producer = Some(tx);
    assert!(mailbox.claim(Role::Initiator).is_none());
    assert!(mailbox.fwd_producer.is_some());
}

#[test]
fn restore_fills_the_roles_slots() {
    let mut mailbox = Mailbox::open();
    let (tx, rx) = mailbox.claim(Role::Responder).unwrap();
    assert!(!mailbox.is_available(Role::Responder));
    mailbox.restore(Role::Responder, tx, rx);
    assert!(mailbox.is_available(Role::Responder));
    assert!(mailbox.rev_producer.is_some());
    assert!(mailbox.fwd_consumer.is_some());
}

#[test]
fn checkout_creates_the_record() {
    let mut state = new_state();
    assert!(state.checkout("abc", Role::Initiator).is_ok());
    assert!(state.contains("abc"));
    assert_eq!(state.len(), 1);
    let record = state.get("abc").unwrap();
    assert!(record.fwd_producer.is_none());
    assert!(record.rev_consumer.is_none());
    assert!(record.rev_producer.is_some());
    assert!(record.fwd_consumer.is_some());
}

#[test]
fn checkout_same_role_twice_is_a_conflict() {
    let mut state = new_state();
    let first = state.checkout("dup", Role::Initiator);
    assert!(first.is_ok());
    assert!(!state.is_claimable("dup", Role::Initiator));
    let second = state.checkout("dup", Role::Initiator);
    assert_eq!(second.unwrap_err(), RoleConflict);
    drop(first);
}

#[test]
fn conflict_changes_nothing() {
    let mut state = new_state();
    let (tx, _rx) = state.checkout("dup", Role::Responder).unwrap();
    assert!(state.checkout("dup", Role::Responder).is_err());
    assert_eq!(state.len(), 1);
    let record = state.get("dup").unwrap();
    // the other role's ends are still there, and still those of the same queues
    assert!(record.fwd_producer.is_some());
    assert!(record.rev_consumer.is_some());
    assert!(record.rev_producer.is_none());
    assert!(record.fwd_consumer.is_none());
    assert!(state.is_claimable("dup", Role::Initiator));
    // the first connection's producer still reaches the initiator's consumer
    tx.try_send("still here".to_string()).unwrap();
    let (_alice_tx, mut alice_rx) = state.checkout("dup", Role::Initiator).unwrap();
    assert_eq!(alice_rx.try_recv().unwrap(), "still here");
}

#[test]
fn both_roles_can_be_claimed() {
    let mut state = new_state();
    let (alice_tx, mut alice_rx) = state.checkout("abc", Role::Initiator).unwrap();
    let (bob_tx, mut bob_rx) = state.checkout("abc", Role::Responder).unwrap();
    assert_eq!(state.len(), 1);
    alice_tx.try_send("hello".to_string()).unwrap();
    assert_eq!(bob_rx.try_recv().unwrap(), "hello");
    bob_tx.try_send("world".to_string()).unwrap();
    assert_eq!(alice_rx.try_recv().unwrap(), "world");
}

#[test]
fn returned_ends_can_be_claimed_again() {
    let mut state = new_state();
    let (tx, rx) = state.checkout("abc", Role::Initiator).unwrap();
    let witness = tx.clone();
    state.return_handles("abc", Role::Initiator, tx, rx);
    assert!(state.is_claimable("abc", Role::Initiator));
    let (again_tx, _again_rx) = state.checkout("abc", Role::Initiator).unwrap();
    assert!(again_tx.same_channel(&witness));
}

#[test]
fn return_then_claim_repeats() {
    let mut state = new_state();
    for _ in 0..5 {
        let (tx, rx) = state.checkout("abc", Role::Responder).unwrap();
        assert!(state.checkout("abc", Role::Responder).is_err());
        state.return_handles("abc", Role::Responder, tx, rx);
    }
    assert_eq!(state.len(), 1);
}

#[test]
fn return_to_unknown_identifier_makes_a_record() {
    let mut state = new_state();
    let (tx, rx) = tokio::sync::mpsc::channel::<String>(2);
    state.return_handles("late", Role::Initiator, tx, rx);
    assert!(state.contains("late"));
    let record = state.get("late").unwrap();
    assert!(record.fwd_producer.is_some());
    assert!(record.rev_consumer.is_some());
    assert!(record.rev_producer.is_none());
    assert!(record.fwd_consumer.is_none());
    assert!(state.is_claimable("late", Role::Initiator));
    assert!(!state.is_claimable("late", Role::Responder));
    assert_eq!(state.checkout("late", Role::Responder).unwrap_err(), RoleConflict);
}

#[test]
fn identifiers_are_isolated() {
    let mut state = new_state();
    let (tx1, _rx1) = state.checkout("one", Role::Initiator).unwrap();
    // a conflict on "one" does not stand in the way of "two"
    assert!(state.checkout("one", Role::Initiator).is_err());
    let (_tx2, _rx2) = state.checkout("two", Role::Initiator).unwrap();
    let (_btx2, mut brx2) = state.checkout("two", Role::Responder).unwrap();
    let (_btx1, mut brx1) = state.checkout("one", Role::Responder).unwrap();
    tx1.try_send("for one".to_string()).unwrap();
    assert!(brx2.try_recv().is_err());
    assert_eq!(brx1.try_recv().unwrap(), "for one");
    assert_eq!(state.len(), 2);
}

#[test]
fn identifiers_differ_by_any_character() {
    let mut state = new_state();
    assert!(state.checkout("abc", Role::Initiator).is_ok());
    assert!(state.checkout("abd", Role::Initiator).is_ok());
    assert!(state.checkout("ab", Role::Initiator).is_ok());
    assert!(state.checkout("", Role::Initiator).is_ok());
    assert!(state.checkout("ABC", Role::Initiator).is_ok());
    assert!(state.checkout("abc", Role::Initiator).is_err());
    assert!(state.checkout("", Role::Initiator).is_err());
    assert_eq!(state.len(), 5);
}

#[test]
fn queue_buffers_up_to_capacity_while_peer_is_away() {
    let mut state = new_state();
    let (tx, _rx) = state.checkout("abc", Role::Initiator).unwrap();
    for i in 0..32 {
        assert!(tx.try_send(format!("m{}", i)).is_ok());
    }
    assert!(tx.try_send("one too many".to_string()).is_err());
    // the responder connects later and finds all of them, in order
    let (_btx, mut brx) = state.checkout("abc", Role::Responder).unwrap();
    for i in 0..32 {
        assert_eq!(brx.try_recv().unwrap(), format!("m{}", i));
    }
    assert!(brx.try_recv().is_err());
}

fn both_or_neither(state: &MailboxState, id: &str) -> bool {
    let record = state.get(id).unwrap();
    record.fwd_producer.is_some() == record.rev_consumer.is_some()
        && record.rev_producer.is_some() == record.fwd_consumer.is_some()
}

#[test]
fn ends_stay_paired() {
    let mut state = new_state();
    state.get_or_create("abc");
    assert!(both_or_neither(&state, "abc"));
    let alice = state.checkout("abc", Role::Initiator).unwrap();
    assert!(both_or_neither(&state, "abc"));
    assert!(state.checkout("abc", Role::Initiator).is_err());
    assert!(both_or_neither(&state, "abc"));
    let bob = state.checkout("abc", Role::Responder).unwrap();
    assert!(both_or_neither(&state, "abc"));
    state.return_handles("abc", Role::Initiator, alice.0, alice.1);
    assert!(both_or_neither(&state, "abc"));
    state.return_handles("other", Role::Responder, bob.0, bob.1);
    assert!(both_or_neither(&state, "abc"));
    assert!(both_or_neither(&state, "other"));
}
