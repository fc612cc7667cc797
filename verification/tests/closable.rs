use std::sync::Arc;

use maviola::closable::{Closable, Closed, Closer, SharedCloser, WillClose};

#[test]
fn closer_state_is_passing() {
    let mut closer = Closer::new();

    assert!(!closer.is_closed());

    let closable_1 = closer.to_closable();
    let closable_2 = closer.to_closable();

    assert!(!closable_1.is_closed());
    assert!(!closable_2.is_closed());

    closer.close();

    assert!(closer.is_closed());
    assert!(closable_1.is_closed());
    assert!(closable_2.is_closed());
}

#[test]
fn closer_drop_means_closed() {
    let closer = Closer::new();

    let closable_1 = closer.to_closable();
    let closable_2 = closer.to_closable();

    drop(closer);

    assert!(closable_1.is_closed());
    assert!(closable_2.is_closed());
}

#[test]
fn closer_arc_drop_mechanics() {
    let closer_1 = Arc::new(Closer::new());
    let closer_2 = closer_1.clone();

    let closable_1 = closer_1.to_closable();
    let closable_2 = closer_2.to_closable();

    drop(closer_1);

    assert!(!closable_2.is_closed());
    assert!(!closable_1.is_closed());
    assert!(!closable_2.is_closed());

    drop(closer_2);

    assert!(closable_1.is_closed());
    assert!(closable_2.is_closed());
}

#[test]
fn dependent_shared_closers_may_trigger_close() {
    let closer = Closer::new();

    let shared_closer = closer.to_shared();
    drop(shared_closer);

    assert!(closer.is_closed());
}

#[test]
fn shared_closers_behave_as_arc_closers() {
    let shared_closer = SharedCloser::new();

    let mut other_shared_closers = Vec::new();
    for _ in 0..100 {
        other_shared_closers.push(shared_closer.clone())
    }

    let closable_1 = shared_closer.to_closable();
    let closable_2 = closable_1.clone();

    for _ in 0..100 {
        other_shared_closers.pop();

        assert!(!shared_closer.is_closed());
        assert!(!closable_1.is_closed());
        assert!(!closable_2.is_closed());
    }

    drop(shared_closer);

    assert!(closable_1.is_closed());
    assert!(closable_2.is_closed());
}

#[test]
fn dependent_shared_closers_can_be_discarded() {
    let closer = Closer::new();
    closer.to_shared().discard();
    assert!(!closer.is_closed());
}

#[test]
fn drop_after_discard() {
    let closer = Closer::new();

    let shared_closer_1 = closer.to_shared();
    let shared_closer_2 = shared_closer_1.clone();

    shared_closer_1.discard();
    drop(shared_closer_2);

    assert!(closer.is_closed());
}

#[test]
fn discard_after_drop() {
    let closer = Closer::new();

    let shared_closer_1 = closer.to_shared();
    let shared_closer_2 = shared_closer_1.clone();

    drop(shared_closer_1);
    shared_closer_2.discard();

    assert!(!closer.is_closed());
}

#[test]
fn standalone_discard_closes() {
    let shared_closer = SharedCloser::new();
    let closable = shared_closer.to_closable();

    shared_closer.discard();
    assert!(closable.is_closed());
}

#[test]
fn closed_is_always_closed() {
    let closed = Closed;
    assert!(closed.is_closed());
    assert!(WillClose::is_closed(&closed));
    let closable: Closable = closed.to_closable();
    assert!(closable.is_closed());
}

#[test]
fn into_shared_keeps_state_open() {
    let closer = Closer::new();
    let closable = closer.to_closable();
    let shared = closer.into_shared();
    assert!(!closable.is_closed());
    assert!(!shared.is_closed());
    drop(shared);
    assert!(closable.is_closed());
}

#[test]
fn closing_shared_closer_closes_closables() {
    let mut shared = SharedCloser::default();
    let copy = shared.clone();
    let closable = copy.to_closable();
    shared.close();
    assert!(closable.is_closed());
    assert!(copy.is_closed());
}
