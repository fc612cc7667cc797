use maviola::closable::{Closer, SharedCloser};
use maviola::flipper::{Guarded, Switch};

#[test]
fn basic_switch_workflow() {
    let switch = Guarded::new();
    assert!(!switch.is());

    let switch = Guarded::new().up();
    assert!(switch.is());

    let mut switch = Guarded::new();
    switch.set(true);
    assert!(switch.is());
    switch.set(false);
    assert!(!switch.is());

    let switch = Guarded::new().up();
    let watcher = switch.to_watcher();

    assert!(watcher.is());
    drop(switch);
    assert!(!watcher.is());
}

#[test]
fn shared_switch_workflow() {
    let mut switch = Guarded::new();
    let mut shared_switch = switch.to_shared();

    assert!(!shared_switch.is());

    switch.set(true);
    assert!(switch.is());
    assert!(shared_switch.is());

    shared_switch.set(false);
    assert!(!switch.is());
    assert!(!shared_switch.is());

    let switch = Guarded::new().up();
    let shared_switch = switch.to_shared();
    drop(switch);
    assert!(!shared_switch.is());

    let switch = Guarded::new().up();
    let shared_switch = switch.to_shared();
    drop(shared_switch);
    assert!(!switch.is());
}

#[test]
fn state_between_shared_switches_is_shared() {
    let shared_switch_1 = Guarded::shared();
    let mut shared_switch_2 = shared_switch_1.clone();

    assert!(!shared_switch_1.is_closed());
    assert!(!shared_switch_2.is_closed());

    shared_switch_2.set(true);
    assert!(shared_switch_2.is());
    assert!(shared_switch_1.is());
}

#[test]
fn to_shared_switch_discard() {
    let switch = Guarded::new().up();
    switch.to_shared().discard();
    assert!(switch.is());

    let switch = Guarded::new().up();
    _ = switch.to_shared();
    assert!(!switch.is());
}

#[test]
fn test_shared_flags() {
    let mut switch = Guarded::new();
    let flag = switch.to_flag();

    switch.set(true);
    assert!(flag.is());

    drop(flag);
    assert!(switch.is_closed());

    let switch = Guarded::new();
    let flag = switch.to_flag();

    drop(switch);
    assert!(flag.is_closed());
}

#[test]
fn test_watcher_flags() {
    let mut switch = Guarded::new();
    let flag = switch.to_watcher();

    switch.set(true);
    assert!(flag.is());

    drop(switch);
    assert!(flag.is_closed());
    assert!(!flag.is());
}

#[test]
fn closed_switch_cannot_be_set() {
    let mut switch = Guarded::new();
    switch.close();
    switch.set(true);
    assert!(!switch.is());
    assert!(switch.is_closed());
}

#[test]
fn switch_from_closer_follows_the_closer() {
    let closer = Closer::new();
    let mut switch: Guarded<SharedCloser, Switch> = Guarded::from(&closer);
    switch.set(true);
    assert!(switch.is());
    drop(closer);
    assert!(!switch.is());
    assert!(switch.is_closed());
}

#[test]
fn switch_from_shared_closer_value() {
    let shared = SharedCloser::new();
    let mut switch: Guarded<SharedCloser, Switch> = Guarded::from(shared);
    switch.set(true);
    assert!(switch.is());
    let copy = switch.clone();
    drop(switch);
    assert!(copy.is());
    drop(copy);
}

#[test]
fn default_switch_is_off() {
    let switch: Guarded<Closer, Switch> = Guarded::default();
    assert!(!switch.is());
    assert!(!switch.is_closed());
}
