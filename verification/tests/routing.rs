use maviola::routing::{BroadcastScope, ChannelId, ConnectionId, OutgoingFrame};
use maviola::unique_id::UniqueId;

fn conn(raw: u64) -> ConnectionId {
    ConnectionId::new(UniqueId::new(raw))
}

fn chan(connection: ConnectionId, raw: u64) -> ChannelId {
    ChannelId::new(connection, UniqueId::new(raw))
}

#[test]
fn channel_belongs_to_its_connection() {
    let c1 = conn(1);
    let c2 = conn(2);
    let ch = chan(c1, 10);
    assert!(c1.contains(&ch));
    assert!(!c2.contains(&ch));
    assert!(ch.belongs_to(&c1));
    assert!(!ch.belongs_to(&c2));
    assert_eq!(*ch.connection_id(), c1);
}

#[test]
fn scope_all_sends_everywhere() {
    let frame = OutgoingFrame::new("frame");
    assert_eq!(*frame.scope(), BroadcastScope::All);
    assert_eq!(*frame.frame(), "frame");
    assert!(frame.should_send_to(&chan(conn(1), 1)));
    assert!(frame.should_send_to(&chan(conn(2), 2)));
}

#[test]
fn exact_and_except_channel() {
    let c = conn(1);
    let a = chan(c, 1);
    let b = chan(c, 2);
    let exact = OutgoingFrame::scoped(0u8, BroadcastScope::ExactChannel(a));
    assert!(exact.should_send_to(&a));
    assert!(!exact.should_send_to(&b));
    let except = OutgoingFrame::scoped(0u8, BroadcastScope::ExceptChannel(a));
    assert!(!except.should_send_to(&a));
    assert!(except.should_send_to(&b));
}

#[test]
fn except_channel_within_stays_in_connection() {
    let c1 = conn(1);
    let c2 = conn(2);
    let sender = chan(c1, 1);
    let sibling = chan(c1, 2);
    let stranger = chan(c2, 3);
    let frame = OutgoingFrame::scoped((), BroadcastScope::ExceptChannelWithin(sender));
    assert!(!frame.should_send_to(&sender));
    assert!(frame.should_send_to(&sibling));
    assert!(!frame.should_send_to(&stranger));
}

#[test]
fn exact_and_except_connection() {
    let c1 = conn(1);
    let c2 = conn(2);
    let a = chan(c1, 1);
    let b = chan(c2, 2);
    let exact = OutgoingFrame::scoped((), BroadcastScope::ExactConnection(c1));
    assert!(exact.should_send_to(&a));
    assert!(!exact.should_send_to(&b));
    let except = OutgoingFrame::scoped((), BroadcastScope::ExceptConnection(c1));
    assert!(!except.should_send_to(&a));
    assert!(except.should_send_to(&b));
}

#[test]
fn reroute_follows_documented_rules() {
    let c1 = conn(1);
    let c2 = conn(2);

    let mut frame = OutgoingFrame::scoped((), BroadcastScope::ExceptConnection(c1));
    assert!(!frame.matches_connection_reroute(&c1));
    assert_eq!(*frame.scope(), BroadcastScope::ExceptConnection(c1));
    assert!(frame.matches_connection_reroute(&c2));

    let mut frame = OutgoingFrame::scoped((), BroadcastScope::ExactConnection(c1));
    assert!(frame.matches_connection_reroute(&c2));
    assert_eq!(*frame.scope(), BroadcastScope::ExactConnection(c1));
    assert!(frame.matches_connection_reroute(&c1));
    assert_eq!(*frame.scope(), BroadcastScope::All);

    let mut frame = OutgoingFrame::new(());
    assert!(frame.matches_connection_reroute(&c1));
    assert_eq!(*frame.scope(), BroadcastScope::All);
}

#[test]
fn set_scope_and_clone_keep_frame() {
    let mut frame = OutgoingFrame::new(vec![1u8, 2, 3]);
    let c = conn(7);
    frame.set_scope(BroadcastScope::ExactConnection(c));
    let copy = frame.clone();
    assert_eq!(*copy.scope(), BroadcastScope::ExactConnection(c));
    assert_eq!(copy.frame(), &vec![1u8, 2, 3]);
    assert_eq!(copy.into_frame(), vec![1u8, 2, 3]);
}

#[test]
fn default_scope_is_all() {
    assert_eq!(BroadcastScope::default(), BroadcastScope::All);
}
