use maviola::callback::{
    broadcast_except_scope, broadcast_scope, broadcast_within_scope, forward_scope,
    respond_scope, send_scope,
};
use maviola::routing::{BroadcastScope, ChannelId, ConnectionId};
use maviola::unique_id::UniqueId;

#[test]
fn callback_scopes_follow_the_channel() {
    let conn = ConnectionId::new(UniqueId::new(1));
    let other = ConnectionId::new(UniqueId::new(2));
    let channel = ChannelId::new(conn, UniqueId::new(3));

    assert_eq!(send_scope(), BroadcastScope::All);
    assert_eq!(respond_scope(&channel), BroadcastScope::ExactChannel(channel));
    assert_eq!(broadcast_scope(&channel), BroadcastScope::ExceptChannel(channel));
    assert_eq!(
        broadcast_within_scope(&channel),
        BroadcastScope::ExceptChannelWithin(channel)
    );
    assert_eq!(broadcast_except_scope(&channel), BroadcastScope::ExceptConnection(conn));
    assert_eq!(forward_scope(&other), BroadcastScope::ExactConnection(other));
}
