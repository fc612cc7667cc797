//! # Broadcast scopes of callback replies
//!
//! A callback that handles a frame received on a channel answers within a scope chosen relative
//! to that channel. These functions make that choice; the callback then processes the frame and
//! sends it as an [`OutgoingFrame`](crate::routing::OutgoingFrame) with the chosen scope.

use vstd::prelude::*;

use crate::routing::{BroadcastScope, ChannelId, ConnectionId};

verus! {

/// Scope of a frame sent from a callback: all channels.
pub fn send_scope() -> (scope: BroadcastScope)
    ensures
        scope == BroadcastScope::All,
{
    BroadcastScope::All
}

/// Scope of a response: only the channel the frame came from.
pub fn respond_scope(channel: &ChannelId) -> (scope: BroadcastScope)
    ensures
        scope == BroadcastScope::ExactChannel(*channel),
{
    BroadcastScope::ExactChannel(*channel)
}

/// Scope of a broadcast: all channels except the one the frame came from.
pub fn broadcast_scope(channel: &ChannelId) -> (scope: BroadcastScope)
    ensures
        scope == BroadcastScope::ExceptChannel(*channel),
{
    BroadcastScope::ExceptChannel(*channel)
}

/// Scope of a broadcast within the connection: the other channels of the connection the frame
/// came from.
pub fn broadcast_within_scope(channel: &ChannelId) -> (scope: BroadcastScope)
    ensures
        scope == BroadcastScope::ExceptChannelWithin(*channel),
{
    BroadcastScope::ExceptChannelWithin(*channel)
}

/// Scope of a broadcast to other connections: every connection except the one the frame came
/// from.
pub fn broadcast_except_scope(channel: &ChannelId) -> (scope: BroadcastScope)
    ensures
        scope == BroadcastScope::ExceptConnection(channel.connection()),
{
    BroadcastScope::ExceptConnection(*channel.connection_id())
}

/// Scope of a frame forwarded to the connection `connection_id`.
pub fn forward_scope(connection_id: &ConnectionId) -> (scope: BroadcastScope)
    ensures
        scope == BroadcastScope::ExactConnection(*connection_id),
{
    BroadcastScope::ExactConnection(*connection_id)
}

} // verus!
