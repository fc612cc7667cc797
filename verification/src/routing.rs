//! Routing of MAVLink frames between connections and channels.

use std::sync::Arc;

use vstd::prelude::*;

use crate::unique_id::UniqueId;

verus! {

/// Connection `ID`.
///
/// Identifies a particular connection.
///
/// This is an opaque identifier. It can be compared for equality with other connection `ID` and
/// used as a key in hashmaps or hashsets.
#[derive(Copy, Clone, PartialEq, Eq, Hash, Debug, Structural)]
pub struct ConnectionId(UniqueId);

/// Channel `ID`.
///
/// Identifies a channel within a particular connection.
///
/// This is an opaque identifier. It can be compared for equality with other channel `ID` and
/// used as a key in hashmaps or hashsets.
#[derive(Copy, Clone, PartialEq, Eq, Hash, Debug, Structural)]
pub struct ChannelId {
    connection: ConnectionId,
    channel: UniqueId,
}

/// Defines, how frame should be broadcast.
#[derive(Copy, Clone, Debug, Default, PartialEq, Eq, Structural)]
pub enum BroadcastScope {
    /// Broadcast to all channels (default value).
    #[default]
    All,
    /// Broadcast only to this channel.
    ExactChannel(ChannelId),
    /// Broadcast to all channels except the specified one.
    ExceptChannel(ChannelId),
    /// Broadcast to all channels of its own connection except the specified channel.
    ExceptChannelWithin(ChannelId),
    /// Broadcast only to this connection.
    ExactConnection(ConnectionId),
    /// Broadcast to all connections except the specified one.
    ExceptConnection(ConnectionId),
}

/// `true` if a frame broadcast within `scope` goes to the channel `channel`.
pub open spec fn admits(scope: BroadcastScope, channel: ChannelId) -> bool {
    match scope {
        BroadcastScope::All => true,
        BroadcastScope::ExactChannel(sender) => sender == channel,
        BroadcastScope::ExceptChannel(sender) => sender != channel,
        BroadcastScope::ExceptChannelWithin(sender) => sender.connection() == channel.connection()
            && sender != channel,
        BroadcastScope::ExactConnection(conn) => channel.connection() == conn,
        BroadcastScope::ExceptConnection(conn) => channel.connection() != conn,
    }
}

/// Outcome of matching a frame broadcast within `scope` against the connection `conn`: whether
/// the connection gets the frame, and the scope the frame then has.
pub open spec fn reroute(scope: BroadcastScope, conn: ConnectionId) -> (bool, BroadcastScope) {
    match scope {
        BroadcastScope::ExceptConnection(excluded) => if excluded == conn {
            (false, scope)
        } else {
            (true, scope)
        },
        BroadcastScope::ExactConnection(target) => if target == conn {
            (true, BroadcastScope::All)
        } else {
            (true, scope)
        },
        _ => (true, scope),
    }
}

impl ConnectionId {
    /// Identifier behind this connection `ID`.
    pub closed spec fn id(&self) -> UniqueId {
        self.0
    }

    /// Creates a connection identifier from a unique identifier.
    pub fn new(id: UniqueId) -> (conn: Self)
        ensures
            conn.id() == id,
    {
        Self(id)
    }

    /// Returns `true` if the channel with provided `channel_id` belongs to this connection.
    pub fn contains(&self, channel_id: &ChannelId) -> (belongs: bool)
        ensures
            belongs == (channel_id.connection() == *self),
    {
        channel_id.connection == *self
    }
}

impl ChannelId {
    /// Connection this channel belongs to.
    pub closed spec fn connection(&self) -> ConnectionId {
        self.connection
    }

    /// Identifier of this channel within its connection.
    pub closed spec fn id(&self) -> UniqueId {
        self.channel
    }

    /// Creates a channel identifier that belongs to the connection with the specified
    /// `connection_id`.
    pub fn new(connection_id: ConnectionId, id: UniqueId) -> (channel: Self)
        ensures
            channel.connection() == connection_id,
            channel.id() == id,
    {
        Self { connection: connection_id, channel: id }
    }

    /// Identifier of a connection withing this channel.
    pub fn connection_id(&self) -> (conn: &ConnectionId)
        ensures
            *conn == self.connection(),
    {
        &self.connection
    }

    /// Returns `true`, if this channel belongs to the connection with provided `connection_id`.
    pub fn belongs_to(&self, connection_id: &ConnectionId) -> (belongs: bool)
        ensures
            belongs == (self.connection() == *connection_id),
    {
        connection_id.contains(self)
    }
}

/// Another handle to the same frame (`Arc::clone`).
fn share_frame<F>(frame: &Arc<F>) -> (shared: Arc<F>)
    ensures
        shared == *frame,
{
    frame.clone()
}

/// Outgoing MAVLink frame.
///
/// `F` is the type of the frame it carries, such as `mavio`'s `Frame<V>`; routing never looks
/// inside the frame.
#[derive(Debug)]
#[verifier::reject_recursive_types(F)]
pub struct OutgoingFrame<F> {
    frame: Arc<F>,
    scope: BroadcastScope,
}

impl<F> OutgoingFrame<F> {
    /// The frame to send.
    pub closed spec fn inner(&self) -> F {
        *self.frame
    }

    /// The scope the frame is broadcast within.
    pub closed spec fn broadcast_scope(&self) -> BroadcastScope {
        self.scope
    }

    /// Creates an outgoing frame from a MAVLink frame, broadcast to all channels.
    pub fn new(frame: F) -> (out: Self)
        ensures
            out.inner() == frame,
            out.broadcast_scope() == BroadcastScope::All,
    {
        Self { frame: Arc::new(frame), scope: BroadcastScope::All }
    }

    /// Creates an outgoing frame broadcast within `scope`.
    pub fn scoped(frame: F, scope: BroadcastScope) -> (out: Self)
        ensures
            out.inner() == frame,
            out.broadcast_scope() == scope,
    {
        Self { frame: Arc::new(frame), scope }
    }

    /// Reference to the underlying MAVLink frame.
    pub fn frame(&self) -> (frame: &F)
        ensures
            *frame == self.inner(),
    {
        &*self.frame
    }

    /// Broadcast scope.
    pub fn scope(&self) -> (scope: &BroadcastScope)
        ensures
            *scope == self.broadcast_scope(),
    {
        &self.scope
    }

    /// Set broadcast scope.
    pub fn set_scope(&mut self, scope: BroadcastScope)
        ensures
            final(self).broadcast_scope() == scope,
            final(self).inner() == old(self).inner(),
    {
        self.scope = scope;
    }

    /// Matches frame against a particular connection and changes broadcast scope if necessary.
    ///
    /// The rules are the following:
    ///
    /// * If scope is [`BroadcastScope::ExceptConnection`] and `connection_id` equals the excluded
    ///   `ID`, then method will keep connection untouched and return `false`.
    /// * If scope is [`BroadcastScope::ExactConnection`] and `connection_id` equals the specified
    ///   `ID`, then frame scope will be changed to [`BroadcastScope::All`] and `true` will be
    ///   returned.
    /// * Returns `true` for all other cases.
    pub fn matches_connection_reroute(&mut self, connection_id: &ConnectionId) -> (matches: bool)
        ensures
            (matches, final(self).broadcast_scope()) == reroute(
                old(self).broadcast_scope(),
                *connection_id,
            ),
            matches == (old(self).broadcast_scope() != BroadcastScope::ExceptConnection(
                *connection_id,
            )),
            final(self).broadcast_scope() == (if old(self).broadcast_scope()
                == BroadcastScope::ExactConnection(*connection_id) {
                BroadcastScope::All
            } else {
                old(self).broadcast_scope()
            }),
            final(self).inner() == old(self).inner(),
    {
        match self.scope {
            BroadcastScope::ExceptConnection(conn_id) => {
                if *connection_id == conn_id {
                    false
                } else {
                    true
                }
            },
            BroadcastScope::ExactConnection(conn_id) => {
                if *connection_id == conn_id {
                    self.set_scope(BroadcastScope::All);
                }
                true
            },
            _ => true,
        }
    }

    /// Returns `true` if the frame should be sent to the channel with `channel_id`.
    pub fn should_send_to(&self, channel_id: &ChannelId) -> (send: bool)
        ensures
            send == admits(self.broadcast_scope(), *channel_id),
    {
        match self.scope {
            BroadcastScope::All => true,
            BroadcastScope::ExactChannel(sender_id) => sender_id == *channel_id,
            BroadcastScope::ExceptChannel(sender_id) => sender_id != *channel_id,
            BroadcastScope::ExceptChannelWithin(sender_id) => {
                channel_id.connection_id().contains(&sender_id) && sender_id != *channel_id
            },
            BroadcastScope::ExactConnection(conn_id) => conn_id.contains(channel_id),
            BroadcastScope::ExceptConnection(conn_id) => !conn_id.contains(channel_id),
        }
    }
}

impl<F> Clone for OutgoingFrame<F> {
    fn clone(&self) -> (copy: Self)
        ensures
            copy.inner() == self.inner(),
            copy.broadcast_scope() == self.broadcast_scope(),
    {
        Self { frame: share_frame(&self.frame), scope: self.scope }
    }
}

impl<F: Clone> OutgoingFrame<F> {
    /// Converts into the underlying frame, a clone of the shared one.
    pub fn into_frame(self) -> (frame: F)
        ensures
            cloned::<F>(self.inner(), frame),
    {
        (*self.frame).clone()
    }
}

/// A new outgoing frame carries the given frame, is broadcast to all channels, reaches every
/// channel, and converts back into a clone of the frame it was made of.
pub proof fn law_new_frame_reaches_all<F: Clone>(
    frame: F,
    out: OutgoingFrame<F>,
    channel: ChannelId,
    back: F,
)
    requires
        call_ensures(OutgoingFrame::<F>::new, (frame,), out),
        call_ensures(OutgoingFrame::<F>::into_frame, (out,), back),
    ensures
        out.inner() == frame,
        out.broadcast_scope() == BroadcastScope::All,
        admits(out.broadcast_scope(), channel),
        cloned::<F>(frame, back),
{
}

/// Matching against a connection refuses a frame only when the scope excludes exactly that
/// connection, and changes the scope only when it targets exactly that connection, widening it
/// to all channels. Every other scope is matched and kept as it is.
pub proof fn law_reroute_decision(scope: BroadcastScope, conn: ConnectionId)
    ensures
        !reroute(scope, conn).0 <==> scope == BroadcastScope::ExceptConnection(conn),
        scope == BroadcastScope::ExactConnection(conn) ==> reroute(scope, conn).1
            == BroadcastScope::All,
        scope != BroadcastScope::ExactConnection(conn) ==> reroute(scope, conn).1 == scope,
{
}

/// A frame for a single channel goes to that channel and to no other.
pub proof fn law_exact_channel(sender: ChannelId, channel: ChannelId)
    ensures
        admits(BroadcastScope::ExactChannel(sender), channel) <==> channel == sender,
{
}

/// Excluding a channel sends a frame exactly where sending to that channel alone would not.
pub proof fn law_except_channel_complements(sender: ChannelId, channel: ChannelId)
    ensures
        admits(BroadcastScope::ExceptChannel(sender), channel) <==> !admits(
            BroadcastScope::ExactChannel(sender),
            channel,
        ),
{
}

/// Excluding a connection sends a frame exactly where sending to that connection alone would
/// not.
pub proof fn law_except_connection_complements(conn: ConnectionId, channel: ChannelId)
    ensures
        admits(BroadcastScope::ExceptConnection(conn), channel) <==> !admits(
            BroadcastScope::ExactConnection(conn),
            channel,
        ),
{
}

/// Broadcasting within the sender's own connection reaches the channels of that connection,
/// except the sender itself.
pub proof fn law_except_within(sender: ChannelId, channel: ChannelId)
    ensures
        admits(BroadcastScope::ExceptChannelWithin(sender), channel) <==> (admits(
            BroadcastScope::ExactConnection(sender.connection()),
            channel,
        ) && admits(BroadcastScope::ExceptChannel(sender), channel)),
{
}

/// Matching a frame against a connection never changes which channels of that connection get
/// it, and a refused connection gets it on none of its channels.
pub proof fn law_reroute_keeps_channels(scope: BroadcastScope, channel: ChannelId)
    ensures
        ({
            let (matches, rerouted) = reroute(scope, channel.connection());
            &&& !matches ==> !admits(scope, channel)
            &&& matches ==> (admits(rerouted, channel) == admits(scope, channel))
        }),
{
}

/// A channel belongs to a connection exactly when the connection contains it:
/// [`ChannelId::belongs_to`] and [`ConnectionId::contains`] give the same answer.
pub proof fn law_belongs_to_is_contains(
    conn: ConnectionId,
    channel: ChannelId,
    belongs: bool,
    contains: bool,
)
    requires
        call_ensures(ChannelId::belongs_to, (&channel, &conn), belongs),
        call_ensures(ConnectionId::contains, (&conn, &channel), contains),
    ensures
        belongs == contains,
{
}

} // verus!
