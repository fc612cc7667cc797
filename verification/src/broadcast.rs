//! Outgoing frames with a broadcast scope defined by a single sender or recipient.

use std::sync::Arc;

use vstd::prelude::*;

use crate::unique_id::UniqueId;

verus! {

/// Defines, how frame should be broadcast.
#[derive(Copy, Clone, Debug, Default, PartialEq, Eq, Structural)]
pub enum BroadcastScope {
    /// Broadcast to all recipients (default value).
    #[default]
    All,
    /// Broadcast to all recipients except the specified one.
    Except(UniqueId),
    /// Broadcast only to the specified recipient.
    Exact(UniqueId),
}

/// `true` if a frame broadcast within `scope` goes to `recipient`.
pub open spec fn reaches(scope: BroadcastScope, recipient: UniqueId) -> bool {
    match scope {
        BroadcastScope::All => true,
        BroadcastScope::Except(sender) => sender != recipient,
        BroadcastScope::Exact(sender) => sender == recipient,
    }
}

/// Another handle to the same frame (`Arc::clone`).
fn share_frame<F>(frame: &Arc<F>) -> (shared: Arc<F>)
    ensures
        shared == *frame,
{
    frame.clone()
}

/// Opaque type that contains an outgoing MAVLink frame.
///
/// `F` is the type of the frame, such as `mavio`'s `Frame<V>`.
#[derive(Debug)]
#[verifier::reject_recursive_types(F)]
pub struct OutgoingFrame<F> {
    frame: Arc<F>,
    scope: BroadcastScope,
}

impl<F> OutgoingFrame<F> {
    /// The frame to send.
    pub closed spec fn inner(&self) -> F {
        *self.frame
    }

    /// The scope the frame is broadcast within.
    pub closed spec fn broadcast_scope(&self) -> BroadcastScope {
        self.scope
    }

    /// Default constructor: the frame goes to all recipients.
    pub fn new(frame: F) -> (out: Self)
        ensures
            out.inner() == frame,
            out.broadcast_scope() == BroadcastScope::All,
    {
        Self { frame: Arc::new(frame), scope: BroadcastScope::All }
    }

    /// Reference to the underlying MAVLink frame.
    pub fn frame(&self) -> (frame: &F)
        ensures
            *frame == self.inner(),
    {
        &*self.frame
    }

    /// Creates an outgoing frame broadcast within `scope`.
    pub fn scoped(frame: F, scope: BroadcastScope) -> (out: Self)
        ensures
            out.inner() == frame,
            out.broadcast_scope() == scope,
    {
        Self { frame: Arc::new(frame), scope }
    }

    /// Returns `true` if the frame should be sent to `recipient_id`.
    pub fn should_send_to(&self, recipient_id: UniqueId) -> (send: bool)
        ensures
            send == reaches(self.broadcast_scope(), recipient_id),
    {
        match self.scope {
            BroadcastScope::All => true,
            BroadcastScope::Except(sender_id) => sender_id != recipient_id,
            BroadcastScope::Exact(sender_id) => sender_id == recipient_id,
        }
    }
}

impl<F> Clone for OutgoingFrame<F> {
    fn clone(&self) -> (copy: Self)
        ensures
            copy.inner() == self.inner(),
            copy.broadcast_scope() == self.broadcast_scope(),
    {
        Self { frame: share_frame(&self.frame), scope: self.scope }
    }
}

/// Every recipient gets a frame either when one recipient is excluded or when that recipient
/// alone is targeted, never both.
pub proof fn law_except_complements_exact(sender: UniqueId, recipient: UniqueId)
    ensures
        reaches(BroadcastScope::Except(sender), recipient) <==> !reaches(
            BroadcastScope::Exact(sender),
            recipient,
        ),
{
}

} // verus!
