//! # State of a MAVLink node
//!
//! A node is connected until its shared state is closed, and an edge node is active while its
//! guarded activity switch is on. Both are shared atomic flags, so the contracts state which
//! loads and stores a node makes on them, not what a load gives back.

use std::sync::atomic::AtomicBool;
use std::time::Duration;

use vstd::prelude::*;

use crate::closable::{read_order, write_order, SharedCloser};
use crate::flipper::{Guarded, Switch};

verus! {

/// Connection state, activity and heartbeat timing of a node.
pub struct NodeState {
    state: SharedCloser,
    is_active: Guarded<SharedCloser, Switch>,
    heartbeat_timeout: Duration,
    heartbeat_interval: Duration,
}

impl NodeState {
    /// The shared closing flag of the node's connection.
    pub closed spec fn state_flag(&self) -> AtomicBool {
        self.state.flag()
    }

    /// The shared closing state of the node's connection.
    pub closed spec fn state_handle(&self) -> SharedCloser {
        self.state
    }

    /// The guarded switch that tells whether the node is active.
    pub closed spec fn activity(&self) -> Guarded<SharedCloser, Switch> {
        self.is_active
    }

    /// Heartbeat timeout.
    pub closed spec fn timeout_setting(&self) -> Duration {
        self.heartbeat_timeout
    }

    /// Heartbeat interval.
    pub closed spec fn interval_setting(&self) -> Duration {
        self.heartbeat_interval
    }

    /// Node state made of a connection state, an activity switch and the heartbeat timing.
    pub fn new(
        state: SharedCloser,
        is_active: Guarded<SharedCloser, Switch>,
        heartbeat_timeout: Duration,
        heartbeat_interval: Duration,
    ) -> (node: Self)
        ensures
            node.state_handle() == state,
            node.activity() == is_active,
            node.timeout_setting() == heartbeat_timeout,
            node.interval_setting() == heartbeat_interval,
    {
        NodeState { state, is_active, heartbeat_timeout, heartbeat_interval }
    }

    /// Heartbeat timeout.
    ///
    /// Peers that are overdue to send the next heartbeat within this interval are considered
    /// inactive.
    pub fn heartbeat_timeout(&self) -> (heartbeat_timeout: Duration)
        ensures
            heartbeat_timeout == self.timeout_setting(),
    {
        self.heartbeat_timeout
    }

    /// Heartbeat interval.
    ///
    /// Once the node is active, it emits heartbeats with this interval.
    pub fn heartbeat_interval(&self) -> (heartbeat_interval: Duration)
        ensures
            heartbeat_interval == self.interval_setting(),
    {
        self.heartbeat_interval
    }

    /// Returns `true` if node is connected: a load of the closing flag gives `false`.
    pub fn is_connected(&self) -> (connected: bool)
        ensures
            exists|closed: bool|
                call_ensures(AtomicBool::load, (&self.state_flag(), read_order()), closed)
                    && connected == !closed,
    {
        !self.state.is_closed()
    }

    /// Returns `true`, if node is active: the answer of the activity switch.
    pub fn is_active(&self) -> (active: bool)
        ensures
            call_ensures(Guarded::<SharedCloser, Switch>::is, (&self.activity(),), active),
    {
        self.is_active.is()
    }

    /// Deactivates the node.
    ///
    /// Nothing happens when a load of the closing flag finds the node disconnected, or when the
    /// activity switch reads `false`; otherwise the switch is set to `false`.
    pub fn deactivate(&mut self)
        ensures
            final(self).state_handle() == old(self).state_handle(),
            final(self).activity().value() == old(self).activity().value(),
            final(self).activity().guard() == old(self).activity().guard(),
            final(self).activity().state() == old(self).activity().state(),
            final(self).timeout_setting() == old(self).timeout_setting(),
            final(self).interval_setting() == old(self).interval_setting(),
            call_ensures(AtomicBool::load, (&old(self).state_flag(), read_order()), true) || (
            call_ensures(AtomicBool::load, (&old(self).state_flag(), read_order()), false)
                && call_ensures(
                Guarded::<SharedCloser, Switch>::is,
                (&old(self).activity(),),
                false,
            )) || (call_ensures(AtomicBool::load, (&old(self).state_flag(), read_order()), false)
                && call_ensures(Guarded::<SharedCloser, Switch>::is, (&old(self).activity(),), true)
                && (call_ensures(
                AtomicBool::load,
                (&old(self).activity().state(), read_order()),
                true,
            ) || (call_ensures(
                AtomicBool::load,
                (&old(self).activity().state(), read_order()),
                false,
            ) && call_ensures(
                AtomicBool::store,
                (&old(self).activity().value(), false, write_order()),
                (),
            )))),
    {
        if self.state.is_closed() {
            return;
        }
        if !self.is_active.is() {
            return;
        }
        self.is_active.set(false);
    }
}

impl Drop for NodeState {
    /// Closes the node's connection state: stores `true` into its shared closing flag.
    fn drop(&mut self)
        ensures
            call_ensures(AtomicBool::store, (&old(self).state_flag(), true, write_order()), ()),
        opens_invariants none
        no_unwind
    {
        self.state.raise();
    }
}

} // verus!
