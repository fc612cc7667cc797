//! # MAVLink network
//!
//! A network is a collection of proxy node configurations, each under its own identifier, with a
//! strategy for repairing nodes that went down.

use std::collections::HashMap;
use std::sync::atomic::AtomicBool;

use vstd::prelude::*;

use crate::closable::{read_order, Closable, SharedCloser};
use crate::consts::millis;
use crate::marker::{MaybeConnConf, NodeKind, Proxy};
use crate::node_conf::{IntoNodeConf, NodeConf};
use crate::retry::Retry;
use crate::unique_id::UniqueId;

verus! {

broadcast use vstd::std_specs::hash::group_hash_axioms;

/// MAVLink network: proxy node configurations keyed by the raw value of their identifiers,
/// with a retry strategy and whether the network stops when a node is down for good.
#[derive(Debug)]
pub struct Network<V, C: MaybeConnConf> {
    nodes: HashMap<u64, NodeConf<Proxy, V, C>>,
    retry: Retry,
    stop_on_node_down: bool,
}

impl<V, C: MaybeConnConf> Network<V, C> {
    /// Node configurations, by the raw value of their identifiers.
    pub closed spec fn nodes(&self) -> Map<u64, NodeConf<Proxy, V, C>> {
        self.nodes@
    }

    /// Strategy for repairing nodes that went down.
    pub closed spec fn retry_setting(&self) -> Retry {
        self.retry
    }

    /// Whether the network stops when a node is down and all repair attempts failed.
    pub closed spec fn stops_on_node_down(&self) -> bool {
        self.stop_on_node_down
    }

    /// A network without nodes, with the given repair strategy and stopping rule.
    pub fn new(retry: Retry, stop_on_node_down: bool) -> (network: Self)
        ensures
            network.nodes() == Map::<u64, NodeConf<Proxy, V, C>>::empty(),
            network.retry_setting() == retry,
            network.stops_on_node_down() == stop_on_node_down,
    {
        Network { nodes: HashMap::new(), retry, stop_on_node_down }
    }

    /// Adds a node configuration under the identifier `id`.
    ///
    /// The configuration is turned into a proxy one: the heartbeat interval becomes the default
    /// of 1000 milliseconds, the rest is kept.
    pub fn add_node<K: NodeKind, N: IntoNodeConf<K, V, C>>(self, id: UniqueId, node: N) -> (network:
        Self)
        ensures
            network.retry_setting() == self.retry_setting(),
            network.stops_on_node_down() == self.stops_on_node_down(),
            exists|conf: NodeConf<K, V, C>, proxy: NodeConf<Proxy, V, C>|
                {
                    &&& call_ensures(N::into_node_conf, (node,), conf)
                    &&& proxy.conn_conf_setting() == conf.conn_conf_setting()
                    &&& proxy.timeout_setting() == conf.timeout_setting()
                    &&& proxy.interval_setting() == millis(1000)
                    &&& proxy.compat_setting() == conf.compat_setting()
                    &&& network.nodes() == self.nodes().insert(id.raw(), proxy)
                },
    {
        let mut network = self;
        let conf = node.into_node_conf();
        let proxy = conf.into_proxy();
        network.nodes.insert(id.as_raw(), proxy);
        network
    }

    /// Sets the strategy for repairing nodes that went down.
    pub fn retry(self, retry: Retry) -> (network: Self)
        ensures
            network.nodes() == self.nodes(),
            network.retry_setting() == retry,
            network.stops_on_node_down() == self.stops_on_node_down(),
    {
        let mut network = self;
        network.retry = retry;
        network
    }

    /// Sets whether the network stops when a node is down and all repair attempts failed.
    pub fn stop_on_node_down(self, value: bool) -> (network: Self)
        ensures
            network.nodes() == self.nodes(),
            network.retry_setting() == self.retry_setting(),
            network.stops_on_node_down() == value,
    {
        let mut network = self;
        network.stop_on_node_down = value;
        network
    }
}

/// State of a connection that belongs to a network: the connection is gone when either the
/// network or the connection itself is closed.
#[derive(Clone)]
pub struct NetworkConnState {
    /// State of the network.
    pub network: Closable,
    /// State of the connection.
    pub connection: SharedCloser,
}

impl NetworkConnState {
    /// Returns `true` if either the network or the connection is closed.
    ///
    /// Both states are shared flags that other handles may raise at any time: the answer is
    /// `true` when a load of the network's flag gives `true`, and otherwise what a load of the
    /// connection's flag gives.
    pub fn is_closed(&self) -> (closed: bool)
        ensures
            (call_ensures(AtomicBool::load, (&self.network.flag(), read_order()), true) && closed)
                || (call_ensures(AtomicBool::load, (&self.network.flag(), read_order()), false)
                && call_ensures(
                AtomicBool::load,
                (&self.connection.flag(), read_order()),
                closed,
            )),
    {
        self.network.is_closed() || self.connection.is_closed()
    }
}

} // verus!
