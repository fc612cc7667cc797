//! # MAVLink node configuration

use std::fmt::Debug;
use std::marker::PhantomData;
use std::time::Duration;

use mavio::protocol::{CompatProcessor, Unset, Versionless};
use vstd::prelude::*;

use crate::consts::{default_heartbeat_interval, millis};
use crate::marker::{ComponentId, Edge, HasConnConf, MaybeConnConf, NodeKind, Proxy, SystemId};
use crate::node_builder::NodeBuilder;

verus! {

/// MAVLink node configuration.
///
/// Node configuration can be instantiated only through [`NodeBuilder`]. Type parameters: `K` is
/// the kind of node ([`Proxy`] or [`Edge`]), `V` is the MAVLink protocol version marker and `C`
/// is the connection configuration.
#[derive(Debug)]
pub struct NodeConf<K: NodeKind, V, C: MaybeConnConf> {
    pub(crate) kind: K,
    pub(crate) connection_conf: C,
    pub(crate) heartbeat_timeout: Duration,
    pub(crate) heartbeat_interval: Duration,
    pub(crate) compat: Option<CompatProcessor>,
    pub(crate) _version: PhantomData<V>,
}

/// Implementors of this trait can be converted into node configuration.
///
/// This trait is implemented for [`NodeConf`] itself and for [`NodeBuilder`] with a connection
/// configuration and either both or none of the MAVLink `ID`s.
pub trait IntoNodeConf<K: NodeKind, V, C: MaybeConnConf> {
    /// Converts into a [`NodeConf`].
    fn into_node_conf(self) -> NodeConf<K, V, C>;
}

impl<K: NodeKind, V, C: MaybeConnConf> NodeConf<K, V, C> {
    /// Kind of the node: [`Proxy`] or [`Edge`] with its MAVLink `ID`.
    pub closed spec fn kind_setting(&self) -> K {
        self.kind
    }

    /// Connection configuration.
    pub closed spec fn conn_conf_setting(&self) -> C {
        self.connection_conf
    }

    /// Heartbeat timeout.
    pub closed spec fn timeout_setting(&self) -> Duration {
        self.heartbeat_timeout
    }

    /// Heartbeat interval.
    pub closed spec fn interval_setting(&self) -> Duration {
        self.heartbeat_interval
    }

    /// Compatibility processor, if any.
    pub closed spec fn compat_setting(&self) -> Option<CompatProcessor> {
        self.compat
    }

    /// Heartbeat timeout, heartbeat interval and compatibility processor.
    pub open spec fn timing_and_compat(&self) -> (Duration, Duration, Option<CompatProcessor>) {
        (self.timeout_setting(), self.interval_setting(), self.compat_setting())
    }

    /// Configuration made of the given settings.
    pub(crate) fn assemble(
        kind: K,
        connection_conf: C,
        heartbeat_timeout: Duration,
        heartbeat_interval: Duration,
        compat: Option<CompatProcessor>,
    ) -> (conf: Self)
        ensures
            conf.kind_setting() == kind,
            conf.conn_conf_setting() == connection_conf,
            conf.timeout_setting() == heartbeat_timeout,
            conf.interval_setting() == heartbeat_interval,
            conf.compat_setting() == compat,
    {
        NodeConf {
            kind,
            connection_conf,
            heartbeat_timeout,
            heartbeat_interval,
            compat,
            _version: PhantomData,
        }
    }
}

impl NodeConf<Proxy, Versionless, Unset> {
    /// Creates an empty [`NodeBuilder`].
    pub fn builder() -> (builder: NodeBuilder<Unset, Unset, Versionless, Unset, Unset>)
        ensures
            builder.timeout_setting() == millis(1200),
            builder.interval_setting() == millis(1000),
            builder.compat_setting() is None,
    {
        NodeBuilder::new()
    }
}

impl<V: Debug + Sync + Send, C: MaybeConnConf> NodeConf<Edge<V>, V, C> {
    /// MAVLink system `ID`.
    pub fn system_id(&self) -> (system_id: SystemId)
        ensures
            system_id == self.kind_setting().mavlink_id().system,
    {
        self.kind.system_id()
    }

    /// MAVLink component `ID`.
    pub fn component_id(&self) -> (component_id: ComponentId)
        ensures
            component_id == self.kind_setting().mavlink_id().component,
    {
        self.kind.component_id()
    }
}

impl<K: NodeKind, V, C: HasConnConf> NodeConf<K, V, C> {
    /// Timeout for MAVLink heartbeats.
    ///
    /// If peer hasn't sent heartbeats for a specified period, it will be considered inactive.
    /// Default timeout is 1200 milliseconds.
    pub fn heartbeat_timeout(&self) -> (heartbeat_timeout: Duration)
        ensures
            heartbeat_timeout == self.timeout_setting(),
    {
        self.heartbeat_timeout
    }

    /// Compatibility configuration.
    pub fn compat(&self) -> (compat: Option<&CompatProcessor>)
        ensures
            compat is Some <==> self.compat_setting() is Some,
            compat is Some ==> *compat->0 == self.compat_setting()->0,
    {
        self.compat.as_ref()
    }

    /// Returns `true` if it makes sense to restart the node after connection failure.
    ///
    /// The answer is the one of the connection configuration.
    pub fn is_repairable(&self) -> (repairable: bool)
        ensures
            call_ensures(C::is_repairable, (&self.conn_conf_setting(),), repairable),
    {
        self.connection_conf.is_repairable()
    }
}

impl<V: Debug + Sync + Send, C: HasConnConf> NodeConf<Edge<V>, V, C> {
    /// Interval for MAVLink heartbeats.
    ///
    /// Node will send heartbeats within this interval. Default interval is 1000 milliseconds.
    pub fn heartbeat_interval(&self) -> (heartbeat_interval: Duration)
        ensures
            heartbeat_interval == self.interval_setting(),
    {
        self.heartbeat_interval
    }
}

impl<K: NodeKind, V, C: MaybeConnConf> NodeConf<K, V, C> {
    /// Converts arbitrary node configuration into a [`Proxy`] by stripping unnecessary
    /// information.
    ///
    /// This will set the heartbeat interval to the default value of 1000 milliseconds.
    pub fn into_proxy(self) -> (conf: NodeConf<Proxy, V, C>)
        ensures
            conf.conn_conf_setting() == self.conn_conf_setting(),
            conf.timeout_setting() == self.timeout_setting(),
            conf.interval_setting() == millis(1000),
            conf.compat_setting() == self.compat_setting(),
    {
        NodeConf {
            kind: Proxy,
            connection_conf: self.connection_conf,
            heartbeat_timeout: self.heartbeat_timeout,
            heartbeat_interval: default_heartbeat_interval(),
            compat: self.compat,
            _version: self._version,
        }
    }
}

impl<K: NodeKind, V, C: MaybeConnConf + Clone> Clone for NodeConf<K, V, C> {
    /// Copies the settings; the kind and the connection configuration are cloned.
    fn clone(&self) -> (copy: Self)
        ensures
            cloned::<K>(self.kind_setting(), copy.kind_setting()),
            cloned::<C>(self.conn_conf_setting(), copy.conn_conf_setting()),
            copy.timing_and_compat() == self.timing_and_compat(),
    {
        NodeConf {
            kind: self.kind.clone(),
            connection_conf: self.connection_conf.clone(),
            heartbeat_timeout: self.heartbeat_timeout,
            heartbeat_interval: self.heartbeat_interval,
            compat: self.compat,
            _version: PhantomData,
        }
    }
}

impl<K: NodeKind, V, C: MaybeConnConf> IntoNodeConf<K, V, C> for NodeConf<K, V, C> {
    fn into_node_conf(self) -> (conf: NodeConf<K, V, C>)
        ensures
            conf == self,
    {
        self
    }
}

} // verus!
