//! # Builder for node configuration
//!
//! The type parameters of [`NodeBuilder`] record which settings have been given: a setting that
//! has to be given once (a MAVLink `ID`, the protocol version, the connection) changes the type,
//! so that it can't be given twice and a configuration can't be built without a connection.

use std::fmt::Debug;
use std::marker::PhantomData;
use std::time::Duration;

use mavio::protocol::{CompatProcessor, Unset, Versionless};
use vstd::prelude::*;

use crate::consts::{default_heartbeat_interval, default_heartbeat_timeout, millis};
use crate::marker::{
    ComponentId, Edge, HasComponentId, HasConnConf, HasSystemId, MaybeComponentId, MaybeConnConf,
    MaybeSystemId, Proxy, SystemId,
};
use crate::node_conf::{IntoNodeConf, NodeConf};
use crate::protocol::MavLinkId;

verus! {

/// Builder for [`NodeConf`].
///
/// Type parameters: `S` marks whether a system `ID` is set, `C` whether a component `ID` is set,
/// `V` is the MAVLink protocol version marker, `CC` is the connection configuration (or
/// [`Unset`]) and `A` marks the node API.
#[derive(Debug)]
pub struct NodeBuilder<S: MaybeSystemId, C: MaybeComponentId, V, CC: MaybeConnConf, A> {
    pub(crate) system_id: S,
    pub(crate) component_id: C,
    pub(crate) conn_conf: CC,
    pub(crate) heartbeat_timeout: Duration,
    pub(crate) heartbeat_interval: Duration,
    pub(crate) compat: Option<CompatProcessor>,
    pub(crate) _version: PhantomData<V>,
    pub(crate) _api: PhantomData<A>,
}

impl<S: MaybeSystemId, C: MaybeComponentId, V, CC: MaybeConnConf, A> NodeBuilder<S, C, V, CC, A> {
    /// System `ID` marker: [`Unset`] or [`HasSystemId`].
    pub closed spec fn system_id_marker(&self) -> S {
        self.system_id
    }

    /// Component `ID` marker: [`Unset`] or [`HasComponentId`].
    pub closed spec fn component_id_marker(&self) -> C {
        self.component_id
    }

    /// Connection configuration, [`Unset`] until one is given.
    pub closed spec fn conn_conf_setting(&self) -> CC {
        self.conn_conf
    }

    /// Heartbeat timeout of the configuration to be built.
    pub closed spec fn timeout_setting(&self) -> Duration {
        self.heartbeat_timeout
    }

    /// Heartbeat interval of the configuration to be built.
    pub closed spec fn interval_setting(&self) -> Duration {
        self.heartbeat_interval
    }

    /// Compatibility processor of the configuration to be built, if any.
    pub closed spec fn compat_setting(&self) -> Option<CompatProcessor> {
        self.compat
    }

    /// Heartbeat timeout, heartbeat interval and compatibility processor: the settings that no
    /// type parameter records.
    pub open spec fn timing_and_compat(&self) -> (Duration, Duration, Option<CompatProcessor>) {
        (self.timeout_setting(), self.interval_setting(), self.compat_setting())
    }
}

impl NodeBuilder<Unset, Unset, Versionless, Unset, Unset> {
    /// Instantiate an empty versionless [`NodeBuilder`].
    ///
    /// Heartbeat timeout and interval are the defaults, 1200 and 1000 milliseconds; there is no
    /// compatibility processor.
    pub fn new() -> (builder: Self)
        ensures
            builder.timeout_setting() == millis(1200),
            builder.interval_setting() == millis(1000),
            builder.compat_setting() is None,
    {
        Self {
            system_id: Unset::default(),
            component_id: Unset::default(),
            conn_conf: Unset::default(),
            heartbeat_timeout: default_heartbeat_timeout(),
            heartbeat_interval: default_heartbeat_interval(),
            compat: None,
            _version: PhantomData,
            _api: PhantomData,
        }
    }
}

impl<S: MaybeSystemId, C: MaybeComponentId, V, CC: MaybeConnConf> NodeBuilder<S, C, V, CC, Unset> {
    /// Set [`NodeConf`] protocol version marker.
    pub fn version<Version>(self) -> (builder: NodeBuilder<S, C, Version, CC, Unset>)
        ensures
            builder.system_id_marker() == self.system_id_marker(),
            builder.component_id_marker() == self.component_id_marker(),
            builder.conn_conf_setting() == self.conn_conf_setting(),
            builder.timing_and_compat() == self.timing_and_compat(),
    {
        NodeBuilder {
            system_id: self.system_id,
            component_id: self.component_id,
            conn_conf: self.conn_conf,
            heartbeat_timeout: self.heartbeat_timeout,
            heartbeat_interval: self.heartbeat_interval,
            compat: self.compat,
            _version: PhantomData,
            _api: PhantomData,
        }
    }
}

impl<V, CC: MaybeConnConf, A> NodeBuilder<Unset, Unset, V, CC, A> {
    /// Set [`NodeConf::system_id`] and [`NodeConf::component_id`].
    pub fn id(self, id: MavLinkId) -> (builder: NodeBuilder<HasSystemId, HasComponentId, V, CC, A>)
        ensures
            builder.system_id_marker() == HasSystemId(id.system),
            builder.component_id_marker() == HasComponentId(id.component),
            builder.conn_conf_setting() == self.conn_conf_setting(),
            builder.timing_and_compat() == self.timing_and_compat(),
    {
        NodeBuilder {
            system_id: HasSystemId(id.system),
            component_id: HasComponentId(id.component),
            conn_conf: self.conn_conf,
            heartbeat_timeout: self.heartbeat_timeout,
            heartbeat_interval: self.heartbeat_interval,
            compat: self.compat,
            _version: self._version,
            _api: self._api,
        }
    }
}

impl<C: MaybeComponentId, V, CC: MaybeConnConf, A> NodeBuilder<Unset, C, V, CC, A> {
    /// Set [`NodeConf::system_id`].
    pub fn system_id(self, system_id: SystemId) -> (builder: NodeBuilder<HasSystemId, C, V, CC, A>)
        ensures
            builder.system_id_marker() == HasSystemId(system_id),
            builder.component_id_marker() == self.component_id_marker(),
            builder.conn_conf_setting() == self.conn_conf_setting(),
            builder.timing_and_compat() == self.timing_and_compat(),
    {
        NodeBuilder {
            system_id: HasSystemId(system_id),
            component_id: self.component_id,
            conn_conf: self.conn_conf,
            heartbeat_timeout: self.heartbeat_timeout,
            heartbeat_interval: self.heartbeat_interval,
            compat: self.compat,
            _version: self._version,
            _api: self._api,
        }
    }
}

impl<S: MaybeSystemId, V, CC: MaybeConnConf, A> NodeBuilder<S, Unset, V, CC, A> {
    /// Set [`NodeConf::component_id`].
    pub fn component_id(self, component_id: ComponentId) -> (builder: NodeBuilder<
        S,
        HasComponentId,
        V,
        CC,
        A,
    >)
        ensures
            builder.system_id_marker() == self.system_id_marker(),
            builder.component_id_marker() == HasComponentId(component_id),
            builder.conn_conf_setting() == self.conn_conf_setting(),
            builder.timing_and_compat() == self.timing_and_compat(),
    {
        NodeBuilder {
            system_id: self.system_id,
            component_id: HasComponentId(component_id),
            conn_conf: self.conn_conf,
            heartbeat_timeout: self.heartbeat_timeout,
            heartbeat_interval: self.heartbeat_interval,
            compat: self.compat,
            _version: self._version,
            _api: self._api,
        }
    }
}

impl<S: MaybeSystemId, C: MaybeComponentId, V, A> NodeBuilder<S, C, V, Unset, A> {
    /// Set the connection configuration.
    pub fn connection<CC: HasConnConf>(self, conn_conf: CC) -> (builder: NodeBuilder<
        S,
        C,
        V,
        CC,
        A,
    >)
        ensures
            builder.system_id_marker() == self.system_id_marker(),
            builder.component_id_marker() == self.component_id_marker(),
            builder.conn_conf_setting() == conn_conf,
            builder.timing_and_compat() == self.timing_and_compat(),
    {
        NodeBuilder {
            system_id: self.system_id,
            component_id: self.component_id,
            conn_conf,
            heartbeat_timeout: self.heartbeat_timeout,
            heartbeat_interval: self.heartbeat_interval,
            compat: self.compat,
            _version: self._version,
            _api: self._api,
        }
    }
}

impl<S: MaybeSystemId, C: MaybeComponentId, V, CC: MaybeConnConf, A> NodeBuilder<S, C, V, CC, A> {
    /// Set [`NodeConf::heartbeat_timeout`].
    pub fn heartbeat_timeout(self, heartbeat_timeout: Duration) -> (builder: Self)
        ensures
            builder.system_id_marker() == self.system_id_marker(),
            builder.component_id_marker() == self.component_id_marker(),
            builder.conn_conf_setting() == self.conn_conf_setting(),
            builder.timeout_setting() == heartbeat_timeout,
            builder.interval_setting() == self.interval_setting(),
            builder.compat_setting() == self.compat_setting(),
    {
        NodeBuilder { heartbeat_timeout, ..self }
    }

    /// Set [`NodeConf::compat`].
    pub fn compat(self, compat: CompatProcessor) -> (builder: Self)
        ensures
            builder.system_id_marker() == self.system_id_marker(),
            builder.component_id_marker() == self.component_id_marker(),
            builder.conn_conf_setting() == self.conn_conf_setting(),
            builder.timeout_setting() == self.timeout_setting(),
            builder.interval_setting() == self.interval_setting(),
            builder.compat_setting() == Some(compat),
    {
        NodeBuilder { compat: Some(compat), ..self }
    }
}

impl<V, CC: MaybeConnConf, A> NodeBuilder<HasSystemId, HasComponentId, V, CC, A> {
    /// Set [`NodeConf::heartbeat_interval`].
    ///
    /// This parameter makes sense only for nodes that are identified. Therefore, the method is
    /// available only when both system and component `ID`s have been set.
    pub fn heartbeat_interval(self, heartbeat_interval: Duration) -> (builder: NodeBuilder<
        HasSystemId,
        HasComponentId,
        V,
        CC,
        A,
    >)
        ensures
            builder.system_id_marker() == self.system_id_marker(),
            builder.component_id_marker() == self.component_id_marker(),
            builder.conn_conf_setting() == self.conn_conf_setting(),
            builder.timeout_setting() == self.timeout_setting(),
            builder.interval_setting() == heartbeat_interval,
            builder.compat_setting() == self.compat_setting(),
    {
        NodeBuilder { heartbeat_interval, ..self }
    }
}

impl<V, CC: HasConnConf, A> NodeBuilder<Unset, Unset, V, CC, A> {
    /// Build an instance of [`NodeConf`] without defined system and component `ID`s.
    pub fn conf(self) -> (conf: NodeConf<Proxy, V, CC>)
        ensures
            conf.conn_conf_setting() == self.conn_conf_setting(),
            conf.timing_and_compat() == self.timing_and_compat(),
    {
        NodeConf::assemble(
            Proxy,
            self.conn_conf,
            self.heartbeat_timeout,
            self.heartbeat_interval,
            self.compat,
        )
    }
}

impl<V: Debug + Sync + Send, CC: HasConnConf, A> NodeBuilder<HasSystemId, HasComponentId, V, CC, A> {
    /// Build an instance of [`NodeConf`] with defined system and component `ID`s.
    pub fn conf(self) -> (conf: NodeConf<Edge<V>, V, CC>)
        ensures
            conf.kind_setting().mavlink_id().system == self.system_id_marker().0,
            conf.kind_setting().mavlink_id().component == self.component_id_marker().0,
            conf.conn_conf_setting() == self.conn_conf_setting(),
            conf.timing_and_compat() == self.timing_and_compat(),
    {
        NodeConf::assemble(
            Edge::with_id(MavLinkId::new(self.system_id.0, self.component_id.0)),
            self.conn_conf,
            self.heartbeat_timeout,
            self.heartbeat_interval,
            self.compat,
        )
    }
}

impl Default for NodeBuilder<Unset, Unset, Versionless, Unset, Unset> {
    /// Instantiate an empty versionless [`NodeBuilder`].
    fn default() -> (builder: Self)
        ensures
            builder.timeout_setting() == millis(1200),
            builder.interval_setting() == millis(1000),
            builder.compat_setting() is None,
    {
        Self::new()
    }
}

impl<S: MaybeSystemId, C: MaybeComponentId, V, CC: MaybeConnConf + Clone, A> Clone for NodeBuilder<
    S,
    C,
    V,
    CC,
    A,
> {
    /// Copies the settings; the markers and the connection configuration are cloned.
    fn clone(&self) -> (copy: Self)
        ensures
            copy.system_id_marker() == self.system_id_marker(),
            cloned::<C>(self.component_id_marker(), copy.component_id_marker()),
            cloned::<CC>(self.conn_conf_setting(), copy.conn_conf_setting()),
            copy.timing_and_compat() == self.timing_and_compat(),
    {
        NodeBuilder {
            system_id: self.system_id,
            component_id: self.component_id.clone(),
            conn_conf: self.conn_conf.clone(),
            heartbeat_timeout: self.heartbeat_timeout,
            heartbeat_interval: self.heartbeat_interval,
            compat: self.compat,
            _version: PhantomData,
            _api: PhantomData,
        }
    }
}

impl<V, C: HasConnConf, A> IntoNodeConf<Proxy, V, C> for NodeBuilder<Unset, Unset, V, C, A> {
    fn into_node_conf(self) -> (conf: NodeConf<Proxy, V, C>)
        ensures
            conf.conn_conf_setting() == self.conn_conf_setting(),
            conf.timing_and_compat() == self.timing_and_compat(),
    {
        self.conf()
    }
}

impl<V: Debug + Sync + Send, C: HasConnConf, A> IntoNodeConf<Edge<V>, V, C> for NodeBuilder<
    HasSystemId,
    HasComponentId,
    V,
    C,
    A,
> {
    fn into_node_conf(self) -> (conf: NodeConf<Edge<V>, V, C>)
        ensures
            conf.kind_setting().mavlink_id().system == self.system_id_marker().0,
            conf.kind_setting().mavlink_id().component == self.component_id_marker().0,
            conf.conn_conf_setting() == self.conn_conf_setting(),
            conf.timing_and_compat() == self.timing_and_compat(),
    {
        self.conf()
    }
}

} // verus!
