//! # Generic markers
//!
//! These markers are used to distinguish different versions of generic entities.

use std::fmt::Debug;
use std::marker::PhantomData;

use mavio::protocol::Unset;
use vstd::prelude::*;

use crate::protocol::MavLinkId;
use crate::sealed::Sealed;

verus! {

/// Marker of the `mavio` crate for a parameter that is not set.
#[verifier::external_type_specification]
#[verifier::external_body]
pub struct ExUnset(Unset);

/// `Unset::default` (derived by `mavio`): the only value of the unit marker, so nothing is left
/// to state of it.
pub assume_specification[ <Unset as Default>::default ]() -> Unset;

/// MAVLink system `ID`.
pub type SystemId = u8;

/// MAVLink component `ID`.
pub type ComponentId = u8;

/// All kinds of nodes are falling under this trait.
///
/// This trait is sealed. Variants: [`Proxy`] and an edge node with defined `ID`s.
pub trait NodeKind: Clone + Debug + Sync + Send + Sealed {

}

/// Variant of a node that proxies existing messages.
///
/// This node can't produce messages and can be used only as a proxy with an optional message
/// signing capability.
#[derive(Clone, Copy, Debug)]
pub struct Proxy;

impl Sealed for Proxy {

}

impl NodeKind for Proxy {

}

/// Variant of a node with a defined MAVLink `ID`.
///
/// Such a node can produce messages. The type parameter is the marker of the MAVLink protocol
/// version of the node.
#[derive(Debug)]
pub struct Edge<V> {
    pub(crate) id: MavLinkId,
    pub(crate) _version: PhantomData<V>,
}

impl<V> Edge<V> {
    /// MAVLink `ID` of the node.
    pub closed spec fn mavlink_id(&self) -> MavLinkId {
        self.id
    }

    /// Edge node marker for the given MAVLink `ID`.
    pub(crate) fn with_id(id: MavLinkId) -> (edge: Self)
        ensures
            edge.mavlink_id() == id,
    {
        Edge { id, _version: PhantomData }
    }

    /// MAVLink system `ID` of the node.
    pub(crate) fn system_id(&self) -> (system_id: SystemId)
        ensures
            system_id == self.mavlink_id().system,
    {
        self.id.system
    }

    /// MAVLink component `ID` of the node.
    pub(crate) fn component_id(&self) -> (component_id: ComponentId)
        ensures
            component_id == self.mavlink_id().component,
    {
        self.id.component
    }
}

impl<V> Clone for Edge<V> {
    fn clone(&self) -> (copy: Self)
        ensures
            copy.mavlink_id() == self.mavlink_id(),
    {
        Edge { id: self.id, _version: PhantomData }
    }
}

impl<V> Sealed for Edge<V> {

}

impl<V: Debug + Sync + Send> NodeKind for Edge<V> {

}

impl Sealed for Unset {

}

/// Variant of a node configuration which may or may not have a connection config.
///
/// This trait is sealed.
pub trait MaybeConnConf: Debug + Send + Sealed {

}

impl MaybeConnConf for Unset {

}

/// Variant of a node configuration which has a connection config.
///
/// This trait is sealed.
pub trait HasConnConf: MaybeConnConf {
    /// Returns `true` if it makes sense to restart the node after connection failure.
    ///
    /// A blanket implementation always returns `false`.
    fn is_repairable(&self) -> (repairable: bool)
        default_ensures
            !repairable,
    {
        false
    }
}

/// Marker trait for an entity with or without MAVLink system `ID`.
///
/// This trait is sealed.
pub trait MaybeSystemId: Clone + Copy + Debug + Sync + Send + Sealed {

}

impl MaybeSystemId for Unset {

}

/// Marker for an entity with a defined MAVLink system `ID`.
#[derive(Copy, Clone, Debug)]
pub struct HasSystemId(pub SystemId);

impl Sealed for HasSystemId {

}

impl MaybeSystemId for HasSystemId {

}

/// Marker trait for an entity with or without MAVLink component `ID`.
///
/// This trait is sealed.
pub trait MaybeComponentId: Clone + Debug + Sync + Send + Sealed {

}

impl MaybeComponentId for Unset {

}

/// Marker for an entity with a defined MAVLink component `ID`.
#[derive(Copy, Clone, Debug)]
pub struct HasComponentId(pub ComponentId);

impl Sealed for HasComponentId {

}

impl MaybeComponentId for HasComponentId {

}

} // verus!
