//! # MAVLink protocol entities used by node configuration
//!
//! A node is identified by a [`MavLinkId`]. The compatibility processor and the protocol version
//! markers of the `mavio` crate are carried as they are.

use mavio::protocol::{CompatProcessor, Versionless};
use vstd::prelude::*;

use crate::marker::{ComponentId, SystemId};

verus! {

/// Compatibility processor of the `mavio` crate, carried through unchanged.
#[verifier::external_type_specification]
#[verifier::external_body]
pub struct ExCompatProcessor(CompatProcessor);

/// Marker of the `mavio` crate for entities without a defined MAVLink protocol version.
#[verifier::external_type_specification]
#[verifier::external_body]
pub struct ExVersionless(Versionless);

/// MAVLink device `ID`: a pair of MAVLink system and component `ID`s.
#[derive(Copy, Clone, Debug, PartialEq, Eq, Hash, Structural)]
pub struct MavLinkId {
    /// System `ID`.
    pub system: SystemId,
    /// Component `ID`.
    pub component: ComponentId,
}

impl MavLinkId {
    /// Creates a new `ID` from the combination of MAVLink system and component ids.
    pub fn new(system: SystemId, component: ComponentId) -> (id: Self)
        ensures
            id.system == system,
            id.component == component,
    {
        Self { system, component }
    }
}

} // verus!
