//! Opaque identifiers.

use vstd::prelude::*;

verus! {

/// Opaque identifier of a connection or a channel.
///
/// Identifiers are compared for equality only. Handing out values that were never handed out
/// before is left to the code that creates connections and channels.
#[derive(Copy, Clone, Debug, PartialEq, Eq, Hash, Structural)]
pub struct UniqueId(u64);

impl UniqueId {
    /// Raw value of the identifier.
    pub closed spec fn raw(&self) -> u64 {
        self.0
    }

    /// Creates an identifier from its raw value.
    pub fn new(raw: u64) -> (id: Self)
        ensures
            id.raw() == raw,
    {
        UniqueId(raw)
    }

    /// Raw value of the identifier.
    pub fn as_raw(&self) -> (raw: u64)
        ensures
            raw == self.raw(),
    {
        self.0
    }
}

/// Two identifiers are the same exactly when their raw values are.
pub proof fn law_id_equality(a: UniqueId, b: UniqueId)
    ensures
        (a == b) <==> (a.raw() == b.raw()),
{
}

} // verus!
