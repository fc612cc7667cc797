//! Sealing of the library's traits.

use vstd::prelude::*;

verus! {

/// Marker for types that may implement the library's sealed traits.
///
/// The connection configurations of the I/O layer implement it, together with
/// [`MaybeConnConf`](crate::marker::MaybeConnConf) and [`HasConnConf`](crate::marker::HasConnConf).
pub trait Sealed {

}

} // verus!
