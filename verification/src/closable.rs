//! # Abstractions for closable tasks and resources
//!
//! There are three level of resource ownership:
//!
//! * [`Closer`] represents a resource which is closed when its owner goes out of scope.
//! * [`SharedCloser`] represent a resources with shared owners, that is valid while at least one
//!   of the owners has a copy.
//! * [`Closable`] represents a dependent read-only view of the state.
//!
//! The closing state is an atomic flag shared between all handles. Its value may be changed by any
//! handle at any time, so the contracts below state which handles share a state, with which value
//! a flag is created and which loads and stores a handle makes on it, not what a load gives back.

use std::sync::atomic::{AtomicBool, AtomicUsize, Ordering};
use std::sync::Arc;

use vstd::prelude::*;

use crate::sealed::Sealed;

verus! {

/// Memory ordering of every load of a closing flag or a flipper value.
pub open spec fn read_order() -> Ordering {
    Ordering::Acquire
}

/// Memory ordering of every store into a closing flag or a flipper value.
pub open spec fn write_order() -> Ordering {
    Ordering::Release
}

/// Another handle to the same flag (`Arc::clone`): both point to one atomic value.
fn share_flag(flag: &Arc<AtomicBool>) -> (shared: Arc<AtomicBool>)
    ensures
        shared == *flag,
{
    flag.clone()
}

/// Another handle to the same owner counter (`Arc::clone`).
fn share_counter(counter: &Arc<AtomicUsize>) -> (shared: Arc<AtomicUsize>)
    ensures
        shared == *counter,
{
    counter.clone()
}

/// Stores `true` into the flag (`AtomicBool::store` with release ordering, which neither
/// panics nor touches invariants): the one call that the body makes. Nothing is stated of later
/// reads: other handles share the flag.
#[verifier::external_body]
fn raise_flag(flag: &AtomicBool) -> (stored: ())
    ensures
        call_ensures(AtomicBool::store, (flag, true, write_order()), stored),
    opens_invariants none
    no_unwind
{
    flag.store(true, std::sync::atomic::Ordering::Release)
}

/// Decrements the owner counter and returns its value before the call (`AtomicUsize::fetch_sub`
/// with release ordering, which wraps around instead of panicking). The value depends on what
/// the other owners did, so nothing is stated of it beyond its being what that one call gave.
#[verifier::external_body]
fn release_owner(counter: &AtomicUsize) -> (before: usize)
    ensures
        call_ensures(AtomicUsize::fetch_sub, (counter, 1usize, write_order()), before),
    opens_invariants none
    no_unwind
{
    counter.fetch_sub(1, std::sync::atomic::Ordering::Release)
}

/// A trait for anything that may be closed.
///
/// This trait is sealed. It is implemented by [`Closer`], [`SharedCloser`], [`Closable`], and
/// [`Closed`].
pub trait WillClose: Sealed {
    /// Returns `true` if resource is closed.
    ///
    /// The blanket implementation always returns `true`.
    fn is_closed(&self) -> (closed: bool)
        default_ensures
            closed,
    {
        true
    }

    /// Returns [`Closable`] proxy to itself.
    fn to_closable(&self) -> Closable;
}

/// State of a resource or operation that governed by the main task.
///
/// [`Closer`] is owned by a resource that can be closed. When [`Closer::close`] is called or
/// object goes out of scope, it becomes closed.
#[derive(Debug)]
#[must_use]
pub struct Closer(Arc<AtomicBool>);

impl Closer {
    /// The shared closing flag.
    pub closed spec fn flag(&self) -> AtomicBool {
        *self.0
    }

    /// Creates an instance of closable.
    ///
    /// The flag is a new atomic created with `false`: the resource is open.
    pub fn new() -> (closer: Self)
        ensures
            call_ensures(AtomicBool::new, (false,), closer.flag()),
    {
        Self(Arc::new(AtomicBool::new(false)))
    }

    /// Returns an instance of [`Closable`], a read-only accessor to the internal state.
    pub fn to_closable(&self) -> (closable: Closable)
        ensures
            closable.flag() == self.flag(),
    {
        Closable(share_flag(&self.0))
    }

    /// Returns an instance of [`SharedCloser`] that shares the same closing state.
    ///
    /// The obtained shared closer is associated with this closer: dropping all copies of it closes
    /// the state, while discarding them does not.
    pub fn to_shared(&self) -> (shared: SharedCloser)
        ensures
            shared.flag() == self.flag(),
            shared.is_associated(),
            call_ensures(AtomicUsize::new, (1usize,), shared.owners()),
    {
        SharedCloser {
            flag: share_flag(&self.0),
            owners: Arc::new(AtomicUsize::new(1)),
            associated: true,
        }
    }

    /// Transforms into a shared closer.
    ///
    /// Takes an instance of [`Closer`] by value and transforms it into a [`SharedCloser`] that
    /// takes over the state without closing it.
    pub fn into_shared(self) -> (shared: SharedCloser)
        ensures
            shared.flag() == self.flag(),
            !shared.is_associated(),
            call_ensures(AtomicUsize::new, (1usize,), shared.owners()),
    {
        let mut closer = self;
        let mut flag = Arc::new(AtomicBool::new(false));
        std::mem::swap(&mut closer.0, &mut flag);

        SharedCloser { flag, owners: Arc::new(AtomicUsize::new(1)), associated: false }
    }

    /// Closes the resource.
    ///
    /// From this moment both the main [`Closer`] and all associated instances of [`Closable`] will
    /// be closed.
    pub fn close(&mut self)
        ensures
            final(self).flag() == old(self).flag(),
            call_ensures(AtomicBool::store, (&old(self).flag(), true, write_order()), ()),
    {
        self.0.store(true, std::sync::atomic::Ordering::Release);
    }

    /// Returns `true` if resource is closed: the value a load of the shared flag gives.
    pub fn is_closed(&self) -> (closed: bool)
        ensures
            call_ensures(AtomicBool::load, (&self.flag(), read_order()), closed),
    {
        self.0.load(std::sync::atomic::Ordering::Acquire)
    }
}

impl Sealed for Closer {

}

impl WillClose for Closer {
    fn is_closed(&self) -> (closed: bool)
        ensures
            call_ensures(AtomicBool::load, (&self.flag(), read_order()), closed),
    {
        Closer::is_closed(self)
    }

    fn to_closable(&self) -> (closable: Closable)
        ensures
            closable.flag() == self.flag(),
    {
        Closer::to_closable(self)
    }
}

impl Default for Closer {
    fn default() -> (closer: Self)
        ensures
            call_ensures(AtomicBool::new, (false,), closer.flag()),
    {
        Self::new()
    }
}

impl Drop for Closer {
    /// Closes the resource: stores `true` into the shared flag.
    fn drop(&mut self)
        ensures
            call_ensures(AtomicBool::store, (&old(self).flag(), true, write_order()), ()),
        opens_invariants none
        no_unwind
    {
        raise_flag(&self.0);
    }
}

/// State of a resource or operation that handled by several independent subroutines.
///
/// Similar to [`Closer`], except it can be cloned. When all copies are gone out of scope, then
/// resource is transitioned to closed state.
#[derive(Debug)]
#[must_use]
pub struct SharedCloser {
    flag: Arc<AtomicBool>,
    owners: Arc<AtomicUsize>,
    associated: bool,
}

impl SharedCloser {
    /// The shared closing flag.
    pub closed spec fn flag(&self) -> AtomicBool {
        *self.flag
    }

    /// The counter of owners shared by all copies.
    pub closed spec fn owners(&self) -> AtomicUsize {
        *self.owners
    }

    /// `true` if this shared closer was produced by [`Closer::to_shared`].
    pub closed spec fn is_associated(&self) -> bool {
        self.associated
    }

    /// Creates a new instance of [`SharedCloser`].
    ///
    /// The flag is a new atomic created with `false` and the counter a new atomic created with
    /// one owner.
    pub fn new() -> (shared: Self)
        ensures
            !shared.is_associated(),
            call_ensures(AtomicBool::new, (false,), shared.flag()),
            call_ensures(AtomicUsize::new, (1usize,), shared.owners()),
    {
        Self {
            flag: Arc::new(AtomicBool::new(false)),
            owners: Arc::new(AtomicUsize::new(1)),
            associated: false,
        }
    }

    /// Returns an instance of [`Closable`], a read-only accessor to the internal state.
    pub fn to_closable(&self) -> (closable: Closable)
        ensures
            closable.flag() == self.flag(),
    {
        Closable(share_flag(&self.flag))
    }

    /// Closes the resource.
    ///
    /// From this moment both the main [`Closer`] and all associated instances of [`Closable`] will
    /// be closed.
    pub fn close(&mut self)
        ensures
            final(self).flag() == old(self).flag(),
            final(self).owners() == old(self).owners(),
            final(self).is_associated() == old(self).is_associated(),
            call_ensures(AtomicBool::store, (&old(self).flag(), true, write_order()), ()),
    {
        self.flag.store(true, std::sync::atomic::Ordering::Release);
    }

    /// Discards this shared closer without triggering a closing event.
    ///
    /// If shared closer was not produced by [`Closer::to_shared`], that means it is not associated
    /// and if this is a last copy of shared closer, it will trigger close event.
    ///
    /// The decision rests on a load of the owner counter: the flag is raised when this closer is
    /// not associated and the load gives at most one owner.
    pub fn discard(self)
        ensures
            exists|n: usize|
                call_ensures(AtomicUsize::load, (&self.owners(), read_order()), n) && (
                !self.is_associated() && n <= 1 ==> call_ensures(
                    AtomicBool::store,
                    (&self.flag(), true, write_order()),
                    (),
                )),
    {
        let mut shared = self;
        let owners = shared.owners.load(std::sync::atomic::Ordering::Acquire);
        if !shared.associated && owners <= 1 {
            shared.close();
        }
        let mut empty = Arc::new(AtomicBool::new(false));
        std::mem::swap(&mut empty, &mut shared.flag);
    }

    /// Returns `true` if resource is closed: the value a load of the shared flag gives.
    pub fn is_closed(&self) -> (closed: bool)
        ensures
            call_ensures(AtomicBool::load, (&self.flag(), read_order()), closed),
    {
        self.flag.load(std::sync::atomic::Ordering::Acquire)
    }

    /// Raises the shared flag where no unwinding is allowed, as in a destructor.
    pub(crate) fn raise(&self)
        ensures
            call_ensures(AtomicBool::store, (&self.flag(), true, write_order()), ()),
        opens_invariants none
        no_unwind
    {
        raise_flag(&self.flag);
    }
}

impl Sealed for SharedCloser {

}

impl WillClose for SharedCloser {
    fn is_closed(&self) -> (closed: bool)
        ensures
            call_ensures(AtomicBool::load, (&self.flag(), read_order()), closed),
    {
        SharedCloser::is_closed(self)
    }

    fn to_closable(&self) -> (closable: Closable)
        ensures
            closable.flag() == self.flag(),
    {
        SharedCloser::to_closable(self)
    }
}

impl Default for SharedCloser {
    fn default() -> (shared: Self)
        ensures
            !shared.is_associated(),
            call_ensures(AtomicBool::new, (false,), shared.flag()),
            call_ensures(AtomicUsize::new, (1usize,), shared.owners()),
    {
        Self::new()
    }
}

impl Clone for SharedCloser {
    fn clone(&self) -> (copy: Self)
        ensures
            copy.flag() == self.flag(),
            copy.owners() == self.owners(),
            copy.is_associated() == self.is_associated(),
            exists|n: usize|
                call_ensures(AtomicUsize::fetch_add, (&self.owners(), 1usize, write_order()), n),
    {
        let owners = share_counter(&self.owners);
        owners.fetch_add(1, std::sync::atomic::Ordering::Release);

        Self { flag: share_flag(&self.flag), owners, associated: self.associated }
    }
}

impl Drop for SharedCloser {
    /// Releases this owner; the last owner closes the resource: when the decrement finds at most
    /// one owner, `true` is stored into the shared flag.
    fn drop(&mut self)
        ensures
            exists|before: usize|
                call_ensures(AtomicUsize::fetch_sub, (&old(self).owners(), 1usize, write_order()), before)
                    && (before <= 1 ==> call_ensures(
                    AtomicBool::store,
                    (&old(self).flag(), true, write_order()),
                    (),
                )),
        opens_invariants none
        no_unwind
    {
        let before = release_owner(&self.owners);
        if before <= 1 {
            raise_flag(&self.flag);
        }
    }
}

/// Read-only access to a state of a resource.
///
/// [`Closable`] can be obtained by [`Closer::to_closable`] or [`SharedCloser::to_closable`].
#[derive(Debug)]
#[must_use]
pub struct Closable(Arc<AtomicBool>);

impl Closable {
    /// The shared closing flag.
    pub closed spec fn flag(&self) -> AtomicBool {
        *self.0
    }

    /// Returns `true` if resource is closed: the value a load of the shared flag gives.
    pub fn is_closed(&self) -> (closed: bool)
        ensures
            call_ensures(AtomicBool::load, (&self.flag(), read_order()), closed),
    {
        self.0.load(std::sync::atomic::Ordering::Acquire)
    }

    /// Another view of the same state.
    pub fn share(&self) -> (closable: Closable)
        ensures
            closable.flag() == self.flag(),
    {
        Closable(share_flag(&self.0))
    }
}

impl Clone for Closable {
    fn clone(&self) -> (copy: Self)
        ensures
            copy.flag() == self.flag(),
    {
        self.share()
    }
}

impl Sealed for Closable {

}

impl WillClose for Closable {
    fn is_closed(&self) -> (closed: bool)
        ensures
            call_ensures(AtomicBool::load, (&self.flag(), read_order()), closed),
    {
        Closable::is_closed(self)
    }

    fn to_closable(&self) -> (closable: Closable)
        ensures
            closable.flag() == self.flag(),
    {
        self.share()
    }
}

/// An implementor of [`WillClose`], that always closed.
#[derive(Copy, Clone, Debug, Default)]
pub struct Closed;

impl Closed {
    /// Always returns `true`.
    pub fn is_closed(&self) -> (closed: bool)
        ensures
            closed,
    {
        true
    }

    /// Returns already closed [`Closable`]: its flag is a new atomic created with `true`.
    pub fn to_closable(&self) -> (closable: Closable)
        ensures
            call_ensures(AtomicBool::new, (true,), closable.flag()),
    {
        Closable(Arc::new(AtomicBool::new(true)))
    }
}

impl Sealed for Closed {

}

impl WillClose for Closed {
    fn is_closed(&self) -> (closed: bool)
        ensures
            closed,
    {
        Closed::is_closed(self)
    }

    fn to_closable(&self) -> (closable: Closable)
        ensures
            call_ensures(AtomicBool::new, (true,), closable.flag()),
    {
        Closed::to_closable(self)
    }
}

} // verus!
