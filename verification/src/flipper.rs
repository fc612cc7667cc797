//! Guarded shared boolean values.
//!
//! A guarded flipper is a boolean value shared between its copies, together with a guard that
//! decides when the value is finalized. Once the guard is closed, the value reads `false` and
//! can no longer be set. Like the state of a [`Closer`], the value is an atomic shared by all
//! copies, so the contracts state which copies share a value and a guard and which loads and
//! stores a flipper makes, not what a load gives back.

use std::marker::PhantomData;
use std::sync::atomic::{AtomicBool, AtomicUsize};
use std::sync::Arc;

use vstd::prelude::*;

use crate::closable::{read_order, write_order, Closable, Closer, SharedCloser, WillClose};
use crate::sealed::Sealed;

verus! {

/// Another handle to the same value (`Arc::clone`): both point to one atomic value.
fn share_value(value: &Arc<AtomicBool>) -> (shared: Arc<AtomicBool>)
    ensures
        shared == *value,
{
    value.clone()
}

/// A trait that represents a shared atomic guarded boolean value that can be finalized.
///
/// This trait is sealed.
pub trait Flipper: Sealed {

}

/// A simple flag that can be either in "on" or "off" state.
///
/// Combined with a [`Guarded`], it will be flipped on drop of the guard.
#[derive(Debug, Default)]
pub struct Flag;

/// A switch that can be either in "on" or "off" state and has a predefined final state.
///
/// Combined with a [`Guarded`], it will be set to the final state, when guard is dropped.
#[derive(Debug, Default)]
pub struct Switch;

/// Guarded flipper.
pub struct Guarded<C: WillClose, F: Flipper> {
    flag: Arc<AtomicBool>,
    guard: C,
    state: Closable,
    _kind: PhantomData<F>,
}

impl<C: WillClose, F: Flipper> Guarded<C, F> {
    /// The shared boolean value.
    pub closed spec fn value(&self) -> AtomicBool {
        *self.flag
    }

    /// The guard that decides when the value is finalized.
    pub closed spec fn guard(&self) -> C {
        self.guard
    }

    /// The closing state the value is read against.
    pub closed spec fn state(&self) -> AtomicBool {
        self.state.flag()
    }
}

impl Guarded<Closer, Switch> {
    /// Default constructor.
    ///
    /// Creates a guarded switch which is initialized with `false` and will be set to `false` once
    /// guard is dropped.
    pub fn new() -> (switch: Self)
        ensures
            switch.state() == switch.guard().flag(),
            call_ensures(AtomicBool::new, (false,), switch.value()),
    {
        let guard = Closer::new();
        let state = guard.to_closable();

        Self { flag: Arc::new(AtomicBool::new(false)), guard, state, _kind: PhantomData }
    }

    /// Creates default shared switch.
    ///
    /// Default switch is initialized with `false` and will be set to `false` once
    /// guard is dropped.
    pub fn shared() -> (switch: Guarded<SharedCloser, Switch>)
        ensures
            switch.state() == switch.guard().flag(),
            !switch.guard().is_associated(),
            call_ensures(AtomicBool::new, (false,), switch.value()),
    {
        Self::new().into_shared()
    }

    /// Sets the value of the switch to `true` in-place, does not have effect if already closed.
    ///
    /// This method takes [`Guarded<Closer, Switch>`] by value and returns an updated version.
    pub fn up(self) -> (switch: Self)
        ensures
            switch.value() == self.value(),
            switch.guard() == self.guard(),
            switch.state() == self.state(),
            call_ensures(AtomicBool::load, (&self.state(), read_order()), true) || (call_ensures(
                AtomicBool::load,
                (&self.state(), read_order()),
                false,
            ) && call_ensures(AtomicBool::store, (&self.value(), true, write_order()), ())),
    {
        if !self.state.is_closed() {
            self.flag.store(true, std::sync::atomic::Ordering::Release);
        }

        Self { flag: self.flag, guard: self.guard, state: self.state, _kind: PhantomData }
    }

    /// Create a shared flag from this switch.
    #[must_use]
    pub fn to_flag(&self) -> (flag: Guarded<SharedCloser, Flag>)
        ensures
            flag.value() == self.value(),
            flag.state() == self.state(),
            flag.guard().flag() == self.guard().flag(),
            flag.guard().is_associated(),
    {
        self.to_shared().into_flag()
    }
}

impl<F: Flipper> Guarded<Closer, F> {
    /// Creates a new associated shared guarded flipper.
    ///
    /// If the obtained shared flipper is dropped, then original flipper will also receive a
    /// closing event.
    #[must_use]
    pub fn to_shared(&self) -> (shared: Guarded<SharedCloser, F>)
        ensures
            shared.value() == self.value(),
            shared.state() == self.state(),
            shared.guard().flag() == self.guard().flag(),
            shared.guard().is_associated(),
    {
        Guarded {
            flag: share_value(&self.flag),
            guard: self.guard.to_shared(),
            state: self.state.share(),
            _kind: PhantomData,
        }
    }

    /// Transforms itself into shared guarded flipper.
    pub fn into_shared(self) -> (shared: Guarded<SharedCloser, F>)
        ensures
            shared.value() == self.value(),
            shared.state() == self.state(),
            shared.guard().flag() == self.guard().flag(),
            !shared.guard().is_associated(),
    {
        Guarded {
            flag: share_value(&self.flag),
            guard: self.guard.into_shared(),
            state: self.state.share(),
            _kind: PhantomData,
        }
    }

    /// Closes the guarded flipper.
    pub fn close(&mut self)
        ensures
            final(self).value() == old(self).value(),
            final(self).state() == old(self).state(),
            final(self).guard().flag() == old(self).guard().flag(),
            call_ensures(AtomicBool::store, (&old(self).guard().flag(), true, write_order()), ()),
    {
        self.guard.close()
    }
}

impl<F: Flipper> Guarded<SharedCloser, F> {
    /// Converts this shared closer into a shared flag.
    pub fn into_flag(self) -> (flag: Guarded<SharedCloser, Flag>)
        ensures
            flag.value() == self.value(),
            flag.state() == self.state(),
            flag.guard() == self.guard(),
    {
        Guarded {
            flag: share_value(&self.flag),
            guard: self.guard,
            state: self.state,
            _kind: PhantomData,
        }
    }

    /// Discards this shared guard without triggering a closing event.
    ///
    /// The guard is discarded: see [`SharedCloser::discard`].
    pub fn discard(self)
        ensures
            exists|n: usize|
                call_ensures(AtomicUsize::load, (&self.guard().owners(), read_order()), n) && (
                !self.guard().is_associated() && n <= 1 ==> call_ensures(
                    AtomicBool::store,
                    (&self.guard().flag(), true, write_order()),
                    (),
                )),
    {
        self.guard.discard()
    }

    /// Closes the guarded flipper.
    pub fn close(&mut self)
        ensures
            final(self).value() == old(self).value(),
            final(self).state() == old(self).state(),
            final(self).guard().flag() == old(self).guard().flag(),
            final(self).guard().is_associated() == old(self).guard().is_associated(),
            call_ensures(AtomicBool::store, (&old(self).guard().flag(), true, write_order()), ()),
    {
        self.guard.close()
    }
}

impl<C: WillClose> Guarded<C, Switch> {
    /// Sets the value of the switch, does not have effect if already closed.
    pub fn set(&mut self, value: bool)
        ensures
            final(self).value() == old(self).value(),
            final(self).state() == old(self).state(),
            final(self).guard() == old(self).guard(),
            call_ensures(AtomicBool::load, (&old(self).state(), read_order()), true) || (
            call_ensures(AtomicBool::load, (&old(self).state(), read_order()), false)
                && call_ensures(AtomicBool::store, (&old(self).value(), value, write_order()), ())),
    {
        if !self.state.is_closed() {
            self.flag.store(value, std::sync::atomic::Ordering::Release);
        }
    }
}

impl<C: WillClose, F: Flipper> Guarded<C, F> {
    /// Creates a watcher for a flipper.
    ///
    /// A watcher is an instance of [`Guarded<Closable, _>`] which can't initiate closing.
    pub fn to_watcher(&self) -> (watcher: Guarded<Closable, Flag>)
        ensures
            watcher.value() == self.value(),
            watcher.state() == self.state(),
            watcher.guard().flag() == self.state(),
    {
        Guarded {
            flag: share_value(&self.flag),
            guard: self.state.share(),
            state: self.state.share(),
            _kind: PhantomData,
        }
    }

    /// Returns the value of a switch.
    ///
    /// Always returns `false` if guard is closed: a load of the closing state that gives `true`
    /// answers `false`; otherwise the answer is what a load of the value gives.
    pub fn is(&self) -> (value: bool)
        ensures
            (call_ensures(AtomicBool::load, (&self.state(), read_order()), true) && !value) || (
            call_ensures(AtomicBool::load, (&self.state(), read_order()), false)
                && call_ensures(AtomicBool::load, (&self.value(), read_order()), value)),
    {
        if self.state.is_closed() {
            false
        } else {
            self.flag.load(std::sync::atomic::Ordering::Acquire)
        }
    }

    /// Returns `true` if guard is dropped or closed.
    ///
    /// The answer is the guard's own.
    pub fn is_closed(&self) -> (closed: bool)
        ensures
            call_ensures(C::is_closed, (&self.guard(),), closed),
    {
        self.guard.is_closed()
    }
}

impl Default for Guarded<Closer, Switch> {
    fn default() -> (switch: Self)
        ensures
            switch.state() == switch.guard().flag(),
            call_ensures(AtomicBool::new, (false,), switch.value()),
    {
        Self::new()
    }
}

impl<F: Flipper> Clone for Guarded<SharedCloser, F> {
    fn clone(&self) -> (copy: Self)
        ensures
            copy.value() == self.value(),
            copy.state() == self.state(),
            copy.guard().flag() == self.guard().flag(),
            copy.guard().owners() == self.guard().owners(),
            copy.guard().is_associated() == self.guard().is_associated(),
    {
        Self {
            flag: share_value(&self.flag),
            guard: self.guard.clone(),
            state: self.state.share(),
            _kind: PhantomData,
        }
    }
}

impl<F: Flipper> Clone for Guarded<Closable, F> {
    fn clone(&self) -> (copy: Self)
        ensures
            copy.value() == self.value(),
            copy.state() == self.state(),
            copy.guard().flag() == self.guard().flag(),
    {
        Self {
            flag: share_value(&self.flag),
            guard: self.guard.share(),
            state: self.state.share(),
            _kind: PhantomData,
        }
    }
}

impl<C: WillClose, F: Flipper> Sealed for Guarded<C, F> {

}

impl<C: WillClose, F: Flipper> WillClose for Guarded<C, F> {
    /// The guard's own answer, the one of [`Guarded::is_closed`].
    fn is_closed(&self) -> (closed: bool)
        ensures
            call_ensures(C::is_closed, (&self.guard(),), closed),
    {
        Guarded::<C, F>::is_closed(self)
    }

    fn to_closable(&self) -> (closable: Closable)
        ensures
            closable.flag() == self.state(),
    {
        self.state.share()
    }
}

impl Sealed for Flag {

}

impl Flipper for Flag {

}

impl Sealed for Switch {

}

impl Flipper for Switch {

}

/// A switch built from a guard holds a new atomic value, so the conversions below state what
/// they keep of the guard, and with which value the new atomic is created, in their own `ensures`
/// only.
impl vstd::std_specs::convert::FromSpecImpl<Closer> for Guarded<Closer, Switch> {
    open spec fn obeys_from_spec() -> bool {
        false
    }

    open spec fn from_spec(v: Closer) -> Self {
        arbitrary()
    }
}

impl vstd::std_specs::convert::FromSpecImpl<&Closer> for Guarded<SharedCloser, Switch> {
    open spec fn obeys_from_spec() -> bool {
        false
    }

    open spec fn from_spec(v: &Closer) -> Self {
        arbitrary()
    }
}

impl vstd::std_specs::convert::FromSpecImpl<SharedCloser> for Guarded<SharedCloser, Switch> {
    open spec fn obeys_from_spec() -> bool {
        false
    }

    open spec fn from_spec(v: SharedCloser) -> Self {
        arbitrary()
    }
}

impl vstd::std_specs::convert::FromSpecImpl<&SharedCloser> for Guarded<SharedCloser, Switch> {
    open spec fn obeys_from_spec() -> bool {
        false
    }

    open spec fn from_spec(v: &SharedCloser) -> Self {
        arbitrary()
    }
}

impl From<Closer> for Guarded<Closer, Switch> {
    fn from(value: Closer) -> (switch: Self)
        ensures
            call_ensures(AtomicBool::new, (false,), switch.value()),
            switch.guard() == value,
            switch.state() == value.flag(),
    {
        let state = value.to_closable();
        Self { flag: Arc::new(AtomicBool::new(false)), guard: value, state, _kind: PhantomData }
    }
}

impl From<&Closer> for Guarded<SharedCloser, Switch> {
    fn from(value: &Closer) -> (switch: Self)
        ensures
            call_ensures(AtomicBool::new, (false,), switch.value()),
            switch.guard().flag() == value.flag(),
            switch.guard().is_associated(),
            switch.state() == value.flag(),
    {
        Self {
            flag: Arc::new(AtomicBool::new(false)),
            guard: value.to_shared(),
            state: value.to_closable(),
            _kind: PhantomData,
        }
    }
}

impl From<SharedCloser> for Guarded<SharedCloser, Switch> {
    fn from(value: SharedCloser) -> (switch: Self)
        ensures
            call_ensures(AtomicBool::new, (false,), switch.value()),
            switch.guard() == value,
            switch.state() == value.flag(),
    {
        let state = value.to_closable();
        Self { flag: Arc::new(AtomicBool::new(false)), guard: value, state, _kind: PhantomData }
    }
}

impl From<&SharedCloser> for Guarded<SharedCloser, Switch> {
    fn from(value: &SharedCloser) -> (switch: Self)
        ensures
            call_ensures(AtomicBool::new, (false,), switch.value()),
            switch.guard().flag() == value.flag(),
            switch.guard().owners() == value.owners(),
            switch.guard().is_associated() == value.is_associated(),
            switch.state() == value.flag(),
    {
        Self {
            flag: Arc::new(AtomicBool::new(false)),
            guard: value.clone(),
            state: value.to_closable(),
            _kind: PhantomData,
        }
    }
}

} // verus!
