//! The application object shared with Python, and the context it is built
//! from.

use crate::slot::{after_access, take_result, Access, ConsumedError, Slot};
use vstd::prelude::*;

verus! {

/// The callback that the event loop calls for each run event.
pub enum RunCallback<C> {
    /// A Python callable.
    Python(C),
    /// A callback that does nothing.
    Noop,
}

/// The callback used for `callback`: the Python callable when one is given,
/// otherwise one that does nothing.
pub open spec fn callback_for<C>(callback: Option<C>) -> RunCallback<C> {
    match callback {
        Some(c) => RunCallback::Python(c),
        None => RunCallback::Noop,
    }
}

impl<C> RunCallback<C> {
    /// The callback used for `callback`.
    pub fn from_option(callback: Option<C>) -> (r: Self)
        ensures
            r == callback_for(callback),
    {
        match callback {
            Some(c) => RunCallback::Python(c),
            None => RunCallback::Noop,
        }
    }
}

/// A built application. Running it consumes it; the other operations
/// borrow it while it has not been run.
pub struct App<T> {
    inner: Slot<T>,
}

impl<T> App<T> {
    /// Holds a built application.
    pub fn new(app: T) -> (r: Self)
        ensures
            r.state() == Some(app),
    {
        App { inner: Slot::new(app) }
    }

    /// The application, while it has not been run.
    pub closed spec fn state(&self) -> Option<T> {
        self.inner@
    }

    /// Takes the application out to run its event loop to the end.
    pub fn run(&mut self) -> (r: Result<T, ConsumedError>)
        ensures
            r == take_result(old(self).state()),
            final(self).state() is None,
            (final(self).state() is Some) == after_access(old(self).state() is Some, Access::Take),
    {
        self.inner.take()
    }

    /// Borrows the application mutably to run one iteration of its event
    /// loop.
    pub fn run_iteration(&mut self) -> (r: Result<&mut T, ConsumedError>)
        ensures
            (match old(self).state() {
                None => r is Err && final(self).state() is None,
                Some(a) => r is Ok && *r->Ok_0 == a && final(self).state() == Some(
                    *final(r->Ok_0),
                ),
            }),
            (final(self).state() is Some) == after_access(old(self).state() is Some, Access::Borrow),
    {
        self.inner.get_mut()
    }

    /// Borrows the application to clean it up before the process exits.
    pub fn cleanup_before_exit(&self) -> (r: Result<&T, ConsumedError>)
        ensures
            r is Ok <==> self.state() is Some,
            r matches Ok(a) ==> Some(*a) == self.state(),
    {
        self.inner.get()
    }

    /// Borrows the application to reach its shared handle.
    pub fn handle(&self) -> (r: Result<&T, ConsumedError>)
        ensures
            r is Ok <==> self.state() is Some,
            r matches Ok(a) ==> Some(*a) == self.state(),
    {
        self.inner.get()
    }
}

/// The context (configuration and assets) that an application is built
/// from; building takes it out once.
pub struct Context<T> {
    inner: Slot<T>,
}

impl<T> Context<T> {
    /// Holds a context.
    pub fn new(context: T) -> (r: Self)
        ensures
            r.state() == Some(context),
    {
        Context { inner: Slot::new(context) }
    }

    /// The context, while it has not been taken out.
    pub closed spec fn state(&self) -> Option<T> {
        self.inner@
    }

    /// Takes the context out to build an application from it.
    pub fn take(&mut self) -> (r: Result<T, ConsumedError>)
        ensures
            r == take_result(old(self).state()),
            final(self).state() is None,
            (final(self).state() is Some) == after_access(old(self).state() is Some, Access::Take),
    {
        self.inner.take()
    }
}

} // verus!
