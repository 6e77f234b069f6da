//! The error-handler registry: one slot per extractor kind, owned by the
//! application instance, written once at construction time and then only
//! read.
//!
//! Each extractor kind owns one registry value; the application builder
//! passes it down to wherever requests are dispatched. The stored handler is
//! shared by every concurrent request that resolves it, so the caller picks
//! a handler type that is safe to share read-only.

use vstd::prelude::*;

verus! {

/// At most one registered error handler.
#[derive(Debug)]
pub struct HandlerRegistry<H> {
    pub handler: Option<H>,
}

impl<H> HandlerRegistry<H> {
    /// An empty registry: no handler, so the default rendering applies.
    pub fn new() -> (r: HandlerRegistry<H>)
        ensures
            r.handler is None,
    {
        HandlerRegistry { handler: Option::None }
    }

    /// Register a handler; the last registration wins.
    pub fn register(&mut self, h: H)
        ensures
            final(self).handler == Option::Some(h),
    {
        self.handler = Option::Some(h);
    }

    /// Look the handler up; neither blocks nor suspends, and leaves the
    /// registry unchanged.
    pub fn lookup(&self) -> (r: Option<&H>)
        ensures
            r is Some <==> self.handler is Some,
            r matches Some(h) ==> *h == self.handler->0,
    {
        self.handler.as_ref()
    }

    /// Whether a handler is registered.
    pub fn is_registered(&self) -> (r: bool)
        ensures
            r == (self.handler is Some),
    {
        self.handler.is_some()
    }
}

} // verus!
