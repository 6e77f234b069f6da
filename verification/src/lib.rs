//! A validate-then-use pipeline for request payloads.
//!
//! Once a raw payload has been decoded into a typed value, a validation pass
//! runs before the value reaches application code; validation failures are
//! turned into an HTTP-facing error, either by a caller-registered handler or
//! by a default plain-text rendering.

use vstd::prelude::*;

pub mod errors;
pub mod flatten;
pub mod pipeline;
pub mod registry;
pub mod render;
pub mod text;

verus! {

/// A transparent wrapper marking a value that has passed validation.
///
/// It exclusively owns the wrapped value and adds no behaviour of its own
/// beyond identity: the inner value can be read, replaced, or taken back out.
#[derive(Debug, PartialEq, Eq)]
pub struct Validated<T>(pub T);

impl<T> Validated<T> {
    /// Consume the wrapper and yield the owned inner value.
    pub fn into_inner(self) -> (r: T)
        ensures
            r == self.0,
    {
        self.0
    }

    /// Read the inner value without copying.
    pub fn get(&self) -> (r: &T)
        ensures
            *r == self.0,
    {
        &self.0
    }

    /// Mutate in place: swap a new inner value in, yielding the old one.
    pub fn replace(&mut self, value: T) -> (prev: T)
        ensures
            final(self).0 == value,
            prev == old(self).0,
    {
        let mut v = value;
        core::mem::swap(&mut self.0, &mut v);
        v
    }
}

} // verus!
