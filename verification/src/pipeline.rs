//! The extraction-validation pipeline's decision logic.
//!
//! The asynchronous part of the pipeline — driving the inner extraction to
//! completion — is the caller's: it suspends exactly where the inner
//! extraction suspends, and if the request is dropped while still pending,
//! nothing here ever runs. Once the extraction has resolved, the remaining
//! work is synchronous and lives in [`resolve_extraction`]: validate the
//! decoded value, then either wrap it as [`Validated`] or route the failure
//! tree to a registered handler or to the default rendering.

use vstd::prelude::*;

use crate::Validated;
use crate::errors::ValidationError;
use crate::errors::ValidationErrorTree;

verus! {

/// The validation capability a decoded value must offer: a synchronous,
/// side-effect-free check returning success or the full tree of failures.
pub trait Validate {
    /// Whether the value satisfies every rule.
    spec fn valid(&self) -> bool;

    /// The failure tree the check reports when the value is invalid.
    spec fn errors(&self) -> ValidationErrorTree;

    /// Run the rules: `Ok` exactly on valid values, else the failure tree.
    fn validate(&self) -> (r: Result<(), ValidationErrorTree>)
        ensures
            r is Ok <==> self.valid(),
            r matches Err(t) ==> t == self.errors(),
    ;
}

/// How one request leaves the pipeline once its extraction has resolved.
#[derive(Debug, PartialEq, Eq)]
pub enum PipelineOutcome<T, E> {
    /// Extraction and validation both succeeded: the value, wrapped.
    Success(Validated<T>),
    /// The inner extraction failed: its error, passed through unchanged;
    /// validation was never attempted.
    ExtractionFailed(E),
    /// Validation failed and a handler is registered: the full, unflattened
    /// failure tree to hand to it.
    ValidationFailedHandled(ValidationErrorTree),
    /// Validation failed and no handler is registered: the failure tree to
    /// render with the default plain-text body and status 400.
    ValidationFailedDefault(ValidationErrorTree),
}

/// How the pipeline must leave, as a function of the resolved extraction
/// and whether an error handler is registered.
pub open spec fn pipeline_decision<T: Validate, E>(
    extracted: Result<T, E>,
    handler_registered: bool,
) -> PipelineOutcome<T, E> {
    match extracted {
        Result::Ok(v) => if v.valid() {
            PipelineOutcome::Success(Validated(v))
        } else if handler_registered {
            PipelineOutcome::ValidationFailedHandled(v.errors())
        } else {
            PipelineOutcome::ValidationFailedDefault(v.errors())
        },
        Result::Err(e) => PipelineOutcome::ExtractionFailed(e),
    }
}

/// The synchronous tail of the pipeline: given the resolved result of the
/// inner extraction and whether an error handler is registered for this
/// application, decide how the request leaves.
pub fn resolve_extraction<T: Validate, E>(extracted: Result<T, E>, handler_registered: bool) -> (out:
    PipelineOutcome<T, E>)
    ensures
        out == pipeline_decision(extracted, handler_registered),
{
    match extracted {
        Result::Ok(data) => match data.validate() {
            Result::Ok(()) => PipelineOutcome::Success(Validated(data)),
            Result::Err(e) => if handler_registered {
                PipelineOutcome::ValidationFailedHandled(e)
            } else {
                PipelineOutcome::ValidationFailedDefault(e)
            },
        },
        Result::Err(e) => PipelineOutcome::ExtractionFailed(e),
    }
}

/// A valid decoded value passes through untouched: the pipeline succeeds
/// with a wrapper whose inner value is exactly the decoded value, and no
/// error path is taken.
pub proof fn lemma_valid_value_passes_through<T: Validate, E>(v: T, handler_registered: bool)
    requires
        v.valid(),
    ensures
        pipeline_decision::<T, E>(Result::Ok(v), handler_registered)
            == PipelineOutcome::<T, E>::Success(Validated(v)),
{
}

/// A failed extraction leaves with its own error, unchanged, whether or
/// not a handler is registered; validation is never reached.
pub proof fn lemma_extraction_failure_passes_through<T: Validate, E>(
    e: E,
    handler_registered: bool,
)
    ensures
        pipeline_decision::<T, E>(Result::Err(e), handler_registered)
            == PipelineOutcome::<T, E>::ExtractionFailed(e),
{
}

/// With a handler registered, an invalid value never reaches the default
/// rendering: the handler receives the full, unflattened failure tree.
pub proof fn lemma_registered_handler_overrides_default<T: Validate, E>(v: T)
    requires
        !v.valid(),
    ensures
        pipeline_decision::<T, E>(Result::Ok(v), true)
            == PipelineOutcome::<T, E>::ValidationFailedHandled(v.errors()),
        !(pipeline_decision::<T, E>(Result::Ok(v), true) matches
            PipelineOutcome::ValidationFailedDefault(_)),
{
}

/// One violated rule on one top-level field, with no handler registered:
/// the pipeline leaves with the default rendering of the failure tree,
/// whose body is the header and exactly one line carrying that field's
/// path and the rule's own message; its status is the default error's.
pub proof fn lemma_single_violation_default_outcome<T: Validate, E>(
    v: T,
    name: String,
    e: ValidationError,
    tabbed: bool,
)
    requires
        !v.valid(),
        v.errors().entries@.len() == 1,
        v.errors().entries@[0].0 == name,
        v.errors().entries@[0].1 matches crate::errors::ValidationErrorsKind::Leaf(errs)
            && errs@ == seq![e],
    ensures
        pipeline_decision::<T, E>(Result::Ok(v), false)
            == PipelineOutcome::<T, E>::ValidationFailedDefault(v.errors()),
        crate::render::default_body_view(v.errors(), tabbed) == crate::render::header_text()
            + crate::render::rendered_line((0int, name@, e), tabbed),
{
    crate::render::lemma_single_violation_rendering(v.errors(), name, e, tabbed);
}

} // verus!
