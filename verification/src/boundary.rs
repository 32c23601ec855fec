//! Call-time behavior of a generated boundary function once the wrapped body
//! has run: return the raw value on success, or turn the failure, propagated
//! error and panic alike, into one exception payload for the foreign runtime.

use crate::backtrace::{raise_from_error, raise_from_panic, spec_exception_message, spec_extracted,
    BacktraceSlot, PanicPayload};
use crate::bridge::RawValue;
use vstd::prelude::*;

verus! {

/// How one execution of the wrapped body ended. A propagated domain error
/// exists only under `raise_on_err`: without it the body's result is already
/// the raw value.
#[derive(Debug)]
pub enum BodyOutcome {
    /// The body succeeded and its result was converted to a raw value.
    Returned(RawValue),
    /// The body returned its error variant (only under `raise_on_err`).
    DomainError(String),
    /// The body panicked and the boundary caught the payload.
    Panicked(PanicPayload),
}

/// What the boundary does next: hand the raw value back to the foreign
/// caller, or raise a foreign exception carrying the payload text and never
/// resume on the native side.
#[derive(Debug)]
pub enum BoundaryOutcome {
    Return(RawValue),
    Raise(String),
}

/// The cause text a failed body outcome contributes to the exception payload.
pub open spec fn spec_failure_cause(outcome: BodyOutcome) -> Seq<char>
    recommends
        !(outcome is Returned),
{
    match outcome {
        BodyOutcome::DomainError(e) => e@,
        BodyOutcome::Panicked(p) => spec_extracted(p),
        BodyOutcome::Returned(_) => Seq::empty(),
    }
}

/// Decide one boundary call's ending. Success returns the raw value and
/// leaves the slot alone. Every failure, domain error and panic alike, is
/// raised through the one exception channel: its payload embeds the failure's
/// cause and the captured trace if one was pending, and the slot is cleared.
pub fn boundary_dispatch(raise_on_err: bool, outcome: BodyOutcome, slot: &mut BacktraceSlot) -> (r:
    BoundaryOutcome)
    requires
        !raise_on_err ==> !(outcome is DomainError),
    ensures
        match r {
            BoundaryOutcome::Return(v) => outcome == BodyOutcome::Returned(v) && *final(slot)
                == *old(slot),
            BoundaryOutcome::Raise(p) => {
                &&& !(outcome is Returned)
                &&& p@ == spec_exception_message(
                    spec_failure_cause(outcome),
                    old(slot).trace_view(),
                )
                &&& *final(slot) == old(slot).spec_cleared()
            },
        },
{
    match outcome {
        BodyOutcome::Returned(v) => BoundaryOutcome::Return(v),
        BodyOutcome::DomainError(e) => BoundaryOutcome::Raise(raise_from_error(slot, &e)),
        BodyOutcome::Panicked(p) => BoundaryOutcome::Raise(raise_from_panic(slot, &p)),
    }
}

/// A wrapped body that returns a domain error under `raise_on_err`, and one
/// that panics with the same string without it, converge on identical
/// foreign-visible output: the two exception payloads are equal.
pub proof fn lemma_modes_converge(e: String, trace: Option<Seq<char>>)
    ensures
        spec_exception_message(spec_failure_cause(BodyOutcome::DomainError(e)), trace)
            == spec_exception_message(
            spec_failure_cause(BodyOutcome::Panicked(PanicPayload::StrSlice(e))),
            trace,
        ),
{
}

} // verus!
