//! From the end of a session to a verdict.

use vstd::prelude::*;
use crate::collector::{signals_completion, state_after, CollectorState, RoaCollector};
use crate::matching::{evaluate, evaluation, Evaluation, MatchResult};
use crate::prefix::RoutePrefix;
use crate::roa::RouteOrigin;
use crate::session::{
    classify,
    conclude,
    gathered,
    outcome_of,
    ErrorCategory,
    FatalError,
    RunEnd,
    SessionError,
    SessionOutcome,
};

verus! {

/// The result of a validation: the evaluation of the query against the
/// route origins gathered, where the session left any to be used, and the
/// reason why it did not otherwise.
pub open spec fn validation(
    end: RunEnd,
    roas: Seq<RouteOrigin>,
    target: RoutePrefix,
    asn: Option<u32>,
) -> Result<Evaluation, FatalError> {
    match gathered(outcome_of(end), roas) {
        Ok(kept) => Ok(evaluation(kept, target, asn)),
        Err(error) => Err(error),
    }
}

/// Validates `target`, and the origin AS `asn` if one is given, against
/// what the collector holds after its session ended in the way `end`.
pub fn validate(end: RunEnd, collector: RoaCollector, target: &RoutePrefix, asn: Option<u32>) -> (result:
    Result<MatchResult, FatalError>)
    ensures
        match validation(end, collector@.roas, *target, asn) {
            Ok(found) => result matches Ok(held) && held@ == found,
            Err(error) => result == Err::<MatchResult, FatalError>(error),
        },
        collector@.roas.len() == 0 ==> result is Err,
{
    match conclude(classify(end), collector) {
        Ok(roas) => Ok(evaluate(&roas, target, asn)),
        Err(error) => Err(error),
    }
}

/// The exit status of the program for the result of a validation: zero
/// whenever a verdict was reached, whatever the verdict, and one for every
/// fatal error.
pub fn exit_status(result: &Result<MatchResult, FatalError>) -> (status: u8)
    ensures
        status == if result is Ok {
            0u8
        } else {
            1u8
        },
{
    match result {
        Ok(_) => 0,
        Err(_) => 1,
    }
}

/// An empty set is fatal: when the session ended with a usable outcome and
/// no route origin was gathered, the validation fails with `EmptyResult`,
/// and in no case does an empty set lead to a verdict.
pub proof fn lemma_empty_set_is_fatal(end: RunEnd, target: RoutePrefix, asn: Option<u32>)
    ensures
        validation(end, Seq::empty(), target, asn) is Err,
        outcome_of(end).usable() ==> validation(end, Seq::empty(), target, asn) == Err::<
            Evaluation,
            FatalError,
        >(FatalError::EmptyResult),
{
}

/// Stopping keeps what was gathered: a collector that holds route origins
/// answers an empty batch with the stop signal and holds the same route
/// origins afterwards; the error of category `Other`, in whose shape the
/// signal reaches the driver, is classified as `SignaledDone`, which is
/// usable, and the route origins held are what is left to be evaluated.
pub proof fn lemma_stop_keeps_what_was_gathered(before: CollectorState, error: SessionError)
    requires
        before.roas.len() > 0,
        error.category == ErrorCategory::Other,
    ensures
        signals_completion(before, Seq::empty()),
        state_after(before, Seq::empty()).roas == before.roas,
        outcome_of(RunEnd::Errored(error)) == SessionOutcome::SignaledDone,
        outcome_of(RunEnd::Errored(error)).usable(),
        gathered(outcome_of(RunEnd::Errored(error)), before.roas) == Ok::<
            Seq<RouteOrigin>,
            FatalError,
        >(before.roas),
{
    assert(state_after(before, Seq::empty()).roas =~= before.roas);
}

} // verus!
