//! How a session ended, and whether what it gathered can be used.
//!
//! The program that drives a session runs the protocol's read loop under a
//! deadline and reports the way the loop ended. The classification made
//! here tells the stop signal of the sink, which reaches the driver in the
//! shape of an error, from a true failure.

use vstd::prelude::*;
use crate::collector::RoaCollector;
use crate::roa::RouteOrigin;
use crate::text::{contains_text, occurs_in};

verus! {

/// The seconds allowed for making the connection.
pub const CONNECT_DEADLINE_SECS: u64 = 10;

/// The seconds allowed for the session where none are asked for.
pub const DEFAULT_SESSION_DEADLINE_SECS: u64 = 60;

/// The seconds allowed for the session: those asked for, or the default.
pub fn session_deadline(requested: Option<u64>) -> (secs: u64)
    ensures
        secs == match requested {
            Some(asked) => asked,
            None => DEFAULT_SESSION_DEADLINE_SECS,
        },
{
    match requested {
        Some(asked) => asked,
        None => DEFAULT_SESSION_DEADLINE_SECS,
    }
}

/// The category of an error with which the read loop ended.
#[derive(Clone, Copy, Debug, PartialEq, Eq, Structural)]
pub enum ErrorCategory {
    /// The error names no cause of its own. The driver reports the stop
    /// signal of the sink in this category.
    Other,
    /// The error names a cause, such as invalid data or a refused
    /// connection.
    Specific,
}

/// An error with which the read loop ended: its category and its message.
#[derive(Debug, PartialEq, Eq)]
pub struct SessionError {
    pub category: ErrorCategory,
    pub message: String,
}

/// The way the read loop ended.
#[derive(Debug, PartialEq, Eq)]
pub enum RunEnd {
    /// The loop returned without an error.
    Returned,
    /// The loop returned the error.
    Errored(SessionError),
    /// The deadline passed before the loop returned.
    DeadlineElapsed,
}

/// The outcome of a session.
#[derive(Debug, PartialEq, Eq)]
pub enum SessionOutcome {
    /// The protocol ended the session.
    Completed,
    /// The sink stopped the session once the synchronization was complete.
    SignaledDone,
    /// The deadline passed.
    TimedOut,
    /// The session failed with the error.
    Failed(SessionError),
}

/// The text by which a message is known to report the stop signal.
pub open spec fn stop_text() -> Seq<char> {
    "corrupt"@
}

/// Whether an error is the stop signal of the sink: it is of the category
/// `Other`, or its message holds the stop text.
pub open spec fn is_stop_signal(error: SessionError) -> bool {
    error.category == ErrorCategory::Other || occurs_in(stop_text(), error.message@)
}

/// The outcome that follows from the way the read loop ended.
pub open spec fn outcome_of(end: RunEnd) -> SessionOutcome {
    match end {
        RunEnd::Returned => SessionOutcome::Completed,
        RunEnd::Errored(error) => if is_stop_signal(error) {
            SessionOutcome::SignaledDone
        } else {
            SessionOutcome::Failed(error)
        },
        RunEnd::DeadlineElapsed => SessionOutcome::TimedOut,
    }
}

impl SessionError {
    /// Whether this error is the stop signal of the sink.
    pub fn reports_stop(&self) -> (stop: bool)
        ensures
            stop == is_stop_signal(*self),
    {
        match self.category {
            ErrorCategory::Other => true,
            ErrorCategory::Specific => contains_text(self.message.as_str(), "corrupt"),
        }
    }
}

/// Classifies the way the read loop ended.
pub fn classify(end: RunEnd) -> (outcome: SessionOutcome)
    ensures
        outcome == outcome_of(end),
{
    match end {
        RunEnd::Returned => SessionOutcome::Completed,
        RunEnd::Errored(error) => if error.reports_stop() {
            SessionOutcome::SignaledDone
        } else {
            SessionOutcome::Failed(error)
        },
        RunEnd::DeadlineElapsed => SessionOutcome::TimedOut,
    }
}

impl SessionOutcome {
    /// Whether what the session gathered may be used: every outcome but a
    /// failure.
    pub open spec fn usable(self) -> bool {
        !(self is Failed)
    }

    /// Whether what the session gathered may be used.
    pub fn is_usable(&self) -> (usable: bool)
        ensures
            usable == self.usable(),
    {
        match self {
            SessionOutcome::Failed(_) => false,
            _ => true,
        }
    }
}

/// The way an attempt to connect ended.
#[derive(Clone, Copy, Debug, PartialEq, Eq, Structural)]
pub enum ConnectEnd {
    /// The connection stands.
    Connected,
    /// The attempt failed.
    Refused,
    /// The deadline passed before the attempt ended.
    DeadlineElapsed,
}

/// Why no verdict was reached.
#[derive(Debug, PartialEq, Eq)]
pub enum FatalError {
    /// The prefix text is no prefix.
    Parse(crate::prefix::ParseError),
    /// The server's name resolved to no address.
    Resolution,
    /// No connection was made, or not in time.
    Connect,
    /// The session failed with the error.
    Session(SessionError),
    /// The session ended in a usable way and gathered no route origin.
    EmptyResult,
}

/// What a session leaves to be evaluated: the route origins gathered, if
/// the outcome is usable and at least one was gathered. A failure is
/// passed on with its error; an empty set is an error of its own, whatever
/// the outcome that came with it.
pub open spec fn gathered(outcome: SessionOutcome, roas: Seq<RouteOrigin>) -> Result<
    Seq<RouteOrigin>,
    FatalError,
> {
    match outcome {
        SessionOutcome::Failed(error) => Err(FatalError::Session(error)),
        _ => if roas.len() == 0 {
            Err(FatalError::EmptyResult)
        } else {
            Ok(roas)
        },
    }
}

/// Judges an attempt to connect: only a standing connection lets the
/// session begin.
pub fn judge_connect(end: ConnectEnd) -> (judged: Result<(), FatalError>)
    ensures
        judged == match end {
            ConnectEnd::Connected => Ok::<(), FatalError>(()),
            _ => Err::<(), FatalError>(FatalError::Connect),
        },
{
    match end {
        ConnectEnd::Connected => Ok(()),
        _ => Err(FatalError::Connect),
    }
}

/// Takes the route origins out of the collector of a session that has
/// ended, or says why they cannot be used.
pub fn conclude(outcome: SessionOutcome, collector: RoaCollector) -> (roas: Result<
    Vec<RouteOrigin>,
    FatalError,
>)
    ensures
        match gathered(outcome, collector@.roas) {
            Ok(kept) => roas matches Ok(held) && held@ == kept,
            Err(error) => roas == Err::<Vec<RouteOrigin>, FatalError>(error),
        },
{
    match outcome {
        SessionOutcome::Failed(error) => Err(FatalError::Session(error)),
        _ => {
            let held = collector.into_roas();
            if held.len() == 0 {
                Err(FatalError::EmptyResult)
            } else {
                Ok(held)
            }
        },
    }
}

} // verus!
