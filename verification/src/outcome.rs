//! The classified result of a single probe.

use vstd::prelude::*;

verus! {

/// The result of one HTTP GET attempt: an HTTP status code when the
/// transport completed (any code, error statuses included), or a
/// human-readable fault description when the transport itself failed.
pub enum ProbeOutcome {
    Success(u16),
    Failure(String),
}

/// Mathematical model of a [`ProbeOutcome`].
pub enum OutcomeModel {
    Success(u16),
    Failure(Seq<char>),
}

impl View for ProbeOutcome {
    type V = OutcomeModel;

    open spec fn view(&self) -> OutcomeModel {
        match self {
            ProbeOutcome::Success(code) => OutcomeModel::Success(*code),
            ProbeOutcome::Failure(msg) => OutcomeModel::Failure(msg@),
        }
    }
}

impl ProbeOutcome {
    /// A probe counts as successful when the transport completed, whatever
    /// the HTTP status said; only transport-level faults are failures.
    pub fn is_success(&self) -> (r: bool)
        ensures
            r == (self@ is Success),
    {
        match self {
            ProbeOutcome::Success(_) => true,
            ProbeOutcome::Failure(_) => false,
        }
    }

    /// An explicit copy whose model equals the original's.
    pub fn dup(&self) -> (r: Self)
        ensures
            r@ == self@,
    {
        match self {
            ProbeOutcome::Success(code) => ProbeOutcome::Success(*code),
            ProbeOutcome::Failure(msg) => ProbeOutcome::Failure(msg.clone()),
        }
    }
}

} // verus!
