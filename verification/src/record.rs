//! The immutable per-URL result record.

use vstd::prelude::*;
use crate::outcome::{OutcomeModel, ProbeOutcome};

verus! {

/// One record per submitted URL: the exact input string, the outcome of the
/// final attempt, the elapsed time from the start of the first attempt to
/// the completion of the final one, and the wall-clock completion time.
pub struct CheckRecord {
    pub url: String,
    pub outcome: ProbeOutcome,
    pub elapsed_ms: u64,
    pub timestamp_secs: u64,
}

/// Mathematical model of a [`CheckRecord`].
pub struct RecordModel {
    pub url: Seq<char>,
    pub outcome: OutcomeModel,
    pub elapsed_ms: u64,
    pub timestamp_secs: u64,
}

impl View for CheckRecord {
    type V = RecordModel;

    open spec fn view(&self) -> RecordModel {
        RecordModel {
            url: self.url@,
            outcome: self.outcome@,
            elapsed_ms: self.elapsed_ms,
            timestamp_secs: self.timestamp_secs,
        }
    }
}

impl CheckRecord {
    /// Builds the record exactly from the given plain values; the URL is
    /// kept as handed in, with no normalization.
    pub fn new(url: String, outcome: ProbeOutcome, elapsed_ms: u64, timestamp_secs: u64) -> (r:
        Self)
        ensures
            r@ == (RecordModel { url: url@, outcome: outcome@, elapsed_ms, timestamp_secs }),
    {
        CheckRecord { url, outcome, elapsed_ms, timestamp_secs }
    }
}

} // verus!
