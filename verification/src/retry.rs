//! The retry controller: a bounded retry loop with a fixed inter-attempt
//! delay, wrapped around the single-attempt probe.
//!
//! The probe itself is a network call and is performed outside the library;
//! the controller here decides, after each attempt, whether to stop or to
//! sleep and retry, and the whole loop over a fixed trace of attempt
//! outcomes is verified against the model below.

use vstd::prelude::*;
use crate::outcome::{OutcomeModel, ProbeOutcome};

verus! {

/// The fixed inter-attempt delay of the default policy, in milliseconds.
pub const DEFAULT_RETRY_DELAY_MS: u64 = 100;

/// Model of one whole retry loop: given the outcome each attempt would
/// have, the index of the attempt at which the loop stops. The loop stops
/// at the first attempt whose transport completed, and in any case at
/// attempt `retries`; an HTTP error status is a completed transport and is
/// never retried.
pub open spec fn stop_index(attempts: Seq<OutcomeModel>, retries: nat) -> nat
    decreases retries,
{
    if attempts.len() == 0 {
        0
    } else if attempts[0] is Success || retries == 0 {
        0
    } else {
        1 + stop_index(attempts.drop_first(), (retries - 1) as nat)
    }
}

/// The models of a sequence of outcomes.
pub open spec fn outcome_models(s: Seq<ProbeOutcome>) -> Seq<OutcomeModel> {
    s.map_values(|o: ProbeOutcome| o@)
}

/// The stopping attempt lies within the budget, every earlier attempt was a
/// transport failure, and a stop before the budget is exhausted happens
/// only on a completed transport.
pub proof fn lemma_stop_index_props(attempts: Seq<OutcomeModel>, retries: nat)
    requires
        retries < attempts.len(),
    ensures
        stop_index(attempts, retries) <= retries,
        forall|j: int| 0 <= j < stop_index(attempts, retries) ==> !(attempts[j] is Success),
        stop_index(attempts, retries) < retries ==> attempts[stop_index(
            attempts,
            retries,
        ) as int] is Success,
    decreases retries,
{
    if attempts[0] is Success || retries == 0 {
    } else {
        let rest = attempts.drop_first();
        lemma_stop_index_props(rest, (retries - 1) as nat);
        let s = stop_index(attempts, retries);
        assert(s == 1 + stop_index(rest, (retries - 1) as nat));
        assert forall|j: int| 0 <= j < s implies !(attempts[j] is Success) by {
            if j > 0 {
                assert(rest[j - 1] == attempts[j]);
            }
        }
        if s < retries {
            assert(rest[s - 1] == attempts[s as int]);
        }
    }
}

/// The stopping attempt is the only index within the budget that is
/// preceded by failures alone and is itself a success or the last budgeted
/// attempt.
pub proof fn lemma_stop_index_unique(attempts: Seq<OutcomeModel>, retries: nat, i: nat)
    requires
        retries < attempts.len(),
        i <= retries,
        forall|j: int| 0 <= j < i ==> !(attempts[j] is Success),
        attempts[i as int] is Success || i == retries,
    ensures
        stop_index(attempts, retries) == i,
    decreases retries,
{
    if attempts[0] is Success || retries == 0 {
        if i > 0 {
            assert(!(attempts[0] is Success));
        }
    } else {
        let rest = attempts.drop_first();
        assert(attempts[i as int] is Success || i == retries);
        assert(i > 0);
        assert forall|j: int| 0 <= j < i - 1 implies !(rest[j] is Success) by {
            assert(rest[j] == attempts[j + 1]);
        }
        assert(rest[i - 1] == attempts[i as int]);
        lemma_stop_index_unique(rest, (retries - 1) as nat, (i - 1) as nat);
    }
}

/// A transport that fails every budgeted attempt is retried the full
/// budget: the loop stops at attempt `retries` — `retries + 1` attempts in
/// all — and ends in a failure.
pub proof fn lemma_all_failures_exhaust_retries(attempts: Seq<OutcomeModel>, retries: nat)
    requires
        retries < attempts.len(),
        forall|j: int| 0 <= j <= retries ==> !(attempts[j] is Success),
    ensures
        stop_index(attempts, retries) == retries,
        !(attempts[retries as int] is Success),
{
    lemma_stop_index_unique(attempts, retries, retries);
}

/// A probe that completes on the first attempt stops the loop at once:
/// one attempt, no retry delay.
pub proof fn lemma_immediate_success(attempts: Seq<OutcomeModel>, retries: nat)
    requires
        retries < attempts.len(),
        attempts[0] is Success,
    ensures
        stop_index(attempts, retries) == 0,
{
}

/// What the controller asks of its caller after one attempt: stop, or
/// sleep the given number of milliseconds and probe again.
pub enum RetryStep {
    Finish,
    RetryAfterMs(u64),
}

/// The state of one retry loop: the current attempt index, the retry
/// budget, and the configured inter-attempt delay.
pub struct RetrySession {
    pub attempt: u64,
    pub retries: u64,
    pub delay_ms: u64,
}

impl RetrySession {
    pub open spec fn wf(&self) -> bool {
        self.attempt <= self.retries
    }

    pub fn new(retries: u64, delay_ms: u64) -> (s: Self)
        ensures
            s.attempt == 0,
            s.retries == retries,
            s.delay_ms == delay_ms,
            s.wf(),
    {
        RetrySession { attempt: 0, retries, delay_ms }
    }

    /// One decision of the retry controller. The loop finishes on any
    /// completed transport — error statuses included — and on an exhausted
    /// budget; otherwise the caller is told to sleep the fixed delay, and
    /// the attempt count advances.
    pub fn decide(&mut self, outcome: &ProbeOutcome) -> (step: RetryStep)
        requires
            old(self).wf(),
        ensures
            final(self).wf(),
            final(self).retries == old(self).retries,
            final(self).delay_ms == old(self).delay_ms,
            (step is Finish) <==> (outcome@ is Success || old(self).attempt == old(
                self,
            ).retries),
            step is Finish ==> final(self).attempt == old(self).attempt,
            !(step is Finish) ==> final(self).attempt == old(self).attempt + 1 && step
                == RetryStep::RetryAfterMs(old(self).delay_ms),
    {
        if outcome.is_success() || self.attempt == self.retries {
            RetryStep::Finish
        } else {
            self.attempt = self.attempt + 1;
            RetryStep::RetryAfterMs(self.delay_ms)
        }
    }
}

/// The summary of one finished retry loop: the outcome of the final
/// attempt, how many attempts were made, and the total inter-attempt delay
/// that was requested.
pub struct RetryRun {
    pub final_outcome: ProbeOutcome,
    pub attempts_made: u64,
    pub total_delay_ms: u64,
}

/// The whole retry loop, run over a fixed trace of per-attempt outcomes:
/// attempt `i` of the loop observes `attempts[i]`. The run makes exactly
/// `stop_index + 1` attempts, requests `stop_index` delays, and returns the
/// outcome of the stopping attempt — never an intermediate one.
pub fn run_retry_trace(attempts: &Vec<ProbeOutcome>, retries: u64, delay_ms: u64) -> (r: RetryRun)
    requires
        retries < attempts.len(),
        retries as int * delay_ms as int <= u64::MAX as int,
    ensures
        ({
            let stop = stop_index(outcome_models(attempts@), retries as nat);
            &&& r.attempts_made == stop + 1
            &&& r.total_delay_ms == stop as int * delay_ms as int
            &&& r.final_outcome@ == outcome_models(attempts@)[stop as int]
        }),
{
    let ghost m = outcome_models(attempts@);
    let mut session = RetrySession::new(retries, delay_ms);
    let mut total_delay: u64 = 0;
    loop
        invariant
            session.wf(),
            session.retries == retries,
            session.delay_ms == delay_ms,
            retries < attempts.len(),
            retries as int * delay_ms as int <= u64::MAX as int,
            total_delay == session.attempt as int * delay_ms as int,
            m == outcome_models(attempts@),
            forall|j: int| 0 <= j < session.attempt ==> !(m[j] is Success),
        decreases retries - session.attempt,
    {
        let idx = session.attempt as usize;
        let outcome = &attempts[idx];
        assert(outcome@ == m[idx as int]);
        let ghost pre = session.attempt;
        let step = session.decide(outcome);
        match step {
            RetryStep::Finish => {
                proof {
                    lemma_stop_index_unique(m, retries as nat, pre as nat);
                }
                return RetryRun {
                    final_outcome: outcome.dup(),
                    attempts_made: session.attempt + 1,
                    total_delay_ms: total_delay,
                };
            },
            RetryStep::RetryAfterMs(d) => {
                proof {
                    assert((pre + 1) as int * delay_ms as int == pre as int * delay_ms as int
                        + delay_ms as int) by (nonlinear_arith);
                    vstd::arithmetic::mul::lemma_mul_inequality(
                        (pre + 1) as int,
                        retries as int,
                        delay_ms as int,
                    );
                }
                total_delay = total_delay + d;
            },
        }
    }
}

} // verus!
