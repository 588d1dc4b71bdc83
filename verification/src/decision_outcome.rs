//! Options and helpers for human-in-the-loop decision polling.
use crate::types::{NoxyGetDecisionOutcomeResponse, NoxyHumanDecisionOutcome};
use vstd::prelude::*;

verus! {

/// Delay after the first poll before the next attempt, when none is given (ms).
pub const DEFAULT_INITIAL_POLL_INTERVAL_MS: u64 = 400;

/// Largest delay between polls, when none is given (ms).
pub const DEFAULT_MAX_POLL_INTERVAL_MS: u64 = 30_000;

/// Total time budget for polling, when none is given (ms): 15 minutes.
pub const DEFAULT_MAX_WAIT_MS: u64 = 900_000;

/// The outcome is final: the user approved or rejected, or the decision expired.
pub open spec fn spec_is_terminal_human_outcome(outcome: NoxyHumanDecisionOutcome) -> bool {
    outcome == NoxyHumanDecisionOutcome::Approved || outcome == NoxyHumanDecisionOutcome::Rejected
        || outcome == NoxyHumanDecisionOutcome::Expired
}

/// Whether the outcome is final (approved, rejected or expired) rather than still pending.
pub fn is_terminal_human_outcome(outcome: NoxyHumanDecisionOutcome) -> (r: bool)
    ensures
        r == spec_is_terminal_human_outcome(outcome),
        r == (outcome != NoxyHumanDecisionOutcome::Pending),
{
    match outcome {
        NoxyHumanDecisionOutcome::Approved => true,
        NoxyHumanDecisionOutcome::Rejected => true,
        NoxyHumanDecisionOutcome::Expired => true,
        NoxyHumanDecisionOutcome::Pending => false,
    }
}

/// Polling gave up: `max_wait_ms` was exceeded.
#[derive(Debug, Clone, Copy, PartialEq, Eq, Structural)]
pub struct WaitForDecisionOutcomeTimeoutError;

impl WaitForDecisionOutcomeTimeoutError {
    /// The human-readable text of the error.
    pub fn message(&self) -> (s: String)
        ensures
            s@ == "wait_for_decision_outcome exceeded max_wait_ms"@,
    {
        "wait_for_decision_outcome exceeded max_wait_ms".to_string()
    }
}

/// No delivery of `send_decision` carried a decision id to poll.
#[derive(Debug, Clone, Copy, PartialEq, Eq, Structural)]
pub struct SendDecisionAndWaitNoDecisionIdError;

impl SendDecisionAndWaitNoDecisionIdError {
    /// The human-readable text of the error.
    pub fn message(&self) -> (s: String)
        ensures
            s@ == "send_decision returned no decision_id to poll; check delivery statuses"@,
    {
        "send_decision returned no decision_id to poll; check delivery statuses".to_string()
    }
}

/// An optional setting, or its default.
pub open spec fn setting_or(v: Option<u64>, default: u64) -> u64 {
    match v {
        Some(x) => x,
        None => default,
    }
}

/// The smaller of two numbers.
pub open spec fn min_u64(a: u64, b: u64) -> u64 {
    if a <= b {
        a
    } else {
        b
    }
}

/// What follows one poll of a decision's outcome.
#[derive(Debug, Clone)]
pub enum PollStep {
    /// The outcome is final or no longer pending: this is the answer.
    Finished(NoxyGetDecisionOutcomeResponse),
    /// Still pending: wait this long, then poll again.
    Sleep { delay_ms: u64 },
}

/// The decisions of the polling loop that waits for a human outcome: when to give up,
/// when an answer is final, and how long to wait between polls (exponential backoff,
/// capped at `max_poll_interval_ms`).
#[derive(Debug, Clone, Copy)]
pub struct DecisionPoller {
    /// The current backoff interval (ms).
    pub interval_ms: u64,
    /// The largest delay between polls (ms).
    pub max_poll_interval_ms: u64,
    /// The total time budget for polling (ms).
    pub max_wait_ms: u64,
}

impl DecisionPoller {
    /// A poller with the given settings, each defaulting when absent
    /// (400 ms, 30000 ms, 900000 ms).
    pub fn new(
        initial_poll_interval_ms: Option<u64>,
        max_poll_interval_ms: Option<u64>,
        max_wait_ms: Option<u64>,
    ) -> (p: Self)
        ensures
            p.interval_ms == setting_or(initial_poll_interval_ms, DEFAULT_INITIAL_POLL_INTERVAL_MS),
            p.max_poll_interval_ms == setting_or(max_poll_interval_ms, DEFAULT_MAX_POLL_INTERVAL_MS),
            p.max_wait_ms == setting_or(max_wait_ms, DEFAULT_MAX_WAIT_MS),
    {
        DecisionPoller {
            interval_ms: match initial_poll_interval_ms {
                Some(v) => v,
                None => DEFAULT_INITIAL_POLL_INTERVAL_MS,
            },
            max_poll_interval_ms: match max_poll_interval_ms {
                Some(v) => v,
                None => DEFAULT_MAX_POLL_INTERVAL_MS,
            },
            max_wait_ms: match max_wait_ms {
                Some(v) => v,
                None => DEFAULT_MAX_WAIT_MS,
            },
        }
    }

    /// Whether the time budget is spent after `elapsed_ms`; checked before each poll.
    pub fn deadline_passed(&self, elapsed_ms: u64) -> (b: bool)
        ensures
            b == (elapsed_ms > self.max_wait_ms),
    {
        elapsed_ms > self.max_wait_ms
    }

    /// What follows a poll that returned `response`: finish with it when its outcome is
    /// final or it is no longer pending, else sleep for the current interval, capped.
    pub fn on_response(&self, response: NoxyGetDecisionOutcomeResponse) -> (step: PollStep)
        ensures
            step == poll_step(*self, response),
            response.outcome != NoxyHumanDecisionOutcome::Pending || !response.pending ==> step
                == PollStep::Finished(response),
            response.outcome == NoxyHumanDecisionOutcome::Pending && response.pending ==> step
                == (PollStep::Sleep {
                delay_ms: if self.interval_ms <= self.max_poll_interval_ms {
                    self.interval_ms
                } else {
                    self.max_poll_interval_ms
                },
            }),
    {
        if is_terminal_human_outcome(response.outcome) {
            return PollStep::Finished(response);
        }
        if !response.pending {
            return PollStep::Finished(response);
        }
        let delay_ms = if self.interval_ms <= self.max_poll_interval_ms {
            self.interval_ms
        } else {
            self.max_poll_interval_ms
        };
        PollStep::Sleep { delay_ms }
    }

    /// Move to the next interval: `scaled_interval_ms` is the current interval times the
    /// backoff multiplier; the new interval is that, capped at `max_poll_interval_ms`.
    pub fn advance(&mut self, scaled_interval_ms: u64)
        ensures
            *final(self) == advanced(*old(self), scaled_interval_ms),
            final(self).interval_ms == if scaled_interval_ms <= old(self).max_poll_interval_ms {
                scaled_interval_ms
            } else {
                old(self).max_poll_interval_ms
            },
            final(self).max_poll_interval_ms == old(self).max_poll_interval_ms,
            final(self).max_wait_ms == old(self).max_wait_ms,
    {
        if scaled_interval_ms <= self.max_poll_interval_ms {
            self.interval_ms = scaled_interval_ms;
        } else {
            self.interval_ms = self.max_poll_interval_ms;
        }
    }
}

/// A poll's answer ends the wait: its outcome is final or it is no longer pending.
pub open spec fn ends_wait(response: NoxyGetDecisionOutcomeResponse) -> bool {
    spec_is_terminal_human_outcome(response.outcome) || !response.pending
}

/// What follows a poll that returned `response`.
pub open spec fn poll_step(p: DecisionPoller, response: NoxyGetDecisionOutcomeResponse) -> PollStep {
    if ends_wait(response) {
        PollStep::Finished(response)
    } else {
        PollStep::Sleep { delay_ms: min_u64(p.interval_ms, p.max_poll_interval_ms) }
    }
}

/// The poller after moving to the next interval.
pub open spec fn advanced(p: DecisionPoller, scaled_interval_ms: u64) -> DecisionPoller {
    DecisionPoller { interval_ms: min_u64(scaled_interval_ms, p.max_poll_interval_ms), ..p }
}

/// The wait ends with the poll's own answer exactly when that answer is final or no longer
/// pending; otherwise it sleeps, and never longer than `max_poll_interval_ms`.
pub proof fn lemma_poll_step(p: DecisionPoller, response: NoxyGetDecisionOutcomeResponse)
    ensures
        poll_step(p, response) matches PollStep::Finished(r) <==> ends_wait(response),
        poll_step(p, response) matches PollStep::Finished(r) ==> r == response,
        poll_step(p, response) matches PollStep::Sleep { delay_ms } ==> delay_ms
            <= p.max_poll_interval_ms && delay_ms <= p.interval_ms,
        response.outcome == NoxyHumanDecisionOutcome::Pending && response.pending ==> poll_step(
            p,
            response,
        ) is Sleep,
{
}

/// An answer that is approved, rejected or expired, or no longer pending, ends the wait
/// with that very answer, whatever the poller's state; a pending answer never does, and
/// the sleep it brings is the current interval, cut down to the cap when it exceeds it.
pub proof fn lemma_poll_answer_decides(p: DecisionPoller, response: NoxyGetDecisionOutcomeResponse)
    ensures
        response.outcome == NoxyHumanDecisionOutcome::Approved ==> poll_step(p, response)
            == PollStep::Finished(response),
        response.outcome == NoxyHumanDecisionOutcome::Rejected ==> poll_step(p, response)
            == PollStep::Finished(response),
        response.outcome == NoxyHumanDecisionOutcome::Expired ==> poll_step(p, response)
            == PollStep::Finished(response),
        !response.pending ==> poll_step(p, response) == PollStep::Finished(response),
        response.outcome == NoxyHumanDecisionOutcome::Pending && response.pending ==> {
            &&& poll_step(p, response) is Sleep
            &&& poll_step(p, response)->delay_ms <= p.max_poll_interval_ms
            &&& poll_step(p, response)->delay_ms <= p.interval_ms
            &&& (p.interval_ms <= p.max_poll_interval_ms ==> poll_step(p, response)->delay_ms
                == p.interval_ms)
            &&& (p.interval_ms > p.max_poll_interval_ms ==> poll_step(p, response)->delay_ms
                == p.max_poll_interval_ms)
        },
{
}

/// The next interval is the scaled interval when it is within the cap, and the cap itself
/// when it exceeds it; the settings do not change.
pub proof fn lemma_advance_exact(p: DecisionPoller, scaled_interval_ms: u64)
    ensures
        scaled_interval_ms <= p.max_poll_interval_ms ==> advanced(p, scaled_interval_ms).interval_ms
            == scaled_interval_ms,
        scaled_interval_ms > p.max_poll_interval_ms ==> advanced(p, scaled_interval_ms).interval_ms
            == p.max_poll_interval_ms,
        advanced(p, scaled_interval_ms).max_poll_interval_ms == p.max_poll_interval_ms,
        advanced(p, scaled_interval_ms).max_wait_ms == p.max_wait_ms,
{
}

/// Moving to the next interval keeps the settings and never exceeds the cap.
pub proof fn lemma_advance_capped(p: DecisionPoller, scaled_interval_ms: u64)
    ensures
        advanced(p, scaled_interval_ms).interval_ms <= p.max_poll_interval_ms,
        advanced(p, scaled_interval_ms).max_poll_interval_ms == p.max_poll_interval_ms,
        advanced(p, scaled_interval_ms).max_wait_ms == p.max_wait_ms,
        scaled_interval_ms <= p.max_poll_interval_ms ==> advanced(p, scaled_interval_ms).interval_ms
            == scaled_interval_ms,
{
}

} // verus!
