//! What the dispatcher does with the outcome of each attempt: hand the body back, try
//! again after a short pause, or give up.

use crate::error::{Fault, FaultView, SessionError, SessionErrorView};
use vstd::prelude::*;

verus! {

/// The pause before another attempt, in milliseconds.
pub const RETRY_DELAY_MS: u64 = 5;

/// Status codes that report success.
pub open spec fn spec_is_success(code: u16) -> bool {
    200 <= code <= 299
}

/// Status codes that report a failure on the server's side.
pub open spec fn spec_is_server_error(code: u16) -> bool {
    500 <= code <= 599
}

/// Whether `code` reports success.
pub fn is_success(code: u16) -> (success: bool)
    ensures
        success == spec_is_success(code),
{
    200 <= code && code <= 299
}

/// Whether `code` reports a failure on the server's side.
pub fn is_server_error(code: u16) -> (failed: bool)
    ensures
        failed == spec_is_server_error(code),
{
    500 <= code && code <= 599
}

/// Where a request stands: `attempt` counts the attempts that have already ended, so
/// the one under way is attempt number `attempt + 1`, and `max_retries` is how many
/// attempts the caller allows beyond the first.
#[derive(Clone, Copy, Debug, PartialEq, Eq, Structural)]
pub struct RetryState {
    pub attempt: u32,
    pub max_retries: u32,
}

impl RetryState {
    /// No more attempts have ended than retries are allowed.
    pub open spec fn wf(self) -> bool {
        self.attempt <= self.max_retries
    }

    /// The state before the first attempt.
    pub open spec fn spec_new(retry: Option<u32>) -> RetryState {
        RetryState {
            attempt: 0,
            max_retries: match retry {
                Some(n) => n,
                None => 0,
            },
        }
    }

    /// The state before the first attempt; without a count there is one attempt only.
    pub fn new(retry: Option<u32>) -> (state: RetryState)
        ensures
            state == RetryState::spec_new(retry),
            state.wf(),
    {
        RetryState {
            attempt: 0,
            max_retries: match retry {
                Some(n) => n,
                None => 0,
            },
        }
    }
}

/// How one attempt ended.
#[derive(Debug, PartialEq, Eq)]
pub enum SendOutcome {
    /// The request could not be sent, or no response came.
    Failed { detail: String },
    /// A response came, and its body could not be read.
    Unreadable { detail: String },
    /// A response came whole.
    Response { status: u16, body: String },
}

/// `SendOutcome` over sequences of characters.
pub enum SendOutcomeView {
    Failed { detail: Seq<char> },
    Unreadable { detail: Seq<char> },
    Response { status: u16, body: Seq<char> },
}

impl View for SendOutcome {
    type V = SendOutcomeView;

    open spec fn view(&self) -> SendOutcomeView {
        match self {
            SendOutcome::Failed { detail } => SendOutcomeView::Failed { detail: detail@ },
            SendOutcome::Unreadable { detail } => SendOutcomeView::Unreadable { detail: detail@ },
            SendOutcome::Response { status, body } => SendOutcomeView::Response {
                status: *status,
                body: body@,
            },
        }
    }
}

/// What to do after an attempt.
#[derive(Debug, PartialEq, Eq)]
pub enum Verdict {
    /// The request succeeded; this is the body of the response, as it came.
    Done { body: String },
    /// Wait `delay_ms` milliseconds, send the same request again, and come back with
    /// `next`.
    Retry { delay_ms: u64, next: RetryState },
    /// The request failed for good.
    Fail { error: SessionError },
}

/// `Verdict` over sequences of characters.
pub enum VerdictView {
    Done { body: Seq<char> },
    Retry { delay_ms: u64, next: RetryState },
    Fail { error: SessionErrorView },
}

impl View for Verdict {
    type V = VerdictView;

    open spec fn view(&self) -> VerdictView {
        match self {
            Verdict::Done { body } => VerdictView::Done { body: body@ },
            Verdict::Retry { delay_ms, next } => VerdictView::Retry {
                delay_ms: *delay_ms,
                next: *next,
            },
            Verdict::Fail { error } => VerdictView::Fail { error: error@ },
        }
    }
}

impl SendOutcomeView {
    /// Whether the outcome allows another attempt: no response at all, or a status
    /// from 500 to 599.
    pub open spec fn retryable(self) -> bool {
        match self {
            SendOutcomeView::Failed { .. } => true,
            SendOutcomeView::Unreadable { .. } => false,
            SendOutcomeView::Response { status, .. } => spec_is_server_error(status),
        }
    }

    /// What a retryable outcome reports.
    pub open spec fn fault(self) -> FaultView {
        match self {
            SendOutcomeView::Failed { detail } => FaultView::Network { detail },
            SendOutcomeView::Unreadable { detail } => FaultView::Network { detail },
            SendOutcomeView::Response { status, body } => FaultView::Status {
                code: status,
                body,
            },
        }
    }
}

/// After a failure that allows another attempt: that attempt, while the count of
/// retries is not used up; else the failure, with the number of attempts made.
pub open spec fn retry_or_give_up(state: RetryState, fault: FaultView) -> VerdictView {
    if state.attempt < state.max_retries {
        VerdictView::Retry {
            delay_ms: RETRY_DELAY_MS,
            next: RetryState {
                attempt: (state.attempt + 1) as u32,
                max_retries: state.max_retries,
            },
        }
    } else {
        VerdictView::Fail {
            error: SessionErrorView::RetriesExhausted {
                attempts: (state.attempt + 1) as u64,
                last: fault,
            },
        }
    }
}

/// The verdict on `outcome`, reached in `state`.
///
/// A status from 200 to 299 ends the request with the body. No response, or a status
/// from 500 to 599, leads to another attempt or to giving up. Any other status, and a
/// body that cannot be read, fail at once.
pub open spec fn verdict_of(state: RetryState, outcome: SendOutcomeView) -> VerdictView {
    match outcome {
        SendOutcomeView::Failed { detail } => retry_or_give_up(
            state,
            FaultView::Network { detail },
        ),
        SendOutcomeView::Unreadable { detail } => VerdictView::Fail {
            error: SessionErrorView::Network { detail },
        },
        SendOutcomeView::Response { status, body } => {
            if spec_is_success(status) {
                VerdictView::Done { body }
            } else if spec_is_server_error(status) {
                retry_or_give_up(state, FaultView::Status { code: status, body })
            } else {
                VerdictView::Fail { error: SessionErrorView::Status { code: status, body } }
            }
        },
    }
}

/// After a failure that allows another attempt: retry or give up.
fn next_or_give_up(state: RetryState, fault: Fault) -> (verdict: Verdict)
    ensures
        verdict@ == retry_or_give_up(state, fault@),
{
    if state.attempt < state.max_retries {
        Verdict::Retry {
            delay_ms: RETRY_DELAY_MS,
            next: RetryState { attempt: state.attempt + 1, max_retries: state.max_retries },
        }
    } else {
        let attempts: u64 = state.attempt as u64 + 1;
        Verdict::Fail { error: SessionError::RetriesExhausted { attempts, last: fault } }
    }
}

/// Decides what follows the attempt that ended with `outcome`.
pub fn after_attempt(state: RetryState, outcome: SendOutcome) -> (verdict: Verdict)
    ensures
        verdict@ == verdict_of(state, outcome@),
{
    match outcome {
        SendOutcome::Failed { detail } => next_or_give_up(state, Fault::Network { detail }),
        SendOutcome::Unreadable { detail } => Verdict::Fail {
            error: SessionError::Network { detail },
        },
        SendOutcome::Response { status, body } => {
            if is_success(status) {
                Verdict::Done { body }
            } else if is_server_error(status) {
                next_or_give_up(state, Fault::Status { code: status, body })
            } else {
                Verdict::Fail { error: SessionError::Status { code: status, body } }
            }
        },
    }
}

/// A request seen from outside: how many times it was sent, and the verdict that ended
/// it (none where the outcomes ran out while another attempt was still due).
pub struct Run {
    pub sends: nat,
    pub verdict: Option<VerdictView>,
}

/// The course of a request that starts in `state` and meets `outcomes` one after the
/// other, each attempt decided by `verdict_of`.
pub open spec fn run(state: RetryState, outcomes: Seq<SendOutcomeView>) -> Run
    decreases outcomes.len(),
{
    if outcomes.len() == 0 {
        Run { sends: 0, verdict: None }
    } else {
        match verdict_of(state, outcomes[0]) {
            VerdictView::Retry { next, .. } => {
                let rest = run(next, outcomes.drop_first());
                Run { sends: rest.sends + 1, verdict: rest.verdict }
            },
            verdict => Run { sends: 1, verdict: Some(verdict) },
        }
    }
}

/// Where every attempt ends without a response or with a status from 500 to 599, the
/// request is sent once for each attempt that was still open (from a fresh state: once
/// and then once per allowed retry), and fails with the total number of attempts and
/// the failure of the last one.
pub proof fn lemma_failing_server_uses_every_retry(
    state: RetryState,
    outcomes: Seq<SendOutcomeView>,
)
    requires
        state.wf(),
        outcomes.len() > state.max_retries - state.attempt,
        forall|i: int| 0 <= i < outcomes.len() ==> (#[trigger] outcomes[i]).retryable(),
    ensures
        run(state, outcomes).sends == state.max_retries - state.attempt + 1,
        run(state, outcomes).verdict == Some(
            VerdictView::Fail {
                error: SessionErrorView::RetriesExhausted {
                    attempts: (state.max_retries + 1) as u64,
                    last: outcomes[state.max_retries - state.attempt].fault(),
                },
            },
        ),
    decreases outcomes.len(),
{
    if state.attempt < state.max_retries {
        let next = RetryState {
            attempt: (state.attempt + 1) as u32,
            max_retries: state.max_retries,
        };
        lemma_failing_server_uses_every_retry(next, outcomes.drop_first());
    }
}

/// With a fresh state, a server that answers 500 every time is asked once and then
/// once more for each retry the caller allowed (none where the caller named no count),
/// and the error reports all of these attempts and the last 500.
pub proof fn lemma_status_500_every_time(retry: Option<u32>, outcomes: Seq<SendOutcomeView>)
    requires
        outcomes.len() > RetryState::spec_new(retry).max_retries,
        forall|i: int|
            0 <= i < outcomes.len() ==> (#[trigger] outcomes[i] matches SendOutcomeView::Response {
                status,
                ..
            } && status == 500),
    ensures
        run(RetryState::spec_new(retry), outcomes).sends == RetryState::spec_new(
            retry,
        ).max_retries + 1,
        run(RetryState::spec_new(retry), outcomes).verdict == Some(
            VerdictView::Fail {
                error: SessionErrorView::RetriesExhausted {
                    attempts: (RetryState::spec_new(retry).max_retries + 1) as u64,
                    last: outcomes[RetryState::spec_new(retry).max_retries as int].fault(),
                },
            },
        ),
        outcomes[RetryState::spec_new(retry).max_retries as int].fault() matches FaultView::Status {
            code,
            ..
        } && code == 500,
{
    lemma_failing_server_uses_every_retry(RetryState::spec_new(retry), outcomes);
}

/// A status that is neither success nor a server's failure (404, say) ends the request
/// at once, whatever retries are left: nothing is sent again, and the error is the
/// status with its body.
pub proof fn lemma_other_status_is_final(state: RetryState, outcomes: Seq<SendOutcomeView>)
    requires
        outcomes.len() > 0,
        outcomes[0] matches SendOutcomeView::Response { status, .. } && !spec_is_success(status)
            && !spec_is_server_error(status),
    ensures
        run(state, outcomes).sends == 1,
        run(state, outcomes).verdict == Some(
            VerdictView::Fail { error: outcomes[0].fault().as_error() },
        ),
{
}

/// A successful response ends the request with its body, on whichever attempt it
/// arrives.
pub proof fn lemma_success_is_final(state: RetryState, outcomes: Seq<SendOutcomeView>)
    requires
        outcomes.len() > 0,
        outcomes[0] matches SendOutcomeView::Response { status, .. } && spec_is_success(status),
    ensures
        run(state, outcomes).sends == 1,
        run(state, outcomes).verdict matches Some(VerdictView::Done { body }) && (
        outcomes[0] matches SendOutcomeView::Response { body: sent, .. } && sent == body),
{
}

/// A request is never sent more often than once and once per allowed retry.
pub proof fn lemma_sends_are_bounded(state: RetryState, outcomes: Seq<SendOutcomeView>)
    requires
        state.wf(),
    ensures
        run(state, outcomes).sends <= state.max_retries - state.attempt + 1,
    decreases outcomes.len(),
{
    if outcomes.len() > 0 {
        match verdict_of(state, outcomes[0]) {
            VerdictView::Retry { next, .. } => {
                lemma_sends_are_bounded(next, outcomes.drop_first());
            },
            _ => {},
        }
    }
}

} // verus!
