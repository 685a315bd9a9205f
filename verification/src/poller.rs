//! The polling state machine: the resumption marker, the retry policy,
//! and the decision taken after every fetch outcome.
//!
//! The state machine owns the marker. It advances the marker only through
//! [`Poller::on_batch_delivered`], which the driver calls strictly after a
//! batch has been fully accepted by the delivery queue; every failure path
//! leaves the marker untouched, so the window that failed is fetched again.

use vstd::prelude::*;
use crate::retry::{RetryPolicy, bumped_delay};

verus! {

/// How many consecutive decode failures the loop tolerates before it
/// gives up, in the reference configuration.
pub const DEFAULT_DECODE_FAILURE_LIMIT: u32 = 3;

/// Batch size the reference configuration asks for.
pub const DEFAULT_FETCH_LIMIT: i32 = 100;

/// Long-poll window the reference configuration asks for, in seconds.
pub const DEFAULT_FETCH_TIMEOUT_SECONDS: i32 = 30;

/// Fixed parameters of every long-poll call.
pub struct FetchParams {
    /// Most updates one batch may carry; positive.
    pub limit: i32,
    /// How long the platform may hold the request open; non-negative.
    pub timeout_seconds: i32,
    /// Update kinds to ask for; `None` asks for all kinds. The strings are
    /// passed through to the platform unchecked, for forward compatibility.
    pub types: Option<Vec<String>>,
}

impl FetchParams {
    pub open spec fn wf(self) -> bool {
        self.limit > 0 && self.timeout_seconds >= 0
    }
}

/// Why one long-poll call failed.
pub enum FetchError {
    /// Connection-level failure: refused, timed out, unreachable.
    Transport(String),
    /// The platform answered with a structured error payload.
    Api { code: String, message: String },
    /// The response payload did not match the expected schema.
    Decode(String),
}

/// Why the polling loop stopped for good.
pub enum StopReason {
    /// The platform rejected the credentials; retrying cannot succeed.
    AuthRejected { code: String, message: String },
    /// The response stayed undecodable across the configured number of
    /// consecutive attempts.
    PersistentDecode { attempts: u32 },
    /// The consumer tore down its side of the delivery queue.
    QueueClosed,
}

/// What the loop does after a failed fetch.
pub enum FailureAction {
    /// Wait this many milliseconds, then fetch again with the same marker.
    RetryAfter(u64),
    /// Stop polling: retrying cannot succeed.
    Fatal(StopReason),
}

/// Error codes with which the platform rejects bad or expired credentials.
/// Retrying such a call can never succeed.
pub open spec fn is_auth_error_code(code: Seq<char>) -> bool {
    code == "access.denied"@ || code == "invalid.token"@
}

/// Whether `code` names a credential failure (see [`is_auth_error_code`]).
pub fn is_fatal_api_code(code: &String) -> (fatal: bool)
    ensures
        fatal == is_auth_error_code(code@),
{
    let denied: String = "access.denied".to_owned();
    let invalid: String = "invalid.token".to_owned();
    *code == denied || *code == invalid
}

/// State owned by the polling loop.
pub struct Poller {
    /// Resumption cursor for the next fetch; `None` means "start from the
    /// platform's current tail".
    pub marker: Option<i64>,
    /// Fixed parameters sent with every fetch call.
    pub params: FetchParams,
    /// Exponential backoff applied between failed fetches.
    pub retry: RetryPolicy,
    /// Consecutive decode failures seen since the last success.
    pub decode_failures: u32,
    /// Consecutive decode failures after which the loop stops.
    pub decode_failure_limit: u32,
}

impl Poller {
    pub open spec fn wf(self) -> bool {
        &&& self.params.wf()
        &&& self.retry.wf()
        &&& 1 <= self.decode_failure_limit
        &&& self.decode_failures < self.decode_failure_limit
    }

    /// A fresh poller that starts from the platform's current tail.
    pub fn new(params: FetchParams, retry: RetryPolicy, decode_failure_limit: u32) -> (poller:
        Self)
        requires
            params.wf(),
            retry.wf(),
            decode_failure_limit >= 1,
        ensures
            poller.wf(),
            poller.marker is None,
            poller.params == params,
            poller.retry == retry,
            poller.decode_failures == 0,
            poller.decode_failure_limit == decode_failure_limit,
    {
        Poller { marker: None, params, retry, decode_failures: 0, decode_failure_limit }
    }

    /// A poller in the reference configuration: batches of up to 100
    /// updates, a 30-second long-poll window, no type filter, backoff
    /// from one second up to one minute, and tolerance for two decode
    /// failures before the third stops the loop.
    pub fn with_defaults() -> (poller: Self)
        ensures
            poller.wf(),
            poller.marker is None,
            poller.params.limit == DEFAULT_FETCH_LIMIT,
            poller.params.timeout_seconds == DEFAULT_FETCH_TIMEOUT_SECONDS,
            poller.params.types is None,
            poller.retry.base_ms == crate::retry::DEFAULT_BASE_DELAY_MS,
            poller.retry.max_ms == crate::retry::DEFAULT_MAX_DELAY_MS,
            poller.retry.current_ms == crate::retry::DEFAULT_BASE_DELAY_MS,
            poller.decode_failures == 0,
            poller.decode_failure_limit == DEFAULT_DECODE_FAILURE_LIMIT,
    {
        let params = FetchParams {
            limit: DEFAULT_FETCH_LIMIT,
            timeout_seconds: DEFAULT_FETCH_TIMEOUT_SECONDS,
            types: None,
        };
        let retry = RetryPolicy::new(
            crate::retry::DEFAULT_BASE_DELAY_MS,
            crate::retry::DEFAULT_MAX_DELAY_MS,
        );
        Poller::new(params, retry, DEFAULT_DECODE_FAILURE_LIMIT)
    }

    /// Record that every update of a fetched batch has been accepted by
    /// the delivery queue, and only then advance the marker to the batch's
    /// `next_marker` (an absent value leaves the marker unchanged). Any
    /// run of failures is over, so the backoff and the decode counter
    /// reset.
    pub fn on_batch_delivered(&mut self, next_marker: Option<i64>)
        requires
            old(self).wf(),
        ensures
            final(self).wf(),
            final(self).marker == if next_marker is Some {
                next_marker
            } else {
                old(self).marker
            },
            final(self).params == old(self).params,
            final(self).retry.base_ms == old(self).retry.base_ms,
            final(self).retry.max_ms == old(self).retry.max_ms,
            final(self).retry.current_ms == old(self).retry.base_ms,
            final(self).decode_failures == 0,
            final(self).decode_failure_limit == old(self).decode_failure_limit,
    {
        if let Some(m) = next_marker {
            self.marker = Some(m);
        }
        self.retry.on_success();
        self.decode_failures = 0;
    }

    /// Decide what to do after a failed fetch. The marker never moves, so
    /// the same window is retried. Transport failures and retryable API
    /// errors back off exponentially; credential errors and persistent
    /// decode failures stop the loop.
    pub fn on_fetch_failure(&mut self, error: &FetchError) -> (action: FailureAction)
        requires
            old(self).wf(),
        ensures
            final(self).marker == old(self).marker,
            final(self).params == old(self).params,
            final(self).decode_failure_limit == old(self).decode_failure_limit,
            final(self).retry.base_ms == old(self).retry.base_ms,
            final(self).retry.max_ms == old(self).retry.max_ms,
            action is Fatal ==> *final(self) == *old(self),
            action is RetryAfter ==> final(self).wf(),
            action matches FailureAction::RetryAfter(delay) ==> {
                &&& delay == old(self).retry.current_ms
                &&& final(self).retry.current_ms == bumped_delay(
                    old(self).retry.current_ms as int,
                    old(self).retry.max_ms as int,
                )
            },
            match error {
                FetchError::Transport(_) => {
                    &&& action matches FailureAction::RetryAfter(delay) && delay == old(
                        self,
                    ).retry.current_ms
                    &&& final(self).decode_failures == 0
                },
                FetchError::Api { code, .. } => {
                    if is_auth_error_code(code@) {
                        action matches FailureAction::Fatal(reason)
                            && reason matches StopReason::AuthRejected { code: c, message: _ }
                            && c@ == code@
                    } else {
                        &&& action matches FailureAction::RetryAfter(delay) && delay == old(
                            self,
                        ).retry.current_ms
                        &&& final(self).decode_failures == 0
                    }
                },
                FetchError::Decode(_) => {
                    if old(self).decode_failures + 1 >= old(self).decode_failure_limit {
                        action matches FailureAction::Fatal(reason)
                            && reason matches StopReason::PersistentDecode { attempts }
                            && attempts == old(self).decode_failure_limit
                    } else {
                        &&& action matches FailureAction::RetryAfter(delay) && delay == old(
                            self,
                        ).retry.current_ms
                        &&& final(self).decode_failures == old(self).decode_failures + 1
                    }
                },
            },
    {
        match error {
            FetchError::Transport(_) => {
                self.decode_failures = 0;
                let delay = self.retry.current_delay_ms();
                self.retry.on_failure();
                FailureAction::RetryAfter(delay)
            },
            FetchError::Api { code, message } => {
                if is_fatal_api_code(code) {
                    FailureAction::Fatal(
                        StopReason::AuthRejected { code: code.clone(), message: message.clone() },
                    )
                } else {
                    self.decode_failures = 0;
                    let delay = self.retry.current_delay_ms();
                    self.retry.on_failure();
                    FailureAction::RetryAfter(delay)
                }
            },
            FetchError::Decode(_) => {
                if self.decode_failures + 1 >= self.decode_failure_limit {
                    FailureAction::Fatal(
                        StopReason::PersistentDecode { attempts: self.decode_failure_limit },
                    )
                } else {
                    self.decode_failures = self.decode_failures + 1;
                    let delay = self.retry.current_delay_ms();
                    self.retry.on_failure();
                    FailureAction::RetryAfter(delay)
                }
            },
        }
    }

    /// Record that the delivery queue refused a send because the consumer
    /// side is gone: fatal, and the marker stays on the undelivered batch
    /// so a restart fetches it again.
    pub fn on_queue_closed(&mut self) -> (action: FailureAction)
        requires
            old(self).wf(),
        ensures
            *final(self) == *old(self),
            action matches FailureAction::Fatal(reason) && reason is QueueClosed,
    {
        FailureAction::Fatal(StopReason::QueueClosed)
    }
}

} // verus!
