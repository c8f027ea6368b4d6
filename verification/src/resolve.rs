use vstd::prelude::*;

use crate::echo_request::EchoRequest;

verus! {

/// Upper bound on the resolved delay, in milliseconds (two minutes).
pub const MAX_DELAY_MILLIS: u64 = 120000;

/// The outcome of resolving an [`EchoRequest`]: the effective HTTP status
/// and the clamped delay the handler must wait before responding.
///
/// The status is passed through as the caller gave it; whether the
/// transport accepts it is decided later, when the response is composed.
#[derive(Clone, Copy, Debug)]
pub struct ResolvedEcho {
    /// Effective HTTP status: the caller's `status`, or `200`.
    pub http_status: i32,
    /// Effective delay in milliseconds, always within `[0, MAX_DELAY_MILLIS]`.
    pub delay_millis: u64,
}

impl ResolvedEcho {
    /// Invariant: the resolved delay never exceeds [`MAX_DELAY_MILLIS`].
    pub open spec fn wf(self) -> bool {
        self.delay_millis <= MAX_DELAY_MILLIS
    }
}

/// The effective status of a request: its `status` parameter, or `200`.
pub open spec fn spec_status(q: EchoRequest) -> int {
    match q.status {
        Some(s) => s as int,
        None => 200,
    }
}

/// The raw delay source: `timeout` if present, else `delay`, else `0`.
/// `timeout` wins whatever its value, even a negative one.
pub open spec fn spec_delay_source(q: EchoRequest) -> int {
    match q.timeout {
        Some(t) => t as int,
        None => match q.delay {
            Some(d) => d as int,
            None => 0,
        },
    }
}

/// Clamp a raw millisecond count into `[0, MAX_DELAY_MILLIS]`.
pub open spec fn spec_clamp_delay(v: int) -> int {
    if v < 0 {
        0
    } else if v > MAX_DELAY_MILLIS {
        MAX_DELAY_MILLIS as int
    } else {
        v
    }
}

/// The delay a request resolves to: its delay source, clamped.
pub open spec fn spec_resolved_delay(q: EchoRequest) -> int {
    spec_clamp_delay(spec_delay_source(q))
}

/// Resolve the raw query parameters of an echo request.
///
/// The status is the caller's `status`, or `200`; no range check happens
/// here. The delay is `timeout` if present, else `delay`, else `0`,
/// clamped into `[0, MAX_DELAY_MILLIS]`. Every input combination
/// resolves; nothing fails.
pub fn resolve(q: &EchoRequest) -> (r: ResolvedEcho)
    ensures
        r.http_status == spec_status(*q),
        r.delay_millis == spec_resolved_delay(*q),
        r.wf(),
{
    let http_status: i32 = match q.status {
        Some(s) => s,
        None => 200,
    };
    let source: i64 = match q.timeout {
        Some(t) => t,
        None => match q.delay {
            Some(d) => d,
            None => 0,
        },
    };
    let delay_millis: u64 = if source < 0 {
        0
    } else if source > 120000 {
        120000
    } else {
        source as u64
    };
    ResolvedEcho { http_status, delay_millis }
}

/// A non-negative `timeout` resolves to itself, capped at the maximum:
/// `min(d, MAX_DELAY_MILLIS)`.
pub proof fn lemma_nonnegative_timeout_capped(q: EchoRequest, d: i64)
    requires
        q.timeout == Some(d),
        0 <= d,
    ensures
        spec_resolved_delay(q) == vstd::math::min(d as int, MAX_DELAY_MILLIS as int),
{
}

/// A negative `timeout` resolves to a delay of zero.
pub proof fn lemma_negative_timeout_zero(q: EchoRequest, d: i64)
    requires
        q.timeout == Some(d),
        d < 0,
    ensures
        spec_resolved_delay(q) == 0,
{
}

/// When `timeout` is present it alone determines the resolved delay:
/// two requests with the same `timeout` resolve alike, whatever their
/// `delay` parameters hold.
pub proof fn lemma_timeout_overrides_delay(q1: EchoRequest, q2: EchoRequest)
    requires
        q1.timeout is Some,
        q1.timeout == q2.timeout,
    ensures
        spec_resolved_delay(q1) == spec_resolved_delay(q2),
{
}

/// With neither `timeout` nor `delay` present, the resolved delay is zero.
pub proof fn lemma_absent_delay_zero(q: EchoRequest)
    requires
        q.timeout is None,
        q.delay is None,
    ensures
        spec_resolved_delay(q) == 0,
{
}

/// With no `status` parameter, the effective status is `200`.
pub proof fn lemma_absent_status_default(q: EchoRequest)
    requires
        q.status is None,
    ensures
        spec_status(q) == 200,
{
}

} // verus!
