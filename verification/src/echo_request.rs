use vstd::prelude::*;

verus! {

/// The optional query parameters a caller may attach to an echo request.
///
/// Every field is caller-supplied and may be absent; `status` may be any
/// integer, and both durations may be negative. The resolution rules that
/// turn these raw inputs into an effective status and delay live in
/// [`crate::resolve`].
#[derive(Clone, Copy, Debug)]
pub struct EchoRequest {
    /// Desired HTTP status of the response; `200` when absent.
    pub status: Option<i32>,
    /// Desired delay in milliseconds; takes strict priority over `delay`.
    pub timeout: Option<i64>,
    /// Desired delay in milliseconds; consulted only when `timeout` is absent.
    pub delay: Option<i64>,
}

} // verus!
