//! The three types that cross the boundary between the framework's
//! bulk-action dispatch and a project's handler.
use vstd::prelude::*;
use crate::auth::Identity;

verus! {

/// Per-request context handed to a project's bulk-action handler.
#[non_exhaustive]
pub struct BulkActionContext<'a> {
    /// The signed-in operator who initiated the dispatch.
    pub actor: &'a Identity,
    /// Per-request correlation id, when the middleware ran.
    pub correlation_id: Option<&'a str>,
    /// Client IP resolved from proxy headers, when known.
    pub ip_address: Option<&'a str>,
}

impl<'a> BulkActionContext<'a> {
    /// A minimal actor-only context; the other fields are `None`.
    pub fn new(actor: &'a Identity) -> (c: Self)
        ensures
            c.actor == actor,
            c.correlation_id is None,
            c.ip_address is None,
    {
        BulkActionContext { actor, correlation_id: None, ip_address: None }
    }
}

/// One row that failed inside an otherwise-successful bulk batch.
#[non_exhaustive]
#[derive(Debug, Clone)]
pub struct BulkActionFailure {
    /// The row id the action could not be applied to.
    pub id: i64,
    /// Operator-facing reason.
    pub reason: String,
}

impl BulkActionFailure {
    /// A failure entry for row `id` with the given reason.
    pub fn new<R: Into<String>>(id: i64, reason: R) -> (f: Self)
        ensures
            f.id == id,
            call_ensures(R::into, (reason,), f.reason),
    {
        BulkActionFailure { id, reason: reason.into() }
    }
}

/// Outcome of a project-defined bulk action.
#[non_exhaustive]
#[derive(Debug, Clone)]
pub struct BulkActionResult {
    /// Rows the action was applied to.
    pub succeeded: usize,
    /// One entry per row that could not be completed.
    pub failed: Vec<BulkActionFailure>,
    /// Operator-facing summary line.
    pub message: Option<String>,
}

impl Default for BulkActionResult {
    fn default() -> (r: Self)
        ensures
            r.succeeded == 0,
            r.failed@.len() == 0,
            r.message is None,
    {
        BulkActionResult { succeeded: 0, failed: Vec::new(), message: None }
    }
}

impl BulkActionResult {
    /// `succeeded` rows applied cleanly; no failures.
    pub fn ok(succeeded: usize) -> (r: Self)
        ensures
            r.succeeded == succeeded,
            r.failed@.len() == 0,
            r.message is None,
    {
        BulkActionResult { succeeded, failed: Vec::new(), message: None }
    }

    /// Mixed outcome: the survivor count with the per-id failure list.
    pub fn partial(succeeded: usize, failed: Vec<BulkActionFailure>) -> (r: Self)
        ensures
            r.succeeded == succeeded,
            r.failed@ == failed@,
            r.message is None,
    {
        BulkActionResult { succeeded, failed, message: None }
    }

    /// Total rows attempted: `succeeded + failed.len()`.
    pub fn total(&self) -> (t: usize)
        requires
            self.succeeded + self.failed@.len() <= usize::MAX,
        ensures
            t == self.succeeded + self.failed@.len(),
    {
        self.succeeded + self.failed.len()
    }

    /// Attach an operator-facing summary line.
    pub fn with_message<M: Into<String>>(self, message: M) -> (r: Self)
        ensures
            r.succeeded == self.succeeded,
            r.failed@ == self.failed@,
            r.message matches Some(m) && call_ensures(M::into, (message,), m),
    {
        let mut s = self;
        s.message = Some(message.into());
        s
    }
}

} // verus!
