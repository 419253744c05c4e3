use vstd::prelude::*;

verus! {

/// Classified failure reason handed to the dispatch layer: the two variants
/// produced by the remote dependency, plus the caller-fault variant an
/// operation raises before the dependency is ever contacted.
#[derive(Debug, Clone, PartialEq, Eq)]
pub enum ErrorKind {
    /// Caller-supplied input violates an operation's precondition; detected
    /// before any dependency call.
    InvalidInput(String),
    /// Failure local to this service, or an unclassified dependency fault.
    Internal(String),
    /// Failure surfaced by the remote dependency, not further characterized.
    Upstream(String),
}

/// The RPC-visible result of an operation: a successful response, or one of
/// the three status codes this layer emits, each carrying its message text.
#[derive(Debug, Clone, PartialEq, Eq)]
pub enum StatusOutcome<R> {
    Success(R),
    InvalidArgument(String),
    Internal(String),
    Unknown(String),
}

/// The uniform error-dispatch rule: `InvalidInput` becomes `InvalidArgument`,
/// `Internal` stays `Internal`, `Upstream` becomes `Unknown`; the message is
/// kept verbatim in every case.
pub open spec fn spec_classify<R>(e: ErrorKind) -> StatusOutcome<R> {
    match e {
        ErrorKind::InvalidInput(m) => StatusOutcome::InvalidArgument(m),
        ErrorKind::Internal(m) => StatusOutcome::Internal(m),
        ErrorKind::Upstream(m) => StatusOutcome::Unknown(m),
    }
}

/// Maps a dependency error to its RPC outcome. Pure and total: the result is
/// `spec_classify(e)` for every variant, so no variant is dropped and the
/// message text is always propagated unchanged.
pub fn classify<R>(e: ErrorKind) -> (r: StatusOutcome<R>)
    ensures
        r == spec_classify::<R>(e),
        e matches ErrorKind::InvalidInput(m) ==> r == StatusOutcome::<R>::InvalidArgument(m),
        e matches ErrorKind::Internal(m) ==> r == StatusOutcome::<R>::Internal(m),
        e matches ErrorKind::Upstream(m) ==> r == StatusOutcome::<R>::Unknown(m),
{
    match e {
        ErrorKind::InvalidInput(m) => StatusOutcome::InvalidArgument(m),
        ErrorKind::Internal(m) => StatusOutcome::Internal(m),
        ErrorKind::Upstream(m) => StatusOutcome::Unknown(m),
    }
}

} // verus!
