//! The concurrency sizing policy: how many logical worker threads to
//! configure when the caller does, or does not, supply a count.

use vstd::prelude::*;
use crate::diag::{Diagnostic, DiagnosticsSink};

verus! {

/// The documented minimum used when the caller supplies no count and the
/// host's hardware-parallelism query is unavailable or reports zero.
pub const FALLBACK_CONCURRENCY: usize = 2;

/// The resolved concurrency count: an explicit count is returned unchanged;
/// otherwise the host's reported parallelism is used when it is positive,
/// and the fallback minimum when the query is unavailable or reports zero.
pub open spec fn resolve_spec(explicit_count: Option<usize>, host_parallelism: Option<usize>) -> usize {
    match explicit_count {
        Some(n) => n,
        None => match host_parallelism {
            Some(h) => if h >= 1 { h } else { FALLBACK_CONCURRENCY },
            None => FALLBACK_CONCURRENCY,
        },
    }
}

/// Whether resolving emits the informational fallback report: only when no
/// explicit count is given and the host query is unavailable.
pub open spec fn fallback_reported(explicit_count: Option<usize>, host_parallelism: Option<usize>) -> bool {
    explicit_count is None && host_parallelism is None
}

/// Resolve the concurrency count.  Never fails: it always returns a usable
/// (positive) count.  When the fallback triggers, exactly one
/// `SizingFallback` report is recorded on the sink.
///
/// `host_parallelism` is the result of the host's hardware-parallelism
/// query, performed by the embedding code; `None` means the query is not
/// supported in the current execution context.
pub fn resolve(
    explicit_count: Option<usize>,
    host_parallelism: Option<usize>,
    sink: &mut DiagnosticsSink,
) -> (count: usize)
    requires
        explicit_count matches Some(n) ==> n >= 1,
    ensures
        count == resolve_spec(explicit_count, host_parallelism),
        count >= 1,
        fallback_reported(explicit_count, host_parallelism) ==> final(sink).messages@
            == old(sink).messages@.push(Diagnostic::SizingFallback),
        !fallback_reported(explicit_count, host_parallelism) ==> final(sink).messages
            == old(sink).messages,
        final(sink).hook_installed == old(sink).hook_installed,
{
    match explicit_count {
        Some(n) => n,
        None => match host_parallelism {
            Some(h) => {
                if h >= 1 {
                    h
                } else {
                    FALLBACK_CONCURRENCY
                }
            },
            None => {
                sink.log(Diagnostic::SizingFallback);
                FALLBACK_CONCURRENCY
            },
        },
    }
}

/// Law: an explicit positive count is returned unchanged, whatever the host
/// reports.
pub proof fn lemma_resolve_explicit(n: usize, host_parallelism: Option<usize>)
    ensures
        resolve_spec(Some(n), host_parallelism) == n,
{
}

/// Law: the resolved count is always positive, provided any explicit count
/// is positive; in particular, when the host query is unavailable the
/// fallback minimum is returned, and it is at least 1.
pub proof fn lemma_resolve_positive(explicit_count: Option<usize>, host_parallelism: Option<usize>)
    requires
        explicit_count matches Some(n) ==> n >= 1,
    ensures
        resolve_spec(explicit_count, host_parallelism) >= 1,
        explicit_count is None && host_parallelism is None
            ==> resolve_spec(explicit_count, host_parallelism) == FALLBACK_CONCURRENCY,
{
}

} // verus!
