use vstd::prelude::*;

use crate::pipeline::Outcome;

verus! {

/// The observability surface of the pipeline: process-wide request
/// counters, created once at startup and bumped on every terminal state.
#[derive(Clone, Copy, Debug, PartialEq, Eq, Structural)]
pub struct Metrics {
    /// Requests that entered the pipeline.
    pub requests_total: u64,
    /// Requests that ended at `Published`.
    pub requests_accepted: u64,
    /// Requests that ended at any other terminal state.
    pub requests_rejected: u64,
}

/// Well-formedness of the surface: every counted request is counted
/// exactly once, as accepted or as rejected.
pub open spec fn consistent(m: Metrics) -> bool {
    m.requests_total == m.requests_accepted + m.requests_rejected
}

/// Whether a terminal state counts as accepted; everything short of a
/// publish — rejections, drops and failures alike — counts as rejected.
pub open spec fn counts_as_accepted(o: Outcome) -> bool {
    o is Published
}

/// Creates the counters of the observability surface, all starting at
/// zero.
pub fn register_metrics() -> (m: Metrics)
    ensures
        m.requests_total == 0,
        m.requests_accepted == 0,
        m.requests_rejected == 0,
        consistent(m),
{
    Metrics { requests_total: 0, requests_accepted: 0, requests_rejected: 0 }
}

/// Records one terminal state: the total rises by one, and exactly one of
/// the accepted/rejected counters rises with it — never both, never
/// neither.
pub fn record_outcome(m: &mut Metrics, o: &Outcome)
    requires
        old(m).requests_total < u64::MAX,
        consistent(*old(m)),
    ensures
        final(m).requests_total == old(m).requests_total + 1,
        final(m).requests_accepted == old(m).requests_accepted + (if counts_as_accepted(*o) {
            1int
        } else {
            0int
        }),
        final(m).requests_rejected == old(m).requests_rejected + (if counts_as_accepted(*o) {
            0int
        } else {
            1int
        }),
        consistent(*final(m)),
{
    m.requests_total = m.requests_total + 1;
    match o {
        Outcome::Published => {
            m.requests_accepted = m.requests_accepted + 1;
        },
        _ => {
            m.requests_rejected = m.requests_rejected + 1;
        },
    }
}

} // verus!
