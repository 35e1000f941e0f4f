//! Recording step of one dispatch unit: classify the completed attempt and
//! fold it into the shared aggregates.

use vstd::prelude::*;
use crate::outcome::{classify, classify_spec, AttemptResult, ErrorCounters};
use crate::stats::ResponseTime;

verus! {

/// Fold one completed attempt into the shared state: exactly one latency
/// sample goes to the aggregator, whatever the outcome, and exactly one
/// outcome kind goes to the counters. The caller measured `elapsed_ms` from
/// just before the request to its completion, successful or failed.
pub fn record_attempt(
    stats: &mut ResponseTime,
    counters: &mut ErrorCounters,
    elapsed_ms: u32,
    result: &AttemptResult,
)
    requires
        old(stats).wf(),
        old(counters).wf(),
        old(stats)@.len() < u32::MAX,
        old(counters)@.len() < u64::MAX,
    ensures
        final(stats).wf(),
        final(counters).wf(),
        final(stats)@ == old(stats)@.push(elapsed_ms),
        final(counters)@ == old(counters)@.push(classify_spec(*result)),
{
    let kind = classify(result);
    stats.add(elapsed_ms);
    counters.record(kind);
}

} // verus!
