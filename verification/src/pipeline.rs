//! One pipeline's handling of an event: count it in, run the operator
//! chain, and pass the result on to the exporters, hand it to the
//! dead-letter sink, or count it dropped. The runner owns the channels
//! and tasks; this decides.

use vstd::prelude::*;
use crate::event::Event;
use crate::metrics::PipelineMetrics;
use crate::operator::{OperatorChain, ChainEnd, RunOutcome, chain_end, outcome_is};

verus! {

/// A counter after `n` more, wrapping like the counter does.
pub open spec fn bumped(c: u64, n: int) -> int {
    (c + n) % 0x1_0000_0000_0000_0000
}

/// Runs one event through a pipeline's chain, recording it: in, then
/// out when every step ran, dead-lettered when a dead-letter step
/// stopped it, or dropped. Errors the event came out with count as parse
/// errors. A passed event is what every exporter of the pipeline
/// receives; a dead-lettered one is for the dead-letter sink, not the
/// exporters.
pub fn pipeline_step(chain: &OperatorChain, metrics: &mut PipelineMetrics, event: Event) -> (r: RunOutcome)
    ensures
        final(metrics).events_in@ == bumped(old(metrics).events_in@, 1),
        outcome_is(r, chain_end(chain@, event@)),
        match chain_end(chain@, event@) {
            ChainEnd::Passed(m) => {
                &&& final(metrics).events_out@ == bumped(old(metrics).events_out@, 1)
                &&& final(metrics).parse_errors@ == bumped(old(metrics).parse_errors@, m.errors.len() as int)
                &&& final(metrics).events_dead_lettered@ == old(metrics).events_dead_lettered@
                &&& final(metrics).events_dropped@ == old(metrics).events_dropped@
            },
            ChainEnd::DeadLettered(m) => {
                &&& final(metrics).events_dead_lettered@ == bumped(old(metrics).events_dead_lettered@, 1)
                &&& final(metrics).parse_errors@ == bumped(old(metrics).parse_errors@, m.errors.len() as int)
                &&& final(metrics).events_out@ == old(metrics).events_out@
                &&& final(metrics).events_dropped@ == old(metrics).events_dropped@
            },
            ChainEnd::Dropped => {
                &&& final(metrics).events_dropped@ == bumped(old(metrics).events_dropped@, 1)
                &&& final(metrics).events_out@ == old(metrics).events_out@
                &&& final(metrics).parse_errors@ == old(metrics).parse_errors@
                &&& final(metrics).events_dead_lettered@ == old(metrics).events_dead_lettered@
            },
        },
{
    metrics.events_in.inc();
    let outcome = chain.run_outcome(event);
    assert(bumped(old(metrics).parse_errors@, 0) == old(metrics).parse_errors@);
    match outcome {
        RunOutcome::Passed(processed) => {
            let n = processed.meta.errors.len();
            assert(n == processed@.errors.len());
            if n > 0 {
                metrics.parse_errors.add(n as u64);
            }
            metrics.events_out.inc();
            RunOutcome::Passed(processed)
        },
        RunOutcome::DeadLettered(processed) => {
            let n = processed.meta.errors.len();
            assert(n == processed@.errors.len());
            if n > 0 {
                metrics.parse_errors.add(n as u64);
            }
            metrics.events_dead_lettered.inc();
            RunOutcome::DeadLettered(processed)
        },
        RunOutcome::Dropped => {
            metrics.events_dropped.inc();
            RunOutcome::Dropped
        },
    }
}

} // verus!
