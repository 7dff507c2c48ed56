//! Per-cycle bookkeeping of the probe loop.
//!
//! One probe cycle seeks to a sampled offset and reads one full block. A
//! failed seek aborts the cycle before the read; a failed or short read fails
//! the cycle; only a complete read counts as a success and contributes a
//! latency observation. Every cycle ends in exactly one registry update:
//! either the error counter or the histogram, never both, never neither.

use crate::registry::MetricsRegistry;
use crate::registry::RegistryView;
use crate::sampler::BLOCK_SIZE;
use vstd::prelude::*;

verus! {

/// How one probe cycle ended. A short read counts as a read failure: the
/// probe measures complete block reads only.
#[derive(Clone, Copy, Debug)]
pub enum CycleOutcome {
    /// The seek failed; the read was never attempted.
    SeekFailed,
    /// The seek succeeded but the read failed or came back short.
    ReadFailed,
    /// Seek and read both succeeded, taking `latency_ns` nanoseconds in all.
    ReadOk { latency_ns: u64 },
}

/// A cycle that ended in either failure: seek or read.
pub open spec fn cycle_failed(o: CycleOutcome) -> bool {
    o is SeekFailed || o is ReadFailed
}

/// Registry state after recording one cycle: a failure raises the error
/// counter, a success contributes one latency observation.
pub open spec fn apply_cycle(v: RegistryView, o: CycleOutcome) -> RegistryView {
    match o {
        CycleOutcome::ReadOk { latency_ns } => v.after_observe(latency_ns),
        CycleOutcome::SeekFailed => v.after_error(),
        CycleOutcome::ReadFailed => v.after_error(),
    }
}

/// Registry state after recording a whole run of cycles, oldest first.
pub open spec fn apply_cycles(v: RegistryView, outcomes: Seq<CycleOutcome>) -> RegistryView
    decreases outcomes.len(),
{
    if outcomes.len() == 0 {
        v
    } else {
        apply_cycle(apply_cycles(v, outcomes.drop_last()), outcomes.last())
    }
}

/// Number of failed cycles in a run.
pub open spec fn num_failures(outcomes: Seq<CycleOutcome>) -> nat
    decreases outcomes.len(),
{
    if outcomes.len() == 0 {
        0
    } else {
        num_failures(outcomes.drop_last()) + (if cycle_failed(outcomes.last()) {
            1nat
        } else {
            0nat
        })
    }
}

/// Record one finished cycle in the registry.
pub fn record_cycle(reg: &mut MetricsRegistry, outcome: CycleOutcome)
    requires
        old(reg)@.inv(),
    ensures
        final(reg)@ == apply_cycle(old(reg)@, outcome),
        final(reg)@.inv(),
{
    match outcome {
        CycleOutcome::ReadOk { latency_ns } => reg.observe_ns(latency_ns),
        CycleOutcome::SeekFailed => reg.increment_errors(),
        CycleOutcome::ReadFailed => reg.increment_errors(),
    }
}

/// Every cycle is either a failure or a success, so the two tallies of a run
/// partition its length.
pub proof fn lemma_tally_partition(outcomes: Seq<CycleOutcome>)
    ensures
        num_failures(outcomes) <= outcomes.len(),
    decreases outcomes.len(),
{
    if outcomes.len() > 0 {
        lemma_tally_partition(outcomes.drop_last());
    }
}

proof fn lemma_cycle_tally_from(v: RegistryView, outcomes: Seq<CycleOutcome>)
    requires
        v.errors + num_failures(outcomes) <= u64::MAX,
        v.count + outcomes.len() - num_failures(outcomes) <= u64::MAX,
    ensures
        apply_cycles(v, outcomes).errors == v.errors + num_failures(outcomes),
        apply_cycles(v, outcomes).count == v.count + outcomes.len() - num_failures(outcomes),
    decreases outcomes.len(),
{
    lemma_tally_partition(outcomes);
    if outcomes.len() > 0 {
        lemma_tally_partition(outcomes.drop_last());
        lemma_cycle_tally_from(v, outcomes.drop_last());
    }
}

/// After any run of `N` cycles from a fresh registry, with `k` of them failed
/// (seek or read) and `N - k` successful, the error counter reads exactly `k`
/// and the histogram holds exactly `N - k` observations.
pub proof fn lemma_cycle_tally(v0: RegistryView, outcomes: Seq<CycleOutcome>)
    requires
        v0.is_fresh(),
        outcomes.len() <= u64::MAX,
    ensures
        apply_cycles(v0, outcomes).errors == num_failures(outcomes),
        apply_cycles(v0, outcomes).count == outcomes.len() - num_failures(outcomes),
{
    lemma_tally_partition(outcomes);
    lemma_cycle_tally_from(v0, outcomes);
}

/// Whether a target of `file_size` bytes is large enough to probe: it must
/// hold at least one full block, else startup is refused before any cycle
/// runs.
pub fn validate_target_size(file_size: u64) -> (ok: bool)
    ensures
        ok <==> file_size >= BLOCK_SIZE,
{
    file_size >= BLOCK_SIZE
}

} // verus!
