//! The orchestrator's decisions: the effective run configuration, the
//! reachability gate, and the worker identities to spawn.
//!
//! The waiting, spawning and joining itself is runtime plumbing outside
//! the library; every decision it acts on is made — and verified — here.

use vstd::prelude::*;
use crate::workload::WorkloadType;

verus! {

/// The configuration one run executes under.
#[derive(Clone, Copy, Debug, PartialEq, Eq, Structural)]
pub struct Config {
    pub workers: u64,
    pub duration_secs: u64,
    pub kind: WorkloadType,
}

/// Apply the documented defaults to whatever the process entry handed
/// over: 10 workers, 30 seconds, and the `GetPut` workload, each used
/// where the argument was absent or unparseable.
pub fn config_from(
    workers: Option<u64>,
    duration_secs: Option<u64>,
    kind: Option<WorkloadType>,
) -> (c: Config)
    ensures
        c.workers == (match workers {
            Some(w) => w,
            None => 10u64,
        }),
        c.duration_secs == (match duration_secs {
            Some(d) => d,
            None => 30u64,
        }),
        c.kind == (match kind {
            Some(k) => k,
            None => WorkloadType::GetPut,
        }),
{
    Config {
        workers: match workers {
            Some(w) => w,
            None => 10,
        },
        duration_secs: match duration_secs {
            Some(d) => d,
            None => 30,
        },
        kind: match kind {
            Some(k) => k,
            None => WorkloadType::GetPut,
        },
    }
}

/// The reachability gate: the identities of the workers to spawn.
/// When the pre-flight probe reached the server, these are exactly the
/// distinct identities `0..worker_count`; when the probe errored, no
/// worker at all is spawned.
pub fn workers_to_spawn(probe_ok: bool, worker_count: usize) -> (ids: Vec<u64>)
    ensures
        probe_ok ==> ids@.len() == worker_count && forall|j: int|
            0 <= j < ids@.len() ==> ids@[j] == j,
        !probe_ok ==> ids@.len() == 0,
{
    let mut ids: Vec<u64> = Vec::new();
    if probe_ok {
        let mut i: usize = 0;
        while i < worker_count
            invariant
                0 <= i <= worker_count,
                worker_count <= u64::MAX,
                ids@.len() == i,
                forall|j: int| 0 <= j < ids@.len() ==> ids@[j] == j,
            decreases worker_count - i,
        {
            ids.push(i as u64);
            i = i + 1;
        }
    }
    ids
}

/// Whether a worker's timed loop runs one more iteration: it does
/// exactly as long as the elapsed time has not reached the budget.
pub fn should_continue(elapsed_ms: u64, budget_ms: u64) -> (b: bool)
    ensures
        b == (elapsed_ms < budget_ms),
{
    elapsed_ms < budget_ms
}

/// The run's time budget in milliseconds.
pub fn budget_ms(c: &Config) -> (ms: u64)
    requires
        c.duration_secs * 1000 <= u64::MAX,
    ensures
        ms == c.duration_secs * 1000,
{
    c.duration_secs * 1000
}

} // verus!
