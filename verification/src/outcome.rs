//! Classification of one request's outcome and its recording into the
//! owning worker's statistics.
//!
//! A GET or DELETE counts as successful whenever the transport returned
//! a response at all, whatever its status; a PUT counts only when the
//! status is in the 2xx range. A failure is terminal for its iteration
//! only: it is recorded and the loop goes on.

use vstd::prelude::*;
use crate::plan::OpKind;
use crate::stats::{Stats, StatsModel};

verus! {

/// What the transport handed back for one issued operation: a response
/// with its HTTP status, or a transport-level error.
#[derive(Clone, Copy, Debug, PartialEq, Eq, Structural)]
pub enum TransportResult {
    Response { status: u16 },
    Error,
}

/// Whether an operation of this verb, with this transport result,
/// counts as a success.
pub open spec fn is_success(kind: OpKind, res: TransportResult) -> bool {
    match res {
        TransportResult::Error => false,
        TransportResult::Response { status } => match kind {
            OpKind::Get => true,
            OpKind::Delete => true,
            OpKind::Put => 200 <= status < 300,
        },
    }
}

/// Decide whether the outcome counts as a success.
pub fn classify(kind: OpKind, res: &TransportResult) -> (b: bool)
    ensures
        b == is_success(kind, *res),
{
    match res {
        TransportResult::Error => false,
        TransportResult::Response { status } => match kind {
            OpKind::Get => true,
            OpKind::Delete => true,
            OpKind::Put => 200 <= *status && *status < 300,
        },
    }
}

/// Record one outcome: a success adds its latency and bumps the success
/// counter, anything else bumps only the failure counter.
pub fn record_outcome(kind: OpKind, res: &TransportResult, latency_ms: u64, stats: &mut Stats)
    requires
        old(stats).successful_requests < u64::MAX,
        old(stats).failed_requests < u64::MAX,
        old(stats).total_latency_ms + latency_ms <= u64::MAX,
    ensures
        is_success(kind, *res) ==> final(stats)@ == (StatsModel {
            succ: old(stats)@.succ + 1,
            fail: old(stats)@.fail,
            lat: old(stats)@.lat + latency_ms,
        }),
        !is_success(kind, *res) ==> final(stats)@ == (StatsModel {
            succ: old(stats)@.succ,
            fail: old(stats)@.fail + 1,
            lat: old(stats)@.lat,
        }),
{
    if classify(kind, res) {
        stats.record_success(latency_ms);
    } else {
        stats.record_failure();
    }
}

/// The verb of an operation's model — what the transport needs to know
/// to classify the outcome it observed.
pub fn kind_of(op: &crate::plan::Operation) -> (k: OpKind)
    ensures
        k == op@.kind,
{
    match op {
        crate::plan::Operation::Get { .. } => OpKind::Get,
        crate::plan::Operation::Put { .. } => OpKind::Put,
        crate::plan::Operation::Delete { .. } => OpKind::Delete,
    }
}

} // verus!
