//! Drive health classification: the severity-ranked status enum and the
//! failure-sample analyzer that tells fake-capacity wraparound (reads past
//! real capacity return zeros) from genuine physical corruption.
use vstd::prelude::*;

verus! {

/// Health statuses, ranked by [`severity`]: Healthy, then PhysicalCorruption,
/// then DataLoss, then FakeCapacity. A diagnosis session only ever escalates
/// along this ranking, never downgrades.
#[derive(Debug, Clone, Copy, PartialEq, Eq, Structural)]
pub enum DriveHealthStatus {
    Healthy,
    FakeCapacity,
    PhysicalCorruption,
    DataLoss,
}

/// Rank of a status in the escalation order.
pub open spec fn severity(status: DriveHealthStatus) -> int {
    match status {
        DriveHealthStatus::Healthy => 0,
        DriveHealthStatus::PhysicalCorruption => 1,
        DriveHealthStatus::DataLoss => 2,
        DriveHealthStatus::FakeCapacity => 3,
    }
}

/// Rank of an optional running classification; no observation ranks lowest.
pub open spec fn severity_opt(status: Option<DriveHealthStatus>) -> int {
    match status {
        None => -1,
        Some(s) => severity(s),
    }
}

pub fn status_severity(status: DriveHealthStatus) -> (r: u8)
    ensures
        r == severity(status),
{
    match status {
        DriveHealthStatus::Healthy => 0,
        DriveHealthStatus::PhysicalCorruption => 1,
        DriveHealthStatus::DataLoss => 2,
        DriveHealthStatus::FakeCapacity => 3,
    }
}

pub open spec fn all_zero(data: Seq<u8>) -> bool {
    forall|i: int| 0 <= i < data.len() ==> data[i] == 0
}

/// Classification of one mismatched block: `None` when the pair carries no
/// evidence (empty, length mismatch, or equal); `FakeCapacity` when the
/// actual bytes are all zero against a not-all-zero expectation; otherwise
/// `PhysicalCorruption`.
pub open spec fn spec_classify(expected: Seq<u8>, actual: Seq<u8>) -> Option<DriveHealthStatus> {
    if expected.len() == 0 || expected.len() != actual.len() {
        None
    } else if expected == actual {
        None
    } else if all_zero(actual) && !all_zero(expected) {
        Some(DriveHealthStatus::FakeCapacity)
    } else {
        Some(DriveHealthStatus::PhysicalCorruption)
    }
}

fn bytes_equal(a: &Vec<u8>, b: &Vec<u8>) -> (r: bool)
    ensures
        r == (a@ == b@),
{
    let n = a.len();
    if n != b.len() {
        return false;
    }
    let mut i: usize = 0;
    while i < n
        invariant
            i <= n,
            n == a@.len(),
            n == b@.len(),
            forall|j: int| 0 <= j < i ==> a@[j] == b@[j],
        decreases n - i,
    {
        if *a.get(i).unwrap() != *b.get(i).unwrap() {
            return false;
        }
        i = i + 1;
    }
    proof {
        assert(a@ =~= b@);
    }
    true
}

fn is_all_zero(data: &Vec<u8>) -> (r: bool)
    ensures
        r == all_zero(data@),
{
    let n = data.len();
    let mut i: usize = 0;
    while i < n
        invariant
            i <= n,
            n == data@.len(),
            forall|j: int| 0 <= j < i ==> data@[j] == 0,
        decreases n - i,
    {
        if *data.get(i).unwrap() != 0 {
            return false;
        }
        i = i + 1;
    }
    true
}

/// Analyzes one mismatched block's expected-vs-actual bytes and classifies
/// the failure, per [`spec_classify`].
pub fn analyze_failure_sample(expected: &Vec<u8>, actual: &Vec<u8>) -> (r: Option<
    DriveHealthStatus,
>)
    ensures
        r == spec_classify(expected@, actual@),
{
    if expected.is_empty() || expected.len() != actual.len() {
        return None;
    }
    if bytes_equal(expected, actual) {
        return None;
    }
    if is_all_zero(actual) && !is_all_zero(expected) {
        return Some(DriveHealthStatus::FakeCapacity);
    }
    Some(DriveHealthStatus::PhysicalCorruption)
}

/// The running classification after observing `observed`: replaced only when
/// the new observation ranks strictly higher.
pub open spec fn spec_escalate(
    current: Option<DriveHealthStatus>,
    observed: DriveHealthStatus,
) -> Option<DriveHealthStatus> {
    if severity(observed) > severity_opt(current) {
        Some(observed)
    } else {
        current
    }
}

/// Escalates a running classification; the result never ranks below either
/// argument, so a session's status is monotone along the severity order.
pub fn escalate(current: Option<DriveHealthStatus>, observed: DriveHealthStatus) -> (r: Option<
    DriveHealthStatus,
>)
    ensures
        r == spec_escalate(current, observed),
        severity_opt(r) >= severity_opt(current),
        severity_opt(r) >= severity(observed),
{
    match current {
        None => Some(observed),
        Some(existing) => {
            if status_severity(observed) > status_severity(existing) {
                Some(observed)
            } else {
                Some(existing)
            }
        },
    }
}

} // verus!
