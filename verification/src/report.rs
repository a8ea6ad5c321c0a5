//! Report generation: turns the raw tallies of a verify or probe pass into a
//! severity-ranked health status, a 0-100 health score and a conclusion
//! sentence.
use vstd::prelude::*;

verus! {

use vstd::arithmetic::div_mod::{lemma_div_is_ordered, lemma_div_multiples_vanish};

use crate::decimal::{decimal_of, u64_to_decimal};
use crate::status::{severity, severity_opt, status_severity, DriveHealthStatus};

/// The sole authoritative result of a diagnosis phase. The health score is
/// held in hundredths of a point (0 ..= 10000 for 0.00 ..= 100.00), the
/// fraction of the target's capacity that verified correctly.
#[derive(Debug, Clone)]
pub struct DiagnosisReport {
    pub total_capacity: u64,
    pub tested_bytes: u64,
    pub valid_bytes: u64,
    pub error_count: u64,
    pub health_score_centi: u64,
    pub status: DriveHealthStatus,
    pub conclusion: String,
}

/// Health score in hundredths of a point: 0 for an empty target, otherwise
/// `valid / total * 100` points, truncated and clamped to 100 points.
pub open spec fn spec_score_centi(valid_bytes: u64, total_capacity: u64) -> int {
    if total_capacity == 0 {
        0
    } else if valid_bytes * 10000 / (total_capacity as int) > 10000 {
        10000
    } else {
        valid_bytes * 10000 / (total_capacity as int)
    }
}

/// Computes the health score, in hundredths of a point.
pub fn health_score_centi(valid_bytes: u64, total_capacity: u64) -> (r: u64)
    ensures
        r == spec_score_centi(valid_bytes, total_capacity),
{
    if total_capacity == 0 {
        return 0;
    }
    let num = (valid_bytes as u128) * 10000;
    let q = num / (total_capacity as u128);
    if q > 10000 {
        10000
    } else {
        q as u64
    }
}

/// Health score bounds: an empty target scores 0; a fully valid target
/// scores exactly 100 points; a partially valid target scores the
/// proportional fraction, never above 100 points.
pub proof fn lemma_health_score(valid_bytes: u64, total_capacity: u64)
    ensures
        total_capacity == 0 ==> spec_score_centi(valid_bytes, total_capacity) == 0,
        total_capacity > 0 && valid_bytes == total_capacity ==> spec_score_centi(
            valid_bytes,
            total_capacity,
        ) == 10000,
        total_capacity > 0 && valid_bytes <= total_capacity ==> spec_score_centi(
            valid_bytes,
            total_capacity,
        ) == valid_bytes * 10000 / (total_capacity as int),
        spec_score_centi(valid_bytes, total_capacity) <= 10000,
{
    if total_capacity > 0 {
        lemma_div_multiples_vanish(10000, total_capacity as int);
        if valid_bytes <= total_capacity {
            lemma_div_is_ordered(
                valid_bytes * 10000,
                total_capacity * 10000,
                total_capacity as int,
            );
        }
    }
}

/// The status reported for the given tallies: Healthy with no errors, else
/// PhysicalCorruption; escalated to DataLoss when any block could not be
/// read; further escalated to the sample classification when that ranks
/// strictly higher.
pub open spec fn report_status(
    mismatch_blocks: u64,
    read_error_blocks: u64,
    sample_status: Option<DriveHealthStatus>,
) -> DriveHealthStatus {
    let base = if mismatch_blocks + read_error_blocks == 0 {
        DriveHealthStatus::Healthy
    } else {
        DriveHealthStatus::PhysicalCorruption
    };
    let escalated = if read_error_blocks > 0 {
        DriveHealthStatus::DataLoss
    } else {
        base
    };
    match sample_status {
        Some(sample) => if severity(sample) > severity(escalated) {
            sample
        } else {
            escalated
        },
        None => escalated,
    }
}

/// Status escalation with no errors: when nothing mismatched and nothing
/// failed to read (so no failure sample was taken either), the report says
/// Healthy.
pub proof fn lemma_status_healthy(
    mismatch_blocks: u64,
    read_error_blocks: u64,
    sample_status: Option<DriveHealthStatus>,
)
    requires
        mismatch_blocks == 0,
        read_error_blocks == 0,
        sample_status is Some ==> mismatch_blocks > 0,
    ensures
        report_status(mismatch_blocks, read_error_blocks, sample_status)
            == DriveHealthStatus::Healthy,
{
}

/// Status escalation on read errors: any unreadable block makes the report
/// say DataLoss, whatever the mismatch count, unless a failure sample ranks
/// even higher.
pub proof fn lemma_status_data_loss(
    mismatch_blocks: u64,
    read_error_blocks: u64,
    sample_status: Option<DriveHealthStatus>,
)
    requires
        read_error_blocks > 0,
        severity_opt(sample_status) <= severity(DriveHealthStatus::DataLoss),
    ensures
        report_status(mismatch_blocks, read_error_blocks, sample_status)
            == DriveHealthStatus::DataLoss,
{
}

/// Status escalation on a fake-capacity sample: an all-zero mismatched block
/// against a not-all-zero expected block outranks every other status,
/// overriding in particular a PhysicalCorruption base status.
pub proof fn lemma_status_fake_capacity(
    mismatch_blocks: u64,
    read_error_blocks: u64,
)
    ensures
        report_status(
            mismatch_blocks,
            read_error_blocks,
            Some(DriveHealthStatus::FakeCapacity),
        ) == DriveHealthStatus::FakeCapacity,
{
}

/// The status-keyed base sentence of the conclusion.
pub open spec fn status_text(status: DriveHealthStatus) -> Seq<char> {
    match status {
        DriveHealthStatus::Healthy => "No inconsistencies detected."@,
        DriveHealthStatus::FakeCapacity
            => "Warning: detected zero-filled data; possible fake capacity."@,
        DriveHealthStatus::PhysicalCorruption
            => "Warning: detected random corruption or inconsistent data."@,
        DriveHealthStatus::DataLoss => "Warning: read errors or missing data detected."@,
    }
}

/// The full conclusion sentence: the status-keyed base, the error count,
/// and, whenever fewer bytes were tested than the target's capacity, a note
/// that verification ended early with both byte counts.
pub open spec fn conclusion_text(
    status: DriveHealthStatus,
    error_count: u64,
    tested_bytes: u64,
    total_capacity: u64,
) -> Seq<char> {
    let base = status_text(status) + " Errors: "@ + decimal_of(error_count as nat) + "."@;
    if tested_bytes < total_capacity {
        base + " Verification ended early after "@ + decimal_of(tested_bytes as nat) + " / "@
            + decimal_of(total_capacity as nat) + " bytes."@
    } else {
        base
    }
}

fn status_str(status: DriveHealthStatus) -> (r: &'static str)
    ensures
        r@ == status_text(status),
{
    match status {
        DriveHealthStatus::Healthy => "No inconsistencies detected.",
        DriveHealthStatus::FakeCapacity => {
            "Warning: detected zero-filled data; possible fake capacity."
        },
        DriveHealthStatus::PhysicalCorruption => {
            "Warning: detected random corruption or inconsistent data."
        },
        DriveHealthStatus::DataLoss => "Warning: read errors or missing data detected.",
    }
}

/// Builds the report for the given tallies: the error count is the mismatch
/// count plus the read-error count, and status, score and conclusion follow
/// [`report_status`], [`spec_score_centi`] and [`conclusion_text`].
pub fn generate_report(
    total_capacity: u64,
    tested_bytes: u64,
    valid_bytes: u64,
    mismatch_blocks: u64,
    read_error_blocks: u64,
    sample_status: Option<DriveHealthStatus>,
) -> (r: DiagnosisReport)
    requires
        mismatch_blocks + read_error_blocks <= u64::MAX,
    ensures
        r.total_capacity == total_capacity,
        r.tested_bytes == tested_bytes,
        r.valid_bytes == valid_bytes,
        r.error_count == mismatch_blocks + read_error_blocks,
        r.status == report_status(mismatch_blocks, read_error_blocks, sample_status),
        r.health_score_centi == spec_score_centi(valid_bytes, total_capacity),
        r.conclusion@ == conclusion_text(r.status, r.error_count, tested_bytes, total_capacity),
{
    let error_count = mismatch_blocks + read_error_blocks;
    let mut status = if error_count == 0 {
        DriveHealthStatus::Healthy
    } else {
        DriveHealthStatus::PhysicalCorruption
    };
    if read_error_blocks > 0 {
        status = DriveHealthStatus::DataLoss;
    }
    if let Some(sample) = sample_status {
        if status_severity(sample) > status_severity(status) {
            status = sample;
        }
    }
    let score = health_score_centi(valid_bytes, total_capacity);

    let mut conclusion = String::new();
    conclusion.append(status_str(status));
    conclusion.append(" Errors: ");
    conclusion.append(u64_to_decimal(error_count).as_str());
    conclusion.append(".");
    if tested_bytes < total_capacity {
        conclusion.append(" Verification ended early after ");
        conclusion.append(u64_to_decimal(tested_bytes).as_str());
        conclusion.append(" / ");
        conclusion.append(u64_to_decimal(total_capacity).as_str());
        conclusion.append(" bytes.");
    }
    proof {
        assert(conclusion@ =~= conclusion_text(status, error_count, tested_bytes, total_capacity));
    }

    DiagnosisReport {
        total_capacity,
        tested_bytes,
        valid_bytes,
        error_count,
        health_score_centi: score,
        status,
        conclusion,
    }
}

} // verus!
