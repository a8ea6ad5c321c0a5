use truthbyte::report::{generate_report, health_score_centi};
use truthbyte::status::{analyze_failure_sample, escalate, status_severity, DriveHealthStatus};

#[test]
fn no_errors_is_healthy() {
    let report = generate_report(1000, 1000, 1000, 0, 0, None);
    assert_eq!(report.status, DriveHealthStatus::Healthy);
    assert_eq!(report.error_count, 0);
    assert_eq!(report.conclusion, "No inconsistencies detected. Errors: 0.");
}

#[test]
fn read_errors_escalate_to_data_loss() {
    let report = generate_report(1000, 1000, 0, 7, 2, None);
    assert_eq!(report.status, DriveHealthStatus::DataLoss);
    assert_eq!(report.error_count, 9);
}

#[test]
fn fake_capacity_sample_overrides_base_status() {
    let report = generate_report(1000, 1000, 0, 3, 0, Some(DriveHealthStatus::FakeCapacity));
    assert_eq!(report.status, DriveHealthStatus::FakeCapacity);
}

#[test]
fn mismatches_alone_are_physical_corruption() {
    let report = generate_report(1000, 1000, 0, 3, 0, None);
    assert_eq!(report.status, DriveHealthStatus::PhysicalCorruption);
}

#[test]
fn score_is_zero_for_empty_capacity() {
    assert_eq!(health_score_centi(0, 0), 0);
    assert_eq!(health_score_centi(500, 0), 0);
}

#[test]
fn score_is_full_for_fully_valid() {
    assert_eq!(health_score_centi(1048576, 1048576), 10000);
}

#[test]
fn score_is_proportional_and_clamped() {
    assert_eq!(health_score_centi(1, 4), 2500);
    assert_eq!(health_score_centi(1044480, 1048576), 9960);
    assert_eq!(health_score_centi(2000, 1000), 10000);
}

#[test]
fn early_termination_note_carries_both_counts() {
    let report = generate_report(8192, 4096, 4096, 0, 1, None);
    assert_eq!(
        report.conclusion,
        "Warning: read errors or missing data detected. Errors: 1. \
         Verification ended early after 4096 / 8192 bytes."
    );
}

#[test]
fn full_scan_has_no_early_note() {
    let report = generate_report(8192, 8192, 8192, 0, 0, None);
    assert!(!report.conclusion.contains("ended early"));
}

#[test]
fn analyzer_classifies_zero_fill_as_fake_capacity() {
    let expected = vec![1u8, 2, 3, 4];
    let actual = vec![0u8, 0, 0, 0];
    assert_eq!(
        analyze_failure_sample(&expected, &actual),
        Some(DriveHealthStatus::FakeCapacity)
    );
}

#[test]
fn analyzer_classifies_nonzero_divergence_as_corruption() {
    let expected = vec![1u8, 2, 3, 4];
    let actual = vec![1u8, 9, 3, 4];
    assert_eq!(
        analyze_failure_sample(&expected, &actual),
        Some(DriveHealthStatus::PhysicalCorruption)
    );
}

#[test]
fn analyzer_rejects_degenerate_samples() {
    let empty: Vec<u8> = Vec::new();
    assert_eq!(analyze_failure_sample(&empty, &empty), None);
    let a = vec![1u8, 2];
    let b = vec![1u8, 2, 3];
    assert_eq!(analyze_failure_sample(&a, &b), None);
    assert_eq!(analyze_failure_sample(&a, &a.clone()), None);
}

#[test]
fn escalation_is_monotone() {
    assert_eq!(
        escalate(None, DriveHealthStatus::PhysicalCorruption),
        Some(DriveHealthStatus::PhysicalCorruption)
    );
    assert_eq!(
        escalate(
            Some(DriveHealthStatus::FakeCapacity),
            DriveHealthStatus::PhysicalCorruption
        ),
        Some(DriveHealthStatus::FakeCapacity)
    );
    assert_eq!(
        escalate(
            Some(DriveHealthStatus::PhysicalCorruption),
            DriveHealthStatus::DataLoss
        ),
        Some(DriveHealthStatus::DataLoss)
    );
}

#[test]
fn severity_ranking_matches_escalation_order() {
    assert!(status_severity(DriveHealthStatus::Healthy)
        < status_severity(DriveHealthStatus::PhysicalCorruption));
    assert!(status_severity(DriveHealthStatus::PhysicalCorruption)
        < status_severity(DriveHealthStatus::DataLoss));
    assert!(status_severity(DriveHealthStatus::DataLoss)
        < status_severity(DriveHealthStatus::FakeCapacity));
}
