use truthbyte::align::{align_down_u64, align_up, resolve_block_size, ConfigError};
use truthbyte::config::AppConfig;
use truthbyte::generator::fill_block;
use truthbyte::inspector::DriveInspector;
use truthbyte::probe::{ProbeSetup, ProbeTally};
use truthbyte::report::DiagnosisReport;
use truthbyte::status::DriveHealthStatus;
use truthbyte::verify_phase::VerifyTally;
use truthbyte::write_phase::{plan_write, write_chunk_len, WritePlan};

fn test_inspector() -> DriveInspector {
    let config = AppConfig {
        block_size: 4096,
        quick_probe_enabled: true,
        quick_probe_steps: 4,
    };
    DriveInspector::with_config("target.dat", config)
}

/// Streams the deterministic pattern into an in-memory medium, as the write
/// driver streams it to a device, and returns the bytes written.
fn simulated_write(device: &mut Vec<u8>, plan: &WritePlan) -> u64 {
    let mut offset: u64 = 0;
    while offset < plan.limit_bytes {
        let len = write_chunk_len(plan.limit_bytes, plan.block_size, offset);
        let mut buffer = vec![0u8; len];
        fill_block(offset, &mut buffer);
        device.extend_from_slice(&buffer);
        offset += len as u64;
    }
    offset
}

/// Scans an in-memory medium block by block, as the verify driver scans a
/// device, and returns the report.
fn simulated_verify(device: &[u8], mut tally: VerifyTally) -> DiagnosisReport {
    while tally.has_remaining() {
        let len = tally.next_read_len();
        let offset = tally.current_offset as usize;
        let buffer = device[offset..offset + len].to_vec();
        tally.record_block(&buffer);
    }
    tally.finish()
}

#[test]
fn end_to_end_clean_write_and_verify() {
    let inspector = test_inspector();
    let plan = inspector.plan_write_phase(1).expect("plan");
    let mut device: Vec<u8> = Vec::new();
    let bytes_written = simulated_write(&mut device, &plan);
    assert_eq!(bytes_written, 1_048_576);
    assert_eq!(device.len(), 1_048_576);

    let tally = inspector.begin_verify_phase(bytes_written).expect("begin");
    let report = simulated_verify(&device, tally);
    assert_eq!(report.status, DriveHealthStatus::Healthy);
    assert_eq!(report.error_count, 0);
    assert_eq!(report.health_score_centi, 10000);
    assert_eq!(report.tested_bytes, 1_048_576);
    assert_eq!(report.valid_bytes, 1_048_576);
}

#[test]
fn end_to_end_single_corrupted_byte() {
    let inspector = test_inspector();
    let plan = inspector.plan_write_phase(1).expect("plan");
    let mut device: Vec<u8> = Vec::new();
    let bytes_written = simulated_write(&mut device, &plan);

    device[8192] = device[8192].wrapping_add(1);

    let tally = inspector.begin_verify_phase(bytes_written).expect("begin");
    let report = simulated_verify(&device, tally);
    assert_eq!(report.error_count, 1);
    assert_eq!(report.status, DriveHealthStatus::PhysicalCorruption);
    assert!(report.health_score_centi > 0);
    assert!(report.health_score_centi < 10000);
}

#[test]
fn end_to_end_probe_detects_cross_anchor_wraparound() {
    let inspector = test_inspector();
    let plan = match inspector.plan_quick_probe_phase(1, 4) {
        Ok(ProbeSetup::Ready(plan)) => plan,
        _ => panic!("probe plan expected"),
    };
    let block = plan.block_size;
    assert!(plan.offsets.len() >= 2);

    // Write every anchor's own pattern to the medium.
    let mut device = vec![0u8; plan.limit_bytes as usize];
    for &offset in plan.offsets.iter() {
        let mut buffer = vec![0u8; block];
        fill_block(offset, &mut buffer);
        device[offset as usize..offset as usize + block].copy_from_slice(&buffer);
    }

    // A wrapped device maps one anchor onto another's physical cells: the
    // first anchor's bytes become the second anchor's expected pattern.
    let first = plan.offsets[0] as usize;
    let mut wrapped = vec![0u8; block];
    fill_block(plan.offsets[1], &mut wrapped);
    device[first..first + block].copy_from_slice(&wrapped);

    let mut tally = ProbeTally::begin(plan.offsets.len() as u64, block);
    for &offset in plan.offsets.iter() {
        let buffer = device[offset as usize..offset as usize + block].to_vec();
        if tally.record_block(&plan.offsets, offset, &buffer) {
            break;
        }
    }
    let report = tally.finish(plan.limit_bytes).expect("anomaly report");
    assert_eq!(report.status, DriveHealthStatus::FakeCapacity);
    assert!(report.error_count >= 1);
}

#[test]
fn clean_probe_returns_no_report() {
    let inspector = test_inspector();
    let plan = match inspector.plan_quick_probe_phase(1, 4) {
        Ok(ProbeSetup::Ready(plan)) => plan,
        _ => panic!("probe plan expected"),
    };
    let block = plan.block_size;
    let mut device = vec![0u8; plan.limit_bytes as usize];
    for &offset in plan.offsets.iter() {
        let mut buffer = vec![0u8; block];
        fill_block(offset, &mut buffer);
        device[offset as usize..offset as usize + block].copy_from_slice(&buffer);
    }
    let mut tally = ProbeTally::begin(plan.offsets.len() as u64, block);
    for &offset in plan.offsets.iter() {
        let buffer = device[offset as usize..offset as usize + block].to_vec();
        if tally.record_block(&plan.offsets, offset, &buffer) {
            break;
        }
    }
    assert!(tally.finish(plan.limit_bytes).is_none());
}

#[test]
fn read_errors_are_tolerated_and_reported() {
    let inspector = test_inspector();
    let plan = inspector.plan_write_phase(1).expect("plan");
    let mut device: Vec<u8> = Vec::new();
    let bytes_written = simulated_write(&mut device, &plan);

    let mut tally = inspector.begin_verify_phase(bytes_written).expect("begin");
    let mut failed_once = false;
    while tally.has_remaining() {
        let len = tally.next_read_len();
        let offset = tally.current_offset as usize;
        if !failed_once && offset == 4096 {
            // One unreadable block: counted, skipped, the scan continues.
            failed_once = true;
            tally.record_read_error(true);
            continue;
        }
        let buffer = device[offset..offset + len].to_vec();
        tally.record_block(&buffer);
    }
    let report = tally.finish();
    assert_eq!(report.status, DriveHealthStatus::DataLoss);
    assert_eq!(report.error_count, 1);
    assert_eq!(report.tested_bytes, 1_048_576);
}

#[test]
fn fatal_seek_failure_ends_scan_early() {
    let inspector = test_inspector();
    let mut tally = inspector.begin_verify_phase(8192).expect("begin");
    tally.record_read_error(false);
    let report = tally.finish();
    assert_eq!(report.status, DriveHealthStatus::DataLoss);
    assert_eq!(report.tested_bytes, 0);
    assert!(report
        .conclusion
        .contains("Verification ended early after 0 / 8192 bytes."));
}

#[test]
fn write_plan_aligns_limit_and_block() {
    let plan = plan_write(1, 5000).expect("plan");
    assert_eq!(plan.block_size, 8192);
    assert_eq!(plan.limit_bytes, 1_048_576);
    assert_eq!(plan.total_bytes, 1_048_576);

    let unbounded = plan_write(0, 4096).expect("plan");
    assert_eq!(unbounded.total_bytes, 0);
    assert_eq!(unbounded.limit_bytes, u64::MAX - 4095);

    assert!(matches!(plan_write(1, 0), Err(ConfigError::ZeroBlockSize)));
}

#[test]
fn chunk_len_covers_tail() {
    assert_eq!(write_chunk_len(10000, 4096, 0), 4096);
    assert_eq!(write_chunk_len(10000, 4096, 8192), 1808);
}

#[test]
fn verify_begin_rejects_misconfiguration() {
    assert!(matches!(
        VerifyTally::begin(4096, 0),
        Err(ConfigError::ZeroBlockSize)
    ));
    assert!(matches!(
        VerifyTally::begin(4097, 4096),
        Err(ConfigError::UnalignedTotal)
    ));
}

#[test]
fn probe_plan_rejects_misconfiguration() {
    let inspector = test_inspector();
    assert!(matches!(
        inspector.plan_quick_probe_phase(0, 4),
        Ok(ProbeSetup::Skip)
    ));
    assert!(matches!(
        inspector.plan_quick_probe_phase(1, 1),
        Err(ConfigError::ProbeStepsTooFew)
    ));
    let big_block = DriveInspector::with_config(
        "target.dat",
        AppConfig {
            block_size: 2 * 1024 * 1024,
            quick_probe_enabled: true,
            quick_probe_steps: 4,
        },
    );
    assert!(matches!(
        big_block.plan_quick_probe_phase(1, 4),
        Err(ConfigError::ProbeLimitTooSmall)
    ));
}

#[test]
fn probe_offsets_are_sorted_aligned_and_clamped() {
    let inspector = test_inspector();
    let plan = match inspector.plan_quick_probe_phase(1, 4) {
        Ok(ProbeSetup::Ready(plan)) => plan,
        _ => panic!("probe plan expected"),
    };
    for window in plan.offsets.windows(2) {
        assert!(window[0] < window[1]);
    }
    for &offset in plan.offsets.iter() {
        assert_eq!(offset % 4096, 0);
        assert!(offset + plan.block_size as u64 <= plan.limit_bytes);
    }
}

#[test]
fn alignment_helpers_round_as_documented() {
    assert_eq!(align_up(1, 4096), 4096);
    assert_eq!(align_up(4096, 4096), 4096);
    assert_eq!(align_up(4097, 4096), 8192);
    assert_eq!(align_up(7, 0), 7);
    assert_eq!(align_down_u64(4095, 4096), 0);
    assert_eq!(align_down_u64(8191, 4096), 4096);
    assert_eq!(align_down_u64(9, 0), 9);
    assert_eq!(resolve_block_size(1), Ok(4096));
    assert_eq!(resolve_block_size(0), Err(ConfigError::ZeroBlockSize));
    assert_eq!(
        ConfigError::ZeroBlockSize.message(),
        "Block size must be greater than zero."
    );
}

#[test]
fn inspector_holds_its_configuration() {
    let inspector = DriveInspector::new("disk.img");
    assert_eq!(inspector.file_path(), "disk.img");
    assert_eq!(inspector.block_size(), 4 * 1024 * 1024);
    assert!(inspector.quick_probe_enabled());
    assert_eq!(inspector.quick_probe_steps(), 100);
}
