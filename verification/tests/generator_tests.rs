use truthbyte::generator::{fill_block, generate_seed, verify_block, zero_block};

#[test]
fn test_determinism() {
    let mut block1 = vec![0u8; 1024];
    let mut block2 = vec![0u8; 1024];
    fill_block(100, &mut block1);
    fill_block(100, &mut block2);
    assert_eq!(block1, block2);
}

#[test]
fn test_offset_variance() {
    let mut block1 = vec![0u8; 1024];
    let mut block2 = vec![0u8; 1024];
    fill_block(100, &mut block1);
    fill_block(200, &mut block2);
    assert_ne!(block1, block2);
}

#[test]
fn test_seed_separation() {
    let seed_a = generate_seed(0);
    let seed_b = generate_seed(4 * 1024 * 1024 * 1024);
    assert_ne!(seed_a, seed_b);
}

#[test]
fn test_verification_logic() {
    let offset = 500;
    let mut data = vec![0u8; 256];

    fill_block(offset, &mut data);
    assert!(verify_block(offset, &data).is_ok());

    data[10] = data[10].wrapping_add(1);
    assert_eq!(verify_block(offset, &data), Err(10));
}

#[test]
fn seed_for_offset_zero_is_not_zero() {
    assert_ne!(generate_seed(0), 0);
}

#[test]
fn nearby_offsets_derive_distinct_seeds() {
    let offsets = [0u64, 1, 2, 4096, 8192, u64::MAX];
    for (i, &a) in offsets.iter().enumerate() {
        for &b in offsets.iter().skip(i + 1) {
            assert_ne!(generate_seed(a), generate_seed(b));
        }
    }
}

#[test]
fn fill_does_not_leave_buffer_zeroed() {
    let mut block = vec![0u8; 64];
    fill_block(0, &mut block);
    assert!(block.iter().any(|&b| b != 0));
}

#[test]
fn verify_reports_first_divergence() {
    let mut data = vec![0u8; 128];
    fill_block(4096, &mut data);
    data[3] = data[3].wrapping_add(1);
    data[90] = data[90].wrapping_add(1);
    assert_eq!(verify_block(4096, &data), Err(3));
}

#[test]
fn verify_of_empty_buffer_succeeds() {
    let data: Vec<u8> = Vec::new();
    assert!(verify_block(12345, &data).is_ok());
}

#[test]
fn zero_block_is_zeroed() {
    let v = zero_block(17);
    assert_eq!(v.len(), 17);
    assert!(v.iter().all(|&b| b == 0));
}
