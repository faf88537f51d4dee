use dcgm_safe::bitmask::decode_gpu_bitmask;
use dcgm_safe::bitmask::encode_gpu_bitmask;

#[test]
fn encode_empty_set_is_zero_mask() {
    let ids: Vec<u32> = vec![];
    assert_eq!(encode_gpu_bitmask(&ids).unwrap(), 0u64);
}

#[test]
fn encode_sets_one_bit_per_id() {
    let ids: Vec<u32> = vec![0, 2, 5];
    assert_eq!(encode_gpu_bitmask(&ids).unwrap(), 0b100101u64);
}

#[test]
fn encode_largest_id_sets_top_bit() {
    let ids: Vec<u32> = vec![63];
    assert_eq!(encode_gpu_bitmask(&ids).unwrap(), 1u64 << 63);
}

#[test]
fn encode_duplicate_ids_set_one_bit() {
    let ids: Vec<u32> = vec![7, 7, 7];
    assert_eq!(encode_gpu_bitmask(&ids).unwrap(), 1u64 << 7);
}

#[test]
fn encode_rejects_id_over_63() {
    let ids: Vec<u32> = vec![1, 64];
    let err = encode_gpu_bitmask(&ids).unwrap_err();
    assert_eq!(err.message, "gpu value out of bounds");
}

#[test]
fn decode_zero_mask_is_empty() {
    let ids = decode_gpu_bitmask(0);
    assert!(ids.is_empty());
}

#[test]
fn decode_scans_bits_low_to_high() {
    let ids = decode_gpu_bitmask(0b1010010);
    assert_eq!(ids, vec![1, 4, 6]);
}

#[test]
fn decode_all_bits_set_for_four_devices_yields_zero_to_three() {
    let mask = (1u64 << 4) - 1;
    let ids = decode_gpu_bitmask(mask);
    assert_eq!(ids, vec![0, 1, 2, 3]);
}

#[test]
fn decode_full_mask_yields_all_sixty_four_ids() {
    let ids = decode_gpu_bitmask(u64::MAX);
    assert_eq!(ids.len(), 64);
    for (i, id) in ids.iter().enumerate() {
        assert_eq!(*id as usize, i);
    }
}

#[test]
fn bitmask_round_trip_preserves_membership() {
    let ids: Vec<u32> = vec![3, 17, 42, 63, 0];
    let mask = encode_gpu_bitmask(&ids).unwrap();
    let decoded = decode_gpu_bitmask(mask);
    assert_eq!(decoded, vec![0, 3, 17, 42, 63]);
}
