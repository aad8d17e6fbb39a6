use rust_optimizer::checksum::pack_words;
use rust_optimizer::checksum::xor64_lanes;
use rust_optimizer::checksum::xor_reduce;

#[test]
fn pack_single_word_little_endian() {
    let bytes = [1u8, 2, 3, 4, 5, 6, 7, 8];
    let ws = pack_words(&bytes);
    assert_eq!(ws, vec![0x0807060504030201u64]);
}

#[test]
fn pack_pads_final_partial_word_with_zeros() {
    let bytes = [0xFFu8];
    let ws = pack_words(&bytes);
    assert_eq!(ws, vec![0x00000000000000FFu64]);
    let bytes2 = [1u8, 2, 3, 4, 5, 6, 7, 8, 9];
    let ws2 = pack_words(&bytes2);
    assert_eq!(ws2, vec![0x0807060504030201u64, 9u64]);
}

#[test]
fn pack_empty_is_empty() {
    let ws = pack_words(&[]);
    assert!(ws.is_empty());
}

#[test]
fn checksum_of_single_word() {
    let bytes = [1u8, 2, 3, 4, 5, 6, 7, 8];
    assert_eq!(xor64_lanes(&bytes, 64), 0x0807060504030201u64);
}

#[test]
fn checksum_of_empty_input_is_zero() {
    assert_eq!(xor64_lanes(&[], 3), 0);
}

#[test]
fn checksum_of_equal_blocks_cancels() {
    let mut bytes = vec![0u8; 16];
    for i in 0..8 {
        bytes[i] = i as u8 + 1;
        bytes[i + 8] = i as u8 + 1;
    }
    assert_eq!(xor64_lanes(&bytes, 3), 0);
}

#[test]
fn checksum_invariant_over_lane_count() {
    let mut bytes = Vec::new();
    for i in 0..1000u64 {
        bytes.push((i * 37 % 251) as u8);
    }
    let baseline = xor64_lanes(&bytes, 1);
    for lanes in [2usize, 3, 7, 64, 125, 4096, 100000] {
        assert_eq!(xor64_lanes(&bytes, lanes), baseline);
    }
    assert_eq!(baseline, xor_reduce(&pack_words(&bytes)));
}
