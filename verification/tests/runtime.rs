//! The helpers that compiled programs link against.

use reimer::runtime::checksum::{
    build_crc32_tables, checksum_crc32, checksum_crc32_with, low_byte_index,
};
use reimer::runtime::collections::{
    control_group_masks, group_masks, hash_bytes, hash_seed, mix_word, next_collection, DELETED,
    EMPTY,
};
use std::hash::RandomState;

fn packed_lane_mask(masks: u64, shift: u32) -> u16 {
    let selected = (masks >> shift) & u64::from(u16::MAX);
    u16::try_from(selected).expect("the packed lane mask is explicitly limited to sixteen bits")
}

#[test]
fn crc32_should_match_the_standard_check_value() {
    let bytes = b"123456789";
    let checksum = checksum_crc32(Some(bytes));
    assert_eq!(checksum, 0xcbf4_3926);
}

#[test]
fn crc32_of_a_region_without_an_address_has_every_bit_set() {
    assert_eq!(checksum_crc32(None), u32::MAX);
    assert_eq!(checksum_crc32(Some(b"")), 0);
}

#[test]
fn crc32_reads_whole_words_and_single_bytes_alike() {
    let tables = build_crc32_tables();
    for length in 0..40_usize {
        let bytes: Vec<u8> = (0..length).map(|index| (index * 37 + 11) as u8).collect();
        let mut register = u32::MAX;
        for byte in &bytes {
            let index = low_byte_index(register ^ u32::from(*byte));
            register = (register >> 8) ^ tables[0][index];
        }
        assert_eq!(checksum_crc32_with(&tables, Some(&bytes)), !register);
    }
}

#[test]
fn crc32_resumes_where_it_stopped() {
    let tables = build_crc32_tables();
    let mut register = !checksum_crc32(Some(b"1234"));
    for byte in b"56789" {
        register = (register >> 8) ^ tables[0][low_byte_index(register ^ u32::from(*byte))];
    }
    assert_eq!(!register, 0xcbf4_3926);
}

#[test]
fn crc32_tables_hold_the_published_values() {
    let tables = build_crc32_tables();
    assert_eq!(tables[0][0], 0);
    assert_eq!(tables[0][1], 0x7707_3096);
    assert_eq!(tables[0][255], 0x2d02_ef8d);
    assert_eq!(tables[1][1], 0x191b_3141);
}

#[test]
fn low_byte_is_the_least_significant_one() {
    assert_eq!(low_byte_index(0x1234_5678), 0x78);
    assert_eq!(low_byte_index(0xffff_ff00), 0);
}

#[test]
fn hash_seed_should_change_between_collections() {
    let state = RandomState::new();
    let mut sequence = 0;
    let first = hash_seed(&state, &mut sequence);
    let second = hash_seed(&state, &mut sequence);
    assert_ne!(first, second);
    assert_eq!(sequence, 2);
}

#[test]
fn collections_are_counted_from_the_sequence_on() {
    let mut sequence = 7;
    assert_eq!(next_collection(&mut sequence), 7);
    assert_eq!(next_collection(&mut sequence), 8);
    assert_eq!(sequence, 9);
    let mut last = u64::MAX;
    assert_eq!(next_collection(&mut last), u64::MAX);
    assert_eq!(last, 0);
}

#[test]
fn hash_seed_sequence_wraps_around() {
    let state = RandomState::new();
    let mut sequence = u64::MAX;
    assert_ne!(hash_seed(&state, &mut sequence), u64::MAX);
    assert_eq!(sequence, 0);
}

#[test]
fn byte_hash_should_be_repeatable_for_one_seed() {
    let bytes = b"stable hash input";

    let left = hash_bytes(Some(bytes), 42);
    let right = hash_bytes(Some(bytes), 42);

    assert_eq!(left, right);
}

#[test]
fn byte_hash_mixes_the_length_and_each_word() {
    let bytes = [1, 0, 0, 0, 0, 0, 0, 0, 2, 3];
    let expected = mix_word(mix_word(mix_word(7, 10), 1), 0x0302);
    assert_eq!(hash_bytes(Some(&bytes), 7), expected);
    assert_eq!(hash_bytes(Some(&[]), 7), mix_word(7, 0));
    assert_eq!(hash_bytes(None, 7), mix_word(7, u64::MAX));
}

#[test]
fn mixing_gives_the_published_sequence() {
    assert_eq!(mix_word(0, 0), 0xe220_a839_7b1d_cdaf);
    assert_ne!(mix_word(0, 1), mix_word(0, 2));
    assert_ne!(mix_word(1, 0), mix_word(2, 0));
}

#[test]
fn control_group_should_report_wrapping_matches_and_states() {
    let mut controls = [EMPTY; 32];
    controls[30] = 7;
    controls[31] = DELETED;
    controls[0] = 7;

    let masks = control_group_masks(Some(&controls), 30, 7);

    assert_eq!(packed_lane_mask(masks, 0), 0b0101);
    assert_eq!(packed_lane_mask(masks, 16), 0xfff8);
    assert_eq!(packed_lane_mask(masks, 32), 0b0010);
}

#[test]
fn control_group_is_empty_where_it_cannot_be_read() {
    let controls = [EMPTY; 48];
    assert_eq!(control_group_masks(None, 0, 7), 0);
    assert_eq!(control_group_masks(Some(&controls[..8]), 0, 7), 0);
    assert_eq!(control_group_masks(Some(&controls), 0, 7), 0);
    assert_eq!(control_group_masks(Some(&controls[..32]), 32, 7), 0);
}

#[test]
fn group_masks_have_one_bit_for_each_lane() {
    let mut group = [0_u8; 16];
    group[0] = 9;
    group[4] = EMPTY;
    group[15] = DELETED;
    assert_eq!(group_masks(&group, 9), (1, 1 << 4, 1 << 15));
}
