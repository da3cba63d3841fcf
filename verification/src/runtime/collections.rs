//! Native helpers for allocator-backed hash collections.

use std::hash::{BuildHasher, RandomState};
use vstd::arithmetic::div_mod::{lemma_mod_multiples_vanish, lemma_mul_mod_noop_left};
use vstd::arithmetic::mul::lemma_mul_is_associative;
use vstd::prelude::*;

verus! {

pub const CONTROL_GROUP_MASKS_SYMBOL: &'static str = "control_group_masks";

pub const HASH_BYTES_SYMBOL: &'static str = "hash_bytes";

pub const HASH_SEED_SYMBOL: &'static str = "hash_seed";

/// The number of control bytes that are compared at once.
pub const GROUP_WIDTH: usize = 16;

/// The control byte of a slot that never held an entry.
pub const EMPTY: u8 = 0x80;

/// The control byte of a slot whose entry was removed.
pub const DELETED: u8 = 0xfe;

/// The hash of one word under a seed.
pub open spec fn mixed(seed: u64, word: u64) -> u64 {
    let first = seed ^ word.wrapping_add(0x9e37_79b9_7f4a_7c15);
    let second = (first ^ (first >> 30)).wrapping_mul(0xbf58_476d_1ce4_e5b9);
    let third = (second ^ (second >> 27)).wrapping_mul(0x94d0_49bb_1331_11eb);
    third ^ (third >> 31)
}

/// The byte at an index, or zero behind the end.
pub open spec fn byte_or_zero(bytes: Seq<u8>, index: int) -> u64 {
    if 0 <= index < bytes.len() {
        bytes[index] as u64
    } else {
        0
    }
}

/// The little-endian word that starts at an index, padded with zeros behind
/// the end.
pub open spec fn padded_word(bytes: Seq<u8>, at: int) -> u64 {
    byte_or_zero(bytes, at) | (byte_or_zero(bytes, at + 1) << 8) | (byte_or_zero(bytes, at + 2)
        << 16) | (byte_or_zero(bytes, at + 3) << 24) | (byte_or_zero(bytes, at + 4) << 32) | (
    byte_or_zero(bytes, at + 5) << 40) | (byte_or_zero(bytes, at + 6) << 48) | (byte_or_zero(
        bytes,
        at + 7,
    ) << 56)
}

/// The hash after the words from an index on have been mixed in.
pub open spec fn mixed_from(hash: u64, bytes: Seq<u8>, at: int) -> u64
    decreases (if at < bytes.len() {
        bytes.len() - at
    } else {
        0
    }),
{
    if at >= bytes.len() {
        hash
    } else {
        mixed_from(mixed(hash, padded_word(bytes, at)), bytes, at + 8)
    }
}

/// The hash of a byte sequence: its length first, then its words.
pub open spec fn bytes_hash(bytes: Seq<u8>, seed: u64) -> u64 {
    mixed_from(mixed(seed, bytes.len() as u64), bytes, 0)
}

/// Whether a capacity is a power of two.
pub open spec fn power_of_two(capacity: usize) -> bool {
    capacity != 0 && capacity & ((capacity - 1) as usize) == 0
}

/// The control byte that a wrapping group holds in one of its lanes.
pub open spec fn group_lane(controls: Seq<u8>, start: int, lane: int) -> u8 {
    controls[(start + lane) % (controls.len() as int)]
}

/// Whether a lane's bit is set in a mask.
pub open spec fn lane_bit(mask: u16, lane: u16) -> bool {
    (mask >> lane) & 1 == 1
}

/// Whether a bit is set in the packed masks.
pub open spec fn packed_bit(masks: u64, bit: u64) -> bool {
    (masks >> bit) & 1 == 1
}

/// Whether packed masks report the state of one lane of a wrapping group.
pub open spec fn reports_lane(
    masks: u64,
    controls: Seq<u8>,
    start: int,
    fingerprint: u8,
    lane: u16,
) -> bool {
    let control = group_lane(controls, start, lane as int);
    &&& packed_bit(masks, lane as u64) == (control == fingerprint)
    &&& packed_bit(masks, (lane + 16) as u64) == (control == EMPTY)
    &&& packed_bit(masks, (lane + 32) as u64) == (control == DELETED)
}

proof fn lemma_odd_product_is_injective(left: u64, right: u64, factor: int, inverse: int, turns: int)
    requires
        factor * inverse == turns * 0x1_0000_0000_0000_0000 + 1,
        (left * factor) % 0x1_0000_0000_0000_0000 == (right * factor) % 0x1_0000_0000_0000_0000,
    ensures
        left == right,
{
    lemma_undone_product(left, factor, inverse, turns);
    lemma_undone_product(right, factor, inverse, turns);
}

proof fn lemma_undone_product(value: u64, factor: int, inverse: int, turns: int)
    requires
        factor * inverse == turns * 0x1_0000_0000_0000_0000 + 1,
    ensures
        (((value * factor) % 0x1_0000_0000_0000_0000) * inverse) % 0x1_0000_0000_0000_0000
            == value as int,
{
    let modulus = 0x1_0000_0000_0000_0000int;
    let value = value as int;
    lemma_mul_mod_noop_left(value * factor, inverse, modulus);
    lemma_mul_is_associative(value, factor, inverse);
    assert(value * (turns * modulus + 1) == modulus * (value * turns) + value) by (nonlinear_arith);
    lemma_mod_multiples_vanish(value * turns, value, modulus);
    assert(value % modulus == value) by (nonlinear_arith)
        requires
            0 <= value < modulus,
    ;
}

/// Under one seed, distinct words have distinct hashes.
pub proof fn mixed_words_never_collide(seed: u64, left: u64, right: u64)
    requires
        mixed(seed, left) == mixed(seed, right),
    ensures
        left == right,
{
    let l0 = left.wrapping_add(0x9e37_79b9_7f4a_7c15);
    let r0 = right.wrapping_add(0x9e37_79b9_7f4a_7c15);
    lemma_mixed_inputs_agree(seed ^ l0, seed ^ r0);
    assert(seed ^ l0 == seed ^ r0 ==> l0 == r0) by (bit_vector);
}

/// For one word, distinct seeds give distinct hashes.
pub proof fn mixed_seeds_never_collide(word: u64, left: u64, right: u64)
    requires
        mixed(left, word) == mixed(right, word),
    ensures
        left == right,
{
    let w = word.wrapping_add(0x9e37_79b9_7f4a_7c15);
    lemma_mixed_inputs_agree(left ^ w, right ^ w);
    assert(left ^ w == right ^ w ==> left == right) by (bit_vector);
}

proof fn lemma_mixed_inputs_agree(left: u64, right: u64)
    requires
        ({
            let l2 = (left ^ (left >> 30)).wrapping_mul(0xbf58_476d_1ce4_e5b9);
            let r2 = (right ^ (right >> 30)).wrapping_mul(0xbf58_476d_1ce4_e5b9);
            let l3 = (l2 ^ (l2 >> 27)).wrapping_mul(0x94d0_49bb_1331_11eb);
            let r3 = (r2 ^ (r2 >> 27)).wrapping_mul(0x94d0_49bb_1331_11eb);
            l3 ^ (l3 >> 31) == r3 ^ (r3 >> 31)
        }),
    ensures
        left == right,
{
    let l1 = left ^ (left >> 30);
    let r1 = right ^ (right >> 30);
    let l2 = l1.wrapping_mul(0xbf58_476d_1ce4_e5b9);
    let r2 = r1.wrapping_mul(0xbf58_476d_1ce4_e5b9);
    let l2x = l2 ^ (l2 >> 27);
    let r2x = r2 ^ (r2 >> 27);
    let l3 = l2x.wrapping_mul(0x94d0_49bb_1331_11eb);
    let r3 = r2x.wrapping_mul(0x94d0_49bb_1331_11eb);
    assert(l3 ^ (l3 >> 31) == r3 ^ (r3 >> 31) ==> l3 == r3) by (bit_vector);
    lemma_odd_product_is_injective(
        l2x,
        r2x,
        0x94d0_49bb_1331_11ebint,
        0x319642b2d24d8ec3int,
        0x1cd336eda85f1453int,
    );
    assert(l2 ^ (l2 >> 27) == r2 ^ (r2 >> 27) ==> l2 == r2) by (bit_vector);
    lemma_odd_product_is_injective(
        l1,
        r1,
        0xbf58_476d_1ce4_e5b9int,
        0x96de1b173f119089int,
        0x70c3bca78f27f46cint,
    );
    assert(left ^ (left >> 30) == right ^ (right >> 30) ==> left == right) by (bit_vector);
}

/// The standard library's `BuildHasher::hash_one` on its randomly keyed
/// hasher. Nothing is said of the result: it differs from process to process.
#[verifier::external_body]
fn keyed_hash(state: &RandomState, word: u64) -> u64 {
    state.hash_one(word)
}

/// Takes the number of the next collection, which is the word that its seed is
/// made from, and moves the sequence on.
pub fn next_collection(sequence: &mut u64) -> (number: u64)
    ensures
        number == *old(sequence),
        *final(sequence) == old(sequence).wrapping_add(1),
{
    let number: u64 = *sequence;
    *sequence = number.wrapping_add(1);
    number
}

/// Creates a process-randomized seed for one hash collection from the number of
/// the collection, and moves the sequence on to the next collection. Nothing is
/// said of the seed: it differs from process to process.
pub fn hash_seed(state: &RandomState, sequence: &mut u64) -> (seed: u64)
    ensures
        *final(sequence) == old(sequence).wrapping_add(1),
{
    keyed_hash(state, next_collection(sequence))
}

/// Mixes one word into a hash.
pub fn mix_word(seed: u64, word: u64) -> (hash: u64)
    ensures
        hash == mixed(seed, word),
{
    let mut mixed: u64 = seed ^ word.wrapping_add(0x9e37_79b9_7f4a_7c15);
    mixed = mixed ^ (mixed >> 30);
    mixed = mixed.wrapping_mul(0xbf58_476d_1ce4_e5b9);
    mixed = mixed ^ (mixed >> 27);
    mixed = mixed.wrapping_mul(0x94d0_49bb_1331_11eb);
    mixed ^ (mixed >> 31)
}

fn byte_at(bytes: &[u8], at: usize, offset: usize) -> (byte: u64)
    requires
        at < bytes@.len(),
    ensures
        byte == byte_or_zero(bytes@, at + offset),
{
    if offset < bytes.len() - at {
        bytes[at + offset] as u64
    } else {
        0
    }
}

/// Hashes a bounded byte sequence using the same structural mixer as generated
/// code.
///
/// `None` stands for a region that claims bytes but has no address.
pub fn hash_bytes(data: Option<&[u8]>, seed: u64) -> (hash: u64)
    ensures
        hash == (match data {
            Some(bytes) => bytes_hash(bytes@, seed),
            None => mixed(seed, u64::MAX),
        }),
{
    let bytes = match data {
        Some(bytes) => bytes,
        None => {
            return mix_word(seed, u64::MAX);
        },
    };
    let mut hash: u64 = mix_word(seed, bytes.len() as u64);
    let mut at: usize = 0;
    let mut more: bool = bytes.len() > 0;
    while more
        invariant
            more ==> at < bytes@.len(),
            more ==> bytes_hash(bytes@, seed) == mixed_from(hash, bytes@, at as int),
            !more ==> bytes_hash(bytes@, seed) == hash,
        decreases (if more {
            bytes@.len() - at
        } else {
            0
        }),
    {
        let word: u64 = byte_at(bytes, at, 0) | (byte_at(bytes, at, 1) << 8) | (byte_at(
            bytes,
            at,
            2,
        ) << 16) | (byte_at(bytes, at, 3) << 24) | (byte_at(bytes, at, 4) << 32) | (byte_at(
            bytes,
            at,
            5,
        ) << 40) | (byte_at(bytes, at, 6) << 48) | (byte_at(bytes, at, 7) << 56);
        hash = mix_word(hash, word);
        if bytes.len() - at > 8 {
            at = at + 8;
        } else {
            proof {
                reveal_with_fuel(mixed_from, 2);
            }
            more = false;
        }
    }
    hash
}

fn is_power_of_two(capacity: usize) -> (answer: bool)
    ensures
        answer == power_of_two(capacity),
{
    capacity != 0 && capacity & (capacity - 1) == 0
}

proof fn lemma_set_lane(mask: u16, set: u16, lane: u16)
    requires
        set < 16,
        lane < 16,
    ensures
        lane_bit(mask | (1u16 << set), lane) == (lane == set || lane_bit(mask, lane)),
        lane_bit(mask | 0, lane) == lane_bit(mask, lane),
        !lane_bit(0, lane),
{
    assert((((mask | (1u16 << set)) >> lane) & 1 == 1) == (lane == set || (mask >> lane) & 1 == 1))
        by (bit_vector)
        requires
            set < 16,
            lane < 16,
    ;
    assert(((mask | 0u16) >> lane) & 1 == (mask >> lane) & 1) by (bit_vector);
    assert((0u16 >> lane) & 1 == 0) by (bit_vector)
        requires
            lane < 16,
    ;
}

/// Compares the control bytes of one group with a fingerprint and with the
/// two control states. Bit `lane` of each mask speaks of byte `lane`.
pub fn group_masks(group: &[u8], fingerprint: u8) -> (masks: (u16, u16, u16))
    requires
        group@.len() == GROUP_WIDTH,
    ensures
        forall|lane: u16|
            lane < 16 ==> {
                &&& #[trigger] lane_bit(masks.0, lane) == (group@[lane as int] == fingerprint)
                &&& lane_bit(masks.1, lane) == (group@[lane as int] == EMPTY)
                &&& lane_bit(masks.2, lane) == (group@[lane as int] == DELETED)
            },
{
    let mut matches: u16 = 0;
    let mut empty: u16 = 0;
    let mut deleted: u16 = 0;
    let mut index: usize = 0;
    proof {
        assert forall|lane: u16| lane < 16 implies !#[trigger] lane_bit(0, lane) by {
            lemma_set_lane(0, 0, lane);
        }
    }
    while index < GROUP_WIDTH
        invariant
            index <= 16,
            group@.len() == GROUP_WIDTH,
            forall|lane: u16|
                lane < 16 ==> {
                    &&& #[trigger] lane_bit(matches, lane) == (lane < index && group@[lane as int]
                        == fingerprint)
                    &&& lane_bit(empty, lane) == (lane < index && group@[lane as int] == EMPTY)
                    &&& lane_bit(deleted, lane) == (lane < index && group@[lane as int] == DELETED)
                },
        decreases 16 - index,
    {
        let control: u8 = group[index];
        let bit: u16 = 1u16 << (index as u16);
        let ghost before = (matches, empty, deleted);
        matches = matches | (if control == fingerprint {
            bit
        } else {
            0
        });
        empty = empty | (if control == EMPTY {
            bit
        } else {
            0
        });
        deleted = deleted | (if control == DELETED {
            bit
        } else {
            0
        });
        proof {
            assert forall|lane: u16| lane < 16 implies {
                &&& #[trigger] lane_bit(matches, lane) == (lane < index + 1 && group@[lane as int]
                    == fingerprint)
                &&& lane_bit(empty, lane) == (lane < index + 1 && group@[lane as int] == EMPTY)
                &&& lane_bit(deleted, lane) == (lane < index + 1 && group@[lane as int] == DELETED)
            } by {
                assert(lane_bit(before.0, lane) == (lane < index && group@[lane as int]
                    == fingerprint));
                lemma_set_lane(before.0, index as u16, lane);
                lemma_set_lane(before.1, index as u16, lane);
                lemma_set_lane(before.2, index as u16, lane);
            }
        }
        index = index + 1;
    }
    (matches, empty, deleted)
}

proof fn lemma_packed(matches: u16, empty: u16, deleted: u16, lane: u16)
    requires
        lane < 16,
    ensures
        ({
            let packed = (matches as u64) | ((empty as u64) << 16) | ((deleted as u64) << 32);
            &&& packed_bit(packed, lane as u64) == lane_bit(matches, lane)
            &&& packed_bit(packed, (lane + 16) as u64) == lane_bit(empty, lane)
            &&& packed_bit(packed, (lane + 32) as u64) == lane_bit(deleted, lane)
            &&& packed < 0x1_0000_0000_0000
        }),
{
    let packed = (matches as u64) | ((empty as u64) << 16) | ((deleted as u64) << 32);
    let (a, b, c) = (lane as u64, (lane + 16) as u64, (lane + 32) as u64);
    assert(((packed >> a) & 1 == 1) == ((matches >> lane) & 1 == 1) && ((packed >> b) & 1 == 1) == (
    (empty >> lane) & 1 == 1) && ((packed >> c) & 1 == 1) == ((deleted >> lane) & 1 == 1) && packed
        < 0x1_0000_0000_0000) by (bit_vector)
        requires
            lane < 16,
            a == lane as u64,
            b == lane + 16,
            c == lane + 32,
            packed == (matches as u64) | ((empty as u64) << 16) | ((deleted as u64) << 32),
    ;
}

/// Compares one wrapping group of control bytes with a fingerprint.
///
/// Bits `0..16` report matching fingerprints, bits `16..32` report empty
/// controls, and bits `32..48` report deleted controls. The masks are empty
/// unless the number of control bytes is a power of two no smaller than 16
/// and the group starts at one of them. `None` stands for control bytes
/// without an address.
pub fn control_group_masks(controls: Option<&[u8]>, start: usize, fingerprint: u8) -> (masks: u64)
    ensures
        match controls {
            Some(controls) if controls@.len() >= GROUP_WIDTH && power_of_two(
                controls@.len() as usize,
            ) && start < controls@.len() => {
                &&& masks < 0x1_0000_0000_0000
                &&& forall|lane: u16|
                    lane < 16 ==> #[trigger] reports_lane(
                        masks,
                        controls@,
                        start as int,
                        fingerprint,
                        lane,
                    )
            },
            _ => masks == 0,
        },
{
    let controls = match controls {
        Some(controls) => controls,
        None => {
            return 0;
        },
    };
    let capacity: usize = controls.len();
    if capacity < GROUP_WIDTH || !is_power_of_two(capacity) || start >= capacity {
        return 0;
    }
    let mut group: [u8; 16] = [0u8; 16];
    let mut offset: usize = 0;
    while offset < GROUP_WIDTH
        invariant
            offset <= 16,
            16 <= capacity,
            capacity == controls@.len(),
            start < capacity,
            forall|lane: int|
                0 <= lane < offset ==> #[trigger] group@[lane] == group_lane(
                    controls@,
                    start as int,
                    lane,
                ),
        decreases 16 - offset,
    {
        let before_wrap: usize = capacity - start;
        let index: usize = if offset < before_wrap {
            start + offset
        } else {
            offset - before_wrap
        };
        proof {
            assert((start + offset) % (capacity as int) == index) by (nonlinear_arith)
                requires
                    0 <= start < capacity,
                    0 <= offset < 16,
                    16 <= capacity,
                    offset < capacity - start ==> index == start + offset,
                    offset >= capacity - start ==> index == offset - (capacity - start),
            ;
        }
        group[offset] = controls[index];
        offset = offset + 1;
    }
    let (matches, empty, deleted) = group_masks(&group, fingerprint);
    let packed: u64 = (matches as u64) | ((empty as u64) << 16) | ((deleted as u64) << 32);
    proof {
        lemma_packed(matches, empty, deleted, 0);
        assert forall|lane: u16| lane < 16 implies #[trigger] reports_lane(
            packed,
            controls@,
            start as int,
            fingerprint,
            lane,
        ) by {
            lemma_packed(matches, empty, deleted, lane);
            assert(lane_bit(matches, lane) == (group@[lane as int] == fingerprint));
        }
    }
    packed
}

} // verus!
