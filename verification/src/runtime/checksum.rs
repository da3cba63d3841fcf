//! Checksums over caller-owned byte regions.

use vstd::prelude::*;

verus! {

/// ABI symbol for CRC-32/ISO-HDLC.
pub const CHECKSUM_CRC32_SYMBOL: &'static str = "checksum_crc32";

/// The reversed generator polynomial of CRC-32/ISO-HDLC.
pub const POLYNOMIAL: u32 = 0xedb8_8320;

/// One division step: the register shifts right by one bit and, when a set bit
/// falls out, the generator polynomial is subtracted.
pub open spec fn divide_bit(register: u32) -> u32 {
    if register & 1 == 0 {
        register >> 1
    } else {
        (register >> 1) ^ 0xedb8_8320
    }
}

/// `steps` division steps.
pub open spec fn divide(register: u32, steps: nat) -> u32
    decreases steps,
{
    if steps == 0 {
        register
    } else {
        divide(divide_bit(register), (steps - 1) as nat)
    }
}

/// The register after the bytes have been fed into it one by one, least
/// significant bit first.
pub open spec fn feed(register: u32, bytes: Seq<u8>) -> u32
    decreases bytes.len(),
{
    if bytes.len() == 0 {
        register
    } else {
        divide(feed(register, bytes.drop_last()) ^ (bytes.last() as u32), 8)
    }
}

/// CRC-32/ISO-HDLC: the register starts at all ones and is complemented last.
pub open spec fn crc32(bytes: Seq<u8>) -> u32 {
    !feed(0xffff_ffff, bytes)
}

/// The little-endian word in four bytes.
pub open spec fn little_endian_word(b0: u8, b1: u8, b2: u8, b3: u8) -> u32 {
    (b0 as u32) | ((b1 as u32) << 8) | ((b2 as u32) << 16) | ((b3 as u32) << 24)
}

/// Table `k` maps a byte to the register that it leaves after `8 * (k + 1)`
/// division steps.
pub open spec fn are_crc32_tables(tables: [[u32; 256]; 8]) -> bool {
    forall|k: int, index: int|
        0 <= k < 8 && 0 <= index < 256 ==> #[trigger] tables[k][index] == divide(
            index as u32,
            (8 * (k + 1)) as nat,
        )
}

proof fn lemma_divide_bit_xor(left: u32, right: u32)
    ensures
        divide_bit(left ^ right) == divide_bit(left) ^ divide_bit(right),
{
    assert((if (left ^ right) & 1 == 0 {
        (left ^ right) >> 1
    } else {
        ((left ^ right) >> 1) ^ 0xedb8_8320u32
    }) == ((if left & 1 == 0 {
        left >> 1
    } else {
        (left >> 1) ^ 0xedb8_8320u32
    }) ^ (if right & 1 == 0 {
        right >> 1
    } else {
        (right >> 1) ^ 0xedb8_8320u32
    }))) by (bit_vector);
}

/// Division is linear over exclusive or.
pub proof fn divide_is_linear(left: u32, right: u32, steps: nat)
    ensures
        divide(left ^ right, steps) == divide(left, steps) ^ divide(right, steps),
    decreases steps,
{
    if steps > 0 {
        lemma_divide_bit_xor(left, right);
        divide_is_linear(divide_bit(left), divide_bit(right), (steps - 1) as nat);
    }
}

/// Division steps add up.
pub proof fn divide_composes(register: u32, first: nat, second: nat)
    ensures
        divide(divide(register, first), second) == divide(register, first + second),
    decreases first,
{
    if first > 0 {
        divide_composes(divide_bit(register), (first - 1) as nat, second);
        assert((first + second - 1) as nat == (first - 1) as nat + second);
    }
}

/// A register whose low byte is clear is only shifted by eight steps.
proof fn lemma_divide_clear_byte(register: u32)
    requires
        register & 0xff == 0,
    ensures
        divide(register, 8) == register >> 8,
{
    reveal_with_fuel(divide, 9);
    let r1 = register >> 1;
    let r2 = r1 >> 1;
    let r3 = r2 >> 1;
    let r4 = r3 >> 1;
    let r5 = r4 >> 1;
    let r6 = r5 >> 1;
    let r7 = r6 >> 1;
    assert(register & 1 == 0 && r1 & 1 == 0 && r2 & 1 == 0 && r3 & 1 == 0 && r4 & 1 == 0 && r5 & 1
        == 0 && r6 & 1 == 0 && r7 & 1 == 0 && r7 >> 1 == register >> 8) by (bit_vector)
        requires
            register & 0xff == 0,
            r1 == register >> 1,
            r2 == r1 >> 1,
            r3 == r2 >> 1,
            r4 == r3 >> 1,
            r5 == r4 >> 1,
            r6 == r5 >> 1,
            r7 == r6 >> 1,
    ;
}

/// Eight division steps shift the register by a byte and add the remainder of
/// the byte that fell out.
proof fn lemma_divide_byte(register: u32)
    ensures
        divide(register, 8) == (register >> 8) ^ divide(register & 0xff, 8),
{
    let high = register & 0xffff_ff00;
    let low = register & 0xff;
    assert(register == high ^ low && high & 0xff == 0 && high >> 8 == register >> 8)
        by (bit_vector)
        requires
            high == register & 0xffff_ff00,
            low == register & 0xff,
    ;
    divide_is_linear(high, low, 8);
    lemma_divide_clear_byte(high);
}

/// A word that starts above the low byte meets the polynomial eight steps
/// later than the same word without that distance.
proof fn lemma_divide_delayed(word: u32, steps: nat)
    requires
        word <= 0x00ff_ffff,
    ensures
        divide(word << 8, steps + 8) == divide(word, steps),
{
    let shifted = word << 8;
    assert(shifted & 0xff == 0 && shifted >> 8 == word) by (bit_vector)
        requires
            word <= 0x00ff_ffff,
            shifted == word << 8,
    ;
    lemma_divide_clear_byte(shifted);
    divide_composes(shifted, 8, steps);
}

/// Feeding four bytes is adding their little-endian word and dividing once by
/// all its bits.
proof fn lemma_feed_word(register: u32, b0: u8, b1: u8, b2: u8, b3: u8)
    ensures
        divide(
            divide(divide(divide(register ^ (b0 as u32), 8) ^ (b1 as u32), 8) ^ (b2 as u32), 8) ^ (
            b3 as u32),
            8,
        ) == divide(register ^ little_endian_word(b0, b1, b2, b3), 32),
{
    let r0 = register ^ (b0 as u32);
    lemma_absorb(r0, b1, 8);
    let r1 = r0 ^ ((b1 as u32) << 8);
    lemma_absorb(r1, b2, 16);
    let r2 = r1 ^ ((b2 as u32) << 16);
    lemma_absorb(r2, b3, 24);
    let r3 = r2 ^ ((b3 as u32) << 24);
    divide_composes(r0, 8, 0);
    divide_composes(r1, 8, 8);
    divide_composes(r2, 16, 8);
    divide_composes(r3, 24, 8);
    assert(r3 == register ^ ((b0 as u32) | ((b1 as u32) << 8) | ((b2 as u32) << 16) | ((
    b3 as u32) << 24))) by (bit_vector)
        requires
            r0 == register ^ (b0 as u32),
            r1 == r0 ^ ((b1 as u32) << 8),
            r2 == r1 ^ ((b2 as u32) << 16),
            r3 == r2 ^ ((b3 as u32) << 24),
    ;
}

/// A byte added after `distance` steps might as well have been added above the
/// bits that those steps consume.
proof fn lemma_absorb(register: u32, byte: u8, distance: u32)
    requires
        distance == 8 || distance == 16 || distance == 24,
    ensures
        divide(register, distance as nat) ^ (byte as u32) == divide(
            register ^ ((byte as u32) << distance),
            distance as nat,
        ),
{
    let word = byte as u32;
    divide_is_linear(register, word << distance, distance as nat);
    assert(divide(word << distance, distance as nat) == word) by {
        assert(word <= 0xff) by (bit_vector)
            requires
                word == byte as u32,
        ;
        let w1 = word << 8;
        let w2 = word << 16;
        assert(w1 <= 0x00ff_ffff && w2 <= 0x00ff_ffff && w1 << 8 == w2 && w2 << 8 == word << 24)
            by (bit_vector)
            requires
                word <= 0xff,
                w1 == word << 8,
                w2 == word << 16,
        ;
        lemma_divide_delayed(word, 0);
        lemma_divide_delayed(w1, 8);
        lemma_divide_delayed(w2, 16);
    }
}

/// Dividing a word is dividing its four bytes apart, each with the distance it
/// has from the low end taken off.
proof fn lemma_divide_word(word: u32, steps: nat)
    requires
        steps >= 24,
    ensures
        divide(word, steps) == divide(word & 0xff, steps) ^ divide(
            (word >> 8) & 0xff,
            (steps - 8) as nat,
        ) ^ divide((word >> 16) & 0xff, (steps - 16) as nat) ^ divide(
            (word >> 24) & 0xff,
            (steps - 24) as nat,
        ),
{
    let w0 = word & 0xff;
    let w1 = (word >> 8) & 0xff;
    let w2 = (word >> 16) & 0xff;
    let w3 = (word >> 24) & 0xff;
    let s1 = w1 << 8;
    let s2a = w2 << 8;
    let s2 = s2a << 8;
    let s3a = w3 << 8;
    let s3b = s3a << 8;
    let s3 = s3b << 8;
    assert(word == w0 ^ s1 ^ s2 ^ s3 && w1 <= 0xff && w2 <= 0xff && w3 <= 0xff && s2a <= 0xffff
        && s3a <= 0xffff && s3b <= 0x00ff_ffff) by (bit_vector)
        requires
            w0 == word & 0xff,
            w1 == (word >> 8) & 0xff,
            w2 == (word >> 16) & 0xff,
            w3 == (word >> 24) & 0xff,
            s1 == w1 << 8,
            s2a == w2 << 8,
            s2 == s2a << 8,
            s3a == w3 << 8,
            s3b == s3a << 8,
            s3 == s3b << 8,
    ;
    divide_is_linear(w0 ^ s1 ^ s2, s3, steps);
    divide_is_linear(w0 ^ s1, s2, steps);
    divide_is_linear(w0, s1, steps);
    lemma_divide_delayed(w1, (steps - 8) as nat);
    lemma_divide_delayed(s2a, (steps - 8) as nat);
    lemma_divide_delayed(w2, (steps - 16) as nat);
    lemma_divide_delayed(s3b, (steps - 8) as nat);
    lemma_divide_delayed(s3a, (steps - 16) as nat);
    lemma_divide_delayed(w3, (steps - 24) as nat);
}

/// Feeding two pieces after one another is feeding their concatenation.
pub proof fn feed_appends(register: u32, left: Seq<u8>, right: Seq<u8>)
    ensures
        feed(register, left + right) == feed(feed(register, left), right),
    decreases right.len(),
{
    if right.len() == 0 {
        assert(left + right =~= left);
    } else {
        feed_appends(register, left, right.drop_last());
        assert((left + right).drop_last() =~= left + right.drop_last());
        assert((left + right).last() == right.last());
    }
}

/// A checksum can be resumed: complementing the checksum of a prefix gives the
/// register from which the rest is fed.
pub proof fn crc32_resumes(left: Seq<u8>, right: Seq<u8>)
    ensures
        crc32(left + right) == !feed(!crc32(left), right),
{
    feed_appends(0xffff_ffff, left, right);
    let register = feed(0xffff_ffff, left);
    assert(!(!register) == register) by (bit_vector);
}

/// The value of the low byte, as an index.
pub fn low_byte_index(value: u32) -> (index: usize)
    ensures
        index == (value & 0xff) as usize,
        index < 256,
{
    assert(value & 0xff < 256) by (bit_vector);
    (value & 0xff) as usize
}

/// The eight lookup tables that advance the register by up to eight bytes.
pub fn build_crc32_tables() -> (tables: [[u32; 256]; 8])
    ensures
        are_crc32_tables(tables),
{
    let mut tables: [[u32; 256]; 8] = [[0u32; 256]; 8];
    let mut index: usize = 0;
    while index < 256
        invariant
            0 <= index <= 256,
            forall|i: int| 0 <= i < index ==> #[trigger] tables[0][i] == divide(i as u32, 8),
        decreases 256 - index,
    {
        let mut value: u32 = index as u32;
        let mut bit: u32 = 0;
        while bit < 8
            invariant
                0 <= bit <= 8,
                divide(value, (8 - bit) as nat) == divide(index as u32, 8),
            decreases 8 - bit,
        {
            value =
            if value & 1 == 0 {
                value >> 1
            } else {
                (value >> 1) ^ POLYNOMIAL
            };
            bit = bit + 1;
        }
        tables[0][index] = value;
        index = index + 1;
    }
    let mut table: usize = 1;
    while table < 8
        invariant
            1 <= table <= 8,
            forall|k: int, i: int|
                0 <= k < table && 0 <= i < 256 ==> #[trigger] tables[k][i] == divide(
                    i as u32,
                    (8 * (k + 1)) as nat,
                ),
        decreases 8 - table,
    {
        let mut index: usize = 0;
        while index < 256
            invariant
                0 <= index <= 256,
                1 <= table < 8,
                forall|k: int, i: int|
                    0 <= k < table && 0 <= i < 256 ==> #[trigger] tables[k][i] == divide(
                        i as u32,
                        (8 * (k + 1)) as nat,
                    ),
                forall|i: int|
                    0 <= i < index ==> #[trigger] tables[table as int][i] == divide(
                        i as u32,
                        (8 * (table + 1)) as nat,
                    ),
            decreases 256 - index,
        {
            let previous: u32 = tables[table - 1][index];
            let lookup: usize = low_byte_index(previous);
            proof {
                assert(tables[0][lookup as int] == divide(lookup as u32, 8));
                lemma_divide_byte(previous);
                divide_composes(index as u32, (8 * table) as nat, 8);
            }
            let value: u32 = (previous >> 8) ^ tables[0][lookup];
            tables[table][index] = value;
            index = index + 1;
        }
        table = table + 1;
    }
    tables
}

/// One step over eight bytes, by the tables.
fn feed_chunk(tables: &[[u32; 256]; 8], register: u32, bytes: &[u8], at: usize) -> (result: u32)
    requires
        are_crc32_tables(*tables),
        at + 8 <= bytes@.len(),
    ensures
        result == feed(register, bytes@.subrange(at as int, at + 8)),
{
    let (b0, b1, b2, b3) = (bytes[at], bytes[at + 1], bytes[at + 2], bytes[at + 3]);
    let (b4, b5, b6, b7) = (bytes[at + 4], bytes[at + 5], bytes[at + 6], bytes[at + 7]);
    let first: u32 = register ^ ((b0 as u32) | ((b1 as u32) << 8) | ((b2 as u32) << 16) | ((
    b3 as u32) << 24));
    let second: u32 = (b4 as u32) | ((b5 as u32) << 8) | ((b6 as u32) << 16) | ((b7 as u32) << 24);
    let result: u32 = tables[7][low_byte_index(first)] ^ tables[6][low_byte_index(first >> 8)]
        ^ tables[5][low_byte_index(first >> 16)] ^ tables[4][low_byte_index(first >> 24)]
        ^ tables[3][low_byte_index(second)] ^ tables[2][low_byte_index(second >> 8)]
        ^ tables[1][low_byte_index(second >> 16)] ^ tables[0][low_byte_index(second >> 24)];
    proof {
        let chunk = bytes@.subrange(at as int, at + 8);
        lemma_feed_eight(register, chunk);
        let middle = divide(first, 32);
        divide_is_linear(middle, second, 32);
        divide_composes(first, 32, 32);
        lemma_divide_word(first, 64);
        lemma_divide_word(second, 32);
        let (t7, t6, t5, t4) = (
            divide(first & 0xff, 64),
            divide((first >> 8) & 0xff, 56),
            divide((first >> 16) & 0xff, 48),
            divide((first >> 24) & 0xff, 40),
        );
        let (t3, t2, t1, t0) = (
            divide(second & 0xff, 32),
            divide((second >> 8) & 0xff, 24),
            divide((second >> 16) & 0xff, 16),
            divide((second >> 24) & 0xff, 8),
        );
        assert((t7 ^ t6 ^ t5 ^ t4) ^ (t3 ^ t2 ^ t1 ^ t0) == t7 ^ t6 ^ t5 ^ t4 ^ t3 ^ t2 ^ t1 ^ t0)
            by (bit_vector);
    }
    result
}

proof fn lemma_feed_eight(register: u32, chunk: Seq<u8>)
    requires
        chunk.len() == 8,
    ensures
        feed(register, chunk) == divide(
            divide(register ^ little_endian_word(chunk[0], chunk[1], chunk[2], chunk[3]), 32)
                ^ little_endian_word(chunk[4], chunk[5], chunk[6], chunk[7]),
            32,
        ),
{
    lemma_feed_four(register, chunk.subrange(0, 4));
    lemma_feed_four(feed(register, chunk.subrange(0, 4)), chunk.subrange(4, 8));
    assert(chunk =~= chunk.subrange(0, 4) + chunk.subrange(4, 8));
    feed_appends(register, chunk.subrange(0, 4), chunk.subrange(4, 8));
}

proof fn lemma_feed_four(register: u32, chunk: Seq<u8>)
    requires
        chunk.len() == 4,
    ensures
        feed(register, chunk) == divide(
            register ^ little_endian_word(chunk[0], chunk[1], chunk[2], chunk[3]),
            32,
        ),
{
    reveal_with_fuel(feed, 5);
    lemma_feed_word(register, chunk[0], chunk[1], chunk[2], chunk[3]);
    let c3 = chunk.drop_last();
    let c2 = c3.drop_last();
    let c1 = c2.drop_last();
    assert(c1.drop_last().len() == 0);
}

/// CRC-32/ISO-HDLC of one byte region by the given tables.
///
/// `None` stands for a region that claims bytes but has no address; its
/// checksum is all ones.
pub fn checksum_crc32_with(tables: &[[u32; 256]; 8], data: Option<&[u8]>) -> (checksum: u32)
    requires
        are_crc32_tables(*tables),
    ensures
        checksum == (match data {
            Some(bytes) => crc32(bytes@),
            None => u32::MAX,
        }),
{
    let bytes = match data {
        Some(bytes) => bytes,
        None => {
            return u32::MAX;
        },
    };
    let mut register: u32 = u32::MAX;
    let mut at: usize = 0;
    while bytes.len() - at >= 8
        invariant
            0 <= at <= bytes@.len(),
            are_crc32_tables(*tables),
            register == feed(0xffff_ffff, bytes@.take(at as int)),
        decreases bytes@.len() - at,
    {
        register = feed_chunk(tables, register, bytes, at);
        proof {
            let left = bytes@.take(at as int);
            let right = bytes@.subrange(at as int, at + 8);
            feed_appends(0xffff_ffff, left, right);
            assert(bytes@.take(at + 8) =~= left + right);
        }
        at = at + 8;
    }
    while at < bytes.len()
        invariant
            0 <= at <= bytes@.len(),
            are_crc32_tables(*tables),
            register == feed(0xffff_ffff, bytes@.take(at as int)),
        decreases bytes@.len() - at,
    {
        let byte: u8 = bytes[at];
        let index: usize = low_byte_index(register ^ (byte as u32));
        proof {
            let mixed = register ^ (byte as u32);
            lemma_divide_byte(mixed);
            assert((register ^ (byte as u32)) >> 8 == register >> 8) by (bit_vector);
            assert(tables[0][index as int] == divide(index as u32, 8));
            assert(bytes@.take(at + 1).drop_last() =~= bytes@.take(at as int));
            assert(bytes@.take(at + 1).last() == byte);
        }
        register = (register >> 8) ^ tables[0][index];
        at = at + 1;
    }
    assert(bytes@.take(at as int) =~= bytes@);
    !register
}

/// CRC-32/ISO-HDLC of one byte region.
///
/// `None` stands for a region that claims bytes but has no address; its
/// checksum is all ones.
pub fn checksum_crc32(data: Option<&[u8]>) -> (checksum: u32)
    ensures
        checksum == (match data {
            Some(bytes) => crc32(bytes@),
            None => u32::MAX,
        }),
{
    let tables = build_crc32_tables();
    checksum_crc32_with(&tables, data)
}

} // verus!
