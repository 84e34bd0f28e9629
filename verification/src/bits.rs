//! Bit fields of 8-bit registers and big-endian sample words.
use vstd::arithmetic::power2::{lemma2_to64, pow2};
use vstd::prelude::*;

verus! {

/// Mask that selects bits `lsb..=msb` of a byte.
pub open spec fn field_mask(msb: u8, lsb: u8) -> u8 {
    ((0xffu8 >> ((7 - msb) as u8)) >> lsb) << lsb
}

/// Bits `lsb..=msb` of `v`, moved down to bit 0.
pub open spec fn field(v: u8, msb: u8, lsb: u8) -> u8 {
    (v & field_mask(msb, lsb)) >> lsb
}

/// `v` with bits `lsb..=msb` replaced by the low bits of `x`.
pub open spec fn with_field(v: u8, msb: u8, lsb: u8, x: u8) -> u8 {
    (v & !field_mask(msb, lsb)) | ((x << lsb) & field_mask(msb, lsb))
}

/// Bit `i` of `v`.
pub open spec fn bit(v: u8, i: u8) -> bool {
    field(v, i, i) != 0
}

/// `v` with bit `i` set to `b`.
pub open spec fn with_bit(v: u8, i: u8, b: bool) -> u8 {
    with_field(v, i, i, if b { 1u8 } else { 0u8 })
}

/// Reads bits `lsb..=msb` of `v`.
pub fn get_field(v: u8, msb: u8, lsb: u8) -> (r: u8)
    requires
        lsb <= msb < 8,
    ensures
        r == field(v, msb, lsb),
{
    let mask: u8 = ((0xffu8 >> (7 - msb)) >> lsb) << lsb;
    (v & mask) >> lsb
}

/// Writes the low bits of `x` into bits `lsb..=msb` of `v`.
pub fn set_field(v: u8, msb: u8, lsb: u8, x: u8) -> (r: u8)
    requires
        lsb <= msb < 8,
    ensures
        r == with_field(v, msb, lsb, x),
{
    let mask: u8 = ((0xffu8 >> (7 - msb)) >> lsb) << lsb;
    (v & !mask) | ((x << lsb) & mask)
}

/// Reads bit `i` of `v`.
pub fn get_bit(v: u8, i: u8) -> (r: bool)
    requires
        i < 8,
    ensures
        r == bit(v, i),
{
    get_field(v, i, i) != 0
}

/// Writes bit `i` of `v`.
pub fn set_bit(v: u8, i: u8, b: bool) -> (r: u8)
    requires
        i < 8,
    ensures
        r == with_bit(v, i, b),
{
    set_field(v, i, i, if b { 1u8 } else { 0u8 })
}

/// The bit-level definitions agree with arithmetic: a field is the byte
/// divided by `2^lsb`, modulo `2^(msb - lsb + 1)`; writing a field replaces
/// that part of the byte by the written value modulo `2^(msb - lsb + 1)`.
pub proof fn lemma_field_arithmetic(v: u8, msb: u8, lsb: u8, x: u8)
    requires
        lsb <= msb < 8,
    ensures
        field(v, msb, lsb) == (v as nat / pow2(lsb as nat)) % pow2((msb - lsb + 1) as nat),
        with_field(v, msb, lsb, x) == v - field(v, msb, lsb) * pow2(lsb as nat) + (x as nat % pow2(
            (msb - lsb + 1) as nat,
        )) * pow2(lsb as nat),
{
    lemma2_to64();
    if lsb == 0 {
        assert((msb == 0 ==> field(v, msb, 0) == (v / 1) % 2
                && with_field(v, msb, 0, x) == v - ((v / 1) % 2) * 1 + (x % 2) * 1)
            && (msb == 1 ==> field(v, msb, 0) == (v / 1) % 4
                && with_field(v, msb, 0, x) == v - ((v / 1) % 4) * 1 + (x % 4) * 1)
            && (msb == 2 ==> field(v, msb, 0) == (v / 1) % 8
                && with_field(v, msb, 0, x) == v - ((v / 1) % 8) * 1 + (x % 8) * 1)
            && (msb == 3 ==> field(v, msb, 0) == (v / 1) % 16
                && with_field(v, msb, 0, x) == v - ((v / 1) % 16) * 1 + (x % 16) * 1)
            && (msb == 4 ==> field(v, msb, 0) == (v / 1) % 32
                && with_field(v, msb, 0, x) == v - ((v / 1) % 32) * 1 + (x % 32) * 1)
            && (msb == 5 ==> field(v, msb, 0) == (v / 1) % 64
                && with_field(v, msb, 0, x) == v - ((v / 1) % 64) * 1 + (x % 64) * 1)
            && (msb == 6 ==> field(v, msb, 0) == (v / 1) % 128
                && with_field(v, msb, 0, x) == v - ((v / 1) % 128) * 1 + (x % 128) * 1)
            && (msb == 7 ==> field(v, msb, 0) == v
                && with_field(v, msb, 0, x) == x))
            by (bit_vector);
        if msb == 0 {
            field_arithmetic_case(v, msb, lsb, x, 1, 2);
        } else if msb == 1 {
            field_arithmetic_case(v, msb, lsb, x, 1, 4);
        } else if msb == 2 {
            field_arithmetic_case(v, msb, lsb, x, 1, 8);
        } else if msb == 3 {
            field_arithmetic_case(v, msb, lsb, x, 1, 16);
        } else if msb == 4 {
            field_arithmetic_case(v, msb, lsb, x, 1, 32);
        } else if msb == 5 {
            field_arithmetic_case(v, msb, lsb, x, 1, 64);
        } else if msb == 6 {
            field_arithmetic_case(v, msb, lsb, x, 1, 128);
        } else {
            field_arithmetic_case(v, msb, lsb, x, 1, 256);
        }
    } else if lsb == 1 {
        assert((msb == 1 ==> field(v, msb, 1) == (v / 2) % 2
                && with_field(v, msb, 1, x) == v - ((v / 2) % 2) * 2 + (x % 2) * 2)
            && (msb == 2 ==> field(v, msb, 1) == (v / 2) % 4
                && with_field(v, msb, 1, x) == v - ((v / 2) % 4) * 2 + (x % 4) * 2)
            && (msb == 3 ==> field(v, msb, 1) == (v / 2) % 8
                && with_field(v, msb, 1, x) == v - ((v / 2) % 8) * 2 + (x % 8) * 2)
            && (msb == 4 ==> field(v, msb, 1) == (v / 2) % 16
                && with_field(v, msb, 1, x) == v - ((v / 2) % 16) * 2 + (x % 16) * 2)
            && (msb == 5 ==> field(v, msb, 1) == (v / 2) % 32
                && with_field(v, msb, 1, x) == v - ((v / 2) % 32) * 2 + (x % 32) * 2)
            && (msb == 6 ==> field(v, msb, 1) == (v / 2) % 64
                && with_field(v, msb, 1, x) == v - ((v / 2) % 64) * 2 + (x % 64) * 2)
            && (msb == 7 ==> field(v, msb, 1) == (v / 2) % 128
                && with_field(v, msb, 1, x) == v - ((v / 2) % 128) * 2 + (x % 128) * 2))
            by (bit_vector);
        if msb == 1 {
            field_arithmetic_case(v, msb, lsb, x, 2, 2);
        } else if msb == 2 {
            field_arithmetic_case(v, msb, lsb, x, 2, 4);
        } else if msb == 3 {
            field_arithmetic_case(v, msb, lsb, x, 2, 8);
        } else if msb == 4 {
            field_arithmetic_case(v, msb, lsb, x, 2, 16);
        } else if msb == 5 {
            field_arithmetic_case(v, msb, lsb, x, 2, 32);
        } else if msb == 6 {
            field_arithmetic_case(v, msb, lsb, x, 2, 64);
        } else {
            field_arithmetic_case(v, msb, lsb, x, 2, 128);
        }
    } else if lsb == 2 {
        assert((msb == 2 ==> field(v, msb, 2) == (v / 4) % 2
                && with_field(v, msb, 2, x) == v - ((v / 4) % 2) * 4 + (x % 2) * 4)
            && (msb == 3 ==> field(v, msb, 2) == (v / 4) % 4
                && with_field(v, msb, 2, x) == v - ((v / 4) % 4) * 4 + (x % 4) * 4)
            && (msb == 4 ==> field(v, msb, 2) == (v / 4) % 8
                && with_field(v, msb, 2, x) == v - ((v / 4) % 8) * 4 + (x % 8) * 4)
            && (msb == 5 ==> field(v, msb, 2) == (v / 4) % 16
                && with_field(v, msb, 2, x) == v - ((v / 4) % 16) * 4 + (x % 16) * 4)
            && (msb == 6 ==> field(v, msb, 2) == (v / 4) % 32
                && with_field(v, msb, 2, x) == v - ((v / 4) % 32) * 4 + (x % 32) * 4)
            && (msb == 7 ==> field(v, msb, 2) == (v / 4) % 64
                && with_field(v, msb, 2, x) == v - ((v / 4) % 64) * 4 + (x % 64) * 4))
            by (bit_vector);
        if msb == 2 {
            field_arithmetic_case(v, msb, lsb, x, 4, 2);
        } else if msb == 3 {
            field_arithmetic_case(v, msb, lsb, x, 4, 4);
        } else if msb == 4 {
            field_arithmetic_case(v, msb, lsb, x, 4, 8);
        } else if msb == 5 {
            field_arithmetic_case(v, msb, lsb, x, 4, 16);
        } else if msb == 6 {
            field_arithmetic_case(v, msb, lsb, x, 4, 32);
        } else {
            field_arithmetic_case(v, msb, lsb, x, 4, 64);
        }
    } else if lsb == 3 {
        assert((msb == 3 ==> field(v, msb, 3) == (v / 8) % 2
                && with_field(v, msb, 3, x) == v - ((v / 8) % 2) * 8 + (x % 2) * 8)
            && (msb == 4 ==> field(v, msb, 3) == (v / 8) % 4
                && with_field(v, msb, 3, x) == v - ((v / 8) % 4) * 8 + (x % 4) * 8)
            && (msb == 5 ==> field(v, msb, 3) == (v / 8) % 8
                && with_field(v, msb, 3, x) == v - ((v / 8) % 8) * 8 + (x % 8) * 8)
            && (msb == 6 ==> field(v, msb, 3) == (v / 8) % 16
                && with_field(v, msb, 3, x) == v - ((v / 8) % 16) * 8 + (x % 16) * 8)
            && (msb == 7 ==> field(v, msb, 3) == (v / 8) % 32
                && with_field(v, msb, 3, x) == v - ((v / 8) % 32) * 8 + (x % 32) * 8))
            by (bit_vector);
        if msb == 3 {
            field_arithmetic_case(v, msb, lsb, x, 8, 2);
        } else if msb == 4 {
            field_arithmetic_case(v, msb, lsb, x, 8, 4);
        } else if msb == 5 {
            field_arithmetic_case(v, msb, lsb, x, 8, 8);
        } else if msb == 6 {
            field_arithmetic_case(v, msb, lsb, x, 8, 16);
        } else {
            field_arithmetic_case(v, msb, lsb, x, 8, 32);
        }
    } else if lsb == 4 {
        assert((msb == 4 ==> field(v, msb, 4) == (v / 16) % 2
                && with_field(v, msb, 4, x) == v - ((v / 16) % 2) * 16 + (x % 2) * 16)
            && (msb == 5 ==> field(v, msb, 4) == (v / 16) % 4
                && with_field(v, msb, 4, x) == v - ((v / 16) % 4) * 16 + (x % 4) * 16)
            && (msb == 6 ==> field(v, msb, 4) == (v / 16) % 8
                && with_field(v, msb, 4, x) == v - ((v / 16) % 8) * 16 + (x % 8) * 16)
            && (msb == 7 ==> field(v, msb, 4) == (v / 16) % 16
                && with_field(v, msb, 4, x) == v - ((v / 16) % 16) * 16 + (x % 16) * 16))
            by (bit_vector);
        if msb == 4 {
            field_arithmetic_case(v, msb, lsb, x, 16, 2);
        } else if msb == 5 {
            field_arithmetic_case(v, msb, lsb, x, 16, 4);
        } else if msb == 6 {
            field_arithmetic_case(v, msb, lsb, x, 16, 8);
        } else {
            field_arithmetic_case(v, msb, lsb, x, 16, 16);
        }
    } else if lsb == 5 {
        assert((msb == 5 ==> field(v, msb, 5) == (v / 32) % 2
                && with_field(v, msb, 5, x) == v - ((v / 32) % 2) * 32 + (x % 2) * 32)
            && (msb == 6 ==> field(v, msb, 5) == (v / 32) % 4
                && with_field(v, msb, 5, x) == v - ((v / 32) % 4) * 32 + (x % 4) * 32)
            && (msb == 7 ==> field(v, msb, 5) == (v / 32) % 8
                && with_field(v, msb, 5, x) == v - ((v / 32) % 8) * 32 + (x % 8) * 32))
            by (bit_vector);
        if msb == 5 {
            field_arithmetic_case(v, msb, lsb, x, 32, 2);
        } else if msb == 6 {
            field_arithmetic_case(v, msb, lsb, x, 32, 4);
        } else {
            field_arithmetic_case(v, msb, lsb, x, 32, 8);
        }
    } else if lsb == 6 {
        assert((msb == 6 ==> field(v, msb, 6) == (v / 64) % 2
                && with_field(v, msb, 6, x) == v - ((v / 64) % 2) * 64 + (x % 2) * 64)
            && (msb == 7 ==> field(v, msb, 6) == (v / 64) % 4
                && with_field(v, msb, 6, x) == v - ((v / 64) % 4) * 64 + (x % 4) * 64))
            by (bit_vector);
        if msb == 6 {
            field_arithmetic_case(v, msb, lsb, x, 64, 2);
        } else {
            field_arithmetic_case(v, msb, lsb, x, 64, 4);
        }
    } else if lsb == 7 {
        assert((msb == 7 ==> field(v, msb, 7) == (v / 128) % 2
                && with_field(v, msb, 7, x) == v - ((v / 128) % 2) * 128 + (x % 2) * 128))
            by (bit_vector);
        field_arithmetic_case(v, msb, lsb, x, 128, 2);
    }
}


/// A bit is the byte divided by `2^i`, modulo 2; writing it replaces exactly
/// that part of the byte.
pub proof fn lemma_bit_arithmetic(v: u8, i: u8, b: bool)
    requires
        i < 8,
    ensures
        bit(v, i) <==> (v as nat / pow2(i as nat)) % 2 == 1,
        with_bit(v, i, b) == v - ((v as nat / pow2(i as nat)) % 2) * pow2(i as nat) + (if b {
            1int
        } else {
            0int
        }) * pow2(i as nat),
{
    lemma2_to64();
    let x: u8 = if b {
        1u8
    } else {
        0u8
    };
    lemma_field_arithmetic(v, i, i, x);
    assert(pow2((i - i + 1) as nat) == 2);
    assert(x as nat % 2 == x);
}

proof fn field_arithmetic_case(v: u8, msb: u8, lsb: u8, x: u8, p: nat, q: nat)
    requires
        lsb <= msb < 8,
        pow2(lsb as nat) == p,
        pow2((msb - lsb + 1) as nat) == q,
        p > 0,
        q > 0,
        field(v, msb, lsb) == (v as nat / p) % q,
        with_field(v, msb, lsb, x) == v - ((v as nat / p) % q) * p + (x as nat % q) * p,
    ensures
        field(v, msb, lsb) == (v as nat / pow2(lsb as nat)) % pow2((msb - lsb + 1) as nat),
        with_field(v, msb, lsb, x) == v - field(v, msb, lsb) * pow2(lsb as nat) + (x as nat % pow2(
            (msb - lsb + 1) as nat,
        )) * pow2(lsb as nat),
{
}

/// Reading a field back after writing it yields the written value, cut to
/// the width of the field.
pub proof fn lemma_field_read_after_write(v: u8, msb: u8, lsb: u8, x: u8)
    requires
        lsb <= msb < 8,
    ensures
        field(with_field(v, msb, lsb, x), msb, lsb) == x & (0xffu8 >> ((7 - (msb - lsb)) as u8)),
{
    assert(field(with_field(v, msb, lsb, x), msb, lsb) == x & (0xffu8 >> ((7 - (msb - lsb)) as u8)))
        by (bit_vector)
        requires
            lsb <= msb < 8,
    ;
}

/// Writing a field leaves every bit outside it unchanged.
pub proof fn lemma_field_write_keeps_other_bits(v: u8, msb: u8, lsb: u8, x: u8)
    requires
        lsb <= msb < 8,
    ensures
        with_field(v, msb, lsb, x) & !field_mask(msb, lsb) == v & !field_mask(msb, lsb),
{
    assert(with_field(v, msb, lsb, x) & !field_mask(msb, lsb) == v & !field_mask(msb, lsb))
        by (bit_vector);
}

/// Writing back the value a field holds leaves the byte unchanged.
pub proof fn lemma_field_write_of_read(v: u8, msb: u8, lsb: u8)
    requires
        lsb <= msb < 8,
    ensures
        with_field(v, msb, lsb, field(v, msb, lsb)) == v,
{
    assert(with_field(v, msb, lsb, field(v, msb, lsb)) == v) by (bit_vector)
        requires
            lsb <= msb < 8,
    ;
}

/// Reading a bit back after writing it yields the written value, and the
/// write leaves every other bit unchanged.
pub proof fn lemma_bit_read_after_write(v: u8, i: u8, j: u8, b: bool)
    requires
        i < 8,
        j < 8,
    ensures
        bit(with_bit(v, i, b), i) == b,
        j != i ==> bit(with_bit(v, i, b), j) == bit(v, j),
{
    assert(bit(with_bit(v, i, b), i) == b) by (bit_vector)
        requires
            i < 8,
    ;
    assert(j != i ==> bit(with_bit(v, i, b), j) == bit(v, j)) by (bit_vector)
        requires
            i < 8,
            j < 8,
    ;
}

/// Unsigned value of the big-endian pair `hi`, `lo`.
pub open spec fn be_u16(hi: u8, lo: u8) -> int {
    hi * 256 + lo
}

/// Two's-complement value of the big-endian pair `hi`, `lo`.
pub open spec fn be_i16(hi: u8, lo: u8) -> int {
    if hi < 128 {
        be_u16(hi, lo)
    } else {
        be_u16(hi, lo) - 65536
    }
}

/// A big-endian word decodes to the one value in `-32768..=32767` that is
/// congruent to `hi * 256 + lo` modulo 65536.
pub proof fn lemma_be_i16_twos_complement(hi: u8, lo: u8)
    ensures
        -32768 <= be_i16(hi, lo) <= 32767,
        (be_i16(hi, lo) - (hi * 256 + lo)) % 65536 == 0,
        (hi < 128) <==> be_i16(hi, lo) >= 0,
{
}

/// Decodes a big-endian two's-complement 16-bit word.
pub fn decode_be_i16(hi: u8, lo: u8) -> (r: i16)
    ensures
        r == be_i16(hi, lo),
{
    let w: u16 = ((hi as u16) << 8) | (lo as u16);
    assert(w == hi * 256 + lo) by (bit_vector)
        requires
            w == ((hi as u16) << 8) | (lo as u16),
    ;
    let r: i16 = w as i16;
    assert(r == if w < 32768 { w as int } else { w - 65536 }) by (bit_vector)
        requires
            r == w as i16,
    ;
    r
}


/// Two's-complement value of a single byte.
pub open spec fn signed_byte(b: u8) -> int {
    if b < 128 {
        b as int
    } else {
        b - 256
    }
}

/// A signed byte is the one value in `-128..=127` congruent to the byte
/// modulo 256.
pub proof fn lemma_signed_byte_twos_complement(b: u8)
    ensures
        -128 <= signed_byte(b) <= 127,
        (signed_byte(b) - b) % 256 == 0,
{
}

/// Reinterprets a byte as a two's-complement 8-bit integer.
pub fn decode_i8(b: u8) -> (r: i8)
    ensures
        r == signed_byte(b),
{
    let r: i8 = b as i8;
    assert(r == if b < 128 { b as int } else { b - 256 }) by (bit_vector)
        requires
            r == b as i8,
    ;
    r
}

/// Arithmetic shift right by one: the floor of half of `x`.
pub fn halve_floor(x: i16) -> (r: i16)
    ensures
        r == x / 2,
{
    let r: i16 = x >> 1;
    assert(r * 2 + (x & 1) == x && (x & 1 == 0 || x & 1 == 1)) by (bit_vector)
        requires
            r == x >> 1,
    ;
    r
}

/// Value of the 13-bit FIFO counter held in a big-endian register pair.
pub open spec fn fifo_count_value(hi: u8, lo: u8) -> int {
    (hi % 32) * 256 + lo
}

/// The FIFO counter is the big-endian register pair cut to its low 13 bits.
pub proof fn lemma_fifo_count_low_13_bits(hi: u8, lo: u8)
    ensures
        fifo_count_value(hi, lo) == (hi * 256 + lo) % 8192,
        0 <= fifo_count_value(hi, lo) < 8192,
{
}

/// Decodes the 13-bit FIFO counter; the top three bits of `hi` are ignored.
pub fn decode_fifo_count(hi: u8, lo: u8) -> (r: u16)
    ensures
        r == fifo_count_value(hi, lo),
        r < 8192,
{
    let r: u16 = ((hi as u16) & 0x1f) << 8 | lo as u16;
    assert(r == (hi % 32) * 256 + lo) by (bit_vector)
        requires
            r == ((hi as u16) & 0x1f) << 8 | lo as u16,
    ;
    r
}

} // verus!
