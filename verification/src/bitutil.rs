//! Bit primitives over 32-bit machine words: field extract/insert,
//! sign extension, shifts, rotates, and the add/subtract forms that
//! return carry and signed-overflow information.
//!
//! These are the only functions that branch on bit-level details; the
//! rest of the core works with their outputs.

use vstd::prelude::*;

verus! {

/// The low `len` bits set, as a 32-bit mask.
pub open spec fn mask32(len: u8) -> u32 {
    if len == 0 {
        0u32
    } else if len >= 32 {
        0xFFFF_FFFFu32
    } else {
        0xFFFF_FFFFu32 >> ((32 - len) as u32)
    }
}

/// The low `len` bits set, as a 16-bit mask.
pub open spec fn mask16(len: u8) -> u16 {
    if len == 0 {
        0u16
    } else if len >= 16 {
        0xFFFFu16
    } else {
        0xFFFFu16 >> ((16 - len) as u16)
    }
}

/// The `len`-bit field of `data` starting at bit `i`.
pub open spec fn spec_get_bits32(data: u32, i: u8, len: u8) -> u32 {
    if i < 32 {
        (data >> (i as u32)) & mask32(len)
    } else {
        0u32
    }
}

/// The `len`-bit field of `data` starting at bit `i`, for 16-bit words.
pub open spec fn spec_get_bits16(data: u16, i: u8, len: u8) -> u16 {
    if i < 16 {
        (data >> (i as u16)) & mask16(len)
    } else {
        0u16
    }
}

/// `data` with the `len`-bit field starting at bit `i` replaced by the
/// low `len` bits of `value`.
pub open spec fn spec_set_bits32(data: u32, i: u8, len: u8, value: u32) -> u32 {
    if i < 32 {
        (data & !(mask32(len) << (i as u32))) | ((value << (i as u32)) & (mask32(len) << (i as u32)))
    } else {
        data
    }
}

/// Bit `i` of `data`.
pub open spec fn spec_get_bit(data: u32, i: u8) -> bool {
    (data >> (i as u32)) & 1u32 == 1u32
}

/// Bit `i` of a 16-bit `data`.
pub open spec fn spec_get_bit16(data: u16, i: u8) -> bool {
    (data >> (i as u16)) & 1u16 == 1u16
}

/// `data` with bit `i` set to `v`.
pub open spec fn spec_set_bit32(data: u32, i: u8, v: bool) -> u32 {
    if v {
        data | (1u32 << (i as u32))
    } else {
        data & !(1u32 << (i as u32))
    }
}

/// `data` with bits `len..=31` replaced by copies of bit `len - 1`.
pub open spec fn spec_sign_extend32(data: u32, data_len: u8) -> u32 {
    if data_len == 0 || data_len >= 32 {
        data
    } else if spec_get_bit(data, (data_len - 1) as u8) {
        data | (0xFFFF_FFFFu32 << (data_len as u32))
    } else {
        data & mask32(data_len)
    }
}

/// Arithmetic right shift: the sign bit fills the vacated positions.
pub open spec fn spec_asr(data: u32, shift: u8) -> u32 {
    if shift == 0 {
        data
    } else if shift >= 32 {
        if spec_get_bit(data, 31) { 0xFFFF_FFFFu32 } else { 0u32 }
    } else if spec_get_bit(data, 31) {
        (data >> (shift as u32)) | (0xFFFF_FFFFu32 << ((32 - shift) as u32))
    } else {
        data >> (shift as u32)
    }
}

/// 33-bit rotate right by one: the carry becomes bit 31.
pub open spec fn spec_rrx(c_flag: bool, data: u32) -> u32 {
    (if c_flag { 0x8000_0000u32 } else { 0u32 }) | (data >> 1u32)
}

/// Rotate right by `n` places (effective amount `n % 32`).
pub open spec fn spec_ror32(data: u32, n: u32) -> u32 {
    if n % 32 == 0 {
        data
    } else {
        (data >> (n % 32)) | (data << ((32 - n % 32) as u32))
    }
}

/// The low 32 bits of an integer, as the machine word they wrap to.
pub open spec fn wrap32(v: int) -> u32 {
    (v % 0x1_0000_0000) as u32
}

/// Sum modulo 2^32.
pub open spec fn spec_add32(a: u32, b: u32) -> u32 {
    wrap32(a + b)
}

/// Difference modulo 2^32.
pub open spec fn spec_sub32(a: u32, b: u32) -> u32 {
    wrap32(a + 0x1_0000_0000 - b)
}

/// The `len`-bit field of `data` starting at bit `i`.
pub fn get_bits32(data: u32, i: u8, len: u8) -> (r: u32)
    requires
        i + len <= 32,
    ensures
        r == spec_get_bits32(data, i, len),
        len <= 1 ==> r <= 0x1,
        len <= 2 ==> r <= 0x3,
        len <= 3 ==> r <= 0x7,
        len <= 4 ==> r <= 0xF,
        len <= 5 ==> r <= 0x1F,
        len <= 7 ==> r <= 0x7F,
        len <= 8 ==> r <= 0xFF,
        len <= 11 ==> r <= 0x7FF,
        len <= 12 ==> r <= 0xFFF,
        len <= 16 ==> r <= 0xFFFF,
        len <= 24 ==> r <= 0xFF_FFFF,
{
    if i >= 32 {
        0
    } else {
        let mask: u32 = if len == 0 {
            0
        } else if len >= 32 {
            0xFFFF_FFFFu32
        } else {
            0xFFFF_FFFFu32 >> ((32 - len) as u32)
        };
        let r = (data >> (i as u32)) & mask;
        proof {
            assert({
                &&& (len <= 1 ==> r <= 0x1)
                &&& (len <= 2 ==> r <= 0x3)
                &&& (len <= 3 ==> r <= 0x7)
                &&& (len <= 4 ==> r <= 0xF)
                &&& (len <= 5 ==> r <= 0x1F)
                &&& (len <= 7 ==> r <= 0x7F)
                &&& (len <= 8 ==> r <= 0xFF)
                &&& (len <= 11 ==> r <= 0x7FF)
                &&& (len <= 12 ==> r <= 0xFFF)
                &&& (len <= 16 ==> r <= 0xFFFF)
                &&& (len <= 24 ==> r <= 0xFF_FFFF)
            }) by (bit_vector)
                requires
                    i < 32 && i + len <= 32 && r == (data >> (i as u32)) & (if len == 0 {
                        0u32
                    } else if len >= 32 {
                        0xFFFF_FFFFu32
                    } else {
                        0xFFFF_FFFFu32 >> ((32 - len) as u32)
                    }),
            ;
        }
        r
    }
}

/// The `len`-bit field of `data` starting at bit `i`, for 16-bit words.
pub fn get_bits16(data: u16, i: u8, len: u8) -> (r: u16)
    requires
        i + len <= 16,
    ensures
        r == spec_get_bits16(data, i, len),
        len <= 1 ==> r <= 0x1,
        len <= 2 ==> r <= 0x3,
        len <= 3 ==> r <= 0x7,
        len <= 4 ==> r <= 0xF,
        len <= 5 ==> r <= 0x1F,
        len <= 7 ==> r <= 0x7F,
        len <= 8 ==> r <= 0xFF,
        len <= 11 ==> r <= 0x7FF,
        len <= 12 ==> r <= 0xFFF,
{
    if i >= 16 {
        0
    } else {
        let mask: u16 = if len == 0 {
            0
        } else if len >= 16 {
            0xFFFFu16
        } else {
            0xFFFFu16 >> ((16 - len) as u16)
        };
        let r = (data >> (i as u16)) & mask;
        proof {
            assert({
                &&& (len <= 1 ==> r <= 0x1)
                &&& (len <= 2 ==> r <= 0x3)
                &&& (len <= 3 ==> r <= 0x7)
                &&& (len <= 4 ==> r <= 0xF)
                &&& (len <= 5 ==> r <= 0x1F)
                &&& (len <= 7 ==> r <= 0x7F)
                &&& (len <= 8 ==> r <= 0xFF)
                &&& (len <= 11 ==> r <= 0x7FF)
                &&& (len <= 12 ==> r <= 0xFFF)
            }) by (bit_vector)
                requires
                    i < 16 && i + len <= 16 && r == (data >> (i as u16)) & (if len == 0 {
                        0u16
                    } else if len >= 16 {
                        0xFFFFu16
                    } else {
                        0xFFFFu16 >> ((16 - len) as u16)
                    }),
            ;
        }
        r
    }
}

/// Replace the `len`-bit field of `data` starting at bit `i` by the low
/// `len` bits of `value`.
pub fn set_bits32(data: u32, i: u8, len: u8, value: u32) -> (r: u32)
    requires
        i + len <= 32,
    ensures
        r == spec_set_bits32(data, i, len, value),
{
    if i >= 32 {
        data
    } else {
        let mask: u32 = if len == 0 {
            0
        } else if len >= 32 {
            0xFFFF_FFFFu32
        } else {
            0xFFFF_FFFFu32 >> ((32 - len) as u32)
        };
        let shifted_mask: u32 = mask << (i as u32);
        (data & !shifted_mask) | ((value << (i as u32)) & shifted_mask)
    }
}

/// Bit `i` of `data`.
pub fn get_bit(data: u32, i: u8) -> (r: bool)
    requires
        i < 32,
    ensures
        r == spec_get_bit(data, i),
{
    (data >> (i as u32)) & 1 == 1
}

/// Bit `i` of a 16-bit `data`.
pub fn get_bit16(data: u16, i: u8) -> (r: bool)
    requires
        i < 16,
    ensures
        r == spec_get_bit16(data, i),
{
    (data >> (i as u16)) & 1 == 1
}

/// `data` with bit `i` set to `v`.
pub fn set_bit32(data: u32, i: u8, v: bool) -> (r: u32)
    requires
        i < 32,
    ensures
        r == spec_set_bit32(data, i, v),
{
    let mask: u32 = 1u32 << (i as u32);
    if v {
        data | mask
    } else {
        data & !mask
    }
}

/// Treat the low `data_len` bits of `data` as signed and extend the sign
/// bit up to bit 31.
pub fn sign_extend32(data: u32, data_len: u8) -> (r: u32)
    requires
        1 <= data_len <= 32,
    ensures
        r == spec_sign_extend32(data, data_len),
{
    if data_len >= 32 {
        data
    } else if get_bit(data, data_len - 1) {
        data | (0xFFFF_FFFFu32 << (data_len as u32))
    } else {
        data & (0xFFFF_FFFFu32 >> ((32 - data_len) as u32))
    }
}

/// Arithmetic right shift by `shift` places.
pub fn arithmetic_shift_right(data: u32, shift: u8) -> (r: u32)
    requires
        shift < 32,
    ensures
        r == spec_asr(data, shift),
{
    if shift == 0 {
        data
    } else if get_bit(data, 31) {
        (data >> (shift as u32)) | (0xFFFF_FFFFu32 << ((32 - shift) as u32))
    } else {
        data >> (shift as u32)
    }
}

/// 33-bit rotate right by one, with the carry flag as the incoming bit 31.
pub fn rotate_right_with_extend(c_flag: bool, data: u32) -> (r: u32)
    ensures
        r == spec_rrx(c_flag, data),
{
    (if c_flag { 0x8000_0000u32 } else { 0u32 }) | (data >> 1u32)
}

/// Rotate right by `n` places.
pub fn rotate_right32(data: u32, n: u32) -> (r: u32)
    ensures
        r == spec_ror32(data, n),
{
    let s: u32 = n % 32;
    if s == 0 {
        data
    } else {
        (data >> s) | (data << (32 - s))
    }
}

/// Sum, unsigned carry-out and signed overflow of `a + b`.
///
/// The carry is set exactly when the mathematical sum reaches 2^32; the
/// overflow is set exactly when both addends share a sign that the sum
/// does not.
pub fn add_with_flags(a: u32, b: u32) -> (r: (u32, bool, bool))
    ensures
        r.0 == spec_add32(a, b),
        r.1 == (a + b >= 0x1_0000_0000),
        r.2 == (spec_get_bit(a, 31) == spec_get_bit(b, 31)
            && spec_get_bit(r.0, 31) != spec_get_bit(a, 31)),
{
    let wide: u64 = a as u64 + b as u64;
    let sum: u32 = (wide & 0xFFFF_FFFF) as u32;
    proof {
        lemma_low32(wide);
    }
    let carry: bool = wide > 0xFFFF_FFFF;
    let overflow: bool = get_bit(a, 31) == get_bit(b, 31) && get_bit(sum, 31) != get_bit(a, 31);
    (sum, carry, overflow)
}

/// Difference, unsigned borrow and signed overflow of `a - b`.
///
/// The borrow is set exactly when `a < b` as unsigned words; the engine
/// stores its negation as the C flag, following the architecture's
/// subtract semantics.
pub fn sub_with_flags(a: u32, b: u32) -> (r: (u32, bool, bool))
    ensures
        r.0 == spec_sub32(a, b),
        r.1 == (a < b),
        r.2 == (spec_get_bit(a, 31) != spec_get_bit(b, 31)
            && spec_get_bit(r.0, 31) != spec_get_bit(a, 31)),
{
    let wide: u64 = (a as u64 + 0x1_0000_0000) - b as u64;
    let diff: u32 = (wide & 0xFFFF_FFFF) as u32;
    proof {
        lemma_low32(wide);
    }
    let borrow: bool = a < b;
    let overflow: bool = get_bit(a, 31) != get_bit(b, 31) && get_bit(diff, 31) != get_bit(a, 31);
    (diff, borrow, overflow)
}

/// Sum with carry-in, its unsigned carry-out and its signed overflow.
pub fn add_with_flags_carry(a: u32, b: u32, carry: bool) -> (r: (u32, bool, bool))
    ensures
        r.0 == wrap32(a + b + (if carry { 1int } else { 0int })),
        r.1 == (a + b + (if carry { 1int } else { 0int }) >= 0x1_0000_0000),
        r.2 == (spec_get_bit(a, 31) == spec_get_bit(b, 31)
            && spec_get_bit(r.0, 31) != spec_get_bit(a, 31)),
{
    let cin: u64 = if carry { 1 } else { 0 };
    let wide: u64 = a as u64 + b as u64 + cin;
    let sum: u32 = (wide & 0xFFFF_FFFF) as u32;
    proof {
        lemma_low32(wide);
    }
    let carry_out: bool = wide > 0xFFFF_FFFF;
    let overflow: bool = get_bit(a, 31) == get_bit(b, 31) && get_bit(sum, 31) != get_bit(a, 31);
    (sum, carry_out, overflow)
}

/// Difference with borrow-in, its unsigned borrow-out and its signed
/// overflow.
pub fn sub_with_flags_carry(a: u32, b: u32, carry: bool) -> (r: (u32, bool, bool))
    ensures
        r.0 == wrap32(a + 0x2_0000_0000 - b - (if carry { 1int } else { 0int })),
        r.1 == (a < b + (if carry { 1int } else { 0int })),
        r.2 == (spec_get_bit(a, 31) != spec_get_bit(b, 31)
            && spec_get_bit(r.0, 31) != spec_get_bit(a, 31)),
{
    let cin: u64 = if carry { 1 } else { 0 };
    let wide: u64 = (a as u64 + 0x2_0000_0000) - b as u64 - cin;
    let diff: u32 = (wide & 0xFFFF_FFFF) as u32;
    proof {
        lemma_low32(wide);
    }
    let borrow: bool = (a as u64) < (b as u64 + cin);
    let overflow: bool = get_bit(a, 31) != get_bit(b, 31) && get_bit(diff, 31) != get_bit(a, 31);
    (diff, borrow, overflow)
}

/// The low 32 bits of a 64-bit word are its value modulo 2^32.
proof fn lemma_low32(x: u64)
    ensures
        x & 0xFFFF_FFFF == x % 0x1_0000_0000,
{
    assert(x & 0xFFFF_FFFF == x % 0x1_0000_0000) by (bit_vector);
}

/// Reading back a freshly written field yields the written value,
/// truncated to the field width.
pub proof fn lemma_set_bits32_read_back(d: u32, i: u8, len: u8, v: u32)
    requires
        i + len <= 32,
    ensures
        spec_get_bits32(spec_set_bits32(d, i, len, v), i, len) == v & mask32(len),
{
    if i < 32 {
        let m = mask32(len);
        assert((((d & !(m << (i as u32))) | ((v << (i as u32)) & (m << (i as u32)))) >> (i as u32))
            & m == v & m) by (bit_vector)
            requires
                m == mask32(len) && i < 32 && i + len <= 32,
        ;
    } else {
        assert(v & 0u32 == 0u32) by (bit_vector);
    }
}

/// Writing a field leaves every bit outside the field unchanged.
pub proof fn lemma_set_bits32_other_bit(d: u32, i: u8, len: u8, v: u32, j: u8)
    requires
        i + len <= 32,
        j < 32,
        j < i || j >= i + len,
    ensures
        spec_get_bit(spec_set_bits32(d, i, len, v), j) == spec_get_bit(d, j),
{
    if i < 32 {
        let m = mask32(len);
        assert(((((d & !(m << (i as u32))) | ((v << (i as u32)) & (m << (i as u32)))) >> (
        j as u32)) & 1u32 == 1u32) == ((d >> (j as u32)) & 1u32 == 1u32)) by (bit_vector)
            requires
                m == mask32(len) && i < 32 && i + len <= 32 && j < 32 && (j < i || j >= i + len),
        ;
    }
}

/// Reading any bit after a single-bit write: the written bit shows the
/// new value, every other bit its old one.
pub proof fn lemma_set_bit32_get_bit(d: u32, i: u8, v: bool, j: u8)
    requires
        i < 32,
        j < 32,
    ensures
        spec_get_bit(spec_set_bit32(d, i, v), j) == if i == j {
            v
        } else {
            spec_get_bit(d, j)
        },
{
    if v {
        assert((((d | (1u32 << (i as u32))) >> (j as u32)) & 1u32 == 1u32) == if i == j {
            true
        } else {
            (d >> (j as u32)) & 1u32 == 1u32
        }) by (bit_vector)
            requires
                i < 32 && j < 32,
        ;
    } else {
        assert((((d & !(1u32 << (i as u32))) >> (j as u32)) & 1u32 == 1u32) == if i == j {
            false
        } else {
            (d >> (j as u32)) & 1u32 == 1u32
        }) by (bit_vector)
            requires
                i < 32 && j < 32,
        ;
    }
}

/// A single-bit write outside a field leaves the field unchanged.
pub proof fn lemma_set_bit32_other_bits(d: u32, i: u8, v: bool, i2: u8, len2: u8)
    requires
        i < 32,
        i2 + len2 <= 32,
        i < i2 || i >= i2 + len2,
    ensures
        spec_get_bits32(spec_set_bit32(d, i, v), i2, len2) == spec_get_bits32(d, i2, len2),
{
    if i2 < 32 {
        let m = mask32(len2);
        if v {
            assert(((d | (1u32 << (i as u32))) >> (i2 as u32)) & m == (d >> (i2 as u32)) & m)
                by (bit_vector)
                requires
                    m == mask32(len2) && i < 32 && i2 < 32 && i2 + len2 <= 32 && (i < i2 || i >= i2
                        + len2),
            ;
        } else {
            assert(((d & !(1u32 << (i as u32))) >> (i2 as u32)) & m == (d >> (i2 as u32)) & m)
                by (bit_vector)
                requires
                    m == mask32(len2) && i < 32 && i2 < 32 && i2 + len2 <= 32 && (i < i2 || i >= i2
                        + len2),
            ;
        }
    }
}

/// Writing a field leaves every disjoint field unchanged.
pub proof fn lemma_set_bits32_other_bits(d: u32, i: u8, len: u8, v: u32, i2: u8, len2: u8)
    requires
        i + len <= 32,
        i2 + len2 <= 32,
        i + len <= i2 || i2 + len2 <= i,
    ensures
        spec_get_bits32(spec_set_bits32(d, i, len, v), i2, len2) == spec_get_bits32(d, i2, len2),
{
    if i < 32 && i2 < 32 {
        let m = mask32(len);
        let m2 = mask32(len2);
        assert((((d & !(m << (i as u32))) | ((v << (i as u32)) & (m << (i as u32)))) >> (i2 as u32))
            & m2 == (d >> (i2 as u32)) & m2) by (bit_vector)
            requires
                m == mask32(len) && m2 == mask32(len2) && i < 32 && i2 < 32 && i + len <= 32 && i2
                    + len2 <= 32 && (i + len <= i2 || i2 + len2 <= i),
        ;
    }
}

/// Reinserting an extracted field leaves the word unchanged.
pub proof fn lemma_extract_insert(w: u32, l: u8, n: u8)
    requires
        l + n <= 32,
    ensures
        spec_set_bits32(w, l, n, spec_get_bits32(w, l, n)) == w,
{
    if l < 32 {
        let m = mask32(n);
        assert(((w & !(m << (l as u32))) | (((((w >> (l as u32)) & m)) << (l as u32)) & (m << (
        l as u32)))) == w) by (bit_vector)
            requires
                m == mask32(n) && l < 32 && l + n <= 32,
        ;
    }
}

/// Sign extension replicates the top bit of the masked field to every
/// bit above it and keeps every bit below it.
pub proof fn lemma_sign_extend_bits(w: u32, n: u8, j: u8)
    requires
        1 <= n <= 32,
        j < 32,
    ensures
        j >= n ==> spec_get_bit(spec_sign_extend32(w & mask32(n), n), j) == spec_get_bit(
            w,
            (n - 1) as u8,
        ),
        j < n ==> spec_get_bit(spec_sign_extend32(w & mask32(n), n), j) == spec_get_bit(w, j),
{
    assert({
        let v = w & mask32(n);
        let r = spec_sign_extend32(v, n);
        &&& (j >= n ==> spec_get_bit(r, j) == spec_get_bit(w, (n - 1) as u8))
        &&& (j < n ==> spec_get_bit(r, j) == spec_get_bit(w, j))
    }) by (bit_vector)
        requires
            1 <= n <= 32 && j < 32,
    ;
}

} // verus!
