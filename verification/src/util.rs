//! Bit-field primitives on 32-bit words.
//!
//! Bit 0 is the least significant bit. A field `(at, width)` is the `width`
//! bits whose lowest bit is bit `at`.

use vstd::arithmetic::power2::{
    lemma2_to64, lemma_pow2_adds, lemma_pow2_pos, lemma_pow2_strictly_increases,
    lemma_pow2_unfold, pow2,
};
use vstd::arithmetic::div_mod::lemma_mod_multiples_vanish;
use vstd::bits::{
    lemma_u32_low_bits_mask_is_mod, lemma_u32_shr_is_div, lemma_u64_shl_is_mul,
    lemma_u8_low_bits_mask_is_mod, lemma_u8_shl_is_mul, lemma_u8_shr_is_div, low_bits_mask,
};
use vstd::prelude::*;

verus! {

/// The value of the field `(at, width)` of `word`: the quotient of `word` by
/// `2^at`, reduced modulo `2^width`.
pub open spec fn spec_field32(word: u32, at: nat, width: nat) -> nat {
    (word as nat / pow2(at)) % pow2(width)
}

/// Whether bit `at` of `word` is set.
pub open spec fn spec_flag32(word: u32, at: nat) -> bool {
    spec_field32(word, at, 1) != 0
}

/// The word whose bits `at .. at + width` are set, as far as they lie below
/// bit 32, and whose other bits are clear: `(2^width - 1) * 2^at`, reduced
/// modulo `2^32`.
pub open spec fn spec_bitmask_32(at: nat, width: nat) -> nat {
    (((pow2(width) - 1) * pow2(at)) % 0x1_0000_0000) as nat
}

/// The low 24 bits of `val` read as a two's complement number: bit 23 is the
/// sign, and bits 31..24 of `val` do not count.
pub open spec fn spec_sext24(val: u32) -> int {
    spec_field32(val, 0, 24) - (if spec_flag32(val, 23) {
        0x100_0000int
    } else {
        0
    })
}

/// Whether bit `at` of `byte` is set.
pub open spec fn spec_flag8(byte: u8, at: nat) -> bool {
    (byte as nat / pow2(at)) % 2 == 1
}

/// The value of `byte` once bit `at` is made equal to `value`: unchanged if
/// the bit already agrees, otherwise `2^at` more or less.
pub open spec fn spec_with_flag8(byte: u8, at: nat, value: bool) -> int {
    if spec_flag8(byte, at) == value {
        byte as int
    } else if value {
        byte + pow2(at)
    } else {
        byte - pow2(at)
    }
}

/// A field is smaller than two to the power of its width.
pub proof fn lemma_field32_bound(word: u32, at: nat, width: nat)
    ensures
        spec_field32(word, at, width) < pow2(width),
{
    lemma_pow2_pos(width);
}

/// A mask that ends at or below bit 32 loses no bit.
pub proof fn lemma_bitmask_32_bound(at: nat, width: nat)
    requires
        at + width <= 32,
    ensures
        spec_bitmask_32(at, width) == pow2(at + width) - pow2(at),
        spec_bitmask_32(at, width) <= u32::MAX,
{
    lemma_pow2_adds(width, at);
    lemma_pow2_pos(at);
    lemma_pow2_pos(width);
    lemma2_to64();
    if at + width < 32 {
        lemma_pow2_strictly_increases(at + width, 32);
    }
    assert((pow2(width) - 1) * pow2(at) == pow2(width) * pow2(at) - pow2(at))
        by (nonlinear_arith);
    assert(0 <= (pow2(width) - 1) * pow2(at)) by (nonlinear_arith)
        requires
            pow2(width) >= 1,
            pow2(at) >= 1,
    ;
}

/// A mask wider than a word is the mask of 32 bits: what lies at or above bit
/// 32 is lost.
pub proof fn lemma_bitmask_32_wide(at: nat, width: nat)
    requires
        width >= 32,
    ensures
        spec_bitmask_32(at, width) == spec_bitmask_32(at, 32),
{
    let rest = (width - 32) as nat;
    lemma_pow2_adds(32, rest);
    lemma_pow2_pos(rest);
    lemma_pow2_pos(at);
    lemma2_to64();
    let lost = (pow2(rest) - 1) * pow2(at);
    let kept = (pow2(32) - 1) * pow2(at);
    assert((pow2(width) - 1) * pow2(at) == 0x1_0000_0000 * lost + kept) by (nonlinear_arith)
        requires
            pow2(width) == pow2(32) * pow2(rest),
            pow2(32) == 0x1_0000_0000,
            lost == (pow2(rest) - 1) * pow2(at),
            kept == (pow2(32) - 1) * pow2(at),
    ;
    lemma_mod_multiples_vanish(lost, kept, 0x1_0000_0000);
}

/// Sign-extends a 24-bit value: bit 23 of `val` is taken as the sign and
/// fills bits 31..24 of the result, whose bits 23..0 are those of `val`.
///
/// A value of 24 bits comes out as the two's complement number it encodes.
pub fn sext24(val: u32) -> (r: i32)
    ensures
        r == spec_sext24(val),
        val < 0x80_0000 ==> r == val,
        0x80_0000 <= val < 0x100_0000 ==> r == val - 0x100_0000,
        -0x80_0000 <= r < 0x80_0000,
        spec_field32(r as u32, 0, 24) == spec_field32(val, 0, 24),
        spec_field32(r as u32, 24, 8) == (if spec_flag32(val, 23) {
            0xFFnat
        } else {
            0
        }),
{
    let sign = val & (1 << 23) != 0;
    proof {
        lemma2_to64();
        lemma_u32_shr_is_div(val, 23);
        lemma_u32_low_bits_mask_is_mod(val >> 23, 1);
        lemma_u32_low_bits_mask_is_mod(val, 24);
        assert(low_bits_mask(1) == 1 && low_bits_mask(24) == 0xff_ffff);
        assert((val & (1u32 << 23) != 0) == ((val >> 23) & 1 != 0)) by (bit_vector);
        assert(val < 0x100_0000u32 ==> (val & 0xff_ffff) == val && ((val & (1u32 << 23) != 0)
            <==> 0x80_0000u32 <= val)) by (bit_vector);
        assert((val & 0xff_ffff) <= 0xff_ffff && ((val & (1u32 << 23) != 0) <==> 0x80_0000u32
            <= (val & 0xff_ffff))) by (bit_vector);
    }
    if sign {
        let r = #[verifier::truncate] ((val | 0xFF000000) as i32);
        proof {
            assert(r == (val & 0xff_ffff) - 0x100_0000 && r as u32 == (val | 0xFF000000))
                by (bit_vector)
                requires
                    r == (val | 0xFF000000) as i32,
            ;
            lemma_high_byte(r as u32, val);
        }
        r
    } else {
        let r = (val & 0x00FF_FFFF) as i32;
        proof {
            assert(r as u32 == (val & 0x00FF_FFFF)) by (bit_vector)
                requires
                    r == (val & 0x00FF_FFFF),
            ;
            lemma_high_byte(r as u32, val);
        }
        r
    }
}

/// The low 24 bits and the high byte of a word whose high byte was filled or
/// cleared.
proof fn lemma_high_byte(word: u32, val: u32)
    requires
        word == (val | 0xFF000000) || word == (val & 0x00FF_FFFF),
    ensures
        spec_field32(word, 0, 24) == spec_field32(val, 0, 24),
        spec_field32(word, 24, 8) == (if word == (val | 0xFF000000) {
            0xFFnat
        } else {
            0
        }),
{
    lemma2_to64();
    lemma_u32_low_bits_mask_is_mod(word, 24);
    lemma_u32_low_bits_mask_is_mod(val, 24);
    lemma_u32_shr_is_div(word, 24);
    assert(low_bits_mask(24) == 0xff_ffff);
    assert(word == (val | 0xFF000000) ==> (word & 0xff_ffff) == (val & 0xff_ffff) && (word >> 24)
        == 0xFF && word != (val & 0x00FF_FFFF)) by (bit_vector);
    assert(word == (val & 0x00FF_FFFF) ==> (word & 0xff_ffff) == (val & 0xff_ffff) && (word >> 24)
        == 0) by (bit_vector);
}

/// The mask with `width` set bits starting at bit `at`. Bits that would lie
/// at or above bit 32 are lost.
pub fn bitmask_32(at: u32, width: u32) -> (mask: u32)
    requires
        at < 32,
    ensures
        mask == spec_bitmask_32(at as nat, width as nat),
{
    let mut mask: u32 = 0;
    let mut i: u32 = 0;

    proof {
        lemma2_to64();
    }
    while i < width
        invariant
            i <= width,
            i <= 32 ==> mask == pow2(i as nat) - 1,
            i > 32 ==> mask == 0xFFFF_FFFF,
        decreases width - i,
    {
        proof {
            lemma2_to64();
            if i < 32 {
                lemma_pow2_unfold((i + 1) as nat);
            }
            if i < 31 {
                lemma_pow2_strictly_increases(i as nat, 31);
            }
            let m = mask;
            assert(m < 0x8000_0000u32 ==> (m << 1) | 1 == 2 * m + 1) by (bit_vector);
            assert(m == 0xFFFF_FFFFu32 ==> (m << 1) | 1 == m) by (bit_vector);
        }
        mask <<= 1;
        mask |= 1;
        i += 1;
    }

    proof {
        let ones: nat = if width <= 32 {
            width as nat
        } else {
            32
        };
        lemma2_to64();
        assert(mask == pow2(ones) - 1);
        let place = at as u64;
        let wide = mask as u64;
        assert((mask << at) == (wide * (1u64 << place)) % 0x1_0000_0000) by (bit_vector)
            requires
                at < 32,
                place == at as u64,
                wide == mask as u64,
        ;
        lemma_pow2_strictly_increases(at as nat, 32);
        lemma_u64_shl_is_mul(1, place);
        assert((mask << at) == spec_bitmask_32(at as nat, ones));
        if width > 32 {
            lemma_bitmask_32_wide(at as nat, width as nat);
        }
    }
    mask << at
}

/// The field `(at, width)` of `word`.
pub fn get_field32(word: u32, at: u32, width: u32) -> (value: u32)
    requires
        at + width <= 32,
    ensures
        value == spec_field32(word, at as nat, width as nat),
        value < pow2(width as nat),
{
    let mask = bitmask_32(0, width);
    proof {
        lemma2_to64();
        lemma_pow2_pos(width as nat);
        lemma_bitmask_32_bound(0, width as nat);
        assert(mask == pow2(width as nat) - 1);
    }
    if at >= 32 {
        0
    } else {
        proof {
            let shifted = word >> at;
            lemma_u32_shr_is_div(word, at);
            assert(shifted == word as nat / pow2(at as nat));
            if width < 32 {
                lemma_pow2_strictly_increases(width as nat, 32);
                lemma_u32_low_bits_mask_is_mod(shifted, width as nat);
                assert(mask == low_bits_mask(width as nat) as u32);
                assert(shifted & mask == shifted % (pow2(width as nat) as u32));
            } else {
                assert(shifted & 0xffff_ffff == shifted) by (bit_vector);
                assert(shifted as nat % pow2(32) == shifted);
            }
        }
        (word >> at) & mask
    }
}

/// Bit `at` of `word`.
pub fn get_flag32(word: u32, at: u32) -> (set: bool)
    requires
        at < 32,
    ensures
        set == spec_flag32(word, at as nat),
{
    get_field32(word, at, 1) != 0
}

/// Bit `at` of a byte, read by a shift and a mask.
proof fn lemma_flag8_shift(byte: u8, at: u8)
    requires
        at < 8,
    ensures
        spec_flag8(byte, at as nat) == ((byte >> at) & 1 != 0),
        (byte >> at) & 1 <= 1,
{
    lemma2_to64();
    lemma_u8_shr_is_div(byte, at);
    lemma_u8_low_bits_mask_is_mod(byte >> at, 1);
    assert(low_bits_mask(1) == 1);
}

/// Bit `at` of `byte`.
pub fn get_flag8(byte: u8, at: u8) -> (set: bool)
    requires
        at < 8,
    ensures
        set == spec_flag8(byte, at as nat),
{
    proof {
        lemma_flag8_shift(byte, at);
    }
    (byte >> at) & 1 != 0
}

/// `byte` with bit `at` made equal to `value`. No other bit changes.
pub fn with_flag8(byte: u8, at: u8, value: bool) -> (r: u8)
    requires
        at < 8,
    ensures
        r == spec_with_flag8(byte, at as nat, value),
        forall|k: nat|
            k < 8 ==> #[trigger] spec_flag8(r, k) == (if k == at {
                value
            } else {
                spec_flag8(byte, k)
            }),
{
    let bit: u8 = if value {
        1
    } else {
        0
    };
    proof {
        lemma_with_flag8_masked(byte, at, value);
        lemma_with_flag8(byte, at as nat, value);
    }
    (byte & !(1u8 << at)) | (bit << at)
}

/// Setting a bit by clearing its place and putting the new bit there.
proof fn lemma_with_flag8_masked(byte: u8, at: u8, value: bool)
    requires
        at < 8,
    ensures
        spec_with_flag8(byte, at as nat, value) == (byte & !(1u8 << at)) | ((if value {
            1u8
        } else {
            0u8
        }) << at),
{
    let bit: u8 = if value {
        1
    } else {
        0
    };
    let r: u8 = (byte & !(1u8 << at)) | (bit << at);
    lemma2_to64();
    lemma_u8_shl_is_mul(1, at);
    lemma_flag8_shift(byte, at);
    assert(bit <= 1 && at < 8 && r == (byte & !(1u8 << at)) | (bit << at) ==> {
        &&& ((byte >> at) & 1 == bit ==> r == byte)
        &&& ((byte >> at) & 1 == 0 && bit == 1 ==> r == byte + (1u8 << at))
        &&& ((byte >> at) & 1 == 1 && bit == 0 ==> r == byte - (1u8 << at))
    }) by (bit_vector);
}

/// Setting bit `at` gives a byte whose bit `at` is the new value and whose
/// other bits are those of the old byte.
pub proof fn lemma_with_flag8(byte: u8, at: nat, value: bool)
    requires
        at < 8,
    ensures
        0 <= spec_with_flag8(byte, at, value) <= u8::MAX,
        forall|k: nat|
            k < 8 ==> #[trigger] spec_flag8(spec_with_flag8(byte, at, value) as u8, k) == (if k
                == at {
                value
            } else {
                spec_flag8(byte, k)
            }),
{
    let place = at as u8;
    let bit: u8 = if value {
        1
    } else {
        0
    };
    let r: u8 = (byte & !(1u8 << place)) | (bit << place);
    lemma_with_flag8_masked(byte, place, value);
    assert forall|k: nat| k < 8 implies #[trigger] spec_flag8(r, k) == (if k == at {
        value
    } else {
        spec_flag8(byte, k)
    }) by {
        let j = k as u8;
        lemma_flag8_shift(byte, j);
        lemma_flag8_shift(r, j);
        assert(bit <= 1 && place < 8 && j < 8 && r == (byte & !(1u8 << place)) | (bit << place)
            ==> (r >> j) & 1 == (if j == place {
            bit
        } else {
            (byte >> j) & 1
        })) by (bit_vector);
    }
}

/// A byte is determined by its eight bits.
pub proof fn lemma_flags8_determine(a: u8, b: u8)
    requires
        forall|k: nat| k < 8 ==> spec_flag8(a, k) == spec_flag8(b, k),
    ensures
        a == b,
{
    lemma2_to64();
    assert(spec_flag8(a, 0) == spec_flag8(b, 0));
    assert(spec_flag8(a, 1) == spec_flag8(b, 1));
    assert(spec_flag8(a, 2) == spec_flag8(b, 2));
    assert(spec_flag8(a, 3) == spec_flag8(b, 3));
    assert(spec_flag8(a, 4) == spec_flag8(b, 4));
    assert(spec_flag8(a, 5) == spec_flag8(b, 5));
    assert(spec_flag8(a, 6) == spec_flag8(b, 6));
    assert(spec_flag8(a, 7) == spec_flag8(b, 7));
    assert(a == b) by (bit_vector)
        requires
            (a / 1) % 2 == (b / 1) % 2,
            (a / 2) % 2 == (b / 2) % 2,
            (a / 4) % 2 == (b / 4) % 2,
            (a / 8) % 2 == (b / 8) % 2,
            (a / 16) % 2 == (b / 16) % 2,
            (a / 32) % 2 == (b / 32) % 2,
            (a / 64) % 2 == (b / 64) % 2,
            (a / 128) % 2 == (b / 128) % 2,
    ;
}

/// Bits at two different places can be set in either order.
pub proof fn lemma_with_flag8_commutes(byte: u8, i: nat, j: nat, a: bool, b: bool)
    requires
        i < 8,
        j < 8,
        i != j,
    ensures
        spec_with_flag8(spec_with_flag8(byte, i, a) as u8, j, b) == spec_with_flag8(
            spec_with_flag8(byte, j, b) as u8,
            i,
            a,
        ),
{
    let first = spec_with_flag8(byte, i, a) as u8;
    let second = spec_with_flag8(byte, j, b) as u8;
    lemma_with_flag8(byte, i, a);
    lemma_with_flag8(byte, j, b);
    lemma_with_flag8(first, j, b);
    lemma_with_flag8(second, i, a);
    lemma_flags8_determine(
        spec_with_flag8(first, j, b) as u8,
        spec_with_flag8(second, i, a) as u8,
    );
}

} // verus!
