//! Bit-field access on bytes and 16-bit words.
//!
//! The contracts speak of bit fields arithmetically: bit `i` of `v` is the
//! parity of `v / 2^i`, and the field `lo..hi` is `(v / 2^lo) mod 2^(hi-lo)`.

use bit_field::BitField;
use vstd::prelude::*;

verus! {

/// `2^i` for the exponents that occur in 16-bit words.
pub open spec fn two_pow(i: int) -> int {
    if i <= 0 {
        1
    } else if i == 1 {
        2
    } else if i == 2 {
        4
    } else if i == 3 {
        8
    } else if i == 4 {
        16
    } else if i == 5 {
        32
    } else if i == 6 {
        64
    } else if i == 7 {
        128
    } else if i == 8 {
        256
    } else if i == 9 {
        512
    } else if i == 10 {
        1024
    } else if i == 11 {
        2048
    } else if i == 12 {
        4096
    } else if i == 13 {
        8192
    } else if i == 14 {
        16384
    } else if i == 15 {
        32768
    } else {
        65536
    }
}

/// Whether bit `i` of `v` is set; bit 0 is the least significant.
pub open spec fn bit_at(v: int, i: int) -> bool {
    (v / two_pow(i)) % 2 == 1
}

/// The value of the bits `lo..hi` of `v`, moved down to bit 0.
pub open spec fn bits_at(v: int, lo: int, hi: int) -> int {
    (v / two_pow(lo)) % two_pow(hi - lo)
}

/// `v` with bit `i` replaced by `b`.
pub open spec fn with_bit(v: int, i: int, b: bool) -> int {
    v - (if bit_at(v, i) { two_pow(i) } else { 0 }) + (if b { two_pow(i) } else { 0 })
}

/// `v` with the bits `lo..hi` replaced by `x`.
pub open spec fn with_bits(v: int, lo: int, hi: int, x: int) -> int {
    v - bits_at(v, lo, hi) * two_pow(lo) + x * two_pow(lo)
}

/// The byte whose bit `i` is bit `7 - i` of `v`.
pub open spec fn reversed8(v: int) -> int {
    (if bit_at(v, 0) { 128int } else { 0 })
    + (if bit_at(v, 1) { 64int } else { 0 })
    + (if bit_at(v, 2) { 32int } else { 0 })
    + (if bit_at(v, 3) { 16int } else { 0 })
    + (if bit_at(v, 4) { 8int } else { 0 })
    + (if bit_at(v, 5) { 4int } else { 0 })
    + (if bit_at(v, 6) { 2int } else { 0 })
    + (if bit_at(v, 7) { 1int } else { 0 })
}

/// `BitField::get_bit` on a byte: the bit at index `bit`, counted from the
/// least significant end. The crate panics on an index of 8 or more.
#[verifier::external_body]
pub(crate) fn get_bit_u8(v: u8, bit: usize) -> (r: bool)
    requires
        bit < 8,
    ensures
        r == bit_at(v as int, bit as int),
{
    v.get_bit(bit)
}

/// `BitField::get_bit` on a 16-bit word: the bit at index `bit`, counted from
/// the least significant end. The crate panics on an index of 16 or more.
#[verifier::external_body]
pub(crate) fn get_bit_u16(v: u16, bit: usize) -> (r: bool)
    requires
        bit < 16,
    ensures
        r == bit_at(v as int, bit as int),
{
    v.get_bit(bit)
}

/// `BitField::get_bits` on a byte with the range `lo..hi`: the bits of that
/// range, shifted down so that bit `lo` lands on bit 0. The crate panics
/// unless `lo < 8`, `hi <= 8` and `lo <= hi`.
#[verifier::external_body]
pub(crate) fn get_bits_u8(v: u8, lo: usize, hi: usize) -> (r: u8)
    requires
        lo < 8,
        hi <= 8,
        lo <= hi,
    ensures
        r == bits_at(v as int, lo as int, hi as int),
{
    v.get_bits(lo..hi)
}

/// `BitField::get_bits` on a 16-bit word with the range `lo..hi`: the bits of
/// that range, shifted down so that bit `lo` lands on bit 0. The crate panics
/// unless `lo < 16`, `hi <= 16` and `lo <= hi`.
#[verifier::external_body]
pub(crate) fn get_bits_u16(v: u16, lo: usize, hi: usize) -> (r: u16)
    requires
        lo < 16,
        hi <= 16,
        lo <= hi,
    ensures
        r == bits_at(v as int, lo as int, hi as int),
{
    v.get_bits(lo..hi)
}

/// `BitField::set_bit` on a byte: the byte with bit `bit` set to `value` and
/// every other bit kept. The crate panics on an index of 8 or more.
#[verifier::external_body]
pub(crate) fn set_bit_u8(v: u8, bit: usize, value: bool) -> (r: u8)
    requires
        bit < 8,
    ensures
        r == with_bit(v as int, bit as int, value),
{
    let mut out = v;
    out.set_bit(bit, value);
    out
}

/// `BitField::set_bit` on a 16-bit word: the word with bit `bit` set to
/// `value` and every other bit kept. The crate panics on an index of 16 or
/// more.
#[verifier::external_body]
pub(crate) fn set_bit_u16(v: u16, bit: usize, value: bool) -> (r: u16)
    requires
        bit < 16,
    ensures
        r == with_bit(v as int, bit as int, value),
{
    let mut out = v;
    out.set_bit(bit, value);
    out
}

/// `BitField::set_bits` on a 16-bit word with the range `lo..hi`: the word
/// with those bits replaced by `value` and every other bit kept. The crate
/// panics unless `lo < 16`, `hi <= 16`, `lo <= hi` and `value` fits in
/// `hi - lo` bits.
#[verifier::external_body]
pub(crate) fn set_bits_u16(v: u16, lo: usize, hi: usize, value: u16) -> (r: u16)
    requires
        lo < 16,
        hi <= 16,
        lo <= hi,
        value < two_pow(hi - lo),
    ensures
        r == with_bits(v as int, lo as int, hi as int, value as int),
{
    let mut out = v;
    out.set_bits(lo..hi, value);
    out
}

/// `u8::reverse_bits`: the byte read from the other end, so that the least
/// significant bit becomes the most significant.
pub assume_specification[ u8::reverse_bits ](v: u8) -> (r: u8)
    ensures
        r == reversed8(v as int),
;

} // verus!
