//! Scaled integers: signed values counted in thirty-seconds of a world cell.
//!
//! A scaled integer is carried as its raw two's-complement bit pattern. The
//! conversion between a value and its bits is exact in both directions, so a
//! value that crosses the wire comes back unchanged.

use vstd::prelude::*;

verus! {

/// How many raw units make one world cell.
pub const SCALE: u8 = 32;

/// The signed reading of a byte: its two's-complement value.
pub open spec fn signed_of(byte: u8) -> int {
    if byte < 128 {
        byte as int
    } else {
        byte - 256
    }
}

/// The byte whose two's-complement reading is `value`.
pub open spec fn byte_of(value: int) -> int {
    if value >= 0 {
        value
    } else {
        value + 256
    }
}

/// The signed reading of two bytes, most significant first.
pub open spec fn signed_of_pair(high: u8, low: u8) -> int {
    if high < 128 {
        high * 256 + low
    } else {
        high * 256 + low - 65536
    }
}

/// The unsigned reading of two bytes, most significant first.
pub open spec fn unsigned_of_pair(high: u8, low: u8) -> int {
    high * 256 + low
}

/// The high byte of the two's-complement pattern of a 16-bit value.
pub open spec fn high_byte(raw: int) -> int {
    if raw >= 0 {
        raw / 256
    } else {
        (raw + 65536) / 256
    }
}

/// The low byte of the two's-complement pattern of a 16-bit value.
pub open spec fn low_byte(raw: int) -> int {
    if raw >= 0 {
        raw % 256
    } else {
        (raw + 65536) % 256
    }
}

/// Reads a byte as a signed number.
pub fn byte_to_signed(byte: u8) -> (value: i8)
    ensures
        value == signed_of(byte),
{
    if byte < 128 {
        byte as i8
    } else {
        let wide: i16 = byte as i16 - 256;
        wide as i8
    }
}

/// Writes a signed number as a byte.
pub fn signed_to_byte(value: i8) -> (byte: u8)
    ensures
        byte == byte_of(value as int),
        signed_of(byte) == value,
{
    if value >= 0 {
        value as u8
    } else {
        let wide: i16 = value as i16 + 256;
        wide as u8
    }
}

/// Splits an unsigned 16-bit number into its two bytes, most significant first.
pub fn short_to_bytes(value: u16) -> (pair: (u8, u8))
    ensures
        pair.0 == value / 256,
        pair.1 == value % 256,
        unsigned_of_pair(pair.0, pair.1) == value,
{
    ((value / 256) as u8, (value % 256) as u8)
}

/// Joins two bytes, most significant first, into an unsigned 16-bit number.
pub fn short_from_bytes(high: u8, low: u8) -> (value: u16)
    ensures
        value == unsigned_of_pair(high, low),
{
    high as u16 * 256 + low as u16
}

/// An 8-bit scaled integer.
#[derive(Clone, Copy, Debug, PartialEq, Eq, Structural)]
pub struct X8 {
    bits: i8,
}

impl X8 {
    /// The raw bit pattern, as a mathematical integer.
    pub closed spec fn raw(self) -> int {
        self.bits as int
    }

    /// The value with the given raw bit pattern.
    pub closed spec fn of_raw(bits: i8) -> X8 {
        X8 { bits }
    }

    /// The whole cells in this value, rounded towards negative infinity.
    pub open spec fn cells(self) -> int {
        self.raw() / (SCALE as int)
    }

    /// The thirty-seconds of a cell that remain above `cells`.
    pub open spec fn fraction(self) -> int {
        self.raw() % (SCALE as int)
    }

    /// Builds the value that has the given raw bit pattern.
    pub fn from_bits(bits: i8) -> (value: X8)
        ensures
            value == X8::of_raw(bits),
            value.raw() == bits,
    {
        X8 { bits }
    }

    /// The raw bit pattern of this value.
    pub fn to_bits(self) -> (bits: i8)
        ensures
            bits == self.raw(),
            X8::of_raw(bits) == self,
    {
        self.bits
    }

    /// Going to bits and back gives the value it started from, and going from
    /// bits to a value and back gives the same bits.
    pub proof fn lemma_bits_round_trip(value: X8, bits: i8)
        ensures
            X8::of_raw(value.raw() as i8) == value,
            X8::of_raw(bits).raw() == bits,
            -128 <= value.raw() <= 127,
            value.raw() == value.cells() * 32 + value.fraction(),
            0 <= value.fraction() < 32,
    {
    }

    /// Two values with the same raw bits are the same value.
    pub proof fn lemma_raw_is_injective(left: X8, right: X8)
        requires
            left.raw() == right.raw(),
        ensures
            left == right,
    {
    }
}

/// A 16-bit scaled integer.
#[derive(Clone, Copy, Debug, PartialEq, Eq, Structural)]
pub struct X16 {
    bits: i16,
}

impl X16 {
    /// The raw bit pattern, as a mathematical integer.
    pub closed spec fn raw(self) -> int {
        self.bits as int
    }

    /// The value with the given raw bit pattern.
    pub closed spec fn of_raw(bits: i16) -> X16 {
        X16 { bits }
    }

    /// The whole cells in this value, rounded towards negative infinity.
    pub open spec fn cells(self) -> int {
        self.raw() / (SCALE as int)
    }

    /// The thirty-seconds of a cell that remain above `cells`.
    pub open spec fn fraction(self) -> int {
        self.raw() % (SCALE as int)
    }

    /// Builds the value that has the given raw bit pattern.
    pub fn from_bits(bits: i16) -> (value: X16)
        ensures
            value == X16::of_raw(bits),
            value.raw() == bits,
    {
        X16 { bits }
    }

    /// The raw bit pattern of this value.
    pub fn to_bits(self) -> (bits: i16)
        ensures
            bits == self.raw(),
            X16::of_raw(bits) == self,
    {
        self.bits
    }

    /// Builds the value whose bit pattern is the two bytes, most significant
    /// first.
    pub fn from_be_bytes(high: u8, low: u8) -> (value: X16)
        ensures
            value.raw() == signed_of_pair(high, low),
            value == X16::of_raw(signed_of_pair(high, low) as i16),
    {
        let wide: i32 = high as i32 * 256 + low as i32;
        if high < 128 {
            X16 { bits: wide as i16 }
        } else {
            X16 { bits: (wide - 65536) as i16 }
        }
    }

    /// The two bytes of the bit pattern, most significant first.
    pub fn to_be_bytes(self) -> (pair: (u8, u8))
        ensures
            pair.0 == high_byte(self.raw()),
            pair.1 == low_byte(self.raw()),
            signed_of_pair(pair.0, pair.1) == self.raw(),
            X16::of_raw(signed_of_pair(pair.0, pair.1) as i16) == self,
    {
        let wide: i32 = if self.bits >= 0 {
            self.bits as i32
        } else {
            self.bits as i32 + 65536
        };
        ((wide / 256) as u8, (wide % 256) as u8)
    }

    /// Going to bits and back gives the value it started from, and going from
    /// bits to a value and back gives the same bits.
    pub proof fn lemma_bits_round_trip(value: X16, bits: i16)
        ensures
            X16::of_raw(value.raw() as i16) == value,
            X16::of_raw(bits).raw() == bits,
            -32768 <= value.raw() <= 32767,
            value.raw() == value.cells() * 32 + value.fraction(),
            0 <= value.fraction() < 32,
    {
    }

    /// Two values with the same raw bits are the same value.
    pub proof fn lemma_raw_is_injective(left: X16, right: X16)
        requires
            left.raw() == right.raw(),
        ensures
            left == right,
    {
    }
}

/// A scaled integer is its own model.
impl View for X8 {
    type V = X8;

    open spec fn view(&self) -> X8 {
        *self
    }
}

/// A scaled integer is its own model.
impl View for X16 {
    type V = X16;

    open spec fn view(&self) -> X16 {
        *self
    }
}

} // verus!
