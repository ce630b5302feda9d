//! How the unsigned integers are laid out as bytes.
//!
//! An integer of `n` bytes is a number of `n` digits in base 256. Written
//! little-endian, the digit of least weight comes first; written big-endian,
//! it comes last.

use vstd::prelude::*;

verus! {

/// The base-256 digit of `value` whose weight is `place`, a power of 256.
pub open spec fn digit(value: int, place: int) -> u8 {
    (value / place % 0x100) as u8
}

/// The two bytes of `value`, least significant first.
pub open spec fn u16_le_bytes(value: u16) -> Seq<u8> {
    seq![digit(value as int, 0x1), digit(value as int, 0x100)]
}

/// The two bytes of `value`, most significant first.
pub open spec fn u16_be_bytes(value: u16) -> Seq<u8> {
    seq![digit(value as int, 0x100), digit(value as int, 0x1)]
}

/// The four bytes of `value`, least significant first.
pub open spec fn u32_le_bytes(value: u32) -> Seq<u8> {
    seq![
        digit(value as int, 0x1),
        digit(value as int, 0x100),
        digit(value as int, 0x1_0000),
        digit(value as int, 0x100_0000),
    ]
}

/// The four bytes of `value`, most significant first.
pub open spec fn u32_be_bytes(value: u32) -> Seq<u8> {
    seq![
        digit(value as int, 0x100_0000),
        digit(value as int, 0x1_0000),
        digit(value as int, 0x100),
        digit(value as int, 0x1),
    ]
}

/// The eight bytes of `value`, least significant first.
pub open spec fn u64_le_bytes(value: u64) -> Seq<u8> {
    seq![
        digit(value as int, 0x1),
        digit(value as int, 0x100),
        digit(value as int, 0x1_0000),
        digit(value as int, 0x100_0000),
        digit(value as int, 0x1_0000_0000),
        digit(value as int, 0x100_0000_0000),
        digit(value as int, 0x1_0000_0000_0000),
        digit(value as int, 0x100_0000_0000_0000),
    ]
}

/// The eight bytes of `value`, most significant first.
pub open spec fn u64_be_bytes(value: u64) -> Seq<u8> {
    seq![
        digit(value as int, 0x100_0000_0000_0000),
        digit(value as int, 0x1_0000_0000_0000),
        digit(value as int, 0x100_0000_0000),
        digit(value as int, 0x1_0000_0000),
        digit(value as int, 0x100_0000),
        digit(value as int, 0x1_0000),
        digit(value as int, 0x100),
        digit(value as int, 0x1),
    ]
}

/// The bytes of `value` in the byte order that `le` asks for.
pub open spec fn u16_bytes(value: u16, le: bool) -> Seq<u8> {
    if le {
        u16_le_bytes(value)
    } else {
        u16_be_bytes(value)
    }
}

/// The bytes of `value` in the byte order that `le` asks for.
pub open spec fn u32_bytes(value: u32, le: bool) -> Seq<u8> {
    if le {
        u32_le_bytes(value)
    } else {
        u32_be_bytes(value)
    }
}

/// The bytes of `value` in the byte order that `le` asks for.
pub open spec fn u64_bytes(value: u64, le: bool) -> Seq<u8> {
    if le {
        u64_le_bytes(value)
    } else {
        u64_be_bytes(value)
    }
}

} // verus!
