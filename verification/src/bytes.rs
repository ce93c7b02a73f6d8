//! The wire format of a tick count: eight bytes, a signed 64-bit integer in
//! two's complement, least significant byte first.

use vstd::prelude::*;
use vstd::arithmetic::div_mod::{lemma_hoist_over_denominator, lemma_mod_multiples_vanish};
use crate::error::FileTimeError;
use crate::ticks::{checked_split, split_ticks, FileTimeView};

verus! {

/// The unsigned number that eight bytes spell, least significant byte first.
pub open spec fn le_unsigned(bytes: Seq<u8>) -> int
    recommends
        bytes.len() == 8,
{
    bytes[0] as int + bytes[1] as int * 0x100 + bytes[2] as int * 0x1_0000 + bytes[3] as int
        * 0x100_0000 + bytes[4] as int * 0x1_0000_0000 + bytes[5] as int * 0x100_0000_0000
        + bytes[6] as int * 0x1_0000_0000_0000 + bytes[7] as int * 0x100_0000_0000_0000
}

/// The signed number that eight bytes spell in two's complement.
pub open spec fn le_signed(bytes: Seq<u8>) -> int
    recommends
        bytes.len() == 8,
{
    if le_unsigned(bytes) >= 0x8000_0000_0000_0000 {
        le_unsigned(bytes) - 0x1_0000_0000_0000_0000
    } else {
        le_unsigned(bytes)
    }
}

/// Byte `index` of a number in two's complement, counted from the least
/// significant one.
pub open spec fn le_byte(value: int, index: int) -> u8
    recommends
        0 <= index < 8,
{
    if index == 0 {
        (value % 0x100) as u8
    } else if index == 1 {
        (value / 0x100 % 0x100) as u8
    } else if index == 2 {
        (value / 0x1_0000 % 0x100) as u8
    } else if index == 3 {
        (value / 0x100_0000 % 0x100) as u8
    } else if index == 4 {
        (value / 0x1_0000_0000 % 0x100) as u8
    } else if index == 5 {
        (value / 0x100_0000_0000 % 0x100) as u8
    } else if index == 6 {
        (value / 0x1_0000_0000_0000 % 0x100) as u8
    } else {
        (value / 0x100_0000_0000_0000 % 0x100) as u8
    }
}

/// The eight bytes of a signed 64-bit number, least significant byte first.
pub open spec fn le_bytes(value: int) -> Seq<u8> {
    Seq::new(8, |index: int| le_byte(value, index))
}

/// Reads a signed 64-bit integer from its eight little-endian bytes.
pub fn i64_from_le_bytes(bytes: [u8; 8]) -> (value: i64)
    ensures
        value == le_signed(bytes@),
{
    let low: u64 = bytes[0] as u64 + bytes[1] as u64 * 0x100 + bytes[2] as u64 * 0x1_0000
        + bytes[3] as u64 * 0x100_0000 + bytes[4] as u64 * 0x1_0000_0000 + bytes[5] as u64
        * 0x100_0000_0000 + bytes[6] as u64 * 0x1_0000_0000_0000;
    let top: u8 = bytes[7];
    if top >= 0x80 {
        let rest: i64 = ((top - 0x80) as u64 * 0x100_0000_0000_0000 + low) as i64;
        rest + i64::MIN
    } else {
        (top as u64 * 0x100_0000_0000_0000 + low) as i64
    }
}

/// Writes a signed 64-bit integer as its eight little-endian bytes.
pub fn i64_to_le_bytes(value: i64) -> (bytes: [u8; 8])
    ensures
        bytes@ == le_bytes(value as int),
{
    let unsigned: u64 = if value < 0 {
        (value - i64::MIN) as u64 + 0x8000_0000_0000_0000
    } else {
        value as u64
    };
    let bytes: [u8; 8] = [
        (unsigned % 0x100) as u8,
        (unsigned / 0x100 % 0x100) as u8,
        (unsigned / 0x1_0000 % 0x100) as u8,
        (unsigned / 0x100_0000 % 0x100) as u8,
        (unsigned / 0x1_0000_0000 % 0x100) as u8,
        (unsigned / 0x100_0000_0000 % 0x100) as u8,
        (unsigned / 0x1_0000_0000_0000 % 0x100) as u8,
        (unsigned / 0x100_0000_0000_0000 % 0x100) as u8,
    ];
    proof {
        if value < 0 {
            lemma_bytes_ignore_modulus(value as int);
        }
        assert(bytes@ =~= le_bytes(unsigned as int));
    }
    bytes
}

/// Adding a multiple of `256 * unit` to a number leaves the byte at
/// `unit` as it was.
proof fn lemma_byte_ignores_multiple(value: int, unit: int, count: int)
    requires
        unit > 0,
    ensures
        (value + count * 0x100 * unit) / unit % 0x100 == value / unit % 0x100,
{
    let up = value + count * 0x100 * unit;
    assert(up == value + (count * 0x100) * unit) by (nonlinear_arith)
        requires
            up == value + count * 0x100 * unit,
    ;
    lemma_hoist_over_denominator(value, count * 0x100, unit as nat);
    lemma_mod_multiples_vanish(count, value / unit, 0x100);
}

/// A number and the number plus 2^64 have the same eight low bytes.
proof fn lemma_bytes_ignore_modulus(value: int)
    ensures
        le_bytes(value + 0x1_0000_0000_0000_0000) == le_bytes(value),
{
    let up = value + 0x1_0000_0000_0000_0000;
    lemma_byte_ignores_multiple(value, 1, 0x100_0000_0000_0000);
    lemma_byte_ignores_multiple(value, 0x100, 0x1_0000_0000_0000);
    lemma_byte_ignores_multiple(value, 0x1_0000, 0x100_0000_0000);
    lemma_byte_ignores_multiple(value, 0x100_0000, 0x1_0000_0000);
    lemma_byte_ignores_multiple(value, 0x1_0000_0000, 0x100_0000);
    lemma_byte_ignores_multiple(value, 0x100_0000_0000, 0x1_0000);
    lemma_byte_ignores_multiple(value, 0x1_0000_0000_0000, 0x100);
    lemma_byte_ignores_multiple(value, 0x100_0000_0000_0000, 1);
    assert(le_byte(up, 0) == le_byte(value, 0));
    assert(le_byte(up, 1) == le_byte(value, 1));
    assert(le_byte(up, 2) == le_byte(value, 2));
    assert(le_byte(up, 3) == le_byte(value, 3));
    assert(le_byte(up, 4) == le_byte(value, 4));
    assert(le_byte(up, 5) == le_byte(value, 5));
    assert(le_byte(up, 6) == le_byte(value, 6));
    assert(le_byte(up, 7) == le_byte(value, 7));
    assert(le_bytes(up) =~= le_bytes(value));
}

/// The bytes of a number below 2^64 spell that number.
proof fn lemma_bytes_spell_unsigned(value: int)
    requires
        0 <= value < 0x1_0000_0000_0000_0000,
    ensures
        le_unsigned(le_bytes(value)) == value,
{
    let q1 = value / 0x100;
    let q2 = value / 0x1_0000;
    let q3 = value / 0x100_0000;
    let q4 = value / 0x1_0000_0000;
    let q5 = value / 0x100_0000_0000;
    let q6 = value / 0x1_0000_0000_0000;
    let q7 = value / 0x100_0000_0000_0000;
    assert(q2 == q1 / 0x100);
    assert(q3 == q2 / 0x100);
    assert(q4 == q3 / 0x100);
    assert(q5 == q4 / 0x100);
    assert(q6 == q5 / 0x100);
    assert(q7 == q6 / 0x100);
    assert(q7 < 0x100);
    let bytes = le_bytes(value);
    assert(bytes[0] == value % 0x100);
    assert(bytes[1] == q1 % 0x100);
    assert(bytes[2] == q2 % 0x100);
    assert(bytes[3] == q3 % 0x100);
    assert(bytes[4] == q4 % 0x100);
    assert(bytes[5] == q5 % 0x100);
    assert(bytes[6] == q6 % 0x100);
    assert(bytes[7] == q7);
}

/// The number that eight bytes spell has those bytes.
proof fn lemma_unsigned_has_bytes(bytes: Seq<u8>)
    requires
        bytes.len() == 8,
    ensures
        0 <= le_unsigned(bytes) < 0x1_0000_0000_0000_0000,
        le_bytes(le_unsigned(bytes)) == bytes,
{
    let value = le_unsigned(bytes);
    let t7 = bytes[7] as int;
    let t6 = bytes[6] as int + t7 * 0x100;
    let t5 = bytes[5] as int + t6 * 0x100;
    let t4 = bytes[4] as int + t5 * 0x100;
    let t3 = bytes[3] as int + t4 * 0x100;
    let t2 = bytes[2] as int + t3 * 0x100;
    let t1 = bytes[1] as int + t2 * 0x100;
    assert(value == bytes[0] as int + t1 * 0x100);
    assert(value / 0x100 == t1);
    assert(value / 0x1_0000 == t2);
    assert(value / 0x100_0000 == t3);
    assert(value / 0x1_0000_0000 == t4);
    assert(value / 0x100_0000_0000 == t5);
    assert(value / 0x1_0000_0000_0000 == t6);
    assert(value / 0x100_0000_0000_0000 == t7);
    assert(le_byte(value, 0) == bytes[0]);
    assert(le_byte(value, 1) == bytes[1]);
    assert(le_byte(value, 2) == bytes[2]);
    assert(le_byte(value, 3) == bytes[3]);
    assert(le_byte(value, 4) == bytes[4]);
    assert(le_byte(value, 5) == bytes[5]);
    assert(le_byte(value, 6) == bytes[6]);
    assert(le_byte(value, 7) == bytes[7]);
    assert(le_bytes(value) =~= bytes);
}

/// Writing a number and reading the bytes gives the number back.
pub proof fn lemma_write_then_read(value: int)
    requires
        i64::MIN <= value <= i64::MAX,
    ensures
        le_bytes(value).len() == 8,
        le_signed(le_bytes(value)) == value,
{
    if value < 0 {
        lemma_bytes_ignore_modulus(value);
        lemma_bytes_spell_unsigned(value + 0x1_0000_0000_0000_0000);
    } else {
        lemma_bytes_spell_unsigned(value);
    }
}

/// Reading eight bytes and writing the number gives the bytes back.
pub proof fn lemma_read_then_write(bytes: Seq<u8>)
    requires
        bytes.len() == 8,
    ensures
        i64::MIN <= le_signed(bytes) <= i64::MAX,
        le_bytes(le_signed(bytes)) == bytes,
{
    lemma_unsigned_has_bytes(bytes);
    if le_unsigned(bytes) >= 0x8000_0000_0000_0000 {
        lemma_bytes_ignore_modulus(le_signed(bytes));
    }
}

/// Eight bytes that spell a number that is not negative are never refused
/// as a tick count, and the ticks of the parts are written as those bytes.
pub proof fn lemma_wire_round_trip(bytes: Seq<u8>)
    requires
        bytes.len() == 8,
        le_signed(bytes) >= 0,
    ensures
        checked_split(le_signed(bytes)) == Ok::<FileTimeView, FileTimeError>(
            split_ticks(le_signed(bytes)),
        ),
        split_ticks(le_signed(bytes)).raw_ticks() <= i64::MAX,
        le_bytes(split_ticks(le_signed(bytes)).raw_ticks()) == bytes,
{
    lemma_read_then_write(bytes);
}

} // verus!
