//! Big-endian integers, as the font format stores them.
//!
//! The values are defined here by arithmetic on the bytes; the functions that
//! compute them hand the bytes to the `byteorder` crate.

use byteorder::{BigEndian, ByteOrder};
use vstd::prelude::*;

verus! {

/// The unsigned 16-bit integer stored at `at`, high byte first.
pub open spec fn u16_at(data: Seq<u8>, at: int) -> u16
    recommends
        0 <= at,
        at + 2 <= data.len(),
{
    (data[at] as int * 256 + data[at + 1] as int) as u16
}

/// The signed 16-bit integer stored at `at`: the unsigned one, read in
/// two's complement.
pub open spec fn i16_at(data: Seq<u8>, at: int) -> i16
    recommends
        0 <= at,
        at + 2 <= data.len(),
{
    let u = u16_at(data, at) as int;
    if u < 0x8000 {
        u as i16
    } else {
        (u - 0x1_0000) as i16
    }
}

/// The unsigned 32-bit integer stored at `at`, high byte first.
pub open spec fn u32_at(data: Seq<u8>, at: int) -> u32
    recommends
        0 <= at,
        at + 4 <= data.len(),
{
    (((data[at] as int * 256 + data[at + 1] as int) * 256 + data[at + 2] as int) * 256 + data[at
        + 3] as int) as u32
}

/// Calls `byteorder::BigEndian::read_u16` (trait `ByteOrder`), which panics on
/// fewer than two bytes and otherwise returns `u16::from_be_bytes` of the
/// first two: the first byte times 256 plus the second.
#[verifier::external_body]
pub(crate) fn be_u16(bytes: &[u8]) -> (v: u16)
    requires
        bytes@.len() >= 2,
    ensures
        v == u16_at(bytes@, 0),
{
    BigEndian::read_u16(bytes)
}

/// Calls `byteorder::BigEndian::read_i16` (trait `ByteOrder`), which panics on
/// fewer than two bytes and otherwise returns `read_u16` of them cast to
/// `i16`, that is read in two's complement.
#[verifier::external_body]
pub(crate) fn be_i16(bytes: &[u8]) -> (v: i16)
    requires
        bytes@.len() >= 2,
    ensures
        v == i16_at(bytes@, 0),
{
    BigEndian::read_i16(bytes)
}

/// Calls `byteorder::BigEndian::read_u32` (trait `ByteOrder`), which panics on
/// fewer than four bytes and otherwise returns `u32::from_be_bytes` of the
/// first four: the bytes as base-256 digits, the first one the highest.
#[verifier::external_body]
pub(crate) fn be_u32(bytes: &[u8]) -> (v: u32)
    requires
        bytes@.len() >= 4,
    ensures
        v == u32_at(bytes@, 0),
{
    BigEndian::read_u32(bytes)
}

} // verus!
