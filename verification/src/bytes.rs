//! Fixed-width integers as they stand in a GGUF file, and the primitive
//! readers that take them out of a byte buffer at a given position.
use vstd::prelude::*;
use byteorder::ByteOrder as _;

use crate::error::{Error, Fault, eof_error};
use crate::types::ByteOrder;

verus! {

/// The value of `b` read as an unsigned integer, least significant byte first.
pub open spec fn le_value(b: Seq<u8>) -> nat
    decreases b.len(),
{
    if b.len() == 0 {
        0
    } else {
        b[0] as nat + 256 * le_value(b.drop_first())
    }
}

/// The value of `b` read as an unsigned integer, most significant byte first.
pub open spec fn be_value(b: Seq<u8>) -> nat
    decreases b.len(),
{
    if b.len() == 0 {
        0
    } else {
        b.last() as nat + 256 * be_value(b.drop_last())
    }
}

/// The unsigned value of `b` in the given byte order.
pub open spec fn uint_value(bo: ByteOrder, b: Seq<u8>) -> nat {
    match bo {
        ByteOrder::LE => le_value(b),
        ByteOrder::BE => be_value(b),
    }
}

/// Two's complement reading of the unsigned value `u` of a word whose
/// sign bit has weight `half`.
pub open spec fn twos(u: int, half: int) -> int {
    if u >= half {
        u - 2 * half
    } else {
        u
    }
}

/// `n` bytes of `s` from `pos` on, and the position after them; when fewer
/// remain, the end of input, with all of the input taken.
pub open spec fn take_bytes(s: Seq<u8>, pos: int, n: int) -> Result<(Seq<u8>, int), (Fault, int)> {
    if 0 <= pos && 0 <= n && pos + n <= s.len() {
        Ok((s.subrange(pos, pos + n), pos + n))
    } else {
        Err((Fault::Io, s.len() as int))
    }
}

/// The unsigned integer of `n` bytes at `pos`, in byte order `bo`.
pub open spec fn uint_at(bo: ByteOrder, s: Seq<u8>, pos: int, n: int) -> Result<(int, int), (Fault, int)> {
    match take_bytes(s, pos, n) {
        Ok((b, p)) => Ok((uint_value(bo, b) as int, p)),
        Err(f) => Err(f),
    }
}

/// The byte at `pos`.
pub open spec fn spec_u8(s: Seq<u8>, pos: int) -> Result<(u8, int), (Fault, int)> {
    if 0 <= pos < s.len() {
        Ok((s[pos], pos + 1))
    } else {
        Err((Fault::Io, s.len() as int))
    }
}

/// The byte at `pos`, in two's complement.
pub open spec fn spec_i8(s: Seq<u8>, pos: int) -> Result<(i8, int), (Fault, int)> {
    match spec_u8(s, pos) {
        Ok((b, p)) => Ok((twos(b as int, 0x80) as i8, p)),
        Err(f) => Err(f),
    }
}

/// The `u16` at `pos`.
pub open spec fn spec_u16(bo: ByteOrder, s: Seq<u8>, pos: int) -> Result<(u16, int), (Fault, int)> {
    match uint_at(bo, s, pos, 2) {
        Ok((v, p)) => Ok((v as u16, p)),
        Err(f) => Err(f),
    }
}

/// The `i16` at `pos`.
pub open spec fn spec_i16(bo: ByteOrder, s: Seq<u8>, pos: int) -> Result<(i16, int), (Fault, int)> {
    match uint_at(bo, s, pos, 2) {
        Ok((v, p)) => Ok((twos(v, 0x8000) as i16, p)),
        Err(f) => Err(f),
    }
}

/// The `u32` at `pos`.
pub open spec fn spec_u32(bo: ByteOrder, s: Seq<u8>, pos: int) -> Result<(u32, int), (Fault, int)> {
    match uint_at(bo, s, pos, 4) {
        Ok((v, p)) => Ok((v as u32, p)),
        Err(f) => Err(f),
    }
}

/// The `i32` at `pos`.
pub open spec fn spec_i32(bo: ByteOrder, s: Seq<u8>, pos: int) -> Result<(i32, int), (Fault, int)> {
    match uint_at(bo, s, pos, 4) {
        Ok((v, p)) => Ok((twos(v, 0x8000_0000) as i32, p)),
        Err(f) => Err(f),
    }
}

/// The `u64` at `pos`.
pub open spec fn spec_u64(bo: ByteOrder, s: Seq<u8>, pos: int) -> Result<(u64, int), (Fault, int)> {
    match uint_at(bo, s, pos, 8) {
        Ok((v, p)) => Ok((v as u64, p)),
        Err(f) => Err(f),
    }
}

/// The `i64` at `pos`.
pub open spec fn spec_i64(bo: ByteOrder, s: Seq<u8>, pos: int) -> Result<(i64, int), (Fault, int)> {
    match uint_at(bo, s, pos, 8) {
        Ok((v, p)) => Ok((twos(v, 0x8000_0000_0000_0000) as i64, p)),
        Err(f) => Err(f),
    }
}

/// An executable read agrees with its specification: the same value and
/// position where the specification reads one; where it fails, an error of
/// the same kind and the position that the failing read left.
pub open spec fn agrees<T>(r: Result<(T, usize), (Error, usize)>, s: Result<(T, int), (Fault, int)>) -> bool {
    match s {
        Ok((v, p)) => r matches Ok((w, q)) && w == v && q == p,
        Err((f, p)) => r matches Err((e, q)) && e.fault() == f && q == p,
    }
}

/// `byteorder::LittleEndian::read_u16`: the first two bytes of `buf`,
/// least significant first.
#[verifier::external_body]
fn le_u16(buf: &[u8]) -> (r: u16)
    requires
        buf.len() >= 2,
    ensures
        r as int == le_value(buf@.subrange(0, 2)),
{
    byteorder::LittleEndian::read_u16(buf)
}

/// `byteorder::BigEndian::read_u16`: the first two bytes of `buf`,
/// most significant first.
#[verifier::external_body]
fn be_u16(buf: &[u8]) -> (r: u16)
    requires
        buf.len() >= 2,
    ensures
        r as int == be_value(buf@.subrange(0, 2)),
{
    byteorder::BigEndian::read_u16(buf)
}

/// `byteorder::LittleEndian::read_i16`: the first two bytes of `buf`,
/// least significant first, in two's complement.
#[verifier::external_body]
fn le_i16(buf: &[u8]) -> (r: i16)
    requires
        buf.len() >= 2,
    ensures
        r as int == twos(le_value(buf@.subrange(0, 2)) as int, 0x8000),
{
    byteorder::LittleEndian::read_i16(buf)
}

/// `byteorder::BigEndian::read_i16`: the first two bytes of `buf`,
/// most significant first, in two's complement.
#[verifier::external_body]
fn be_i16(buf: &[u8]) -> (r: i16)
    requires
        buf.len() >= 2,
    ensures
        r as int == twos(be_value(buf@.subrange(0, 2)) as int, 0x8000),
{
    byteorder::BigEndian::read_i16(buf)
}

/// `byteorder::LittleEndian::read_u32`: the first four bytes of `buf`,
/// least significant first.
#[verifier::external_body]
fn le_u32(buf: &[u8]) -> (r: u32)
    requires
        buf.len() >= 4,
    ensures
        r as int == le_value(buf@.subrange(0, 4)),
{
    byteorder::LittleEndian::read_u32(buf)
}

/// `byteorder::BigEndian::read_u32`: the first four bytes of `buf`,
/// most significant first.
#[verifier::external_body]
fn be_u32(buf: &[u8]) -> (r: u32)
    requires
        buf.len() >= 4,
    ensures
        r as int == be_value(buf@.subrange(0, 4)),
{
    byteorder::BigEndian::read_u32(buf)
}

/// `byteorder::LittleEndian::read_i32`: the first four bytes of `buf`,
/// least significant first, in two's complement.
#[verifier::external_body]
fn le_i32(buf: &[u8]) -> (r: i32)
    requires
        buf.len() >= 4,
    ensures
        r as int == twos(le_value(buf@.subrange(0, 4)) as int, 0x8000_0000),
{
    byteorder::LittleEndian::read_i32(buf)
}

/// `byteorder::BigEndian::read_i32`: the first four bytes of `buf`,
/// most significant first, in two's complement.
#[verifier::external_body]
fn be_i32(buf: &[u8]) -> (r: i32)
    requires
        buf.len() >= 4,
    ensures
        r as int == twos(be_value(buf@.subrange(0, 4)) as int, 0x8000_0000),
{
    byteorder::BigEndian::read_i32(buf)
}

/// `byteorder::LittleEndian::read_u64`: the first eight bytes of `buf`,
/// least significant first.
#[verifier::external_body]
fn le_u64(buf: &[u8]) -> (r: u64)
    requires
        buf.len() >= 8,
    ensures
        r as int == le_value(buf@.subrange(0, 8)),
{
    byteorder::LittleEndian::read_u64(buf)
}

/// `byteorder::BigEndian::read_u64`: the first eight bytes of `buf`,
/// most significant first.
#[verifier::external_body]
fn be_u64(buf: &[u8]) -> (r: u64)
    requires
        buf.len() >= 8,
    ensures
        r as int == be_value(buf@.subrange(0, 8)),
{
    byteorder::BigEndian::read_u64(buf)
}

/// `byteorder::LittleEndian::read_i64`: the first eight bytes of `buf`,
/// least significant first, in two's complement.
#[verifier::external_body]
fn le_i64(buf: &[u8]) -> (r: i64)
    requires
        buf.len() >= 8,
    ensures
        r as int == twos(le_value(buf@.subrange(0, 8)) as int, 0x8000_0000_0000_0000),
{
    byteorder::LittleEndian::read_i64(buf)
}

/// `byteorder::BigEndian::read_i64`: the first eight bytes of `buf`,
/// most significant first, in two's complement.
#[verifier::external_body]
fn be_i64(buf: &[u8]) -> (r: i64)
    requires
        buf.len() >= 8,
    ensures
        r as int == twos(be_value(buf@.subrange(0, 8)) as int, 0x8000_0000_0000_0000),
{
    byteorder::BigEndian::read_i64(buf)
}

/// The `n` bytes at `pos`, or the end-of-input error where fewer remain.
pub fn read_bytes(data: &[u8], pos: usize, n: usize) -> (r: Result<(&[u8], usize), (Error, usize)>)
    ensures
        match take_bytes(data@, pos as int, n as int) {
            Ok((b, p)) => r matches Ok((w, q)) && w@ == b && q == p,
            Err((f, p)) => r matches Err((e, q)) && e.fault() == f && q == p,
        },
{
    if n <= data.len() && pos <= data.len() - n {
        let end = pos + n;
        Ok((&data[pos..end], end))
    } else {
        Err((Error::IO(eof_error()), data.len()))
    }
}

/// The byte at `pos`.
pub fn read_u8(data: &[u8], pos: usize) -> (r: Result<(u8, usize), (Error, usize)>)
    ensures
        agrees(r, spec_u8(data@, pos as int)),
{
    if pos < data.len() {
        Ok((data[pos], pos + 1))
    } else {
        Err((Error::IO(eof_error()), data.len()))
    }
}

/// The byte at `pos`, in two's complement.
pub fn read_i8(data: &[u8], pos: usize) -> (r: Result<(i8, usize), (Error, usize)>)
    ensures
        agrees(r, spec_i8(data@, pos as int)),
{
    let (b, p) = read_u8(data, pos)?;
    let v: i8 = if b >= 128 {
        (b as i16 - 256) as i8
    } else {
        b as i8
    };
    Ok((v, p))
}

/// The `u16` at `pos`, in byte order `bo`.
pub fn read_u16(bo: ByteOrder, data: &[u8], pos: usize) -> (r: Result<(u16, usize), (Error, usize)>)
    ensures
        agrees(r, spec_u16(bo, data@, pos as int)),
{
    let (b, p) = read_bytes(data, pos, 2)?;
    let v = match bo {
        ByteOrder::LE => le_u16(b),
        ByteOrder::BE => be_u16(b),
    };
    assert(b@.subrange(0, 2) == b@);
    Ok((v, p))
}

/// The `i16` at `pos`, in byte order `bo`.
pub fn read_i16(bo: ByteOrder, data: &[u8], pos: usize) -> (r: Result<(i16, usize), (Error, usize)>)
    ensures
        agrees(r, spec_i16(bo, data@, pos as int)),
{
    let (b, p) = read_bytes(data, pos, 2)?;
    let v = match bo {
        ByteOrder::LE => le_i16(b),
        ByteOrder::BE => be_i16(b),
    };
    assert(b@.subrange(0, 2) == b@);
    Ok((v, p))
}

/// The `u32` at `pos`, in byte order `bo`.
pub fn read_u32(bo: ByteOrder, data: &[u8], pos: usize) -> (r: Result<(u32, usize), (Error, usize)>)
    ensures
        agrees(r, spec_u32(bo, data@, pos as int)),
{
    let (b, p) = read_bytes(data, pos, 4)?;
    let v = match bo {
        ByteOrder::LE => le_u32(b),
        ByteOrder::BE => be_u32(b),
    };
    assert(b@.subrange(0, 4) == b@);
    Ok((v, p))
}

/// The `i32` at `pos`, in byte order `bo`.
pub fn read_i32(bo: ByteOrder, data: &[u8], pos: usize) -> (r: Result<(i32, usize), (Error, usize)>)
    ensures
        agrees(r, spec_i32(bo, data@, pos as int)),
{
    let (b, p) = read_bytes(data, pos, 4)?;
    let v = match bo {
        ByteOrder::LE => le_i32(b),
        ByteOrder::BE => be_i32(b),
    };
    assert(b@.subrange(0, 4) == b@);
    Ok((v, p))
}

/// The `u64` at `pos`, in byte order `bo`.
pub fn read_u64(bo: ByteOrder, data: &[u8], pos: usize) -> (r: Result<(u64, usize), (Error, usize)>)
    ensures
        agrees(r, spec_u64(bo, data@, pos as int)),
{
    let (b, p) = read_bytes(data, pos, 8)?;
    let v = match bo {
        ByteOrder::LE => le_u64(b),
        ByteOrder::BE => be_u64(b),
    };
    assert(b@.subrange(0, 8) == b@);
    Ok((v, p))
}

/// The `i64` at `pos`, in byte order `bo`.
pub fn read_i64(bo: ByteOrder, data: &[u8], pos: usize) -> (r: Result<(i64, usize), (Error, usize)>)
    ensures
        agrees(r, spec_i64(bo, data@, pos as int)),
{
    let (b, p) = read_bytes(data, pos, 8)?;
    let v = match bo {
        ByteOrder::LE => le_i64(b),
        ByteOrder::BE => be_i64(b),
    };
    assert(b@.subrange(0, 8) == b@);
    Ok((v, p))
}

} // verus!
