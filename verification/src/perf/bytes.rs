//! Integers as bytes, in either byte order.
use byteorder::{BigEndian, ByteOrder, LittleEndian, NativeEndian};
use vstd::prelude::*;
use crate::perf::Endianness;

verus! {

/// The two bytes of `x`, in `order`.
pub open spec fn u16_bytes(order: Endianness, x: u16) -> Seq<u8> {
    match order {
        Endianness::Little => seq![(x % 0x100) as u8, (x / 0x100) as u8],
        Endianness::Big => seq![(x / 0x100) as u8, (x % 0x100) as u8],
    }
}

/// The four bytes of `x`, in `order`.
pub open spec fn u32_bytes(order: Endianness, x: u32) -> Seq<u8> {
    match order {
        Endianness::Little => seq![
            (x % 0x100) as u8,
            (x / 0x100 % 0x100) as u8,
            (x / 0x1_0000 % 0x100) as u8,
            (x / 0x100_0000) as u8,
        ],
        Endianness::Big => seq![
            (x / 0x100_0000) as u8,
            (x / 0x1_0000 % 0x100) as u8,
            (x / 0x100 % 0x100) as u8,
            (x % 0x100) as u8,
        ],
    }
}

/// The eight bytes of `x`, in `order`.
pub open spec fn u64_bytes(order: Endianness, x: u64) -> Seq<u8> {
    match order {
        Endianness::Little => seq![
            (x % 0x100) as u8,
            (x / 0x100 % 0x100) as u8,
            (x / 0x1_0000 % 0x100) as u8,
            (x / 0x100_0000 % 0x100) as u8,
            (x / 0x1_0000_0000 % 0x100) as u8,
            (x / 0x100_0000_0000 % 0x100) as u8,
            (x / 0x1_0000_0000_0000 % 0x100) as u8,
            (x / 0x100_0000_0000_0000) as u8,
        ],
        Endianness::Big => seq![
            (x / 0x100_0000_0000_0000) as u8,
            (x / 0x1_0000_0000_0000 % 0x100) as u8,
            (x / 0x100_0000_0000 % 0x100) as u8,
            (x / 0x1_0000_0000 % 0x100) as u8,
            (x / 0x100_0000 % 0x100) as u8,
            (x / 0x1_0000 % 0x100) as u8,
            (x / 0x100 % 0x100) as u8,
            (x % 0x100) as u8,
        ],
    }
}

/// The four bytes of `x` in two's complement, in `order`.
pub open spec fn i32_bytes(order: Endianness, x: i32) -> Seq<u8> {
    u32_bytes(order, x as u32)
}

/// The bytes of each of `values` in turn, four for each.
pub open spec fn u32s_bytes(order: Endianness, values: Seq<u32>) -> Seq<u8>
    decreases values.len(),
{
    if values.len() == 0 {
        Seq::empty()
    } else {
        u32s_bytes(order, values.drop_last()) + u32_bytes(order, values.last())
    }
}

/// The bytes of each of `values` in turn, eight for each.
pub open spec fn u64s_bytes(order: Endianness, values: Seq<u64>) -> Seq<u8>
    decreases values.len(),
{
    if values.len() == 0 {
        Seq::empty()
    } else {
        u64s_bytes(order, values.drop_last()) + u64_bytes(order, values.last())
    }
}

/// The bytes of each of `values` in turn, four for each.
pub open spec fn i32s_bytes(order: Endianness, values: Seq<i32>) -> Seq<u8>
    decreases values.len(),
{
    if values.len() == 0 {
        Seq::empty()
    } else {
        i32s_bytes(order, values.drop_last()) + i32_bytes(order, values.last())
    }
}

/// The number that the first two bytes of `bytes` spell in `order`.
pub open spec fn u16_at_front(order: Endianness, bytes: Seq<u8>) -> u16 {
    match order {
        Endianness::Little => (bytes[0] + 0x100 * bytes[1]) as u16,
        Endianness::Big => (bytes[1] + 0x100 * bytes[0]) as u16,
    }
}

/// `LittleEndian::write_u32_into` of byteorder: fills `dst` with the
/// numbers of `src`, each least significant byte first.
#[verifier::external_body]
fn write_u32_into_le(src: &[u32], dst: &mut Vec<u8>)
    requires
        old(dst).len() == 4 * src.len(),
    ensures
        final(dst)@ == u32s_bytes(Endianness::Little, src@),
{
    LittleEndian::write_u32_into(src, dst)
}

/// `BigEndian::write_u32_into` of byteorder: fills `dst` with the numbers of
/// `src`, each most significant byte first.
#[verifier::external_body]
fn write_u32_into_be(src: &[u32], dst: &mut Vec<u8>)
    requires
        old(dst).len() == 4 * src.len(),
    ensures
        final(dst)@ == u32s_bytes(Endianness::Big, src@),
{
    BigEndian::write_u32_into(src, dst)
}

/// `LittleEndian::write_u64_into` of byteorder: fills `dst` with the
/// numbers of `src`, each least significant byte first.
#[verifier::external_body]
fn write_u64_into_le(src: &[u64], dst: &mut Vec<u8>)
    requires
        old(dst).len() == 8 * src.len(),
    ensures
        final(dst)@ == u64s_bytes(Endianness::Little, src@),
{
    LittleEndian::write_u64_into(src, dst)
}

/// `BigEndian::write_u64_into` of byteorder: fills `dst` with the numbers of
/// `src`, each most significant byte first.
#[verifier::external_body]
fn write_u64_into_be(src: &[u64], dst: &mut Vec<u8>)
    requires
        old(dst).len() == 8 * src.len(),
    ensures
        final(dst)@ == u64s_bytes(Endianness::Big, src@),
{
    BigEndian::write_u64_into(src, dst)
}

/// `LittleEndian::write_i32_into` of byteorder: fills `dst` with the
/// numbers of `src` in two's complement, each least significant byte first.
#[verifier::external_body]
fn write_i32_into_le(src: &[i32], dst: &mut Vec<u8>)
    requires
        old(dst).len() == 4 * src.len(),
    ensures
        final(dst)@ == i32s_bytes(Endianness::Little, src@),
{
    LittleEndian::write_i32_into(src, dst)
}

/// `BigEndian::write_i32_into` of byteorder: fills `dst` with the numbers of
/// `src` in two's complement, each most significant byte first.
#[verifier::external_body]
fn write_i32_into_be(src: &[i32], dst: &mut Vec<u8>)
    requires
        old(dst).len() == 4 * src.len(),
    ensures
        final(dst)@ == i32s_bytes(Endianness::Big, src@),
{
    BigEndian::write_i32_into(src, dst)
}

/// `LittleEndian::read_u16` of byteorder: the number that the first two
/// bytes of `buf` spell, least significant byte first.
#[verifier::external_body]
fn read_u16_le(buf: &[u8]) -> (x: u16)
    requires
        buf.len() >= 2,
    ensures
        x == u16_at_front(Endianness::Little, buf@),
{
    LittleEndian::read_u16(buf)
}

/// `BigEndian::read_u16` of byteorder: the number that the first two bytes
/// of `buf` spell, most significant byte first.
#[verifier::external_body]
fn read_u16_be(buf: &[u8]) -> (x: u16)
    requires
        buf.len() >= 2,
    ensures
        x == u16_at_front(Endianness::Big, buf@),
{
    BigEndian::read_u16(buf)
}

/// `NativeEndian::read_u16` of byteorder: the number that the first two
/// bytes of `buf` spell in the byte order of the machine, which is one of
/// the two.
#[verifier::external_body]
fn read_u16_native(buf: &[u8]) -> (x: u16)
    requires
        buf.len() >= 2,
    ensures
        x == u16_at_front(Endianness::Little, buf@) || x == u16_at_front(Endianness::Big, buf@),
{
    NativeEndian::read_u16(buf)
}

impl Endianness {
    /// The byte order in which the bytes `01 00` spell the number `probe`:
    /// least significant byte first where they spell one, most significant
    /// byte first else.
    pub open spec fn of_probe(probe: u16) -> Endianness {
        if probe == 1 {
            Endianness::Little
        } else {
            Endianness::Big
        }
    }

    /// The byte order in which the bytes `01 00` spell the number `probe`.
    pub fn from_probe(probe: u16) -> (order: Endianness)
        ensures
            order == Endianness::of_probe(probe),
    {
        if probe == 1 {
            Endianness::Little
        } else {
            Endianness::Big
        }
    }

    /// The byte order of the machine that runs this code: the order in
    /// which the machine reads the bytes `01 00`.
    pub fn native() -> Endianness {
        let probe: [u8; 2] = [1, 0];
        Endianness::from_probe(read_u16_native(probe.as_slice()))
    }
}

/// `n` zero bytes.
fn zeros(n: usize) -> (buf: Vec<u8>)
    ensures
        buf.len() == n,
{
    vec![0u8; n]
}

/// Appends the bytes of `values` to `out`.
pub(crate) fn put_u32s(order: Endianness, out: &mut Vec<u8>, values: &[u32])
    requires
        values.len() <= 0x1000,
    ensures
        final(out)@ == old(out)@ + u32s_bytes(order, values@),
{
    let mut buf = zeros(4 * values.len());
    match order {
        Endianness::Little => write_u32_into_le(values, &mut buf),
        Endianness::Big => write_u32_into_be(values, &mut buf),
    }
    out.append(&mut buf);
}

/// Appends the bytes of `values` to `out`.
pub(crate) fn put_u64s(order: Endianness, out: &mut Vec<u8>, values: &[u64])
    requires
        values.len() <= 0x1000,
    ensures
        final(out)@ == old(out)@ + u64s_bytes(order, values@),
{
    let mut buf = zeros(8 * values.len());
    match order {
        Endianness::Little => write_u64_into_le(values, &mut buf),
        Endianness::Big => write_u64_into_be(values, &mut buf),
    }
    out.append(&mut buf);
}

/// Appends the bytes of `values` to `out`.
pub(crate) fn put_i32s(order: Endianness, out: &mut Vec<u8>, values: &[i32])
    requires
        values.len() <= 0x1000,
    ensures
        final(out)@ == old(out)@ + i32s_bytes(order, values@),
{
    let mut buf = zeros(4 * values.len());
    match order {
        Endianness::Little => write_i32_into_le(values, &mut buf),
        Endianness::Big => write_i32_into_be(values, &mut buf),
    }
    out.append(&mut buf);
}

/// The number that the first two bytes of `buf` spell in `order`.
pub(crate) fn get_u16(order: Endianness, buf: &[u8]) -> (x: u16)
    requires
        buf.len() >= 2,
    ensures
        x == u16_at_front(order, buf@),
{
    match order {
        Endianness::Little => read_u16_le(buf),
        Endianness::Big => read_u16_be(buf),
    }
}

} // verus!
