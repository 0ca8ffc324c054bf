//! The layout of the file header and of the three kinds of record.
use vstd::prelude::*;
use vstd::utf8::encode_utf8;
use crate::perf::bytes::{
    get_u16,
    i32s_bytes,
    put_i32s,
    put_u32s,
    put_u64s,
    u16_at_front,
    u32s_bytes,
    u64s_bytes,
};
use crate::perf::lines::{debug_entry_views, DebugEntry, DebugEntryView};
use crate::perf::{Endianness, GetEMachineError, WriteRecordError};

verus! {

/// The number that opens a jitdump file; its bytes spell `JiTD`.
pub const JITDUMP_MAGIC: u32 = 0x4a69_5444;

/// The version of the format.
pub const JITDUMP_VERSION: u32 = 1;

/// The size of the file header.
pub const HEADER_SIZE: u32 = 40;

/// The kind of a record that announces code.
pub const JIT_CODE_LOAD: u32 = 0;

/// The kind of a record that maps code to source lines.
pub const JIT_CODE_DEBUG_INFO: u32 = 2;

/// The kind of the record that ends the stream.
pub const JIT_CODE_CLOSE: u32 = 3;

/// Whether `header` opens with the four bytes that open an ELF file.
pub open spec fn is_elf(header: Seq<u8>) -> bool {
    header.len() >= 4 && header[0] == 0x7f && header[1] == 0x45 && header[2] == 0x4c && header[3]
        == 0x46
}

/// The machine for which an ELF file was made, from the first twenty bytes
/// of the file: the number at offset 18. Bytes that do not open an ELF file
/// are refused.
pub fn get_e_machine(order: Endianness, elf_header: &[u8; 20]) -> (result: Result<
    u16,
    GetEMachineError,
>)
    ensures
        match result {
            Ok(machine) => is_elf(elf_header@) && machine == u16_at_front(
                order,
                elf_header@.subrange(18, 20),
            ),
            Err(e) => !is_elf(elf_header@) && e is NotAnElfFile,
        },
{
    if elf_header[0] != 0x7f || elf_header[1] != 0x45 || elf_header[2] != 0x4c || elf_header[3]
        != 0x46 {
        return Err(GetEMachineError::NotAnElfFile);
    }
    let tail: [u8; 2] = [elf_header[18], elf_header[19]];
    Ok(get_u16(order, tail.as_slice()))
}

/// The file header: magic, version, size of the header, machine, padding and
/// process id as 32-bit numbers, then time and flags as 64-bit numbers.
pub open spec fn header_bytes(order: Endianness, e_machine: u16, pid: i32, timestamp: i64) -> Seq<
    u8,
> {
    u32s_bytes(
        order,
        seq![JITDUMP_MAGIC, JITDUMP_VERSION, HEADER_SIZE, e_machine as u32, 0u32, pid as u32],
    ) + u64s_bytes(order, seq![timestamp as u64, 0u64])
}

/// What every record starts with: its kind and its size as 32-bit numbers,
/// then its time as a 64-bit number.
pub open spec fn record_prefix(order: Endianness, id: u32, total_size: u32, timestamp: i64) -> Seq<
    u8,
> {
    u32s_bytes(order, seq![id, total_size]) + u64s_bytes(order, seq![timestamp as u64])
}

/// The record that ends the stream.
pub open spec fn code_close_bytes(order: Endianness, timestamp: i64) -> Seq<u8> {
    record_prefix(order, JIT_CODE_CLOSE, 16, timestamp)
}

/// The size of a code-load record: the fixed part, the name and the byte
/// that ends it, and the code.
pub open spec fn code_load_size(name: Seq<char>, length: usize) -> int {
    56 + encode_utf8(name).len() + 1 + length
}

/// A code-load record: the prefix; process and thread id as 32-bit numbers;
/// the address twice, the length of the code and the index of the record as
/// 64-bit numbers; the name and a zero byte; the code.
pub open spec fn code_load_bytes(
    order: Endianness,
    pid: i32,
    tid: i32,
    name: Seq<char>,
    address: usize,
    length: usize,
    code_index: u64,
    timestamp: i64,
    code: Seq<u8>,
) -> Seq<u8> {
    record_prefix(order, JIT_CODE_LOAD, code_load_size(name, length) as u32, timestamp)
        + u32s_bytes(order, seq![pid as u32, tid as u32]) + u64s_bytes(
        order,
        seq![address as u64, address as u64, length as u64, code_index],
    ) + encode_utf8(name) + seq![0u8] + code
}

/// One entry of a debug-info record: the address as a 64-bit number, the
/// line and a discriminator of zero as 32-bit numbers, the path of the
/// source file and a zero byte.
pub open spec fn entry_bytes(order: Endianness, entry: DebugEntryView) -> Seq<u8> {
    u64s_bytes(order, seq![entry.address as u64]) + i32s_bytes(
        order,
        seq![entry.line_number, 0i32],
    ) + encode_utf8(entry.path) + seq![0u8]
}

/// The entries of a debug-info record, one after the other.
pub open spec fn entries_bytes(order: Endianness, entries: Seq<DebugEntryView>) -> Seq<u8>
    decreases entries.len(),
{
    if entries.len() == 0 {
        Seq::empty()
    } else {
        entries_bytes(order, entries.drop_last()) + entry_bytes(order, entries.last())
    }
}

/// The size of the entries of a debug-info record: for each entry 17 bytes
/// and its path.
pub open spec fn entries_size(entries: Seq<DebugEntryView>) -> int
    decreases entries.len(),
{
    if entries.len() == 0 {
        0
    } else {
        entries_size(entries.drop_last()) + 17 + encode_utf8(entries.last().path).len()
    }
}

/// The size of a debug-info record: 32 bytes and its entries.
pub open spec fn debug_info_size(entries: Seq<DebugEntryView>) -> int {
    32 + entries_size(entries)
}

/// A debug-info record: the prefix; the address of the code and the number
/// of entries as 64-bit numbers; the entries.
pub open spec fn debug_info_bytes(
    order: Endianness,
    address: usize,
    timestamp: i64,
    entries: Seq<DebugEntryView>,
) -> Seq<u8> {
    u32s_bytes(order, seq![JIT_CODE_DEBUG_INFO, debug_info_size(entries) as u32]) + u64s_bytes(
        order,
        seq![timestamp as u64, address as u64, entries.len() as u64],
    ) + entries_bytes(order, entries)
}

/// Appends `bytes` to `out`.
fn put_bytes(out: &mut Vec<u8>, bytes: &[u8])
    ensures
        final(out)@ == old(out)@ + bytes@,
{
    let mut i: usize = 0;
    while i < bytes.len()
        invariant
            i <= bytes.len(),
            out@ == old(out)@ + bytes@.take(i as int),
        decreases bytes.len() - i,
    {
        out.push(bytes[i]);
        assert(out@ =~= old(out)@ + bytes@.take(i + 1));
        i += 1;
    }
    assert(bytes@.take(bytes.len() as int) =~= bytes@);
}

/// The file header.
pub fn header_record(order: Endianness, e_machine: u16, pid: i32, timestamp: i64) -> (record: Vec<
    u8,
>)
    ensures
        record@ == header_bytes(order, e_machine, pid, timestamp),
{
    let mut record: Vec<u8> = Vec::new();
    let first_header_part: [u32; 6] = [
        JITDUMP_MAGIC,
        JITDUMP_VERSION,
        HEADER_SIZE,
        e_machine as u32,
        0u32,
        #[verifier::truncate] (pid as u32),
    ];
    let second_header_part: [u64; 2] = [#[verifier::truncate] (timestamp as u64), 0u64];
    put_u32s(order, &mut record, first_header_part.as_slice());
    put_u64s(order, &mut record, second_header_part.as_slice());
    assert(first_header_part@ =~= seq![
        JITDUMP_MAGIC,
        JITDUMP_VERSION,
        HEADER_SIZE,
        e_machine as u32,
        0u32,
        pid as u32,
    ]);
    record
}

/// Appends the start of a record to `out`.
fn put_prefix(order: Endianness, out: &mut Vec<u8>, id: u32, total_size: u32, timestamp: i64)
    ensures
        final(out)@ == old(out)@ + record_prefix(order, id, total_size, timestamp),
{
    let first_record_part: [u32; 2] = [id, total_size];
    let second_record_part: [u64; 1] = [#[verifier::truncate] (timestamp as u64)];
    put_u32s(order, out, first_record_part.as_slice());
    put_u64s(order, out, second_record_part.as_slice());
    assert(second_record_part@ =~= seq![timestamp as u64]);
    assert(out@ =~= old(out)@ + record_prefix(order, id, total_size, timestamp));
}

/// The record that ends the stream.
pub fn code_close_record(order: Endianness, timestamp: i64) -> (record: Vec<u8>)
    ensures
        record@ == code_close_bytes(order, timestamp),
{
    let mut record: Vec<u8> = Vec::new();
    put_prefix(order, &mut record, JIT_CODE_CLOSE, 16, timestamp);
    record
}

/// A code-load record, unless its size is more than its size field can
/// hold.
pub fn code_load_record(
    order: Endianness,
    pid: i32,
    tid: i32,
    name: &str,
    address: usize,
    length: usize,
    code_index: u64,
    timestamp: i64,
    code: &Vec<u8>,
) -> (result: Result<Vec<u8>, WriteRecordError>)
    ensures
        match result {
            Ok(record) => code_load_size(name@, length) <= u32::MAX && record@ == code_load_bytes(
                order,
                pid,
                tid,
                name@,
                address,
                length,
                code_index,
                timestamp,
                code@,
            ),
            Err(e) => code_load_size(name@, length) > u32::MAX && e is RecordTooLarge,
        },
{
    let name_bytes = name.as_bytes();
    let total: u128 = 56u128 + name_bytes.len() as u128 + 1u128 + length as u128;
    if total > 0xffff_ffffu128 {
        return Err(WriteRecordError::RecordTooLarge);
    }
    let mut record: Vec<u8> = Vec::new();
    put_prefix(order, &mut record, JIT_CODE_LOAD, total as u32, timestamp);
    let third_record_part: [u32; 2] = [
        #[verifier::truncate] (pid as u32),
        #[verifier::truncate] (tid as u32),
    ];
    let fourth_record_part: [u64; 4] = [address as u64, address as u64, length as u64, code_index];
    put_u32s(order, &mut record, third_record_part.as_slice());
    put_u64s(order, &mut record, fourth_record_part.as_slice());
    put_bytes(&mut record, name_bytes);
    record.push(0u8);
    put_bytes(&mut record, code.as_slice());
    assert(fourth_record_part@ =~= seq![address as u64, address as u64, length as u64, code_index]);
    assert(record@ =~= code_load_bytes(
        order,
        pid,
        tid,
        name@,
        address,
        length,
        code_index,
        timestamp,
        code@,
    ));
    Ok(record)
}

/// The size of a debug-info record with these entries and the number of its
/// entries, unless the size is more than the size field can hold.
pub fn pre_calc_record_size(entries: &Vec<DebugEntry>) -> (result: Option<(u32, u64)>)
    ensures
        match result {
            Some((record_size, entries_count)) => record_size == debug_info_size(
                debug_entry_views(entries@),
            ) && entries_count == entries@.len(),
            None => debug_info_size(debug_entry_views(entries@)) > u32::MAX,
        },
{
    let ghost views = debug_entry_views(entries@);
    let mut record_size: u32 = 32;
    let mut i: usize = 0;
    while i < entries.len()
        invariant
            i <= entries.len(),
            views == debug_entry_views(entries@),
            record_size == 32 + entries_size(views.take(i as int)),
        decreases entries.len() - i,
    {
        let name_bytes = entries[i].path.as_str().as_bytes();
        assert(views.take(i + 1).drop_last() =~= views.take(i as int));
        let grown: u128 = record_size as u128 + 17u128 + name_bytes.len() as u128;
        if grown > 0xffff_ffffu128 {
            proof {
                lemma_entries_size_grows(views, i + 1);
            }
            return None;
        }
        record_size = grown as u32;
        i += 1;
    }
    assert(views.take(entries.len() as int) =~= views);
    Some((record_size, entries.len() as u64))
}

/// The size of the first entries is never more than that of all.
pub proof fn lemma_entries_size_grows(entries: Seq<DebugEntryView>, n: int)
    requires
        0 <= n <= entries.len(),
    ensures
        0 <= entries_size(entries.take(n)) <= entries_size(entries),
    decreases entries.len() - n,
{
    lemma_entries_size_not_negative(entries.take(n));
    if n < entries.len() {
        lemma_entries_size_grows(entries, n + 1);
        assert(entries.take(n + 1).drop_last() =~= entries.take(n));
    } else {
        assert(entries.take(n) =~= entries);
    }
}

/// The size of entries is not negative.
pub proof fn lemma_entries_size_not_negative(entries: Seq<DebugEntryView>)
    ensures
        0 <= entries_size(entries),
    decreases entries.len(),
{
    if entries.len() > 0 {
        lemma_entries_size_not_negative(entries.drop_last());
    }
}

/// A debug-info record for the code at `address`, unless its size is more
/// than its size field can hold.
pub fn debug_info_record(
    order: Endianness,
    address: usize,
    timestamp: i64,
    entries: &Vec<DebugEntry>,
) -> (result: Result<Vec<u8>, WriteRecordError>)
    ensures
        match result {
            Ok(record) => debug_info_size(debug_entry_views(entries@)) <= u32::MAX && record@
                == debug_info_bytes(order, address, timestamp, debug_entry_views(entries@)),
            Err(e) => debug_info_size(debug_entry_views(entries@)) > u32::MAX && e
                is RecordTooLarge,
        },
{
    let ghost views = debug_entry_views(entries@);
    let (record_size, entries_count) = match pre_calc_record_size(entries) {
        Some(sizes) => sizes,
        None => {
            return Err(WriteRecordError::RecordTooLarge);
        },
    };
    let mut record: Vec<u8> = Vec::new();
    let first_record_part: [u32; 2] = [JIT_CODE_DEBUG_INFO, record_size];
    let second_record_part: [u64; 3] = [
        #[verifier::truncate] (timestamp as u64),
        address as u64,
        entries_count,
    ];
    put_u32s(order, &mut record, first_record_part.as_slice());
    put_u64s(order, &mut record, second_record_part.as_slice());
    let ghost fixed = record@;
    let mut i: usize = 0;
    assert(record@ =~= fixed + entries_bytes(order, views.take(0)));
    while i < entries.len()
        invariant
            i <= entries.len(),
            views == debug_entry_views(entries@),
            record@ == fixed + entries_bytes(order, views.take(i as int)),
        decreases entries.len() - i,
    {
        let entry = &entries[i];
        let first_entry_part: [u64; 1] = [entry.address as u64];
        let second_entry_part: [i32; 2] = [entry.line_number, 0i32];
        put_u64s(order, &mut record, first_entry_part.as_slice());
        put_i32s(order, &mut record, second_entry_part.as_slice());
        put_bytes(&mut record, entry.path.as_str().as_bytes());
        record.push(0u8);
        proof {
            assert(views.take(i + 1).drop_last() =~= views.take(i as int));
            assert(first_entry_part@ =~= seq![entry.address as u64]);
            assert(second_entry_part@ =~= seq![entry.line_number, 0i32]);
            assert(record@ =~= fixed + entries_bytes(order, views.take(i + 1)));
        }
        i += 1;
    }
    assert(views.take(entries.len() as int) =~= views);
    Ok(record)
}

} // verus!
