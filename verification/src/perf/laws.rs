//! What holds of every stream: the sizes of its parts, where they stand,
//! and which line a lookup finds.
use vstd::prelude::*;
use vstd::utf8::encode_utf8;
use crate::perf::bytes::{i32s_bytes, u32_bytes, u32s_bytes, u64s_bytes};
use crate::perf::lines::{covered_until, line_in_effect, DebugEntryView};
use crate::perf::records::{
    code_close_bytes,
    code_load_bytes,
    debug_info_bytes,
    debug_info_size,
    entries_bytes,
    entries_size,
    entry_bytes,
    header_bytes,
    record_prefix,
    HEADER_SIZE,
};
use crate::perf::Endianness;
use crate::rvmti::LineNumberEntry;

verus! {

/// Numbers of 32 bits take four bytes each.
pub proof fn lemma_u32s_len(order: Endianness, values: Seq<u32>)
    ensures
        u32s_bytes(order, values).len() == 4 * values.len(),
    decreases values.len(),
{
    if values.len() > 0 {
        lemma_u32s_len(order, values.drop_last());
    }
}

/// Numbers of 64 bits take eight bytes each.
pub proof fn lemma_u64s_len(order: Endianness, values: Seq<u64>)
    ensures
        u64s_bytes(order, values).len() == 8 * values.len(),
    decreases values.len(),
{
    if values.len() > 0 {
        lemma_u64s_len(order, values.drop_last());
    }
}

/// Signed numbers of 32 bits take four bytes each.
pub proof fn lemma_i32s_len(order: Endianness, values: Seq<i32>)
    ensures
        i32s_bytes(order, values).len() == 4 * values.len(),
    decreases values.len(),
{
    if values.len() > 0 {
        lemma_i32s_len(order, values.drop_last());
    }
}

/// Of several numbers of 32 bits, the one at position `k` takes the four
/// bytes from `4 * k` on.
pub proof fn lemma_u32s_at(order: Endianness, values: Seq<u32>, k: int)
    requires
        0 <= k < values.len(),
    ensures
        u32s_bytes(order, values).len() == 4 * values.len(),
        u32s_bytes(order, values).subrange(4 * k, 4 * k + 4) == u32_bytes(order, values[k]),
    decreases values.len(),
{
    lemma_u32s_len(order, values);
    lemma_u32s_len(order, values.drop_last());
    if k < values.len() - 1 {
        lemma_u32s_at(order, values.drop_last(), k);
    }
}

/// The file header has forty bytes. Its bytes 8 to 11 spell forty, the size
/// of the header. Least significant byte first, its first four bytes are
/// `44 54 69 4a`.
pub proof fn lemma_header_layout(order: Endianness, e_machine: u16, pid: i32, timestamp: i64)
    ensures
        header_bytes(order, e_machine, pid, timestamp).len() == 40,
        header_bytes(order, e_machine, pid, timestamp).subrange(8, 12) == u32_bytes(
            order,
            HEADER_SIZE,
        ),
        order == Endianness::Little ==> header_bytes(order, e_machine, pid, timestamp).subrange(
            0,
            4,
        ) == seq![0x44u8, 0x54u8, 0x69u8, 0x4au8],
{
    let words = seq![0x4a69_5444u32, 1u32, 40u32, e_machine as u32, 0u32, pid as u32];
    let longs = seq![timestamp as u64, 0u64];
    lemma_u32s_len(order, words);
    lemma_u64s_len(order, longs);
    lemma_u32s_at(order, words, 0);
    lemma_u32s_at(order, words, 2);
}

/// The start of every record has sixteen bytes.
pub proof fn lemma_prefix_len(order: Endianness, id: u32, total_size: u32, timestamp: i64)
    ensures
        record_prefix(order, id, total_size, timestamp).len() == 16,
{
    lemma_u32s_len(order, seq![id, total_size]);
    lemma_u64s_len(order, seq![timestamp as u64]);
}

/// The record that ends the stream has sixteen bytes.
pub proof fn lemma_code_close_len(order: Endianness, timestamp: i64)
    ensures
        code_close_bytes(order, timestamp).len() == 16,
{
    lemma_prefix_len(order, 3, 16, timestamp);
}

/// A code-load record has 56 bytes, its name with the byte that ends it,
/// and its code. With as much code as the record announces, that is the
/// size that the record tells of itself.
pub proof fn lemma_code_load_len(
    order: Endianness,
    pid: i32,
    tid: i32,
    name: Seq<char>,
    address: usize,
    length: usize,
    code_index: u64,
    timestamp: i64,
    code: Seq<u8>,
)
    ensures
        code_load_bytes(
            order,
            pid,
            tid,
            name,
            address,
            length,
            code_index,
            timestamp,
            code,
        ).len() == 56 + encode_utf8(name).len() + 1 + code.len(),
{
    lemma_prefix_len(order, 0, (56 + encode_utf8(name).len() + 1 + length) as u32, timestamp);
    lemma_u32s_len(order, seq![pid as u32, tid as u32]);
    lemma_u64s_len(order, seq![address as u64, address as u64, length as u64, code_index]);
}

/// The entries of a debug-info record take as many bytes as their size
/// says.
pub proof fn lemma_entries_len(order: Endianness, entries: Seq<DebugEntryView>)
    ensures
        entries_bytes(order, entries).len() == entries_size(entries),
    decreases entries.len(),
{
    if entries.len() > 0 {
        lemma_entries_len(order, entries.drop_last());
        let entry = entries.last();
        lemma_u64s_len(order, seq![entry.address as u64]);
        lemma_i32s_len(order, seq![entry.line_number, 0i32]);
    }
}

/// A debug-info record has the size that it tells of itself, which is at
/// least 32 bytes. So the record that follows it in the stream, which is
/// the code-load record of the same method, starts further on than it.
pub proof fn lemma_debug_info_len(
    order: Endianness,
    address: usize,
    timestamp: i64,
    entries: Seq<DebugEntryView>,
)
    ensures
        debug_info_bytes(order, address, timestamp, entries).len() == debug_info_size(entries),
        debug_info_size(entries) >= 32,
{
    lemma_u32s_len(order, seq![2u32, debug_info_size(entries) as u32]);
    lemma_u64s_len(order, seq![timestamp as u64, address as u64, entries.len() as u64]);
    lemma_entries_len(order, entries);
    crate::perf::records::lemma_entries_size_not_negative(entries);
}

/// Whether the rows of `table` start at bytecode indexes that do not go
/// down.
pub open spec fn sorted_by_start(table: Seq<LineNumberEntry>) -> bool {
    forall|i: int, j: int|
        0 <= i <= j < table.len() ==> table[i].start_location <= table[j].start_location
}

/// An empty table has no row in effect anywhere.
pub proof fn lemma_empty_table(index: int)
    ensures
        line_in_effect(Seq::<LineNumberEntry>::empty(), index) is None,
{
}

/// What `covered_until` finds: all rows from `from` up to it start at or
/// before `index`, and the row at it, if there is one, starts after
/// `index`.
pub proof fn lemma_covered_until(table: Seq<LineNumberEntry>, index: int, from: int)
    requires
        0 <= from <= table.len(),
    ensures
        from <= covered_until(table, index, from) <= table.len(),
        forall|j: int|
            from <= j < covered_until(table, index, from) ==> (#[trigger] table[j]).start_location
                <= index,
        covered_until(table, index, from) < table.len() ==> table[covered_until(
            table,
            index,
            from,
        )].start_location > index,
    decreases table.len() - from,
{
    if from < table.len() && table[from].start_location <= index {
        lemma_covered_until(table, index, from + 1);
    }
}

/// In a table sorted by start, the row in effect at `index` is the last row
/// that starts at or before `index`; there is none exactly when every row
/// starts after `index`.
pub proof fn lemma_line_in_effect_sorted(table: Seq<LineNumberEntry>, index: int)
    requires
        sorted_by_start(table),
    ensures
        match line_in_effect(table, index) {
            Some(row) => exists|k: int|
                {
                    &&& 0 <= k < table.len()
                    &&& #[trigger] table[k] == row
                    &&& table[k].start_location <= index
                    &&& forall|j: int|
                        k < j < table.len() ==> (#[trigger] table[j]).start_location > index
                },
            None => forall|j: int|
                0 <= j < table.len() ==> (#[trigger] table[j]).start_location > index,
        },
{
    lemma_covered_until(table, index, 0);
}

} // verus!
