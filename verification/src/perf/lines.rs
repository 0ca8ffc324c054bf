//! Which source line a piece of compiled code belongs to.
use vstd::prelude::*;
use crate::agent::{StackFrameInfo, StackInfo};
use crate::demangle::grammar::parse_class_type;
use crate::demangle::ClassType;
use crate::rvmti::{AddressLocationEntry, LineNumberEntry};

verus! {

/// First position at or after `from` whose entry starts after `index`, or the
/// table's length when there is none.
pub open spec fn covered_until(table: Seq<LineNumberEntry>, index: int, from: int) -> int
    decreases table.len() - from,
{
    if from < 0 || from >= table.len() || table[from].start_location > index {
        from
    } else {
        covered_until(table, index, from + 1)
    }
}

/// The row in effect at bytecode `index`: the last row of the longest leading
/// run of rows that start at or before `index`.
pub open spec fn line_in_effect(table: Seq<LineNumberEntry>, index: int) -> Option<LineNumberEntry> {
    let n = covered_until(table, index, 0);
    if n <= 0 {
        None
    } else {
        Some(table[n - 1])
    }
}

/// Looks up the line-number row in effect at `byte_code_index`.
pub fn find_line_number_entry<'a>(
    byte_code_index: i32,
    line_numbers: &'a Vec<LineNumberEntry>,
) -> (result: Option<&'a LineNumberEntry>)
    ensures
        match result {
            Some(entry) => line_in_effect(line_numbers@, byte_code_index as int) == Some(*entry),
            None => line_in_effect(line_numbers@, byte_code_index as int) is None,
        },
{
    let mut i: usize = 0;
    while i < line_numbers.len() && line_numbers[i].start_location <= byte_code_index as i64
        invariant
            i <= line_numbers.len(),
            covered_until(line_numbers@, byte_code_index as int, 0) == covered_until(
                line_numbers@,
                byte_code_index as int,
                i as int,
            ),
        decreases line_numbers.len() - i,
    {
        i += 1;
    }
    if i == 0 {
        None
    } else {
        Some(&line_numbers[i - 1])
    }
}

/// One entry of a debug-info record: the code from `address` on belongs to
/// line `line_number` of the source file at `path`.
#[derive(Debug)]
pub struct DebugEntry {
    pub address: usize,
    pub line_number: i32,
    pub path: String,
}

/// What a `DebugEntry` stands for.
pub struct DebugEntryView {
    pub address: usize,
    pub line_number: i32,
    pub path: Seq<char>,
}

impl View for DebugEntry {
    type V = DebugEntryView;

    open spec fn view(&self) -> DebugEntryView {
        DebugEntryView { address: self.address, line_number: self.line_number, path: self.path@ }
    }
}

/// What each entry of `entries` stands for.
pub open spec fn debug_entry_views(entries: Seq<DebugEntry>) -> Seq<DebugEntryView> {
    Seq::new(entries.len(), |i: int| entries[i]@)
}

/// The path of a class's source file: the directories of the class's
/// package and the file name, or the file name alone where the class
/// signature cannot be read.
pub open spec fn source_path(class_signature: Seq<char>, source_file_name: Seq<char>) -> Seq<char> {
    match parse_class_type(class_signature) {
        Some(name) => name.file_path(source_file_name),
        None => source_file_name,
    }
}

/// The path of the source file `source_file_name` of the class with
/// signature `class_signature`.
pub fn class_location(class_signature: &str, source_file_name: &str) -> (path: String)
    ensures
        path@ == source_path(class_signature@, source_file_name@),
{
    match ClassType::new(class_signature) {
        Ok(class) => class.package_as_file_path(source_file_name),
        Err(_) => source_file_name.to_owned(),
    }
}

/// Whether a frame can give a debug entry: its method is not native, has a
/// line-number table with a row in effect at the frame's bytecode index, and
/// its class has a source file name.
pub open spec fn has_source_line(frame: &StackFrameInfo) -> bool {
    &&& !frame.method.native_method
    &&& frame.method.line_numbers matches Some(rows) && rows@.len() > 0 && line_in_effect(
        rows@,
        frame.byte_code_index as int,
    ) is Some
    &&& frame.method.class.source_file_name is Some
}

/// First position at or after `from` whose frame can give a debug entry, or
/// the number of frames when there is none.
pub open spec fn first_with_source_line(frames: Seq<StackFrameInfo>, from: int) -> int
    decreases frames.len() - from,
{
    if from < 0 || from >= frames.len() || has_source_line(&frames[from]) {
        from
    } else {
        first_with_source_line(frames, from + 1)
    }
}

/// Whether `frame` can give a debug entry.
fn frame_has_source_line(frame: &StackFrameInfo) -> (r: bool)
    ensures
        r == has_source_line(frame),
{
    if frame.method.native_method {
        return false;
    }
    match &frame.method.line_numbers {
        Some(rows) => {
            if rows.len() == 0 || frame.method.class.source_file_name.is_none() {
                return false;
            }
            find_line_number_entry(frame.byte_code_index, rows).is_some()
        },
        None => false,
    }
}

/// The first frame, from the innermost outwards, that can give a debug
/// entry.
pub fn find_frame<'a>(stack_frames: &'a Vec<StackFrameInfo>) -> (result: Option<
    &'a StackFrameInfo,
>)
    ensures
        match result {
            Some(frame) => {
                let i = first_with_source_line(stack_frames@, 0);
                0 <= i < stack_frames.len() && *frame == stack_frames@[i] && has_source_line(frame)
            },
            None => first_with_source_line(stack_frames@, 0) == stack_frames.len(),
        },
{
    let mut i: usize = 0;
    while i < stack_frames.len()
        invariant
            i <= stack_frames.len(),
            first_with_source_line(stack_frames@, 0) == first_with_source_line(
                stack_frames@,
                i as int,
            ),
        decreases stack_frames.len() - i,
    {
        if frame_has_source_line(&stack_frames[i]) {
            return Some(&stack_frames[i]);
        }
        i += 1;
    }
    None
}

/// The debug entry of one inlining stack: its address, and the line and the
/// source file of the first frame that can give them.
pub open spec fn stack_entry(info: &StackInfo) -> Option<DebugEntryView> {
    let i = first_with_source_line(info.stack_frames@, 0);
    if 0 <= i < info.stack_frames@.len() {
        let frame = info.stack_frames@[i];
        Some(
            DebugEntryView {
                address: info.pc_address,
                line_number: line_in_effect(
                    frame.method.line_numbers->0@,
                    frame.byte_code_index as int,
                )->0.line_number,
                path: source_path(
                    frame.method.class.signature.signature@,
                    frame.method.class.source_file_name->0@,
                ),
            },
        )
    } else {
        None
    }
}

/// The debug entries of the inlining stacks that have one, in the order of
/// the stacks.
pub open spec fn stack_entries(stack: Seq<StackInfo>) -> Seq<DebugEntryView>
    decreases stack.len(),
{
    if stack.len() == 0 {
        Seq::empty()
    } else {
        let before = stack_entries(stack.drop_last());
        match stack_entry(&stack.last()) {
            Some(entry) => before.push(entry),
            None => before,
        }
    }
}

/// The debug entries of a method with inlining stacks.
pub fn entries_with_stack_info(stack_info: &Vec<StackInfo>) -> (entries: Vec<DebugEntry>)
    ensures
        debug_entry_views(entries@) == stack_entries(stack_info@),
{
    let mut entries: Vec<DebugEntry> = Vec::new();
    let mut i: usize = 0;
    while i < stack_info.len()
        invariant
            i <= stack_info.len(),
            debug_entry_views(entries@) == stack_entries(stack_info@.take(i as int)),
        decreases stack_info.len() - i,
    {
        let info = &stack_info[i];
        assert(stack_info@.take(i + 1).drop_last() =~= stack_info@.take(i as int));
        match find_frame(&info.stack_frames) {
            Some(frame) => {
                match (&frame.method.line_numbers, &frame.method.class.source_file_name) {
                    (Some(rows), Some(source_file_name)) => {
                        match find_line_number_entry(frame.byte_code_index, rows) {
                            Some(row) => {
                                let path = class_location(
                                    frame.method.class.signature.signature.as_str(),
                                    source_file_name.as_str(),
                                );
                                let entry = DebugEntry {
                                    address: info.pc_address,
                                    line_number: row.line_number,
                                    path,
                                };
                                entries.push(entry);
                            },
                            None => {
                                assert(false);
                            },
                        }
                    },
                    _ => {
                        assert(false);
                    },
                }
            },
            None => {},
        }
        i += 1;
    }
    assert(stack_info@.take(stack_info.len() as int) =~= stack_info@);
    entries
}

/// The debug entries that a table of address locations gives: one for each
/// location whose bytecode index has a line-number row in effect, in the
/// order of the locations, all with the same source file.
pub open spec fn address_entries(
    path: Seq<char>,
    rows: Seq<LineNumberEntry>,
    locations: Seq<AddressLocationEntry>,
) -> Seq<DebugEntryView>
    decreases locations.len(),
{
    if locations.len() == 0 {
        Seq::empty()
    } else {
        let before = address_entries(path, rows, locations.drop_last());
        match line_in_effect(rows, (locations.last().location as i32) as int) {
            Some(row) => before.push(
                DebugEntryView {
                    address: locations.last().start_address,
                    line_number: row.line_number,
                    path,
                },
            ),
            None => before,
        }
    }
}

/// The debug entries of a method without inlining stacks.
pub fn entries_without_stack_info(
    class_signature: &str,
    class_source_file_name: &str,
    line_numbers: &Vec<LineNumberEntry>,
    address_locations: &Vec<AddressLocationEntry>,
) -> (entries: Vec<DebugEntry>)
    ensures
        debug_entry_views(entries@) == address_entries(
            source_path(class_signature@, class_source_file_name@),
            line_numbers@,
            address_locations@,
        ),
{
    let ghost path = source_path(class_signature@, class_source_file_name@);
    let mut entries: Vec<DebugEntry> = Vec::new();
    let mut i: usize = 0;
    while i < address_locations.len()
        invariant
            i <= address_locations.len(),
            path == source_path(class_signature@, class_source_file_name@),
            debug_entry_views(entries@) == address_entries(
                path,
                line_numbers@,
                address_locations@.take(i as int),
            ),
        decreases address_locations.len() - i,
    {
        let location = &address_locations[i];
        assert(address_locations@.take(i + 1).drop_last() =~= address_locations@.take(i as int));
        let index: i32 = #[verifier::truncate] (location.location as i32);
        match find_line_number_entry(index, line_numbers) {
            Some(row) => {
                let entry = DebugEntry {
                    address: location.start_address,
                    line_number: row.line_number,
                    path: class_location(class_signature, class_source_file_name),
                };
                entries.push(entry);
            },
            None => {},
        }
        i += 1;
    }
    assert(address_locations@.take(address_locations.len() as int) =~= address_locations@);
    entries
}

/// The debug entries to write for a compiled method, or none where no
/// debug-info record is to be written. Where inlining stacks are there they
/// decide alone, and a record without entries is not written; else the line
/// numbers, the address locations and the source file name decide, if all
/// three are there.
pub open spec fn debug_entries_of(
    class_signature: Seq<char>,
    class_source_file_name: Option<String>,
    line_numbers: Option<Vec<LineNumberEntry>>,
    address_locations: Option<Vec<AddressLocationEntry>>,
    stack_info: Option<Vec<StackInfo>>,
) -> Option<Seq<DebugEntryView>> {
    if stack_info is Some && stack_info->0@.len() > 0 {
        if stack_entries(stack_info->0@).len() > 0 {
            Some(stack_entries(stack_info->0@))
        } else {
            None
        }
    } else {
        match (class_source_file_name, line_numbers, address_locations) {
            (Some(file), Some(rows), Some(locations)) => Some(
                address_entries(source_path(class_signature, file@), rows@, locations@),
            ),
            _ => None,
        }
    }
}

/// Chooses the debug entries of a compiled method.
pub fn debug_entries(
    class_signature: &str,
    class_source_file_name: &Option<String>,
    line_numbers: &Option<Vec<LineNumberEntry>>,
    address_locations: &Option<Vec<AddressLocationEntry>>,
    stack_info: &Option<Vec<StackInfo>>,
) -> (result: Option<Vec<DebugEntry>>)
    ensures
        match result {
            Some(entries) => debug_entries_of(
                class_signature@,
                *class_source_file_name,
                *line_numbers,
                *address_locations,
                *stack_info,
            ) == Some(debug_entry_views(entries@)),
            None => debug_entries_of(
                class_signature@,
                *class_source_file_name,
                *line_numbers,
                *address_locations,
                *stack_info,
            ) is None,
        },
{
    match stack_info {
        Some(stack) => {
            if stack.len() > 0 {
                let entries = entries_with_stack_info(stack);
                if entries.len() > 0 {
                    return Some(entries);
                } else {
                    return None;
                }
            }
        },
        None => {},
    }
    match (class_source_file_name, line_numbers, address_locations) {
        (Some(file), Some(rows), Some(locations)) => Some(
            entries_without_stack_info(class_signature, file.as_str(), rows, locations),
        ),
        _ => None,
    }
}

} // verus!
