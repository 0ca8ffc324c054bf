//! The dump as a stream of bytes that only grows.
use nix::time::{clock_gettime, ClockId};
use nix::unistd::{getpid, gettid};
use vstd::prelude::*;
use crate::agent::StackInfo;
use crate::demangle::grammar::{parse_class_type, parse_method_type};
use crate::demangle::{ClassType, MethodType};
use crate::perf::lines::{
    address_entries,
    debug_entries,
    debug_entries_of,
    debug_entry_views,
    entries_with_stack_info,
    entries_without_stack_info,
    source_path,
    stack_entries,
    DebugEntry,
    DebugEntryView,
};
use crate::perf::records::{
    code_close_bytes,
    code_close_record,
    code_load_bytes,
    code_load_record,
    code_load_size,
    debug_info_bytes,
    debug_info_record,
    debug_info_size,
    get_e_machine,
    header_bytes,
    header_record,
    is_elf,
};
use crate::perf::bytes::u16_at_front;
use crate::perf::{Endianness, WriteHeaderError, WriteRecordError};
use crate::rvmti::{AddressLocationEntry, ClassSignature, LineNumberEntry, MethodName};
use crate::text::push_char;
use vstd::string::StringExecFns;

verus! {

/// `nix::time::clock_gettime` on the monotonic clock: the seconds and the
/// nanoseconds that the clock shows, or the error number of the call.
#[verifier::external_body]
fn monotonic_time() -> Result<(i64, i64), nix::errno::Errno> {
    match clock_gettime(ClockId::CLOCK_MONOTONIC) {
        Ok(time) => Ok((time.tv_sec() as i64, time.tv_nsec() as i64)),
        Err(e) => Err(e),
    }
}

/// `nix::unistd::getpid`: the id of this process.
#[verifier::external_body]
fn get_pid() -> i32 {
    getpid().as_raw()
}

/// `nix::unistd::gettid`: the id of the calling thread.
#[verifier::external_body]
fn get_tid() -> i32 {
    gettid().as_raw()
}

/// A time of `seconds` and `nanos` in nanoseconds. A time that 64 bits
/// cannot hold is cut down to its low 64 bits.
pub open spec fn nanoseconds_of(seconds: i64, nanos: i64) -> i64 {
    (seconds * 1_000_000_000 + nanos) as i64
}

/// A time of `seconds` and `nanos` in nanoseconds.
pub fn nanoseconds(seconds: i64, nanos: i64) -> (timestamp: i64)
    ensures
        timestamp == nanoseconds_of(seconds, nanos),
{
    let wide: i128 = seconds as i128 * 1_000_000_000i128 + nanos as i128;
    #[verifier::truncate]
    (wide as i64)
}

/// What a reading of a clock is as a time stamp: the seconds and the
/// nanoseconds that the clock showed in nanoseconds, or the error with which
/// the reading failed.
pub open spec fn timestamp_of(reading: Result<(i64, i64), nix::errno::Errno>) -> Result<
    i64,
    nix::errno::Errno,
> {
    match reading {
        Ok((seconds, nanos)) => Ok(nanoseconds_of(seconds, nanos)),
        Err(e) => Err(e),
    }
}

/// The time stamp that a reading of a clock gives.
pub fn timestamp_from(reading: Result<(i64, i64), nix::errno::Errno>) -> (timestamp: Result<
    i64,
    nix::errno::Errno,
>)
    ensures
        timestamp == timestamp_of(reading),
{
    match reading {
        Ok((seconds, nanos)) => Ok(nanoseconds(seconds, nanos)),
        Err(e) => Err(e),
    }
}

/// The time of the monotonic clock in nanoseconds.
pub fn get_timestamp() -> Result<i64, nix::errno::Errno> {
    timestamp_from(monotonic_time())
}

/// The name under which a compiled method is listed: its definition in
/// source form, or, where a signature cannot be read, the class signature,
/// a dot, the method's name and the method's signature as they are.
pub open spec fn combined_name_of(
    method_name: Seq<char>,
    method_signature: Seq<char>,
    class_signature: Seq<char>,
) -> Seq<char> {
    match (parse_method_type(method_signature), parse_class_type(class_signature)) {
        (Some(method), Some(class)) => method.method_definition(method_name, class.source_form()),
        _ => class_signature + seq!['.'] + method_name + method_signature,
    }
}

/// The name under which a compiled method is listed.
pub fn combined_name(name: &MethodName, class_signature: &ClassSignature) -> (combined: String)
    ensures
        combined@ == combined_name_of(name.name@, name.signature@, class_signature.signature@),
{
    match MethodType::new(name.signature.as_str()) {
        Ok(method) => match ClassType::new(class_signature.signature.as_str()) {
            Ok(class) => {
                return method.display_as_method_definition(name.name.as_str(), &class);
            },
            Err(_) => {},
        },
        Err(_) => {},
    }
    let mut combined = String::new();
    combined.append(class_signature.signature.as_str());
    push_char(&mut combined, '.');
    combined.append(name.name.as_str());
    combined.append(name.signature.as_str());
    combined
}

/// Whether a stream went from `before` to `after`, with the outcome
/// `result`, as the writing of the debug-info record with the entries
/// `chosen` does it: without entries chosen nothing is written; with them
/// the record is put at the end, unless it would be too large, which is
/// the one failure, and after which the stream is as it was.
pub open spec fn wrote_debug_info(
    before: Seq<u8>,
    after: Seq<u8>,
    order: Endianness,
    address: usize,
    timestamp: i64,
    chosen: Option<Seq<DebugEntryView>>,
    result: Result<(), WriteRecordError>,
) -> bool {
    match result {
        Ok(_) => match chosen {
            Some(entries) => debug_info_size(entries) <= u32::MAX && after == before
                + debug_info_bytes(order, address, timestamp, entries),
            None => after == before,
        },
        Err(e) => chosen matches Some(entries) && debug_info_size(entries) > u32::MAX && e
            is RecordTooLarge && after == before,
    }
}

/// A jitdump stream in memory. Every operation that writes puts whole
/// records at the end and changes nothing before it. Its view is the bytes
/// in the stream; the byte order of its numbers, which no operation
/// changes, is `order()`.
#[derive(Debug)]
pub struct DumpFile {
    order: Endianness,
    bytes: Vec<u8>,
}

impl View for DumpFile {
    type V = Seq<u8>;

    closed spec fn view(&self) -> Seq<u8> {
        self.bytes@
    }
}

impl DumpFile {
    /// The byte order of the numbers in the stream.
    pub closed spec fn order(&self) -> Endianness {
        self.order
    }

    /// An empty stream whose numbers will stand in `order`.
    pub fn new(order: Endianness) -> (file: DumpFile)
        ensures
            file@ == Seq::<u8>::empty(),
            file.order() == order,
    {
        DumpFile { order, bytes: Vec::new() }
    }

    /// The byte order of the numbers in the stream.
    pub fn byte_order(&self) -> (order: Endianness)
        ensures
            order == self.order(),
    {
        self.order
    }

    /// The number of bytes in the stream.
    pub fn len(&self) -> (n: usize)
        ensures
            n == self@.len(),
    {
        self.bytes.len()
    }

    /// The bytes in the stream.
    pub fn as_bytes(&self) -> (bytes: &[u8])
        ensures
            bytes@ == self@,
    {
        self.bytes.as_slice()
    }

    /// Takes the bytes out of the stream, which is empty afterwards.
    pub fn take_bytes(&mut self) -> (bytes: Vec<u8>)
        ensures
            bytes@ == old(self)@,
            final(self)@ == Seq::<u8>::empty(),
            final(self).order() == old(self).order(),
    {
        let mut bytes: Vec<u8> = Vec::new();
        bytes.append(&mut self.bytes);
        bytes
    }

    /// Appends a finished record.
    fn append(&mut self, record: Vec<u8>)
        ensures
            final(self)@ == old(self)@ + record@,
            final(self).order() == old(self).order(),
    {
        let mut record = record;
        self.bytes.append(&mut record);
    }

    /// Writes the file header for the program whose file starts with
    /// `elf_header`, with this process's id and the time of the monotonic
    /// clock. Where that fails nothing is written.
    pub fn write_header(&mut self, elf_header: &[u8; 20]) -> (result: Result<(), WriteHeaderError>)
        ensures
            final(self).order() == old(self).order(),
            match result {
                Ok(_) => is_elf(elf_header@) && exists|pid: i32, timestamp: i64|
                    final(self)@ == old(self)@ + #[trigger] header_bytes(
                        old(self).order(),
                        u16_at_front(old(self).order(), elf_header@.subrange(18, 20)),
                        pid,
                        timestamp,
                    ),
                Err(WriteHeaderError::FailedToGetEMachine(e)) => !is_elf(elf_header@) && e
                    is NotAnElfFile && final(self)@ == old(self)@,
                Err(WriteHeaderError::FailedToGetTimestamp(_)) => is_elf(elf_header@) && final(self)@
                    == old(self)@,
                Err(WriteHeaderError::IoError(_)) => false,
            },
    {
        let machine = match get_e_machine(self.order, elf_header) {
            Ok(machine) => machine,
            Err(e) => {
                return Err(WriteHeaderError::FailedToGetEMachine(e));
            },
        };
        let timestamp = match get_timestamp() {
            Ok(timestamp) => timestamp,
            Err(e) => {
                return Err(WriteHeaderError::FailedToGetTimestamp(e));
            },
        };
        let pid = get_pid();
        let record = header_record(self.order, machine, pid, timestamp);
        self.append(record);
        Ok(())
    }

    /// Writes the record that ends the stream, with the time of the
    /// monotonic clock. Where the clock cannot be read nothing is written.
    pub fn write_code_close_record(&mut self) -> (result: Result<(), WriteRecordError>)
        ensures
            final(self).order() == old(self).order(),
            match result {
                Ok(_) => exists|timestamp: i64|
                    final(self)@ == old(self)@ + #[trigger] code_close_bytes(
                        old(self).order(),
                        timestamp,
                    ),
                Err(e) => e is FailedToGetTimestamp && final(self)@ == old(self)@,
            },
    {
        let timestamp = match get_timestamp() {
            Ok(timestamp) => timestamp,
            Err(e) => {
                return Err(WriteRecordError::FailedToGetTimestamp(e));
            },
        };
        let record = code_close_record(self.order, timestamp);
        self.append(record);
        Ok(())
    }

    /// Writes a code-load record for code named `name`, with the ids of this
    /// process and of the calling thread. A record that would be too large
    /// is not written.
    pub fn write_jit_code_load(
        &mut self,
        name: String,
        address: usize,
        length: usize,
        code_index: u64,
        timestamp: i64,
        code: &Vec<u8>,
    ) -> (result: Result<(), WriteRecordError>)
        ensures
            final(self).order() == old(self).order(),
            match result {
                Ok(_) => code_load_size(name@, length) <= u32::MAX && exists|pid: i32, tid: i32|
                    final(self)@ == old(self)@ + #[trigger] code_load_bytes(
                        old(self).order(),
                        pid,
                        tid,
                        name@,
                        address,
                        length,
                        code_index,
                        timestamp,
                        code@,
                    ),
                Err(e) => code_load_size(name@, length) > u32::MAX && e is RecordTooLarge
                    && final(self)@ == old(self)@,
            },
    {
        let pid = get_pid();
        let tid = get_tid();
        let record = match code_load_record(
            self.order,
            pid,
            tid,
            name.as_str(),
            address,
            length,
            code_index,
            timestamp,
            code,
        ) {
            Ok(record) => record,
            Err(e) => {
                return Err(e);
            },
        };
        self.append(record);
        Ok(())
    }

    /// Writes a code-load record for a compiled method, under the method's
    /// combined name. What else is known of the method does not enter the
    /// record.
    pub fn write_compiled_method_load(
        &mut self,
        name: MethodName,
        class_signature: ClassSignature,
        _class_source_file_name: Option<String>,
        address: usize,
        length: usize,
        _line_numbers: Option<Vec<LineNumberEntry>>,
        _address_locations: Option<Vec<AddressLocationEntry>>,
        _stack_info: Option<Vec<StackInfo>>,
        code_index: u64,
        timestamp: i64,
        code: &Vec<u8>,
    ) -> (result: Result<(), WriteRecordError>)
        ensures
            final(self).order() == old(self).order(),
            ({
                let combined = combined_name_of(
                    name.name@,
                    name.signature@,
                    class_signature.signature@,
                );
                match result {
                    Ok(_) => code_load_size(combined, length) <= u32::MAX && exists|
                        pid: i32,
                        tid: i32,
                    |
                        final(self)@ == old(self)@ + #[trigger] code_load_bytes(
                            old(self).order(),
                            pid,
                            tid,
                            combined,
                            address,
                            length,
                            code_index,
                            timestamp,
                            code@,
                        ),
                    Err(e) => code_load_size(combined, length) > u32::MAX && e
                        is RecordTooLarge && final(self)@ == old(self)@,
                }
            }),
    {
        let combined = combined_name(&name, &class_signature);
        self.write_jit_code_load(combined, address, length, code_index, timestamp, code)
    }

    /// Writes the debug-info record of a compiled method, if it is to have
    /// one. A record that would be too large is not written. The method's
    /// name does not enter the record.
    pub fn write_line_numbers(
        &mut self,
        _name: &MethodName,
        class_signature: &ClassSignature,
        class_source_file_name: &Option<String>,
        address: usize,
        line_numbers: &Option<Vec<LineNumberEntry>>,
        address_locations: &Option<Vec<AddressLocationEntry>>,
        stack_info: &Option<Vec<StackInfo>>,
        timestamp: i64,
    ) -> (result: Result<(), WriteRecordError>)
        ensures
            final(self).order() == old(self).order(),
            wrote_debug_info(
                old(self)@,
                final(self)@,
                old(self).order(),
                address,
                timestamp,
                debug_entries_of(
                    class_signature.signature@,
                    *class_source_file_name,
                    *line_numbers,
                    *address_locations,
                    *stack_info,
                ),
                result,
            ),
    {
        let entries = match debug_entries(
            class_signature.signature.as_str(),
            class_source_file_name,
            line_numbers,
            address_locations,
            stack_info,
        ) {
            Some(entries) => entries,
            None => {
                return Ok(());
            },
        };
        self.write_debug_info(address, timestamp, &entries)
    }

    /// Writes a debug-info record with the entries `entries`.
    fn write_debug_info(&mut self, address: usize, timestamp: i64, entries: &Vec<DebugEntry>) -> (result:
        Result<(), WriteRecordError>)
        ensures
            final(self).order() == old(self).order(),
            wrote_debug_info(
                old(self)@,
                final(self)@,
                old(self).order(),
                address,
                timestamp,
                Some(debug_entry_views(entries@)),
                result,
            ),
    {
        let record = match debug_info_record(self.order, address, timestamp, entries) {
            Ok(record) => record,
            Err(e) => {
                return Err(e);
            },
        };
        self.append(record);
        Ok(())
    }

    /// Writes the debug-info record of a compiled method from its line
    /// numbers and address locations, also where it has no entries.
    pub fn write_line_numbers_without_stack_info(
        &mut self,
        _name: &MethodName,
        class_signature: &ClassSignature,
        class_source_file_name: &str,
        line_numbers: &Vec<LineNumberEntry>,
        address_locations: &Vec<AddressLocationEntry>,
        address: usize,
        timestamp: i64,
    ) -> (result: Result<(), WriteRecordError>)
        ensures
            final(self).order() == old(self).order(),
            wrote_debug_info(
                old(self)@,
                final(self)@,
                old(self).order(),
                address,
                timestamp,
                Some(
                    address_entries(
                        source_path(class_signature.signature@, class_source_file_name@),
                        line_numbers@,
                        address_locations@,
                    ),
                ),
                result,
            ),
    {
        let entries = entries_without_stack_info(
            class_signature.signature.as_str(),
            class_source_file_name,
            line_numbers,
            address_locations,
        );
        self.write_debug_info(address, timestamp, &entries)
    }

    /// Writes the debug-info record of a compiled method from its inlining
    /// stacks, unless no stack gives an entry.
    pub fn write_line_numbers_with_stack_info(
        &mut self,
        stack_info: &Vec<StackInfo>,
        address: usize,
        timestamp: i64,
    ) -> (result: Result<(), WriteRecordError>)
        ensures
            final(self).order() == old(self).order(),
            wrote_debug_info(
                old(self)@,
                final(self)@,
                old(self).order(),
                address,
                timestamp,
                if stack_entries(stack_info@).len() > 0 {
                    Some(stack_entries(stack_info@))
                } else {
                    None
                },
                result,
            ),
    {
        let entries = entries_with_stack_info(stack_info);
        if entries.len() == 0 {
            return Ok(());
        }
        self.write_debug_info(address, timestamp, &entries)
    }
}

} // verus!
