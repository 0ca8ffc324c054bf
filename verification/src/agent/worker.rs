//! The writer: it takes one message after the other and puts the records
//! that the message asks for at the end of the dump, in memory. The caller
//! puts them into the file and tells the writer how that went; only then
//! does the index of code-load records move on.
use vstd::prelude::*;
use crate::agent::AgentMessage;
use crate::perf::dump_file::{combined_name_of, DumpFile};
use crate::perf::lines::{debug_entries_of, DebugEntryView};
use crate::perf::records::{
    code_close_bytes,
    code_load_bytes,
    code_load_size,
    debug_info_bytes,
    debug_info_size,
    header_bytes,
    is_elf,
};
use crate::perf::bytes::u16_at_front;
use crate::perf::{Endianness, WriteHeaderError, WriteRecordError};

verus! {

/// Whether the writer goes on taking messages.
#[derive(Debug, Clone, Copy, PartialEq, Eq, Structural)]
pub enum Flow {
    /// Take the next message.
    Continue,
    /// Take no more messages: end the stream.
    Stop,
}

/// What a message made the writer do.
#[derive(Debug)]
pub struct Handled {
    /// Whether the writer goes on.
    pub flow: Flow,
    /// Why the debug-info record of the message was not put into the
    /// stream, if it was to be and was not.
    pub line_numbers_error: Option<WriteRecordError>,
    /// Why the code-load record of the message was not put into the stream,
    /// if it was to be and was not.
    pub code_load_error: Option<WriteRecordError>,
    /// How many bytes the debug-info record has that the message put into
    /// the stream; zero where it put none.
    pub debug_info_len: usize,
    /// Whether the message put a code-load record into the stream, after
    /// the debug-info record if there is one.
    pub code_load_in_stream: bool,
}

/// The writer's state: the dump and the index of the next code-load record.
#[derive(Debug)]
pub struct Worker {
    dump_file: DumpFile,
    code_index: u64,
}

/// Whether `record` is a code-load record of these values, whatever
/// process and thread made it.
pub open spec fn is_code_load(
    record: Seq<u8>,
    order: Endianness,
    name: Seq<char>,
    address: usize,
    length: usize,
    code_index: u64,
    timestamp: i64,
    code: Seq<u8>,
) -> bool {
    exists|pid: i32, tid: i32|
        record == #[trigger] code_load_bytes(
            order,
            pid,
            tid,
            name,
            address,
            length,
            code_index,
            timestamp,
            code,
        )
}

/// The index after `code_index`.
pub open spec fn next_index(code_index: u64) -> u64 {
    if code_index == u64::MAX {
        0
    } else {
        (code_index + 1) as u64
    }
}

/// Whether a message that announces code at `address` of `length` bytes is
/// taken up: code at address zero or without bytes is dropped.
pub open spec fn announces_code(address: usize, length: usize) -> bool {
    address != 0 && length > 0
}

/// The debug-info record that a compiled method gets: none where no entries
/// are chosen for it or where the record would be too large.
pub open spec fn debug_info_part(
    order: Endianness,
    address: usize,
    timestamp: i64,
    chosen: Option<Seq<DebugEntryView>>,
) -> Seq<u8> {
    match chosen {
        Some(entries) => if debug_info_size(entries) <= u32::MAX {
            debug_info_bytes(order, address, timestamp, entries)
        } else {
            Seq::empty()
        },
        None => Seq::empty(),
    }
}

impl Worker {
    /// The bytes that were put into the stream and not yet taken out.
    pub closed spec fn dump(&self) -> Seq<u8> {
        self.dump_file@
    }

    /// The byte order of the dump.
    pub closed spec fn order(&self) -> Endianness {
        self.dump_file.order()
    }

    /// The index that the next code-load record gets.
    pub closed spec fn code_index(&self) -> u64 {
        self.code_index
    }

    /// A writer at the start of `dump_file`'s life: the first code-load
    /// record will have index zero.
    pub fn new(dump_file: DumpFile) -> (worker: Worker)
        ensures
            worker.dump() == dump_file@,
            worker.order() == dump_file.order(),
            worker.code_index() == 0,
    {
        Worker { dump_file, code_index: 0 }
    }

    /// The index that the next code-load record gets.
    pub fn next_code_index(&self) -> (index: u64)
        ensures
            index == self.code_index(),
    {
        self.code_index
    }

    /// Writes the file header; see `DumpFile::write_header`.
    pub fn write_header(&mut self, elf_header: &[u8; 20]) -> (result: Result<(), WriteHeaderError>)
        ensures
            final(self).order() == old(self).order(),
            final(self).code_index() == old(self).code_index(),
            match result {
                Ok(_) => is_elf(elf_header@) && exists|pid: i32, timestamp: i64|
                    final(self).dump() == old(self).dump() + #[trigger] header_bytes(
                        old(self).order(),
                        u16_at_front(old(self).order(), elf_header@.subrange(18, 20)),
                        pid,
                        timestamp,
                    ),
                Err(WriteHeaderError::FailedToGetEMachine(e)) => !is_elf(elf_header@) && e
                    is NotAnElfFile && final(self).dump() == old(self).dump(),
                Err(WriteHeaderError::FailedToGetTimestamp(_)) => is_elf(elf_header@) && final(
                    self).dump() == old(self).dump(),
                Err(WriteHeaderError::IoError(_)) => false,
            },
    {
        self.dump_file.write_header(elf_header)
    }

    /// Takes one message, or the news that no message will come any more,
    /// which `None` stands for.
    ///
    /// A request to shut down, or no message, stops the writer and puts
    /// nothing into the stream. Generated code with a name is listed under
    /// that name, a compiled method under its combined name, after its
    /// debug-info record if it has one. Code at address zero or without
    /// bytes, and generated code without a name, is dropped. A code-load
    /// record carries the index as it stands. The index itself stays: it
    /// moves on in `after_write`, once the record is in the file.
    pub fn on_message(&mut self, message: Option<AgentMessage>) -> (handled: Handled)
        ensures
            final(self).order() == old(self).order(),
            final(self).code_index() == old(self).code_index(),
            match message {
                None | Some(AgentMessage::Shutdown) => {
                    &&& handled.flow == Flow::Stop
                    &&& final(self).dump() == old(self).dump()
                    &&& handled.line_numbers_error is None
                    &&& handled.code_load_error is None
                    &&& handled.debug_info_len == 0
                    &&& !handled.code_load_in_stream
                },
                Some(
                    AgentMessage::DynamicCodeGenerated { name, address, length, timestamp, code },
                ) => {
                    &&& handled.flow == Flow::Continue
                    &&& handled.line_numbers_error is None
                    &&& handled.debug_info_len == 0
                    &&& if name is Some && announces_code(address, length) && code_load_size(
                        name->0@,
                        length,
                    ) <= u32::MAX {
                        &&& handled.code_load_error is None
                        &&& handled.code_load_in_stream
                        &&& exists|record: Seq<u8>|
                            final(self).dump() == old(self).dump() + record && #[trigger] is_code_load(
                                record,
                                old(self).order(),
                                name->0@,
                                address,
                                length,
                                old(self).code_index(),
                                timestamp,
                                code@,
                            )
                    } else {
                        &&& final(self).dump() == old(self).dump()
                        &&& !handled.code_load_in_stream
                        &&& handled.code_load_error is Some <==> name is Some && announces_code(
                            address,
                            length,
                        )
                        &&& handled.code_load_error matches Some(e) ==> e is RecordTooLarge
                    }
                },
                Some(
                    AgentMessage::CompiledMethodLoad {
                        name,
                        class_signature,
                        class_source_file_name,
                        address,
                        length,
                        line_numbers,
                        address_locations,
                        stack_info,
                        timestamp,
                        code,
                    },
                ) => {
                    let chosen = debug_entries_of(
                        class_signature.signature@,
                        class_source_file_name,
                        line_numbers,
                        address_locations,
                        stack_info,
                    );
                    let debug_info = debug_info_part(
                        old(self).order(),
                        address,
                        timestamp,
                        chosen,
                    );
                    let combined = combined_name_of(
                        name.name@,
                        name.signature@,
                        class_signature.signature@,
                    );
                    &&& handled.flow == Flow::Continue
                    &&& if !announces_code(address, length) {
                        &&& final(self).dump() == old(self).dump()
                        &&& handled.line_numbers_error is None
                        &&& handled.code_load_error is None
                        &&& handled.debug_info_len == 0
                        &&& !handled.code_load_in_stream
                    } else {
                        &&& handled.line_numbers_error is Some <==> chosen is Some
                            && debug_info_size(chosen->0) > u32::MAX
                        &&& handled.line_numbers_error matches Some(e) ==> e is RecordTooLarge
                        &&& handled.debug_info_len == debug_info.len()
                        &&& if code_load_size(combined, length) <= u32::MAX {
                            &&& handled.code_load_error is None
                            &&& handled.code_load_in_stream
                            &&& exists|record: Seq<u8>|
                                final(self).dump() == old(self).dump() + debug_info + record
                                    && #[trigger] is_code_load(
                                    record,
                                    old(self).order(),
                                    combined,
                                    address,
                                    length,
                                    old(self).code_index(),
                                    timestamp,
                                    code@,
                                )
                        } else {
                            &&& handled.code_load_error matches Some(e) && e is RecordTooLarge
                            &&& !handled.code_load_in_stream
                            &&& final(self).dump() == old(self).dump() + debug_info
                        }
                    }
                },
            },
    {
        let message = match message {
            Some(message) => message,
            None => {
                return Handled {
                    flow: Flow::Stop,
                    line_numbers_error: None,
                    code_load_error: None,
                    debug_info_len: 0,
                    code_load_in_stream: false,
                };
            },
        };
        match message {
            AgentMessage::Shutdown => Handled {
                flow: Flow::Stop,
                line_numbers_error: None,
                code_load_error: None,
                debug_info_len: 0,
                code_load_in_stream: false,
            },
            AgentMessage::DynamicCodeGenerated { name, address, length, timestamp, code } => {
                let mut code_load_error: Option<WriteRecordError> = None;
                let mut code_load_in_stream = false;
                match name {
                    Some(name) => {
                        if address != 0 && length > 0 {
                            let ghost before = self.dump_file@;
                            match self.dump_file.write_jit_code_load(
                                name,
                                address,
                                length,
                                self.code_index,
                                timestamp,
                                &code,
                            ) {
                                Ok(_) => {
                                    proof {
                                        let (pid, tid) = choose|pid: i32, tid: i32|
                                            self.dump_file@ == before + #[trigger] code_load_bytes(
                                                old(self).order(),
                                                pid,
                                                tid,
                                                name@,
                                                address,
                                                length,
                                                old(self).code_index(),
                                                timestamp,
                                                code@,
                                            );
                                        let record = code_load_bytes(
                                            old(self).order(),
                                            pid,
                                            tid,
                                            name@,
                                            address,
                                            length,
                                            old(self).code_index(),
                                            timestamp,
                                            code@,
                                        );
                                        assert(is_code_load(
                                            record,
                                            old(self).order(),
                                            name@,
                                            address,
                                            length,
                                            old(self).code_index(),
                                            timestamp,
                                            code@,
                                        ));
                                    }
                                    code_load_in_stream = true;
                                },
                                Err(e) => {
                                    code_load_error = Some(e);
                                },
                            }
                        }
                    },
                    None => {},
                }
                Handled {
                    flow: Flow::Continue,
                    line_numbers_error: None,
                    code_load_error,
                    debug_info_len: 0,
                    code_load_in_stream,
                }
            },
            AgentMessage::CompiledMethodLoad {
                name,
                class_signature,
                class_source_file_name,
                address,
                length,
                line_numbers,
                address_locations,
                stack_info,
                timestamp,
                code,
            } => {
                let mut line_numbers_error: Option<WriteRecordError> = None;
                let mut code_load_error: Option<WriteRecordError> = None;
                let mut debug_info_len: usize = 0;
                let mut code_load_in_stream = false;
                if address != 0 && length > 0 {
                    let start = self.dump_file.len();
                    let ghost combined = combined_name_of(
                        name.name@,
                        name.signature@,
                        class_signature.signature@,
                    );
                    match self.dump_file.write_line_numbers(
                        &name,
                        &class_signature,
                        &class_source_file_name,
                        address,
                        &line_numbers,
                        &address_locations,
                        &stack_info,
                        timestamp,
                    ) {
                        Ok(_) => {},
                        Err(e) => {
                            line_numbers_error = Some(e);
                        },
                    }
                    debug_info_len = self.dump_file.len() - start;
                    let ghost before = self.dump_file@;
                    match self.dump_file.write_compiled_method_load(
                        name,
                        class_signature,
                        class_source_file_name,
                        address,
                        length,
                        line_numbers,
                        address_locations,
                        stack_info,
                        self.code_index,
                        timestamp,
                        &code,
                    ) {
                        Ok(_) => {
                            proof {
                                let (pid, tid) = choose|pid: i32, tid: i32|
                                    self.dump_file@ == before + #[trigger] code_load_bytes(
                                        old(self).order(),
                                        pid,
                                        tid,
                                        combined,
                                        address,
                                        length,
                                        old(self).code_index(),
                                        timestamp,
                                        code@,
                                    );
                                let record = code_load_bytes(
                                    old(self).order(),
                                    pid,
                                    tid,
                                    combined,
                                    address,
                                    length,
                                    old(self).code_index(),
                                    timestamp,
                                    code@,
                                );
                                assert(is_code_load(
                                    record,
                                    old(self).order(),
                                    combined,
                                    address,
                                    length,
                                    old(self).code_index(),
                                    timestamp,
                                    code@,
                                ));
                            }
                            code_load_in_stream = true;
                        },
                        Err(e) => {
                            code_load_error = Some(e);
                        },
                    }
                }
                Handled {
                    flow: Flow::Continue,
                    line_numbers_error,
                    code_load_error,
                    debug_info_len,
                    code_load_in_stream,
                }
            },
        }
    }

    /// Takes the news of how the caller's write of a message's records into
    /// the file went. The index moves on by one exactly when the message had
    /// put a code-load record into the stream and that record is now in the
    /// file. A record that did not reach the file is skipped: the next
    /// code-load record carries the index that it would have had.
    pub fn after_write(&mut self, code_load_in_stream: bool, written: bool)
        ensures
            final(self).code_index() == if code_load_in_stream && written {
                next_index(old(self).code_index())
            } else {
                old(self).code_index()
            },
            final(self).dump() == old(self).dump(),
            final(self).order() == old(self).order(),
    {
        if code_load_in_stream && written {
            self.code_index = self.code_index.wrapping_add(1);
        }
    }

    /// Ends the stream; see `DumpFile::write_code_close_record`.
    pub fn finish(&mut self) -> (result: Result<(), WriteRecordError>)
        ensures
            final(self).order() == old(self).order(),
            final(self).code_index() == old(self).code_index(),
            match result {
                Ok(_) => exists|timestamp: i64|
                    final(self).dump() == old(self).dump() + #[trigger] code_close_bytes(
                        old(self).order(),
                        timestamp,
                    ),
                Err(e) => e is FailedToGetTimestamp && final(self).dump() == old(self).dump(),
            },
    {
        self.dump_file.write_code_close_record()
    }

    /// Takes the bytes out of the stream, for the caller to put them into
    /// the file.
    pub fn take_bytes(&mut self) -> (bytes: Vec<u8>)
        ensures
            bytes@ == old(self).dump(),
            final(self).dump() == Seq::<u8>::empty(),
            final(self).order() == old(self).order(),
            final(self).code_index() == old(self).code_index(),
    {
        self.dump_file.take_bytes()
    }
}

/// The debug-info record of a compiled method stands in the stream before
/// the method's code-load record: where there is one it is not empty, so
/// the code-load record, which comes right after it, starts further on.
pub proof fn lemma_debug_info_stands_first(
    order: Endianness,
    address: usize,
    timestamp: i64,
    entries: Seq<DebugEntryView>,
    before: Seq<u8>,
    code_load: Seq<u8>,
)
    requires
        debug_info_size(entries) <= u32::MAX,
    ensures
        ({
            let debug_info = debug_info_part(order, address, timestamp, Some(entries));
            let stream = before + debug_info + code_load;
            &&& debug_info == debug_info_bytes(order, address, timestamp, entries)
            &&& stream.subrange(before.len() as int, (before.len() + debug_info.len()) as int)
                == debug_info
            &&& stream.subrange((before.len() + debug_info.len()) as int, stream.len() as int)
                == code_load
            &&& before.len() < before.len() + debug_info.len()
        }),
{
    crate::perf::laws::lemma_debug_info_len(order, address, timestamp, entries);
}

/// As long as the index is below the largest 64-bit number, the index after
/// it is one more.
pub proof fn lemma_next_index(code_index: u64)
    requires
        code_index < u64::MAX,
    ensures
        next_index(code_index) == code_index + 1,
{
}

} // verus!
