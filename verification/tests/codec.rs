use jitdump_agent::agent::worker::{Flow, Worker};
use jitdump_agent::agent::{AgentMessage, ClassInfo, MethodInfo, StackFrameInfo, StackInfo};
use jitdump_agent::perf::dump_file::{
    combined_name, get_timestamp, nanoseconds, timestamp_from, DumpFile,
};
use jitdump_agent::perf::lines::DebugEntry;
use jitdump_agent::perf::records::{
    code_close_record, code_load_record, debug_info_record, get_e_machine, header_record,
    pre_calc_record_size,
};
use jitdump_agent::perf::{Endianness, GetEMachineError, WriteHeaderError, WriteRecordError};
use jitdump_agent::rvmti::{AddressLocationEntry, ClassSignature, LineNumberEntry, MethodName};

fn elf_header(machine_low: u8, machine_high: u8) -> [u8; 20] {
    let mut header = [0u8; 20];
    header[0] = 0x7f;
    header[1] = 0x45;
    header[2] = 0x4c;
    header[3] = 0x46;
    header[4] = 2;
    header[16] = 3;
    header[18] = machine_low;
    header[19] = machine_high;
    header
}

fn u32_le(bytes: &[u8], at: usize) -> u32 {
    u32::from_le_bytes([bytes[at], bytes[at + 1], bytes[at + 2], bytes[at + 3]])
}

fn u64_le(bytes: &[u8], at: usize) -> u64 {
    let mut value = [0u8; 8];
    value.copy_from_slice(&bytes[at..at + 8]);
    u64::from_le_bytes(value)
}

fn thread_run() -> (MethodName, ClassSignature) {
    (
        MethodName { name: "run".to_owned(), signature: "()V".to_owned(), generic_signature: None },
        ClassSignature { signature: "Ljava/lang/Thread;".to_owned(), generic_signature: None },
    )
}

fn compiled(
    source: Option<&str>,
    line_numbers: Option<Vec<LineNumberEntry>>,
    address_locations: Option<Vec<AddressLocationEntry>>,
    stack_info: Option<Vec<StackInfo>>,
) -> AgentMessage {
    let (name, class_signature) = thread_run();
    AgentMessage::CompiledMethodLoad {
        name,
        class_signature,
        class_source_file_name: source.map(|s| s.to_owned()),
        address: 0x2000,
        length: 8,
        line_numbers,
        address_locations,
        stack_info,
        timestamp: 77,
        code: vec![0x90; 8],
    }
}

#[test]
fn header_has_forty_bytes_in_the_documented_layout() {
    let header = header_record(Endianness::Little, 0x3e, 0x1234, 0x0102030405060708);
    assert_eq!(header.len(), 40);
    assert_eq!(&header[0..4], &[0x44, 0x54, 0x69, 0x4a]);
    assert_eq!(&header[4..8], &[1, 0, 0, 0]);
    assert_eq!(&header[8..12], &[40, 0, 0, 0]);
    assert_eq!(&header[12..16], &[0x3e, 0, 0, 0]);
    assert_eq!(&header[16..20], &[0, 0, 0, 0]);
    assert_eq!(&header[20..24], &[0x34, 0x12, 0, 0]);
    assert_eq!(&header[24..32], &[8, 7, 6, 5, 4, 3, 2, 1]);
    assert_eq!(&header[32..40], &[0; 8]);
}

#[test]
fn header_in_big_endian_order_turns_every_number_round() {
    let header = header_record(Endianness::Big, 0x3e, 0x1234, 0x0102030405060708);
    assert_eq!(header.len(), 40);
    assert_eq!(&header[0..4], &[0x4a, 0x69, 0x54, 0x44]);
    assert_eq!(&header[4..8], &[0, 0, 0, 1]);
    assert_eq!(&header[8..12], &[0, 0, 0, 40]);
    assert_eq!(&header[12..16], &[0, 0, 0, 0x3e]);
    assert_eq!(&header[20..24], &[0, 0, 0x12, 0x34]);
    assert_eq!(&header[24..32], &[1, 2, 3, 4, 5, 6, 7, 8]);
}

#[test]
fn negative_numbers_are_written_in_twos_complement() {
    let header = header_record(Endianness::Little, 0xffff, -2, -1);
    assert_eq!(&header[12..16], &[0xff, 0xff, 0, 0]);
    assert_eq!(&header[20..24], &[0xfe, 0xff, 0xff, 0xff]);
    assert_eq!(&header[24..32], &[0xff; 8]);
    let entries = vec![DebugEntry { address: 1, line_number: -3, path: String::new() }];
    let little = debug_info_record(Endianness::Little, 0, 0, &entries).unwrap();
    assert_eq!(&little[40..48], &[0xfd, 0xff, 0xff, 0xff, 0, 0, 0, 0]);
    let big = debug_info_record(Endianness::Big, 0, 0, &entries).unwrap();
    assert_eq!(&big[40..48], &[0xff, 0xff, 0xff, 0xfd, 0, 0, 0, 0]);
}

#[test]
fn e_machine_is_read_at_offset_eighteen() {
    assert_eq!(get_e_machine(Endianness::Little, &elf_header(0x3e, 0x00)).unwrap(), 0x3e);
    assert_eq!(get_e_machine(Endianness::Little, &elf_header(0xb7, 0x01)).unwrap(), 0x01b7);
    assert_eq!(get_e_machine(Endianness::Big, &elf_header(0x00, 0x15)).unwrap(), 0x15);
    assert_eq!(get_e_machine(Endianness::Big, &elf_header(0x01, 0xb7)).unwrap(), 0x01b7);
}

#[test]
fn files_that_are_no_elf_files_are_refused() {
    for at in 0..4 {
        let mut header = elf_header(0x3e, 0);
        header[at] ^= 1;
        assert!(matches!(
            get_e_machine(Endianness::Little, &header),
            Err(GetEMachineError::NotAnElfFile)
        ));
        let mut file = DumpFile::new(Endianness::Little);
        assert!(matches!(
            file.write_header(&header),
            Err(WriteHeaderError::FailedToGetEMachine(GetEMachineError::NotAnElfFile))
        ));
        assert_eq!(file.len(), 0);
    }
}

#[test]
fn native_byte_order_is_the_order_of_the_machine() {
    let expected =
        if 1u16.to_ne_bytes()[0] == 1 { Endianness::Little } else { Endianness::Big };
    assert_eq!(Endianness::native(), expected);
}

#[test]
fn code_close_record_has_sixteen_bytes() {
    let record = code_close_record(Endianness::Little, 9);
    assert_eq!(record, vec![3, 0, 0, 0, 16, 0, 0, 0, 9, 0, 0, 0, 0, 0, 0, 0]);
    let record = code_close_record(Endianness::Big, 9);
    assert_eq!(record, vec![0, 0, 0, 3, 0, 0, 0, 16, 0, 0, 0, 0, 0, 0, 0, 9]);
}

#[test]
fn code_load_record_lays_out_its_fields() {
    let code = vec![0xde, 0xad, 0xbe, 0xef];
    let record =
        code_load_record(Endianness::Little, 11, 12, "hello", 0x1000, 4, 5, 99, &code).unwrap();
    assert_eq!(record.len(), 16 + 40 + 6 + 4);
    assert_eq!(u32_le(&record, 0), 0);
    assert_eq!(u32_le(&record, 4), 66);
    assert_eq!(u64_le(&record, 8), 99);
    assert_eq!(u32_le(&record, 16), 11);
    assert_eq!(u32_le(&record, 20), 12);
    assert_eq!(u64_le(&record, 24), 0x1000);
    assert_eq!(u64_le(&record, 32), 0x1000);
    assert_eq!(u64_le(&record, 40), 4);
    assert_eq!(u64_le(&record, 48), 5);
    assert_eq!(&record[56..62], b"hello\0");
    assert_eq!(&record[62..], &[0xde, 0xad, 0xbe, 0xef]);
}

#[test]
fn code_load_record_counts_the_name_in_bytes() {
    let record =
        code_load_record(Endianness::Little, 1, 1, "\u{434}\u{20ac}", 1, 0, 0, 0, &vec![]).unwrap();
    assert_eq!(u32_le(&record, 4), 56 + 5 + 1);
    assert_eq!(record.len(), 62);
    assert_eq!(&record[56..], &[0xd0, 0xb4, 0xe2, 0x82, 0xac, 0]);
}

#[test]
fn records_that_their_size_field_cannot_tell_are_refused() {
    let too_long = u32::MAX as usize - 56;
    assert!(matches!(
        code_load_record(Endianness::Little, 1, 1, "", 1, too_long, 0, 0, &vec![]),
        Err(WriteRecordError::RecordTooLarge)
    ));
    let longest = u32::MAX as usize - 57;
    let record = code_load_record(Endianness::Little, 1, 1, "", 1, longest, 0, 0, &vec![]).unwrap();
    assert_eq!(u32_le(&record, 4), u32::MAX);
    let mut file = DumpFile::new(Endianness::Little);
    assert!(matches!(
        file.write_jit_code_load(String::new(), 1, usize::MAX, 0, 0, &vec![]),
        Err(WriteRecordError::RecordTooLarge)
    ));
    assert_eq!(file.len(), 0);
}

#[test]
fn debug_info_record_is_sized_before_it_is_written() {
    let entries = vec![
        DebugEntry { address: 0x2000, line_number: 42, path: "java/lang/Thread.java".to_owned() },
        DebugEntry { address: 0x2004, line_number: 43, path: "java/lang/Thread.java".to_owned() },
    ];
    assert_eq!(pre_calc_record_size(&entries), Some((32 + 2 * (17 + 21), 2)));
    assert_eq!(pre_calc_record_size(&vec![]), Some((32, 0)));
    let record = debug_info_record(Endianness::Little, 0x2000, 7, &entries).unwrap();
    assert_eq!(record.len(), 108);
    assert_eq!(u32_le(&record, 0), 2);
    assert_eq!(u32_le(&record, 4), 108);
    assert_eq!(u64_le(&record, 8), 7);
    assert_eq!(u64_le(&record, 16), 0x2000);
    assert_eq!(u64_le(&record, 24), 2);
    assert_eq!(u64_le(&record, 32), 0x2000);
    assert_eq!(u32_le(&record, 40), 42);
    assert_eq!(u32_le(&record, 44), 0);
    assert_eq!(&record[48..70], b"java/lang/Thread.java\0");
    assert_eq!(u64_le(&record, 70), 0x2004);
    assert_eq!(u32_le(&record, 78), 43);
    assert_eq!(u32_le(&record, 82), 0);
    assert_eq!(&record[86..108], b"java/lang/Thread.java\0");
    let empty = debug_info_record(Endianness::Little, 0x2000, 7, &vec![]).unwrap();
    assert_eq!(empty.len(), 32);
    assert_eq!(u64_le(&empty, 24), 0);
}

#[test]
fn timestamps_are_seconds_and_nanoseconds_in_nanoseconds() {
    assert_eq!(nanoseconds(0, 0), 0);
    assert_eq!(nanoseconds(1, 1), 1_000_000_001);
    assert_eq!(nanoseconds(12, 999_999_999), 12_999_999_999);
    assert_eq!(nanoseconds(-1, 5), -999_999_995);
    assert_eq!(nanoseconds(9_223_372_036, 854_775_807), i64::MAX);
    assert_eq!(nanoseconds(9_223_372_036, 854_775_808), i64::MIN);
    let first = get_timestamp().unwrap();
    let second = get_timestamp().unwrap();
    assert!(first > 0);
    assert!(second >= first);
}

#[test]
fn combined_name_is_the_definition_or_the_raw_descriptors() {
    let (name, class) = thread_run();
    assert_eq!(combined_name(&name, &class), "void java.lang.Thread.run()");
    let odd_method = MethodName {
        name: "run".to_owned(),
        signature: "(Q)V".to_owned(),
        generic_signature: None,
    };
    assert_eq!(combined_name(&odd_method, &class), "Ljava/lang/Thread;.run(Q)V");
    let odd_class = ClassSignature { signature: "[I".to_owned(), generic_signature: None };
    assert_eq!(combined_name(&name, &odd_class), "[I.run()V");
}

#[test]
fn file_with_one_code_load_has_one_hundred_and_six_bytes() {
    let mut file = DumpFile::new(Endianness::Little);
    file.write_header(&elf_header(0x3e, 0)).unwrap();
    assert_eq!(file.len(), 40);
    file.write_jit_code_load("hello".to_owned(), 0x1000, 4, 0, 1, &vec![1, 2, 3, 4]).unwrap();
    assert_eq!(file.len(), 40 + 16 + 40 + 6 + 4);
    assert_eq!(file.len(), 106);
}

#[test]
fn written_header_carries_this_process_and_the_clock() {
    let before = get_timestamp().unwrap();
    let mut file = DumpFile::new(Endianness::Little);
    file.write_header(&elf_header(0x3e, 0)).unwrap();
    let after = get_timestamp().unwrap();
    let bytes = file.take_bytes();
    assert_eq!(file.len(), 0);
    assert_eq!(bytes.len(), 40);
    assert_eq!(&bytes[0..4], &[0x44, 0x54, 0x69, 0x4a]);
    assert_eq!(u32_le(&bytes, 8), 40);
    assert_eq!(u32_le(&bytes, 12), 0x3e);
    assert_eq!(u32_le(&bytes, 20) as i32, nix::unistd::getpid().as_raw());
    let stamp = u64_le(&bytes, 24) as i64;
    assert!(before <= stamp && stamp <= after);
    assert_eq!(u64_le(&bytes, 32), 0);
}

#[test]
fn written_code_load_carries_this_process_and_thread() {
    let mut file = DumpFile::new(Endianness::Little);
    file.write_jit_code_load("f".to_owned(), 0x10, 1, 3, 4, &vec![0xc3]).unwrap();
    let bytes = file.as_bytes();
    assert_eq!(u32_le(bytes, 16) as i32, nix::unistd::getpid().as_raw());
    assert_eq!(u32_le(bytes, 20) as i32, nix::unistd::gettid().as_raw());
    assert_eq!(u64_le(bytes, 48), 3);
}

#[test]
fn empty_dump_is_a_header_and_a_close_record() {
    let mut worker = Worker::new(DumpFile::new(Endianness::Little));
    worker.write_header(&elf_header(0x3e, 0)).unwrap();
    let handled = worker.on_message(Some(AgentMessage::Shutdown));
    assert_eq!(handled.flow, Flow::Stop);
    worker.finish().unwrap();
    let bytes = worker.take_bytes();
    assert_eq!(bytes.len(), 40 + 16);
    assert_eq!(u32_le(&bytes, 40), 3);
    assert_eq!(u32_le(&bytes, 44), 16);
}

#[test]
fn writer_stops_when_no_message_will_come() {
    let mut worker = Worker::new(DumpFile::new(Endianness::Little));
    let handled = worker.on_message(None);
    assert_eq!(handled.flow, Flow::Stop);
    assert!(worker.take_bytes().is_empty());
    assert_eq!(worker.next_code_index(), 0);
}

#[test]
fn single_dynamic_stub_is_listed_under_its_name() {
    let mut worker = Worker::new(DumpFile::new(Endianness::Little));
    worker.write_header(&elf_header(0x3e, 0)).unwrap();
    let handled = worker.on_message(Some(AgentMessage::DynamicCodeGenerated {
        name: Some("stub_A".to_owned()),
        address: 0x1000,
        length: 8,
        timestamp: 5,
        code: vec![0x90; 8],
    }));
    assert_eq!(handled.flow, Flow::Continue);
    assert!(handled.code_load_error.is_none());
    assert!(handled.code_load_in_stream);
    assert_eq!(handled.debug_info_len, 0);
    assert_eq!(worker.next_code_index(), 0);
    worker.after_write(handled.code_load_in_stream, true);
    assert_eq!(worker.next_code_index(), 1);
    assert_eq!(worker.on_message(Some(AgentMessage::Shutdown)).flow, Flow::Stop);
    worker.finish().unwrap();
    let bytes = worker.take_bytes();
    assert_eq!(bytes.len(), 40 + 71 + 16);
    assert_eq!(u32_le(&bytes, 40), 0);
    assert_eq!(u32_le(&bytes, 44), 71);
    assert_eq!(u64_le(&bytes, 48), 5);
    assert_eq!(u64_le(&bytes, 64), 0x1000);
    assert_eq!(u64_le(&bytes, 72), 0x1000);
    assert_eq!(u64_le(&bytes, 80), 8);
    assert_eq!(u64_le(&bytes, 88), 0);
    assert_eq!(&bytes[96..103], b"stub_A\0");
    assert_eq!(&bytes[103..111], &[0x90; 8]);
    assert_eq!(u32_le(&bytes, 111), 3);
    assert_eq!(u32_le(&bytes, 115), 16);
}

#[test]
fn dropped_events_leave_the_code_index_alone() {
    let mut worker = Worker::new(DumpFile::new(Endianness::Little));
    let dropped = vec![
        AgentMessage::DynamicCodeGenerated {
            name: None,
            address: 0x1000,
            length: 8,
            timestamp: 5,
            code: vec![0x90; 8],
        },
        AgentMessage::DynamicCodeGenerated {
            name: Some("a".to_owned()),
            address: 0,
            length: 8,
            timestamp: 5,
            code: vec![0x90; 8],
        },
        AgentMessage::DynamicCodeGenerated {
            name: Some("a".to_owned()),
            address: 0x1000,
            length: 0,
            timestamp: 5,
            code: vec![],
        },
    ];
    for message in dropped {
        let handled = worker.on_message(Some(message));
        assert_eq!(handled.flow, Flow::Continue);
        assert!(handled.code_load_error.is_none());
        assert!(!handled.code_load_in_stream);
        assert_eq!(handled.debug_info_len, 0);
        worker.after_write(handled.code_load_in_stream, true);
        assert_eq!(worker.next_code_index(), 0);
        assert!(worker.take_bytes().is_empty());
    }
    let (name, class_signature) = thread_run();
    let handled = worker.on_message(Some(AgentMessage::CompiledMethodLoad {
        name,
        class_signature,
        class_source_file_name: Some("Thread.java".to_owned()),
        address: 0,
        length: 8,
        line_numbers: Some(vec![LineNumberEntry { start_location: 0, line_number: 1 }]),
        address_locations: Some(vec![AddressLocationEntry { start_address: 1, location: 0 }]),
        stack_info: None,
        timestamp: 5,
        code: vec![0x90; 8],
    }));
    assert_eq!(handled.flow, Flow::Continue);
    assert!(!handled.code_load_in_stream);
    worker.after_write(handled.code_load_in_stream, true);
    assert_eq!(worker.next_code_index(), 0);
    assert!(worker.take_bytes().is_empty());
}

#[test]
fn code_index_counts_the_code_loads_that_were_written() {
    let mut worker = Worker::new(DumpFile::new(Endianness::Little));
    for expected in 0..3u64 {
        assert_eq!(worker.next_code_index(), expected);
        let handled = worker.on_message(Some(AgentMessage::DynamicCodeGenerated {
            name: Some("s".to_owned()),
            address: 0x1000,
            length: 1,
            timestamp: 5,
            code: vec![0x90],
        }));
        assert_eq!(worker.next_code_index(), expected);
        let bytes = worker.take_bytes();
        assert_eq!(u64_le(&bytes, 48), expected);
        worker.after_write(handled.code_load_in_stream, true);
    }
    let handled = worker.on_message(Some(compiled(None, None, None, None)));
    let bytes = worker.take_bytes();
    assert_eq!(u64_le(&bytes, 48), 3);
    assert_eq!(worker.next_code_index(), 3);
    worker.after_write(handled.code_load_in_stream, true);
    assert_eq!(worker.next_code_index(), 4);
    let refused = worker.on_message(Some(AgentMessage::DynamicCodeGenerated {
        name: Some("s".to_owned()),
        address: 0x1000,
        length: usize::MAX,
        timestamp: 5,
        code: vec![0x90],
    }));
    assert!(matches!(refused.code_load_error, Some(WriteRecordError::RecordTooLarge)));
    assert!(!refused.code_load_in_stream);
    worker.after_write(refused.code_load_in_stream, true);
    assert_eq!(worker.next_code_index(), 4);
    assert!(worker.take_bytes().is_empty());
}

#[test]
fn code_index_stays_when_the_record_did_not_reach_the_file() {
    let stub = |name: &str, address: usize| AgentMessage::DynamicCodeGenerated {
        name: Some(name.to_owned()),
        address,
        length: 2,
        timestamp: 5,
        code: vec![0x90, 0xc3],
    };
    let mut worker = Worker::new(DumpFile::new(Endianness::Little));
    worker.write_header(&elf_header(0x3e, 0)).unwrap();
    let mut file: Vec<u8> = worker.take_bytes();

    let first = worker.on_message(Some(stub("first", 0x1000)));
    assert_eq!(first.flow, Flow::Continue);
    assert!(first.code_load_in_stream);
    let lost = worker.take_bytes();
    assert_eq!(u64_le(&lost, 48), 0);
    worker.after_write(first.code_load_in_stream, false);
    assert_eq!(worker.next_code_index(), 0);

    let second = worker.on_message(Some(stub("second", 0x2000)));
    assert_eq!(second.flow, Flow::Continue);
    assert!(second.code_load_in_stream);
    file.extend(worker.take_bytes());
    worker.after_write(second.code_load_in_stream, true);
    assert_eq!(worker.next_code_index(), 1);

    assert_eq!(worker.on_message(Some(AgentMessage::Shutdown)).flow, Flow::Stop);
    worker.finish().unwrap();
    file.extend(worker.take_bytes());

    assert_eq!(file.len(), 40 + (56 + 7 + 2) + 16);
    assert_eq!(u32_le(&file, 40), 0);
    assert_eq!(u64_le(&file, 40 + 24), 0x2000);
    assert_eq!(u64_le(&file, 40 + 48), 0);
    assert_eq!(&file[96..103], b"second\0");
    assert_eq!(u32_le(&file, 105), 3);
}

#[test]
fn written_flag_counts_only_for_messages_with_a_code_load() {
    let mut worker = Worker::new(DumpFile::new(Endianness::Little));
    worker.after_write(false, true);
    assert_eq!(worker.next_code_index(), 0);
    worker.after_write(false, false);
    assert_eq!(worker.next_code_index(), 0);
    worker.after_write(true, false);
    assert_eq!(worker.next_code_index(), 0);
    worker.after_write(true, true);
    assert_eq!(worker.next_code_index(), 1);
    worker.after_write(true, true);
    assert_eq!(worker.next_code_index(), 2);
}

#[test]
fn debug_info_length_tells_where_the_code_load_starts() {
    let mut worker = Worker::new(DumpFile::new(Endianness::Little));
    let handled = worker.on_message(Some(compiled(
        Some("Thread.java"),
        Some(vec![LineNumberEntry { start_location: 0, line_number: 42 }]),
        Some(vec![AddressLocationEntry { start_address: 0x2000, location: 0 }]),
        None,
    )));
    assert!(handled.code_load_in_stream);
    assert_eq!(handled.debug_info_len, 32 + 17 + 21);
    let bytes = worker.take_bytes();
    assert_eq!(u32_le(&bytes, 0), 2);
    assert_eq!(u32_le(&bytes, 4) as usize, handled.debug_info_len);
    assert_eq!(u32_le(&bytes, handled.debug_info_len), 0);
    let plain = worker.on_message(Some(compiled(None, None, None, None)));
    assert_eq!(plain.debug_info_len, 0);
    assert!(plain.code_load_in_stream);
}

#[test]
fn compiled_method_without_debug_info_gets_a_code_load_only() {
    let mut worker = Worker::new(DumpFile::new(Endianness::Little));
    worker.write_header(&elf_header(0x3e, 0)).unwrap();
    let handled = worker.on_message(Some(compiled(None, None, None, None)));
    assert_eq!(handled.flow, Flow::Continue);
    assert!(handled.line_numbers_error.is_none());
    assert!(handled.code_load_error.is_none());
    worker.on_message(Some(AgentMessage::Shutdown));
    worker.finish().unwrap();
    let bytes = worker.take_bytes();
    let name = b"void java.lang.Thread.run()\0";
    assert_eq!(bytes.len(), 40 + 56 + name.len() + 8 + 16);
    assert_eq!(u32_le(&bytes, 40), 0);
    assert_eq!(u32_le(&bytes, 44) as usize, 56 + name.len() + 8);
    assert_eq!(&bytes[96..96 + name.len()], name);
    let close = 96 + name.len() + 8;
    assert_eq!(u32_le(&bytes, close), 3);
}

#[test]
fn compiled_method_with_line_numbers_gets_its_debug_info_first() {
    let mut worker = Worker::new(DumpFile::new(Endianness::Little));
    worker.write_header(&elf_header(0x3e, 0)).unwrap();
    worker.on_message(Some(compiled(
        Some("Thread.java"),
        Some(vec![
            LineNumberEntry { start_location: 0, line_number: 42 },
            LineNumberEntry { start_location: 5, line_number: 43 },
        ]),
        Some(vec![
            AddressLocationEntry { start_address: 0x2000, location: 0 },
            AddressLocationEntry { start_address: 0x2004, location: 5 },
        ]),
        None,
    )));
    worker.on_message(Some(AgentMessage::Shutdown));
    worker.finish().unwrap();
    let bytes = worker.take_bytes();
    assert_eq!(u32_le(&bytes, 40), 2);
    assert_eq!(u32_le(&bytes, 44), 108);
    assert_eq!(u64_le(&bytes, 48), 77);
    assert_eq!(u64_le(&bytes, 56), 0x2000);
    assert_eq!(u64_le(&bytes, 64), 2);
    assert_eq!(u64_le(&bytes, 72), 0x2000);
    assert_eq!(u32_le(&bytes, 80), 42);
    assert_eq!(&bytes[88..110], b"java/lang/Thread.java\0");
    assert_eq!(u64_le(&bytes, 110), 0x2004);
    assert_eq!(u32_le(&bytes, 118), 43);
    assert_eq!(&bytes[126..148], b"java/lang/Thread.java\0");
    let load = 40 + 108;
    assert_eq!(u32_le(&bytes, load), 0);
    assert_eq!(u64_le(&bytes, load + 32), 0x2000);
    let name = b"void java.lang.Thread.run()\0";
    assert_eq!(&bytes[load + 56..load + 56 + name.len()], name);
    let close = load + 56 + name.len() + 8;
    assert_eq!(u32_le(&bytes, close), 3);
    assert_eq!(bytes.len(), close + 16);
}

#[test]
fn compiled_method_with_inlining_gets_one_entry_per_stack() {
    let stack = vec![StackInfo {
        pc_address: 0x3000,
        stack_frames: vec![
            StackFrameInfo {
                method: MethodInfo {
                    name: MethodName {
                        name: "arraycopy".to_owned(),
                        signature: "(Ljava/lang/Object;ILjava/lang/Object;II)V".to_owned(),
                        generic_signature: None,
                    },
                    class: ClassInfo {
                        signature: ClassSignature {
                            signature: "Ljava/lang/System;".to_owned(),
                            generic_signature: None,
                        },
                        source_file_name: Some("System.java".to_owned()),
                    },
                    native_method: true,
                    line_numbers: None,
                },
                byte_code_index: 0,
            },
            StackFrameInfo {
                method: MethodInfo {
                    name: thread_run().0,
                    class: ClassInfo {
                        signature: thread_run().1,
                        source_file_name: Some("Thread.java".to_owned()),
                    },
                    native_method: false,
                    line_numbers: Some(vec![
                        LineNumberEntry { start_location: 0, line_number: 42 },
                        LineNumberEntry { start_location: 6, line_number: 44 },
                    ]),
                },
                byte_code_index: 7,
            },
        ],
    }];
    let mut worker = Worker::new(DumpFile::new(Endianness::Little));
    worker.on_message(Some(compiled(None, None, None, Some(stack))));
    let bytes = worker.take_bytes();
    assert_eq!(u32_le(&bytes, 0), 2);
    assert_eq!(u32_le(&bytes, 4), 32 + 17 + 21);
    assert_eq!(u64_le(&bytes, 16), 0x2000);
    assert_eq!(u64_le(&bytes, 24), 1);
    assert_eq!(u64_le(&bytes, 32), 0x3000);
    assert_eq!(u32_le(&bytes, 40), 44);
    assert_eq!(u32_le(&bytes, 44), 0);
    assert_eq!(&bytes[48..70], b"java/lang/Thread.java\0");
    assert_eq!(u32_le(&bytes, 70), 0);
}

#[test]
fn event_before_shutdown_is_written_before_the_close_record() {
    let mut worker = Worker::new(DumpFile::new(Endianness::Little));
    worker.write_header(&elf_header(0x3e, 0)).unwrap();
    let queue = vec![
        AgentMessage::DynamicCodeGenerated {
            name: Some("late".to_owned()),
            address: 0x1000,
            length: 2,
            timestamp: 5,
            code: vec![1, 2],
        },
        AgentMessage::Shutdown,
        AgentMessage::DynamicCodeGenerated {
            name: Some("lost".to_owned()),
            address: 0x1000,
            length: 2,
            timestamp: 5,
            code: vec![1, 2],
        },
    ];
    let mut taken = 0;
    for message in queue {
        taken += 1;
        if worker.on_message(Some(message)).flow == Flow::Stop {
            break;
        }
    }
    assert_eq!(taken, 2);
    worker.finish().unwrap();
    let bytes = worker.take_bytes();
    assert_eq!(bytes.len(), 40 + (56 + 5 + 2) + 16);
    assert_eq!(u32_le(&bytes, 40), 0);
    assert_eq!(&bytes[96..101], b"late\0");
    assert_eq!(u32_le(&bytes, 103), 3);
}

#[test]
fn close_record_carries_the_clock() {
    let before = get_timestamp().unwrap();
    let mut file = DumpFile::new(Endianness::Big);
    assert_eq!(file.byte_order(), Endianness::Big);
    file.write_code_close_record().unwrap();
    let after = get_timestamp().unwrap();
    let bytes = file.take_bytes();
    assert_eq!(&bytes[0..8], &[0, 0, 0, 3, 0, 0, 0, 16]);
    let mut stamp = [0u8; 8];
    stamp.copy_from_slice(&bytes[8..16]);
    let stamp = u64::from_be_bytes(stamp) as i64;
    assert!(before <= stamp && stamp <= after);
}

#[test]
fn address_locations_without_entries_still_give_a_record() {
    let (name, class_signature) = thread_run();
    let mut file = DumpFile::new(Endianness::Little);
    file.write_line_numbers_without_stack_info(
        &name,
        &class_signature,
        "Thread.java",
        &vec![LineNumberEntry { start_location: 9, line_number: 1 }],
        &vec![AddressLocationEntry { start_address: 0x2000, location: 0 }],
        0x2000,
        7,
    )
    .unwrap();
    let bytes = file.take_bytes();
    assert_eq!(bytes.len(), 32);
    assert_eq!(u32_le(&bytes, 0), 2);
    assert_eq!(u32_le(&bytes, 4), 32);
    assert_eq!(u64_le(&bytes, 24), 0);
    file.write_line_numbers_without_stack_info(
        &name,
        &class_signature,
        "Thread.java",
        &vec![LineNumberEntry { start_location: 0, line_number: 1 }],
        &vec![AddressLocationEntry { start_address: 0x2000, location: 0 }],
        0x2000,
        7,
    )
    .unwrap();
    assert_eq!(file.len(), 32 + 17 + 21);
}

#[test]
fn inlining_stacks_without_entries_give_no_record() {
    let mut file = DumpFile::new(Endianness::Little);
    file.write_line_numbers_with_stack_info(
        &vec![StackInfo { pc_address: 0x3000, stack_frames: vec![] }],
        0x2000,
        7,
    )
    .unwrap();
    assert_eq!(file.len(), 0);
    file.write_line_numbers_with_stack_info(&vec![], 0x2000, 7).unwrap();
    assert_eq!(file.len(), 0);
    let (name, class_signature) = thread_run();
    file.write_line_numbers(
        &name,
        &class_signature,
        &Some("Thread.java".to_owned()),
        0x2000,
        &Some(vec![LineNumberEntry { start_location: 0, line_number: 1 }]),
        &Some(vec![AddressLocationEntry { start_address: 0x2000, location: 0 }]),
        &Some(vec![StackInfo { pc_address: 0x3000, stack_frames: vec![] }]),
        7,
    )
    .unwrap();
    assert_eq!(file.len(), 0);
    file.write_line_numbers(
        &name,
        &class_signature,
        &Some("Thread.java".to_owned()),
        0x2000,
        &Some(vec![LineNumberEntry { start_location: 0, line_number: 1 }]),
        &Some(vec![AddressLocationEntry { start_address: 0x2000, location: 0 }]),
        &Some(vec![]),
        7,
    )
    .unwrap();
    assert_eq!(file.len(), 32 + 17 + 21);
}

#[test]
fn compiled_method_load_is_listed_under_the_combined_name() {
    let (name, class_signature) = thread_run();
    let mut file = DumpFile::new(Endianness::Little);
    file.write_compiled_method_load(
        name,
        class_signature,
        None,
        0x2000,
        2,
        None,
        None,
        None,
        9,
        7,
        &vec![0xc3, 0x90],
    )
    .unwrap();
    let bytes = file.take_bytes();
    let expected = b"void java.lang.Thread.run()\0";
    assert_eq!(u32_le(&bytes, 4) as usize, 56 + expected.len() + 2);
    assert_eq!(u64_le(&bytes, 48), 9);
    assert_eq!(&bytes[56..56 + expected.len()], expected);
    assert_eq!(&bytes[56 + expected.len()..], &[0xc3, 0x90]);
}

#[test]
fn byte_order_follows_from_how_the_probe_reads() {
    assert_eq!(Endianness::from_probe(1), Endianness::Little);
    assert_eq!(Endianness::from_probe(0x100), Endianness::Big);
    assert_eq!(Endianness::from_probe(u16::from_le_bytes([1, 0])), Endianness::Little);
    assert_eq!(Endianness::from_probe(u16::from_be_bytes([1, 0])), Endianness::Big);
    assert_eq!(Endianness::native(), Endianness::from_probe(u16::from_ne_bytes([1, 0])));
}

#[test]
fn time_stamp_follows_from_the_reading_of_the_clock() {
    assert_eq!(timestamp_from(Ok((0, 0))), Ok(0));
    assert_eq!(timestamp_from(Ok((3, 7))), Ok(3_000_000_007));
    assert_eq!(timestamp_from(Ok((-1, 5))), Ok(-999_999_995));
    assert_eq!(timestamp_from(Err(nix::errno::Errno::EINVAL)), Err(nix::errno::Errno::EINVAL));
    assert_eq!(timestamp_from(Err(nix::errno::Errno::EPERM)), Err(nix::errno::Errno::EPERM));
}
