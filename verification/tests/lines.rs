use jitdump_agent::agent::{ClassInfo, MethodInfo, StackFrameInfo, StackInfo};
use jitdump_agent::perf::lines::{
    class_location, debug_entries, entries_with_stack_info, entries_without_stack_info,
    find_frame, find_line_number_entry, DebugEntry,
};
use jitdump_agent::rvmti::{AddressLocationEntry, ClassSignature, LineNumberEntry, MethodName};

fn row(start_location: i64, line_number: i32) -> LineNumberEntry {
    LineNumberEntry { start_location, line_number }
}

fn method(
    class_signature: &str,
    source_file_name: Option<&str>,
    native_method: bool,
    line_numbers: Option<Vec<LineNumberEntry>>,
) -> MethodInfo {
    MethodInfo {
        name: MethodName {
            name: "run".to_owned(),
            signature: "()V".to_owned(),
            generic_signature: None,
        },
        class: ClassInfo {
            signature: ClassSignature {
                signature: class_signature.to_owned(),
                generic_signature: None,
            },
            source_file_name: source_file_name.map(|s| s.to_owned()),
        },
        native_method,
        line_numbers,
    }
}

fn entry_parts(entry: &DebugEntry) -> (usize, i32, String) {
    (entry.address, entry.line_number, entry.path.clone())
}

#[test]
fn lookup_finds_the_last_row_that_starts_at_or_before_the_index() {
    let table = vec![row(0, 10), row(7, 11), row(15, 12)];
    assert_eq!(find_line_number_entry(0, &table).unwrap().line_number, 10);
    assert_eq!(find_line_number_entry(6, &table).unwrap().line_number, 10);
    assert_eq!(find_line_number_entry(7, &table).unwrap().line_number, 11);
    assert_eq!(find_line_number_entry(14, &table).unwrap().line_number, 11);
    assert_eq!(find_line_number_entry(15, &table).unwrap().line_number, 12);
    assert_eq!(find_line_number_entry(1000, &table).unwrap().line_number, 12);
    assert_eq!(find_line_number_entry(i32::MAX, &table).unwrap(), &row(15, 12));
}

#[test]
fn lookup_in_an_empty_table_finds_nothing() {
    let table: Vec<LineNumberEntry> = vec![];
    assert!(find_line_number_entry(0, &table).is_none());
    assert!(find_line_number_entry(-1, &table).is_none());
    assert!(find_line_number_entry(1000, &table).is_none());
    assert!(find_line_number_entry(i32::MIN, &table).is_none());
}

#[test]
fn lookup_before_the_first_row_finds_nothing() {
    let table = vec![row(5, 10), row(7, 11)];
    assert!(find_line_number_entry(4, &table).is_none());
    assert!(find_line_number_entry(-1, &table).is_none());
    assert_eq!(find_line_number_entry(5, &table).unwrap().line_number, 10);
}

#[test]
fn lookup_stops_at_the_first_row_that_starts_later() {
    let table = vec![row(0, 1), row(9, 2), row(3, 3)];
    assert_eq!(find_line_number_entry(5, &table).unwrap().line_number, 1);
    assert_eq!(find_line_number_entry(9, &table).unwrap().line_number, 3);
}

#[test]
fn class_location_puts_the_file_under_the_package() {
    assert_eq!(class_location("Ljava/lang/Thread;", "Thread.java"), "java/lang/Thread.java");
    assert_eq!(class_location("LThread;", "Thread.java"), "Thread.java");
    assert_eq!(class_location("java/lang/Thread", "Thread.java"), "Thread.java");
    assert_eq!(class_location("", "Thread.java"), "Thread.java");
}

#[test]
fn find_frame_takes_the_first_frame_with_a_source_line() {
    let native = StackFrameInfo {
        method: method("Ljava/lang/System;", Some("System.java"), true, None),
        byte_code_index: 0,
    };
    let no_source = StackFrameInfo {
        method: method("La/B;", None, false, Some(vec![row(0, 1)])),
        byte_code_index: 0,
    };
    let no_lines = StackFrameInfo {
        method: method("La/C;", Some("C.java"), false, None),
        byte_code_index: 0,
    };
    let empty_lines = StackFrameInfo {
        method: method("La/D;", Some("D.java"), false, Some(vec![])),
        byte_code_index: 0,
    };
    let too_early = StackFrameInfo {
        method: method("La/E;", Some("E.java"), false, Some(vec![row(5, 1)])),
        byte_code_index: 4,
    };
    let good = StackFrameInfo {
        method: method("La/F;", Some("F.java"), false, Some(vec![row(0, 44)])),
        byte_code_index: 7,
    };
    let later = StackFrameInfo {
        method: method("La/G;", Some("G.java"), false, Some(vec![row(0, 45)])),
        byte_code_index: 7,
    };
    let frames = vec![native, no_source, no_lines, empty_lines, too_early, good, later];
    let found = find_frame(&frames).unwrap();
    assert_eq!(found.method.class.signature.signature, "La/F;");
    assert!(find_frame(&frames[..5].iter().map(|f| StackFrameInfo {
        method: method(
            &f.method.class.signature.signature,
            f.method.class.source_file_name.as_deref(),
            f.method.native_method,
            f.method.line_numbers.clone(),
        ),
        byte_code_index: f.byte_code_index,
    }).collect()).is_none());
    assert!(find_frame(&vec![]).is_none());
}

#[test]
fn address_locations_give_one_entry_per_resolved_location() {
    let rows = vec![row(0, 42), row(5, 43)];
    let locations = vec![
        AddressLocationEntry { start_address: 0x2000, location: 0 },
        AddressLocationEntry { start_address: 0x2004, location: 5 },
    ];
    let entries =
        entries_without_stack_info("Ljava/lang/Thread;", "Thread.java", &rows, &locations);
    assert_eq!(
        entries.iter().map(entry_parts).collect::<Vec<_>>(),
        vec![
            (0x2000, 42, "java/lang/Thread.java".to_owned()),
            (0x2004, 43, "java/lang/Thread.java".to_owned()),
        ]
    );
}

#[test]
fn address_locations_without_a_row_in_effect_are_left_out() {
    let rows = vec![row(3, 42), row(5, 43)];
    let locations = vec![
        AddressLocationEntry { start_address: 0x2000, location: 0 },
        AddressLocationEntry { start_address: 0x2004, location: 5 },
        AddressLocationEntry { start_address: 0x2008, location: -1 },
        AddressLocationEntry { start_address: 0x200c, location: 4 },
    ];
    let entries = entries_without_stack_info("bad", "Thread.java", &rows, &locations);
    assert_eq!(
        entries.iter().map(entry_parts).collect::<Vec<_>>(),
        vec![(0x2004, 43, "Thread.java".to_owned()), (0x200c, 42, "Thread.java".to_owned())]
    );
}

#[test]
fn inlining_takes_the_outer_frame_when_the_inner_is_native() {
    let stack = vec![StackInfo {
        pc_address: 0x3000,
        stack_frames: vec![
            StackFrameInfo {
                method: method("Ljava/lang/System;", None, true, None),
                byte_code_index: 0,
            },
            StackFrameInfo {
                method: method(
                    "Ljava/lang/Thread;",
                    Some("Thread.java"),
                    false,
                    Some(vec![row(0, 42), row(5, 44)]),
                ),
                byte_code_index: 7,
            },
        ],
    }];
    let entries = entries_with_stack_info(&stack);
    assert_eq!(
        entries.iter().map(entry_parts).collect::<Vec<_>>(),
        vec![(0x3000, 44, "java/lang/Thread.java".to_owned())]
    );
}

#[test]
fn stacks_without_a_usable_frame_give_no_entry() {
    let stack = vec![
        StackInfo { pc_address: 0x3000, stack_frames: vec![] },
        StackInfo {
            pc_address: 0x3004,
            stack_frames: vec![StackFrameInfo {
                method: method("La/B;", Some("B.java"), true, None),
                byte_code_index: 0,
            }],
        },
        StackInfo {
            pc_address: 0x3008,
            stack_frames: vec![StackFrameInfo {
                method: method("La/B;", Some("B.java"), false, Some(vec![row(0, 9)])),
                byte_code_index: 1,
            }],
        },
    ];
    let entries = entries_with_stack_info(&stack);
    assert_eq!(
        entries.iter().map(entry_parts).collect::<Vec<_>>(),
        vec![(0x3008, 9, "a/B.java".to_owned())]
    );
}

#[test]
fn debug_entries_follow_the_selection_policy() {
    let rows = Some(vec![row(0, 42)]);
    let locations = Some(vec![AddressLocationEntry { start_address: 0x2000, location: 0 }]);
    let file = Some("Thread.java".to_owned());
    let good_stack = Some(vec![StackInfo {
        pc_address: 0x3000,
        stack_frames: vec![StackFrameInfo {
            method: method("La/B;", Some("B.java"), false, Some(vec![row(0, 9)])),
            byte_code_index: 1,
        }],
    }]);
    let useless_stack = Some(vec![StackInfo { pc_address: 0x3000, stack_frames: vec![] }]);
    let empty_stack: Option<Vec<StackInfo>> = Some(vec![]);

    let with_stack =
        debug_entries("Ljava/lang/Thread;", &file, &rows, &locations, &good_stack).unwrap();
    assert_eq!(
        with_stack.iter().map(entry_parts).collect::<Vec<_>>(),
        vec![(0x3000, 9, "a/B.java".to_owned())]
    );
    assert!(debug_entries("Ljava/lang/Thread;", &file, &rows, &locations, &useless_stack).is_none());
    let fallen_back =
        debug_entries("Ljava/lang/Thread;", &file, &rows, &locations, &empty_stack).unwrap();
    assert_eq!(
        fallen_back.iter().map(entry_parts).collect::<Vec<_>>(),
        vec![(0x2000, 42, "java/lang/Thread.java".to_owned())]
    );
    let plain = debug_entries("Ljava/lang/Thread;", &file, &rows, &locations, &None).unwrap();
    assert_eq!(plain.len(), 1);
    assert!(debug_entries("Ljava/lang/Thread;", &None, &rows, &locations, &None).is_none());
    assert!(debug_entries("Ljava/lang/Thread;", &file, &None, &locations, &None).is_none());
    assert!(debug_entries("Ljava/lang/Thread;", &file, &rows, &None, &None).is_none());
    let none_resolved = debug_entries(
        "Ljava/lang/Thread;",
        &file,
        &Some(vec![row(5, 1)]),
        &locations,
        &None,
    )
    .unwrap();
    assert!(none_resolved.is_empty());
}
