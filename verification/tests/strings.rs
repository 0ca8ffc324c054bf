use jitdump_agent::rvmti::strings::{
    from_modified_utf8, from_platform, transcode_modified_utf8, StringDecodeError,
};

fn fails_as_modified_utf8(bytes: &[u8]) -> bool {
    matches!(transcode_modified_utf8(bytes), Err(StringDecodeError::ModifiedUtf8Error))
        && matches!(from_modified_utf8(Some(bytes)), Err(StringDecodeError::ModifiedUtf8Error))
}

#[test]
fn ascii_is_returned_unchanged() {
    let input = b"java/lang/Thread.run()V";
    assert_eq!(transcode_modified_utf8(input).unwrap(), input.to_vec());
    assert_eq!(from_modified_utf8(Some(input)).unwrap().unwrap(), "java/lang/Thread.run()V");
    assert_eq!(transcode_modified_utf8(&[]).unwrap(), Vec::<u8>::new());
    assert_eq!(from_modified_utf8(Some(&[])).unwrap().unwrap(), "");
    assert_eq!(transcode_modified_utf8(&[0x00, 0x7f]).unwrap(), vec![0x00, 0x7f]);
}

#[test]
fn no_bytes_give_no_string() {
    assert!(from_modified_utf8(None).unwrap().is_none());
    assert!(from_platform(None).unwrap().is_none());
}

#[test]
fn two_byte_nul_decodes_to_one_nul_byte() {
    assert_eq!(transcode_modified_utf8(&[0xc0, 0x80]).unwrap(), vec![0x00]);
    let s = from_modified_utf8(Some(&[0x61, 0xc0, 0x80, 0x62])).unwrap().unwrap();
    assert_eq!(s.as_bytes(), &[0x61, 0x00, 0x62]);
}

#[test]
fn two_byte_units_keep_their_bytes() {
    assert_eq!(transcode_modified_utf8(&[0xd0, 0xb4]).unwrap(), vec![0xd0, 0xb4]);
    assert_eq!(from_modified_utf8(Some(&[0xd0, 0xb4])).unwrap().unwrap(), "\u{434}");
    assert_eq!(from_modified_utf8(Some(&[0xc2, 0x80])).unwrap().unwrap(), "\u{80}");
    assert_eq!(from_modified_utf8(Some(&[0xdf, 0xbf])).unwrap().unwrap(), "\u{7ff}");
}

#[test]
fn three_byte_units_keep_their_bytes() {
    assert_eq!(transcode_modified_utf8(&[0xe2, 0x82, 0xac]).unwrap(), vec![0xe2, 0x82, 0xac]);
    assert_eq!(from_modified_utf8(Some(&[0xe2, 0x82, 0xac])).unwrap().unwrap(), "\u{20ac}");
    assert_eq!(from_modified_utf8(Some(&[0xe0, 0xa0, 0x80])).unwrap().unwrap(), "\u{800}");
    assert_eq!(from_modified_utf8(Some(&[0xef, 0xbf, 0xbf])).unwrap().unwrap(), "\u{ffff}");
    assert_eq!(from_modified_utf8(Some(&[0xee, 0x80, 0x80])).unwrap().unwrap(), "\u{e000}");
    assert_eq!(from_modified_utf8(Some(&[0xed, 0x95, 0x9c])).unwrap().unwrap(), "\u{d55c}");
    assert_eq!(from_modified_utf8(Some(&[0xed, 0x80, 0x80])).unwrap().unwrap(), "\u{d000}");
    assert_eq!(from_modified_utf8(Some(&[0xed, 0x9f, 0xbf])).unwrap().unwrap(), "\u{d7ff}");
    assert_eq!(
        from_modified_utf8(Some(&[0xed, 0x9f, 0xbf, 0xed, 0xa0, 0x80, 0xed, 0xb0, 0x80])).unwrap().unwrap(),
        "\u{d7ff}\u{10000}"
    );
}

#[test]
fn surrogate_pair_decodes_to_four_bytes() {
    assert_eq!(
        transcode_modified_utf8(&[0xed, 0xa0, 0x80, 0xed, 0xb0, 0x80]).unwrap(),
        vec![0xf0, 0x90, 0x80, 0x80]
    );
    assert_eq!(
        from_modified_utf8(Some(&[0xed, 0xa0, 0x80, 0xed, 0xb0, 0x80])).unwrap().unwrap(),
        "\u{10000}"
    );
    assert_eq!(
        from_modified_utf8(Some(&[0xed, 0xa0, 0xbd, 0xed, 0xb8, 0x80])).unwrap().unwrap(),
        "\u{1f600}"
    );
    assert_eq!(
        from_modified_utf8(Some(&[0xed, 0xaf, 0xbf, 0xed, 0xbf, 0xbf])).unwrap().unwrap(),
        "\u{10ffff}"
    );
}

#[test]
fn bytes_that_the_grammar_forbids_fail() {
    assert!(fails_as_modified_utf8(&[0x80]));
    assert!(fails_as_modified_utf8(&[0xbf]));
    assert!(fails_as_modified_utf8(&[0xf0, 0x90, 0x80, 0x80]));
    assert!(fails_as_modified_utf8(&[0xff]));
    assert!(fails_as_modified_utf8(&[0xc0, 0x41]));
    assert!(fails_as_modified_utf8(&[0xc1, 0x80]));
    assert!(fails_as_modified_utf8(&[0xc0, 0x81]));
    assert!(fails_as_modified_utf8(&[0xe2, 0x41, 0xac]));
    assert!(fails_as_modified_utf8(&[0xe2, 0x82, 0x41]));
    assert!(fails_as_modified_utf8(&[0xe0, 0x80, 0x80]));
    assert!(fails_as_modified_utf8(&[0xed, 0x90, 0x41]));
    assert!(fails_as_modified_utf8(&[0xed, 0x41, 0x80]));
    assert!(fails_as_modified_utf8(&[0xed, 0xa0, 0x80, 0x41]));
    assert!(fails_as_modified_utf8(&[0xed, 0xc0, 0x80, 0xed, 0xb0, 0x80]));
    assert!(fails_as_modified_utf8(&[0xed, 0xb0, 0x80, 0xed, 0xb0, 0x80]));
    assert!(fails_as_modified_utf8(&[0xed, 0xa0, 0x41, 0xed, 0xb0, 0x80]));
    assert!(fails_as_modified_utf8(&[0xed, 0xa0, 0x80, 0xee, 0xb0, 0x80]));
    assert!(fails_as_modified_utf8(&[0xed, 0xa0, 0x80, 0xed, 0xa0, 0x80]));
    assert!(fails_as_modified_utf8(&[0xed, 0xa0, 0x80, 0xed, 0xb0, 0x41]));
    assert!(fails_as_modified_utf8(&[0x61, 0x62, 0x80]));
}

#[test]
fn units_cut_short_fail() {
    assert!(fails_as_modified_utf8(&[0xc3]));
    assert!(fails_as_modified_utf8(&[0x61, 0xe2, 0x82]));
    assert!(fails_as_modified_utf8(&[0xe2]));
    assert!(fails_as_modified_utf8(&[0xed]));
    assert!(fails_as_modified_utf8(&[0xed, 0x90]));
    assert!(fails_as_modified_utf8(&[0xed, 0xa0]));
    assert!(fails_as_modified_utf8(&[0xed, 0xa0, 0x80]));
    assert!(fails_as_modified_utf8(&[0xed, 0xa0, 0x80, 0xed, 0xb0]));
}

#[test]
fn platform_strings_are_utf8() {
    assert_eq!(from_platform(Some(b"dump=on")).unwrap().unwrap(), "dump=on");
    assert_eq!(from_platform(Some(&[0xd0, 0xb4])).unwrap().unwrap(), "\u{434}");
    assert_eq!(from_platform(Some(&[0xf0, 0x90, 0x80, 0x80])).unwrap().unwrap(), "\u{10000}");
    assert!(matches!(from_platform(Some(&[0xc0, 0x80])), Err(StringDecodeError::Utf8Error(_))));
    assert!(matches!(from_platform(Some(&[0xff])), Err(StringDecodeError::Utf8Error(_))));
}
