use jitdump_agent::rvmti::replies::{
    class_signature, declaring_class, environment, is_method_native, line_number_table,
    method_name, source_file_name, status,
};
use jitdump_agent::rvmti::{
    GetClassSignatureError, GetMethodNameError, GetSourceFileNameError, JniError, JvmtiError,
    JvmtiEvent, JvmtiEventMode, JvmtiVersion, LineNumberEntry, StringDecodeError,
};

#[test]
fn error_codes_name_their_errors() {
    assert_eq!(JvmtiError::from(10), JvmtiError::InvalidThread);
    assert_eq!(JvmtiError::from(23), JvmtiError::InvalidMethodId);
    assert_eq!(JvmtiError::from(41), JvmtiError::NotFound);
    assert_eq!(JvmtiError::from(71), JvmtiError::UnsupportedRedefinitionMethodModifiersChanged);
    assert_eq!(JvmtiError::from(79), JvmtiError::UnmodifiableClass);
    assert_eq!(JvmtiError::from(99), JvmtiError::MustPosessCapability);
    assert_eq!(JvmtiError::from(101), JvmtiError::AbsentInformation);
    assert_eq!(JvmtiError::from(104), JvmtiError::NativeMethod);
    assert_eq!(JvmtiError::from(112), JvmtiError::WrongPhase);
    assert_eq!(JvmtiError::from(116), JvmtiError::InvalidEnvironment);
}

#[test]
fn unknown_error_codes_are_kept() {
    assert_eq!(JvmtiError::from(0), JvmtiError::UnsupportedError(0));
    assert_eq!(JvmtiError::from(33), JvmtiError::UnsupportedError(33));
    assert_eq!(JvmtiError::from(117), JvmtiError::UnsupportedError(117));
    assert_eq!(JvmtiError::from(u32::MAX), JvmtiError::UnsupportedError(u32::MAX));
    assert_eq!(JniError::from(-7), JniError::UnsupportedError(-7));
    assert_eq!(JniError::from(0), JniError::UnsupportedError(0));
    assert_eq!(JniError::from(1), JniError::UnsupportedError(1));
}

#[test]
fn every_code_reads_back_from_its_error() {
    for code in 0..200u32 {
        assert_eq!(JvmtiError::from(code).to_code(), code);
    }
    assert_eq!(JvmtiError::UnsupportedError(7).to_code(), 7);
}

#[test]
fn jni_codes_name_their_errors() {
    assert_eq!(JniError::from(-1), JniError::UnknownError);
    assert_eq!(JniError::from(-2), JniError::ThreadDetachedFromVm);
    assert_eq!(JniError::from(-3), JniError::JniVersionError);
    assert_eq!(JniError::from(-4), JniError::NotEnoughMemory);
    assert_eq!(JniError::from(-5), JniError::VmAlreadyCreated);
    assert_eq!(JniError::from(-6), JniError::InvalidArguments);
}

#[test]
fn events_modes_and_versions_have_their_numbers() {
    assert_eq!(u32::from(JvmtiEvent::VmInit), 50);
    assert_eq!(u32::from(JvmtiEvent::CompiledMethodLoad), 68);
    assert_eq!(u32::from(JvmtiEvent::DynamicCodeGenerated), 70);
    assert_eq!(u32::from(JvmtiEvent::DataDumpRequest), 71);
    assert_eq!(u32::from(JvmtiEvent::MonitorWait), 73);
    assert_eq!(u32::from(JvmtiEvent::ResourceExhausted), 80);
    assert_eq!(u32::from(JvmtiEvent::VmObjectAlloc), 84);
    assert_eq!(u32::from(JvmtiEvent::SampledObjectAlloc), 86);
    assert_eq!(u32::from(JvmtiEventMode::Enable), 1);
    assert_eq!(u32::from(JvmtiEventMode::Disable), 0);
    assert_eq!(i32::from(JvmtiVersion::Version1dot0), 0x30010000);
    assert_eq!(i32::from(JvmtiVersion::Version1dot1), 0x30010100);
    assert_eq!(i32::from(JvmtiVersion::Version1dot2), 0x30010200);
    assert_eq!(i32::from(JvmtiVersion::Version9), 0x30090000);
    assert_eq!(i32::from(JvmtiVersion::Version11), 0x300b0000);
    assert_eq!(i32::from(JvmtiVersion::CurrentVersion), 0x300b0000);
}

#[test]
fn status_zero_is_success() {
    assert!(status(0).is_ok());
    assert_eq!(status(103), Err(JvmtiError::IllegalArgument));
    assert_eq!(declaring_class(0, 0x77).unwrap().class, 0x77);
    assert_eq!(declaring_class(23, 0x77), Err(JvmtiError::InvalidMethodId));
    assert_eq!(is_method_native(0, 0), Ok(false));
    assert_eq!(is_method_native(0, 1), Ok(true));
    assert_eq!(is_method_native(0, 2), Ok(true));
    assert_eq!(is_method_native(23, 1), Err(JvmtiError::InvalidMethodId));
    assert_eq!(environment(0, 0x1000), Ok(0x1000));
    assert_eq!(environment(0, 0), Err(JniError::UnknownError));
    assert_eq!(environment(-3, 0x1000), Err(JniError::JniVersionError));
}

#[test]
fn method_name_reply_decodes_in_order() {
    let name = method_name(0, Some(b"run"), Some(b"()V"), None).unwrap();
    assert_eq!(name.name, "run");
    assert_eq!(name.signature, "()V");
    assert!(name.generic_signature.is_none());
    let generic = method_name(0, None, None, Some(b"<T:Ljava/lang/Object;>()TT;")).unwrap();
    assert_eq!(generic.name, "");
    assert_eq!(generic.signature, "");
    assert_eq!(generic.generic_signature.unwrap(), "<T:Ljava/lang/Object;>()TT;");
    assert!(matches!(
        method_name(23, Some(&[0xff]), Some(&[0xff]), Some(&[0xff])),
        Err(GetMethodNameError::VmError(JvmtiError::InvalidMethodId))
    ));
    assert!(matches!(
        method_name(0, Some(&[0xff]), Some(&[0xff]), Some(&[0xff])),
        Err(GetMethodNameError::NameDecodeError(StringDecodeError::ModifiedUtf8Error))
    ));
    assert!(matches!(
        method_name(0, Some(b"run"), Some(&[0xff]), Some(&[0xff])),
        Err(GetMethodNameError::SignatureDecodeError(StringDecodeError::ModifiedUtf8Error))
    ));
    assert!(matches!(
        method_name(0, Some(b"run"), Some(b"()V"), Some(&[0xff])),
        Err(GetMethodNameError::GenericSignatureDecodeError(StringDecodeError::ModifiedUtf8Error))
    ));
}

#[test]
fn class_signature_reply_decodes_in_order() {
    let class = class_signature(0, Some(b"Ljava/lang/Thread;"), None).unwrap();
    assert_eq!(class.signature, "Ljava/lang/Thread;");
    assert!(class.generic_signature.is_none());
    assert_eq!(class_signature(0, None, Some(b"x")).unwrap().generic_signature.unwrap(), "x");
    assert!(matches!(
        class_signature(21, Some(&[0xff]), None),
        Err(GetClassSignatureError::VmError(JvmtiError::InvalidClass))
    ));
    assert!(matches!(
        class_signature(0, Some(&[0xff]), Some(&[0xff])),
        Err(GetClassSignatureError::SignatureDecodeError(_))
    ));
    assert!(matches!(
        class_signature(0, Some(b"LA;"), Some(&[0xff])),
        Err(GetClassSignatureError::GenericSignatureDecodeError(_))
    ));
}

#[test]
fn absent_information_is_no_failure() {
    assert_eq!(source_file_name(0, Some(b"Thread.java")).unwrap().unwrap(), "Thread.java");
    assert!(source_file_name(0, None).unwrap().is_none());
    assert!(source_file_name(101, Some(b"Thread.java")).unwrap().is_none());
    assert!(matches!(
        source_file_name(21, None),
        Err(GetSourceFileNameError::VmError(JvmtiError::InvalidClass))
    ));
    assert!(matches!(
        source_file_name(0, Some(&[0x80])),
        Err(GetSourceFileNameError::SourceFileNameDecodeError(_))
    ));
    let rows = [
        LineNumberEntry { start_location: 0, line_number: 42 },
        LineNumberEntry { start_location: 5, line_number: 43 },
    ];
    assert_eq!(line_number_table(0, Some(&rows)).unwrap().unwrap(), rows.to_vec());
    assert!(line_number_table(0, Some(&[])).unwrap().is_none());
    assert!(line_number_table(0, None).unwrap().is_none());
    assert!(line_number_table(101, Some(&rows)).unwrap().is_none());
    assert_eq!(line_number_table(104, Some(&rows)), Err(JvmtiError::NativeMethod));
}
