//! Plain values exchanged with the virtual machine's tool interface, and the
//! numbers that the interface gives to its errors, events and versions.
use vstd::prelude::*;
use vstd::std_specs::convert::FromSpecImpl;

verus! {

/// An error of the tool interface.
#[derive(Debug, Clone, Copy, PartialEq, Eq, Structural)]
pub enum JvmtiError {
    /// The thread is not valid.
    InvalidThread,
    /// The thread group is not valid.
    InvalidThreadGroup,
    /// The priority is not valid.
    InvalidPriority,
    /// The thread is not suspended.
    ThreadNotSuspended,
    /// The thread is already suspended.
    ThreadSuspended,
    /// The thread is not alive.
    ThreadNotAlive,
    /// The object is not valid.
    InvalidObject,
    /// The class is not valid.
    InvalidClass,
    /// The class is not prepared yet.
    ClassNotPrepared,
    /// The method id is not valid.
    InvalidMethodId,
    /// The location is not valid.
    InvalidLocation,
    /// The field id is not valid.
    InvalidFieldId,
    /// The module is not valid.
    InvalidModule,
    /// There are no more stack frames.
    NoMoreFrames,
    /// Nothing is known about the stack frame.
    OpaqueFrame,
    /// The variable has another type.
    TypeMismatch,
    /// The slot is not valid.
    InvalidSlot,
    /// The item is already set.
    Duplicate,
    /// The element was not found.
    NotFound,
    /// The raw monitor is not valid.
    InvalidMonitor,
    /// The raw monitor is not owned by this thread.
    NotMonitorOwner,
    /// The call was interrupted.
    Interrupt,
    /// The class file is malformed.
    InvalidClassFormat,
    /// The class definition is circular.
    CircularClassDefinition,
    /// The class fails verification.
    FailsVerification,
    /// A redefinition may not add a method.
    UnsupportedRedefinitionMethodAdded,
    /// A redefinition may not change a field.
    UnsupportedRedefinitionSchemaChanged,
    /// The thread state was modified and is inconsistent.
    InvalidTypeState,
    /// A redefinition may not change the class hierarchy.
    UnsupportedRedefinitionHierarchyChanged,
    /// A redefinition may not delete a method.
    UnsupportedRedefinitionMethodDeleted,
    /// The version of the class file is not supported.
    UnsupportedVersion,
    /// The class names do not match.
    NamesDontMatch,
    /// A redefinition may not change class modifiers.
    UnsupportedRedefinitionClassModifiersChanged,
    /// A redefinition may not change method modifiers.
    UnsupportedRedefinitionMethodModifiersChanged,
    /// The class cannot be modified.
    UnmodifiableClass,
    /// The module cannot be modified.
    UnmodifiableModule,
    /// The functionality is not available.
    NotAvaliable,
    /// The environment lacks the capability that the call needs.
    MustPosessCapability,
    /// A pointer was null.
    NullPointer,
    /// The information asked for is not available.
    AbsentInformation,
    /// The event type is not valid.
    InvalidEventType,
    /// An argument is not legal.
    IllegalArgument,
    /// The information is not available for a native method.
    NativeMethod,
    /// The class loader does not support the operation.
    ClassLoaderUnsupported,
    /// Memory ran out.
    OutOfMemory,
    /// Access was denied.
    AccessDenied,
    /// The functionality is not available in the current phase.
    WrongPhase,
    /// An internal error occurred.
    Internal,
    /// The thread is not attached to the virtual machine.
    UnattachedThread,
    /// The environment is not valid.
    InvalidEnvironment,
    /// A code that the interface does not document.
    UnsupportedError(u32),
}

impl JvmtiError {
    /// The number that the interface gives to this error.
    pub open spec fn code(self) -> u32 {
        match self {
            JvmtiError::InvalidThread => 10,
            JvmtiError::InvalidThreadGroup => 11,
            JvmtiError::InvalidPriority => 12,
            JvmtiError::ThreadNotSuspended => 13,
            JvmtiError::ThreadSuspended => 14,
            JvmtiError::ThreadNotAlive => 15,
            JvmtiError::InvalidObject => 20,
            JvmtiError::InvalidClass => 21,
            JvmtiError::ClassNotPrepared => 22,
            JvmtiError::InvalidMethodId => 23,
            JvmtiError::InvalidLocation => 24,
            JvmtiError::InvalidFieldId => 25,
            JvmtiError::InvalidModule => 26,
            JvmtiError::NoMoreFrames => 31,
            JvmtiError::OpaqueFrame => 32,
            JvmtiError::TypeMismatch => 34,
            JvmtiError::InvalidSlot => 35,
            JvmtiError::Duplicate => 40,
            JvmtiError::NotFound => 41,
            JvmtiError::InvalidMonitor => 50,
            JvmtiError::NotMonitorOwner => 51,
            JvmtiError::Interrupt => 52,
            JvmtiError::InvalidClassFormat => 60,
            JvmtiError::CircularClassDefinition => 61,
            JvmtiError::FailsVerification => 62,
            JvmtiError::UnsupportedRedefinitionMethodAdded => 63,
            JvmtiError::UnsupportedRedefinitionSchemaChanged => 64,
            JvmtiError::InvalidTypeState => 65,
            JvmtiError::UnsupportedRedefinitionHierarchyChanged => 66,
            JvmtiError::UnsupportedRedefinitionMethodDeleted => 67,
            JvmtiError::UnsupportedVersion => 68,
            JvmtiError::NamesDontMatch => 69,
            JvmtiError::UnsupportedRedefinitionClassModifiersChanged => 70,
            JvmtiError::UnsupportedRedefinitionMethodModifiersChanged => 71,
            JvmtiError::UnmodifiableClass => 79,
            JvmtiError::UnmodifiableModule => 80,
            JvmtiError::NotAvaliable => 98,
            JvmtiError::MustPosessCapability => 99,
            JvmtiError::NullPointer => 100,
            JvmtiError::AbsentInformation => 101,
            JvmtiError::InvalidEventType => 102,
            JvmtiError::IllegalArgument => 103,
            JvmtiError::NativeMethod => 104,
            JvmtiError::ClassLoaderUnsupported => 106,
            JvmtiError::OutOfMemory => 110,
            JvmtiError::AccessDenied => 111,
            JvmtiError::WrongPhase => 112,
            JvmtiError::Internal => 113,
            JvmtiError::UnattachedThread => 115,
            JvmtiError::InvalidEnvironment => 116,
            JvmtiError::UnsupportedError(code) => code,
        }
    }

    /// The error that the interface means by `code`. Zero, which the
    /// interface uses for success, counts as not documented.
    pub open spec fn of_code(code: u32) -> JvmtiError {
        if code == 10 {
            JvmtiError::InvalidThread
        } else if code == 11 {
            JvmtiError::InvalidThreadGroup
        } else if code == 12 {
            JvmtiError::InvalidPriority
        } else if code == 13 {
            JvmtiError::ThreadNotSuspended
        } else if code == 14 {
            JvmtiError::ThreadSuspended
        } else if code == 15 {
            JvmtiError::ThreadNotAlive
        } else if code == 20 {
            JvmtiError::InvalidObject
        } else if code == 21 {
            JvmtiError::InvalidClass
        } else if code == 22 {
            JvmtiError::ClassNotPrepared
        } else if code == 23 {
            JvmtiError::InvalidMethodId
        } else if code == 24 {
            JvmtiError::InvalidLocation
        } else if code == 25 {
            JvmtiError::InvalidFieldId
        } else if code == 26 {
            JvmtiError::InvalidModule
        } else if code == 31 {
            JvmtiError::NoMoreFrames
        } else if code == 32 {
            JvmtiError::OpaqueFrame
        } else if code == 34 {
            JvmtiError::TypeMismatch
        } else if code == 35 {
            JvmtiError::InvalidSlot
        } else if code == 40 {
            JvmtiError::Duplicate
        } else if code == 41 {
            JvmtiError::NotFound
        } else if code == 50 {
            JvmtiError::InvalidMonitor
        } else if code == 51 {
            JvmtiError::NotMonitorOwner
        } else if code == 52 {
            JvmtiError::Interrupt
        } else if code == 60 {
            JvmtiError::InvalidClassFormat
        } else if code == 61 {
            JvmtiError::CircularClassDefinition
        } else if code == 62 {
            JvmtiError::FailsVerification
        } else if code == 63 {
            JvmtiError::UnsupportedRedefinitionMethodAdded
        } else if code == 64 {
            JvmtiError::UnsupportedRedefinitionSchemaChanged
        } else if code == 65 {
            JvmtiError::InvalidTypeState
        } else if code == 66 {
            JvmtiError::UnsupportedRedefinitionHierarchyChanged
        } else if code == 67 {
            JvmtiError::UnsupportedRedefinitionMethodDeleted
        } else if code == 68 {
            JvmtiError::UnsupportedVersion
        } else if code == 69 {
            JvmtiError::NamesDontMatch
        } else if code == 70 {
            JvmtiError::UnsupportedRedefinitionClassModifiersChanged
        } else if code == 71 {
            JvmtiError::UnsupportedRedefinitionMethodModifiersChanged
        } else if code == 79 {
            JvmtiError::UnmodifiableClass
        } else if code == 80 {
            JvmtiError::UnmodifiableModule
        } else if code == 98 {
            JvmtiError::NotAvaliable
        } else if code == 99 {
            JvmtiError::MustPosessCapability
        } else if code == 100 {
            JvmtiError::NullPointer
        } else if code == 101 {
            JvmtiError::AbsentInformation
        } else if code == 102 {
            JvmtiError::InvalidEventType
        } else if code == 103 {
            JvmtiError::IllegalArgument
        } else if code == 104 {
            JvmtiError::NativeMethod
        } else if code == 106 {
            JvmtiError::ClassLoaderUnsupported
        } else if code == 110 {
            JvmtiError::OutOfMemory
        } else if code == 111 {
            JvmtiError::AccessDenied
        } else if code == 112 {
            JvmtiError::WrongPhase
        } else if code == 113 {
            JvmtiError::Internal
        } else if code == 115 {
            JvmtiError::UnattachedThread
        } else if code == 116 {
            JvmtiError::InvalidEnvironment
        } else {
            JvmtiError::UnsupportedError(code)
        }
    }

    /// The number that the interface gives to this error.
    pub fn to_code(&self) -> (code: u32)
        ensures
            code == self.code(),
    {
        match self {
            JvmtiError::InvalidThread => 10,
            JvmtiError::InvalidThreadGroup => 11,
            JvmtiError::InvalidPriority => 12,
            JvmtiError::ThreadNotSuspended => 13,
            JvmtiError::ThreadSuspended => 14,
            JvmtiError::ThreadNotAlive => 15,
            JvmtiError::InvalidObject => 20,
            JvmtiError::InvalidClass => 21,
            JvmtiError::ClassNotPrepared => 22,
            JvmtiError::InvalidMethodId => 23,
            JvmtiError::InvalidLocation => 24,
            JvmtiError::InvalidFieldId => 25,
            JvmtiError::InvalidModule => 26,
            JvmtiError::NoMoreFrames => 31,
            JvmtiError::OpaqueFrame => 32,
            JvmtiError::TypeMismatch => 34,
            JvmtiError::InvalidSlot => 35,
            JvmtiError::Duplicate => 40,
            JvmtiError::NotFound => 41,
            JvmtiError::InvalidMonitor => 50,
            JvmtiError::NotMonitorOwner => 51,
            JvmtiError::Interrupt => 52,
            JvmtiError::InvalidClassFormat => 60,
            JvmtiError::CircularClassDefinition => 61,
            JvmtiError::FailsVerification => 62,
            JvmtiError::UnsupportedRedefinitionMethodAdded => 63,
            JvmtiError::UnsupportedRedefinitionSchemaChanged => 64,
            JvmtiError::InvalidTypeState => 65,
            JvmtiError::UnsupportedRedefinitionHierarchyChanged => 66,
            JvmtiError::UnsupportedRedefinitionMethodDeleted => 67,
            JvmtiError::UnsupportedVersion => 68,
            JvmtiError::NamesDontMatch => 69,
            JvmtiError::UnsupportedRedefinitionClassModifiersChanged => 70,
            JvmtiError::UnsupportedRedefinitionMethodModifiersChanged => 71,
            JvmtiError::UnmodifiableClass => 79,
            JvmtiError::UnmodifiableModule => 80,
            JvmtiError::NotAvaliable => 98,
            JvmtiError::MustPosessCapability => 99,
            JvmtiError::NullPointer => 100,
            JvmtiError::AbsentInformation => 101,
            JvmtiError::InvalidEventType => 102,
            JvmtiError::IllegalArgument => 103,
            JvmtiError::NativeMethod => 104,
            JvmtiError::ClassLoaderUnsupported => 106,
            JvmtiError::OutOfMemory => 110,
            JvmtiError::AccessDenied => 111,
            JvmtiError::WrongPhase => 112,
            JvmtiError::Internal => 113,
            JvmtiError::UnattachedThread => 115,
            JvmtiError::InvalidEnvironment => 116,
            JvmtiError::UnsupportedError(code) => *code,
        }
    }
}

impl From<u32> for JvmtiError {
    fn from(error: u32) -> (result: JvmtiError) {
        match error {
            10 => JvmtiError::InvalidThread,
            11 => JvmtiError::InvalidThreadGroup,
            12 => JvmtiError::InvalidPriority,
            13 => JvmtiError::ThreadNotSuspended,
            14 => JvmtiError::ThreadSuspended,
            15 => JvmtiError::ThreadNotAlive,
            20 => JvmtiError::InvalidObject,
            21 => JvmtiError::InvalidClass,
            22 => JvmtiError::ClassNotPrepared,
            23 => JvmtiError::InvalidMethodId,
            24 => JvmtiError::InvalidLocation,
            25 => JvmtiError::InvalidFieldId,
            26 => JvmtiError::InvalidModule,
            31 => JvmtiError::NoMoreFrames,
            32 => JvmtiError::OpaqueFrame,
            34 => JvmtiError::TypeMismatch,
            35 => JvmtiError::InvalidSlot,
            40 => JvmtiError::Duplicate,
            41 => JvmtiError::NotFound,
            50 => JvmtiError::InvalidMonitor,
            51 => JvmtiError::NotMonitorOwner,
            52 => JvmtiError::Interrupt,
            60 => JvmtiError::InvalidClassFormat,
            61 => JvmtiError::CircularClassDefinition,
            62 => JvmtiError::FailsVerification,
            63 => JvmtiError::UnsupportedRedefinitionMethodAdded,
            64 => JvmtiError::UnsupportedRedefinitionSchemaChanged,
            65 => JvmtiError::InvalidTypeState,
            66 => JvmtiError::UnsupportedRedefinitionHierarchyChanged,
            67 => JvmtiError::UnsupportedRedefinitionMethodDeleted,
            68 => JvmtiError::UnsupportedVersion,
            69 => JvmtiError::NamesDontMatch,
            70 => JvmtiError::UnsupportedRedefinitionClassModifiersChanged,
            71 => JvmtiError::UnsupportedRedefinitionMethodModifiersChanged,
            79 => JvmtiError::UnmodifiableClass,
            80 => JvmtiError::UnmodifiableModule,
            98 => JvmtiError::NotAvaliable,
            99 => JvmtiError::MustPosessCapability,
            100 => JvmtiError::NullPointer,
            101 => JvmtiError::AbsentInformation,
            102 => JvmtiError::InvalidEventType,
            103 => JvmtiError::IllegalArgument,
            104 => JvmtiError::NativeMethod,
            106 => JvmtiError::ClassLoaderUnsupported,
            110 => JvmtiError::OutOfMemory,
            111 => JvmtiError::AccessDenied,
            112 => JvmtiError::WrongPhase,
            113 => JvmtiError::Internal,
            115 => JvmtiError::UnattachedThread,
            116 => JvmtiError::InvalidEnvironment,
            _ => JvmtiError::UnsupportedError(error),
        }
    }
}

impl FromSpecImpl<u32> for JvmtiError {
    open spec fn obeys_from_spec() -> bool {
        true
    }

    open spec fn from_spec(error: u32) -> JvmtiError {
        JvmtiError::of_code(error)
    }
}

/// The error read from a code has that code.
pub proof fn lemma_jvmti_error_keeps_code(code: u32)
    ensures
        JvmtiError::of_code(code).code() == code,
{
}

/// Reading the code of a documented error gives the error back, and no code
/// that an error variant of its own stands for is read as undocumented.
pub proof fn lemma_jvmti_error_round_trip(error: JvmtiError)
    requires
        !(error is UnsupportedError),
    ensures
        JvmtiError::of_code(error.code()) == error,
{
}

/// An error of the invocation interface.
#[derive(Debug, Clone, Copy, PartialEq, Eq, Structural)]
pub enum JniError {
    /// An error that the interface does not tell apart.
    UnknownError,
    /// The thread is detached from the virtual machine.
    ThreadDetachedFromVm,
    /// The version asked for is not supported.
    JniVersionError,
    /// Memory ran out.
    NotEnoughMemory,
    /// The virtual machine is already created.
    VmAlreadyCreated,
    /// The arguments are not valid.
    InvalidArguments,
    /// A code that the interface does not document.
    UnsupportedError(i32),
}

impl JniError {
    /// The error that the interface means by `code`.
    pub open spec fn of_code(code: i32) -> JniError {
        if code == -1 {
            JniError::UnknownError
        } else if code == -2 {
            JniError::ThreadDetachedFromVm
        } else if code == -3 {
            JniError::JniVersionError
        } else if code == -4 {
            JniError::NotEnoughMemory
        } else if code == -5 {
            JniError::VmAlreadyCreated
        } else if code == -6 {
            JniError::InvalidArguments
        } else {
            JniError::UnsupportedError(code)
        }
    }
}

impl From<i32> for JniError {
    fn from(error: i32) -> (result: JniError) {
        match error {
            -1 => JniError::UnknownError,
            -2 => JniError::ThreadDetachedFromVm,
            -3 => JniError::JniVersionError,
            -4 => JniError::NotEnoughMemory,
            -5 => JniError::VmAlreadyCreated,
            -6 => JniError::InvalidArguments,
            code => JniError::UnsupportedError(code),
        }
    }
}

impl FromSpecImpl<i32> for JniError {
    open spec fn obeys_from_spec() -> bool {
        true
    }

    open spec fn from_spec(error: i32) -> JniError {
        JniError::of_code(error)
    }
}

/// Whether the interface is to deliver an event or to hold it back.
#[derive(Debug, Clone, Copy, PartialEq, Eq, Structural)]
pub enum JvmtiEventMode {
    Enable,
    Disable,
}

impl JvmtiEventMode {
    /// The number that the interface gives to this mode.
    pub open spec fn code(self) -> u32 {
        match self {
            JvmtiEventMode::Enable => 1,
            JvmtiEventMode::Disable => 0,
        }
    }
}

impl From<JvmtiEventMode> for u32 {
    fn from(value: JvmtiEventMode) -> (result: u32) {
        match value {
            JvmtiEventMode::Enable => 1,
            JvmtiEventMode::Disable => 0,
        }
    }
}

impl FromSpecImpl<JvmtiEventMode> for u32 {
    open spec fn obeys_from_spec() -> bool {
        true
    }

    open spec fn from_spec(value: JvmtiEventMode) -> u32 {
        value.code()
    }
}

/// The events of the tool interface.
#[derive(Debug, Clone, Copy, PartialEq, Eq, Structural)]
pub enum JvmtiEvent {
    VmInit,
    VmDeath,
    ThreadStart,
    ThreadEnd,
    ClassFileLoadHook,
    ClassLoad,
    ClassPrepare,
    VmStart,
    Exception,
    ExceptionCatch,
    SingleStep,
    FramePop,
    Breakpoint,
    FieldAccess,
    FieldModification,
    MethodEntry,
    MethodExit,
    NativeMethodBind,
    CompiledMethodLoad,
    CompiledMethodUnload,
    DynamicCodeGenerated,
    DataDumpRequest,
    MonitorWait,
    MonitorWaited,
    MonitorContendedEnter,
    MonitorContendedEntered,
    ResourceExhausted,
    GarbageCollectionStart,
    GarbageCollectionFinish,
    ObjectFree,
    VmObjectAlloc,
    SampledObjectAlloc,
}

impl JvmtiEvent {
    /// The number that the interface gives to this event.
    pub open spec fn code(self) -> u32 {
        match self {
            JvmtiEvent::VmInit => 50,
            JvmtiEvent::VmDeath => 51,
            JvmtiEvent::ThreadStart => 52,
            JvmtiEvent::ThreadEnd => 53,
            JvmtiEvent::ClassFileLoadHook => 54,
            JvmtiEvent::ClassLoad => 55,
            JvmtiEvent::ClassPrepare => 56,
            JvmtiEvent::VmStart => 57,
            JvmtiEvent::Exception => 58,
            JvmtiEvent::ExceptionCatch => 59,
            JvmtiEvent::SingleStep => 60,
            JvmtiEvent::FramePop => 61,
            JvmtiEvent::Breakpoint => 62,
            JvmtiEvent::FieldAccess => 63,
            JvmtiEvent::FieldModification => 64,
            JvmtiEvent::MethodEntry => 65,
            JvmtiEvent::MethodExit => 66,
            JvmtiEvent::NativeMethodBind => 67,
            JvmtiEvent::CompiledMethodLoad => 68,
            JvmtiEvent::CompiledMethodUnload => 69,
            JvmtiEvent::DynamicCodeGenerated => 70,
            JvmtiEvent::DataDumpRequest => 71,
            JvmtiEvent::MonitorWait => 73,
            JvmtiEvent::MonitorWaited => 74,
            JvmtiEvent::MonitorContendedEnter => 75,
            JvmtiEvent::MonitorContendedEntered => 76,
            JvmtiEvent::ResourceExhausted => 80,
            JvmtiEvent::GarbageCollectionStart => 81,
            JvmtiEvent::GarbageCollectionFinish => 82,
            JvmtiEvent::ObjectFree => 83,
            JvmtiEvent::VmObjectAlloc => 84,
            JvmtiEvent::SampledObjectAlloc => 86,
        }
    }
}

impl From<JvmtiEvent> for u32 {
    fn from(value: JvmtiEvent) -> (result: u32) {
        match value {
            JvmtiEvent::VmInit => 50,
            JvmtiEvent::VmDeath => 51,
            JvmtiEvent::ThreadStart => 52,
            JvmtiEvent::ThreadEnd => 53,
            JvmtiEvent::ClassFileLoadHook => 54,
            JvmtiEvent::ClassLoad => 55,
            JvmtiEvent::ClassPrepare => 56,
            JvmtiEvent::VmStart => 57,
            JvmtiEvent::Exception => 58,
            JvmtiEvent::ExceptionCatch => 59,
            JvmtiEvent::SingleStep => 60,
            JvmtiEvent::FramePop => 61,
            JvmtiEvent::Breakpoint => 62,
            JvmtiEvent::FieldAccess => 63,
            JvmtiEvent::FieldModification => 64,
            JvmtiEvent::MethodEntry => 65,
            JvmtiEvent::MethodExit => 66,
            JvmtiEvent::NativeMethodBind => 67,
            JvmtiEvent::CompiledMethodLoad => 68,
            JvmtiEvent::CompiledMethodUnload => 69,
            JvmtiEvent::DynamicCodeGenerated => 70,
            JvmtiEvent::DataDumpRequest => 71,
            JvmtiEvent::MonitorWait => 73,
            JvmtiEvent::MonitorWaited => 74,
            JvmtiEvent::MonitorContendedEnter => 75,
            JvmtiEvent::MonitorContendedEntered => 76,
            JvmtiEvent::ResourceExhausted => 80,
            JvmtiEvent::GarbageCollectionStart => 81,
            JvmtiEvent::GarbageCollectionFinish => 82,
            JvmtiEvent::ObjectFree => 83,
            JvmtiEvent::VmObjectAlloc => 84,
            JvmtiEvent::SampledObjectAlloc => 86,
        }
    }
}

impl FromSpecImpl<JvmtiEvent> for u32 {
    open spec fn obeys_from_spec() -> bool {
        true
    }

    open spec fn from_spec(value: JvmtiEvent) -> u32 {
        value.code()
    }
}

/// No two events share a number.
pub proof fn lemma_event_codes_differ(a: JvmtiEvent, b: JvmtiEvent)
    requires
        a.code() == b.code(),
    ensures
        a == b,
{
}

/// The versions of the tool interface that an agent can ask for.
#[derive(Debug, Clone, Copy, PartialEq, Eq, Structural)]
pub enum JvmtiVersion {
    Version1dot0,
    Version1dot1,
    Version1dot2,
    Version9,
    Version11,
    /// The version that this library speaks, which is 11.
    CurrentVersion,
}

impl JvmtiVersion {
    /// The number that the interface gives to this version: `3` in the top
    /// nibble, then the major, the minor and the micro version.
    pub open spec fn code(self) -> i32 {
        match self {
            JvmtiVersion::Version1dot0 => 0x3001_0000,
            JvmtiVersion::Version1dot1 => 0x3001_0100,
            JvmtiVersion::Version1dot2 => 0x3001_0200,
            JvmtiVersion::Version9 => 0x3009_0000,
            JvmtiVersion::Version11 => 0x300b_0000,
            JvmtiVersion::CurrentVersion => 0x300b_0000,
        }
    }
}

impl From<JvmtiVersion> for i32 {
    fn from(ver: JvmtiVersion) -> (result: i32) {
        match ver {
            JvmtiVersion::Version1dot0 => 0x3001_0000,
            JvmtiVersion::Version1dot1 => 0x3001_0100,
            JvmtiVersion::Version1dot2 => 0x3001_0200,
            JvmtiVersion::Version9 => 0x3009_0000,
            JvmtiVersion::Version11 => 0x300b_0000,
            JvmtiVersion::CurrentVersion => 0x300b_0000,
        }
    }
}

impl FromSpecImpl<JvmtiVersion> for i32 {
    open spec fn obeys_from_spec() -> bool {
        true
    }

    open spec fn from_spec(ver: JvmtiVersion) -> i32 {
        ver.code()
    }
}

} // verus!
