//! The agent between the virtual machine and the dump: what it keeps of a
//! method, what it hands to the writer, and what it decides.
use vstd::prelude::*;
use crate::perf::dump_dir::CreteDumpDirError;
use crate::perf::NewDumpFileError;
use crate::rvmti::{
    AddressLocationEntry,
    AllocError,
    ClassSignature,
    GetClassSignatureError,
    GetMethodNameError,
    GetSourceFileNameError,
    JniError,
    JvmtiError,
    LineNumberEntry,
    MethodName,
};

pub mod events;
pub mod lifecycle;
pub mod resolve;
pub mod stacks;
pub mod worker;

verus! {

/// What the agent keeps of a class.
#[derive(Debug)]
pub struct ClassInfo {
    pub signature: ClassSignature,
    pub source_file_name: Option<String>,
}

/// What the agent keeps of a method at the time of an event. A native
/// method has no line numbers.
#[derive(Debug)]
pub struct MethodInfo {
    pub name: MethodName,
    pub class: ClassInfo,
    pub native_method: bool,
    pub line_numbers: Option<Vec<LineNumberEntry>>,
}

/// One frame of an inlining stack, with what is known of its method.
#[derive(Debug)]
pub struct StackFrameInfo {
    pub method: MethodInfo,
    pub byte_code_index: i32,
}

/// The inlining stack at one address of compiled code, innermost frame
/// first.
#[derive(Debug)]
pub struct StackInfo {
    pub pc_address: usize,
    pub stack_frames: Vec<StackFrameInfo>,
}

/// What an event thread hands to the writer.
#[derive(Debug)]
#[allow(inconsistent_fields)]
pub enum AgentMessage {
    /// The agent is being unloaded.
    Shutdown,
    /// The virtual machine generated code that belongs to no method.
    DynamicCodeGenerated {
        name: Option<String>,
        address: usize,
        length: usize,
        timestamp: i64,
        code: Vec<u8>,
    },
    /// The virtual machine compiled a method.
    CompiledMethodLoad {
        name: MethodName,
        class_signature: ClassSignature,
        class_source_file_name: Option<String>,
        address: usize,
        length: usize,
        line_numbers: Option<Vec<LineNumberEntry>>,
        address_locations: Option<Vec<AddressLocationEntry>>,
        stack_info: Option<Vec<StackInfo>>,
        timestamp: i64,
        code: Vec<u8>,
    },
}

/// What a `StackInfo` stands for: the address and the frames in order.
pub struct StackInfoView {
    pub pc_address: usize,
    pub stack_frames: Seq<StackFrameInfo>,
}

impl View for StackInfo {
    type V = StackInfoView;

    open spec fn view(&self) -> StackInfoView {
        StackInfoView { pc_address: self.pc_address, stack_frames: self.stack_frames@ }
    }
}

/// What each stack of `stacks` stands for.
pub open spec fn stack_info_views(stacks: Seq<StackInfo>) -> Seq<StackInfoView> {
    Seq::new(stacks.len(), |i: int| stacks[i]@)
}

impl AgentMessage {
    /// A message that announces code tells as its length the number of
    /// bytes of the code that it carries.
    pub open spec fn well_formed(&self) -> bool {
        match self {
            AgentMessage::Shutdown => true,
            AgentMessage::DynamicCodeGenerated { length, code, .. } => *length == code@.len(),
            AgentMessage::CompiledMethodLoad { length, code, .. } => *length == code@.len(),
        }
    }
}

impl MethodInfo {
    /// A native method carries no line numbers.
    pub open spec fn well_formed(&self) -> bool {
        self.native_method ==> self.line_numbers is None
    }
}

/// Why the agent could not be set up.
#[derive(Debug)]
pub enum AgentInitError {
    UnableToAllocateCapabilities(AllocError),
    UnableToAddCapabilities(JvmtiError),
    UnableToAllocateEventCallbackSettings(AllocError),
    UnableToSetEventCallbacks(JvmtiError),
    UnableToEnableEvents(JvmtiError),
    UnableToObtainJvmtiEnvironment(JniError),
    PoisonedMutexError,
    UnableToCreateDumpDir(CreteDumpDirError),
    UnableToCreateDumpFile(NewDumpFileError),
}

/// Why nothing is known of a class.
#[derive(Debug)]
pub enum ClassInfoError {
    UnableToGetClassSignature(GetClassSignatureError),
    UnableToGetClassSourceFileName(GetSourceFileNameError),
}

/// Why nothing is known of a method.
#[derive(Debug)]
pub enum MethodInfoError {
    UnableToGetMethodName(GetMethodNameError),
    UnableToGetMethodDeclaringClass(JvmtiError),
    UnableToGetDeclaringClassInfo(ClassInfoError),
    UnableToCheckIfMethodIsNative(JvmtiError),
    UnableToGetMethodLineNumbers(JvmtiError),
}

/// Why the inlining stacks of a method could not be resolved.
#[derive(Debug)]
pub enum StackInfoError {
    UnableToGetMethodInfo(MethodInfoError),
}

/// Why an event that announces generated code was dropped.
#[derive(Debug)]
pub enum DynamicCodeGeneratedHandlerError {
    UnableToGetTimestamp(nix::errno::Errno),
    AgentNotInitialized,
    FailedToLockAgentEnvironment,
}

/// Why an event that announces a compiled method was dropped.
#[derive(Debug)]
pub enum CompiledMethodLoadHandlerError {
    UnableToGetTimestamp(nix::errno::Errno),
    AgentNotInitialized,
    FailedToLockAgentEnvironment,
    UnableToGetMethodInfo(MethodInfoError),
    UnableToGetStackInfo(StackInfoError),
}

} // verus!
