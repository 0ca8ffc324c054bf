//! What the agent sees of the virtual machine's tool interface.
use vstd::prelude::*;

pub mod capabilities;
pub mod codes;
pub mod compile_info;
pub mod replies;
pub mod strings;

pub use crate::rvmti::capabilities::{JvmtiCapabilities, JvmtiEventCallbacksSettings};
pub use crate::rvmti::codes::{JniError, JvmtiError, JvmtiEvent, JvmtiEventMode, JvmtiVersion};
pub use crate::rvmti::strings::StringDecodeError;

verus! {

/// A bytecode index as the tool interface reports it.
pub type JLocation = i64;

/// The virtual machine's handle of a thread.
#[derive(Debug, Clone, Copy, PartialEq, Eq, Structural)]
pub struct JThread {
    pub thread: usize,
}

/// The virtual machine's handle of a method.
#[derive(Debug, Clone, Copy, PartialEq, Eq, Structural)]
pub struct JMethodId {
    pub method: usize,
}

/// The virtual machine's handle of a class.
#[derive(Debug, Clone, Copy, PartialEq, Eq, Structural)]
pub struct JClass {
    pub class: usize,
}

/// A method's name and descriptor, and its generic signature if it has one.
#[derive(Debug)]
pub struct MethodName {
    pub name: String,
    pub signature: String,
    pub generic_signature: Option<String>,
}

/// A class's descriptor, and its generic signature if it has one.
#[derive(Debug)]
pub struct ClassSignature {
    pub signature: String,
    pub generic_signature: Option<String>,
}

/// One row of a method's line-number table: from `start_location` on, the
/// bytecode belongs to source line `line_number`.
#[derive(Debug, Clone, Copy, PartialEq, Eq, Structural)]
pub struct LineNumberEntry {
    pub start_location: JLocation,
    pub line_number: i32,
}

/// Maps a machine address inside compiled code to a bytecode index.
#[derive(Debug, Clone, Copy, PartialEq, Eq, Structural)]
pub struct AddressLocationEntry {
    pub start_address: usize,
    pub location: JLocation,
}

/// One frame of an inlining stack: a method and the bytecode index in it.
#[derive(Debug, Clone, Copy, PartialEq, Eq, Structural)]
pub struct StackFrame {
    pub method_id: JMethodId,
    pub byte_code_index: i32,
}

/// The inlining stack at one address of compiled code, innermost frame
/// first.
#[derive(Debug)]
pub struct StackInfo {
    pub pc_address: usize,
    pub stack_frames: Vec<StackFrame>,
}

/// One record of what the compiler tells about a compiled method.
#[derive(Debug)]
pub enum CompiledMethodLoadRecord {
    /// The inlining stacks of the method's code.
    Inline { stack_infos: Vec<StackInfo> },
    /// A record that carries nothing.
    Dummy,
}

/// What a `StackInfo` stands for: the address and the frames in order.
pub struct StackInfoView {
    pub pc_address: usize,
    pub stack_frames: Seq<StackFrame>,
}

impl View for StackInfo {
    type V = StackInfoView;

    open spec fn view(&self) -> StackInfoView {
        StackInfoView { pc_address: self.pc_address, stack_frames: self.stack_frames@ }
    }
}

/// What each stack of `stacks` stands for.
pub open spec fn stack_views(stacks: Seq<StackInfo>) -> Seq<StackInfoView> {
    Seq::new(stacks.len(), |i: int| stacks[i]@)
}

/// What a `CompiledMethodLoadRecord` stands for.
pub enum CompiledMethodLoadRecordView {
    Inline { stack_infos: Seq<StackInfoView> },
    Dummy,
}

impl View for CompiledMethodLoadRecord {
    type V = CompiledMethodLoadRecordView;

    open spec fn view(&self) -> CompiledMethodLoadRecordView {
        match self {
            CompiledMethodLoadRecord::Inline { stack_infos } => CompiledMethodLoadRecordView::Inline {
                stack_infos: stack_views(stack_infos@),
            },
            CompiledMethodLoadRecord::Dummy => CompiledMethodLoadRecordView::Dummy,
        }
    }
}

/// What each record of `records` stands for.
pub open spec fn record_views(records: Seq<CompiledMethodLoadRecord>) -> Seq<
    CompiledMethodLoadRecordView,
> {
    Seq::new(records.len(), |i: int| records[i]@)
}

/// Why a structure of the interface could not be set up.
#[derive(Debug, Clone, Copy, PartialEq, Eq, Structural)]
pub enum AllocError {
    OutOfMemory,
}

/// Why a method's name could not be had.
#[derive(Debug)]
pub enum GetMethodNameError {
    VmError(JvmtiError),
    NameDecodeError(StringDecodeError),
    SignatureDecodeError(StringDecodeError),
    GenericSignatureDecodeError(StringDecodeError),
}

/// Why a class's signature could not be had.
#[derive(Debug)]
pub enum GetClassSignatureError {
    VmError(JvmtiError),
    SignatureDecodeError(StringDecodeError),
    GenericSignatureDecodeError(StringDecodeError),
}

/// Why the name of a class's source file could not be had.
#[derive(Debug)]
pub enum GetSourceFileNameError {
    VmError(JvmtiError),
    SourceFileNameDecodeError(StringDecodeError),
}

} // verus!
