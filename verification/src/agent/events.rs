//! The two events that the agent listens to, from the callback to the
//! message for the writer.
use vstd::prelude::*;
use crate::agent::lifecycle::AgentSlot;
use crate::agent::resolve::{
    method_info,
    method_info_step,
    MethodInfoQuery,
    MethodInfoStep,
    VmCall,
    VmReply,
};
use crate::agent::stacks::{
    begins_stacks,
    moves_stacks,
    stack_info,
    stack_info_begin,
    StackInfoQuery,
    StackInfoStep,
};
use crate::agent::{
    AgentMessage,
    CompiledMethodLoadHandlerError,
    DynamicCodeGeneratedHandlerError,
    MethodInfo,
    StackInfo,
};
use crate::perf::dump_file::get_timestamp;
use crate::rvmti::{AddressLocationEntry, CompiledMethodLoadRecord, JMethodId};

verus! {

/// The message about generated code named `name` at `address`, with the
/// copy `code` of the code, for the reading `reading` of the clock: the
/// message with the time that was read, whose length is that of the code, or
/// the failure to read the clock.
pub open spec fn dynamic_code_message_of(
    name: Option<String>,
    address: usize,
    code: Vec<u8>,
    reading: Result<i64, nix::errno::Errno>,
) -> Result<AgentMessage, DynamicCodeGeneratedHandlerError> {
    match reading {
        Ok(timestamp) => Ok(
            AgentMessage::DynamicCodeGenerated {
                name,
                address,
                length: code.len(),
                timestamp,
                code,
            },
        ),
        Err(e) => Err(DynamicCodeGeneratedHandlerError::UnableToGetTimestamp(e)),
    }
}

/// Makes the message about generated code from the reading `reading` of
/// the clock.
pub fn dynamic_code_message(
    name: &Option<String>,
    address: usize,
    code: Vec<u8>,
    reading: Result<i64, nix::errno::Errno>,
) -> (result: Result<AgentMessage, DynamicCodeGeneratedHandlerError>)
    ensures
        result == dynamic_code_message_of(*name, address, code, reading),
{
    let timestamp = match reading {
        Ok(timestamp) => timestamp,
        Err(e) => {
            return Err(DynamicCodeGeneratedHandlerError::UnableToGetTimestamp(e));
        },
    };
    let name = match name {
        Some(name) => Some(name.clone()),
        None => None,
    };
    let length = code.len();
    Ok(AgentMessage::DynamicCodeGenerated { name, address, length, timestamp, code })
}

/// Handles the event that code was generated which belongs to no method,
/// given a copy `code` of that code: reads the clock and makes the message
/// for the writer. Without a loaded agent the event is dropped.
pub fn jvmti_event_dynamic_code_generated(
    slot: AgentSlot,
    name: &Option<String>,
    address: usize,
    code: Vec<u8>,
) -> (result: Result<AgentMessage, DynamicCodeGeneratedHandlerError>)
    ensures
        match slot {
            AgentSlot::Poisoned => result matches Err(
                DynamicCodeGeneratedHandlerError::FailedToLockAgentEnvironment,
            ),
            AgentSlot::Empty => result matches Err(
                DynamicCodeGeneratedHandlerError::AgentNotInitialized,
            ),
            AgentSlot::Initialized => match result {
                Ok(AgentMessage::DynamicCodeGenerated { name: n, address: a, length: l, code: c, .. }) =>
                    n == *name && a == address && l == code.len() && c == code
                        && result->Ok_0.well_formed(),
                Err(DynamicCodeGeneratedHandlerError::UnableToGetTimestamp(_)) => true,
                _ => false,
            },
        },
{
    match slot {
        AgentSlot::Poisoned => Err(DynamicCodeGeneratedHandlerError::FailedToLockAgentEnvironment),
        AgentSlot::Empty => Err(DynamicCodeGeneratedHandlerError::AgentNotInitialized),
        AgentSlot::Initialized => dynamic_code_message(name, address, code, get_timestamp()),
    }
}

/// How far the handling of a compiled method has come.
#[derive(Debug)]
pub enum CompiledMethodLoadStage {
    /// The method itself is asked about.
    Method(MethodInfoQuery),
    /// The method is known and its inlining stacks are resolved.
    Stacks { method: MethodInfo, stacks: StackInfoQuery },
}

/// A compiled method whose event is being handled.
#[derive(Debug)]
pub struct CompiledMethodLoad {
    pub address: usize,
    pub code: Vec<u8>,
    pub address_locations: Option<Vec<AddressLocationEntry>>,
    pub compile_info: Option<Vec<CompiledMethodLoadRecord>>,
    pub stage: CompiledMethodLoadStage,
}

/// How the handling of a compiled method goes on.
#[derive(Debug)]
pub enum CompiledMethodLoadStep {
    /// With the answer to a question to the virtual machine.
    Next(CompiledMethodLoad),
    /// With this message for the writer.
    Send(AgentMessage),
    /// Not at all: the event is dropped.
    Failed(CompiledMethodLoadHandlerError),
}

impl CompiledMethodLoad {
    /// The question that is open.
    pub open spec fn pending(&self) -> VmCall {
        match self.stage {
            CompiledMethodLoadStage::Method(query) => query.pending(),
            CompiledMethodLoadStage::Stacks { stacks, .. } => stacks.method().pending(),
        }
    }

    /// The question that is open.
    pub fn call(&self) -> (call: VmCall)
        ensures
            call == self.pending(),
    {
        match &self.stage {
            CompiledMethodLoadStage::Method(query) => query.call(),
            CompiledMethodLoadStage::Stacks { stacks, .. } => stacks.call(),
        }
    }
}

/// Whether `message` tells of the compiled method `method` at `address`
/// with the code `code`, the address locations `address_locations` and the
/// inlining stacks `stack_info`.
pub open spec fn tells_compiled_method(
    message: AgentMessage,
    method: MethodInfo,
    address: usize,
    code: Vec<u8>,
    address_locations: Option<Vec<AddressLocationEntry>>,
    stack_info: Option<Vec<StackInfo>>,
) -> bool {
    match message {
        AgentMessage::CompiledMethodLoad {
            name,
            class_signature,
            class_source_file_name,
            address: a,
            length,
            line_numbers,
            address_locations: locations,
            stack_info: stacks,
            code: c,
            ..
        } => {
            &&& name == method.name
            &&& class_signature == method.class.signature
            &&& class_source_file_name == method.class.source_file_name
            &&& a == address
            &&& length == code.len()
            &&& line_numbers == method.line_numbers
            &&& locations == address_locations
            &&& stacks == stack_info
            &&& c == code
            &&& message.well_formed()
        },
        _ => false,
    }
}

/// How the handling of a compiled method ends for the reading `reading` of
/// the clock: with the message that tells of the method, its code, its
/// address locations and its inlining stacks at the time that was read, or
/// with the failure to read the clock.
pub open spec fn compiled_method_step_of(
    method: MethodInfo,
    address: usize,
    code: Vec<u8>,
    address_locations: Option<Vec<AddressLocationEntry>>,
    stack_info: Option<Vec<StackInfo>>,
    reading: Result<i64, nix::errno::Errno>,
) -> CompiledMethodLoadStep {
    match reading {
        Ok(timestamp) => CompiledMethodLoadStep::Send(
            AgentMessage::CompiledMethodLoad {
                name: method.name,
                class_signature: method.class.signature,
                class_source_file_name: method.class.source_file_name,
                address,
                length: code.len(),
                line_numbers: method.line_numbers,
                address_locations,
                stack_info,
                timestamp,
                code,
            },
        ),
        Err(e) => CompiledMethodLoadStep::Failed(
            CompiledMethodLoadHandlerError::UnableToGetTimestamp(e),
        ),
    }
}

/// Ends the handling of a compiled method with the reading `reading` of
/// the clock.
pub fn compiled_method_step(
    method: MethodInfo,
    address: usize,
    code: Vec<u8>,
    address_locations: Option<Vec<AddressLocationEntry>>,
    stack_info: Option<Vec<StackInfo>>,
    reading: Result<i64, nix::errno::Errno>,
) -> (step: CompiledMethodLoadStep)
    ensures
        step == compiled_method_step_of(
            method,
            address,
            code,
            address_locations,
            stack_info,
            reading,
        ),
{
    let timestamp = match reading {
        Ok(timestamp) => timestamp,
        Err(e) => {
            return CompiledMethodLoadStep::Failed(
                CompiledMethodLoadHandlerError::UnableToGetTimestamp(e),
            );
        },
    };
    let length = code.len();
    CompiledMethodLoadStep::Send(
        AgentMessage::CompiledMethodLoad {
            name: method.name,
            class_signature: method.class.signature,
            class_source_file_name: method.class.source_file_name,
            address,
            length,
            line_numbers: method.line_numbers,
            address_locations,
            stack_info,
            timestamp,
            code,
        },
    )
}

/// Ends the handling of a compiled method: reads the clock and makes the
/// message for the writer.
fn compiled_method_message(
    method: MethodInfo,
    address: usize,
    code: Vec<u8>,
    address_locations: Option<Vec<AddressLocationEntry>>,
    stack_info: Option<Vec<StackInfo>>,
) -> (step: CompiledMethodLoadStep)
    ensures
        match step {
            CompiledMethodLoadStep::Send(message) => tells_compiled_method(
                message,
                method,
                address,
                code,
                address_locations,
                stack_info,
            ),
            CompiledMethodLoadStep::Failed(e) => e is UnableToGetTimestamp,
            CompiledMethodLoadStep::Next(_) => false,
        },
{
    compiled_method_step(method, address, code, address_locations, stack_info, get_timestamp())
}

/// Whether `step` is how the handling of a compiled method goes on once
/// the resolving of its inlining stacks has come to `stacks`: with the next
/// question while stacks are left to resolve; with the message for the
/// writer, or without it where the clock cannot be read, once they are
/// resolved; not at all where the resolving failed.
pub open spec fn goes_on(
    step: CompiledMethodLoadStep,
    method: MethodInfo,
    address: usize,
    code: Vec<u8>,
    address_locations: Option<Vec<AddressLocationEntry>>,
    compile_info: Option<Vec<CompiledMethodLoadRecord>>,
    stacks: StackInfoStep,
) -> bool {
    match stacks {
        StackInfoStep::Next(query) => step matches CompiledMethodLoadStep::Next(next) && {
            &&& next.address == address
            &&& next.code == code
            &&& next.address_locations == address_locations
            &&& next.compile_info == compile_info
            &&& next.stage == (CompiledMethodLoadStage::Stacks { method, stacks: query })
        },
        StackInfoStep::Done(stack_info) => match step {
            CompiledMethodLoadStep::Send(message) => tells_compiled_method(
                message,
                method,
                address,
                code,
                address_locations,
                stack_info,
            ),
            CompiledMethodLoadStep::Failed(e) => e is UnableToGetTimestamp,
            CompiledMethodLoadStep::Next(_) => false,
        },
        StackInfoStep::Failed(e) => step matches CompiledMethodLoadStep::Failed(
            CompiledMethodLoadHandlerError::UnableToGetStackInfo(f),
        ) && f == e,
    }
}

/// Goes on once the inlining stacks are started or moved on.
fn after_stacks_step(
    method: MethodInfo,
    address: usize,
    code: Vec<u8>,
    address_locations: Option<Vec<AddressLocationEntry>>,
    compile_info: Option<Vec<CompiledMethodLoadRecord>>,
    stacks: StackInfoStep,
) -> (step: CompiledMethodLoadStep)
    ensures
        goes_on(step, method, address, code, address_locations, compile_info, stacks),
{
    match stacks {
        StackInfoStep::Next(query) => CompiledMethodLoadStep::Next(
            CompiledMethodLoad {
                address,
                code,
                address_locations,
                compile_info,
                stage: CompiledMethodLoadStage::Stacks { method, stacks: query },
            },
        ),
        StackInfoStep::Done(stack_info) => compiled_method_message(
            method,
            address,
            code,
            address_locations,
            stack_info,
        ),
        StackInfoStep::Failed(e) => CompiledMethodLoadStep::Failed(
            CompiledMethodLoadHandlerError::UnableToGetStackInfo(e),
        ),
    }
}

/// Starts to handle the event that a method was compiled, given a copy
/// `code` of the compiled code. Without a loaded agent the event is
/// dropped; else the method is asked about first.
pub fn on_compiled_method_load(
    slot: AgentSlot,
    method_id: &JMethodId,
    address_locations: Option<Vec<AddressLocationEntry>>,
    compile_info: Option<Vec<CompiledMethodLoadRecord>>,
    address: usize,
    code: Vec<u8>,
) -> (step: CompiledMethodLoadStep)
    ensures
        match slot {
            AgentSlot::Poisoned => step matches CompiledMethodLoadStep::Failed(
                CompiledMethodLoadHandlerError::FailedToLockAgentEnvironment,
            ),
            AgentSlot::Empty => step matches CompiledMethodLoadStep::Failed(
                CompiledMethodLoadHandlerError::AgentNotInitialized,
            ),
            AgentSlot::Initialized => step matches CompiledMethodLoadStep::Next(next) && {
                &&& next.address == address
                &&& next.code == code
                &&& next.address_locations == address_locations
                &&& next.compile_info == compile_info
                &&& next.stage == CompiledMethodLoadStage::Method(
                    MethodInfoQuery::Name { method: *method_id },
                )
            },
        },
{
    match slot {
        AgentSlot::Poisoned => CompiledMethodLoadStep::Failed(
            CompiledMethodLoadHandlerError::FailedToLockAgentEnvironment,
        ),
        AgentSlot::Empty => CompiledMethodLoadStep::Failed(
            CompiledMethodLoadHandlerError::AgentNotInitialized,
        ),
        AgentSlot::Initialized => CompiledMethodLoadStep::Next(
            CompiledMethodLoad {
                address,
                code,
                address_locations,
                compile_info,
                stage: CompiledMethodLoadStage::Method(MethodInfoQuery::new(*method_id)),
            },
        ),
    }
}

/// Takes the virtual machine's answer to the open question of a compiled
/// method's event. The method is asked about first and its inlining stacks
/// after it; when both are known the clock is read and the message for the
/// writer is made. A failure drops the event.
pub fn jvmti_event_compiled_method_load(event: CompiledMethodLoad, reply: VmReply) -> (step:
    CompiledMethodLoadStep)
    ensures
        match event.stage {
            CompiledMethodLoadStage::Method(query) => match method_info_step(query, reply) {
                MethodInfoStep::Next(next_query) => step matches CompiledMethodLoadStep::Next(
                    next,
                ) && {
                    &&& next.address == event.address
                    &&& next.code == event.code
                    &&& next.address_locations == event.address_locations
                    &&& next.compile_info == event.compile_info
                    &&& next.stage == CompiledMethodLoadStage::Method(next_query)
                },
                MethodInfoStep::Failed(e) => step matches CompiledMethodLoadStep::Failed(
                    CompiledMethodLoadHandlerError::UnableToGetMethodInfo(f),
                ) && f == e,
                MethodInfoStep::Done(method) => exists|begun: StackInfoStep|
                    begins_stacks(event.compile_info, begun) && #[trigger] goes_on(
                        step,
                        method,
                        event.address,
                        event.code,
                        event.address_locations,
                        event.compile_info,
                        begun,
                    ),
            },
            CompiledMethodLoadStage::Stacks { method, stacks } => exists|moved: StackInfoStep|
                moves_stacks(stacks, reply, moved) && #[trigger] goes_on(
                    step,
                    method,
                    event.address,
                    event.code,
                    event.address_locations,
                    event.compile_info,
                    moved,
                ),
        },
{
    let CompiledMethodLoad { address, code, address_locations, compile_info, stage } = event;
    match stage {
        CompiledMethodLoadStage::Method(query) => match method_info(query, reply) {
            MethodInfoStep::Next(query) => CompiledMethodLoadStep::Next(
                CompiledMethodLoad {
                    address,
                    code,
                    address_locations,
                    compile_info,
                    stage: CompiledMethodLoadStage::Method(query),
                },
            ),
            MethodInfoStep::Failed(e) => CompiledMethodLoadStep::Failed(
                CompiledMethodLoadHandlerError::UnableToGetMethodInfo(e),
            ),
            MethodInfoStep::Done(method) => {
                let begun = stack_info_begin(&compile_info);
                after_stacks_step(method, address, code, address_locations, compile_info, begun)
            },
        },
        CompiledMethodLoadStage::Stacks { method, stacks } => {
            let moved = stack_info(stacks, reply);
            after_stacks_step(method, address, code, address_locations, compile_info, moved)
        },
    }
}

} // verus!
