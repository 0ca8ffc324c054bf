//! Loading and unloading the agent: which step comes after which, and which
//! error a failed step means.
use vstd::prelude::*;
use crate::agent::AgentInitError;
use crate::perf::dump_dir::CreteDumpDirError;
use crate::perf::NewDumpFileError;
use crate::rvmti::{
    AllocError,
    JniError,
    JvmtiCapabilities,
    JvmtiError,
    JvmtiEvent,
    JvmtiEventCallbacksSettings,
};

verus! {

/// What a thread finds in the place where the loaded agent is kept.
#[derive(Debug, Clone, Copy, PartialEq, Eq, Structural)]
pub enum AgentSlot {
    /// A thread died while it held the lock of the place.
    Poisoned,
    /// No agent is loaded.
    Empty,
    /// The agent is loaded.
    Initialized,
}

/// The steps of loading, in their order.
#[derive(Debug, Clone, Copy, PartialEq, Eq, Structural)]
pub enum LoadStage {
    /// Ask the virtual machine for an environment of the current version.
    ObtainEnvironment,
    /// Set up an empty set of capabilities.
    AllocateCapabilities,
    /// Ask for the capabilities that `add_capabilities` names.
    AddCapabilities,
    /// Set up empty callback settings.
    AllocateEventCallbackSettings,
    /// Install the handlers that `set_event_callbacks` names.
    SetEventCallbacks,
    /// Have the first event of `enable_events` delivered, on every thread.
    EnableFirstEvent,
    /// Have the second event of `enable_events` delivered, on every thread.
    EnableSecondEvent,
    /// Make the directory of the dump.
    CreateDumpDir,
    /// Make the file of the dump.
    CreateDumpFile,
    /// Start the writer and put the agent in its place.
    Install,
}

/// Why a step of loading failed.
#[derive(Debug)]
pub enum LoadFailure {
    Jni(JniError),
    Alloc(AllocError),
    Jvmti(JvmtiError),
    DumpDir(CreteDumpDirError),
    DumpFile(NewDumpFileError),
}

/// How loading goes on.
#[derive(Debug)]
pub enum LoadStep {
    /// With this step.
    Do(LoadStage),
    /// Not at all: the agent is loaded.
    Loaded,
    /// Not at all: loading failed, and what was set up is to be undone.
    Failed(AgentInitError),
}

/// What a thread does to unload the agent, in this order.
#[derive(Debug, Clone, Copy, PartialEq, Eq, Structural)]
pub enum UnloadAction {
    /// Tell the writer to shut down.
    SendShutdown,
    /// Wait until the writer has ended the stream.
    JoinWriter,
    /// Give the environment back to the virtual machine.
    DisposeEnvironment,
}

impl LoadStage {
    /// The place of the step in the order of loading, from zero.
    pub open spec fn number(self) -> nat {
        match self {
            LoadStage::ObtainEnvironment => 0,
            LoadStage::AllocateCapabilities => 1,
            LoadStage::AddCapabilities => 2,
            LoadStage::AllocateEventCallbackSettings => 3,
            LoadStage::SetEventCallbacks => 4,
            LoadStage::EnableFirstEvent => 5,
            LoadStage::EnableSecondEvent => 6,
            LoadStage::CreateDumpDir => 7,
            LoadStage::CreateDumpFile => 8,
            LoadStage::Install => 9,
        }
    }
}

/// The capabilities that the agent asks for: tagging objects, all class
/// hook events, object-free events, source file names, line numbers,
/// object-allocation events and compiled-method-load events.
pub open spec fn agent_capabilities() -> JvmtiCapabilities {
    JvmtiCapabilities {
        can_generate_all_class_hook_events: true,
        can_tag_objects: true,
        can_generate_object_free_events: true,
        can_get_source_file_name: true,
        can_get_line_numbers: true,
        can_generate_vm_object_alloc_events: true,
        can_generate_compiled_method_load_events: true,
        ..JvmtiCapabilities::empty()
    }
}

/// The capabilities that the agent asks for.
pub fn add_capabilities() -> (capabilities: JvmtiCapabilities)
    ensures
        capabilities == agent_capabilities(),
{
    let mut capabilities = JvmtiCapabilities::new_empty_capabilities();
    capabilities.set_can_generate_all_class_hook_events(true);
    capabilities.set_can_tag_objects(true);
    capabilities.set_can_generate_object_free_events(true);
    capabilities.set_can_get_source_file_name(true);
    capabilities.set_can_get_line_numbers(true);
    capabilities.set_can_generate_vm_object_alloc_events(true);
    capabilities.set_can_generate_compiled_method_load_events(true);
    capabilities
}

/// The events for which the agent installs a handler: a method was
/// compiled, and code was generated.
pub open spec fn agent_callbacks() -> JvmtiEventCallbacksSettings {
    JvmtiEventCallbacksSettings {
        compiled_method_load_enabled: true,
        dynamic_code_generated_enabled: true,
        ..JvmtiEventCallbacksSettings::empty()
    }
}

/// The events for which the agent installs a handler.
pub fn set_event_callbacks() -> (settings: JvmtiEventCallbacksSettings)
    ensures
        settings == agent_callbacks(),
{
    let mut settings = JvmtiEventCallbacksSettings::new_empty_settings();
    settings.set_compiled_method_load_enabled(true);
    settings.set_dynamic_code_generated_enabled(true);
    settings
}

/// The events that the agent has delivered, in the order in which it asks
/// for them.
pub fn enable_events() -> (events: [JvmtiEvent; 2])
    ensures
        events@ == seq![JvmtiEvent::CompiledMethodLoad, JvmtiEvent::DynamicCodeGenerated],
{
    let events = [JvmtiEvent::CompiledMethodLoad, JvmtiEvent::DynamicCodeGenerated];
    events
}

/// The error that a failure of `stage` means. The kind of the failure
/// decides; where one kind can come from several steps, the step decides
/// among them.
pub open spec fn load_error(stage: LoadStage, failure: LoadFailure) -> AgentInitError {
    match failure {
        LoadFailure::Jni(e) => AgentInitError::UnableToObtainJvmtiEnvironment(e),
        LoadFailure::Alloc(e) => if stage.number() <= LoadStage::AddCapabilities.number() {
            AgentInitError::UnableToAllocateCapabilities(e)
        } else {
            AgentInitError::UnableToAllocateEventCallbackSettings(e)
        },
        LoadFailure::Jvmti(e) => if stage.number() <= LoadStage::AddCapabilities.number() {
            AgentInitError::UnableToAddCapabilities(e)
        } else if stage.number() <= LoadStage::SetEventCallbacks.number() {
            AgentInitError::UnableToSetEventCallbacks(e)
        } else {
            AgentInitError::UnableToEnableEvents(e)
        },
        LoadFailure::DumpDir(e) => AgentInitError::UnableToCreateDumpDir(e),
        LoadFailure::DumpFile(e) => AgentInitError::UnableToCreateDumpFile(e),
    }
}

/// What comes after `stage` when it succeeded.
pub open spec fn after_stage(stage: LoadStage) -> LoadStep {
    match stage {
        LoadStage::ObtainEnvironment => LoadStep::Do(LoadStage::AllocateCapabilities),
        LoadStage::AllocateCapabilities => LoadStep::Do(LoadStage::AddCapabilities),
        LoadStage::AddCapabilities => LoadStep::Do(LoadStage::AllocateEventCallbackSettings),
        LoadStage::AllocateEventCallbackSettings => LoadStep::Do(LoadStage::SetEventCallbacks),
        LoadStage::SetEventCallbacks => LoadStep::Do(LoadStage::EnableFirstEvent),
        LoadStage::EnableFirstEvent => LoadStep::Do(LoadStage::EnableSecondEvent),
        LoadStage::EnableSecondEvent => LoadStep::Do(LoadStage::CreateDumpDir),
        LoadStage::CreateDumpDir => LoadStep::Do(LoadStage::CreateDumpFile),
        LoadStage::CreateDumpFile => LoadStep::Do(LoadStage::Install),
        LoadStage::Install => LoadStep::Loaded,
    }
}

/// Starts to load the agent. An agent that is loaded already is not loaded
/// again, which is no failure; a poisoned lock is one.
pub fn do_on_load(slot: AgentSlot) -> (step: LoadStep)
    ensures
        match slot {
            AgentSlot::Poisoned => step == LoadStep::Failed(AgentInitError::PoisonedMutexError),
            AgentSlot::Initialized => step == LoadStep::Loaded,
            AgentSlot::Empty => step == LoadStep::Do(LoadStage::ObtainEnvironment),
        },
{
    match slot {
        AgentSlot::Poisoned => LoadStep::Failed(AgentInitError::PoisonedMutexError),
        AgentSlot::Initialized => LoadStep::Loaded,
        AgentSlot::Empty => LoadStep::Do(LoadStage::ObtainEnvironment),
    }
}

/// Goes on with loading after `stage` ended with `outcome`: with the next
/// step, or not at all after the last step or after a failure.
pub fn initialize_agent(stage: LoadStage, outcome: Result<(), LoadFailure>) -> (step: LoadStep)
    ensures
        match outcome {
            Ok(_) => step == after_stage(stage),
            Err(failure) => step == LoadStep::Failed(load_error(stage, failure)),
        },
{
    match outcome {
        Ok(_) => match stage {
            LoadStage::ObtainEnvironment => LoadStep::Do(LoadStage::AllocateCapabilities),
            LoadStage::AllocateCapabilities => LoadStep::Do(LoadStage::AddCapabilities),
            LoadStage::AddCapabilities => LoadStep::Do(LoadStage::AllocateEventCallbackSettings),
            LoadStage::AllocateEventCallbackSettings => LoadStep::Do(LoadStage::SetEventCallbacks),
            LoadStage::SetEventCallbacks => LoadStep::Do(LoadStage::EnableFirstEvent),
            LoadStage::EnableFirstEvent => LoadStep::Do(LoadStage::EnableSecondEvent),
            LoadStage::EnableSecondEvent => LoadStep::Do(LoadStage::CreateDumpDir),
            LoadStage::CreateDumpDir => LoadStep::Do(LoadStage::CreateDumpFile),
            LoadStage::CreateDumpFile => LoadStep::Do(LoadStage::Install),
            LoadStage::Install => LoadStep::Loaded,
        },
        Err(failure) => {
            let early = match stage {
                LoadStage::ObtainEnvironment
                | LoadStage::AllocateCapabilities
                | LoadStage::AddCapabilities => true,
                _ => false,
            };
            let before_events = match stage {
                LoadStage::ObtainEnvironment
                | LoadStage::AllocateCapabilities
                | LoadStage::AddCapabilities
                | LoadStage::AllocateEventCallbackSettings
                | LoadStage::SetEventCallbacks => true,
                _ => false,
            };
            LoadStep::Failed(
                match failure {
                    LoadFailure::Jni(e) => AgentInitError::UnableToObtainJvmtiEnvironment(e),
                    LoadFailure::Alloc(e) => if early {
                        AgentInitError::UnableToAllocateCapabilities(e)
                    } else {
                        AgentInitError::UnableToAllocateEventCallbackSettings(e)
                    },
                    LoadFailure::Jvmti(e) => if early {
                        AgentInitError::UnableToAddCapabilities(e)
                    } else if before_events {
                        AgentInitError::UnableToSetEventCallbacks(e)
                    } else {
                        AgentInitError::UnableToEnableEvents(e)
                    },
                    LoadFailure::DumpDir(e) => AgentInitError::UnableToCreateDumpDir(e),
                    LoadFailure::DumpFile(e) => AgentInitError::UnableToCreateDumpFile(e),
                },
            )
        },
    }
}

/// What the virtual machine is told about loading: zero when the agent is
/// loaded, minus one when loading failed.
pub fn agent_on_load(outcome: &Result<(), AgentInitError>) -> (code: i32)
    ensures
        code == if outcome is Ok {
            0i32
        } else {
            -1i32
        },
{
    match outcome {
        Ok(_) => 0,
        Err(_) => -1,
    }
}

/// What is done to unload the agent. A loaded agent has its writer shut
/// down and waited for, and then its environment given back. Where no
/// agent is loaded, or the lock is poisoned, nothing is done.
pub fn agent_on_unload(slot: AgentSlot) -> (actions: Vec<UnloadAction>)
    ensures
        actions@ == if slot == AgentSlot::Initialized {
            seq![
                UnloadAction::SendShutdown,
                UnloadAction::JoinWriter,
                UnloadAction::DisposeEnvironment,
            ]
        } else {
            Seq::<UnloadAction>::empty()
        },
{
    let mut actions: Vec<UnloadAction> = Vec::new();
    match slot {
        AgentSlot::Initialized => {
            actions.push(UnloadAction::SendShutdown);
            actions.push(UnloadAction::JoinWriter);
            actions.push(UnloadAction::DisposeEnvironment);
        },
        _ => {},
    }
    actions
}

/// Loading takes its steps in their order: after a step that succeeded
/// comes the step with the next number, and after the last step the agent
/// is loaded.
pub proof fn lemma_load_order(stage: LoadStage)
    ensures
        match after_stage(stage) {
            LoadStep::Do(next) => next.number() == stage.number() + 1,
            LoadStep::Loaded => stage.number() == 9,
            LoadStep::Failed(_) => false,
        },
{
}

} // verus!
