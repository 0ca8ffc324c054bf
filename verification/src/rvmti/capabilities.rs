//! The capabilities that an agent asks for and the events for which it
//! installs a handler.
use vstd::prelude::*;

verus! {

/// The capabilities of the tool interface, each asked for or not.
#[derive(Debug, Clone, Copy, PartialEq, Eq, Structural)]
pub struct JvmtiCapabilities {
    pub can_tag_objects: bool,
    pub can_generate_field_modification_events: bool,
    pub can_generate_field_access_events: bool,
    pub can_get_bytecodes: bool,
    pub can_get_synthetic_attribute: bool,
    pub can_get_owned_monitor_info: bool,
    pub can_get_current_contended_monitor: bool,
    pub can_get_monitor_info: bool,
    pub can_pop_frame: bool,
    pub can_redefine_classes: bool,
    pub can_signal_thread: bool,
    pub can_get_source_file_name: bool,
    pub can_get_line_numbers: bool,
    pub can_get_source_debug_extension: bool,
    pub can_access_local_variables: bool,
    pub can_maintain_original_method_order: bool,
    pub can_generate_single_step_events: bool,
    pub can_generate_exception_events: bool,
    pub can_generate_frame_pop_events: bool,
    pub can_generate_breakpoint_events: bool,
    pub can_suspend: bool,
    pub can_redefine_any_class: bool,
    pub can_get_current_thread_cpu_time: bool,
    pub can_get_thread_cpu_time: bool,
    pub can_generate_method_entry_events: bool,
    pub can_generate_method_exit_events: bool,
    pub can_generate_all_class_hook_events: bool,
    pub can_generate_compiled_method_load_events: bool,
    pub can_generate_monitor_events: bool,
    pub can_generate_vm_object_alloc_events: bool,
    pub can_generate_native_method_bind_events: bool,
    pub can_generate_garbage_collection_events: bool,
    pub can_generate_object_free_events: bool,
    pub can_force_early_return: bool,
    pub can_get_owned_monitor_stack_depth_info: bool,
    pub can_get_constant_pool: bool,
    pub can_set_native_method_prefix: bool,
    pub can_retransform_classes: bool,
    pub can_retransform_any_class: bool,
    pub can_generate_resource_exhaustion_heap_events: bool,
    pub can_generate_resource_exhaustion_threads_events: bool,
    pub can_generate_early_vmstart: bool,
    pub can_generate_early_class_hook_events: bool,
    pub can_generate_sampled_object_alloc_events: bool,
}

impl JvmtiCapabilities {
    /// No capability at all.
    pub open spec fn empty() -> JvmtiCapabilities {
        JvmtiCapabilities {
            can_tag_objects: false,
            can_generate_field_modification_events: false,
            can_generate_field_access_events: false,
            can_get_bytecodes: false,
            can_get_synthetic_attribute: false,
            can_get_owned_monitor_info: false,
            can_get_current_contended_monitor: false,
            can_get_monitor_info: false,
            can_pop_frame: false,
            can_redefine_classes: false,
            can_signal_thread: false,
            can_get_source_file_name: false,
            can_get_line_numbers: false,
            can_get_source_debug_extension: false,
            can_access_local_variables: false,
            can_maintain_original_method_order: false,
            can_generate_single_step_events: false,
            can_generate_exception_events: false,
            can_generate_frame_pop_events: false,
            can_generate_breakpoint_events: false,
            can_suspend: false,
            can_redefine_any_class: false,
            can_get_current_thread_cpu_time: false,
            can_get_thread_cpu_time: false,
            can_generate_method_entry_events: false,
            can_generate_method_exit_events: false,
            can_generate_all_class_hook_events: false,
            can_generate_compiled_method_load_events: false,
            can_generate_monitor_events: false,
            can_generate_vm_object_alloc_events: false,
            can_generate_native_method_bind_events: false,
            can_generate_garbage_collection_events: false,
            can_generate_object_free_events: false,
            can_force_early_return: false,
            can_get_owned_monitor_stack_depth_info: false,
            can_get_constant_pool: false,
            can_set_native_method_prefix: false,
            can_retransform_classes: false,
            can_retransform_any_class: false,
            can_generate_resource_exhaustion_heap_events: false,
            can_generate_resource_exhaustion_threads_events: false,
            can_generate_early_vmstart: false,
            can_generate_early_class_hook_events: false,
            can_generate_sampled_object_alloc_events: false,
        }
    }

    /// A set of capabilities that asks for nothing.
    pub fn new_empty_capabilities() -> (capabilities: JvmtiCapabilities)
        ensures
            capabilities == JvmtiCapabilities::empty(),
    {
        JvmtiCapabilities {
            can_tag_objects: false,
            can_generate_field_modification_events: false,
            can_generate_field_access_events: false,
            can_get_bytecodes: false,
            can_get_synthetic_attribute: false,
            can_get_owned_monitor_info: false,
            can_get_current_contended_monitor: false,
            can_get_monitor_info: false,
            can_pop_frame: false,
            can_redefine_classes: false,
            can_signal_thread: false,
            can_get_source_file_name: false,
            can_get_line_numbers: false,
            can_get_source_debug_extension: false,
            can_access_local_variables: false,
            can_maintain_original_method_order: false,
            can_generate_single_step_events: false,
            can_generate_exception_events: false,
            can_generate_frame_pop_events: false,
            can_generate_breakpoint_events: false,
            can_suspend: false,
            can_redefine_any_class: false,
            can_get_current_thread_cpu_time: false,
            can_get_thread_cpu_time: false,
            can_generate_method_entry_events: false,
            can_generate_method_exit_events: false,
            can_generate_all_class_hook_events: false,
            can_generate_compiled_method_load_events: false,
            can_generate_monitor_events: false,
            can_generate_vm_object_alloc_events: false,
            can_generate_native_method_bind_events: false,
            can_generate_garbage_collection_events: false,
            can_generate_object_free_events: false,
            can_force_early_return: false,
            can_get_owned_monitor_stack_depth_info: false,
            can_get_constant_pool: false,
            can_set_native_method_prefix: false,
            can_retransform_classes: false,
            can_retransform_any_class: false,
            can_generate_resource_exhaustion_heap_events: false,
            can_generate_resource_exhaustion_threads_events: false,
            can_generate_early_vmstart: false,
            can_generate_early_class_hook_events: false,
            can_generate_sampled_object_alloc_events: false,
        }
    }

    /// Asks for `can_tag_objects`, or takes the request back.
    pub fn set_can_tag_objects(&mut self, value: bool)
        ensures
            *final(self) == (JvmtiCapabilities {
                can_tag_objects: value,
                ..*old(self)
            }),
    {
        self.can_tag_objects = value;
    }

    /// Whether `can_tag_objects` is asked for.
    pub fn get_can_tag_objects(&self) -> (value: bool)
        ensures
            value == self.can_tag_objects,
    {
        self.can_tag_objects
    }

    /// Asks for `can_generate_field_modification_events`, or takes the request back.
    pub fn set_can_generate_field_modification_events(&mut self, value: bool)
        ensures
            *final(self) == (JvmtiCapabilities {
                can_generate_field_modification_events: value,
                ..*old(self)
            }),
    {
        self.can_generate_field_modification_events = value;
    }

    /// Whether `can_generate_field_modification_events` is asked for.
    pub fn get_can_generate_field_modification_events(&self) -> (value: bool)
        ensures
            value == self.can_generate_field_modification_events,
    {
        self.can_generate_field_modification_events
    }

    /// Asks for `can_generate_field_access_events`, or takes the request back.
    pub fn set_can_generate_field_access_events(&mut self, value: bool)
        ensures
            *final(self) == (JvmtiCapabilities {
                can_generate_field_access_events: value,
                ..*old(self)
            }),
    {
        self.can_generate_field_access_events = value;
    }

    /// Whether `can_generate_field_access_events` is asked for.
    pub fn get_can_generate_field_access_events(&self) -> (value: bool)
        ensures
            value == self.can_generate_field_access_events,
    {
        self.can_generate_field_access_events
    }

    /// Asks for `can_get_bytecodes`, or takes the request back.
    pub fn set_can_get_bytecodes(&mut self, value: bool)
        ensures
            *final(self) == (JvmtiCapabilities {
                can_get_bytecodes: value,
                ..*old(self)
            }),
    {
        self.can_get_bytecodes = value;
    }

    /// Whether `can_get_bytecodes` is asked for.
    pub fn get_can_get_bytecodes(&self) -> (value: bool)
        ensures
            value == self.can_get_bytecodes,
    {
        self.can_get_bytecodes
    }

    /// Asks for `can_get_synthetic_attribute`, or takes the request back.
    pub fn set_can_get_synthetic_attribute(&mut self, value: bool)
        ensures
            *final(self) == (JvmtiCapabilities {
                can_get_synthetic_attribute: value,
                ..*old(self)
            }),
    {
        self.can_get_synthetic_attribute = value;
    }

    /// Whether `can_get_synthetic_attribute` is asked for.
    pub fn get_can_get_synthetic_attribute(&self) -> (value: bool)
        ensures
            value == self.can_get_synthetic_attribute,
    {
        self.can_get_synthetic_attribute
    }

    /// Asks for `can_get_owned_monitor_info`, or takes the request back.
    pub fn set_can_get_owned_monitor_info(&mut self, value: bool)
        ensures
            *final(self) == (JvmtiCapabilities {
                can_get_owned_monitor_info: value,
                ..*old(self)
            }),
    {
        self.can_get_owned_monitor_info = value;
    }

    /// Whether `can_get_owned_monitor_info` is asked for.
    pub fn get_can_get_owned_monitor_info(&self) -> (value: bool)
        ensures
            value == self.can_get_owned_monitor_info,
    {
        self.can_get_owned_monitor_info
    }

    /// Asks for `can_get_current_contended_monitor`, or takes the request back.
    pub fn set_can_get_current_contended_monitor(&mut self, value: bool)
        ensures
            *final(self) == (JvmtiCapabilities {
                can_get_current_contended_monitor: value,
                ..*old(self)
            }),
    {
        self.can_get_current_contended_monitor = value;
    }

    /// Whether `can_get_current_contended_monitor` is asked for.
    pub fn get_can_get_current_contended_monitor(&self) -> (value: bool)
        ensures
            value == self.can_get_current_contended_monitor,
    {
        self.can_get_current_contended_monitor
    }

    /// Asks for `can_get_monitor_info`, or takes the request back.
    pub fn set_can_get_monitor_info(&mut self, value: bool)
        ensures
            *final(self) == (JvmtiCapabilities {
                can_get_monitor_info: value,
                ..*old(self)
            }),
    {
        self.can_get_monitor_info = value;
    }

    /// Whether `can_get_monitor_info` is asked for.
    pub fn get_can_get_monitor_info(&self) -> (value: bool)
        ensures
            value == self.can_get_monitor_info,
    {
        self.can_get_monitor_info
    }

    /// Asks for `can_pop_frame`, or takes the request back.
    pub fn set_can_pop_frame(&mut self, value: bool)
        ensures
            *final(self) == (JvmtiCapabilities {
                can_pop_frame: value,
                ..*old(self)
            }),
    {
        self.can_pop_frame = value;
    }

    /// Whether `can_pop_frame` is asked for.
    pub fn get_can_pop_frame(&self) -> (value: bool)
        ensures
            value == self.can_pop_frame,
    {
        self.can_pop_frame
    }

    /// Asks for `can_redefine_classes`, or takes the request back.
    pub fn set_can_redefine_classes(&mut self, value: bool)
        ensures
            *final(self) == (JvmtiCapabilities {
                can_redefine_classes: value,
                ..*old(self)
            }),
    {
        self.can_redefine_classes = value;
    }

    /// Whether `can_redefine_classes` is asked for.
    pub fn get_can_redefine_classes(&self) -> (value: bool)
        ensures
            value == self.can_redefine_classes,
    {
        self.can_redefine_classes
    }

    /// Asks for `can_signal_thread`, or takes the request back.
    pub fn set_can_signal_thread(&mut self, value: bool)
        ensures
            *final(self) == (JvmtiCapabilities {
                can_signal_thread: value,
                ..*old(self)
            }),
    {
        self.can_signal_thread = value;
    }

    /// Whether `can_signal_thread` is asked for.
    pub fn get_can_signal_thread(&self) -> (value: bool)
        ensures
            value == self.can_signal_thread,
    {
        self.can_signal_thread
    }

    /// Asks for `can_get_source_file_name`, or takes the request back.
    pub fn set_can_get_source_file_name(&mut self, value: bool)
        ensures
            *final(self) == (JvmtiCapabilities {
                can_get_source_file_name: value,
                ..*old(self)
            }),
    {
        self.can_get_source_file_name = value;
    }

    /// Whether `can_get_source_file_name` is asked for.
    pub fn get_can_get_source_file_name(&self) -> (value: bool)
        ensures
            value == self.can_get_source_file_name,
    {
        self.can_get_source_file_name
    }

    /// Asks for `can_get_line_numbers`, or takes the request back.
    pub fn set_can_get_line_numbers(&mut self, value: bool)
        ensures
            *final(self) == (JvmtiCapabilities {
                can_get_line_numbers: value,
                ..*old(self)
            }),
    {
        self.can_get_line_numbers = value;
    }

    /// Whether `can_get_line_numbers` is asked for.
    pub fn get_can_get_line_numbers(&self) -> (value: bool)
        ensures
            value == self.can_get_line_numbers,
    {
        self.can_get_line_numbers
    }

    /// Asks for `can_get_source_debug_extension`, or takes the request back.
    pub fn set_can_get_source_debug_extension(&mut self, value: bool)
        ensures
            *final(self) == (JvmtiCapabilities {
                can_get_source_debug_extension: value,
                ..*old(self)
            }),
    {
        self.can_get_source_debug_extension = value;
    }

    /// Whether `can_get_source_debug_extension` is asked for.
    pub fn get_can_get_source_debug_extension(&self) -> (value: bool)
        ensures
            value == self.can_get_source_debug_extension,
    {
        self.can_get_source_debug_extension
    }

    /// Asks for `can_access_local_variables`, or takes the request back.
    pub fn set_can_access_local_variables(&mut self, value: bool)
        ensures
            *final(self) == (JvmtiCapabilities {
                can_access_local_variables: value,
                ..*old(self)
            }),
    {
        self.can_access_local_variables = value;
    }

    /// Whether `can_access_local_variables` is asked for.
    pub fn get_can_access_local_variables(&self) -> (value: bool)
        ensures
            value == self.can_access_local_variables,
    {
        self.can_access_local_variables
    }

    /// Asks for `can_maintain_original_method_order`, or takes the request back.
    pub fn set_can_maintain_original_method_order(&mut self, value: bool)
        ensures
            *final(self) == (JvmtiCapabilities {
                can_maintain_original_method_order: value,
                ..*old(self)
            }),
    {
        self.can_maintain_original_method_order = value;
    }

    /// Whether `can_maintain_original_method_order` is asked for.
    pub fn get_can_maintain_original_method_order(&self) -> (value: bool)
        ensures
            value == self.can_maintain_original_method_order,
    {
        self.can_maintain_original_method_order
    }

    /// Asks for `can_generate_single_step_events`, or takes the request back.
    pub fn set_can_generate_single_step_events(&mut self, value: bool)
        ensures
            *final(self) == (JvmtiCapabilities {
                can_generate_single_step_events: value,
                ..*old(self)
            }),
    {
        self.can_generate_single_step_events = value;
    }

    /// Whether `can_generate_single_step_events` is asked for.
    pub fn get_can_generate_single_step_events(&self) -> (value: bool)
        ensures
            value == self.can_generate_single_step_events,
    {
        self.can_generate_single_step_events
    }

    /// Asks for `can_generate_exception_events`, or takes the request back.
    pub fn set_can_generate_exception_events(&mut self, value: bool)
        ensures
            *final(self) == (JvmtiCapabilities {
                can_generate_exception_events: value,
                ..*old(self)
            }),
    {
        self.can_generate_exception_events = value;
    }

    /// Whether `can_generate_exception_events` is asked for.
    pub fn get_can_generate_exception_events(&self) -> (value: bool)
        ensures
            value == self.can_generate_exception_events,
    {
        self.can_generate_exception_events
    }

    /// Asks for `can_generate_frame_pop_events`, or takes the request back.
    pub fn set_can_generate_frame_pop_events(&mut self, value: bool)
        ensures
            *final(self) == (JvmtiCapabilities {
                can_generate_frame_pop_events: value,
                ..*old(self)
            }),
    {
        self.can_generate_frame_pop_events = value;
    }

    /// Whether `can_generate_frame_pop_events` is asked for.
    pub fn get_can_generate_frame_pop_events(&self) -> (value: bool)
        ensures
            value == self.can_generate_frame_pop_events,
    {
        self.can_generate_frame_pop_events
    }

    /// Asks for `can_generate_breakpoint_events`, or takes the request back.
    pub fn set_can_generate_breakpoint_events(&mut self, value: bool)
        ensures
            *final(self) == (JvmtiCapabilities {
                can_generate_breakpoint_events: value,
                ..*old(self)
            }),
    {
        self.can_generate_breakpoint_events = value;
    }

    /// Whether `can_generate_breakpoint_events` is asked for.
    pub fn get_can_generate_breakpoint_events(&self) -> (value: bool)
        ensures
            value == self.can_generate_breakpoint_events,
    {
        self.can_generate_breakpoint_events
    }

    /// Asks for `can_suspend`, or takes the request back.
    pub fn set_can_suspend(&mut self, value: bool)
        ensures
            *final(self) == (JvmtiCapabilities {
                can_suspend: value,
                ..*old(self)
            }),
    {
        self.can_suspend = value;
    }

    /// Whether `can_suspend` is asked for.
    pub fn get_can_suspend(&self) -> (value: bool)
        ensures
            value == self.can_suspend,
    {
        self.can_suspend
    }

    /// Asks for `can_redefine_any_class`, or takes the request back.
    pub fn set_can_redefine_any_class(&mut self, value: bool)
        ensures
            *final(self) == (JvmtiCapabilities {
                can_redefine_any_class: value,
                ..*old(self)
            }),
    {
        self.can_redefine_any_class = value;
    }

    /// Whether `can_redefine_any_class` is asked for.
    pub fn get_can_redefine_any_class(&self) -> (value: bool)
        ensures
            value == self.can_redefine_any_class,
    {
        self.can_redefine_any_class
    }

    /// Asks for `can_get_current_thread_cpu_time`, or takes the request back.
    pub fn set_can_get_current_thread_cpu_time(&mut self, value: bool)
        ensures
            *final(self) == (JvmtiCapabilities {
                can_get_current_thread_cpu_time: value,
                ..*old(self)
            }),
    {
        self.can_get_current_thread_cpu_time = value;
    }

    /// Whether `can_get_current_thread_cpu_time` is asked for.
    pub fn get_can_get_current_thread_cpu_time(&self) -> (value: bool)
        ensures
            value == self.can_get_current_thread_cpu_time,
    {
        self.can_get_current_thread_cpu_time
    }

    /// Asks for `can_get_thread_cpu_time`, or takes the request back.
    pub fn set_can_get_thread_cpu_time(&mut self, value: bool)
        ensures
            *final(self) == (JvmtiCapabilities {
                can_get_thread_cpu_time: value,
                ..*old(self)
            }),
    {
        self.can_get_thread_cpu_time = value;
    }

    /// Whether `can_get_thread_cpu_time` is asked for.
    pub fn get_can_get_thread_cpu_time(&self) -> (value: bool)
        ensures
            value == self.can_get_thread_cpu_time,
    {
        self.can_get_thread_cpu_time
    }

    /// Asks for `can_generate_method_entry_events`, or takes the request back.
    pub fn set_can_generate_method_entry_events(&mut self, value: bool)
        ensures
            *final(self) == (JvmtiCapabilities {
                can_generate_method_entry_events: value,
                ..*old(self)
            }),
    {
        self.can_generate_method_entry_events = value;
    }

    /// Whether `can_generate_method_entry_events` is asked for.
    pub fn get_can_generate_method_entry_events(&self) -> (value: bool)
        ensures
            value == self.can_generate_method_entry_events,
    {
        self.can_generate_method_entry_events
    }

    /// Asks for `can_generate_method_exit_events`, or takes the request back.
    pub fn set_can_generate_method_exit_events(&mut self, value: bool)
        ensures
            *final(self) == (JvmtiCapabilities {
                can_generate_method_exit_events: value,
                ..*old(self)
            }),
    {
        self.can_generate_method_exit_events = value;
    }

    /// Whether `can_generate_method_exit_events` is asked for.
    pub fn get_can_generate_method_exit_events(&self) -> (value: bool)
        ensures
            value == self.can_generate_method_exit_events,
    {
        self.can_generate_method_exit_events
    }

    /// Asks for `can_generate_all_class_hook_events`, or takes the request back.
    pub fn set_can_generate_all_class_hook_events(&mut self, value: bool)
        ensures
            *final(self) == (JvmtiCapabilities {
                can_generate_all_class_hook_events: value,
                ..*old(self)
            }),
    {
        self.can_generate_all_class_hook_events = value;
    }

    /// Whether `can_generate_all_class_hook_events` is asked for.
    pub fn get_can_generate_all_class_hook_events(&self) -> (value: bool)
        ensures
            value == self.can_generate_all_class_hook_events,
    {
        self.can_generate_all_class_hook_events
    }

    /// Asks for `can_generate_compiled_method_load_events`, or takes the request back.
    pub fn set_can_generate_compiled_method_load_events(&mut self, value: bool)
        ensures
            *final(self) == (JvmtiCapabilities {
                can_generate_compiled_method_load_events: value,
                ..*old(self)
            }),
    {
        self.can_generate_compiled_method_load_events = value;
    }

    /// Whether `can_generate_compiled_method_load_events` is asked for.
    pub fn get_can_generate_compiled_method_load_events(&self) -> (value: bool)
        ensures
            value == self.can_generate_compiled_method_load_events,
    {
        self.can_generate_compiled_method_load_events
    }

    /// Asks for `can_generate_monitor_events`, or takes the request back.
    pub fn set_can_generate_monitor_events(&mut self, value: bool)
        ensures
            *final(self) == (JvmtiCapabilities {
                can_generate_monitor_events: value,
                ..*old(self)
            }),
    {
        self.can_generate_monitor_events = value;
    }

    /// Whether `can_generate_monitor_events` is asked for.
    pub fn get_can_generate_monitor_events(&self) -> (value: bool)
        ensures
            value == self.can_generate_monitor_events,
    {
        self.can_generate_monitor_events
    }

    /// Asks for `can_generate_vm_object_alloc_events`, or takes the request back.
    pub fn set_can_generate_vm_object_alloc_events(&mut self, value: bool)
        ensures
            *final(self) == (JvmtiCapabilities {
                can_generate_vm_object_alloc_events: value,
                ..*old(self)
            }),
    {
        self.can_generate_vm_object_alloc_events = value;
    }

    /// Whether `can_generate_vm_object_alloc_events` is asked for.
    pub fn get_can_generate_vm_object_alloc_events(&self) -> (value: bool)
        ensures
            value == self.can_generate_vm_object_alloc_events,
    {
        self.can_generate_vm_object_alloc_events
    }

    /// Asks for `can_generate_native_method_bind_events`, or takes the request back.
    pub fn set_can_generate_native_method_bind_events(&mut self, value: bool)
        ensures
            *final(self) == (JvmtiCapabilities {
                can_generate_native_method_bind_events: value,
                ..*old(self)
            }),
    {
        self.can_generate_native_method_bind_events = value;
    }

    /// Whether `can_generate_native_method_bind_events` is asked for.
    pub fn get_can_generate_native_method_bind_events(&self) -> (value: bool)
        ensures
            value == self.can_generate_native_method_bind_events,
    {
        self.can_generate_native_method_bind_events
    }

    /// Asks for `can_generate_garbage_collection_events`, or takes the request back.
    pub fn set_can_generate_garbage_collection_events(&mut self, value: bool)
        ensures
            *final(self) == (JvmtiCapabilities {
                can_generate_garbage_collection_events: value,
                ..*old(self)
            }),
    {
        self.can_generate_garbage_collection_events = value;
    }

    /// Whether `can_generate_garbage_collection_events` is asked for.
    pub fn get_can_generate_garbage_collection_events(&self) -> (value: bool)
        ensures
            value == self.can_generate_garbage_collection_events,
    {
        self.can_generate_garbage_collection_events
    }

    /// Asks for `can_generate_object_free_events`, or takes the request back.
    pub fn set_can_generate_object_free_events(&mut self, value: bool)
        ensures
            *final(self) == (JvmtiCapabilities {
                can_generate_object_free_events: value,
                ..*old(self)
            }),
    {
        self.can_generate_object_free_events = value;
    }

    /// Whether `can_generate_object_free_events` is asked for.
    pub fn get_can_generate_object_free_events(&self) -> (value: bool)
        ensures
            value == self.can_generate_object_free_events,
    {
        self.can_generate_object_free_events
    }

    /// Asks for `can_force_early_return`, or takes the request back.
    pub fn set_can_force_early_return(&mut self, value: bool)
        ensures
            *final(self) == (JvmtiCapabilities {
                can_force_early_return: value,
                ..*old(self)
            }),
    {
        self.can_force_early_return = value;
    }

    /// Whether `can_force_early_return` is asked for.
    pub fn get_can_force_early_return(&self) -> (value: bool)
        ensures
            value == self.can_force_early_return,
    {
        self.can_force_early_return
    }

    /// Asks for `can_get_owned_monitor_stack_depth_info`, or takes the request back.
    pub fn set_can_get_owned_monitor_stack_depth_info(&mut self, value: bool)
        ensures
            *final(self) == (JvmtiCapabilities {
                can_get_owned_monitor_stack_depth_info: value,
                ..*old(self)
            }),
    {
        self.can_get_owned_monitor_stack_depth_info = value;
    }

    /// Whether `can_get_owned_monitor_stack_depth_info` is asked for.
    pub fn get_can_get_owned_monitor_stack_depth_info(&self) -> (value: bool)
        ensures
            value == self.can_get_owned_monitor_stack_depth_info,
    {
        self.can_get_owned_monitor_stack_depth_info
    }

    /// Asks for `can_get_constant_pool`, or takes the request back.
    pub fn set_can_get_constant_pool(&mut self, value: bool)
        ensures
            *final(self) == (JvmtiCapabilities {
                can_get_constant_pool: value,
                ..*old(self)
            }),
    {
        self.can_get_constant_pool = value;
    }

    /// Whether `can_get_constant_pool` is asked for.
    pub fn get_can_get_constant_pool(&self) -> (value: bool)
        ensures
            value == self.can_get_constant_pool,
    {
        self.can_get_constant_pool
    }

    /// Asks for `can_set_native_method_prefix`, or takes the request back.
    pub fn set_can_set_native_method_prefix(&mut self, value: bool)
        ensures
            *final(self) == (JvmtiCapabilities {
                can_set_native_method_prefix: value,
                ..*old(self)
            }),
    {
        self.can_set_native_method_prefix = value;
    }

    /// Whether `can_set_native_method_prefix` is asked for.
    pub fn get_can_set_native_method_prefix(&self) -> (value: bool)
        ensures
            value == self.can_set_native_method_prefix,
    {
        self.can_set_native_method_prefix
    }

    /// Asks for `can_retransform_classes`, or takes the request back.
    pub fn set_can_retransform_classes(&mut self, value: bool)
        ensures
            *final(self) == (JvmtiCapabilities {
                can_retransform_classes: value,
                ..*old(self)
            }),
    {
        self.can_retransform_classes = value;
    }

    /// Whether `can_retransform_classes` is asked for.
    pub fn get_can_retransform_classes(&self) -> (value: bool)
        ensures
            value == self.can_retransform_classes,
    {
        self.can_retransform_classes
    }

    /// Asks for `can_retransform_any_class`, or takes the request back.
    pub fn set_can_retransform_any_class(&mut self, value: bool)
        ensures
            *final(self) == (JvmtiCapabilities {
                can_retransform_any_class: value,
                ..*old(self)
            }),
    {
        self.can_retransform_any_class = value;
    }

    /// Whether `can_retransform_any_class` is asked for.
    pub fn get_can_retransform_any_class(&self) -> (value: bool)
        ensures
            value == self.can_retransform_any_class,
    {
        self.can_retransform_any_class
    }

    /// Asks for `can_generate_resource_exhaustion_heap_events`, or takes the request back.
    pub fn set_can_generate_resource_exhaustion_heap_events(&mut self, value: bool)
        ensures
            *final(self) == (JvmtiCapabilities {
                can_generate_resource_exhaustion_heap_events: value,
                ..*old(self)
            }),
    {
        self.can_generate_resource_exhaustion_heap_events = value;
    }

    /// Whether `can_generate_resource_exhaustion_heap_events` is asked for.
    pub fn get_can_generate_resource_exhaustion_heap_events(&self) -> (value: bool)
        ensures
            value == self.can_generate_resource_exhaustion_heap_events,
    {
        self.can_generate_resource_exhaustion_heap_events
    }

    /// Asks for `can_generate_resource_exhaustion_threads_events`, or takes the request back.
    pub fn set_can_generate_resource_exhaustion_threads_events(&mut self, value: bool)
        ensures
            *final(self) == (JvmtiCapabilities {
                can_generate_resource_exhaustion_threads_events: value,
                ..*old(self)
            }),
    {
        self.can_generate_resource_exhaustion_threads_events = value;
    }

    /// Whether `can_generate_resource_exhaustion_threads_events` is asked for.
    pub fn get_can_generate_resource_exhaustion_threads_events(&self) -> (value: bool)
        ensures
            value == self.can_generate_resource_exhaustion_threads_events,
    {
        self.can_generate_resource_exhaustion_threads_events
    }

    /// Asks for `can_generate_early_vmstart`, or takes the request back.
    pub fn set_can_generate_early_vmstart(&mut self, value: bool)
        ensures
            *final(self) == (JvmtiCapabilities {
                can_generate_early_vmstart: value,
                ..*old(self)
            }),
    {
        self.can_generate_early_vmstart = value;
    }

    /// Whether `can_generate_early_vmstart` is asked for.
    pub fn get_can_generate_early_vmstart(&self) -> (value: bool)
        ensures
            value == self.can_generate_early_vmstart,
    {
        self.can_generate_early_vmstart
    }

    /// Asks for `can_generate_early_class_hook_events`, or takes the request back.
    pub fn set_can_generate_early_class_hook_events(&mut self, value: bool)
        ensures
            *final(self) == (JvmtiCapabilities {
                can_generate_early_class_hook_events: value,
                ..*old(self)
            }),
    {
        self.can_generate_early_class_hook_events = value;
    }

    /// Whether `can_generate_early_class_hook_events` is asked for.
    pub fn get_can_generate_early_class_hook_events(&self) -> (value: bool)
        ensures
            value == self.can_generate_early_class_hook_events,
    {
        self.can_generate_early_class_hook_events
    }

    /// Asks for `can_generate_sampled_object_alloc_events`, or takes the request back.
    pub fn set_can_generate_sampled_object_alloc_events(&mut self, value: bool)
        ensures
            *final(self) == (JvmtiCapabilities {
                can_generate_sampled_object_alloc_events: value,
                ..*old(self)
            }),
    {
        self.can_generate_sampled_object_alloc_events = value;
    }

    /// Whether `can_generate_sampled_object_alloc_events` is asked for.
    pub fn get_can_generate_sampled_object_alloc_events(&self) -> (value: bool)
        ensures
            value == self.can_generate_sampled_object_alloc_events,
    {
        self.can_generate_sampled_object_alloc_events
    }

}

/// The events of the tool interface, each with a handler installed or not.
#[derive(Debug, Clone, Copy, PartialEq, Eq, Structural)]
pub struct JvmtiEventCallbacksSettings {
    pub vm_init_enabled: bool,
    pub vm_death_enabled: bool,
    pub thread_start_enabled: bool,
    pub thread_end_enabled: bool,
    pub class_file_load_hook_enabled: bool,
    pub class_load_enabled: bool,
    pub class_prepare_enabled: bool,
    pub vm_start_enabled: bool,
    pub exception_enabled: bool,
    pub exception_catch_enabled: bool,
    pub single_step_enabled: bool,
    pub frame_pop_enabled: bool,
    pub breakpoint_enabled: bool,
    pub field_access_enabled: bool,
    pub field_modification_enabled: bool,
    pub method_entry_enabled: bool,
    pub method_exit_enabled: bool,
    pub native_method_bind_enabled: bool,
    pub compiled_method_load_enabled: bool,
    pub compiled_method_unload_enabled: bool,
    pub dynamic_code_generated_enabled: bool,
    pub data_dump_request_enabled: bool,
    pub monitor_wait_enabled: bool,
    pub monitor_waited_enabled: bool,
    pub monitor_contended_enter_enabled: bool,
    pub monitor_contended_entered_enabled: bool,
    pub resource_exhausted_enabled: bool,
    pub garbage_collection_start_enabled: bool,
    pub garbage_collection_finish_enabled: bool,
    pub object_free_enabled: bool,
    pub vm_object_alloc_enabled: bool,
    pub sampled_object_alloc_enabled: bool,
}

impl JvmtiEventCallbacksSettings {
    /// No handler at all.
    pub open spec fn empty() -> JvmtiEventCallbacksSettings {
        JvmtiEventCallbacksSettings {
            vm_init_enabled: false,
            vm_death_enabled: false,
            thread_start_enabled: false,
            thread_end_enabled: false,
            class_file_load_hook_enabled: false,
            class_load_enabled: false,
            class_prepare_enabled: false,
            vm_start_enabled: false,
            exception_enabled: false,
            exception_catch_enabled: false,
            single_step_enabled: false,
            frame_pop_enabled: false,
            breakpoint_enabled: false,
            field_access_enabled: false,
            field_modification_enabled: false,
            method_entry_enabled: false,
            method_exit_enabled: false,
            native_method_bind_enabled: false,
            compiled_method_load_enabled: false,
            compiled_method_unload_enabled: false,
            dynamic_code_generated_enabled: false,
            data_dump_request_enabled: false,
            monitor_wait_enabled: false,
            monitor_waited_enabled: false,
            monitor_contended_enter_enabled: false,
            monitor_contended_entered_enabled: false,
            resource_exhausted_enabled: false,
            garbage_collection_start_enabled: false,
            garbage_collection_finish_enabled: false,
            object_free_enabled: false,
            vm_object_alloc_enabled: false,
            sampled_object_alloc_enabled: false,
        }
    }

    /// Settings that install no handler.
    pub fn new_empty_settings() -> (settings: JvmtiEventCallbacksSettings)
        ensures
            settings == JvmtiEventCallbacksSettings::empty(),
    {
        JvmtiEventCallbacksSettings {
            vm_init_enabled: false,
            vm_death_enabled: false,
            thread_start_enabled: false,
            thread_end_enabled: false,
            class_file_load_hook_enabled: false,
            class_load_enabled: false,
            class_prepare_enabled: false,
            vm_start_enabled: false,
            exception_enabled: false,
            exception_catch_enabled: false,
            single_step_enabled: false,
            frame_pop_enabled: false,
            breakpoint_enabled: false,
            field_access_enabled: false,
            field_modification_enabled: false,
            method_entry_enabled: false,
            method_exit_enabled: false,
            native_method_bind_enabled: false,
            compiled_method_load_enabled: false,
            compiled_method_unload_enabled: false,
            dynamic_code_generated_enabled: false,
            data_dump_request_enabled: false,
            monitor_wait_enabled: false,
            monitor_waited_enabled: false,
            monitor_contended_enter_enabled: false,
            monitor_contended_entered_enabled: false,
            resource_exhausted_enabled: false,
            garbage_collection_start_enabled: false,
            garbage_collection_finish_enabled: false,
            object_free_enabled: false,
            vm_object_alloc_enabled: false,
            sampled_object_alloc_enabled: false,
        }
    }

    /// Installs the handler of the `vm_init` event, or takes it out.
    pub fn set_vm_init_enabled(&mut self, value: bool)
        ensures
            *final(self) == (JvmtiEventCallbacksSettings {
                vm_init_enabled: value,
                ..*old(self)
            }),
    {
        self.vm_init_enabled = value;
    }

    /// Whether the handler of the `vm_init` event is installed.
    pub fn get_vm_init_enabled(&self) -> (value: bool)
        ensures
            value == self.vm_init_enabled,
    {
        self.vm_init_enabled
    }

    /// Installs the handler of the `vm_death` event, or takes it out.
    pub fn set_vm_death_enabled(&mut self, value: bool)
        ensures
            *final(self) == (JvmtiEventCallbacksSettings {
                vm_death_enabled: value,
                ..*old(self)
            }),
    {
        self.vm_death_enabled = value;
    }

    /// Whether the handler of the `vm_death` event is installed.
    pub fn get_vm_death_enabled(&self) -> (value: bool)
        ensures
            value == self.vm_death_enabled,
    {
        self.vm_death_enabled
    }

    /// Installs the handler of the `thread_start` event, or takes it out.
    pub fn set_thread_start_enabled(&mut self, value: bool)
        ensures
            *final(self) == (JvmtiEventCallbacksSettings {
                thread_start_enabled: value,
                ..*old(self)
            }),
    {
        self.thread_start_enabled = value;
    }

    /// Whether the handler of the `thread_start` event is installed.
    pub fn get_thread_start_enabled(&self) -> (value: bool)
        ensures
            value == self.thread_start_enabled,
    {
        self.thread_start_enabled
    }

    /// Installs the handler of the `thread_end` event, or takes it out.
    pub fn set_thread_end_enabled(&mut self, value: bool)
        ensures
            *final(self) == (JvmtiEventCallbacksSettings {
                thread_end_enabled: value,
                ..*old(self)
            }),
    {
        self.thread_end_enabled = value;
    }

    /// Whether the handler of the `thread_end` event is installed.
    pub fn get_thread_end_enabled(&self) -> (value: bool)
        ensures
            value == self.thread_end_enabled,
    {
        self.thread_end_enabled
    }

    /// Installs the handler of the `class_file_load_hook` event, or takes it out.
    pub fn set_class_file_load_hook_enabled(&mut self, value: bool)
        ensures
            *final(self) == (JvmtiEventCallbacksSettings {
                class_file_load_hook_enabled: value,
                ..*old(self)
            }),
    {
        self.class_file_load_hook_enabled = value;
    }

    /// Whether the handler of the `class_file_load_hook` event is installed.
    pub fn get_class_file_load_hook_enabled(&self) -> (value: bool)
        ensures
            value == self.class_file_load_hook_enabled,
    {
        self.class_file_load_hook_enabled
    }

    /// Installs the handler of the `class_load` event, or takes it out.
    pub fn set_class_load_enabled(&mut self, value: bool)
        ensures
            *final(self) == (JvmtiEventCallbacksSettings {
                class_load_enabled: value,
                ..*old(self)
            }),
    {
        self.class_load_enabled = value;
    }

    /// Whether the handler of the `class_load` event is installed.
    pub fn get_class_load_enabled(&self) -> (value: bool)
        ensures
            value == self.class_load_enabled,
    {
        self.class_load_enabled
    }

    /// Installs the handler of the `class_prepare` event, or takes it out.
    pub fn set_class_prepare_enabled(&mut self, value: bool)
        ensures
            *final(self) == (JvmtiEventCallbacksSettings {
                class_prepare_enabled: value,
                ..*old(self)
            }),
    {
        self.class_prepare_enabled = value;
    }

    /// Whether the handler of the `class_prepare` event is installed.
    pub fn get_class_prepare_enabled(&self) -> (value: bool)
        ensures
            value == self.class_prepare_enabled,
    {
        self.class_prepare_enabled
    }

    /// Installs the handler of the `vm_start` event, or takes it out.
    pub fn set_vm_start_enabled(&mut self, value: bool)
        ensures
            *final(self) == (JvmtiEventCallbacksSettings {
                vm_start_enabled: value,
                ..*old(self)
            }),
    {
        self.vm_start_enabled = value;
    }

    /// Whether the handler of the `vm_start` event is installed.
    pub fn get_vm_start_enabled(&self) -> (value: bool)
        ensures
            value == self.vm_start_enabled,
    {
        self.vm_start_enabled
    }

    /// Installs the handler of the `exception` event, or takes it out.
    pub fn set_exception_enabled(&mut self, value: bool)
        ensures
            *final(self) == (JvmtiEventCallbacksSettings {
                exception_enabled: value,
                ..*old(self)
            }),
    {
        self.exception_enabled = value;
    }

    /// Whether the handler of the `exception` event is installed.
    pub fn get_exception_enabled(&self) -> (value: bool)
        ensures
            value == self.exception_enabled,
    {
        self.exception_enabled
    }

    /// Installs the handler of the `exception_catch` event, or takes it out.
    pub fn set_exception_catch_enabled(&mut self, value: bool)
        ensures
            *final(self) == (JvmtiEventCallbacksSettings {
                exception_catch_enabled: value,
                ..*old(self)
            }),
    {
        self.exception_catch_enabled = value;
    }

    /// Whether the handler of the `exception_catch` event is installed.
    pub fn get_exception_catch_enabled(&self) -> (value: bool)
        ensures
            value == self.exception_catch_enabled,
    {
        self.exception_catch_enabled
    }

    /// Installs the handler of the `single_step` event, or takes it out.
    pub fn set_single_step_enabled(&mut self, value: bool)
        ensures
            *final(self) == (JvmtiEventCallbacksSettings {
                single_step_enabled: value,
                ..*old(self)
            }),
    {
        self.single_step_enabled = value;
    }

    /// Whether the handler of the `single_step` event is installed.
    pub fn get_single_step_enabled(&self) -> (value: bool)
        ensures
            value == self.single_step_enabled,
    {
        self.single_step_enabled
    }

    /// Installs the handler of the `frame_pop` event, or takes it out.
    pub fn set_frame_pop_enabled(&mut self, value: bool)
        ensures
            *final(self) == (JvmtiEventCallbacksSettings {
                frame_pop_enabled: value,
                ..*old(self)
            }),
    {
        self.frame_pop_enabled = value;
    }

    /// Whether the handler of the `frame_pop` event is installed.
    pub fn get_frame_pop_enabled(&self) -> (value: bool)
        ensures
            value == self.frame_pop_enabled,
    {
        self.frame_pop_enabled
    }

    /// Installs the handler of the `breakpoint` event, or takes it out.
    pub fn set_breakpoint_enabled(&mut self, value: bool)
        ensures
            *final(self) == (JvmtiEventCallbacksSettings {
                breakpoint_enabled: value,
                ..*old(self)
            }),
    {
        self.breakpoint_enabled = value;
    }

    /// Whether the handler of the `breakpoint` event is installed.
    pub fn get_breakpoint_enabled(&self) -> (value: bool)
        ensures
            value == self.breakpoint_enabled,
    {
        self.breakpoint_enabled
    }

    /// Installs the handler of the `field_access` event, or takes it out.
    pub fn set_field_access_enabled(&mut self, value: bool)
        ensures
            *final(self) == (JvmtiEventCallbacksSettings {
                field_access_enabled: value,
                ..*old(self)
            }),
    {
        self.field_access_enabled = value;
    }

    /// Whether the handler of the `field_access` event is installed.
    pub fn get_field_access_enabled(&self) -> (value: bool)
        ensures
            value == self.field_access_enabled,
    {
        self.field_access_enabled
    }

    /// Installs the handler of the `field_modification` event, or takes it out.
    pub fn set_field_modification_enabled(&mut self, value: bool)
        ensures
            *final(self) == (JvmtiEventCallbacksSettings {
                field_modification_enabled: value,
                ..*old(self)
            }),
    {
        self.field_modification_enabled = value;
    }

    /// Whether the handler of the `field_modification` event is installed.
    pub fn get_field_modification_enabled(&self) -> (value: bool)
        ensures
            value == self.field_modification_enabled,
    {
        self.field_modification_enabled
    }

    /// Installs the handler of the `method_entry` event, or takes it out.
    pub fn set_method_entry_enabled(&mut self, value: bool)
        ensures
            *final(self) == (JvmtiEventCallbacksSettings {
                method_entry_enabled: value,
                ..*old(self)
            }),
    {
        self.method_entry_enabled = value;
    }

    /// Whether the handler of the `method_entry` event is installed.
    pub fn get_method_entry_enabled(&self) -> (value: bool)
        ensures
            value == self.method_entry_enabled,
    {
        self.method_entry_enabled
    }

    /// Installs the handler of the `method_exit` event, or takes it out.
    pub fn set_method_exit_enabled(&mut self, value: bool)
        ensures
            *final(self) == (JvmtiEventCallbacksSettings {
                method_exit_enabled: value,
                ..*old(self)
            }),
    {
        self.method_exit_enabled = value;
    }

    /// Whether the handler of the `method_exit` event is installed.
    pub fn get_method_exit_enabled(&self) -> (value: bool)
        ensures
            value == self.method_exit_enabled,
    {
        self.method_exit_enabled
    }

    /// Installs the handler of the `native_method_bind` event, or takes it out.
    pub fn set_native_method_bind_enabled(&mut self, value: bool)
        ensures
            *final(self) == (JvmtiEventCallbacksSettings {
                native_method_bind_enabled: value,
                ..*old(self)
            }),
    {
        self.native_method_bind_enabled = value;
    }

    /// Whether the handler of the `native_method_bind` event is installed.
    pub fn get_native_method_bind_enabled(&self) -> (value: bool)
        ensures
            value == self.native_method_bind_enabled,
    {
        self.native_method_bind_enabled
    }

    /// Installs the handler of the `compiled_method_load` event, or takes it out.
    pub fn set_compiled_method_load_enabled(&mut self, value: bool)
        ensures
            *final(self) == (JvmtiEventCallbacksSettings {
                compiled_method_load_enabled: value,
                ..*old(self)
            }),
    {
        self.compiled_method_load_enabled = value;
    }

    /// Whether the handler of the `compiled_method_load` event is installed.
    pub fn get_compiled_method_load_enabled(&self) -> (value: bool)
        ensures
            value == self.compiled_method_load_enabled,
    {
        self.compiled_method_load_enabled
    }

    /// Installs the handler of the `compiled_method_unload` event, or takes it out.
    pub fn set_compiled_method_unload_enabled(&mut self, value: bool)
        ensures
            *final(self) == (JvmtiEventCallbacksSettings {
                compiled_method_unload_enabled: value,
                ..*old(self)
            }),
    {
        self.compiled_method_unload_enabled = value;
    }

    /// Whether the handler of the `compiled_method_unload` event is installed.
    pub fn get_compiled_method_unload_enabled(&self) -> (value: bool)
        ensures
            value == self.compiled_method_unload_enabled,
    {
        self.compiled_method_unload_enabled
    }

    /// Installs the handler of the `dynamic_code_generated` event, or takes it out.
    pub fn set_dynamic_code_generated_enabled(&mut self, value: bool)
        ensures
            *final(self) == (JvmtiEventCallbacksSettings {
                dynamic_code_generated_enabled: value,
                ..*old(self)
            }),
    {
        self.dynamic_code_generated_enabled = value;
    }

    /// Whether the handler of the `dynamic_code_generated` event is installed.
    pub fn get_dynamic_code_generated_enabled(&self) -> (value: bool)
        ensures
            value == self.dynamic_code_generated_enabled,
    {
        self.dynamic_code_generated_enabled
    }

    /// Installs the handler of the `data_dump_request` event, or takes it out.
    pub fn set_data_dump_request_enabled(&mut self, value: bool)
        ensures
            *final(self) == (JvmtiEventCallbacksSettings {
                data_dump_request_enabled: value,
                ..*old(self)
            }),
    {
        self.data_dump_request_enabled = value;
    }

    /// Whether the handler of the `data_dump_request` event is installed.
    pub fn get_data_dump_request_enabled(&self) -> (value: bool)
        ensures
            value == self.data_dump_request_enabled,
    {
        self.data_dump_request_enabled
    }

    /// Installs the handler of the `monitor_wait` event, or takes it out.
    pub fn set_monitor_wait_enabled(&mut self, value: bool)
        ensures
            *final(self) == (JvmtiEventCallbacksSettings {
                monitor_wait_enabled: value,
                ..*old(self)
            }),
    {
        self.monitor_wait_enabled = value;
    }

    /// Whether the handler of the `monitor_wait` event is installed.
    pub fn get_monitor_wait_enabled(&self) -> (value: bool)
        ensures
            value == self.monitor_wait_enabled,
    {
        self.monitor_wait_enabled
    }

    /// Installs the handler of the `monitor_waited` event, or takes it out.
    pub fn set_monitor_waited_enabled(&mut self, value: bool)
        ensures
            *final(self) == (JvmtiEventCallbacksSettings {
                monitor_waited_enabled: value,
                ..*old(self)
            }),
    {
        self.monitor_waited_enabled = value;
    }

    /// Whether the handler of the `monitor_waited` event is installed.
    pub fn get_monitor_waited_enabled(&self) -> (value: bool)
        ensures
            value == self.monitor_waited_enabled,
    {
        self.monitor_waited_enabled
    }

    /// Installs the handler of the `monitor_contended_enter` event, or takes it out.
    pub fn set_monitor_contended_enter_enabled(&mut self, value: bool)
        ensures
            *final(self) == (JvmtiEventCallbacksSettings {
                monitor_contended_enter_enabled: value,
                ..*old(self)
            }),
    {
        self.monitor_contended_enter_enabled = value;
    }

    /// Whether the handler of the `monitor_contended_enter` event is installed.
    pub fn get_monitor_contended_enter_enabled(&self) -> (value: bool)
        ensures
            value == self.monitor_contended_enter_enabled,
    {
        self.monitor_contended_enter_enabled
    }

    /// Installs the handler of the `monitor_contended_entered` event, or takes it out.
    pub fn set_monitor_contended_entered_enabled(&mut self, value: bool)
        ensures
            *final(self) == (JvmtiEventCallbacksSettings {
                monitor_contended_entered_enabled: value,
                ..*old(self)
            }),
    {
        self.monitor_contended_entered_enabled = value;
    }

    /// Whether the handler of the `monitor_contended_entered` event is installed.
    pub fn get_monitor_contended_entered_enabled(&self) -> (value: bool)
        ensures
            value == self.monitor_contended_entered_enabled,
    {
        self.monitor_contended_entered_enabled
    }

    /// Installs the handler of the `resource_exhausted` event, or takes it out.
    pub fn set_resource_exhausted_enabled(&mut self, value: bool)
        ensures
            *final(self) == (JvmtiEventCallbacksSettings {
                resource_exhausted_enabled: value,
                ..*old(self)
            }),
    {
        self.resource_exhausted_enabled = value;
    }

    /// Whether the handler of the `resource_exhausted` event is installed.
    pub fn get_resource_exhausted_enabled(&self) -> (value: bool)
        ensures
            value == self.resource_exhausted_enabled,
    {
        self.resource_exhausted_enabled
    }

    /// Installs the handler of the `garbage_collection_start` event, or takes it out.
    pub fn set_garbage_collection_start_enabled(&mut self, value: bool)
        ensures
            *final(self) == (JvmtiEventCallbacksSettings {
                garbage_collection_start_enabled: value,
                ..*old(self)
            }),
    {
        self.garbage_collection_start_enabled = value;
    }

    /// Whether the handler of the `garbage_collection_start` event is installed.
    pub fn get_garbage_collection_start_enabled(&self) -> (value: bool)
        ensures
            value == self.garbage_collection_start_enabled,
    {
        self.garbage_collection_start_enabled
    }

    /// Installs the handler of the `garbage_collection_finish` event, or takes it out.
    pub fn set_garbage_collection_finish_enabled(&mut self, value: bool)
        ensures
            *final(self) == (JvmtiEventCallbacksSettings {
                garbage_collection_finish_enabled: value,
                ..*old(self)
            }),
    {
        self.garbage_collection_finish_enabled = value;
    }

    /// Whether the handler of the `garbage_collection_finish` event is installed.
    pub fn get_garbage_collection_finish_enabled(&self) -> (value: bool)
        ensures
            value == self.garbage_collection_finish_enabled,
    {
        self.garbage_collection_finish_enabled
    }

    /// Installs the handler of the `object_free` event, or takes it out.
    pub fn set_object_free_enabled(&mut self, value: bool)
        ensures
            *final(self) == (JvmtiEventCallbacksSettings {
                object_free_enabled: value,
                ..*old(self)
            }),
    {
        self.object_free_enabled = value;
    }

    /// Whether the handler of the `object_free` event is installed.
    pub fn get_object_free_enabled(&self) -> (value: bool)
        ensures
            value == self.object_free_enabled,
    {
        self.object_free_enabled
    }

    /// Installs the handler of the `vm_object_alloc` event, or takes it out.
    pub fn set_vm_object_alloc_enabled(&mut self, value: bool)
        ensures
            *final(self) == (JvmtiEventCallbacksSettings {
                vm_object_alloc_enabled: value,
                ..*old(self)
            }),
    {
        self.vm_object_alloc_enabled = value;
    }

    /// Whether the handler of the `vm_object_alloc` event is installed.
    pub fn get_vm_object_alloc_enabled(&self) -> (value: bool)
        ensures
            value == self.vm_object_alloc_enabled,
    {
        self.vm_object_alloc_enabled
    }

    /// Installs the handler of the `sampled_object_alloc` event, or takes it out.
    pub fn set_sampled_object_alloc_enabled(&mut self, value: bool)
        ensures
            *final(self) == (JvmtiEventCallbacksSettings {
                sampled_object_alloc_enabled: value,
                ..*old(self)
            }),
    {
        self.sampled_object_alloc_enabled = value;
    }

    /// Whether the handler of the `sampled_object_alloc` event is installed.
    pub fn get_sampled_object_alloc_enabled(&self) -> (value: bool)
        ensures
            value == self.sampled_object_alloc_enabled,
    {
        self.sampled_object_alloc_enabled
    }

}

} // verus!
