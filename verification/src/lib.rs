//! Records the code that a Java virtual machine generates at run time in the
//! jitdump format that `perf inject --jit` reads.
//!
//! The crate holds the parts of such an agent that can be stated and proved:
//! the descriptor grammar and its rendering, the modified UTF-8 transducer,
//! the jitdump record encoder, the choice of debug entries, and the decisions
//! that the agent takes between two calls into the virtual machine or the
//! operating system.
pub mod agent;
pub mod demangle;
pub mod perf;
pub mod rvmti;
pub mod text;

pub use crate::agent::{ClassInfo, MethodInfo, StackFrameInfo, StackInfo};
