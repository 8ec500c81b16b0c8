//! A safety layer over LLDB's handle-based native API.
//!
//! Each entity wrapper holds exactly one native reference of its kind and
//! carries the obligation to release it. Validity is never cached: callers
//! ask the native side and hand the answer to `maybe_wrap`. Collections
//! owned by an entity are walked lazily, re-reading their size on every
//! step.
pub mod breakpointlocation;
pub mod debugger;
pub mod description;
pub mod filespec;
pub mod lineentry;
pub mod module;

pub use breakpointlocation::SBBreakpointLocation;
pub use debugger::{DebuggerTargetIter, SBDebugger};
pub use description::render_description;
pub use filespec::SBFileSpec;
pub use lineentry::SBLineEntry;
pub use module::SBModule;
