//! The operating-system facing decisions of a terminal-multiplexer server:
//! window geometry updates, run-target resolution, child supervision, the
//! outcome of terminating a process, and the registry of outbound client
//! channels.

pub mod window;
pub mod supervisor;
pub mod run_target;
pub mod registry;
pub mod palette;
pub mod process;
