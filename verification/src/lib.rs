//! Supervision of one child process at background priority: the decisions
//! behind lowering the priority, keeping the host awake, forwarding an
//! interrupt and translating the child's end into an exit code.

pub mod failure;
pub mod laws;
pub mod outcome;
pub mod platform;
pub mod priority;
pub mod supervisor;
pub mod text;
pub mod wakelock;
