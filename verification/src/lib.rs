//! Process-introspection support: architecture-specific register-state
//! layouts, pid parsing, and the verified lifecycle of a register-dump run
//! (acquire a task handle, suspend, enumerate threads, capture each thread's
//! registers, resume, and release the kernel-owned thread-handle buffer).

pub mod errors;
pub mod input;
pub mod regs;
pub mod run;

pub use regs::arm_thread_state64_t;
pub use regs::x86_thread_state64_t;
