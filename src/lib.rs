//! Execution-trace capture for a RISC-V emulator: per-cycle processor,
//! instruction and byte-granular memory tables, and their canonical ordering
//! for memory- and instruction-consistency arguments.

pub mod isa;
pub mod lemmas;
pub mod rows;
pub mod sort;
pub mod trace;

pub use isa::{memory_access, AccessWidth, MemoryAccess, TraceError};
pub use rows::{InstructionRow, MemoryOperation, MemoryRow, ProcessorRow};
pub use trace::Trace;
