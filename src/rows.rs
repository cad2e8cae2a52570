use vstd::prelude::*;

verus! {

/// One executed cycle: where it fetched, what it ran, what it fetches next,
/// and the register file before it ran.
#[derive(Debug, Clone, Copy, PartialEq, Eq)]
pub struct ProcessorRow {
    pub cycles: u32,
    pub pc: u32,
    /// Current instruction.
    pub ci: u64,
    /// Next instruction; the blank unloaded instruction once the machine halts.
    pub ni: u64,
    pub registers: [u32; 32],
}

/// The program-location part of a `ProcessorRow`, kept in its own table so
/// that it can be ordered by `pc`.
#[derive(Debug, Clone, Copy, PartialEq, Eq, Structural)]
pub struct InstructionRow {
    pub pc: u32,
    pub ci: u64,
    pub ni: u64,
}

#[derive(Debug, Clone, Copy, PartialEq, Eq, Structural)]
pub enum MemoryOperation {
    R,
    W,
}

/// One byte read or written by a load or store.
#[derive(Debug, Clone, Copy, PartialEq, Eq, Structural)]
pub struct MemoryRow {
    pub addr: u32,
    pub cycles: u32,
    pub value: u8,
    pub op: MemoryOperation,
}

impl Default for ProcessorRow {
    fn default() -> (r: Self)
        ensures
            r.cycles == 0 && r.pc == 0 && r.ci == 0 && r.ni == 0,
            forall|i: int| 0 <= i < 32 ==> #[trigger] r.registers[i] == 0,
    {
        ProcessorRow { cycles: 0, pc: 0, ci: 0, ni: 0, registers: [0u32; 32] }
    }
}

impl Default for InstructionRow {
    fn default() -> (r: Self)
        ensures
            r.pc == 0 && r.ci == 0 && r.ni == 0,
    {
        InstructionRow { pc: 0, ci: 0, ni: 0 }
    }
}

impl InstructionRow {
    pub open spec fn of(p: ProcessorRow) -> InstructionRow {
        InstructionRow { pc: p.pc, ci: p.ci, ni: p.ni }
    }
}

} // verus!
