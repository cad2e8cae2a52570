//! The three trace tables and the recorder that fills them around each step
//! of the machine.
use vstd::prelude::*;
use crate::isa::{
    memory_access, memory_access_of, store_byte, unloaded, unloaded_instruction, MemoryAccess,
    TraceError,
};
use crate::rows::{InstructionRow, MemoryOperation, MemoryRow, ProcessorRow};
use crate::sort::{merge_sort, sorted_by_key, SortKey};

verus! {

impl SortKey for InstructionRow {
    open spec fn key(&self) -> u64 {
        self.pc as u64
    }

    fn sort_key(&self) -> (k: u64) {
        self.pc as u64
    }
}

impl SortKey for MemoryRow {
    /// Address first, then cycle.
    open spec fn key(&self) -> u64 {
        (self.addr as u64 * 0x1_0000_0000 + self.cycles as u64) as u64
    }

    fn sort_key(&self) -> (k: u64) {
        (self.addr as u64) * 0x1_0000_0000 + self.cycles as u64
    }
}

/// The processor, instruction and memory tables of one run, and the number
/// of the next cycle.
pub struct Trace {
    pub cycles: u32,
    pub processor: Vec<ProcessorRow>,
    pub instruction: Vec<InstructionRow>,
    pub memory: Vec<MemoryRow>,
}

/// The memory rows of one access in cycle `cycles`: byte `k` at address
/// `addr + k`, read from `loaded[k]` or written from lane `k` of the value.
pub open spec fn access_rows(a: MemoryAccess, cycles: u32, loaded: Seq<u8>) -> Seq<MemoryRow> {
    Seq::new(
        a.width.bytes(),
        |k: int|
            MemoryRow {
                addr: a.address_of(k as nat) as u32,
                cycles,
                value: if a.op == MemoryOperation::R {
                    loaded[k]
                } else {
                    store_byte(a.value, k as nat)
                },
                op: a.op,
            },
    )
}

pub open spec fn step_rows(acc: Option<MemoryAccess>, cycles: u32, loaded: Seq<u8>) -> Seq<MemoryRow> {
    match acc {
        None => Seq::empty(),
        Some(a) => access_rows(a, cycles, loaded),
    }
}

/// What recording an instruction yields: its memory access, or why it cannot
/// be recorded (a bad register index; for a load, not exactly one loaded
/// byte per address).
pub open spec fn init_outcome(inst: u64, registers: Seq<u64>, loaded: Seq<u8>) -> Result<Option<MemoryAccess>, TraceError> {
    match memory_access_of(inst, registers) {
        Err(e) => Err(e),
        Ok(None) => Ok(None),
        Ok(Some(a)) => if a.op == MemoryOperation::R && loaded.len() != a.width.bytes() {
            Err(TraceError::Memory(a.addr))
        } else {
            Ok(Some(a))
        },
    }
}

/// `row` records cycle `cycles` fetching `inst` at `pc` with `registers`
/// (each truncated to 32 bits), its next instruction not known yet.
pub open spec fn fresh_row(row: ProcessorRow, cycles: u32, pc: u64, inst: u64, registers: Seq<u64>) -> bool {
    &&& row.cycles == cycles
    &&& row.pc == pc as u32
    &&& row.ci == inst
    &&& row.ni == 0
    &&& forall|i: int| 0 <= i < 32 ==> #[trigger] row.registers[i] == registers[i] as u32
}

/// `t1` is `t0` after recording, before the step, the instruction `inst` at
/// `pc` whose memory access is `acc`.
pub open spec fn init_step(
    t0: Trace,
    t1: Trace,
    pc: u64,
    inst: u64,
    registers: Seq<u64>,
    acc: Option<MemoryAccess>,
    loaded: Seq<u8>,
) -> bool {
    &&& t1.cycles == t0.cycles
    &&& t1.processor@.len() == t0.processor@.len() + 1
    &&& t1.processor@.drop_last() == t0.processor@
    &&& fresh_row(t1.processor@.last(), t0.cycles, pc, inst, registers)
    &&& t1.instruction@ == t0.instruction@.push(InstructionRow { pc: pc as u32, ci: inst, ni: 0 })
    &&& t1.memory@ == t0.memory@ + step_rows(acc, t0.cycles, loaded)
}

/// The instruction recorded as `ni`: the one fetched next, or the blank
/// unloaded instruction when the machine has halted.
pub open spec fn next_of(next: Option<u64>) -> u64 {
    match next {
        Some(i) => i,
        None => unloaded_instruction(),
    }
}

/// `t1` is `t0` after the step, with `next` decoded at the new pc if the
/// machine still runs.
pub open spec fn done_step(t0: Trace, t1: Trace, next: Option<u64>) -> bool {
    let p = t0.processor@.last();
    let n = t0.instruction@.last();
    &&& t1.cycles == t0.cycles + 1
    &&& t1.processor@ == t0.processor@.update(
        t0.processor@.len() - 1,
        ProcessorRow { ni: next_of(next), ..p },
    )
    &&& t1.instruction@ == t0.instruction@.update(
        t0.instruction@.len() - 1,
        InstructionRow { ni: next_of(next), ..n },
    )
    &&& t1.memory@ == t0.memory@
}

/// `t1` is `t0` finalized: the processor table untouched, the instruction
/// table ordered by pc and the memory table by address then cycle, each a
/// reordering of what it held, and left as it was if it was in order already.
pub open spec fn finalized(t0: Trace, t1: Trace) -> bool {
    &&& t1.cycles == t0.cycles
    &&& t1.processor@ == t0.processor@
    &&& sorted_by_key(t1.instruction@)
    &&& t1.instruction@.to_multiset() == t0.instruction@.to_multiset()
    &&& sorted_by_key(t0.instruction@) ==> t1.instruction@ == t0.instruction@
    &&& sorted_by_key(t1.memory@)
    &&& t1.memory@.to_multiset() == t0.memory@.to_multiset()
    &&& sorted_by_key(t0.memory@) ==> t1.memory@ == t0.memory@
}

impl Trace {
    pub open spec fn is_empty(&self) -> bool {
        &&& self.cycles == 0
        &&& self.processor@.len() == 0
        &&& self.instruction@.len() == 0
        &&& self.memory@.len() == 0
    }

    pub fn new() -> (r: Self)
        ensures
            r.is_empty(),
    {
        Self { cycles: 0, processor: Vec::new(), instruction: Vec::new(), memory: Vec::new() }
    }

    /// Records the instruction `inst` fetched at `pc`, before the machine
    /// runs it: a processor row with a snapshot of `registers`, its
    /// instruction row, and one memory row per byte it loads or stores.
    /// For a load, `loaded` holds the bytes at the access's addresses, in
    /// order; otherwise it is not read.
    pub fn step_init(&mut self, pc: u64, inst: u64, registers: &[u64; 32], loaded: &Vec<u8>) -> (r: Result<(), TraceError>)
        ensures
            match init_outcome(inst, registers@, loaded@) {
                Err(e) => r == Err::<(), TraceError>(e) && *final(self) == *old(self),
                Ok(acc) => r == Ok::<(), TraceError>(()) && init_step(
                    *old(self),
                    *final(self),
                    pc,
                    inst,
                    registers@,
                    acc,
                    loaded@,
                ),
            },
    {
        let acc = match memory_access(inst, registers) {
            Err(e) => return Err(e),
            Ok(acc) => acc,
        };
        if let Some(a) = acc {
            if a.op == MemoryOperation::R && loaded.len() != a.len() {
                return Err(TraceError::Memory(a.addr));
            }
        }
        let mut snapshot = [0u32; 32];
        let mut i: usize = 0;
        while i < 32
            invariant
                i <= 32,
                forall|k: int| 0 <= k < i ==> #[trigger] snapshot[k] == registers@[k] as u32,
            decreases 32 - i,
        {
            snapshot[i] = #[verifier::truncate] (registers[i] as u32);
            i = i + 1;
        }
        let pc32 = #[verifier::truncate] (pc as u32);
        let row = ProcessorRow { cycles: self.cycles, pc: pc32, ci: inst, ni: 0, registers: snapshot };
        self.processor.push(row);
        self.instruction.push(InstructionRow { pc: pc32, ci: inst, ni: 0 });
        proof {
            assert(self.processor@.drop_last() == old(self).processor@);
        }
        if let Some(a) = acc {
            let n = a.len();
            let ghost rows = access_rows(a, self.cycles, loaded@);
            let ghost before = self.memory@;
            let ghost processor = self.processor@;
            let ghost instruction = self.instruction@;
            let mut k: usize = 0;
            while k < n
                invariant
                    n == a.width.bytes(),
                    k <= n,
                    rows == access_rows(a, self.cycles, loaded@),
                    a.op == MemoryOperation::R ==> loaded@.len() == n,
                    self.memory@ == before + rows.take(k as int),
                    self.processor@ == processor,
                    self.instruction@ == instruction,
                    self.cycles == old(self).cycles,
                decreases n - k,
            {
                let value: u8 = match a.op {
                    MemoryOperation::R => loaded[k],
                    MemoryOperation::W => #[verifier::truncate] ((a.value >> (8 * k) as u64) as u8),
                };
                self.memory.push(
                    MemoryRow {
                        addr: #[verifier::truncate] (a.byte_address(k) as u32),
                        cycles: self.cycles,
                        value,
                        op: a.op,
                    },
                );
                proof {
                    assert(rows.take(k + 1) == rows.take(k as int).push(rows[k as int]));
                }
                k = k + 1;
            }
            proof {
                assert(rows.take(n as int) == rows);
            }
        } else {
            proof {
                assert(self.memory@ == old(self).memory@ + Seq::<MemoryRow>::empty());
            }
        }
        Ok(())
    }

    /// Completes the row of the step just run: `next` is the instruction
    /// decoded at the new pc while the machine still runs, `None` once it
    /// has halted. Advances the cycle counter.
    pub fn step_done(&mut self, next: Option<u64>)
        requires
            old(self).processor@.len() > 0,
            old(self).instruction@.len() > 0,
            old(self).cycles < u32::MAX,
        ensures
            done_step(*old(self), *final(self), next),
    {
        let ni = match next {
            Some(i) => i,
            None => unloaded(),
        };
        let last = self.processor.len() - 1;
        let mut p = self.processor[last];
        p.ni = ni;
        self.processor.set(last, p);
        let last = self.instruction.len() - 1;
        let mut n = self.instruction[last];
        n.ni = ni;
        self.instruction.set(last, n);
        self.cycles = self.cycles + 1;
    }

    /// Puts the instruction table in pc order and the memory table in
    /// (address, cycle) order; the processor table keeps execution order.
    pub fn done(&mut self)
        ensures
            finalized(*old(self), *final(self)),
    {
        let mut instruction: Vec<InstructionRow> = Vec::new();
        std::mem::swap(&mut instruction, &mut self.instruction);
        self.instruction = merge_sort(instruction);
        let mut memory: Vec<MemoryRow> = Vec::new();
        std::mem::swap(&mut memory, &mut self.memory);
        self.memory = merge_sort(memory);
    }
}

} // verus!
