//! Facts about whole runs, proved from the recorder's and the finalizer's
//! contracts.
use vstd::prelude::*;
use crate::isa::{
    access_kind_of, effective_address, field_immediate, field_rs1, opcode_of, unloaded_instruction,
    MemoryAccess,
};
use crate::rows::InstructionRow;
use crate::sort::SortKey;
use crate::trace::{access_rows, done_step, finalized, init_outcome, init_step, Trace};

verus! {

/// Between steps the processor and instruction tables hold one row per
/// cycle run since the trace was created, numbered from 0, each instruction
/// row the projection of its processor row; every memory row belongs to a
/// cycle already run.
pub open spec fn consistent(t: Trace) -> bool {
    &&& t.processor@.len() == t.cycles
    &&& t.instruction@.len() == t.cycles
    &&& forall|k: int| 0 <= k < t.processor@.len() ==> (#[trigger] t.processor@[k]).cycles == k
    &&& forall|k: int|
        0 <= k < t.instruction@.len() ==> #[trigger] t.instruction@[k] == InstructionRow::of(
            t.processor@[k],
        )
    &&& forall|m: int| 0 <= m < t.memory@.len() ==> (#[trigger] t.memory@[m]).cycles < t.cycles
}

/// One full step (record, run, complete) keeps the tables consistent and
/// adds exactly one processor row and one instruction row, numbered with
/// the cycle it ran in.
pub proof fn lemma_step_keeps_consistent(
    t0: Trace,
    t1: Trace,
    t2: Trace,
    pc: u64,
    inst: u64,
    registers: Seq<u64>,
    acc: Option<MemoryAccess>,
    loaded: Seq<u8>,
    next: Option<u64>,
)
    requires
        consistent(t0),
        init_step(t0, t1, pc, inst, registers, acc, loaded),
        done_step(t1, t2, next),
    ensures
        consistent(t2),
        t2.cycles == t0.cycles + 1,
        t2.processor@.len() == t2.instruction@.len() == t2.cycles,
        t2.processor@.last().cycles == t0.cycles,
{
    let n = t0.cycles as int;
    assert forall|k: int| 0 <= k < t2.processor@.len() implies (#[trigger] t2.processor@[k]).cycles == k by {
        if k < n {
            assert(t1.processor@[k] == t1.processor@.drop_last()[k]);
        }
    }
    assert forall|k: int| 0 <= k < t2.instruction@.len() implies #[trigger] t2.instruction@[k]
        == InstructionRow::of(t2.processor@[k]) by {
        if k < n {
            assert(t1.processor@[k] == t1.processor@.drop_last()[k]);
        }
    }
}

/// `t2` follows `t0` by one full step: recording an instruction, running
/// it, and completing its row.
pub open spec fn full_step(t0: Trace, t2: Trace) -> bool {
    exists|
        t1: Trace,
        pc: u64,
        inst: u64,
        registers: Seq<u64>,
        acc: Option<MemoryAccess>,
        loaded: Seq<u8>,
        next: Option<u64>,
    |
        #![trigger init_step(t0, t1, pc, inst, registers, acc, loaded), done_step(t1, t2, next)]
        init_step(t0, t1, pc, inst, registers, acc, loaded) && done_step(t1, t2, next)
}

/// A run traced from a fresh trace (at load, or at the last reset) and then
/// finalized: the processor and instruction tables hold exactly one row per
/// step taken, the processor rows numbered 0, 1, ... in order, and every
/// memory row belongs to one of those steps.
pub proof fn lemma_completed_run(ts: Seq<Trace>, fin: Trace)
    requires
        ts.len() > 0,
        ts[0].is_empty(),
        forall|i: int| 0 <= i < ts.len() - 1 ==> full_step(#[trigger] ts[i], ts[i + 1]),
        finalized(ts.last(), fin),
    ensures
        consistent(ts.last()),
        fin.processor@.len() == fin.instruction@.len() == fin.cycles == ts.len() - 1,
        forall|k: int| 0 <= k < fin.processor@.len() ==> (#[trigger] fin.processor@[k]).cycles == k,
        forall|m: int| 0 <= m < fin.memory@.len() ==> (#[trigger] fin.memory@[m]).cycles < fin.cycles,
{
    lemma_run_prefix(ts, ts.len() - 1);
    lemma_finalize_keeps_row_counts(ts.last(), fin);
    let t = ts.last();
    assert forall|m: int| 0 <= m < fin.memory@.len() implies (#[trigger] fin.memory@[m]).cycles < fin.cycles by {
        let r = fin.memory@[m];
        fin.memory@.to_multiset_ensures();
        t.memory@.to_multiset_ensures();
        assert(fin.memory@.contains(r));
        assert(fin.memory@.to_multiset().count(r) > 0);
        assert(t.memory@.to_multiset().count(r) > 0);
        assert(t.memory@.contains(r));
        let idx = choose|i: int| 0 <= i < t.memory@.len() && t.memory@[i] == r;
        assert(t.memory@[idx].cycles < t.cycles);
    }
}

proof fn lemma_run_prefix(ts: Seq<Trace>, n: int)
    requires
        0 <= n < ts.len(),
        ts[0].is_empty(),
        forall|i: int| 0 <= i < ts.len() - 1 ==> full_step(#[trigger] ts[i], ts[i + 1]),
    ensures
        consistent(ts[n]),
        ts[n].cycles == n,
    decreases n,
{
    if n > 0 {
        lemma_run_prefix(ts, n - 1);
        assert(full_step(ts[n - 1], ts[n]));
        let (t1, pc, inst, registers, acc, loaded, next) = choose|
            t1: Trace,
            pc: u64,
            inst: u64,
            registers: Seq<u64>,
            acc: Option<MemoryAccess>,
            loaded: Seq<u8>,
            next: Option<u64>,
        |
            #![trigger init_step(ts[n - 1], t1, pc, inst, registers, acc, loaded), done_step(t1, ts[n], next)]
            init_step(ts[n - 1], t1, pc, inst, registers, acc, loaded) && done_step(t1, ts[n], next);
        lemma_step_keeps_consistent(ts[n - 1], t1, ts[n], pc, inst, registers, acc, loaded, next);
    }
}

/// Finalizing keeps the row count of every table, so after a completed run
/// the processor and instruction tables both hold one row per cycle.
pub proof fn lemma_finalize_keeps_row_counts(t0: Trace, t1: Trace)
    requires
        finalized(t0, t1),
    ensures
        t1.processor@.len() == t0.processor@.len(),
        t1.instruction@.len() == t0.instruction@.len(),
        t1.memory@.len() == t0.memory@.len(),
        consistent(t0) ==> t1.processor@.len() == t1.instruction@.len() == t1.cycles,
{
    t0.instruction@.to_multiset_ensures();
    t1.instruction@.to_multiset_ensures();
    t0.memory@.to_multiset_ensures();
    t1.memory@.to_multiset_ensures();
}

/// In the finalized memory table addresses never decrease, and the rows of
/// one address are in cycle order.
pub proof fn lemma_memory_history_in_time_order(t0: Trace, t1: Trace)
    requires
        finalized(t0, t1),
    ensures
        forall|i: int, j: int|
            0 <= i < j < t1.memory@.len() ==> (#[trigger] t1.memory@[i]).addr <= (#[trigger] t1.memory@[j]).addr,
        forall|i: int, j: int|
            0 <= i < j < t1.memory@.len() && (#[trigger] t1.memory@[i]).addr == (#[trigger] t1.memory@[j]).addr
                ==> t1.memory@[i].cycles <= t1.memory@[j].cycles,
{
    assert forall|i: int, j: int| 0 <= i < j < t1.memory@.len() implies (#[trigger] t1.memory@[i]).addr
        <= (#[trigger] t1.memory@[j]).addr && (t1.memory@[i].addr == t1.memory@[j].addr
        ==> t1.memory@[i].cycles <= t1.memory@[j].cycles) by {
        let a = t1.memory@[i];
        let b = t1.memory@[j];
        assert(a.key() <= b.key());
    }
}

/// In the finalized instruction table each row's pc is at most the next one's.
pub proof fn lemma_instruction_table_in_pc_order(t0: Trace, t1: Trace)
    requires
        finalized(t0, t1),
    ensures
        forall|i: int|
            0 <= i < t1.instruction@.len() - 1 ==> (#[trigger] t1.instruction@[i]).pc <= t1.instruction@[i + 1].pc,
{
    assert forall|i: int| 0 <= i < t1.instruction@.len() - 1 implies (#[trigger] t1.instruction@[i]).pc
        <= t1.instruction@[i + 1].pc by {
        assert(t1.instruction@[i].key() <= t1.instruction@[i + 1].key());
    }
}

/// The step that halts the machine leaves the blank unloaded instruction as
/// `ni` of the last processor row and the last instruction row, whatever
/// that row's `ci`; finalizing keeps the processor row in place.
pub proof fn lemma_halt_marks_last_rows(t0: Trace, t1: Trace, t2: Trace)
    requires
        t0.processor@.len() > 0,
        t0.instruction@.len() > 0,
        done_step(t0, t1, None),
        finalized(t1, t2),
    ensures
        t1.processor@.last().ni == unloaded_instruction(),
        t1.instruction@.last().ni == unloaded_instruction(),
        t2.processor@.last().ni == unloaded_instruction(),
{
}

/// Finalizing a finalized trace changes nothing.
pub proof fn lemma_finalize_idempotent(t0: Trace, t1: Trace, t2: Trace)
    requires
        finalized(t0, t1),
        finalized(t1, t2),
    ensures
        t2.cycles == t1.cycles,
        t2.processor@ == t1.processor@,
        t2.instruction@ == t1.instruction@,
        t2.memory@ == t1.memory@,
{
}

/// Recording a load or store of `w` bytes (1, 2, 4 or 8, by opcode) adds
/// exactly `w` memory rows, all of the recorded cycle, at consecutive
/// addresses from base register plus sign-extended immediate; any other
/// instruction adds none.
pub proof fn lemma_access_rows_shape(
    t0: Trace,
    t1: Trace,
    pc: u64,
    inst: u64,
    registers: Seq<u64>,
    loaded: Seq<u8>,
)
    requires
        init_outcome(inst, registers, loaded) is Ok,
        init_step(t0, t1, pc, inst, registers, init_outcome(inst, registers, loaded)->Ok_0, loaded),
    ensures
        match access_kind_of(opcode_of(inst)) {
            None => t1.memory@ == t0.memory@,
            Some((width, op)) => {
                let base = registers[field_rs1(inst) as int];
                let addr = effective_address(base, field_immediate(inst));
                &&& t1.memory@.len() == t0.memory@.len() + width.bytes()
                &&& t1.memory@.subrange(0, t0.memory@.len() as int) == t0.memory@
                &&& forall|k: int|
                    0 <= k < width.bytes() ==> {
                        let row = #[trigger] t1.memory@[t0.memory@.len() + k];
                        &&& row.cycles == t0.cycles
                        &&& row.op == op
                        &&& row.addr == (addr + k) % 0x1_0000_0000
                    }
            },
        },
{
    let n = t0.memory@.len() as int;
    match init_outcome(inst, registers, loaded)->Ok_0 {
        None => {
            assert(t1.memory@ == t0.memory@);
        },
        Some(a) => {
            let rows = access_rows(a, t0.cycles, loaded);
            assert(t1.memory@.subrange(0, n) == t0.memory@);
            assert forall|k: int| 0 <= k < a.width.bytes() implies (#[trigger] t1.memory@[n + k]).addr == (
            a.addr + k) % 0x1_0000_0000 by {
                assert(t1.memory@[n + k] == rows[k]);
                let x = a.addr + k;
                let y = crate::isa::wrap64(x);
                assert(y as u32 == y % 0x1_0000_0000) by (bit_vector);
                assert((x % 0x1_0000_0000_0000_0000) % 0x1_0000_0000 == x % 0x1_0000_0000) by (nonlinear_arith)
                    requires
                        x >= 0,
                ;
            }
            assert forall|k: int| 0 <= k < a.width.bytes() implies (#[trigger] t1.memory@[n + k]).cycles
                == t0.cycles && t1.memory@[n + k].op == a.op by {
                assert(t1.memory@[n + k] == rows[k]);
            }
        },
    }
}

} // verus!
