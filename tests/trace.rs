use ckb_vm::instructions::{blank_instruction, Itype, Rtype, Stype};
use ckb_vm_definitions::instructions as defs;
use zkvm::isa::{self, unloaded};
use zkvm::{memory_access, AccessWidth, InstructionRow, MemoryAccess, MemoryOperation, MemoryRow, Trace, TraceError};

fn store(op: u16, imm: i32, rs1: usize, rs2: usize) -> u64 {
    Stype::new_s(op, imm, rs1, rs2).0
}

fn load(op: u16, rd: usize, rs1: usize, imm: i32) -> u64 {
    Itype::new_s(op, rd, rs1, imm).0
}

fn regs(pairs: &[(usize, u64)]) -> [u64; 32] {
    let mut r = [0u64; 32];
    for &(i, v) in pairs {
        r[i] = v;
    }
    r
}

fn mem(addr: u32, cycles: u32, value: u8, op: MemoryOperation) -> MemoryRow {
    MemoryRow { addr, cycles, value, op }
}

#[test]
fn word_store_then_halt_yields_four_bytes() {
    let mut t = Trace::new();
    let r = regs(&[(1, 0x1000), (2, 0xAABBCCDD)]);
    let inst = store(defs::OP_SW, 0, 1, 2);
    assert_eq!(t.step_init(0, inst, &r, &vec![]), Ok(()));
    t.step_done(None);
    t.done();
    assert_eq!(
        t.memory,
        vec![
            mem(0x1000, 0, 0xDD, MemoryOperation::W),
            mem(0x1001, 0, 0xCC, MemoryOperation::W),
            mem(0x1002, 0, 0xBB, MemoryOperation::W),
            mem(0x1003, 0, 0xAA, MemoryOperation::W),
        ]
    );
    assert_eq!(t.processor.len(), 1);
    assert_eq!(t.instruction.len(), 1);
    assert_eq!(t.cycles, 1);
}

#[test]
fn store_widths_give_one_row_per_byte() {
    let cases = [(defs::OP_SB, 1usize), (defs::OP_SH, 2), (defs::OP_SW, 4), (defs::OP_SD, 8)];
    for &(op, width) in cases.iter() {
        let mut t = Trace::new();
        let r = regs(&[(3, 0x2000), (4, 0x1122334455667788)]);
        t.step_init(0x100, store(op, 8, 3, 4), &r, &vec![]).unwrap();
        assert_eq!(t.memory.len(), width);
        for (k, row) in t.memory.iter().enumerate() {
            assert_eq!(row.addr, 0x2008 + k as u32);
            assert_eq!(row.cycles, 0);
            assert_eq!(row.op, MemoryOperation::W);
            assert_eq!(row.value, (0x1122334455667788u64 >> (8 * k)) as u8);
        }
    }
}

#[test]
fn load_widths_record_supplied_bytes() {
    let cases = [
        (defs::OP_LB, 1usize),
        (defs::OP_LBU, 1),
        (defs::OP_LH, 2),
        (defs::OP_LHU, 2),
        (defs::OP_LW, 4),
        (defs::OP_LWU, 4),
        (defs::OP_LD, 8),
    ];
    for &(op, width) in cases.iter() {
        let mut t = Trace::new();
        let r = regs(&[(5, 0x3000)]);
        let inst = load(op, 6, 5, -16);
        let a = memory_access(inst, &r).unwrap().unwrap();
        assert_eq!(a.addr, 0x2FF0);
        assert_eq!(a.len(), width);
        assert_eq!(a.op, MemoryOperation::R);
        let bytes: Vec<u8> = (0..width).map(|k| 0x40 + k as u8).collect();
        t.step_init(0x200, inst, &r, &bytes).unwrap();
        assert_eq!(t.memory.len(), width);
        for (k, row) in t.memory.iter().enumerate() {
            assert_eq!(*row, mem(0x2FF0 + k as u32, 0, 0x40 + k as u8, MemoryOperation::R));
        }
    }
}

#[test]
fn access_table_widths() {
    let r = regs(&[]);
    let w = |op: u16| memory_access(store(op, 0, 0, 0), &r).unwrap().map(|a| a.width);
    assert_eq!(w(defs::OP_SB), Some(AccessWidth::Byte));
    assert_eq!(w(defs::OP_SH), Some(AccessWidth::Half));
    assert_eq!(w(defs::OP_SW), Some(AccessWidth::Word));
    assert_eq!(w(defs::OP_SD), Some(AccessWidth::Double));
    assert_eq!(w(defs::OP_LD), Some(AccessWidth::Double));
    assert_eq!(w(defs::OP_ADD), None);
}

#[test]
fn opcode_numbers_match_ckb_vm() {
    assert_eq!(isa::OP_UNLOADED, defs::OP_UNLOADED);
    assert_eq!(isa::OP_LB, defs::OP_LB);
    assert_eq!(isa::OP_LBU, defs::OP_LBU);
    assert_eq!(isa::OP_LD, defs::OP_LD);
    assert_eq!(isa::OP_LH, defs::OP_LH);
    assert_eq!(isa::OP_LHU, defs::OP_LHU);
    assert_eq!(isa::OP_LW, defs::OP_LW);
    assert_eq!(isa::OP_LWU, defs::OP_LWU);
    assert_eq!(isa::OP_SB, defs::OP_SB);
    assert_eq!(isa::OP_SD, defs::OP_SD);
    assert_eq!(isa::OP_SH, defs::OP_SH);
    assert_eq!(isa::OP_SW, defs::OP_SW);
}

#[test]
fn store_uses_the_fields_of_the_packed_instruction() {
    // rs1 in bits 32..40, rs2 in bits 8..16, immediate in bits 40..64.
    let r = regs(&[(7, 0x5000), (9, 0xFEDC)]);
    let a = memory_access(store(defs::OP_SH, -2, 7, 9), &r).unwrap().unwrap();
    assert_eq!(a, MemoryAccess { addr: 0x4FFE, width: AccessWidth::Half, op: MemoryOperation::W, value: 0xFEDC });
}

#[test]
fn effective_address_wraps() {
    let mut t = Trace::new();
    let r = regs(&[(1, 0xFFFF_FFFF), (2, 0x0201)]);
    t.step_init(0, store(defs::OP_SH, 0, 1, 2), &r, &vec![]).unwrap();
    assert_eq!(t.memory[0], mem(0xFFFF_FFFF, 0, 0x01, MemoryOperation::W));
    assert_eq!(t.memory[1], mem(0, 0, 0x02, MemoryOperation::W));
    let r = regs(&[(1, 0), (2, 0)]);
    let a = memory_access(store(defs::OP_SB, -1, 1, 2), &r).unwrap().unwrap();
    assert_eq!(a.addr, u64::MAX);
    assert_eq!(a.byte_address(1), 0);
}

#[test]
fn other_opcodes_touch_no_memory() {
    let mut t = Trace::new();
    let inst = Rtype::new(defs::OP_ADD, 1, 2, 3).0;
    t.step_init(0x10, inst, &regs(&[(2, 5), (3, 6)]), &vec![]).unwrap();
    assert!(t.memory.is_empty());
    assert_eq!(t.processor.len(), 1);
    assert_eq!(t.instruction, vec![InstructionRow { pc: 0x10, ci: inst, ni: 0 }]);
    assert_eq!(t.processor[0].registers[2], 5);
    assert_eq!(t.processor[0].registers[3], 6);
}

#[test]
fn register_out_of_range_is_a_decode_error() {
    let mut t = Trace::new();
    let inst = store(defs::OP_SW, 0, 40, 2);
    assert_eq!(t.step_init(0, inst, &regs(&[]), &vec![]), Err(TraceError::Decode(inst)));
    let inst = store(defs::OP_SW, 0, 1, 33);
    assert_eq!(t.step_init(0, inst, &regs(&[]), &vec![]), Err(TraceError::Decode(inst)));
    assert!(t.processor.is_empty() && t.instruction.is_empty() && t.memory.is_empty());
}

#[test]
fn missing_load_bytes_are_a_memory_error() {
    let mut t = Trace::new();
    let inst = load(defs::OP_LW, 1, 2, 4);
    let r = regs(&[(2, 0x100)]);
    assert_eq!(t.step_init(0, inst, &r, &vec![1, 2]), Err(TraceError::Memory(0x104)));
    assert!(t.processor.is_empty() && t.memory.is_empty());
}

#[test]
fn registers_are_truncated_to_32_bits() {
    let mut t = Trace::new();
    let inst = Rtype::new(defs::OP_ADD, 1, 2, 3).0;
    t.step_init(0x1_0000_0004, inst, &regs(&[(31, 0x1_2345_6789)]), &vec![]).unwrap();
    assert_eq!(t.processor[0].registers[31], 0x2345_6789);
    assert_eq!(t.processor[0].pc, 4);
}

#[test]
fn lookahead_fills_ni_and_halt_leaves_blank() {
    let mut t = Trace::new();
    let a = Rtype::new(defs::OP_ADD, 1, 2, 3).0;
    let b = Rtype::new(defs::OP_SUB, 1, 2, 3).0;
    t.step_init(0, a, &regs(&[]), &vec![]).unwrap();
    t.step_done(Some(b));
    assert_eq!(t.processor[0].ni, b);
    assert_eq!(t.instruction[0].ni, b);
    t.step_init(4, b, &regs(&[]), &vec![]).unwrap();
    assert_eq!(t.processor[1].ni, 0);
    t.step_done(None);
    let blank = blank_instruction(defs::OP_UNLOADED);
    assert_eq!(unloaded(), blank);
    assert_eq!(t.processor[1].ni, blank);
    assert_eq!(t.instruction[1].ni, blank);
    assert_eq!(t.cycles, 2);
    assert_eq!(t.processor[1].cycles, 1);
    assert_eq!(t.processor.len(), t.instruction.len());
}

#[test]
fn finalize_orders_tables() {
    let mut t = Trace::new();
    let r = regs(&[(1, 0x20), (2, 0x10), (3, 0xABCD)]);
    // cycle 0 at pc 8: store half to 0x20; cycle 1 at pc 4: store byte to 0x10;
    // cycle 2 at pc 8 again: store byte to 0x20.
    let steps = [(8u64, store(defs::OP_SH, 0, 1, 3)), (4, store(defs::OP_SB, 0, 2, 3)), (8, store(defs::OP_SB, 0, 1, 3))];
    for &(pc, inst) in steps.iter() {
        t.step_init(pc, inst, &r, &vec![]).unwrap();
        t.step_done(Some(0));
    }
    t.done();
    let pcs: Vec<u32> = t.instruction.iter().map(|i| i.pc).collect();
    assert_eq!(pcs, vec![4, 8, 8]);
    let keys: Vec<(u32, u32)> = t.memory.iter().map(|m| (m.addr, m.cycles)).collect();
    assert_eq!(keys, vec![(0x10, 1), (0x20, 0), (0x20, 2), (0x21, 0)]);
    let cycles: Vec<u32> = t.processor.iter().map(|p| p.cycles).collect();
    assert_eq!(cycles, vec![0, 1, 2]);
    assert_eq!(t.processor.len(), 3);
    assert_eq!(t.instruction.len(), 3);
}

#[test]
fn finalize_twice_changes_nothing() {
    let mut t = Trace::new();
    let r = regs(&[(1, 0x30), (2, 0x10), (3, 0x1234)]);
    for (k, &(pc, inst)) in [(0x40u64, store(defs::OP_SW, 0, 1, 3)), (0x10, store(defs::OP_SH, 0, 2, 3)), (0x40, store(defs::OP_SB, 2, 2, 3))].iter().enumerate() {
        t.step_init(pc, inst, &r, &vec![]).unwrap();
        t.step_done(Some(k as u64));
    }
    t.done();
    let (instruction, memory, processor) = (t.instruction.clone(), t.memory.clone(), t.processor.clone());
    t.done();
    assert_eq!(t.instruction, instruction);
    assert_eq!(t.memory, memory);
    assert_eq!(t.processor, processor);
}

#[test]
fn fresh_trace_after_reset_restarts_at_cycle_zero() {
    let mut t = Trace::new();
    let inst = store(defs::OP_SB, 0, 1, 2);
    t.step_init(0, inst, &regs(&[(1, 0x10)]), &vec![]).unwrap();
    t.step_done(Some(inst));
    t = Trace::new();
    assert!(t.processor.is_empty() && t.instruction.is_empty() && t.memory.is_empty());
    t.step_init(4, inst, &regs(&[(1, 0x50)]), &vec![]).unwrap();
    t.step_done(None);
    assert_eq!(t.cycles, 1);
    assert_eq!(t.processor[0].cycles, 0);
    assert_eq!(t.memory, vec![mem(0x50, 0, 0, MemoryOperation::W)]);
}
