//! What a decoded instruction asks of memory.
//!
//! Instructions arrive in ckb-vm's packed form: the opcode in bits 0..8 and
//! 16..24, a register index in bits 8..16 and 32..40, and the signed
//! immediate in bits 40..64.
use vstd::prelude::*;
use crate::rows::MemoryOperation;

verus! {

/// ckb-vm's opcode numbers for the blank instruction and the fixed-width loads and stores.
pub const OP_UNLOADED: u16 = 0x00;
pub const OP_LB: u16 = 0x18;
pub const OP_LBU: u16 = 0x19;
pub const OP_LD: u16 = 0x1A;
pub const OP_LH: u16 = 0x1B;
pub const OP_LHU: u16 = 0x1C;
pub const OP_LW: u16 = 0x1E;
pub const OP_LWU: u16 = 0x1F;
pub const OP_SB: u16 = 0x2B;
pub const OP_SD: u16 = 0x2C;
pub const OP_SH: u16 = 0x2D;
pub const OP_SW: u16 = 0x40;

pub open spec fn opcode_of(inst: u64) -> u16 {
    (((inst >> 8u64) & 0xff00u64) | (inst & 0xffu64)) as u16
}

/// The register index held in bits 32..40 (`rs1` of the I- and S-forms).
pub open spec fn field_rs1(inst: u64) -> usize {
    ((inst >> 32u64) as u8) as usize
}

/// The register index held in bits 8..16 (`rs2` of the S-form).
pub open spec fn field_rs2_s(inst: u64) -> usize {
    ((inst >> 8u64) as u8) as usize
}

/// The signed immediate held in bits 40..64.
pub open spec fn field_immediate(inst: u64) -> i32 {
    ((inst as i64) >> 40u64) as i32
}

pub open spec fn blank_of(op: u16) -> u64 {
    (((op as u64) >> 8u64) << 16u64) | ((op as u64) & 0xffu64)
}

/// Relies on ckb_vm::instructions::extract_opcode, which gathers bits 0..8 and 16..24.
#[verifier::external_body]
fn extract_opcode(inst: u64) -> (r: u16)
    ensures
        r == opcode_of(inst),
{
    ckb_vm::instructions::extract_opcode(inst)
}

/// Relies on ckb_vm::instructions::Itype::rs1: bits 32..40.
#[verifier::external_body]
fn itype_rs1(inst: u64) -> (r: usize)
    ensures
        r == field_rs1(inst),
{
    ckb_vm::instructions::Itype(inst).rs1()
}

/// Relies on ckb_vm::instructions::Itype::immediate_s: bits 40..64, sign-extended.
#[verifier::external_body]
fn itype_immediate(inst: u64) -> (r: i32)
    ensures
        r == field_immediate(inst),
{
    ckb_vm::instructions::Itype(inst).immediate_s()
}

/// Relies on ckb_vm::instructions::Stype::rs1: bits 32..40.
#[verifier::external_body]
fn stype_rs1(inst: u64) -> (r: usize)
    ensures
        r == field_rs1(inst),
{
    ckb_vm::instructions::Stype(inst).rs1()
}

/// Relies on ckb_vm::instructions::Stype::rs2: bits 8..16.
#[verifier::external_body]
fn stype_rs2(inst: u64) -> (r: usize)
    ensures
        r == field_rs2_s(inst),
{
    ckb_vm::instructions::Stype(inst).rs2()
}

/// Relies on ckb_vm::instructions::Stype::immediate_s: bits 40..64, sign-extended.
#[verifier::external_body]
fn stype_immediate(inst: u64) -> (r: i32)
    ensures
        r == field_immediate(inst),
{
    ckb_vm::instructions::Stype(inst).immediate_s()
}

/// Relies on ckb_vm::instructions::blank_instruction, which places an opcode
/// in the packed form with no registers and no immediate.
#[verifier::external_body]
fn blank_instruction(op: u16) -> (r: u64)
    ensures
        r == blank_of(op),
{
    ckb_vm::instructions::blank_instruction(op)
}

/// The instruction recorded as `ni` once the machine has halted.
pub open spec fn unloaded_instruction() -> u64 {
    blank_of(OP_UNLOADED)
}

pub fn unloaded() -> (r: u64)
    ensures
        r == unloaded_instruction(),
{
    blank_instruction(OP_UNLOADED)
}

/// Number of bytes a fixed-width access touches.
#[derive(Debug, Clone, Copy, PartialEq, Eq, Structural)]
pub enum AccessWidth {
    Byte,
    Half,
    Word,
    Double,
}

impl AccessWidth {
    pub open spec fn bytes(self) -> nat {
        match self {
            AccessWidth::Byte => 1,
            AccessWidth::Half => 2,
            AccessWidth::Word => 4,
            AccessWidth::Double => 8,
        }
    }

    pub fn len(&self) -> (r: usize)
        ensures
            r == self.bytes(),
    {
        match self {
            AccessWidth::Byte => 1,
            AccessWidth::Half => 2,
            AccessWidth::Word => 4,
            AccessWidth::Double => 8,
        }
    }
}

/// The table from opcode to the width and direction of its memory access;
/// every other opcode touches no memory.
pub open spec fn access_kind_of(op: u16) -> Option<(AccessWidth, MemoryOperation)> {
    if op == OP_LB || op == OP_LBU {
        Some((AccessWidth::Byte, MemoryOperation::R))
    } else if op == OP_LH || op == OP_LHU {
        Some((AccessWidth::Half, MemoryOperation::R))
    } else if op == OP_LW || op == OP_LWU {
        Some((AccessWidth::Word, MemoryOperation::R))
    } else if op == OP_LD {
        Some((AccessWidth::Double, MemoryOperation::R))
    } else if op == OP_SB {
        Some((AccessWidth::Byte, MemoryOperation::W))
    } else if op == OP_SH {
        Some((AccessWidth::Half, MemoryOperation::W))
    } else if op == OP_SW {
        Some((AccessWidth::Word, MemoryOperation::W))
    } else if op == OP_SD {
        Some((AccessWidth::Double, MemoryOperation::W))
    } else {
        None
    }
}

pub fn access_kind(op: u16) -> (r: Option<(AccessWidth, MemoryOperation)>)
    ensures
        r == access_kind_of(op),
{
    match op {
        OP_LB | OP_LBU => Some((AccessWidth::Byte, MemoryOperation::R)),
        OP_LH | OP_LHU => Some((AccessWidth::Half, MemoryOperation::R)),
        OP_LW | OP_LWU => Some((AccessWidth::Word, MemoryOperation::R)),
        OP_LD => Some((AccessWidth::Double, MemoryOperation::R)),
        OP_SB => Some((AccessWidth::Byte, MemoryOperation::W)),
        OP_SH => Some((AccessWidth::Half, MemoryOperation::W)),
        OP_SW => Some((AccessWidth::Word, MemoryOperation::W)),
        OP_SD => Some((AccessWidth::Double, MemoryOperation::W)),
        _ => None,
    }
}


/// Why a step could not be recorded.
#[derive(Debug, Clone, Copy, PartialEq, Eq, Structural)]
pub enum TraceError {
    /// The instruction names a register outside the 32-entry file.
    Decode(u64),
    /// The byte at this address was needed for a load but was not supplied.
    Memory(u64),
}

/// The bytes one load or store touches: `width` bytes from `addr` on, read
/// or written; for a store, `value` is the source register's content.
#[derive(Debug, Clone, Copy, PartialEq, Eq, Structural)]
pub struct MemoryAccess {
    pub addr: u64,
    pub width: AccessWidth,
    pub op: MemoryOperation,
    pub value: u64,
}

pub open spec fn wrap64(x: int) -> u64 {
    (x % 0x1_0000_0000_0000_0000) as u64
}

/// Base register plus sign-extended immediate, modulo the address space.
pub open spec fn effective_address(base: u64, imm: i32) -> u64 {
    wrap64(base + imm)
}

/// The byte that lane `k` of a store writes: `value >> (8 * k)`, truncated.
pub open spec fn store_byte(value: u64, k: nat) -> u8 {
    (value >> (8 * k) as u64) as u8
}

impl MemoryAccess {
    /// Address of the `k`-th byte of the access.
    pub open spec fn address_of(self, k: nat) -> u64 {
        wrap64(self.addr + k)
    }

    pub fn byte_address(&self, k: usize) -> (r: u64)
        ensures
            r == self.address_of(k as nat),
    {
        self.addr.wrapping_add(k as u64)
    }

    pub fn len(&self) -> (r: usize)
        ensures
            r == self.width.bytes(),
    {
        self.width.len()
    }
}

/// What `inst` asks of memory, given the register file before it runs:
/// nothing for an opcode outside the load/store table, an error for a
/// register index outside the file.
pub open spec fn memory_access_of(inst: u64, registers: Seq<u64>) -> Result<Option<MemoryAccess>, TraceError> {
    match access_kind_of(opcode_of(inst)) {
        None => Ok(None),
        Some((width, op)) => {
            let base = field_rs1(inst);
            let src = field_rs2_s(inst);
            if base >= 32 || (op == MemoryOperation::W && src >= 32) {
                Err(TraceError::Decode(inst))
            } else {
                Ok(Some(MemoryAccess {
                    addr: effective_address(registers[base as int], field_immediate(inst)),
                    width,
                    op,
                    value: if op == MemoryOperation::W { registers[src as int] } else { 0 },
                }))
            }
        }
    }
}

pub fn memory_access(inst: u64, registers: &[u64; 32]) -> (r: Result<Option<MemoryAccess>, TraceError>)
    ensures
        r == memory_access_of(inst, registers@),
{
    let kind = access_kind(extract_opcode(inst));
    match kind {
        None => Ok(None),
        Some((width, op)) => {
            let (base, src, imm) = match op {
                MemoryOperation::R => (itype_rs1(inst), 0usize, itype_immediate(inst)),
                MemoryOperation::W => (stype_rs1(inst), stype_rs2(inst), stype_immediate(inst)),
            };
            if base >= 32 || src >= 32 {
                return Err(TraceError::Decode(inst));
            }
            let b = registers[base];
            let addr = b.wrapping_add_signed(imm as i64);
            assert(addr == effective_address(b, imm));
            let value: u64 = match op {
                MemoryOperation::R => 0,
                MemoryOperation::W => registers[src],
            };
            Ok(Some(MemoryAccess { addr, width, op, value }))
        }
    }
}

} // verus!
