//! Instruction model: opcode constants, the decoded instruction record, and
//! the pure decoder and encoder for 8-byte instruction slots.
//!
//! Each instruction occupies one 8-byte slot, read little-endian: byte 0 is
//! the opcode; the low nibble of byte 1 is the destination register and the
//! high nibble the source register; bytes 2-3 are a signed 16-bit offset;
//! bytes 4-7 are a signed 32-bit immediate.

use vstd::prelude::*;

verus! {

/// Size of one instruction slot, in bytes.
pub const INSN_SIZE: usize = 8;

/// Size of the private stack region, in bytes.
pub const STACK_SIZE: usize = 512;

/// Number of registers.
pub const REG_COUNT: usize = 11;

/// Index of the frame register, which points one past the end of the stack
/// and which programs may not write.
pub const FRAME_REG: u8 = 10;

// Memory-class opcodes: class in the low 3 bits, width in bits 3-4, mode in
// bits 5-7.

/// Absolute packet load, byte width (recognised, fatal at run time).
pub const LD_ABS_B: u8 = 0x30;
/// Absolute packet load, halfword width (recognised, fatal at run time).
pub const LD_ABS_H: u8 = 0x28;
/// Absolute packet load, word width (recognised, fatal at run time).
pub const LD_ABS_W: u8 = 0x20;
/// Absolute packet load, doubleword width (recognised, fatal at run time).
pub const LD_ABS_DW: u8 = 0x38;
/// Indirect packet load, byte width (recognised, fatal at run time).
pub const LD_IND_B: u8 = 0x50;
/// Indirect packet load, halfword width (recognised, fatal at run time).
pub const LD_IND_H: u8 = 0x48;
/// Indirect packet load, word width (recognised, fatal at run time).
pub const LD_IND_W: u8 = 0x40;
/// Indirect packet load, doubleword width (recognised, fatal at run time).
pub const LD_IND_DW: u8 = 0x58;

/// Load a 64-bit immediate from two adjacent slots: low 32 bits from this
/// slot's immediate, high 32 bits from the next slot's immediate.
pub const LD_DW_IMM: u8 = 0x18;
/// Load one byte from memory at `reg[src] + off`.
pub const LD_B_REG: u8 = 0x71;
/// Load two bytes from memory at `reg[src] + off`.
pub const LD_H_REG: u8 = 0x69;
/// Load four bytes from memory at `reg[src] + off`.
pub const LD_W_REG: u8 = 0x61;
/// Load eight bytes from memory at `reg[src] + off`.
pub const LD_DW_REG: u8 = 0x79;

/// Store a one-byte immediate to memory at `reg[dst] + off`.
pub const ST_B_IMM: u8 = 0x72;
/// Store a two-byte immediate to memory at `reg[dst] + off`.
pub const ST_H_IMM: u8 = 0x6a;
/// Store a four-byte immediate to memory at `reg[dst] + off`.
pub const ST_W_IMM: u8 = 0x62;
/// Store an eight-byte immediate to memory at `reg[dst] + off`.
pub const ST_DW_IMM: u8 = 0x7a;

/// Store the low byte of `reg[src]` to memory at `reg[dst] + off`.
pub const ST_B_REG: u8 = 0x73;
/// Store the low two bytes of `reg[src]` to memory at `reg[dst] + off`.
pub const ST_H_REG: u8 = 0x6b;
/// Store the low four bytes of `reg[src]` to memory at `reg[dst] + off`.
pub const ST_W_REG: u8 = 0x63;
/// Store `reg[src]` to memory at `reg[dst] + off`.
pub const ST_DW_REG: u8 = 0x7b;
/// Atomic word add (recognised, fatal at run time).
pub const ST_W_XADD: u8 = 0xc3;
/// Atomic doubleword add (recognised, fatal at run time).
pub const ST_DW_XADD: u8 = 0xdb;

// 32-bit arithmetic opcodes: operation in bits 4-7, source in bit 3
// (0 = immediate, 1 = register).

/// 32-bit add, immediate operand.
pub const ADD32_IMM: u8 = 0x04;
/// 32-bit add, register operand.
pub const ADD32_REG: u8 = 0x0c;
/// 32-bit subtract, immediate operand.
pub const SUB32_IMM: u8 = 0x14;
/// 32-bit subtract, register operand.
pub const SUB32_REG: u8 = 0x1c;
/// 32-bit multiply, immediate operand.
pub const MUL32_IMM: u8 = 0x24;
/// 32-bit multiply, register operand.
pub const MUL32_REG: u8 = 0x2c;
/// 32-bit unsigned divide, immediate operand.
pub const DIV32_IMM: u8 = 0x34;
/// 32-bit unsigned divide, register operand.
pub const DIV32_REG: u8 = 0x3c;
/// 32-bit bitwise or, immediate operand.
pub const OR32_IMM: u8 = 0x44;
/// 32-bit bitwise or, register operand.
pub const OR32_REG: u8 = 0x4c;
/// 32-bit bitwise and, immediate operand.
pub const AND32_IMM: u8 = 0x54;
/// 32-bit bitwise and, register operand.
pub const AND32_REG: u8 = 0x5c;
/// 32-bit logical shift left, immediate operand.
pub const LSH32_IMM: u8 = 0x64;
/// 32-bit logical shift left, register operand.
pub const LSH32_REG: u8 = 0x6c;
/// 32-bit logical shift right, immediate operand.
pub const RSH32_IMM: u8 = 0x74;
/// 32-bit logical shift right, register operand.
pub const RSH32_REG: u8 = 0x7c;
/// 32-bit two's-complement negate.
pub const NEG32: u8 = 0x84;
/// 32-bit unsigned modulus, immediate operand.
pub const MOD32_IMM: u8 = 0x94;
/// 32-bit unsigned modulus, register operand.
pub const MOD32_REG: u8 = 0x9c;
/// 32-bit bitwise exclusive or, immediate operand.
pub const XOR32_IMM: u8 = 0xa4;
/// 32-bit bitwise exclusive or, register operand.
pub const XOR32_REG: u8 = 0xac;
/// 32-bit move, immediate operand.
pub const MOV32_IMM: u8 = 0xb4;
/// 32-bit move, register operand.
pub const MOV32_REG: u8 = 0xbc;
/// 32-bit arithmetic shift right, immediate operand.
pub const ARSH32_IMM: u8 = 0xc4;
/// 32-bit arithmetic shift right, register operand.
pub const ARSH32_REG: u8 = 0xcc;
/// Convert the low 16, 32 or 64 bits (per the immediate) to little-endian.
pub const LE: u8 = 0xd4;
/// Convert the low 16, 32 or 64 bits (per the immediate) to big-endian.
pub const BE: u8 = 0xdc;

// 64-bit arithmetic opcodes.

/// 64-bit add, immediate operand.
pub const ADD64_IMM: u8 = 0x07;
/// 64-bit add, register operand.
pub const ADD64_REG: u8 = 0x0f;
/// 64-bit subtract, immediate operand.
pub const SUB64_IMM: u8 = 0x17;
/// 64-bit subtract, register operand.
pub const SUB64_REG: u8 = 0x1f;
/// 64-bit multiply, immediate operand.
pub const MUL64_IMM: u8 = 0x27;
/// 64-bit multiply, register operand.
pub const MUL64_REG: u8 = 0x2f;
/// 64-bit unsigned divide, immediate operand.
pub const DIV64_IMM: u8 = 0x37;
/// 64-bit unsigned divide, register operand.
pub const DIV64_REG: u8 = 0x3f;
/// 64-bit bitwise or, immediate operand.
pub const OR64_IMM: u8 = 0x47;
/// 64-bit bitwise or, register operand.
pub const OR64_REG: u8 = 0x4f;
/// 64-bit bitwise and, immediate operand.
pub const AND64_IMM: u8 = 0x57;
/// 64-bit bitwise and, register operand.
pub const AND64_REG: u8 = 0x5f;
/// 64-bit logical shift left, immediate operand.
pub const LSH64_IMM: u8 = 0x67;
/// 64-bit logical shift left, register operand.
pub const LSH64_REG: u8 = 0x6f;
/// 64-bit logical shift right, immediate operand.
pub const RSH64_IMM: u8 = 0x77;
/// 64-bit logical shift right, register operand.
pub const RSH64_REG: u8 = 0x7f;
/// 64-bit two's-complement negate.
pub const NEG64: u8 = 0x87;
/// 64-bit unsigned modulus, immediate operand.
pub const MOD64_IMM: u8 = 0x97;
/// 64-bit unsigned modulus, register operand.
pub const MOD64_REG: u8 = 0x9f;
/// 64-bit bitwise exclusive or, immediate operand.
pub const XOR64_IMM: u8 = 0xa7;
/// 64-bit bitwise exclusive or, register operand.
pub const XOR64_REG: u8 = 0xaf;
/// 64-bit move, immediate operand.
pub const MOV64_IMM: u8 = 0xb7;
/// 64-bit move, register operand.
pub const MOV64_REG: u8 = 0xbf;
/// 64-bit arithmetic shift right, immediate operand.
pub const ARSH64_IMM: u8 = 0xc7;
/// 64-bit arithmetic shift right, register operand.
pub const ARSH64_REG: u8 = 0xcf;

// Jump opcodes. A taken branch adds the signed offset to the index of the
// instruction that follows the branch.

/// Unconditional jump.
pub const JA: u8 = 0x05;
/// Jump if `reg[dst] == imm` (unsigned).
pub const JEQ_IMM: u8 = 0x15;
/// Jump if `reg[dst] == reg[src]`.
pub const JEQ_REG: u8 = 0x1d;
/// Jump if `reg[dst] > imm` (unsigned).
pub const JGT_IMM: u8 = 0x25;
/// Jump if `reg[dst] > reg[src]` (unsigned).
pub const JGT_REG: u8 = 0x2d;
/// Jump if `reg[dst] >= imm` (unsigned).
pub const JGE_IMM: u8 = 0x35;
/// Jump if `reg[dst] >= reg[src]` (unsigned).
pub const JGE_REG: u8 = 0x3d;
/// Jump if `reg[dst] & imm != 0`.
pub const JSET_IMM: u8 = 0x45;
/// Jump if `reg[dst] & reg[src] != 0`.
pub const JSET_REG: u8 = 0x4d;
/// Jump if `reg[dst] != imm`.
pub const JNE_IMM: u8 = 0x55;
/// Jump if `reg[dst] != reg[src]`.
pub const JNE_REG: u8 = 0x5d;
/// Jump if `reg[dst] > imm` (signed).
pub const JSGT_IMM: u8 = 0x65;
/// Jump if `reg[dst] > reg[src]` (signed).
pub const JSGT_REG: u8 = 0x6d;
/// Jump if `reg[dst] >= imm` (signed).
pub const JSGE_IMM: u8 = 0x75;
/// Jump if `reg[dst] >= reg[src]` (signed).
pub const JSGE_REG: u8 = 0x7d;
/// Call the helper whose key is the immediate.
pub const CALL: u8 = 0x85;
/// Tail call (recognised, fatal at run time).
pub const TAIL_CALL: u8 = 0x8d;
/// Return `reg[0]`.
pub const EXIT: u8 = 0x95;

/// One decoded instruction.
#[derive(Clone, Copy, PartialEq, Eq, Structural, Debug)]
pub struct Insn {
    /// Operation code.
    pub opc: u8,
    /// Destination register index (low nibble of byte 1).
    pub dst: u8,
    /// Source register index (high nibble of byte 1).
    pub src: u8,
    /// Signed 16-bit offset.
    pub off: i16,
    /// Signed 32-bit immediate.
    pub imm: i32,
}

/// The instruction decoded from slot `idx` of `prog`.
pub open spec fn insn_at(prog: Seq<u8>, idx: int) -> Insn {
    Insn {
        opc: prog[8 * idx],
        dst: prog[8 * idx + 1] & 0x0f,
        src: prog[8 * idx + 1] >> 4,
        off: (((prog[8 * idx + 3] as u16) << 8) | (prog[8 * idx + 2] as u16)) as i16,
        imm: (((prog[8 * idx + 7] as u32) << 24) | ((prog[8 * idx + 6] as u32) << 16) | ((prog[8
            * idx + 5] as u32) << 8) | (prog[8 * idx + 4] as u32)) as i32,
    }
}

/// Decode the instruction at slot `idx` of `prog`.
pub fn get_insn(prog: &Vec<u8>, idx: usize) -> (insn: Insn)
    requires
        8 * idx + 8 <= prog.len(),
    ensures
        insn == insn_at(prog@, idx as int),
{
    Insn {
        opc: prog[8 * idx],
        dst: prog[8 * idx + 1] & 0x0f,
        src: prog[8 * idx + 1] >> 4,
        off: (((prog[8 * idx + 3] as u16) << 8) | (prog[8 * idx + 2] as u16)) as i16,
        imm: (((prog[8 * idx + 7] as u32) << 24) | ((prog[8 * idx + 6] as u32) << 16) | ((prog[8
            * idx + 5] as u32) << 8) | (prog[8 * idx + 4] as u32)) as i32,
    }
}

/// The 8-byte slot that encodes `insn`.
pub open spec fn insn_bytes(insn: Insn) -> Seq<u8> {
    seq![
        insn.opc,
        (insn.dst | (insn.src << 4)) as u8,
        insn.off as u8,
        ((insn.off as u16) >> 8) as u8,
        insn.imm as u8,
        ((insn.imm as u32) >> 8) as u8,
        ((insn.imm as u32) >> 16) as u8,
        ((insn.imm as u32) >> 24) as u8,
    ]
}

impl Insn {
    /// Encode this instruction as its 8-byte slot.
    pub fn to_vec(&self) -> (r: Vec<u8>)
        ensures
            r@ == insn_bytes(*self),
    {
        let mut r: Vec<u8> = Vec::new();
        r.push(self.opc);
        r.push(self.dst | (self.src << 4));
        r.push(self.off as u8);
        r.push(((self.off as u16) >> 8) as u8);
        r.push(self.imm as u8);
        r.push(((self.imm as u32) >> 8) as u8);
        r.push(((self.imm as u32) >> 16) as u8);
        r.push(((self.imm as u32) >> 24) as u8);
        proof {
            assert(r@ =~= insn_bytes(*self));
        }
        r
    }
}

/// Decoding a slot of a byte sequence and re-encoding the decoded record
/// yields the original 8 bytes, for every slot of every sequence whose
/// length covers it. Register indices above 15 cannot occur in a decoded
/// record, so the two nibbles recompose exactly.
pub proof fn lemma_insn_round_trip(prog: Seq<u8>, idx: int)
    requires
        0 <= idx,
        8 * idx + 8 <= prog.len(),
    ensures
        insn_bytes(insn_at(prog, idx)) == prog.subrange(8 * idx, 8 * idx + 8),
{
    let insn = insn_at(prog, idx);
    let b1 = prog[8 * idx + 1];
    let b2 = prog[8 * idx + 2];
    let b3 = prog[8 * idx + 3];
    let b4 = prog[8 * idx + 4];
    let b5 = prog[8 * idx + 5];
    let b6 = prog[8 * idx + 6];
    let b7 = prog[8 * idx + 7];
    assert(((b1 & 0x0f) | ((b1 >> 4) << 4)) as u8 == b1) by (bit_vector);
    assert({
        let o = (((b3 as u16) << 8) | (b2 as u16)) as i16;
        o as u8 == b2 && ((o as u16) >> 8) as u8 == b3
    }) by (bit_vector);
    assert({
        let m = (((b7 as u32) << 24) | ((b6 as u32) << 16) | ((b5 as u32) << 8) | (b4
            as u32)) as i32;
        m as u8 == b4 && ((m as u32) >> 8) as u8 == b5 && ((m as u32) >> 16) as u8 == b6 && ((m
            as u32) >> 24) as u8 == b7
    }) by (bit_vector);
    assert(insn_bytes(insn) =~= prog.subrange(8 * idx, 8 * idx + 8));
}

} // verus!
