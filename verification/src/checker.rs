//! Load-time verifier: a single pass over the instruction stream that rejects
//! programs violating the static invariants — a length that is zero or not a
//! multiple of 8, a last instruction other than EXIT, an unrecognised opcode,
//! a register index above 10, a write to the frame register, a branch whose
//! target falls outside the program, a division or modulus by a zero
//! immediate, and a wide immediate load in the last slot.
//!
//! The verifier does not model register values, memory aliasing, or helper
//! availability; the interpreter still performs dynamic memory-bounds and
//! helper-presence checks.

use vstd::prelude::*;

use crate::ebpf;
use crate::ebpf::{insn_at, Insn};
use crate::VmError;

verus! {

/// Number of instruction slots in `prog`.
pub open spec fn n_insns(prog: Seq<u8>) -> int {
    prog.len() as int / 8
}

/// Whether `opc` is a recognised opcode. Recognised opcodes include the
/// absolute and indirect loads, the atomic adds and the tail call, which the
/// interpreter recognises but faults on.
pub open spec fn opcode_known(opc: u8) -> bool {
    ||| opc == ebpf::LD_ABS_B
    ||| opc == ebpf::LD_ABS_H
    ||| opc == ebpf::LD_ABS_W
    ||| opc == ebpf::LD_ABS_DW
    ||| opc == ebpf::LD_IND_B
    ||| opc == ebpf::LD_IND_H
    ||| opc == ebpf::LD_IND_W
    ||| opc == ebpf::LD_IND_DW
    ||| opc == ebpf::LD_DW_IMM
    ||| opc == ebpf::LD_B_REG
    ||| opc == ebpf::LD_H_REG
    ||| opc == ebpf::LD_W_REG
    ||| opc == ebpf::LD_DW_REG
    ||| opc == ebpf::ST_B_IMM
    ||| opc == ebpf::ST_H_IMM
    ||| opc == ebpf::ST_W_IMM
    ||| opc == ebpf::ST_DW_IMM
    ||| opc == ebpf::ST_B_REG
    ||| opc == ebpf::ST_H_REG
    ||| opc == ebpf::ST_W_REG
    ||| opc == ebpf::ST_DW_REG
    ||| opc == ebpf::ST_W_XADD
    ||| opc == ebpf::ST_DW_XADD
    ||| is_alu32(opc)
    ||| is_alu64(opc)
    ||| is_branch(opc)
    ||| opc == ebpf::CALL
    ||| opc == ebpf::TAIL_CALL
    ||| opc == ebpf::EXIT
}

/// Whether `opc` is a 32-bit arithmetic opcode (including the endianness
/// conversions).
pub open spec fn is_alu32(opc: u8) -> bool {
    ||| opc == ebpf::ADD32_IMM
    ||| opc == ebpf::ADD32_REG
    ||| opc == ebpf::SUB32_IMM
    ||| opc == ebpf::SUB32_REG
    ||| opc == ebpf::MUL32_IMM
    ||| opc == ebpf::MUL32_REG
    ||| opc == ebpf::DIV32_IMM
    ||| opc == ebpf::DIV32_REG
    ||| opc == ebpf::OR32_IMM
    ||| opc == ebpf::OR32_REG
    ||| opc == ebpf::AND32_IMM
    ||| opc == ebpf::AND32_REG
    ||| opc == ebpf::LSH32_IMM
    ||| opc == ebpf::LSH32_REG
    ||| opc == ebpf::RSH32_IMM
    ||| opc == ebpf::RSH32_REG
    ||| opc == ebpf::NEG32
    ||| opc == ebpf::MOD32_IMM
    ||| opc == ebpf::MOD32_REG
    ||| opc == ebpf::XOR32_IMM
    ||| opc == ebpf::XOR32_REG
    ||| opc == ebpf::MOV32_IMM
    ||| opc == ebpf::MOV32_REG
    ||| opc == ebpf::ARSH32_IMM
    ||| opc == ebpf::ARSH32_REG
    ||| opc == ebpf::LE
    ||| opc == ebpf::BE
}

/// Whether `opc` is a 64-bit arithmetic opcode.
pub open spec fn is_alu64(opc: u8) -> bool {
    ||| opc == ebpf::ADD64_IMM
    ||| opc == ebpf::ADD64_REG
    ||| opc == ebpf::SUB64_IMM
    ||| opc == ebpf::SUB64_REG
    ||| opc == ebpf::MUL64_IMM
    ||| opc == ebpf::MUL64_REG
    ||| opc == ebpf::DIV64_IMM
    ||| opc == ebpf::DIV64_REG
    ||| opc == ebpf::OR64_IMM
    ||| opc == ebpf::OR64_REG
    ||| opc == ebpf::AND64_IMM
    ||| opc == ebpf::AND64_REG
    ||| opc == ebpf::LSH64_IMM
    ||| opc == ebpf::LSH64_REG
    ||| opc == ebpf::RSH64_IMM
    ||| opc == ebpf::RSH64_REG
    ||| opc == ebpf::NEG64
    ||| opc == ebpf::MOD64_IMM
    ||| opc == ebpf::MOD64_REG
    ||| opc == ebpf::XOR64_IMM
    ||| opc == ebpf::XOR64_REG
    ||| opc == ebpf::MOV64_IMM
    ||| opc == ebpf::MOV64_REG
    ||| opc == ebpf::ARSH64_IMM
    ||| opc == ebpf::ARSH64_REG
}

/// Whether `opc` is a branch: the unconditional jump or a conditional jump.
/// CALL and EXIT are not branches; their offset field is not a target.
pub open spec fn is_branch(opc: u8) -> bool {
    ||| opc == ebpf::JA
    ||| opc == ebpf::JEQ_IMM
    ||| opc == ebpf::JEQ_REG
    ||| opc == ebpf::JGT_IMM
    ||| opc == ebpf::JGT_REG
    ||| opc == ebpf::JGE_IMM
    ||| opc == ebpf::JGE_REG
    ||| opc == ebpf::JSET_IMM
    ||| opc == ebpf::JSET_REG
    ||| opc == ebpf::JNE_IMM
    ||| opc == ebpf::JNE_REG
    ||| opc == ebpf::JSGT_IMM
    ||| opc == ebpf::JSGT_REG
    ||| opc == ebpf::JSGE_IMM
    ||| opc == ebpf::JSGE_REG
}

/// Whether an instruction with opcode `opc` writes its destination register.
/// Store instructions use the destination field only as an address base, and
/// jumps do not write registers, so the frame register may appear there.
pub open spec fn writes_dst(opc: u8) -> bool {
    ||| is_alu32(opc)
    ||| is_alu64(opc)
    ||| opc == ebpf::LD_DW_IMM
    ||| opc == ebpf::LD_B_REG
    ||| opc == ebpf::LD_H_REG
    ||| opc == ebpf::LD_W_REG
    ||| opc == ebpf::LD_DW_REG
}

/// Whether `opc` is a division or modulus by immediate, whose immediate the
/// verifier requires to be non-zero.
pub open spec fn is_div_mod_imm(opc: u8) -> bool {
    ||| opc == ebpf::DIV32_IMM
    ||| opc == ebpf::DIV64_IMM
    ||| opc == ebpf::MOD32_IMM
    ||| opc == ebpf::MOD64_IMM
}

/// The verdict on the single instruction at slot `idx`, ignoring what follows.
pub open spec fn insn_check(prog: Seq<u8>, idx: int) -> Result<(), VmError> {
    let insn = insn_at(prog, idx);
    let n = n_insns(prog);
    if !opcode_known(insn.opc) {
        Err(VmError::UnknownOpcode { insn_ptr: idx as usize, opc: insn.opc })
    } else if insn.src > 10 || insn.dst > 10 {
        Err(VmError::InvalidRegister { insn_ptr: idx as usize })
    } else if writes_dst(insn.opc) && insn.dst == 10 {
        Err(VmError::WriteToFrameRegister { insn_ptr: idx as usize })
    } else if is_branch(insn.opc) && !(0 <= idx + 1 + insn.off < n) {
        Err(VmError::JumpOutOfBounds { insn_ptr: idx as usize })
    } else if is_div_mod_imm(insn.opc) && insn.imm == 0 {
        Err(VmError::ZeroDivisorImmediate { insn_ptr: idx as usize })
    } else if insn.opc == ebpf::LD_DW_IMM && idx + 1 >= n {
        Err(VmError::IncompleteWideInstruction { insn_ptr: idx as usize })
    } else {
        Ok(())
    }
}

/// The verdict of the scan from slot `idx` to the end of the program. The
/// second slot of a wide immediate load carries data, not an instruction,
/// and is skipped.
pub open spec fn scan(prog: Seq<u8>, idx: int) -> Result<(), VmError>
    decreases n_insns(prog) - idx,
{
    if idx < 0 || idx >= n_insns(prog) {
        Ok(())
    } else if insn_check(prog, idx) is Err {
        insn_check(prog, idx)
    } else if insn_at(prog, idx).opc == ebpf::LD_DW_IMM {
        scan(prog, idx + 2)
    } else {
        scan(prog, idx + 1)
    }
}

/// The verifier's verdict on `prog`: the length rules, then the terminal
/// EXIT, then the scan of every instruction slot.
pub open spec fn check_verdict(prog: Seq<u8>) -> Result<(), VmError> {
    if prog.len() == 0 || prog.len() % 8 != 0 {
        Err(VmError::InvalidProgramLength { len: prog.len() as usize })
    } else if insn_at(prog, n_insns(prog) - 1).opc != ebpf::EXIT {
        Err(VmError::NoTerminalExit)
    } else {
        scan(prog, 0)
    }
}

/// Whether the verifier accepts `prog`.
pub open spec fn wf_prog(prog: Seq<u8>) -> bool {
    check_verdict(prog) is Ok
}

/// An accepted program is non-empty, a whole number of slots, and ends in
/// EXIT.
pub proof fn lemma_wf_prog_facts(prog: Seq<u8>)
    requires
        wf_prog(prog),
    ensures
        prog.len() >= 8,
        prog.len() % 8 == 0,
        insn_at(prog, n_insns(prog) - 1).opc == ebpf::EXIT,
{
}

/// Check `prog` against the static invariants, reporting the first violation
/// in scan order.
pub fn check(prog: &Vec<u8>) -> (r: Result<(), VmError>)
    ensures
        r == check_verdict(prog@),
        r is Ok <==> wf_prog(prog@),
{
    if prog.len() == 0 || prog.len() % 8 != 0 {
        return Err(VmError::InvalidProgramLength { len: prog.len() });
    }
    let n = prog.len() / 8;
    if prog[8 * (n - 1)] != ebpf::EXIT {
        assert(insn_at(prog@, n_insns(prog@) - 1).opc == prog@[8 * (n - 1)]);
        return Err(VmError::NoTerminalExit);
    }
    let mut idx: usize = 0;
    while idx < n
        invariant
            n == n_insns(prog@),
            8 * n == prog.len(),
            0 <= idx <= n,
            check_verdict(prog@) == scan(prog@, 0),
            scan(prog@, 0) == scan(prog@, idx as int),
        decreases n - idx,
    {
        let insn = ebpf::get_insn(prog, idx);
        if let Err(e) = insn_check_exec(prog, idx, n, insn) {
            return Err(e);
        }
        if insn.opc == ebpf::LD_DW_IMM {
            idx += 2;
        } else {
            idx += 1;
        }
    }
    Ok(())
}

/// Check the single instruction at slot `idx`.
fn insn_check_exec(prog: &Vec<u8>, idx: usize, n: usize, insn: Insn) -> (r: Result<(), VmError>)
    requires
        8 * n == prog.len(),
        idx < n,
        insn == insn_at(prog@, idx as int),
    ensures
        r == insn_check(prog@, idx as int),
{
    if !opcode_known_exec(insn.opc) {
        Err(VmError::UnknownOpcode { insn_ptr: idx, opc: insn.opc })
    } else if insn.src > 10 || insn.dst > 10 {
        Err(VmError::InvalidRegister { insn_ptr: idx })
    } else if writes_dst_exec(insn.opc) && insn.dst == 10 {
        Err(VmError::WriteToFrameRegister { insn_ptr: idx })
    } else if is_branch_exec(insn.opc) && {
        let t: i64 = idx as i64 + 1 + insn.off as i64;
        !(0 <= t && t < n as i64)
    } {
        Err(VmError::JumpOutOfBounds { insn_ptr: idx })
    } else if is_div_mod_imm_exec(insn.opc) && insn.imm == 0 {
        Err(VmError::ZeroDivisorImmediate { insn_ptr: idx })
    } else if insn.opc == ebpf::LD_DW_IMM && idx + 1 >= n {
        Err(VmError::IncompleteWideInstruction { insn_ptr: idx })
    } else {
        Ok(())
    }
}

/// Whether `opc` is a recognised opcode.
pub fn opcode_known_exec(opc: u8) -> (r: bool)
    ensures
        r == opcode_known(opc),
{
    match opc {
        ebpf::LD_ABS_B | ebpf::LD_ABS_H | ebpf::LD_ABS_W | ebpf::LD_ABS_DW | ebpf::LD_IND_B
            | ebpf::LD_IND_H | ebpf::LD_IND_W | ebpf::LD_IND_DW | ebpf::LD_DW_IMM
            | ebpf::LD_B_REG | ebpf::LD_H_REG | ebpf::LD_W_REG | ebpf::LD_DW_REG | ebpf::ST_B_IMM
            | ebpf::ST_H_IMM | ebpf::ST_W_IMM | ebpf::ST_DW_IMM | ebpf::ST_B_REG | ebpf::ST_H_REG
            | ebpf::ST_W_REG | ebpf::ST_DW_REG | ebpf::ST_W_XADD | ebpf::ST_DW_XADD
            | ebpf::CALL | ebpf::TAIL_CALL | ebpf::EXIT => true,
        _ => is_alu32_exec(opc) || is_alu64_exec(opc) || is_branch_exec(opc),
    }
}

/// Whether `opc` is a 32-bit arithmetic opcode.
fn is_alu32_exec(opc: u8) -> (r: bool)
    ensures
        r == is_alu32(opc),
{
    match opc {
        ebpf::ADD32_IMM | ebpf::ADD32_REG | ebpf::SUB32_IMM | ebpf::SUB32_REG | ebpf::MUL32_IMM
            | ebpf::MUL32_REG | ebpf::DIV32_IMM | ebpf::DIV32_REG | ebpf::OR32_IMM
            | ebpf::OR32_REG | ebpf::AND32_IMM | ebpf::AND32_REG | ebpf::LSH32_IMM
            | ebpf::LSH32_REG | ebpf::RSH32_IMM | ebpf::RSH32_REG | ebpf::NEG32
            | ebpf::MOD32_IMM | ebpf::MOD32_REG | ebpf::XOR32_IMM | ebpf::XOR32_REG
            | ebpf::MOV32_IMM | ebpf::MOV32_REG | ebpf::ARSH32_IMM | ebpf::ARSH32_REG | ebpf::LE
            | ebpf::BE => true,
        _ => false,
    }
}

/// Whether `opc` is a 64-bit arithmetic opcode.
fn is_alu64_exec(opc: u8) -> (r: bool)
    ensures
        r == is_alu64(opc),
{
    match opc {
        ebpf::ADD64_IMM | ebpf::ADD64_REG | ebpf::SUB64_IMM | ebpf::SUB64_REG | ebpf::MUL64_IMM
            | ebpf::MUL64_REG | ebpf::DIV64_IMM | ebpf::DIV64_REG | ebpf::OR64_IMM
            | ebpf::OR64_REG | ebpf::AND64_IMM | ebpf::AND64_REG | ebpf::LSH64_IMM
            | ebpf::LSH64_REG | ebpf::RSH64_IMM | ebpf::RSH64_REG | ebpf::NEG64
            | ebpf::MOD64_IMM | ebpf::MOD64_REG | ebpf::XOR64_IMM | ebpf::XOR64_REG
            | ebpf::MOV64_IMM | ebpf::MOV64_REG | ebpf::ARSH64_IMM | ebpf::ARSH64_REG => true,
        _ => false,
    }
}

/// Whether `opc` is a branch.
fn is_branch_exec(opc: u8) -> (r: bool)
    ensures
        r == is_branch(opc),
{
    match opc {
        ebpf::JA | ebpf::JEQ_IMM | ebpf::JEQ_REG | ebpf::JGT_IMM | ebpf::JGT_REG | ebpf::JGE_IMM
            | ebpf::JGE_REG | ebpf::JSET_IMM | ebpf::JSET_REG | ebpf::JNE_IMM | ebpf::JNE_REG
            | ebpf::JSGT_IMM | ebpf::JSGT_REG | ebpf::JSGE_IMM | ebpf::JSGE_REG => true,
        _ => false,
    }
}

/// Whether an instruction with opcode `opc` writes its destination register.
fn writes_dst_exec(opc: u8) -> (r: bool)
    ensures
        r == writes_dst(opc),
{
    match opc {
        ebpf::LD_DW_IMM | ebpf::LD_B_REG | ebpf::LD_H_REG | ebpf::LD_W_REG | ebpf::LD_DW_REG =>
            true,
        _ => is_alu32_exec(opc) || is_alu64_exec(opc),
    }
}

/// Whether `opc` is a division or modulus by immediate.
fn is_div_mod_imm_exec(opc: u8) -> (r: bool)
    ensures
        r == is_div_mod_imm(opc),
{
    match opc {
        ebpf::DIV32_IMM | ebpf::DIV64_IMM | ebpf::MOD32_IMM | ebpf::MOD64_IMM => true,
        _ => false,
    }
}

} // verus!
