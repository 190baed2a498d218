//! The machine model: the mathematical small-step semantics that the
//! interpreter is proved to implement.
//!
//! A state holds the eleven registers, the instruction slot index, and the
//! contents of the three memory regions. Addresses are logical: each region
//! lies at a fixed base address, and every load or store resolves its address
//! against the three regions through the memory guard. Multi-byte loads and
//! stores use the engine's native byte order, which is little-endian.

use vstd::prelude::*;

use crate::ebpf;
use crate::ebpf::{insn_at, Insn};
use crate::{helper_result, HelperFn, VmError};

verus! {

/// Base address of the metadata buffer region.
pub const MBUFF_BASE: u64 = 0x2000_0000_0000_0000;

/// Base address of the packet region.
pub const MEM_BASE: u64 = 0x4000_0000_0000_0000;

/// Base address of the stack region. The frame register starts at
/// `STACK_BASE + STACK_SIZE`, one past the top of the stack.
pub const STACK_BASE: u64 = 0x6000_0000_0000_0000;

/// What an execution runs against: the program and the helper table. The
/// three region base addresses are fixed constants of the machine.
pub struct VmEnv {
    /// The program bytes.
    pub prog: Seq<u8>,
    /// The registered helpers, keyed by 32-bit key.
    pub helpers: Map<u32, HelperFn>,
}

/// One machine state: registers, instruction slot index, and the contents of
/// the three memory regions.
pub struct MachineState {
    /// The eleven registers.
    pub regs: Seq<u64>,
    /// The instruction slot index.
    pub pc: int,
    /// Contents of the metadata buffer region.
    pub mbuff: Seq<u8>,
    /// Contents of the packet region.
    pub mem: Seq<u8>,
    /// Contents of the stack region.
    pub stack: Seq<u8>,
}

/// The outcome of one step: the next state, a normal return carrying the
/// returned value, or an abort carrying its diagnostic. The final state is
/// kept in every case, so that memory side effects stay visible.
pub enum StepOutcome {
    /// Execution continues in this state.
    Next(MachineState),
    /// Execution returned normally with this value.
    Halt(u64, MachineState),
    /// Execution aborted with this diagnostic.
    Fault(VmError, MachineState),
}

/// Which of the three permitted regions an access resolved to.
#[derive(Clone, Copy, PartialEq, Eq, Structural, Debug)]
pub enum MemRegion {
    /// The metadata buffer.
    MBuff,
    /// The packet memory.
    Packet,
    /// The private stack.
    Stack,
}

/// Whether the access of `w` bytes at `addr` lies wholly inside the region of
/// `rlen` bytes at `base`, with no 64-bit wraparound: an access whose end
/// would overflow a 64-bit address is rejected.
pub open spec fn region_ok(base: u64, rlen: int, addr: u64, w: int) -> bool {
    &&& base <= addr
    &&& addr + w <= base + rlen
    &&& addr + w <= u64::MAX
}

/// Whether the access of `w` bytes at `addr` lies wholly inside one of the
/// three permitted regions, given their lengths.
pub open spec fn guard_ok(mbuff_len: int, mem_len: int, stack_len: int, addr: u64, w: int) -> bool {
    ||| region_ok(MBUFF_BASE, mbuff_len, addr, w)
    ||| region_ok(MEM_BASE, mem_len, addr, w)
    ||| region_ok(STACK_BASE, stack_len, addr, w)
}

/// The region an access of `w` bytes at `addr` resolves to, and the byte
/// offset of the access inside it; `None` when the guard rejects the access.
/// Regions are tried in a fixed order: metadata buffer, packet, stack.
pub open spec fn resolve(
    mbuff_len: int,
    mem_len: int,
    stack_len: int,
    addr: u64,
    w: int,
) -> Option<(MemRegion, int)> {
    if region_ok(MBUFF_BASE, mbuff_len, addr, w) {
        Some((MemRegion::MBuff, addr - MBUFF_BASE))
    } else if region_ok(MEM_BASE, mem_len, addr, w) {
        Some((MemRegion::Packet, addr - MEM_BASE))
    } else if region_ok(STACK_BASE, stack_len, addr, w) {
        Some((MemRegion::Stack, addr - STACK_BASE))
    } else {
        None
    }
}

/// The value read little-endian from `w` bytes of `r` starting at `off`.
pub open spec fn read_le(r: Seq<u8>, off: int, w: int) -> u64 {
    if w == 1 {
        r[off] as u64
    } else if w == 2 {
        ((r[off + 1] as u64) << 8) | (r[off] as u64)
    } else if w == 4 {
        ((r[off + 3] as u64) << 24) | ((r[off + 2] as u64) << 16) | ((r[off + 1] as u64) << 8) | (
        r[off] as u64)
    } else {
        ((r[off + 7] as u64) << 56) | ((r[off + 6] as u64) << 48) | ((r[off + 5] as u64) << 40) | ((
        r[off + 4] as u64) << 32) | ((r[off + 3] as u64) << 24) | ((r[off + 2] as u64) << 16) | ((
        r[off + 1] as u64) << 8) | (r[off] as u64)
    }
}

/// `r` with the low `w` bytes of `v` written little-endian at `off`.
pub open spec fn write_le(r: Seq<u8>, off: int, w: int, v: u64) -> Seq<u8> {
    if w == 1 {
        r.update(off, v as u8)
    } else if w == 2 {
        r.update(off, v as u8).update(off + 1, (v >> 8) as u8)
    } else if w == 4 {
        r.update(off, v as u8).update(off + 1, (v >> 8) as u8).update(off + 2, (v >> 16) as u8)
            .update(off + 3, (v >> 24) as u8)
    } else {
        r.update(off, v as u8).update(off + 1, (v >> 8) as u8).update(off + 2, (v >> 16) as u8)
            .update(off + 3, (v >> 24) as u8).update(off + 4, (v >> 32) as u8).update(
            off + 5,
            (v >> 40) as u8,
        ).update(off + 6, (v >> 48) as u8).update(off + 7, (v >> 56) as u8)
    }
}

/// The 16-bit value with its two bytes exchanged.
pub open spec fn swap16(v: u16) -> u16 {
    (v >> 8) | (v << 8)
}

/// The 32-bit value with its four bytes reversed.
pub open spec fn swap32(v: u32) -> u32 {
    ((v & 0xff) << 24) | ((v & 0xff00) << 8) | ((v >> 8) & 0xff00) | ((v >> 24) & 0xff)
}

/// The 64-bit value with its eight bytes reversed.
pub open spec fn swap64(v: u64) -> u64 {
    ((v & 0xff) << 56) | ((v & 0xff00) << 40) | ((v & 0xff_0000) << 24) | ((v & 0xff00_0000) << 8)
        | ((v >> 8) & 0xff00_0000) | ((v >> 24) & 0xff_0000) | ((v >> 40) & 0xff00) | ((v >> 56)
        & 0xff)
}

/// The entry state: registers zeroed except the frame register, which points
/// one past the top of the stack, and register 1, which holds the base of the
/// metadata buffer if non-empty, else the base of the packet memory if
/// non-empty, else zero. The stack starts zeroed.
pub open spec fn init_state(mbuff: Seq<u8>, mem: Seq<u8>) -> MachineState {
    MachineState {
        regs: seq![
            0u64,
            if mbuff.len() > 0 {
                MBUFF_BASE
            } else if mem.len() > 0 {
                MEM_BASE
            } else {
                0u64
            },
            0u64,
            0u64,
            0u64,
            0u64,
            0u64,
            0u64,
            0u64,
            0u64,
            (STACK_BASE + 512) as u64,
        ],
        pc: 0,
        mbuff: mbuff,
        mem: mem,
        stack: Seq::new(512, |i: int| 0u8),
    }
}

/// The state `s` with register `dst` set to `v`, unless `dst` is not a valid
/// register index, which aborts.
pub open spec fn wreg(s: MachineState, at: usize, dst: u8, v: u64) -> StepOutcome {
    if dst > 10 {
        StepOutcome::Fault(VmError::InvalidRegister { insn_ptr: at }, s)
    } else {
        StepOutcome::Next(MachineState { regs: s.regs.update(dst as int, v), ..s })
    }
}

/// As [`wreg`], but also requiring `src` to be a valid register index.
pub open spec fn wreg2(s: MachineState, at: usize, dst: u8, src: u8, v: u64) -> StepOutcome {
    if dst > 10 || src > 10 {
        StepOutcome::Fault(VmError::InvalidRegister { insn_ptr: at }, s)
    } else {
        StepOutcome::Next(MachineState { regs: s.regs.update(dst as int, v), ..s })
    }
}

/// A branch: when taken, the signed offset is added to the index of the
/// instruction that follows the branch, which `s.pc` already holds. A target
/// outside the program ends the run as falling off the end does, returning 0.
pub open spec fn branch(env: VmEnv, s: MachineState, off: i16, taken: bool) -> StepOutcome {
    if !taken {
        StepOutcome::Next(s)
    } else {
        let t = s.pc + off;
        if 0 <= t && 8 * t + 8 <= env.prog.len() {
            StepOutcome::Next(MachineState { pc: t, ..s })
        } else {
            StepOutcome::Halt(0, s)
        }
    }
}

/// A conditional branch testing register `dst` (against an immediate).
pub open spec fn branch_dst(
    env: VmEnv,
    s: MachineState,
    at: usize,
    dst: u8,
    off: i16,
    taken: bool,
) -> StepOutcome {
    if dst > 10 {
        StepOutcome::Fault(VmError::InvalidRegister { insn_ptr: at }, s)
    } else {
        branch(env, s, off, taken)
    }
}

/// A conditional branch testing registers `dst` and `src`.
pub open spec fn branch_dst_src(
    env: VmEnv,
    s: MachineState,
    at: usize,
    dst: u8,
    src: u8,
    off: i16,
    taken: bool,
) -> StepOutcome {
    if dst > 10 || src > 10 {
        StepOutcome::Fault(VmError::InvalidRegister { insn_ptr: at }, s)
    } else {
        branch(env, s, off, taken)
    }
}

/// The out-of-bounds diagnostic for an access of `w` bytes at `addr`.
pub open spec fn oob_error(s: MachineState, at: usize, addr: u64, w: int) -> VmError {
    VmError::OutOfBoundsAccess {
        insn_ptr: at,
        addr: addr,
        width: w as u64,
        mbuff_base: MBUFF_BASE,
        mbuff_len: s.mbuff.len() as u64,
        mem_base: MEM_BASE,
        mem_len: s.mem.len() as u64,
        stack_base: STACK_BASE,
        stack_len: s.stack.len() as u64,
    }
}

/// A load of `w` bytes at `reg[src] + off` into register `dst`: the guard
/// admits the access or the execution aborts.
pub open spec fn do_load(s: MachineState, at: usize, insn: Insn, w: int) -> StepOutcome {
    if insn.dst > 10 || insn.src > 10 {
        StepOutcome::Fault(VmError::InvalidRegister { insn_ptr: at }, s)
    } else {
        let addr = s.regs[insn.src as int].wrapping_add(insn.off as u64);
        match resolve(s.mbuff.len() as int, s.mem.len() as int, s.stack.len() as int, addr, w) {
            Some((region, off)) => {
                let v = match region {
                    MemRegion::MBuff => read_le(s.mbuff, off, w),
                    MemRegion::Packet => read_le(s.mem, off, w),
                    MemRegion::Stack => read_le(s.stack, off, w),
                };
                StepOutcome::Next(MachineState { regs: s.regs.update(insn.dst as int, v), ..s })
            },
            None => StepOutcome::Fault(oob_error(s, at, addr, w), s),
        }
    }
}

/// A store of the low `w` bytes of `v` at `reg[dst] + off`: the guard admits
/// the access or the execution aborts. `src_ok` is whether the operand needed
/// a valid source register.
pub open spec fn do_store(
    s: MachineState,
    at: usize,
    insn: Insn,
    w: int,
    v: u64,
    src_ok: bool,
) -> StepOutcome {
    if insn.dst > 10 || !src_ok {
        StepOutcome::Fault(VmError::InvalidRegister { insn_ptr: at }, s)
    } else {
        let addr = s.regs[insn.dst as int].wrapping_add(insn.off as u64);
        match resolve(s.mbuff.len() as int, s.mem.len() as int, s.stack.len() as int, addr, w) {
            Some((region, off)) => StepOutcome::Next(
                match region {
                    MemRegion::MBuff => MachineState {
                        mbuff: write_le(s.mbuff, off, w, v),
                        ..s
                    },
                    MemRegion::Packet => MachineState { mem: write_le(s.mem, off, w, v), ..s },
                    MemRegion::Stack => MachineState { stack: write_le(s.stack, off, w, v), ..s },
                },
            ),
            None => StepOutcome::Fault(oob_error(s, at, addr, w), s),
        }
    }
}

/// A 32-bit division or modulus: the truncated divisor must be non-zero.
/// `modulus` selects modulus over division.
pub open spec fn div_mod32(
    s: MachineState,
    at: usize,
    dst: u8,
    regs_ok: bool,
    y: u32,
    modulus: bool,
) -> StepOutcome {
    if dst > 10 || !regs_ok {
        StepOutcome::Fault(VmError::InvalidRegister { insn_ptr: at }, s)
    } else if y == 0 {
        StepOutcome::Fault(VmError::DivisionByZero { insn_ptr: at }, s)
    } else {
        let x = s.regs[dst as int] as u32;
        let r = if modulus {
            x % y
        } else {
            x / y
        };
        StepOutcome::Next(MachineState { regs: s.regs.update(dst as int, r as u64), ..s })
    }
}

/// A 64-bit division or modulus: the divisor must be non-zero.
pub open spec fn div_mod64(
    s: MachineState,
    at: usize,
    dst: u8,
    regs_ok: bool,
    y: u64,
    modulus: bool,
) -> StepOutcome {
    if dst > 10 || !regs_ok {
        StepOutcome::Fault(VmError::InvalidRegister { insn_ptr: at }, s)
    } else if y == 0 {
        StepOutcome::Fault(VmError::DivisionByZero { insn_ptr: at }, s)
    } else {
        let x = s.regs[dst as int];
        let r = if modulus {
            x % y
        } else {
            x / y
        };
        StepOutcome::Next(MachineState { regs: s.regs.update(dst as int, r), ..s })
    }
}

/// The effect of the instruction `insn`, decoded from slot `at`, on the state
/// `s`, whose slot index already points past the instruction.
pub open spec fn step_insn(env: VmEnv, s: MachineState, insn: Insn, at: usize) -> StepOutcome {
    let opc = insn.opc;
    let dst = insn.dst;
    let src = insn.src;
    let x = s.regs[dst as int];
    let y = s.regs[src as int];
    let x32 = x as u32;
    let imm32 = insn.imm as u32;
    let imm64 = insn.imm as u64;
    if opc == ebpf::LD_DW_IMM {
        let next = insn_at(env.prog, s.pc);
        let v = ((next.imm as u64) << 32) | (imm32 as u64);
        wreg(MachineState { pc: s.pc + 1, ..s }, at, dst, v)
    } else if opc == ebpf::LD_B_REG {
        do_load(s, at, insn, 1)
    } else if opc == ebpf::LD_H_REG {
        do_load(s, at, insn, 2)
    } else if opc == ebpf::LD_W_REG {
        do_load(s, at, insn, 4)
    } else if opc == ebpf::LD_DW_REG {
        do_load(s, at, insn, 8)
    } else if opc == ebpf::ST_B_IMM {
        do_store(s, at, insn, 1, imm64, true)
    } else if opc == ebpf::ST_H_IMM {
        do_store(s, at, insn, 2, imm64, true)
    } else if opc == ebpf::ST_W_IMM {
        do_store(s, at, insn, 4, imm64, true)
    } else if opc == ebpf::ST_DW_IMM {
        do_store(s, at, insn, 8, imm64, true)
    } else if opc == ebpf::ST_B_REG {
        do_store(s, at, insn, 1, y, src <= 10)
    } else if opc == ebpf::ST_H_REG {
        do_store(s, at, insn, 2, y, src <= 10)
    } else if opc == ebpf::ST_W_REG {
        do_store(s, at, insn, 4, y, src <= 10)
    } else if opc == ebpf::ST_DW_REG {
        do_store(s, at, insn, 8, y, src <= 10)
    } else if opc == ebpf::ADD32_IMM {
        wreg(s, at, dst, x32.wrapping_add(imm32) as u64)
    } else if opc == ebpf::ADD32_REG {
        wreg2(s, at, dst, src, x32.wrapping_add(y as u32) as u64)
    } else if opc == ebpf::SUB32_IMM {
        wreg(s, at, dst, x32.wrapping_sub(imm32) as u64)
    } else if opc == ebpf::SUB32_REG {
        wreg2(s, at, dst, src, x32.wrapping_sub(y as u32) as u64)
    } else if opc == ebpf::MUL32_IMM {
        wreg(s, at, dst, x32.wrapping_mul(imm32) as u64)
    } else if opc == ebpf::MUL32_REG {
        wreg2(s, at, dst, src, x32.wrapping_mul(y as u32) as u64)
    } else if opc == ebpf::DIV32_IMM {
        div_mod32(s, at, dst, true, imm32, false)
    } else if opc == ebpf::DIV32_REG {
        div_mod32(s, at, dst, src <= 10, y as u32, false)
    } else if opc == ebpf::OR32_IMM {
        wreg(s, at, dst, (x32 | imm32) as u64)
    } else if opc == ebpf::OR32_REG {
        wreg2(s, at, dst, src, (x32 | (y as u32)) as u64)
    } else if opc == ebpf::AND32_IMM {
        wreg(s, at, dst, (x32 & imm32) as u64)
    } else if opc == ebpf::AND32_REG {
        wreg2(s, at, dst, src, (x32 & (y as u32)) as u64)
    } else if opc == ebpf::LSH32_IMM {
        wreg(s, at, dst, x32.wrapping_shl(imm32) as u64)
    } else if opc == ebpf::LSH32_REG {
        wreg2(s, at, dst, src, x32.wrapping_shl(y as u32) as u64)
    } else if opc == ebpf::RSH32_IMM {
        wreg(s, at, dst, x32.wrapping_shr(imm32) as u64)
    } else if opc == ebpf::RSH32_REG {
        wreg2(s, at, dst, src, x32.wrapping_shr(y as u32) as u64)
    } else if opc == ebpf::NEG32 {
        wreg(s, at, dst, 0u32.wrapping_sub(x32) as u64)
    } else if opc == ebpf::MOD32_IMM {
        div_mod32(s, at, dst, true, imm32, true)
    } else if opc == ebpf::MOD32_REG {
        div_mod32(s, at, dst, src <= 10, y as u32, true)
    } else if opc == ebpf::XOR32_IMM {
        wreg(s, at, dst, (x32 ^ imm32) as u64)
    } else if opc == ebpf::XOR32_REG {
        wreg2(s, at, dst, src, (x32 ^ (y as u32)) as u64)
    } else if opc == ebpf::MOV32_IMM {
        wreg(s, at, dst, imm32 as u64)
    } else if opc == ebpf::MOV32_REG {
        wreg2(s, at, dst, src, (y as u32) as u64)
    } else if opc == ebpf::ARSH32_IMM {
        wreg(s, at, dst, ((x32 as i32).wrapping_shr(imm32) as u32) as u64)
    } else if opc == ebpf::ARSH32_REG {
        wreg2(s, at, dst, src, ((x32 as i32).wrapping_shr(y as u32) as u32) as u64)
    } else if opc == ebpf::LE {
        // The engine's native order is little-endian: LE truncates to the
        // requested width and zero-extends.
        if insn.imm == 16 {
            wreg(s, at, dst, (x as u16) as u64)
        } else if insn.imm == 32 {
            wreg(s, at, dst, (x as u32) as u64)
        } else if insn.imm == 64 {
            wreg(s, at, dst, x)
        } else {
            StepOutcome::Fault(VmError::BadEndiannessWidth { insn_ptr: at, imm: insn.imm }, s)
        }
    } else if opc == ebpf::BE {
        if insn.imm == 16 {
            wreg(s, at, dst, swap16(x as u16) as u64)
        } else if insn.imm == 32 {
            wreg(s, at, dst, swap32(x as u32) as u64)
        } else if insn.imm == 64 {
            wreg(s, at, dst, swap64(x))
        } else {
            StepOutcome::Fault(VmError::BadEndiannessWidth { insn_ptr: at, imm: insn.imm }, s)
        }
    } else if opc == ebpf::ADD64_IMM {
        wreg(s, at, dst, x.wrapping_add(imm64))
    } else if opc == ebpf::ADD64_REG {
        wreg2(s, at, dst, src, x.wrapping_add(y))
    } else if opc == ebpf::SUB64_IMM {
        wreg(s, at, dst, x.wrapping_sub(imm64))
    } else if opc == ebpf::SUB64_REG {
        wreg2(s, at, dst, src, x.wrapping_sub(y))
    } else if opc == ebpf::MUL64_IMM {
        wreg(s, at, dst, x.wrapping_mul(imm64))
    } else if opc == ebpf::MUL64_REG {
        wreg2(s, at, dst, src, x.wrapping_mul(y))
    } else if opc == ebpf::DIV64_IMM {
        div_mod64(s, at, dst, true, imm64, false)
    } else if opc == ebpf::DIV64_REG {
        div_mod64(s, at, dst, src <= 10, y, false)
    } else if opc == ebpf::OR64_IMM {
        wreg(s, at, dst, x | imm64)
    } else if opc == ebpf::OR64_REG {
        wreg2(s, at, dst, src, x | y)
    } else if opc == ebpf::AND64_IMM {
        wreg(s, at, dst, x & imm64)
    } else if opc == ebpf::AND64_REG {
        wreg2(s, at, dst, src, x & y)
    } else if opc == ebpf::LSH64_IMM {
        wreg(s, at, dst, x.wrapping_shl(imm32))
    } else if opc == ebpf::LSH64_REG {
        wreg2(s, at, dst, src, x.wrapping_shl(y as u32))
    } else if opc == ebpf::RSH64_IMM {
        wreg(s, at, dst, x.wrapping_shr(imm32))
    } else if opc == ebpf::RSH64_REG {
        wreg2(s, at, dst, src, x.wrapping_shr(y as u32))
    } else if opc == ebpf::NEG64 {
        wreg(s, at, dst, 0u64.wrapping_sub(x))
    } else if opc == ebpf::MOD64_IMM {
        div_mod64(s, at, dst, true, imm64, true)
    } else if opc == ebpf::MOD64_REG {
        div_mod64(s, at, dst, src <= 10, y, true)
    } else if opc == ebpf::XOR64_IMM {
        wreg(s, at, dst, x ^ imm64)
    } else if opc == ebpf::XOR64_REG {
        wreg2(s, at, dst, src, x ^ y)
    } else if opc == ebpf::MOV64_IMM {
        wreg(s, at, dst, imm64)
    } else if opc == ebpf::MOV64_REG {
        wreg2(s, at, dst, src, y)
    } else if opc == ebpf::ARSH64_IMM {
        wreg(s, at, dst, (x as i64).wrapping_shr(imm32) as u64)
    } else if opc == ebpf::ARSH64_REG {
        wreg2(s, at, dst, src, (x as i64).wrapping_shr(y as u32) as u64)
    } else if opc == ebpf::JA {
        branch(env, s, insn.off, true)
    } else if opc == ebpf::JEQ_IMM {
        branch_dst(env, s, at, dst, insn.off, x == imm64)
    } else if opc == ebpf::JEQ_REG {
        branch_dst_src(env, s, at, dst, src, insn.off, x == y)
    } else if opc == ebpf::JGT_IMM {
        branch_dst(env, s, at, dst, insn.off, x > imm64)
    } else if opc == ebpf::JGT_REG {
        branch_dst_src(env, s, at, dst, src, insn.off, x > y)
    } else if opc == ebpf::JGE_IMM {
        branch_dst(env, s, at, dst, insn.off, x >= imm64)
    } else if opc == ebpf::JGE_REG {
        branch_dst_src(env, s, at, dst, src, insn.off, x >= y)
    } else if opc == ebpf::JSET_IMM {
        branch_dst(env, s, at, dst, insn.off, x & imm64 != 0)
    } else if opc == ebpf::JSET_REG {
        branch_dst_src(env, s, at, dst, src, insn.off, x & y != 0)
    } else if opc == ebpf::JNE_IMM {
        branch_dst(env, s, at, dst, insn.off, x != imm64)
    } else if opc == ebpf::JNE_REG {
        branch_dst_src(env, s, at, dst, src, insn.off, x != y)
    } else if opc == ebpf::JSGT_IMM {
        branch_dst(env, s, at, dst, insn.off, (x as i64) > (insn.imm as i64))
    } else if opc == ebpf::JSGT_REG {
        branch_dst_src(env, s, at, dst, src, insn.off, (x as i64) > (y as i64))
    } else if opc == ebpf::JSGE_IMM {
        branch_dst(env, s, at, dst, insn.off, (x as i64) >= (insn.imm as i64))
    } else if opc == ebpf::JSGE_REG {
        branch_dst_src(env, s, at, dst, src, insn.off, (x as i64) >= (y as i64))
    } else if opc == ebpf::CALL {
        let key = insn.imm as u32;
        if env.helpers.contains_key(key) {
            let r = helper_result(
                env.helpers[key],
                s.regs[1],
                s.regs[2],
                s.regs[3],
                s.regs[4],
                s.regs[5],
            );
            StepOutcome::Next(MachineState { regs: s.regs.update(0, r), ..s })
        } else {
            StepOutcome::Fault(VmError::UnknownHelper { insn_ptr: at, key: key }, s)
        }
    } else if opc == ebpf::EXIT {
        StepOutcome::Halt(s.regs[0], s)
    } else if opc == ebpf::LD_ABS_B || opc == ebpf::LD_ABS_H || opc == ebpf::LD_ABS_W || opc
        == ebpf::LD_ABS_DW || opc == ebpf::LD_IND_B || opc == ebpf::LD_IND_H || opc
        == ebpf::LD_IND_W || opc == ebpf::LD_IND_DW || opc == ebpf::ST_W_XADD || opc
        == ebpf::ST_DW_XADD || opc == ebpf::TAIL_CALL {
        StepOutcome::Fault(VmError::UnimplementedInstruction { insn_ptr: at, opc: opc }, s)
    } else {
        StepOutcome::Fault(VmError::UnknownOpcode { insn_ptr: at, opc: opc }, s)
    }
}

/// One step of the machine: fetch the instruction at the slot index, advance
/// the index past it, and apply the instruction's effect. Falling off the end
/// of the program ends the run with value 0.
pub open spec fn step(env: VmEnv, s: MachineState) -> StepOutcome {
    if s.pc < 0 || 8 * s.pc + 8 > env.prog.len() {
        StepOutcome::Halt(0, s)
    } else {
        let insn = insn_at(env.prog, s.pc);
        step_insn(env, MachineState { pc: s.pc + 1, ..s }, insn, s.pc as usize)
    }
}

/// The outcome after at most `n` steps from `s`: either still running, or
/// the halt or fault in which the run ended.
pub open spec fn run_n(env: VmEnv, s: MachineState, n: nat) -> StepOutcome
    decreases n,
{
    if n == 0 {
        StepOutcome::Next(s)
    } else {
        match run_n(env, s, (n - 1) as nat) {
            StepOutcome::Next(s2) => step(env, s2),
            o => o,
        }
    }
}

/// Whether the run outcome `o` is final and matches the returned result `r`
/// and the final contents of the two caller-visible regions.
pub open spec fn outcome_matches(
    o: StepOutcome,
    r: Result<u64, VmError>,
    mbuff: Seq<u8>,
    mem: Seq<u8>,
) -> bool {
    match o {
        StepOutcome::Halt(v, s) => r == Ok::<u64, VmError>(v) && s.mbuff == mbuff && s.mem == mem,
        StepOutcome::Fault(e, s) => r == Err::<u64, VmError>(e) && s.mbuff == mbuff && s.mem
            == mem,
        StepOutcome::Next(_) => false,
    }
}

/// Whether running `prog` with helper table `helpers` on initial region
/// contents `mbuff0` and `mem0` can end with result `r` and final region
/// contents `mbuff1` and `mem1`: some number of steps from the entry state
/// reaches exactly that outcome.
pub open spec fn runs_to(
    prog: Seq<u8>,
    helpers: Map<u32, HelperFn>,
    mbuff0: Seq<u8>,
    mem0: Seq<u8>,
    r: Result<u64, VmError>,
    mbuff1: Seq<u8>,
    mem1: Seq<u8>,
) -> bool {
    exists|n: nat|
        outcome_matches(
            run_n(VmEnv { prog, helpers }, init_state(mbuff0, mem0), n),
            r,
            mbuff1,
            mem1,
        )
}

/// The contract of one full run of the interpreter on `prog` with helper
/// table `helpers`: either the result and the final contents of the two
/// caller-visible regions are exactly those of a run of the model from the
/// entry state, or the step budget of `u64::MAX` instructions ran out and the
/// model is still running after that many steps.
pub open spec fn run_outcome(
    prog: Seq<u8>,
    helpers: Map<u32, HelperFn>,
    mbuff0: Seq<u8>,
    mem0: Seq<u8>,
    r: Result<u64, VmError>,
    mbuff1: Seq<u8>,
    mem1: Seq<u8>,
) -> bool {
    if r == Err::<u64, VmError>(VmError::StepLimitReached) {
        run_n(VmEnv { prog, helpers }, init_state(mbuff0, mem0), u64::MAX as nat)
            matches StepOutcome::Next(s) && s.mbuff == mbuff1 && s.mem == mem1
    } else {
        runs_to(prog, helpers, mbuff0, mem0, r, mbuff1, mem1)
    }
}

} // verus!
