//! The interpreter: an executable small-step function proved to implement
//! [`crate::model::step`], and the run loop around it.

use vstd::prelude::*;

use std::collections::HashMap;

use crate::ebpf;
use crate::ebpf::Insn;
use crate::model::{
    branch, branch_dst, branch_dst_src, do_load, do_store, init_state, outcome_matches, read_le,
    region_ok, resolve, run_n, run_outcome, step, write_le, MachineState,
    MemRegion, StepOutcome, VmEnv, MBUFF_BASE, MEM_BASE, STACK_BASE,
};
use crate::checker::{lemma_wf_prog_facts, wf_prog};
use crate::{call_helper, HelperFn, VmError};

verus! {

broadcast use vstd::std_specs::hash::group_hash_axioms;

/// Read register `i`, or 0 when `i` is not a valid register index. The value
/// read from an invalid index never reaches a register or memory: every
/// instruction that names one aborts first.
fn rreg(regs: &Vec<u64>, i: u8) -> (r: u64)
    requires
        regs@.len() == 11,
    ensures
        i <= 10 ==> r == regs@[i as int],
{
    if i <= 10 {
        regs[i as usize]
    } else {
        0
    }
}

/// Write `v` to register `dst`, or report the invalid register. The result
/// and the new register file match [`crate::model::wreg`].
fn alu(regs: &mut Vec<u64>, at: usize, dst: u8, v: u64) -> (r: Option<Result<u64, VmError>>)
    requires
        old(regs)@.len() == 11,
    ensures
        final(regs)@.len() == 11,
        match r {
            None => dst <= 10 && final(regs)@ == old(regs)@.update(dst as int, v),
            Some(x) => dst > 10 && x == Err::<u64, VmError>(
                VmError::InvalidRegister { insn_ptr: at },
            ) && final(regs)@ == old(regs)@,
        },
{
    if dst > 10 {
        Some(Err(VmError::InvalidRegister { insn_ptr: at }))
    } else {
        regs.set(dst as usize, v);
        None
    }
}

/// 32-bit division or modulus of register `dst` by `y`, faulting on a zero
/// divisor, matching [`crate::model::div_mod32`].
fn div32(regs: &mut Vec<u64>, at: usize, dst: u8, y: u32, modulus: bool) -> (r: Option<
    Result<u64, VmError>,
>)
    requires
        old(regs)@.len() == 11,
    ensures
        final(regs)@.len() == 11,
        match r {
            None => dst <= 10 && y != 0 && final(regs)@ == old(regs)@.update(
                dst as int,
                (if modulus {
                    (old(regs)@[dst as int] as u32) % y
                } else {
                    (old(regs)@[dst as int] as u32) / y
                }) as u64,
            ),
            Some(x) => final(regs)@ == old(regs)@ && ((dst > 10 && x == Err::<u64, VmError>(
                VmError::InvalidRegister { insn_ptr: at },
            )) || (dst <= 10 && y == 0 && x == Err::<u64, VmError>(
                VmError::DivisionByZero { insn_ptr: at },
            ))),
        },
{
    if dst > 10 {
        Some(Err(VmError::InvalidRegister { insn_ptr: at }))
    } else if y == 0 {
        Some(Err(VmError::DivisionByZero { insn_ptr: at }))
    } else {
        let x = regs[dst as usize] as u32;
        regs.set(dst as usize, if modulus { (x % y) as u64 } else { (x / y) as u64 });
        None
    }
}

/// 64-bit division or modulus of register `dst` by `y`, faulting on a zero
/// divisor, matching [`crate::model::div_mod64`].
fn div64(regs: &mut Vec<u64>, at: usize, dst: u8, y: u64, modulus: bool) -> (r: Option<
    Result<u64, VmError>,
>)
    requires
        old(regs)@.len() == 11,
    ensures
        final(regs)@.len() == 11,
        match r {
            None => dst <= 10 && y != 0 && final(regs)@ == old(regs)@.update(
                dst as int,
                if modulus {
                    old(regs)@[dst as int] % y
                } else {
                    old(regs)@[dst as int] / y
                },
            ),
            Some(x) => final(regs)@ == old(regs)@ && ((dst > 10 && x == Err::<u64, VmError>(
                VmError::InvalidRegister { insn_ptr: at },
            )) || (dst <= 10 && y == 0 && x == Err::<u64, VmError>(
                VmError::DivisionByZero { insn_ptr: at },
            ))),
        },
{
    if dst > 10 {
        Some(Err(VmError::InvalidRegister { insn_ptr: at }))
    } else if y == 0 {
        Some(Err(VmError::DivisionByZero { insn_ptr: at }))
    } else {
        let x = regs[dst as usize];
        regs.set(dst as usize, if modulus { x % y } else { x / y });
        None
    }
}

/// Whether the access of `w` bytes at `addr` lies wholly inside the region of
/// `rlen` bytes at `base`.
fn region_check(base: u64, rlen: usize, addr: u64, w: usize) -> (r: bool)
    requires
        1 <= w <= 8,
    ensures
        r == region_ok(base, rlen as int, addr, w as int),
{
    addr >= base && (w as u64) <= u64::MAX - addr && rlen as u64 >= w as u64 && addr - base <= rlen
        as u64 - w as u64
}

/// As [`region_check`], for an access width of any size.
fn region_check_wide(base: u64, rlen: usize, addr: u64, w: u64) -> (r: bool)
    ensures
        r == region_ok(base, rlen as int, addr, w as int),
{
    addr >= base && w <= u64::MAX - addr && rlen as u64 >= w && addr - base <= rlen as u64 - w
}

/// Whether an access of `w` bytes at `addr` lies wholly inside one of the
/// three permitted regions, given their lengths.
pub(crate) fn check_mem_exec(
    addr: u64,
    w: u64,
    mbuff_len: usize,
    mem_len: usize,
    stack_len: usize,
) -> (r: bool)
    ensures
        r == crate::model::guard_ok(
            mbuff_len as int,
            mem_len as int,
            stack_len as int,
            addr,
            w as int,
        ),
{
    region_check_wide(MBUFF_BASE, mbuff_len, addr, w) || region_check_wide(MEM_BASE, mem_len, addr, w)
        || region_check_wide(STACK_BASE, stack_len, addr, w)
}

/// Resolve the access of `w` bytes at `addr` against the three regions, in
/// the fixed order: metadata buffer, packet, stack.
fn resolve_exec(mbuff_len: usize, mem_len: usize, stack_len: usize, addr: u64, w: usize) -> (r:
    Option<(MemRegion, usize)>)
    requires
        1 <= w <= 8,
    ensures
        match r {
            Some((region, off)) => {
                &&& resolve(mbuff_len as int, mem_len as int, stack_len as int, addr, w as int)
                    == Some((region, off as int))
                &&& off + w <= match region {
                    MemRegion::MBuff => mbuff_len,
                    MemRegion::Packet => mem_len,
                    MemRegion::Stack => stack_len,
                }
            },
            None => resolve(mbuff_len as int, mem_len as int, stack_len as int, addr, w as int)
                is None,
        },
{
    if region_check(MBUFF_BASE, mbuff_len, addr, w) {
        Some((MemRegion::MBuff, (addr - MBUFF_BASE) as usize))
    } else if region_check(MEM_BASE, mem_len, addr, w) {
        Some((MemRegion::Packet, (addr - MEM_BASE) as usize))
    } else if region_check(STACK_BASE, stack_len, addr, w) {
        Some((MemRegion::Stack, (addr - STACK_BASE) as usize))
    } else {
        None
    }
}

/// Read `w` bytes little-endian from `region` at `off`.
fn read_w(region: &Vec<u8>, off: usize, w: usize) -> (r: u64)
    requires
        w == 1 || w == 2 || w == 4 || w == 8,
        off + w <= region@.len(),
    ensures
        r == read_le(region@, off as int, w as int),
{
    let _n: usize = region.len();
    if w == 1 {
        region[off] as u64
    } else if w == 2 {
        ((region[off + 1] as u64) << 8) | (region[off] as u64)
    } else if w == 4 {
        ((region[off + 3] as u64) << 24) | ((region[off + 2] as u64) << 16) | ((region[off
            + 1] as u64) << 8) | (region[off] as u64)
    } else {
        ((region[off + 7] as u64) << 56) | ((region[off + 6] as u64) << 48) | ((region[off
            + 5] as u64) << 40) | ((region[off + 4] as u64) << 32) | ((region[off + 3] as u64)
            << 24) | ((region[off + 2] as u64) << 16) | ((region[off + 1] as u64) << 8) | (
        region[off] as u64)
    }
}

/// Write the low `w` bytes of `v` little-endian to `region` at `off`.
pub(crate) fn write_w(region: &mut Vec<u8>, off: usize, w: usize, v: u64)
    requires
        w == 1 || w == 2 || w == 4 || w == 8,
        off + w <= old(region)@.len(),
    ensures
        final(region)@ == write_le(old(region)@, off as int, w as int, v),
        final(region)@.len() == old(region)@.len(),
{
    let _n: usize = region.len();
    region.set(off, #[verifier::truncate] (v as u8));
    if w >= 2 {
        region.set(off + 1, #[verifier::truncate] ((v >> 8) as u8));
    }
    if w >= 4 {
        region.set(off + 2, #[verifier::truncate] ((v >> 16) as u8));
        region.set(off + 3, #[verifier::truncate] ((v >> 24) as u8));
    }
    if w == 8 {
        region.set(off + 4, #[verifier::truncate] ((v >> 32) as u8));
        region.set(off + 5, #[verifier::truncate] ((v >> 40) as u8));
        region.set(off + 6, #[verifier::truncate] ((v >> 48) as u8));
        region.set(off + 7, #[verifier::truncate] ((v >> 56) as u8));
    }
}

/// A load of `w` bytes into register `dst`, matching [`do_load`] on the state
/// `st1`.
fn mem_load(
    Ghost(st1): Ghost<MachineState>,
    regs: &mut Vec<u64>,
    at: usize,
    insn: Insn,
    w: usize,
    mbuff: &Vec<u8>,
    mem: &Vec<u8>,
    stack: &Vec<u8>,
) -> (r: Option<VmError>)
    requires
        w == 1 || w == 2 || w == 4 || w == 8,
        old(regs)@.len() == 11,
        st1.regs == old(regs)@,
        st1.mbuff == mbuff@,
        st1.mem == mem@,
        st1.stack == stack@,
    ensures
        final(regs)@.len() == 11,
        match r {
            None => do_load(st1, at, insn, w as int) == StepOutcome::Next(
                MachineState { regs: final(regs)@, ..st1 },
            ),
            Some(e) => do_load(st1, at, insn, w as int) == StepOutcome::Fault(e, st1) && final(regs)@ == old(regs)@,
        },
{
    if insn.dst > 10 || insn.src > 10 {
        return Some(VmError::InvalidRegister { insn_ptr: at });
    }
    let addr = regs[insn.src as usize].wrapping_add(insn.off as u64);
    match resolve_exec(mbuff.len(), mem.len(), stack.len(), addr, w) {
        Some((region, off)) => {
            let v = match region {
                MemRegion::MBuff => read_w(mbuff, off, w),
                MemRegion::Packet => read_w(mem, off, w),
                MemRegion::Stack => read_w(stack, off, w),
            };
            regs.set(insn.dst as usize, v);
            None
        },
        None => Some(
            VmError::OutOfBoundsAccess {
                insn_ptr: at,
                addr: addr,
                width: w as u64,
                mbuff_base: MBUFF_BASE,
                mbuff_len: mbuff.len() as u64,
                mem_base: MEM_BASE,
                mem_len: mem.len() as u64,
                stack_base: STACK_BASE,
                stack_len: stack.len() as u64,
            },
        ),
    }
}

/// A store of the low `w` bytes of `v`, matching [`do_store`] on the state
/// `st1`. `src_ok` is whether the operand needed a valid source register.
fn mem_store(
    Ghost(st1): Ghost<MachineState>,
    regs: &Vec<u64>,
    at: usize,
    insn: Insn,
    w: usize,
    v: u64,
    src_ok: bool,
    mbuff: &mut Vec<u8>,
    mem: &mut Vec<u8>,
    stack: &mut Vec<u8>,
) -> (r: Option<VmError>)
    requires
        w == 1 || w == 2 || w == 4 || w == 8,
        regs@.len() == 11,
        st1.regs == regs@,
        st1.mbuff == old(mbuff)@,
        st1.mem == old(mem)@,
        st1.stack == old(stack)@,
    ensures
        final(mbuff)@.len() == old(mbuff)@.len(),
        final(mem)@.len() == old(mem)@.len(),
        final(stack)@.len() == old(stack)@.len(),
        match r {
            None => do_store(st1, at, insn, w as int, v, src_ok) == StepOutcome::Next(
                MachineState {
                    mbuff: final(mbuff)@,
                    mem: final(mem)@,
                    stack: final(stack)@,
                    ..st1
                },
            ),
            Some(e) => do_store(st1, at, insn, w as int, v, src_ok) == StepOutcome::Fault(e, st1)
                && final(mbuff)@ == old(mbuff)@ && final(mem)@ == old(mem)@ && final(stack)@
                == old(stack)@,
        },
{
    if insn.dst > 10 || !src_ok {
        return Some(VmError::InvalidRegister { insn_ptr: at });
    }
    let addr = regs[insn.dst as usize].wrapping_add(insn.off as u64);
    match resolve_exec(mbuff.len(), mem.len(), stack.len(), addr, w) {
        Some((region, off)) => {
            match region {
                MemRegion::MBuff => write_w(mbuff, off, w, v),
                MemRegion::Packet => write_w(mem, off, w, v),
                MemRegion::Stack => write_w(stack, off, w, v),
            }
            None
        },
        None => Some(
            VmError::OutOfBoundsAccess {
                insn_ptr: at,
                addr: addr,
                width: w as u64,
                mbuff_base: MBUFF_BASE,
                mbuff_len: mbuff.len() as u64,
                mem_base: MEM_BASE,
                mem_len: mem.len() as u64,
                stack_base: STACK_BASE,
                stack_len: stack.len() as u64,
            },
        ),
    }
}

/// Apply a branch decided by `taken`, matching [`branch`] on the state `st1`,
/// whose slot index already points past the branch instruction.
fn do_branch(
    Ghost(env): Ghost<VmEnv>,
    Ghost(st1): Ghost<MachineState>,
    pc: &mut usize,
    prog_len: usize,
    off: i16,
    taken: bool,
) -> (r: Option<Result<u64, VmError>>)
    requires
        env.prog.len() == prog_len,
        prog_len % 8 == 0,
        st1.pc == *old(pc) as int,
        8 * *old(pc) <= prog_len,
    ensures
        match r {
            None => branch(env, st1, off, taken) == StepOutcome::Next(
                MachineState { pc: *final(pc) as int, ..st1 },
            ) && 8 * *final(pc) <= prog_len,
            Some(x) => x == Ok::<u64, VmError>(0u64) && branch(env, st1, off, taken)
                == StepOutcome::Halt(0, st1) && *final(pc) == *old(pc),
        },
{
    if !taken {
        return None;
    }
    let t: i64 = *pc as i64 + off as i64;
    if 0 <= t && t < (prog_len / 8) as i64 {
        *pc = t as usize;
        None
    } else {
        Some(Ok(0))
    }
}

/// Write `v` to register `dst` after checking `src` as well, matching
/// [`crate::model::wreg2`].
fn alu2(regs: &mut Vec<u64>, at: usize, dst: u8, src: u8, v: u64) -> (r: Option<
    Result<u64, VmError>,
>)
    requires
        old(regs)@.len() == 11,
    ensures
        final(regs)@.len() == 11,
        match r {
            None => dst <= 10 && src <= 10 && final(regs)@ == old(regs)@.update(dst as int, v),
            Some(x) => (dst > 10 || src > 10) && x == Err::<u64, VmError>(
                VmError::InvalidRegister { insn_ptr: at },
            ) && final(regs)@ == old(regs)@,
        },
{
    if dst > 10 || src > 10 {
        Some(Err(VmError::InvalidRegister { insn_ptr: at }))
    } else {
        regs.set(dst as usize, v);
        None
    }
}

/// A conditional branch testing register `dst`, matching
/// [`crate::model::branch_dst`] on the state `st1`.
fn br1(
    Ghost(env): Ghost<VmEnv>,
    Ghost(st1): Ghost<MachineState>,
    pc: &mut usize,
    prog_len: usize,
    at: usize,
    dst: u8,
    off: i16,
    taken: bool,
) -> (r: Option<Result<u64, VmError>>)
    requires
        env.prog.len() == prog_len,
        prog_len % 8 == 0,
        st1.pc == *old(pc) as int,
        8 * *old(pc) <= prog_len,
    ensures
        match r {
            None => branch_dst(env, st1, at, dst, off, taken) == StepOutcome::Next(
                MachineState { pc: *final(pc) as int, ..st1 },
            ) && 8 * *final(pc) <= prog_len,
            Some(x) => *final(pc) == *old(pc) && ((x == Err::<u64, VmError>(
                VmError::InvalidRegister { insn_ptr: at },
            ) && branch_dst(env, st1, at, dst, off, taken) == StepOutcome::Fault(
                VmError::InvalidRegister { insn_ptr: at },
                st1,
            )) || (x == Ok::<u64, VmError>(0u64) && branch_dst(env, st1, at, dst, off, taken)
                == StepOutcome::Halt(0, st1))),
        },
{
    if dst > 10 {
        Some(Err(VmError::InvalidRegister { insn_ptr: at }))
    } else {
        do_branch(Ghost(env), Ghost(st1), pc, prog_len, off, taken)
    }
}

/// A conditional branch testing registers `dst` and `src`, matching
/// [`crate::model::branch_dst_src`] on the state `st1`.
fn br2(
    Ghost(env): Ghost<VmEnv>,
    Ghost(st1): Ghost<MachineState>,
    pc: &mut usize,
    prog_len: usize,
    at: usize,
    dst: u8,
    src: u8,
    off: i16,
    taken: bool,
) -> (r: Option<Result<u64, VmError>>)
    requires
        env.prog.len() == prog_len,
        prog_len % 8 == 0,
        st1.pc == *old(pc) as int,
        8 * *old(pc) <= prog_len,
    ensures
        match r {
            None => branch_dst_src(env, st1, at, dst, src, off, taken) == StepOutcome::Next(
                MachineState { pc: *final(pc) as int, ..st1 },
            ) && 8 * *final(pc) <= prog_len,
            Some(x) => *final(pc) == *old(pc) && ((x == Err::<u64, VmError>(
                VmError::InvalidRegister { insn_ptr: at },
            ) && branch_dst_src(env, st1, at, dst, src, off, taken) == StepOutcome::Fault(
                VmError::InvalidRegister { insn_ptr: at },
                st1,
            )) || (x == Ok::<u64, VmError>(0u64) && branch_dst_src(
                env,
                st1,
                at,
                dst,
                src,
                off,
                taken,
            ) == StepOutcome::Halt(0, st1))),
        },
{
    if dst > 10 || src > 10 {
        Some(Err(VmError::InvalidRegister { insn_ptr: at }))
    } else {
        do_branch(Ghost(env), Ghost(st1), pc, prog_len, off, taken)
    }
}

/// One step of the interpreter: fetch the instruction at the slot index,
/// advance the index past it, and apply its effect on the registers and the
/// three regions. The returned outcome and every state change match one
/// [`step`] of the model.
#[verifier::rlimit(80)]
fn exec_step(
    prog: &Vec<u8>,
    helpers: &HashMap<u32, HelperFn>,
    regs: &mut Vec<u64>,
    pc: &mut usize,
    mbuff: &mut Vec<u8>,
    mem: &mut Vec<u8>,
    stack: &mut Vec<u8>,
) -> (r: Option<Result<u64, VmError>>)
    requires
        wf_prog(prog@),
        old(regs)@.len() == 11,
        8 * *old(pc) < prog@.len(),
    ensures
        final(regs)@.len() == 11,
        final(mbuff)@.len() == old(mbuff)@.len(),
        final(mem)@.len() == old(mem)@.len(),
        final(stack)@.len() == old(stack)@.len(),
        ({
            let env = VmEnv { prog: prog@, helpers: helpers@ };
            let s0 = MachineState {
                regs: old(regs)@,
                pc: *old(pc) as int,
                mbuff: old(mbuff)@,
                mem: old(mem)@,
                stack: old(stack)@,
            };
            let s9 = MachineState {
                regs: final(regs)@,
                pc: *final(pc) as int,
                mbuff: final(mbuff)@,
                mem: final(mem)@,
                stack: final(stack)@,
            };
            match r {
                None => step(env, s0) == StepOutcome::Next(s9) && 8 * *final(pc) <= prog@.len(),
                Some(Ok(v)) => step(env, s0) == StepOutcome::Halt(v, s9),
                Some(Err(e)) => step(env, s0) == StepOutcome::Fault(e, s9),
            }
        }),
{
    proof {
        lemma_wf_prog_facts(prog@);
    }
    let plen: usize = prog.len();
    let at = *pc;
    let insn = ebpf::get_insn(prog, at);
    *pc = at + 1;
    let ghost env = VmEnv { prog: prog@, helpers: helpers@ };
    let ghost st1 = MachineState {
        regs: regs@,
        pc: *pc as int,
        mbuff: mbuff@,
        mem: mem@,
        stack: stack@,
    };
    match insn.opc {
        ebpf::LD_DW_IMM => {
            proof {
                // the last instruction is EXIT, so a wide immediate load never
                // sits in the last slot and the next slot exists
                assert(at as int != crate::checker::n_insns(prog@) - 1);
                assert(8 * (at + 1) + 8 <= prog@.len());
            }
            let next = ebpf::get_insn(prog, at + 1);
            *pc = at + 2;
            let v = ((next.imm as u64) << 32) | ((insn.imm as u32) as u64);
            alu(regs, at, insn.dst, v)
        },
        ebpf::LD_B_REG => match mem_load(Ghost(st1), regs, at, insn, 1, mbuff, mem, stack) {
            Some(e) => Some(Err(e)),
            None => None,
        },
        ebpf::LD_H_REG => match mem_load(Ghost(st1), regs, at, insn, 2, mbuff, mem, stack) {
            Some(e) => Some(Err(e)),
            None => None,
        },
        ebpf::LD_W_REG => match mem_load(Ghost(st1), regs, at, insn, 4, mbuff, mem, stack) {
            Some(e) => Some(Err(e)),
            None => None,
        },
        ebpf::LD_DW_REG => match mem_load(Ghost(st1), regs, at, insn, 8, mbuff, mem, stack) {
            Some(e) => Some(Err(e)),
            None => None,
        },
        ebpf::ST_B_IMM => match mem_store(
            Ghost(st1),
            regs,
            at,
            insn,
            1,
            insn.imm as u64,
            true,
            mbuff,
            mem,
            stack,
        ) {
            Some(e) => Some(Err(e)),
            None => None,
        },
        ebpf::ST_H_IMM => match mem_store(
            Ghost(st1),
            regs,
            at,
            insn,
            2,
            insn.imm as u64,
            true,
            mbuff,
            mem,
            stack,
        ) {
            Some(e) => Some(Err(e)),
            None => None,
        },
        ebpf::ST_W_IMM => match mem_store(
            Ghost(st1),
            regs,
            at,
            insn,
            4,
            insn.imm as u64,
            true,
            mbuff,
            mem,
            stack,
        ) {
            Some(e) => Some(Err(e)),
            None => None,
        },
        ebpf::ST_DW_IMM => match mem_store(
            Ghost(st1),
            regs,
            at,
            insn,
            8,
            insn.imm as u64,
            true,
            mbuff,
            mem,
            stack,
        ) {
            Some(e) => Some(Err(e)),
            None => None,
        },
        ebpf::ST_B_REG => {
            let v = rreg(regs, insn.src);
            match mem_store(Ghost(st1), regs, at, insn, 1, v, insn.src <= 10, mbuff, mem, stack) {
                Some(e) => Some(Err(e)),
                None => None,
            }
        },
        ebpf::ST_H_REG => {
            let v = rreg(regs, insn.src);
            match mem_store(Ghost(st1), regs, at, insn, 2, v, insn.src <= 10, mbuff, mem, stack) {
                Some(e) => Some(Err(e)),
                None => None,
            }
        },
        ebpf::ST_W_REG => {
            let v = rreg(regs, insn.src);
            match mem_store(Ghost(st1), regs, at, insn, 4, v, insn.src <= 10, mbuff, mem, stack) {
                Some(e) => Some(Err(e)),
                None => None,
            }
        },
        ebpf::ST_DW_REG => {
            let v = rreg(regs, insn.src);
            match mem_store(Ghost(st1), regs, at, insn, 8, v, insn.src <= 10, mbuff, mem, stack) {
                Some(e) => Some(Err(e)),
                None => None,
            }
        },
        ebpf::ADD32_IMM => {
            let x32 = rreg(regs, insn.dst) as u32;
            alu(regs, at, insn.dst, x32.wrapping_add(insn.imm as u32) as u64)
        },
        ebpf::ADD32_REG => {
            let x32 = rreg(regs, insn.dst) as u32;
            let y32 = rreg(regs, insn.src) as u32;
            alu2(regs, at, insn.dst, insn.src, x32.wrapping_add(y32) as u64)
        },
        ebpf::SUB32_IMM => {
            let x32 = rreg(regs, insn.dst) as u32;
            alu(regs, at, insn.dst, x32.wrapping_sub(insn.imm as u32) as u64)
        },
        ebpf::SUB32_REG => {
            let x32 = rreg(regs, insn.dst) as u32;
            let y32 = rreg(regs, insn.src) as u32;
            alu2(regs, at, insn.dst, insn.src, x32.wrapping_sub(y32) as u64)
        },
        ebpf::MUL32_IMM => {
            let x32 = rreg(regs, insn.dst) as u32;
            alu(regs, at, insn.dst, x32.wrapping_mul(insn.imm as u32) as u64)
        },
        ebpf::MUL32_REG => {
            let x32 = rreg(regs, insn.dst) as u32;
            let y32 = rreg(regs, insn.src) as u32;
            alu2(regs, at, insn.dst, insn.src, x32.wrapping_mul(y32) as u64)
        },
        ebpf::DIV32_IMM => div32(regs, at, insn.dst, insn.imm as u32, false),
        ebpf::DIV32_REG => {
            if insn.src > 10 {
                Some(Err(VmError::InvalidRegister { insn_ptr: at }))
            } else {
                let y32 = rreg(regs, insn.src) as u32;
                div32(regs, at, insn.dst, y32, false)
            }
        },
        ebpf::OR32_IMM => {
            let x32 = rreg(regs, insn.dst) as u32;
            alu(regs, at, insn.dst, (x32 | insn.imm as u32) as u64)
        },
        ebpf::OR32_REG => {
            let x32 = rreg(regs, insn.dst) as u32;
            let y32 = rreg(regs, insn.src) as u32;
            alu2(regs, at, insn.dst, insn.src, (x32 | y32) as u64)
        },
        ebpf::AND32_IMM => {
            let x32 = rreg(regs, insn.dst) as u32;
            alu(regs, at, insn.dst, (x32 & insn.imm as u32) as u64)
        },
        ebpf::AND32_REG => {
            let x32 = rreg(regs, insn.dst) as u32;
            let y32 = rreg(regs, insn.src) as u32;
            alu2(regs, at, insn.dst, insn.src, (x32 & y32) as u64)
        },
        ebpf::LSH32_IMM => {
            let x32 = rreg(regs, insn.dst) as u32;
            alu(regs, at, insn.dst, x32.wrapping_shl(insn.imm as u32) as u64)
        },
        ebpf::LSH32_REG => {
            let x32 = rreg(regs, insn.dst) as u32;
            let y32 = rreg(regs, insn.src) as u32;
            alu2(regs, at, insn.dst, insn.src, x32.wrapping_shl(y32) as u64)
        },
        ebpf::RSH32_IMM => {
            let x32 = rreg(regs, insn.dst) as u32;
            alu(regs, at, insn.dst, x32.wrapping_shr(insn.imm as u32) as u64)
        },
        ebpf::RSH32_REG => {
            let x32 = rreg(regs, insn.dst) as u32;
            let y32 = rreg(regs, insn.src) as u32;
            alu2(regs, at, insn.dst, insn.src, x32.wrapping_shr(y32) as u64)
        },
        ebpf::NEG32 => {
            let x32 = rreg(regs, insn.dst) as u32;
            alu(regs, at, insn.dst, 0u32.wrapping_sub(x32) as u64)
        },
        ebpf::MOD32_IMM => div32(regs, at, insn.dst, insn.imm as u32, true),
        ebpf::MOD32_REG => {
            if insn.src > 10 {
                Some(Err(VmError::InvalidRegister { insn_ptr: at }))
            } else {
                let y32 = rreg(regs, insn.src) as u32;
                div32(regs, at, insn.dst, y32, true)
            }
        },
        ebpf::XOR32_IMM => {
            let x32 = rreg(regs, insn.dst) as u32;
            alu(regs, at, insn.dst, (x32 ^ insn.imm as u32) as u64)
        },
        ebpf::XOR32_REG => {
            let x32 = rreg(regs, insn.dst) as u32;
            let y32 = rreg(regs, insn.src) as u32;
            alu2(regs, at, insn.dst, insn.src, (x32 ^ y32) as u64)
        },
        ebpf::MOV32_IMM => alu(regs, at, insn.dst, (insn.imm as u32) as u64),
        ebpf::MOV32_REG => {
            let y32 = rreg(regs, insn.src) as u32;
            alu2(regs, at, insn.dst, insn.src, y32 as u64)
        },
        ebpf::ARSH32_IMM => {
            let x32 = rreg(regs, insn.dst) as u32;
            alu(regs, at, insn.dst, ((x32 as i32).wrapping_shr(insn.imm as u32) as u32) as u64)
        },
        ebpf::ARSH32_REG => {
            let x32 = rreg(regs, insn.dst) as u32;
            let y32 = rreg(regs, insn.src) as u32;
            alu2(regs, at, insn.dst, insn.src, ((x32 as i32).wrapping_shr(y32) as u32) as u64)
        },
        ebpf::LE => {
            let x = rreg(regs, insn.dst);
            if insn.imm == 16 {
                alu(regs, at, insn.dst, (x as u16) as u64)
            } else if insn.imm == 32 {
                alu(regs, at, insn.dst, (x as u32) as u64)
            } else if insn.imm == 64 {
                alu(regs, at, insn.dst, x)
            } else {
                Some(Err(VmError::BadEndiannessWidth { insn_ptr: at, imm: insn.imm }))
            }
        },
        ebpf::BE => {
            let x = rreg(regs, insn.dst);
            if insn.imm == 16 {
                let v = x as u16;
                alu(regs, at, insn.dst, ((v >> 8) | (v << 8)) as u64)
            } else if insn.imm == 32 {
                let v = x as u32;
                alu(
                    regs,
                    at,
                    insn.dst,
                    (((v & 0xff) << 24) | ((v & 0xff00) << 8) | ((v >> 8) & 0xff00) | ((v >> 24)
                        & 0xff)) as u64,
                )
            } else if insn.imm == 64 {
                let v = x;
                alu(
                    regs,
                    at,
                    insn.dst,
                    ((v & 0xff) << 56) | ((v & 0xff00) << 40) | ((v & 0xff_0000) << 24) | ((v
                        & 0xff00_0000) << 8) | ((v >> 8) & 0xff00_0000) | ((v >> 24) & 0xff_0000)
                        | ((v >> 40) & 0xff00) | ((v >> 56) & 0xff),
                )
            } else {
                Some(Err(VmError::BadEndiannessWidth { insn_ptr: at, imm: insn.imm }))
            }
        },
        ebpf::ADD64_IMM => {
            let x = rreg(regs, insn.dst);
            alu(regs, at, insn.dst, x.wrapping_add(insn.imm as u64))
        },
        ebpf::ADD64_REG => {
            let x = rreg(regs, insn.dst);
            let y = rreg(regs, insn.src);
            alu2(regs, at, insn.dst, insn.src, x.wrapping_add(y))
        },
        ebpf::SUB64_IMM => {
            let x = rreg(regs, insn.dst);
            alu(regs, at, insn.dst, x.wrapping_sub(insn.imm as u64))
        },
        ebpf::SUB64_REG => {
            let x = rreg(regs, insn.dst);
            let y = rreg(regs, insn.src);
            alu2(regs, at, insn.dst, insn.src, x.wrapping_sub(y))
        },
        ebpf::MUL64_IMM => {
            let x = rreg(regs, insn.dst);
            alu(regs, at, insn.dst, x.wrapping_mul(insn.imm as u64))
        },
        ebpf::MUL64_REG => {
            let x = rreg(regs, insn.dst);
            let y = rreg(regs, insn.src);
            alu2(regs, at, insn.dst, insn.src, x.wrapping_mul(y))
        },
        ebpf::DIV64_IMM => div64(regs, at, insn.dst, insn.imm as u64, false),
        ebpf::DIV64_REG => {
            if insn.src > 10 {
                Some(Err(VmError::InvalidRegister { insn_ptr: at }))
            } else {
                let y = rreg(regs, insn.src);
                div64(regs, at, insn.dst, y, false)
            }
        },
        ebpf::OR64_IMM => {
            let x = rreg(regs, insn.dst);
            alu(regs, at, insn.dst, x | insn.imm as u64)
        },
        ebpf::OR64_REG => {
            let x = rreg(regs, insn.dst);
            let y = rreg(regs, insn.src);
            alu2(regs, at, insn.dst, insn.src, x | y)
        },
        ebpf::AND64_IMM => {
            let x = rreg(regs, insn.dst);
            alu(regs, at, insn.dst, x & insn.imm as u64)
        },
        ebpf::AND64_REG => {
            let x = rreg(regs, insn.dst);
            let y = rreg(regs, insn.src);
            alu2(regs, at, insn.dst, insn.src, x & y)
        },
        ebpf::LSH64_IMM => {
            let x = rreg(regs, insn.dst);
            alu(regs, at, insn.dst, x.wrapping_shl(insn.imm as u32))
        },
        ebpf::LSH64_REG => {
            let x = rreg(regs, insn.dst);
            let y = rreg(regs, insn.src);
            alu2(regs, at, insn.dst, insn.src, x.wrapping_shl(y as u32))
        },
        ebpf::RSH64_IMM => {
            let x = rreg(regs, insn.dst);
            alu(regs, at, insn.dst, x.wrapping_shr(insn.imm as u32))
        },
        ebpf::RSH64_REG => {
            let x = rreg(regs, insn.dst);
            let y = rreg(regs, insn.src);
            alu2(regs, at, insn.dst, insn.src, x.wrapping_shr(y as u32))
        },
        ebpf::NEG64 => {
            let x = rreg(regs, insn.dst);
            alu(regs, at, insn.dst, 0u64.wrapping_sub(x))
        },
        ebpf::MOD64_IMM => div64(regs, at, insn.dst, insn.imm as u64, true),
        ebpf::MOD64_REG => {
            if insn.src > 10 {
                Some(Err(VmError::InvalidRegister { insn_ptr: at }))
            } else {
                let y = rreg(regs, insn.src);
                div64(regs, at, insn.dst, y, true)
            }
        },
        ebpf::XOR64_IMM => {
            let x = rreg(regs, insn.dst);
            alu(regs, at, insn.dst, x ^ insn.imm as u64)
        },
        ebpf::XOR64_REG => {
            let x = rreg(regs, insn.dst);
            let y = rreg(regs, insn.src);
            alu2(regs, at, insn.dst, insn.src, x ^ y)
        },
        ebpf::MOV64_IMM => alu(regs, at, insn.dst, insn.imm as u64),
        ebpf::MOV64_REG => {
            let y = rreg(regs, insn.src);
            alu2(regs, at, insn.dst, insn.src, y)
        },
        ebpf::ARSH64_IMM => {
            let x = rreg(regs, insn.dst);
            alu(regs, at, insn.dst, (x as i64).wrapping_shr(insn.imm as u32) as u64)
        },
        ebpf::ARSH64_REG => {
            let x = rreg(regs, insn.dst);
            let y = rreg(regs, insn.src);
            alu2(regs, at, insn.dst, insn.src, (x as i64).wrapping_shr(y as u32) as u64)
        },
        ebpf::JA => do_branch(Ghost(env), Ghost(st1), pc, plen, insn.off, true),
        ebpf::JEQ_IMM => {
            let x = rreg(regs, insn.dst);
            br1(Ghost(env), Ghost(st1), pc, plen, at, insn.dst, insn.off, x == insn.imm as u64)
        },
        ebpf::JEQ_REG => {
            let x = rreg(regs, insn.dst);
            let y = rreg(regs, insn.src);
            br2(Ghost(env), Ghost(st1), pc, plen, at, insn.dst, insn.src, insn.off, x == y)
        },
        ebpf::JGT_IMM => {
            let x = rreg(regs, insn.dst);
            br1(Ghost(env), Ghost(st1), pc, plen, at, insn.dst, insn.off, x > insn.imm as u64)
        },
        ebpf::JGT_REG => {
            let x = rreg(regs, insn.dst);
            let y = rreg(regs, insn.src);
            br2(Ghost(env), Ghost(st1), pc, plen, at, insn.dst, insn.src, insn.off, x > y)
        },
        ebpf::JGE_IMM => {
            let x = rreg(regs, insn.dst);
            br1(Ghost(env), Ghost(st1), pc, plen, at, insn.dst, insn.off, x >= insn.imm as u64)
        },
        ebpf::JGE_REG => {
            let x = rreg(regs, insn.dst);
            let y = rreg(regs, insn.src);
            br2(Ghost(env), Ghost(st1), pc, plen, at, insn.dst, insn.src, insn.off, x >= y)
        },
        ebpf::JSET_IMM => {
            let x = rreg(regs, insn.dst);
            br1(Ghost(env), Ghost(st1), pc, plen, at, insn.dst, insn.off, x & insn.imm as u64 != 0)
        },
        ebpf::JSET_REG => {
            let x = rreg(regs, insn.dst);
            let y = rreg(regs, insn.src);
            br2(Ghost(env), Ghost(st1), pc, plen, at, insn.dst, insn.src, insn.off, x & y != 0)
        },
        ebpf::JNE_IMM => {
            let x = rreg(regs, insn.dst);
            br1(Ghost(env), Ghost(st1), pc, plen, at, insn.dst, insn.off, x != insn.imm as u64)
        },
        ebpf::JNE_REG => {
            let x = rreg(regs, insn.dst);
            let y = rreg(regs, insn.src);
            br2(Ghost(env), Ghost(st1), pc, plen, at, insn.dst, insn.src, insn.off, x != y)
        },
        ebpf::JSGT_IMM => {
            let x = rreg(regs, insn.dst);
            br1(
                Ghost(env),
                Ghost(st1),
                pc,
                plen,
                at,
                insn.dst,
                insn.off,
                (x as i64) > (insn.imm as i64),
            )
        },
        ebpf::JSGT_REG => {
            let x = rreg(regs, insn.dst);
            let y = rreg(regs, insn.src);
            br2(
                Ghost(env),
                Ghost(st1),
                pc,
                plen,
                at,
                insn.dst,
                insn.src,
                insn.off,
                (x as i64) > (y as i64),
            )
        },
        ebpf::JSGE_IMM => {
            let x = rreg(regs, insn.dst);
            br1(
                Ghost(env),
                Ghost(st1),
                pc,
                plen,
                at,
                insn.dst,
                insn.off,
                (x as i64) >= (insn.imm as i64),
            )
        },
        ebpf::JSGE_REG => {
            let x = rreg(regs, insn.dst);
            let y = rreg(regs, insn.src);
            br2(
                Ghost(env),
                Ghost(st1),
                pc,
                plen,
                at,
                insn.dst,
                insn.src,
                insn.off,
                (x as i64) >= (y as i64),
            )
        },
        ebpf::CALL => {
            let key = insn.imm as u32;
            match helpers.get(&key) {
                Some(f) => {
                    let r0 = call_helper(f, regs[1], regs[2], regs[3], regs[4], regs[5]);
                    regs.set(0, r0);
                    None
                },
                None => Some(Err(VmError::UnknownHelper { insn_ptr: at, key: key })),
            }
        },
        ebpf::EXIT => Some(Ok(regs[0])),
        ebpf::LD_ABS_B | ebpf::LD_ABS_H | ebpf::LD_ABS_W | ebpf::LD_ABS_DW | ebpf::LD_IND_B
            | ebpf::LD_IND_H | ebpf::LD_IND_W | ebpf::LD_IND_DW | ebpf::ST_W_XADD
            | ebpf::ST_DW_XADD | ebpf::TAIL_CALL => Some(
            Err(VmError::UnimplementedInstruction { insn_ptr: at, opc: insn.opc }),
        ),
        _ => Some(Err(VmError::UnknownOpcode { insn_ptr: at, opc: insn.opc })),
    }
}

/// Run the program to completion on the given regions: allocate a fresh
/// zeroed stack, seed the registers, and step until EXIT, a fault, or the end
/// of the program. The result and the final region contents are exactly those
/// of a run of the model from the entry state.
#[verifier::rlimit(100)]
pub(crate) fn run_prog(
    prog: &Vec<u8>,
    helpers: &HashMap<u32, HelperFn>,
    mem: &mut Vec<u8>,
    mbuff: &mut Vec<u8>,
) -> (r: Result<u64, VmError>)
    requires
        wf_prog(prog@),
    ensures
        run_outcome(prog@, helpers@, old(mbuff)@, old(mem)@, r, final(mbuff)@, final(mem)@),
        final(mbuff)@.len() == old(mbuff)@.len(),
        final(mem)@.len() == old(mem)@.len(),
{
    let mut stack: Vec<u8> = Vec::new();
    let mut k: usize = 0;
    while k < 512
        invariant
            k <= 512,
            stack@.len() == k,
            forall|i: int| 0 <= i < k ==> stack@[i] == 0u8,
        decreases 512 - k,
    {
        stack.push(0u8);
        k += 1;
    }
    let mut regs: Vec<u64> = Vec::new();
    let mut j: usize = 0;
    while j < 11
        invariant
            j <= 11,
            regs@.len() == j,
            forall|i: int| 0 <= i < j ==> regs@[i] == 0u64,
        decreases 11 - j,
    {
        regs.push(0u64);
        j += 1;
    }
    regs.set(10, STACK_BASE + 512);
    if mbuff.len() > 0 {
        regs.set(1, MBUFF_BASE);
    } else if mem.len() > 0 {
        regs.set(1, MEM_BASE);
    }
    let ghost env = VmEnv { prog: prog@, helpers: helpers@ };
    let ghost init = init_state(mbuff@, mem@);
    proof {
        assert(stack@ =~= init.stack);
        assert(regs@ =~= init.regs);
        lemma_wf_prog_facts(prog@);
    }
    let plen: usize = prog.len();
    let mut pc: usize = 0;
    let mut fuel: u64 = u64::MAX;
    let ghost mut steps: nat = 0;
    loop
        invariant
            wf_prog(prog@),
            env == (VmEnv { prog: prog@, helpers: helpers@ }),
            init == init_state(old(mbuff)@, old(mem)@),
            regs@.len() == 11,
            mbuff@.len() == old(mbuff)@.len(),
            mem@.len() == old(mem)@.len(),
            plen == prog@.len(),
            8 * pc <= plen,
            steps + fuel == u64::MAX as nat,
            run_n(env, init, steps) == StepOutcome::Next(
                MachineState {
                    regs: regs@,
                    pc: pc as int,
                    mbuff: mbuff@,
                    mem: mem@,
                    stack: stack@,
                },
            ),
        decreases fuel,
    {
        let ghost cur = MachineState {
            regs: regs@,
            pc: pc as int,
            mbuff: mbuff@,
            mem: mem@,
            stack: stack@,
        };
        if fuel == 0 {
            return Err(VmError::StepLimitReached);
        }
        fuel = fuel - 1;
        if !(8 * pc < plen) {
            // fell off the end of the program without reaching EXIT
            proof {
                assert(step(env, cur) == StepOutcome::Halt(0u64, cur));
                assert(run_n(env, init, steps + 1) == StepOutcome::Halt(0u64, cur));
                assert(outcome_matches(
                    run_n(env, init, steps + 1),
                    Ok::<u64, VmError>(0u64),
                    mbuff@,
                    mem@,
                ));
            }
            return Ok(0);
        }
        let sr = exec_step(prog, helpers, &mut regs, &mut pc, mbuff, mem, &mut stack);
        proof {
            steps = steps + 1;
        }
        match sr {
            None => {
                proof {
                    assert(run_n(env, init, steps) == step(env, cur));
                }
            },
            Some(Ok(v)) => {
                proof {
                    assert(run_n(env, init, steps) == step(env, cur));
                    assert(outcome_matches(
                        run_n(env, init, steps),
                        Ok::<u64, VmError>(v),
                        mbuff@,
                        mem@,
                    ));
                }
                return Ok(v);
            },
            Some(Err(e)) => {
                proof {
                    assert(run_n(env, init, steps) == step(env, cur));
                    assert(outcome_matches(
                        run_n(env, init, steps),
                        Err::<u64, VmError>(e),
                        mbuff@,
                        mem@,
                    ));
                }
                return Err(e);
            },
        }
    }
}

} // verus!
