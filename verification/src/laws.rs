//! The guarantees the machine gives as a whole, proved once over the model:
//! what a normal return carries, that memory changes only through guarded
//! stores, that runs are deterministic, that 32-bit arithmetic zero-extends,
//! where the memory guard draws region boundaries, and how backward branches
//! and wide immediate loads behave.

use vstd::prelude::*;

use crate::ebpf;
use crate::ebpf::insn_at;
use crate::model::{
    guard_ok, init_state, outcome_matches, region_ok, resolve, run_n, runs_to, step, write_le,
    MachineState, MemRegion, StepOutcome, VmEnv,
};
use crate::HelperFn;
use crate::VmError;

verus! {

/// An execution that reaches EXIT returns exactly the value of register 0 in
/// the state in which it reached it.
pub proof fn lemma_exit_returns_r0(env: VmEnv, s: MachineState)
    requires
        0 <= s.pc,
        8 * s.pc + 8 <= env.prog.len(),
        insn_at(env.prog, s.pc).opc == ebpf::EXIT,
    ensures
        step(env, s) == StepOutcome::Halt(s.regs[0], MachineState { pc: s.pc + 1, ..s }),
{
}

/// Whether `b` agrees with `a` everywhere outside the `w` bytes at `off`.
pub open spec fn unchanged_outside(a: Seq<u8>, b: Seq<u8>, off: int, w: int) -> bool {
    &&& a.len() == b.len()
    &&& forall|j: int| 0 <= j < a.len() && !(off <= j < off + w) ==> a[j] == b[j]
}

/// Whether `s2` differs from `s` by one store of `w` bytes at address `addr`
/// that the memory guard admits: the region the address resolves to changed
/// only within the accessed bytes, and the other two regions not at all.
pub open spec fn guarded_write(s: MachineState, s2: MachineState, addr: u64, w: int) -> bool {
    &&& (w == 1 || w == 2 || w == 4 || w == 8)
    &&& guard_ok(s.mbuff.len() as int, s.mem.len() as int, s.stack.len() as int, addr, w)
    &&& match resolve(s.mbuff.len() as int, s.mem.len() as int, s.stack.len() as int, addr, w) {
        Some((region, off)) => match region {
            MemRegion::MBuff => s2.mem == s.mem && s2.stack == s.stack && unchanged_outside(
                s.mbuff,
                s2.mbuff,
                off,
                w,
            ),
            MemRegion::Packet => s2.mbuff == s.mbuff && s2.stack == s.stack && unchanged_outside(
                s.mem,
                s2.mem,
                off,
                w,
            ),
            MemRegion::Stack => s2.mbuff == s.mbuff && s2.mem == s.mem && unchanged_outside(
                s.stack,
                s2.stack,
                off,
                w,
            ),
        },
        None => false,
    }
}

/// Whether the memory regions of `s2` relate to those of `s` as one machine
/// step allows: all three unchanged, or exactly one guard-admitted access
/// wrote within its own bytes.
pub open spec fn writes_guarded(s: MachineState, s2: MachineState) -> bool {
    &&& s2.mbuff.len() == s.mbuff.len()
    &&& s2.mem.len() == s.mem.len()
    &&& s2.stack.len() == s.stack.len()
    &&& ((s2.mbuff == s.mbuff && s2.mem == s.mem && s2.stack == s.stack) || (exists|
        addr: u64,
        w: int,
    | #[trigger] guarded_write(s, s2, addr, w)))
}

/// Writing through [`write_le`] keeps the region's length and changes only
/// the `w` bytes at `off`.
pub proof fn lemma_write_le_frame(r: Seq<u8>, off: int, w: int, v: u64)
    requires
        w == 1 || w == 2 || w == 4 || w == 8,
        0 <= off,
        off + w <= r.len(),
    ensures
        write_le(r, off, w, v).len() == r.len(),
        unchanged_outside(r, write_le(r, off, w, v), off, w),
{
}

/// One machine step changes memory only through the guard: whatever the
/// outcome, the three regions of the resulting state are unchanged, or
/// exactly one guard-admitted store wrote within its own bytes. An aborting
/// step — in particular a store whose access the guard rejects — leaves all
/// three regions untouched.
#[verifier::rlimit(100)]
pub proof fn lemma_step_writes_guarded(env: VmEnv, s: MachineState)
    ensures
        match step(env, s) {
            StepOutcome::Next(s2) => writes_guarded(s, s2),
            StepOutcome::Halt(_, s2) => writes_guarded(s, s2),
            StepOutcome::Fault(_, s2) => s2.mbuff == s.mbuff && s2.mem == s.mem && s2.stack
                == s.stack,
        },
{
    if !(s.pc < 0 || 8 * s.pc + 8 > env.prog.len()) {
        let insn = insn_at(env.prog, s.pc);
        let s1 = MachineState { pc: s.pc + 1, ..s };
        let opc = insn.opc;
        let is_st_imm = opc == ebpf::ST_B_IMM || opc == ebpf::ST_H_IMM || opc == ebpf::ST_W_IMM
            || opc == ebpf::ST_DW_IMM;
        let is_st_reg = opc == ebpf::ST_B_REG || opc == ebpf::ST_H_REG || opc == ebpf::ST_W_REG
            || opc == ebpf::ST_DW_REG;
        if is_st_imm || is_st_reg {
            let w: int = if opc == ebpf::ST_B_IMM || opc == ebpf::ST_B_REG {
                1
            } else if opc == ebpf::ST_H_IMM || opc == ebpf::ST_H_REG {
                2
            } else if opc == ebpf::ST_W_IMM || opc == ebpf::ST_W_REG {
                4
            } else {
                8
            };
            if insn.dst <= 10 && (is_st_imm || insn.src <= 10) {
                let v: u64 = if is_st_imm {
                    insn.imm as u64
                } else {
                    s1.regs[insn.src as int]
                };
                let addr = s1.regs[insn.dst as int].wrapping_add(insn.off as u64);
                let ml = s.mbuff.len() as int;
                let pl = s.mem.len() as int;
                let sl = s.stack.len() as int;
                match resolve(ml, pl, sl, addr, w) {
                    Some((region, off)) => {
                        match region {
                            MemRegion::MBuff => {
                                lemma_write_le_frame(s.mbuff, off, w, v);
                            },
                            MemRegion::Packet => {
                                lemma_write_le_frame(s.mem, off, w, v);
                            },
                            MemRegion::Stack => {
                                lemma_write_le_frame(s.stack, off, w, v);
                            },
                        }
                        match step(env, s) {
                            StepOutcome::Next(s2) => {
                                assert(guarded_write(s, s2, addr, w));
                            },
                            _ => {},
                        }
                    },
                    None => {},
                }
            }
        }
    }
}

/// Final outcomes are absorbing: once a run has halted or faulted after `n`
/// steps, running longer reports the same outcome.
pub proof fn lemma_outcome_absorbs(env: VmEnv, s: MachineState, n: nat, m: nat)
    requires
        n <= m,
        !(run_n(env, s, n) is Next),
    ensures
        run_n(env, s, m) == run_n(env, s, n),
    decreases m,
{
    if m > n {
        lemma_outcome_absorbs(env, s, n, (m - 1) as nat);
    }
}

/// Runs are deterministic: two runs of the same program with the same helper
/// table on the same initial region contents that both reach a final outcome
/// return the same result and leave the same region contents behind.
pub proof fn lemma_run_deterministic(
    prog: Seq<u8>,
    helpers: Map<u32, HelperFn>,
    mbuff0: Seq<u8>,
    mem0: Seq<u8>,
    r1: Result<u64, VmError>,
    mbuff1: Seq<u8>,
    mem1: Seq<u8>,
    r2: Result<u64, VmError>,
    mbuff2: Seq<u8>,
    mem2: Seq<u8>,
)
    requires
        runs_to(prog, helpers, mbuff0, mem0, r1, mbuff1, mem1),
        runs_to(prog, helpers, mbuff0, mem0, r2, mbuff2, mem2),
    ensures
        r1 == r2,
        mbuff1 == mbuff2,
        mem1 == mem2,
{
    let env = VmEnv { prog, helpers };
    let init = init_state(mbuff0, mem0);
    let n1 = choose|n: nat| outcome_matches(run_n(env, init, n), r1, mbuff1, mem1);
    let n2 = choose|n: nat| outcome_matches(run_n(env, init, n), r2, mbuff2, mem2);
    if n1 <= n2 {
        lemma_outcome_absorbs(env, init, n1, n2);
    } else {
        lemma_outcome_absorbs(env, init, n2, n1);
    }
}

/// A 32-bit arithmetic instruction leaves the upper 32 bits of its
/// destination register zero. The endianness conversions are not covered:
/// converting the low 64 bits is also encoded in their class and leaves the
/// full register.
pub proof fn lemma_alu32_zero_extends(env: VmEnv, s: MachineState)
    requires
        s.regs.len() == 11,
        0 <= s.pc,
        8 * s.pc + 8 <= env.prog.len(),
        crate::checker::is_alu32(insn_at(env.prog, s.pc).opc),
        insn_at(env.prog, s.pc).opc != ebpf::LE,
        insn_at(env.prog, s.pc).opc != ebpf::BE,
    ensures
        match step(env, s) {
            StepOutcome::Next(s2) => s2.regs[insn_at(env.prog, s.pc).dst as int] < 0x1_0000_0000,
            _ => true,
        },
{
}

/// An access of `w` bytes ending exactly at the region's end is admitted; one
/// ending one byte past it is not.
pub proof fn lemma_region_boundary(base: u64, rlen: int, w: int)
    requires
        1 <= w <= rlen,
        base + rlen <= u64::MAX,
    ensures
        region_ok(base, rlen, (base + rlen - w) as u64, w),
        !region_ok(base, rlen, (base + rlen - w + 1) as u64, w),
{
}

/// An unconditional branch with offset -1 lands on the branch instruction
/// itself: the step succeeds and leaves the machine in the same state, so the
/// program loops forever.
pub proof fn lemma_branch_back_to_self(env: VmEnv, s: MachineState)
    requires
        0 <= s.pc,
        8 * s.pc + 8 <= env.prog.len(),
        insn_at(env.prog, s.pc).opc == ebpf::JA,
        insn_at(env.prog, s.pc).off == -1i16,
    ensures
        step(env, s) == StepOutcome::Next(s),
{
    assert(MachineState { pc: s.pc, ..MachineState { pc: s.pc + 1, ..s } } == s);
}

/// A wide immediate load combines the low 32 bits of its own immediate with
/// the immediate of the following slot as the high 32 bits.
pub proof fn lemma_wide_imm_combines(env: VmEnv, s: MachineState)
    requires
        0 <= s.pc,
        8 * s.pc + 8 <= env.prog.len(),
        insn_at(env.prog, s.pc).opc == ebpf::LD_DW_IMM,
        insn_at(env.prog, s.pc).dst <= 10,
    ensures
        step(env, s) == StepOutcome::Next(
            MachineState {
                regs: s.regs.update(
                    insn_at(env.prog, s.pc).dst as int,
                    ((insn_at(env.prog, s.pc + 1).imm as u64) << 32) | ((insn_at(
                        env.prog,
                        s.pc,
                    ).imm as u32) as u64),
                ),
                pc: s.pc + 2,
                ..s
            },
        ),
{
}

} // verus!
