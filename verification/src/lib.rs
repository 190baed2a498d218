//! A virtual machine for eBPF programs: a load-time verifier, a memory-access
//! guard, and an interpreter over eleven 64-bit registers and a private stack.

pub mod ebpf;
pub mod checker;
pub mod model;
pub mod interp;
pub mod laws;

use vstd::prelude::*;

use std::collections::HashMap;

verus! {

broadcast use vstd::std_specs::hash::group_hash_axioms;

/// Why a program was rejected at load time or why an execution aborted.
/// Load-time variants surface from [`checker::check`]; run-time variants
/// abort an execution. Each carries the slot index of the instruction it
/// concerns and, where there is one, the offending operand.
#[derive(Clone, Copy, PartialEq, Eq, Structural, Debug)]
pub enum VmError {
    /// The program length is zero or not a multiple of 8.
    InvalidProgramLength {
        /// Length of the rejected byte sequence.
        len: usize,
    },
    /// The last instruction is not EXIT.
    NoTerminalExit,
    /// An unrecognised opcode. At load time this rejects the program; at run
    /// time it aborts an execution that jumped into the data slot of a wide
    /// immediate load.
    UnknownOpcode {
        /// Slot index of the instruction.
        insn_ptr: usize,
        /// The unrecognised opcode byte.
        opc: u8,
    },
    /// A register index above 10.
    InvalidRegister {
        /// Slot index of the instruction.
        insn_ptr: usize,
    },
    /// An instruction that would write the read-only frame register.
    WriteToFrameRegister {
        /// Slot index of the instruction.
        insn_ptr: usize,
    },
    /// A branch whose target falls outside the program.
    JumpOutOfBounds {
        /// Slot index of the branch.
        insn_ptr: usize,
    },
    /// A division or modulus by an immediate of zero.
    ZeroDivisorImmediate {
        /// Slot index of the instruction.
        insn_ptr: usize,
    },
    /// A wide immediate load with no following slot to carry its high half.
    IncompleteWideInstruction {
        /// Slot index of the instruction.
        insn_ptr: usize,
    },
    /// A division or modulus whose divisor evaluated to zero at run time.
    DivisionByZero {
        /// Slot index of the instruction.
        insn_ptr: usize,
    },
    /// A load or store that falls outside all three permitted regions, with
    /// the three region descriptors for diagnosis.
    OutOfBoundsAccess {
        /// Slot index of the instruction.
        insn_ptr: usize,
        /// First byte address of the access.
        addr: u64,
        /// Width of the access in bytes.
        width: u64,
        /// Base address of the metadata buffer region.
        mbuff_base: u64,
        /// Length of the metadata buffer region.
        mbuff_len: u64,
        /// Base address of the packet region.
        mem_base: u64,
        /// Length of the packet region.
        mem_len: u64,
        /// Base address of the stack region.
        stack_base: u64,
        /// Length of the stack region.
        stack_len: u64,
    },
    /// A CALL whose key is bound to no helper.
    UnknownHelper {
        /// Slot index of the call.
        insn_ptr: usize,
        /// The key that was looked up.
        key: u32,
    },
    /// An endianness conversion whose immediate is not 16, 32 or 64.
    BadEndiannessWidth {
        /// Slot index of the instruction.
        insn_ptr: usize,
        /// The immediate that was given as a width.
        imm: i32,
    },
    /// The step budget ran out: the program executed u64::MAX instructions
    /// without reaching EXIT or a fault. At any realistic execution rate that
    /// takes centuries, so this diagnostic reports a program that runs
    /// unboundedly, such as one that branches back to itself forever.
    StepLimitReached,
    /// A recognised opcode the interpreter deliberately does not implement:
    /// the absolute and indirect loads, the atomic adds and the tail call.
    UnimplementedInstruction {
        /// Slot index of the instruction.
        insn_ptr: usize,
        /// The opcode.
        opc: u8,
    },
}

/// A registered helper function: five 64-bit arguments in, one 64-bit result out.
/// The wrapped function pointer is opaque to the verifier; [`helper_result`]
/// names what a call of it returns.
#[verifier::external_body]
pub struct HelperFn(pub fn(u64, u64, u64, u64, u64) -> u64);

/// What a helper call returns for a given helper and arguments.
pub uninterp spec fn helper_result(f: HelperFn, a1: u64, a2: u64, a3: u64, a4: u64, a5: u64) -> u64;

/// Relies on the registered helper being a function of its five arguments
/// alone: calling the wrapped function pointer yields its result.
#[verifier::external_body]
fn call_helper(f: &HelperFn, a1: u64, a2: u64, a3: u64, a4: u64, a5: u64) -> (r: u64)
    ensures
        r == helper_result(*f, a1, a2, a3, a4, a5),
{
    (f.0)(a1, a2, a3, a4, a5)
}

/// A copy of the given bytes.
fn clone_bytes(v: &Vec<u8>) -> (r: Vec<u8>)
    ensures
        r@ == v@,
{
    let mut r: Vec<u8> = Vec::new();
    let mut i: usize = 0;
    while i < v.len()
        invariant
            i <= v@.len(),
            r@ == v@.subrange(0, i as int),
        decreases v@.len() - i,
    {
        r.push(v[i]);
        i += 1;
        proof {
            assert(r@ =~= v@.subrange(0, i as int));
        }
    }
    proof {
        assert(r@ =~= v@);
    }
    r
}

/// A virtual machine for programs that expect both a metadata buffer and a
/// packet region. The two regions live at the logical base addresses
/// [`model::MBUFF_BASE`] and [`model::MEM_BASE`]; on entry, register 1 holds
/// the base of the metadata buffer when it is non-empty.
pub struct EbpfVmMbuff {
    prog: Vec<u8>,
    helpers: HashMap<u32, HelperFn>,
}

impl EbpfVmMbuff {
    /// The loaded program bytes.
    pub closed spec fn prog_bytes(&self) -> Seq<u8> {
        self.prog@
    }

    /// The registered helpers, keyed by their 32-bit keys.
    pub closed spec fn helper_map(&self) -> Map<u32, HelperFn> {
        self.helpers@
    }

    /// Whether the loaded program passed the verifier. Every machine that
    /// [`EbpfVmMbuff::new`] or [`EbpfVmMbuff::set_prog`] produces satisfies
    /// this.
    pub open spec fn wf(&self) -> bool {
        crate::checker::wf_prog(self.prog_bytes())
    }

    /// Create a virtual machine and load `prog` into it, after passing it
    /// through the verifier. Returns the verifier's diagnostic when it
    /// rejects the program.
    pub fn new(prog: &Vec<u8>) -> (r: Result<EbpfVmMbuff, VmError>)
        ensures
            match r {
                Ok(vm) => vm.wf() && vm.prog_bytes() == prog@ && vm.helper_map() == Map::<
                    u32,
                    HelperFn,
                >::empty() && crate::checker::check_verdict(prog@) is Ok,
                Err(e) => crate::checker::check_verdict(prog@) == Err::<(), VmError>(e),
            },
    {
        match crate::checker::check(prog) {
            Ok(()) => Ok(EbpfVmMbuff { prog: clone_bytes(prog), helpers: HashMap::new() }),
            Err(e) => Err(e),
        }
    }

    /// Load a new program into the machine, after passing it through the
    /// verifier. When the verifier rejects it, the previous program remains
    /// loaded. Registered helpers are kept either way.
    pub fn set_prog(&mut self, prog: &Vec<u8>) -> (r: Result<(), VmError>)
        ensures
            match r {
                Ok(()) => final(self).prog_bytes() == prog@ && final(self).wf()
                    && crate::checker::check_verdict(prog@) is Ok,
                Err(e) => *final(self) == *old(self) && crate::checker::check_verdict(prog@)
                    == Err::<(), VmError>(e),
            },
            final(self).helper_map() == old(self).helper_map(),
            old(self).wf() ==> final(self).wf(),
    {
        match crate::checker::check(prog) {
            Ok(()) => {
                self.prog = clone_bytes(prog);
                Ok(())
            },
            Err(e) => Err(e),
        }
    }

    /// Register a helper under `key`, replacing any helper already bound to
    /// that key. The running program calls it through the CALL instruction
    /// with that key as the immediate.
    pub fn register_helper(&mut self, key: u32, function: HelperFn)
        ensures
            final(self).helper_map() == old(self).helper_map().insert(key, function),
            final(self).prog_bytes() == old(self).prog_bytes(),
            old(self).wf() ==> final(self).wf(),
    {
        self.helpers.insert(key, function);
    }

    /// Whether an access of `len` bytes at `addr` lies wholly inside one of
    /// the three permitted regions, given the regions' current contents: the
    /// memory guard that the interpreter consults on every load and store.
    pub fn check_mem(addr: u64, len: u64, mbuff: &Vec<u8>, mem: &Vec<u8>, stack: &Vec<u8>) -> (r:
        bool)
        ensures
            r == crate::model::guard_ok(
                mbuff@.len() as int,
                mem@.len() as int,
                stack@.len() as int,
                addr,
                len as int,
            ),
    {
        crate::interp::check_mem_exec(addr, len, mbuff.len(), mem.len(), stack.len())
    }

    /// Execute the loaded program on the given packet region and metadata
    /// buffer. The result and the final contents of the two regions are
    /// exactly those of a run of the machine model from the entry state; a
    /// run-time fault is returned as its diagnostic.
    pub fn prog_exec(&self, mem: &mut Vec<u8>, mbuff: &mut Vec<u8>) -> (r: Result<u64, VmError>)
        requires
            self.wf(),
        ensures
            crate::model::run_outcome(
                self.prog_bytes(),
                self.helper_map(),
                old(mbuff)@,
                old(mem)@,
                r,
                final(mbuff)@,
                final(mem)@,
            ),
            final(mbuff)@.len() == old(mbuff)@.len(),
            final(mem)@.len() == old(mem)@.len(),
    {
        crate::interp::run_prog(&self.prog, &self.helpers, mem, mbuff)
    }
}

/// A zeroed byte vector of length `n`.
fn zero_vec(n: usize) -> (r: Vec<u8>)
    ensures
        r@ == Seq::new(n as nat, |i: int| 0u8),
{
    let mut r: Vec<u8> = Vec::new();
    let mut i: usize = 0;
    while i < n
        invariant
            i <= n,
            r@.len() == i,
            forall|j: int| 0 <= j < i ==> r@[j] == 0u8,
        decreases n - i,
    {
        r.push(0u8);
        i += 1;
    }
    proof {
        assert(r@ =~= Seq::new(n as nat, |i: int| 0u8));
    }
    r
}

// A metadata buffer owned by the machine, with the two offsets at which the
// base and one-past-the-end addresses of the packet region are stored before
// each run.
struct MetaBuff {
    data_offset: usize,
    data_end_offset: usize,
    buffer: Vec<u8>,
}

/// A virtual machine for programs that expect a metadata buffer holding the
/// addresses of the start and end of the packet region at fixed offsets. The
/// machine owns the buffer and fills the two slots before each run, so the
/// caller only supplies the packet region.
pub struct EbpfVmFixedMbuff {
    parent: EbpfVmMbuff,
    mbuff: MetaBuff,
}

impl EbpfVmFixedMbuff {
    /// The loaded program bytes.
    pub closed spec fn prog_bytes(&self) -> Seq<u8> {
        self.parent.prog_bytes()
    }

    /// The registered helpers, keyed by their 32-bit keys.
    pub closed spec fn helper_map(&self) -> Map<u32, HelperFn> {
        self.parent.helper_map()
    }

    /// The offset in the owned buffer at which the packet base address is
    /// stored.
    pub closed spec fn data_offset(&self) -> int {
        self.mbuff.data_offset as int
    }

    /// The offset in the owned buffer at which the packet end address is
    /// stored.
    pub closed spec fn data_end_offset(&self) -> int {
        self.mbuff.data_end_offset as int
    }

    /// The contents of the owned metadata buffer.
    pub closed spec fn buffer(&self) -> Seq<u8> {
        self.mbuff.buffer@
    }

    /// Whether the loaded program passed the verifier and the owned buffer
    /// covers both address slots. Every machine that [`EbpfVmFixedMbuff::new`]
    /// or [`EbpfVmFixedMbuff::set_prog`] produces satisfies this.
    pub open spec fn wf(&self) -> bool {
        &&& crate::checker::wf_prog(self.prog_bytes())
        &&& self.data_offset() + 8 <= self.buffer().len()
        &&& self.data_end_offset() + 8 <= self.buffer().len()
    }

    /// Create a virtual machine and load `prog` into it, after passing it
    /// through the verifier. The owned buffer is sized to cover whichever of
    /// the two 8-byte address slots lies further in.
    pub fn new(prog: &Vec<u8>, data_offset: usize, data_end_offset: usize) -> (r: Result<
        EbpfVmFixedMbuff,
        VmError,
    >)
        requires
            data_offset + 8 <= usize::MAX,
            data_end_offset + 8 <= usize::MAX,
        ensures
            match r {
                Ok(vm) => {
                    let buf_len = if data_offset >= data_end_offset {
                        data_offset + 8
                    } else {
                        data_end_offset + 8
                    };
                    &&& vm.wf()
                    &&& vm.prog_bytes() == prog@
                    &&& vm.helper_map() == Map::<u32, HelperFn>::empty()
                    &&& vm.data_offset() == data_offset
                    &&& vm.data_end_offset() == data_end_offset
                    &&& vm.buffer() == Seq::new(buf_len as nat, |i: int| 0u8)
                },
                Err(e) => crate::checker::check_verdict(prog@) == Err::<(), VmError>(e),
            },
    {
        let parent = EbpfVmMbuff::new(prog)?;
        let buf_len = if data_offset >= data_end_offset {
            data_offset + 8
        } else {
            data_end_offset + 8
        };
        let mbuff = MetaBuff {
            data_offset: data_offset,
            data_end_offset: data_end_offset,
            buffer: zero_vec(buf_len),
        };
        Ok(EbpfVmFixedMbuff { parent: parent, mbuff: mbuff })
    }

    /// Load a new program and new slot offsets into the machine, after
    /// passing the program through the verifier. When the verifier rejects
    /// it, the machine is left unchanged. Registered helpers are kept either
    /// way.
    pub fn set_prog(&mut self, prog: &Vec<u8>, data_offset: usize, data_end_offset: usize) -> (r:
        Result<(), VmError>)
        requires
            data_offset + 8 <= usize::MAX,
            data_end_offset + 8 <= usize::MAX,
        ensures
            match r {
                Ok(()) => {
                    let buf_len = if data_offset >= data_end_offset {
                        data_offset + 8
                    } else {
                        data_end_offset + 8
                    };
                    &&& final(self).wf()
                    &&& final(self).prog_bytes() == prog@
                    &&& final(self).data_offset() == data_offset
                    &&& final(self).data_end_offset() == data_end_offset
                    &&& final(self).buffer() == Seq::new(buf_len as nat, |i: int| 0u8)
                    &&& crate::checker::check_verdict(prog@) is Ok
                },
                Err(e) => *final(self) == *old(self) && crate::checker::check_verdict(prog@)
                    == Err::<(), VmError>(e),
            },
            final(self).helper_map() == old(self).helper_map(),
    {
        match self.parent.set_prog(prog) {
            Ok(()) => {
                self.mbuff.buffer = zero_vec(
                    if data_offset >= data_end_offset {
                        data_offset + 8
                    } else {
                        data_end_offset + 8
                    },
                );
                self.mbuff.data_offset = data_offset;
                self.mbuff.data_end_offset = data_end_offset;
                Ok(())
            },
            Err(e) => Err(e),
        }
    }

    /// Register a helper under `key`, replacing any helper already bound to
    /// that key.
    pub fn register_helper(&mut self, key: u32, function: HelperFn)
        ensures
            final(self).helper_map() == old(self).helper_map().insert(key, function),
            final(self).prog_bytes() == old(self).prog_bytes(),
            final(self).buffer() == old(self).buffer(),
            final(self).data_offset() == old(self).data_offset(),
            final(self).data_end_offset() == old(self).data_end_offset(),
            old(self).wf() ==> final(self).wf(),
    {
        self.parent.register_helper(key, function);
    }

    /// Execute the loaded program on the given packet region. Before the run,
    /// the base address of the packet region and its one-past-the-end address
    /// are written little-endian into the owned buffer at the two offsets;
    /// the run then proceeds as on [`EbpfVmMbuff`] with that buffer as the
    /// metadata buffer.
    pub fn prog_exec(&mut self, mem: &mut Vec<u8>) -> (r: Result<u64, VmError>)
        requires
            old(self).wf(),
        ensures
            ({
                let mb0 = crate::model::write_le(
                    crate::model::write_le(
                        old(self).buffer(),
                        old(self).data_offset(),
                        8,
                        crate::model::MEM_BASE,
                    ),
                    old(self).data_end_offset(),
                    8,
                    crate::model::MEM_BASE.wrapping_add(old(mem)@.len() as u64),
                );
                crate::model::run_outcome(
                    old(self).prog_bytes(),
                    old(self).helper_map(),
                    mb0,
                    old(mem)@,
                    r,
                    final(self).buffer(),
                    final(mem)@,
                )
            }),
            final(self).prog_bytes() == old(self).prog_bytes(),
            final(self).helper_map() == old(self).helper_map(),
            final(self).data_offset() == old(self).data_offset(),
            final(self).data_end_offset() == old(self).data_end_offset(),
            final(self).buffer().len() == old(self).buffer().len(),
            final(self).wf(),
            final(mem)@.len() == old(mem)@.len(),
    {
        let mlen = mem.len();
        crate::interp::write_w(&mut self.mbuff.buffer, self.mbuff.data_offset, 8, crate::model::MEM_BASE);
        crate::interp::write_w(
            &mut self.mbuff.buffer,
            self.mbuff.data_end_offset,
            8,
            crate::model::MEM_BASE.wrapping_add(mlen as u64),
        );
        self.parent.prog_exec(mem, &mut self.mbuff.buffer)
    }
}

/// A virtual machine for programs that work directly on the packet region,
/// with no metadata buffer.
pub struct EbpfVmRaw {
    parent: EbpfVmMbuff,
}

impl EbpfVmRaw {
    /// The loaded program bytes.
    pub closed spec fn prog_bytes(&self) -> Seq<u8> {
        self.parent.prog_bytes()
    }

    /// The registered helpers, keyed by their 32-bit keys.
    pub closed spec fn helper_map(&self) -> Map<u32, HelperFn> {
        self.parent.helper_map()
    }

    /// Whether the loaded program passed the verifier. Every machine that
    /// [`EbpfVmRaw::new`] or [`EbpfVmRaw::set_prog`] produces satisfies this.
    pub open spec fn wf(&self) -> bool {
        crate::checker::wf_prog(self.prog_bytes())
    }

    /// Create a virtual machine and load `prog` into it, after passing it
    /// through the verifier.
    pub fn new(prog: &Vec<u8>) -> (r: Result<EbpfVmRaw, VmError>)
        ensures
            match r {
                Ok(vm) => vm.wf() && vm.prog_bytes() == prog@ && vm.helper_map() == Map::<
                    u32,
                    HelperFn,
                >::empty() && crate::checker::check_verdict(prog@) is Ok,
                Err(e) => crate::checker::check_verdict(prog@) == Err::<(), VmError>(e),
            },
    {
        let parent = EbpfVmMbuff::new(prog)?;
        Ok(EbpfVmRaw { parent: parent })
    }

    /// Load a new program into the machine, after passing it through the
    /// verifier. When the verifier rejects it, the previous program remains
    /// loaded.
    pub fn set_prog(&mut self, prog: &Vec<u8>) -> (r: Result<(), VmError>)
        ensures
            match r {
                Ok(()) => final(self).prog_bytes() == prog@ && final(self).wf()
                    && crate::checker::check_verdict(prog@) is Ok,
                Err(e) => *final(self) == *old(self) && crate::checker::check_verdict(prog@)
                    == Err::<(), VmError>(e),
            },
            final(self).helper_map() == old(self).helper_map(),
            old(self).wf() ==> final(self).wf(),
    {
        self.parent.set_prog(prog)
    }

    /// Register a helper under `key`, replacing any helper already bound to
    /// that key.
    pub fn register_helper(&mut self, key: u32, function: HelperFn)
        ensures
            final(self).helper_map() == old(self).helper_map().insert(key, function),
            final(self).prog_bytes() == old(self).prog_bytes(),
            old(self).wf() ==> final(self).wf(),
    {
        self.parent.register_helper(key, function);
    }

    /// Execute the loaded program on the given packet region, with an empty
    /// metadata buffer.
    pub fn prog_exec(&self, mem: &mut Vec<u8>) -> (r: Result<u64, VmError>)
        requires
            self.wf(),
        ensures
            crate::model::run_outcome(
                self.prog_bytes(),
                self.helper_map(),
                Seq::<u8>::empty(),
                old(mem)@,
                r,
                Seq::<u8>::empty(),
                final(mem)@,
            ),
            final(mem)@.len() == old(mem)@.len(),
    {
        let mut mbuff: Vec<u8> = Vec::new();
        let r = self.parent.prog_exec(mem, &mut mbuff);
        proof {
            assert(mbuff@ =~= Seq::<u8>::empty());
        }
        r
    }
}

/// A virtual machine for programs that work on no memory area at all:
/// no metadata buffer and no packet region.
pub struct EbpfVmNoData {
    parent: EbpfVmRaw,
}

impl EbpfVmNoData {
    /// The loaded program bytes.
    pub closed spec fn prog_bytes(&self) -> Seq<u8> {
        self.parent.prog_bytes()
    }

    /// The registered helpers, keyed by their 32-bit keys.
    pub closed spec fn helper_map(&self) -> Map<u32, HelperFn> {
        self.parent.helper_map()
    }

    /// Whether the loaded program passed the verifier. Every machine that
    /// [`EbpfVmNoData::new`] or [`EbpfVmNoData::set_prog`] produces satisfies
    /// this.
    pub open spec fn wf(&self) -> bool {
        crate::checker::wf_prog(self.prog_bytes())
    }

    /// Create a virtual machine and load `prog` into it, after passing it
    /// through the verifier.
    pub fn new(prog: &Vec<u8>) -> (r: Result<EbpfVmNoData, VmError>)
        ensures
            match r {
                Ok(vm) => vm.wf() && vm.prog_bytes() == prog@ && vm.helper_map() == Map::<
                    u32,
                    HelperFn,
                >::empty() && crate::checker::check_verdict(prog@) is Ok,
                Err(e) => crate::checker::check_verdict(prog@) == Err::<(), VmError>(e),
            },
    {
        let parent = EbpfVmRaw::new(prog)?;
        Ok(EbpfVmNoData { parent: parent })
    }

    /// Load a new program into the machine, after passing it through the
    /// verifier. When the verifier rejects it, the previous program remains
    /// loaded.
    pub fn set_prog(&mut self, prog: &Vec<u8>) -> (r: Result<(), VmError>)
        ensures
            match r {
                Ok(()) => final(self).prog_bytes() == prog@ && final(self).wf()
                    && crate::checker::check_verdict(prog@) is Ok,
                Err(e) => *final(self) == *old(self) && crate::checker::check_verdict(prog@)
                    == Err::<(), VmError>(e),
            },
            final(self).helper_map() == old(self).helper_map(),
            old(self).wf() ==> final(self).wf(),
    {
        self.parent.set_prog(prog)
    }

    /// Register a helper under `key`, replacing any helper already bound to
    /// that key.
    pub fn register_helper(&mut self, key: u32, function: HelperFn)
        ensures
            final(self).helper_map() == old(self).helper_map().insert(key, function),
            final(self).prog_bytes() == old(self).prog_bytes(),
            old(self).wf() ==> final(self).wf(),
    {
        self.parent.register_helper(key, function);
    }

    /// Execute the loaded program with an empty metadata buffer and an empty
    /// packet region.
    pub fn prog_exec(&self) -> (r: Result<u64, VmError>)
        requires
            self.wf(),
        ensures
            crate::model::run_outcome(
                self.prog_bytes(),
                self.helper_map(),
                Seq::<u8>::empty(),
                Seq::<u8>::empty(),
                r,
                Seq::<u8>::empty(),
                Seq::<u8>::empty(),
            ),
    {
        let mut mem: Vec<u8> = Vec::new();
        let r = self.parent.prog_exec(&mut mem);
        proof {
            assert(mem@ =~= Seq::<u8>::empty());
        }
        r
    }
}

} // verus!