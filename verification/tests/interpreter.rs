//! End-to-end runs of the interpreter on concrete programs.

use rbpf::model::{MEM_BASE, STACK_BASE};
use rbpf::{EbpfVmFixedMbuff, EbpfVmMbuff, EbpfVmNoData, EbpfVmRaw, HelperFn, VmError};

fn sqrti(a: u64, _b: u64, _c: u64, _d: u64, _e: u64) -> u64 {
    let mut r: u64 = 0;
    while (r + 1) as u128 * (r + 1) as u128 <= a as u128 {
        r += 1;
    }
    r
}

#[test]
fn be16_swaps_low_half() {
    let prog = vec![
        0xb7, 0x00, 0x00, 0x00, 0x11, 0x22, 0x00, 0x00, // mov32 r0, 0x2211
        0xdc, 0x00, 0x00, 0x00, 0x10, 0x00, 0x00, 0x00, // be16 r0
        0x95, 0x00, 0x00, 0x00, 0x00, 0x00, 0x00, 0x00, // exit
    ];
    let vm = EbpfVmNoData::new(&prog).unwrap();
    assert_eq!(vm.prog_exec().unwrap(), 0x1122);
}

#[test]
fn le16_is_identity() {
    let prog = vec![
        0xb7, 0x00, 0x00, 0x00, 0x11, 0x22, 0x00, 0x00, // mov32 r0, 0x2211
        0xd4, 0x00, 0x00, 0x00, 0x10, 0x00, 0x00, 0x00, // le16 r0
        0x95, 0x00, 0x00, 0x00, 0x00, 0x00, 0x00, 0x00, // exit
    ];
    let vm = EbpfVmNoData::new(&prog).unwrap();
    assert_eq!(vm.prog_exec().unwrap(), 0x2211);
}

#[test]
fn be32_reverses_four_bytes() {
    let prog = vec![
        0xb4, 0x00, 0x00, 0x00, 0x44, 0x33, 0x22, 0x11, // mov32 r0, 0x11223344
        0xdc, 0x00, 0x00, 0x00, 0x20, 0x00, 0x00, 0x00, // be32 r0
        0x95, 0x00, 0x00, 0x00, 0x00, 0x00, 0x00, 0x00, // exit
    ];
    let vm = EbpfVmNoData::new(&prog).unwrap();
    assert_eq!(vm.prog_exec().unwrap(), 0x44332211);
}

#[test]
fn be64_reverses_eight_bytes() {
    let prog = vec![
        0x18, 0x00, 0x00, 0x00, 0x88, 0x77, 0x66, 0x55, // lddw r0, 0x1122334455667788
        0x00, 0x00, 0x00, 0x00, 0x44, 0x33, 0x22, 0x11, //
        0xdc, 0x00, 0x00, 0x00, 0x40, 0x00, 0x00, 0x00, // be64 r0
        0x95, 0x00, 0x00, 0x00, 0x00, 0x00, 0x00, 0x00, // exit
    ];
    let vm = EbpfVmNoData::new(&prog).unwrap();
    assert_eq!(vm.prog_exec().unwrap(), 0x8877665544332211);
}

#[test]
fn mem_load_through_mbuff() {
    let prog = vec![
        0x79, 0x11, 0x08, 0x00, 0x00, 0x00, 0x00, 0x00, // lddw r1, [r1+8]
        0x69, 0x10, 0x02, 0x00, 0x00, 0x00, 0x00, 0x00, // ldxh r0, [r1+2]
        0x95, 0x00, 0x00, 0x00, 0x00, 0x00, 0x00, 0x00, // exit
    ];
    let mut mem = vec![0xaa, 0xbb, 0x11, 0x22, 0xcc, 0xdd];
    let mut mbuff = vec![0u8; 32];
    mbuff[8..16].copy_from_slice(&MEM_BASE.to_le_bytes());
    mbuff[24..32].copy_from_slice(&(MEM_BASE + mem.len() as u64).to_le_bytes());
    let vm = EbpfVmMbuff::new(&prog).unwrap();
    assert_eq!(vm.prog_exec(&mut mem, &mut mbuff).unwrap(), 0x2211);
}

#[test]
fn division_by_zero_register_faults() {
    let prog = vec![
        0xb7, 0x01, 0x00, 0x00, 0x00, 0x00, 0x00, 0x00, // mov64 r1, 0
        0x3c, 0x01, 0x00, 0x00, 0x00, 0x00, 0x00, 0x00, // div32 r1, r0
        0x95, 0x00, 0x00, 0x00, 0x00, 0x00, 0x00, 0x00, // exit
    ];
    let vm = EbpfVmNoData::new(&prog).unwrap();
    assert_eq!(
        vm.prog_exec(),
        Err(VmError::DivisionByZero { insn_ptr: 1 })
    );
}

#[test]
fn store_one_past_stack_top_faults() {
    let prog = vec![
        0x72, 0x0a, 0x00, 0x00, 0x2a, 0x00, 0x00, 0x00, // stb [r10+0], 42
        0x95, 0x00, 0x00, 0x00, 0x00, 0x00, 0x00, 0x00, // exit
    ];
    let vm = EbpfVmNoData::new(&prog).unwrap();
    match vm.prog_exec() {
        Err(VmError::OutOfBoundsAccess { insn_ptr, addr, width, .. }) => {
            assert_eq!(insn_ptr, 0);
            assert_eq!(addr, STACK_BASE + 512);
            assert_eq!(width, 1);
        }
        other => panic!("expected an out-of-bounds abort, got {:?}", other),
    }
}

#[test]
fn store_at_stack_top_minus_width_succeeds() {
    // a byte written at r10-1 is the last byte of the stack region
    let prog = vec![
        0xb7, 0x01, 0x00, 0x00, 0x55, 0x00, 0x00, 0x00, // mov64 r1, 0x55
        0x73, 0x1a, 0xff, 0xff, 0x00, 0x00, 0x00, 0x00, // stxb [r10-1], r1
        0x71, 0xa0, 0xff, 0xff, 0x00, 0x00, 0x00, 0x00, // ldxb r0, [r10-1]
        0x95, 0x00, 0x00, 0x00, 0x00, 0x00, 0x00, 0x00, // exit
    ];
    let vm = EbpfVmNoData::new(&prog).unwrap();
    assert_eq!(vm.prog_exec().unwrap(), 0x55);
}

#[test]
fn helper_dispatch_square_root() {
    let prog = vec![
        0xb7, 0x01, 0x00, 0x00, 0x00, 0x00, 0x01, 0x00, // mov64 r1, 0x10000
        0xb7, 0x02, 0x00, 0x00, 0x00, 0x00, 0x00, 0x00, // mov64 r2, 0
        0xb7, 0x03, 0x00, 0x00, 0x00, 0x00, 0x00, 0x00, // mov64 r3, 0
        0xb7, 0x04, 0x00, 0x00, 0x00, 0x00, 0x00, 0x00, // mov64 r4, 0
        0xb7, 0x05, 0x00, 0x00, 0x00, 0x00, 0x00, 0x00, // mov64 r5, 0
        0x85, 0x00, 0x00, 0x00, 0x01, 0x00, 0x00, 0x00, // call key 1
        0x95, 0x00, 0x00, 0x00, 0x00, 0x00, 0x00, 0x00, // exit
    ];
    let mut vm = EbpfVmNoData::new(&prog).unwrap();
    vm.register_helper(1, HelperFn(sqrti));
    assert_eq!(vm.prog_exec().unwrap(), 0x100);
}

#[test]
fn unknown_helper_key_faults() {
    let prog = vec![
        0x85, 0x00, 0x00, 0x00, 0x3f, 0x00, 0x00, 0x00, // call key 63
        0x95, 0x00, 0x00, 0x00, 0x00, 0x00, 0x00, 0x00, // exit
    ];
    let vm = EbpfVmNoData::new(&prog).unwrap();
    assert_eq!(
        vm.prog_exec(),
        Err(VmError::UnknownHelper { insn_ptr: 0, key: 63 })
    );
}

#[test]
fn registering_a_helper_again_replaces_it() {
    fn first(_a: u64, _b: u64, _c: u64, _d: u64, _e: u64) -> u64 {
        7
    }
    fn second(_a: u64, _b: u64, _c: u64, _d: u64, _e: u64) -> u64 {
        9
    }
    let prog = vec![
        0x85, 0x00, 0x00, 0x00, 0x01, 0x00, 0x00, 0x00, // call key 1
        0x95, 0x00, 0x00, 0x00, 0x00, 0x00, 0x00, 0x00, // exit
    ];
    let mut vm = EbpfVmNoData::new(&prog).unwrap();
    vm.register_helper(1, HelperFn(first));
    vm.register_helper(1, HelperFn(second));
    assert_eq!(vm.prog_exec().unwrap(), 9);
}

#[test]
fn wide_immediate_load() {
    let prog = vec![
        0x18, 0x00, 0x00, 0x00, 0xef, 0xbe, 0xad, 0xde, // lddw r0, 0xbaadf00ddeadbeef
        0x00, 0x00, 0x00, 0x00, 0x0d, 0xf0, 0xad, 0xba, //
        0x95, 0x00, 0x00, 0x00, 0x00, 0x00, 0x00, 0x00, // exit
    ];
    let vm = EbpfVmNoData::new(&prog).unwrap();
    assert_eq!(vm.prog_exec().unwrap(), 0xbaadf00ddeadbeef);
}

#[test]
fn wide_immediate_high_bits_from_next_slot() {
    let prog = vec![
        0x18, 0x00, 0x00, 0x00, 0x78, 0x56, 0x34, 0x12, // lddw r0, 0xffffffff12345678
        0x00, 0x00, 0x00, 0x00, 0xff, 0xff, 0xff, 0xff, //
        0x95, 0x00, 0x00, 0x00, 0x00, 0x00, 0x00, 0x00, // exit
    ];
    let vm = EbpfVmNoData::new(&prog).unwrap();
    assert_eq!(vm.prog_exec().unwrap(), 0xffffffff12345678);
}

#[test]
fn load_at_exact_region_end_succeeds() {
    // two bytes read at offset 4 of a six-byte packet end exactly at its end
    let prog = vec![
        0x69, 0x10, 0x04, 0x00, 0x00, 0x00, 0x00, 0x00, // ldxh r0, [r1+4]
        0x95, 0x00, 0x00, 0x00, 0x00, 0x00, 0x00, 0x00, // exit
    ];
    let mut mem = vec![0xaa, 0xbb, 0x11, 0x22, 0xcc, 0xdd];
    let vm = EbpfVmRaw::new(&prog).unwrap();
    assert_eq!(vm.prog_exec(&mut mem).unwrap(), 0xddcc);
}

#[test]
fn load_one_past_region_end_faults() {
    let prog = vec![
        0x69, 0x10, 0x05, 0x00, 0x00, 0x00, 0x00, 0x00, // ldxh r0, [r1+5]
        0x95, 0x00, 0x00, 0x00, 0x00, 0x00, 0x00, 0x00, // exit
    ];
    let mut mem = vec![0xaa, 0xbb, 0x11, 0x22, 0xcc, 0xdd];
    let vm = EbpfVmRaw::new(&prog).unwrap();
    match vm.prog_exec(&mut mem) {
        Err(VmError::OutOfBoundsAccess { addr, width, .. }) => {
            assert_eq!(addr, MEM_BASE + 5);
            assert_eq!(width, 2);
        }
        other => panic!("expected an out-of-bounds abort, got {:?}", other),
    }
}

#[test]
fn mov32_zero_extends_immediate() {
    let prog = vec![
        0xb4, 0x00, 0x00, 0x00, 0xff, 0xff, 0xff, 0xff, // mov32 r0, -1
        0x95, 0x00, 0x00, 0x00, 0x00, 0x00, 0x00, 0x00, // exit
    ];
    let vm = EbpfVmNoData::new(&prog).unwrap();
    assert_eq!(vm.prog_exec().unwrap(), 0xffffffff);
}

#[test]
fn add32_zeroes_upper_half() {
    let prog = vec![
        0xb7, 0x00, 0x00, 0x00, 0xff, 0xff, 0xff, 0xff, // mov64 r0, -1 (sign-extended)
        0x04, 0x00, 0x00, 0x00, 0x01, 0x00, 0x00, 0x00, // add32 r0, 1
        0x95, 0x00, 0x00, 0x00, 0x00, 0x00, 0x00, 0x00, // exit
    ];
    let vm = EbpfVmNoData::new(&prog).unwrap();
    assert_eq!(vm.prog_exec().unwrap(), 0);
}

#[test]
fn mul_div_mod_32() {
    let prog = vec![
        0xb7, 0x00, 0x00, 0x00, 0x03, 0x00, 0x00, 0x00, // mov64 r0, 3
        0x24, 0x00, 0x00, 0x00, 0x1d, 0x00, 0x00, 0x00, // mul32 r0, 29 -> 87
        0x34, 0x00, 0x00, 0x00, 0x04, 0x00, 0x00, 0x00, // div32 r0, 4 -> 21
        0x94, 0x00, 0x00, 0x00, 0x05, 0x00, 0x00, 0x00, // mod32 r0, 5 -> 1
        0x95, 0x00, 0x00, 0x00, 0x00, 0x00, 0x00, 0x00, // exit
    ];
    let vm = EbpfVmNoData::new(&prog).unwrap();
    assert_eq!(vm.prog_exec().unwrap(), 1);
}

#[test]
fn arsh64_sign_extends() {
    let prog = vec![
        0xb7, 0x00, 0x00, 0x00, 0xdd, 0x00, 0x00, 0x00, // mov64 r0, 0xdd
        0x67, 0x00, 0x00, 0x00, 0x38, 0x00, 0x00, 0x00, // lsh64 r0, 56
        0xc7, 0x00, 0x00, 0x00, 0x38, 0x00, 0x00, 0x00, // arsh64 r0, 56
        0x95, 0x00, 0x00, 0x00, 0x00, 0x00, 0x00, 0x00, // exit
    ];
    let vm = EbpfVmNoData::new(&prog).unwrap();
    assert_eq!(vm.prog_exec().unwrap(), 0xffffffffffffffdd);
}

#[test]
fn conditional_jump_taken() {
    let prog = vec![
        0xb7, 0x00, 0x00, 0x00, 0x00, 0x00, 0x00, 0x00, // mov64 r0, 0
        0xb7, 0x01, 0x00, 0x00, 0x05, 0x00, 0x00, 0x00, // mov64 r1, 5
        0x15, 0x01, 0x01, 0x00, 0x05, 0x00, 0x00, 0x00, // jeq r1, 5, +1
        0x95, 0x00, 0x00, 0x00, 0x00, 0x00, 0x00, 0x00, // exit
        0xb7, 0x00, 0x00, 0x00, 0x01, 0x00, 0x00, 0x00, // mov64 r0, 1
        0x95, 0x00, 0x00, 0x00, 0x00, 0x00, 0x00, 0x00, // exit
    ];
    let vm = EbpfVmNoData::new(&prog).unwrap();
    assert_eq!(vm.prog_exec().unwrap(), 1);
}

#[test]
fn signed_jump_on_negative_value() {
    let prog = vec![
        0xb7, 0x00, 0x00, 0x00, 0x00, 0x00, 0x00, 0x00, // mov64 r0, 0
        0xb7, 0x01, 0x00, 0x00, 0xff, 0xff, 0xff, 0xff, // mov64 r1, -1
        0x65, 0x01, 0x01, 0x00, 0xfe, 0xff, 0xff, 0xff, // jsgt r1, -2, +1
        0x95, 0x00, 0x00, 0x00, 0x00, 0x00, 0x00, 0x00, // exit
        0xb7, 0x00, 0x00, 0x00, 0x01, 0x00, 0x00, 0x00, // mov64 r0, 1
        0x95, 0x00, 0x00, 0x00, 0x00, 0x00, 0x00, 0x00, // exit
    ];
    let vm = EbpfVmNoData::new(&prog).unwrap();
    assert_eq!(vm.prog_exec().unwrap(), 1);
}

#[test]
fn store_is_visible_in_packet_after_run() {
    let prog = vec![
        0x72, 0x01, 0x00, 0x00, 0xab, 0x00, 0x00, 0x00, // stb [r1+0], 0xab
        0xb7, 0x00, 0x00, 0x00, 0x00, 0x00, 0x00, 0x00, // mov64 r0, 0
        0x95, 0x00, 0x00, 0x00, 0x00, 0x00, 0x00, 0x00, // exit
    ];
    let mut mem = vec![0x00, 0x11];
    let vm = EbpfVmRaw::new(&prog).unwrap();
    assert_eq!(vm.prog_exec(&mut mem).unwrap(), 0);
    assert_eq!(mem, vec![0xab, 0x11]);
}

#[test]
fn two_runs_agree() {
    let prog = vec![
        0x71, 0x11, 0x04, 0x00, 0x00, 0x00, 0x00, 0x00, // ldxb r1, [r1+4]
        0x07, 0x01, 0x00, 0x00, 0x00, 0x22, 0x00, 0x00, // add64 r1, 0x2200
        0xbf, 0x10, 0x00, 0x00, 0x00, 0x00, 0x00, 0x00, // mov64 r0, r1
        0x95, 0x00, 0x00, 0x00, 0x00, 0x00, 0x00, 0x00, // exit
    ];
    let vm = EbpfVmRaw::new(&prog).unwrap();
    let mut mem1 = vec![0xaa, 0xbb, 0x11, 0x22, 0xcc, 0xdd];
    let mut mem2 = vec![0xaa, 0xbb, 0x11, 0x22, 0xcc, 0xdd];
    let r1 = vm.prog_exec(&mut mem1).unwrap();
    let r2 = vm.prog_exec(&mut mem2).unwrap();
    assert_eq!(r1, 0x22cc);
    assert_eq!(r1, r2);
    assert_eq!(mem1, mem2);
}

#[test]
fn unimplemented_opcode_faults_at_run_time() {
    let prog = vec![
        0x30, 0x00, 0x00, 0x00, 0x00, 0x00, 0x00, 0x00, // absolute byte load
        0x95, 0x00, 0x00, 0x00, 0x00, 0x00, 0x00, 0x00, // exit
    ];
    let vm = EbpfVmNoData::new(&prog).unwrap();
    assert_eq!(
        vm.prog_exec(),
        Err(VmError::UnimplementedInstruction { insn_ptr: 0, opc: 0x30 })
    );
}

#[test]
fn bad_endianness_width_faults() {
    let prog = vec![
        0xd4, 0x00, 0x00, 0x00, 0x08, 0x00, 0x00, 0x00, // le with width 8
        0x95, 0x00, 0x00, 0x00, 0x00, 0x00, 0x00, 0x00, // exit
    ];
    let vm = EbpfVmNoData::new(&prog).unwrap();
    assert_eq!(
        vm.prog_exec(),
        Err(VmError::BadEndiannessWidth { insn_ptr: 0, imm: 8 })
    );
}

#[test]
fn alu_chain_no_data() {
    let prog = vec![
        0xb7, 0x00, 0x00, 0x00, 0x00, 0x00, 0x00, 0x00, // mov64 r0, 0
        0xb7, 0x01, 0x00, 0x00, 0x01, 0x00, 0x00, 0x00, // mov64 r1, 1
        0xb7, 0x02, 0x00, 0x00, 0x02, 0x00, 0x00, 0x00, // mov64 r2, 2
        0xb7, 0x03, 0x00, 0x00, 0x03, 0x00, 0x00, 0x00, // mov64 r3, 3
        0xb7, 0x04, 0x00, 0x00, 0x04, 0x00, 0x00, 0x00, // mov64 r4, 4
        0xb7, 0x05, 0x00, 0x00, 0x05, 0x00, 0x00, 0x00, // mov64 r5, 5
        0xb7, 0x06, 0x00, 0x00, 0x06, 0x00, 0x00, 0x00, // mov64 r6, 6
        0xb7, 0x07, 0x00, 0x00, 0x07, 0x00, 0x00, 0x00, // mov64 r7, 7
        0xb7, 0x08, 0x00, 0x00, 0x08, 0x00, 0x00, 0x00, // mov64 r8, 8
        0x4f, 0x50, 0x00, 0x00, 0x00, 0x00, 0x00, 0x00, // or64 r0, r5
        0x47, 0x00, 0x00, 0x00, 0xa0, 0x00, 0x00, 0x00, // or64 r0, 0xa0
        0x57, 0x00, 0x00, 0x00, 0xa3, 0x00, 0x00, 0x00, // and64 r0, 0xa3
        0xb7, 0x09, 0x00, 0x00, 0x91, 0x00, 0x00, 0x00, // mov64 r9, 0x91
        0x5f, 0x90, 0x00, 0x00, 0x00, 0x00, 0x00, 0x00, // and64 r0, r9
        0x67, 0x00, 0x00, 0x00, 0x20, 0x00, 0x00, 0x00, // lsh64 r0, 32
        0x67, 0x00, 0x00, 0x00, 0x16, 0x00, 0x00, 0x00, // lsh64 r0, 22
        0x6f, 0x80, 0x00, 0x00, 0x00, 0x00, 0x00, 0x00, // lsh64 r0, r8
        0x77, 0x00, 0x00, 0x00, 0x20, 0x00, 0x00, 0x00, // rsh64 r0, 32
        0x77, 0x00, 0x00, 0x00, 0x13, 0x00, 0x00, 0x00, // rsh64 r0, 19
        0x7f, 0x70, 0x00, 0x00, 0x00, 0x00, 0x00, 0x00, // rsh64 r0, r7
        0xa7, 0x00, 0x00, 0x00, 0x03, 0x00, 0x00, 0x00, // xor64 r0, 3
        0xaf, 0x20, 0x00, 0x00, 0x00, 0x00, 0x00, 0x00, // xor64 r0, r2
        0x95, 0x00, 0x00, 0x00, 0x00, 0x00, 0x00, 0x00, // exit
    ];
    let vm = EbpfVmNoData::new(&prog).unwrap();
    assert_eq!(vm.prog_exec().unwrap(), 0x11);
}

#[test]
fn fixed_mbuff_classifier() {
    let prog = vec![
        0xb7, 0x00, 0x00, 0x00, 0x00, 0x00, 0x00, 0x00, // mov64 r0, 0
        0x79, 0x12, 0x40, 0x00, 0x00, 0x00, 0x00, 0x00, // ldxdw r2, [r1+0x40]
        0x07, 0x02, 0x00, 0x00, 0x05, 0x00, 0x00, 0x00, // add64 r2, 5
        0x79, 0x11, 0x50, 0x00, 0x00, 0x00, 0x00, 0x00, // ldxdw r1, [r1+0x50]
        0x2d, 0x12, 0x03, 0x00, 0x00, 0x00, 0x00, 0x00, // jgt r2, r1, +3
        0x71, 0x20, 0x00, 0x00, 0x00, 0x00, 0x00, 0x00, // ldxb r0, [r2+0]
        0x67, 0x00, 0x00, 0x00, 0x38, 0x00, 0x00, 0x00, // lsh64 r0, 56
        0xc7, 0x00, 0x00, 0x00, 0x38, 0x00, 0x00, 0x00, // arsh64 r0, 56
        0x95, 0x00, 0x00, 0x00, 0x00, 0x00, 0x00, 0x00, // exit
    ];
    let mut mem1 = vec![0xaa, 0xbb, 0x11, 0x22, 0xcc, 0xdd];
    let mut mem2 = vec![0xaa, 0xbb, 0x11, 0x22, 0xcc, 0x27];
    let mut vm = EbpfVmFixedMbuff::new(&prog, 0x40, 0x50).unwrap();
    assert_eq!(vm.prog_exec(&mut mem1).unwrap(), 0xffffffffffffffdd);
    assert_eq!(vm.prog_exec(&mut mem2).unwrap(), 0x27);
}

#[test]
fn raw_vm_byte_load_and_add() {
    let prog = vec![
        0x71, 0x11, 0x04, 0x00, 0x00, 0x00, 0x00, 0x00, // ldxb r1, [r1+4]
        0x07, 0x01, 0x00, 0x00, 0x00, 0x22, 0x00, 0x00, // add64 r1, 0x2200
        0xbf, 0x10, 0x00, 0x00, 0x00, 0x00, 0x00, 0x00, // mov64 r0, r1
        0x95, 0x00, 0x00, 0x00, 0x00, 0x00, 0x00, 0x00, // exit
    ];
    let mut mem = vec![0xaa, 0xbb, 0x11, 0x22, 0xcc, 0xdd];
    let vm = EbpfVmRaw::new(&prog).unwrap();
    assert_eq!(vm.prog_exec(&mut mem).unwrap(), 0x22cc);
}

#[test]
fn raw_vm_helper_on_loaded_word() {
    let prog = vec![
        0x79, 0x11, 0x00, 0x00, 0x00, 0x00, 0x00, 0x00, // ldxdw r1, [r1+0]
        0xb7, 0x02, 0x00, 0x00, 0x00, 0x00, 0x00, 0x00, // mov64 r2, 0
        0xb7, 0x03, 0x00, 0x00, 0x00, 0x00, 0x00, 0x00, // mov64 r3, 0
        0xb7, 0x04, 0x00, 0x00, 0x00, 0x00, 0x00, 0x00, // mov64 r4, 0
        0xb7, 0x05, 0x00, 0x00, 0x00, 0x00, 0x00, 0x00, // mov64 r5, 0
        0x85, 0x00, 0x00, 0x00, 0x01, 0x00, 0x00, 0x00, // call key 1
        0x95, 0x00, 0x00, 0x00, 0x00, 0x00, 0x00, 0x00, // exit
    ];
    let mut mem = vec![0x00, 0x00, 0x00, 0x00, 0x00, 0x00, 0x00, 0x01];
    let mut vm = EbpfVmRaw::new(&prog).unwrap();
    vm.register_helper(1, HelperFn(sqrti));
    assert_eq!(vm.prog_exec(&mut mem).unwrap(), 0x10000000);
}

#[test]
fn fixed_mbuff_set_prog_replaces_program_and_offsets() {
    let prog1 = vec![
        0xb7, 0x00, 0x00, 0x00, 0x00, 0x00, 0x00, 0x00, // mov64 r0, 0
        0x95, 0x00, 0x00, 0x00, 0x00, 0x00, 0x00, 0x00, // exit
    ];
    let prog2 = vec![
        0xb7, 0x00, 0x00, 0x00, 0x00, 0x00, 0x00, 0x00, // mov64 r0, 0
        0x79, 0x12, 0x40, 0x00, 0x00, 0x00, 0x00, 0x00, // ldxdw r2, [r1+0x40]
        0x07, 0x02, 0x00, 0x00, 0x05, 0x00, 0x00, 0x00, // add64 r2, 5
        0x79, 0x11, 0x50, 0x00, 0x00, 0x00, 0x00, 0x00, // ldxdw r1, [r1+0x50]
        0x2d, 0x12, 0x01, 0x00, 0x00, 0x00, 0x00, 0x00, // jgt r2, r1, +1
        0x71, 0x20, 0x00, 0x00, 0x00, 0x00, 0x00, 0x00, // ldxb r0, [r2+0]
        0x95, 0x00, 0x00, 0x00, 0x00, 0x00, 0x00, 0x00, // exit
    ];
    let mut mem = vec![0xaa, 0xbb, 0x11, 0x22, 0xcc, 0x27];
    let mut vm = EbpfVmFixedMbuff::new(&prog1, 0, 0).unwrap();
    vm.set_prog(&prog2, 0x40, 0x50).unwrap();
    assert_eq!(vm.prog_exec(&mut mem).unwrap(), 0x27);
}

#[test]
fn no_data_set_prog_switches_program() {
    let prog1 = vec![
        0xb7, 0x00, 0x00, 0x00, 0x11, 0x22, 0x00, 0x00, // mov32 r0, 0x2211
        0x95, 0x00, 0x00, 0x00, 0x00, 0x00, 0x00, 0x00, // exit
    ];
    let prog2 = vec![
        0xb7, 0x00, 0x00, 0x00, 0x11, 0x22, 0x00, 0x00, // mov32 r0, 0x2211
        0xdc, 0x00, 0x00, 0x00, 0x10, 0x00, 0x00, 0x00, // be16 r0
        0x95, 0x00, 0x00, 0x00, 0x00, 0x00, 0x00, 0x00, // exit
    ];
    let mut vm = EbpfVmNoData::new(&prog1).unwrap();
    assert_eq!(vm.prog_exec().unwrap(), 0x2211);
    vm.set_prog(&prog2).unwrap();
    assert_eq!(vm.prog_exec().unwrap(), 0x1122);
}

#[test]
fn falling_off_the_end_returns_zero() {
    // the wide load consumes the terminal slot as its data, so the run falls
    // off the end without reaching EXIT and returns 0
    let prog = vec![
        0xb7, 0x00, 0x00, 0x00, 0x2a, 0x00, 0x00, 0x00, // mov64 r0, 42
        0x18, 0x01, 0x00, 0x00, 0x00, 0x00, 0x00, 0x00, // lddw r1, ...
        0x95, 0x00, 0x00, 0x00, 0x00, 0x00, 0x00, 0x00, // exit (data slot)
    ];
    let vm = EbpfVmNoData::new(&prog).unwrap();
    assert_eq!(vm.prog_exec().unwrap(), 0);
}

#[test]
fn register_one_seeded_with_packet_base_when_no_mbuff() {
    let prog = vec![
        0xbf, 0x10, 0x00, 0x00, 0x00, 0x00, 0x00, 0x00, // mov64 r0, r1
        0x95, 0x00, 0x00, 0x00, 0x00, 0x00, 0x00, 0x00, // exit
    ];
    let mut mem = vec![0x01];
    let vm = EbpfVmRaw::new(&prog).unwrap();
    assert_eq!(vm.prog_exec(&mut mem).unwrap(), MEM_BASE);
}

#[test]
fn register_one_zero_without_any_region() {
    let prog = vec![
        0xbf, 0x10, 0x00, 0x00, 0x00, 0x00, 0x00, 0x00, // mov64 r0, r1
        0x95, 0x00, 0x00, 0x00, 0x00, 0x00, 0x00, 0x00, // exit
    ];
    let vm = EbpfVmNoData::new(&prog).unwrap();
    assert_eq!(vm.prog_exec().unwrap(), 0);
}

#[test]
fn frame_register_points_past_stack_top() {
    let prog = vec![
        0xbf, 0xa0, 0x00, 0x00, 0x00, 0x00, 0x00, 0x00, // mov64 r0, r10
        0x95, 0x00, 0x00, 0x00, 0x00, 0x00, 0x00, 0x00, // exit
    ];
    let vm = EbpfVmNoData::new(&prog).unwrap();
    assert_eq!(vm.prog_exec().unwrap(), STACK_BASE + 512);
}

#[test]
fn shift_counts_are_masked_to_width() {
    // a 32-bit shift by 33 shifts by 1; a 64-bit shift by 65 shifts by 1
    let prog = vec![
        0xb7, 0x00, 0x00, 0x00, 0x01, 0x00, 0x00, 0x00, // mov64 r0, 1
        0x64, 0x00, 0x00, 0x00, 0x21, 0x00, 0x00, 0x00, // lsh32 r0, 33
        0x67, 0x00, 0x00, 0x00, 0x41, 0x00, 0x00, 0x00, // lsh64 r0, 65
        0x95, 0x00, 0x00, 0x00, 0x00, 0x00, 0x00, 0x00, // exit
    ];
    let vm = EbpfVmNoData::new(&prog).unwrap();
    assert_eq!(vm.prog_exec().unwrap(), 4);
}

#[test]
fn neg32_zero_extends() {
    let prog = vec![
        0xb7, 0x00, 0x00, 0x00, 0x01, 0x00, 0x00, 0x00, // mov64 r0, 1
        0x84, 0x00, 0x00, 0x00, 0x00, 0x00, 0x00, 0x00, // neg32 r0
        0x95, 0x00, 0x00, 0x00, 0x00, 0x00, 0x00, 0x00, // exit
    ];
    let vm = EbpfVmNoData::new(&prog).unwrap();
    assert_eq!(vm.prog_exec().unwrap(), 0xffffffff);
}

#[test]
fn neg64_wraps() {
    let prog = vec![
        0xb7, 0x00, 0x00, 0x00, 0x01, 0x00, 0x00, 0x00, // mov64 r0, 1
        0x87, 0x00, 0x00, 0x00, 0x00, 0x00, 0x00, 0x00, // neg64 r0
        0x95, 0x00, 0x00, 0x00, 0x00, 0x00, 0x00, 0x00, // exit
    ];
    let vm = EbpfVmNoData::new(&prog).unwrap();
    assert_eq!(vm.prog_exec().unwrap(), 0xffffffffffffffff);
}

#[test]
fn div64_and_mod64_by_register() {
    let prog = vec![
        0xb7, 0x00, 0x00, 0x00, 0x64, 0x00, 0x00, 0x00, // mov64 r0, 100
        0xb7, 0x01, 0x00, 0x00, 0x09, 0x00, 0x00, 0x00, // mov64 r1, 9
        0x3f, 0x10, 0x00, 0x00, 0x00, 0x00, 0x00, 0x00, // div64 r0, r1 -> 11
        0x9f, 0x10, 0x00, 0x00, 0x00, 0x00, 0x00, 0x00, // mod64 r0, r1 -> 2
        0x95, 0x00, 0x00, 0x00, 0x00, 0x00, 0x00, 0x00, // exit
    ];
    let vm = EbpfVmNoData::new(&prog).unwrap();
    assert_eq!(vm.prog_exec().unwrap(), 2);
}

#[test]
fn div32_uses_truncated_divisor() {
    // the divisor register holds 1 << 32, whose low 32 bits are zero
    let prog = vec![
        0x18, 0x01, 0x00, 0x00, 0x00, 0x00, 0x00, 0x00, // lddw r1, 0x100000000
        0x00, 0x00, 0x00, 0x00, 0x01, 0x00, 0x00, 0x00, //
        0x3c, 0x10, 0x00, 0x00, 0x00, 0x00, 0x00, 0x00, // div32 r0, r1
        0x95, 0x00, 0x00, 0x00, 0x00, 0x00, 0x00, 0x00, // exit
    ];
    let vm = EbpfVmNoData::new(&prog).unwrap();
    assert_eq!(
        vm.prog_exec(),
        Err(VmError::DivisionByZero { insn_ptr: 2 })
    );
}

#[test]
fn stack_word_store_and_load() {
    let prog = vec![
        0x18, 0x01, 0x00, 0x00, 0xef, 0xbe, 0xad, 0xde, // lddw r1, 0xbaadf00ddeadbeef
        0x00, 0x00, 0x00, 0x00, 0x0d, 0xf0, 0xad, 0xba, //
        0x7b, 0x1a, 0xf8, 0xff, 0x00, 0x00, 0x00, 0x00, // stxdw [r10-8], r1
        0x79, 0xa0, 0xf8, 0xff, 0x00, 0x00, 0x00, 0x00, // ldxdw r0, [r10-8]
        0x95, 0x00, 0x00, 0x00, 0x00, 0x00, 0x00, 0x00, // exit
    ];
    let vm = EbpfVmNoData::new(&prog).unwrap();
    assert_eq!(vm.prog_exec().unwrap(), 0xbaadf00ddeadbeef);
}

#[test]
fn memory_uses_little_endian_order() {
    // store a halfword into the packet and observe its bytes
    let prog = vec![
        0x6a, 0x01, 0x00, 0x00, 0x11, 0x22, 0x00, 0x00, // sth [r1+0], 0x2211
        0xb7, 0x00, 0x00, 0x00, 0x00, 0x00, 0x00, 0x00, // mov64 r0, 0
        0x95, 0x00, 0x00, 0x00, 0x00, 0x00, 0x00, 0x00, // exit
    ];
    let mut mem = vec![0x00, 0x00];
    let vm = EbpfVmRaw::new(&prog).unwrap();
    assert_eq!(vm.prog_exec(&mut mem).unwrap(), 0);
    assert_eq!(mem, vec![0x11, 0x22]);
}

#[test]
fn jset_tests_bits() {
    let prog = vec![
        0xb7, 0x00, 0x00, 0x00, 0x00, 0x00, 0x00, 0x00, // mov64 r0, 0
        0xb7, 0x01, 0x00, 0x00, 0x08, 0x00, 0x00, 0x00, // mov64 r1, 8
        0x45, 0x01, 0x01, 0x00, 0x0c, 0x00, 0x00, 0x00, // jset r1, 0xc, +1
        0x95, 0x00, 0x00, 0x00, 0x00, 0x00, 0x00, 0x00, // exit
        0xb7, 0x00, 0x00, 0x00, 0x01, 0x00, 0x00, 0x00, // mov64 r0, 1
        0x95, 0x00, 0x00, 0x00, 0x00, 0x00, 0x00, 0x00, // exit
    ];
    let vm = EbpfVmNoData::new(&prog).unwrap();
    assert_eq!(vm.prog_exec().unwrap(), 1);
}

#[test]
fn mbuff_wins_when_regions_are_tried() {
    // the metadata buffer is tried first by the guard; reading at its base
    // returns its bytes, not the packet's
    let prog = vec![
        0x79, 0x11, 0x08, 0x00, 0x00, 0x00, 0x00, 0x00, // lddw r1, [r1+8]
        0x71, 0x10, 0x00, 0x00, 0x00, 0x00, 0x00, 0x00, // ldxb r0, [r1+0]
        0x95, 0x00, 0x00, 0x00, 0x00, 0x00, 0x00, 0x00, // exit
    ];
    let mut mem = vec![0x5a];
    let mut mbuff = vec![0u8; 16];
    mbuff[8..16].copy_from_slice(&MEM_BASE.to_le_bytes());
    let vm = EbpfVmMbuff::new(&prog).unwrap();
    assert_eq!(vm.prog_exec(&mut mem, &mut mbuff).unwrap(), 0x5a);
}
