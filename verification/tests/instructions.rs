//! The instruction record: decoding, encoding, and the round trip.

use rbpf::ebpf;
use rbpf::ebpf::{get_insn, Insn};
use rbpf::EbpfVmMbuff;

#[test]
fn decode_fields() {
    let prog = vec![
        0x69, 0x1a, 0x02, 0x00, 0x2c, 0x01, 0x00, 0x00, // ldxh r10, [r1+2] (imm 300)
        0x95, 0x00, 0x00, 0x00, 0x00, 0x00, 0x00, 0x00, // exit
    ];
    let insn = get_insn(&prog, 0);
    assert_eq!(insn.opc, ebpf::LD_H_REG);
    assert_eq!(insn.dst, 10);
    assert_eq!(insn.src, 1);
    assert_eq!(insn.off, 2);
    assert_eq!(insn.imm, 300);
}

#[test]
fn decode_negative_offset_and_immediate() {
    let prog = vec![
        0x7b, 0x1a, 0xf8, 0xff, 0xff, 0xff, 0xff, 0xff, // stxdw [r10-8], r1
    ];
    let insn = get_insn(&prog, 0);
    assert_eq!(insn.opc, ebpf::ST_DW_REG);
    assert_eq!(insn.dst, 10);
    assert_eq!(insn.src, 1);
    assert_eq!(insn.off, -8);
    assert_eq!(insn.imm, -1);
}

#[test]
fn encode_decoded_slot_gives_original_bytes() {
    let prog = vec![
        0x18, 0x00, 0x00, 0x00, 0xef, 0xbe, 0xad, 0xde, //
        0x00, 0x00, 0x00, 0x00, 0x0d, 0xf0, 0xad, 0xba, //
        0xdc, 0x01, 0x12, 0xfe, 0x40, 0x00, 0x00, 0x80, //
        0x95, 0x00, 0x00, 0x00, 0x00, 0x00, 0x00, 0x00, //
    ];
    for i in 0..4 {
        let insn = get_insn(&prog, i);
        assert_eq!(insn.to_vec(), prog[8 * i..8 * i + 8].to_vec());
    }
}

#[test]
fn encode_from_fields() {
    let insn = Insn { opc: ebpf::ADD64_IMM, dst: 3, src: 0, off: 0, imm: -7 };
    assert_eq!(
        insn.to_vec(),
        vec![0x07, 0x03, 0x00, 0x00, 0xf9, 0xff, 0xff, 0xff]
    );
}

#[test]
fn check_mem_accepts_inside_and_rejects_outside() {
    let mbuff = vec![0u8; 16];
    let mem = vec![0u8; 4];
    let stack = vec![0u8; 512];
    assert!(EbpfVmMbuff::check_mem(rbpf::model::MEM_BASE, 4, &mbuff, &mem, &stack));
    assert!(EbpfVmMbuff::check_mem(rbpf::model::MEM_BASE + 2, 2, &mbuff, &mem, &stack));
    assert!(!EbpfVmMbuff::check_mem(rbpf::model::MEM_BASE + 2, 3, &mbuff, &mem, &stack));
    assert!(EbpfVmMbuff::check_mem(rbpf::model::MBUFF_BASE + 8, 8, &mbuff, &mem, &stack));
    assert!(!EbpfVmMbuff::check_mem(rbpf::model::MBUFF_BASE + 9, 8, &mbuff, &mem, &stack));
    assert!(EbpfVmMbuff::check_mem(rbpf::model::STACK_BASE + 511, 1, &mbuff, &mem, &stack));
    assert!(!EbpfVmMbuff::check_mem(rbpf::model::STACK_BASE + 512, 1, &mbuff, &mem, &stack));
    assert!(!EbpfVmMbuff::check_mem(0, 1, &mbuff, &mem, &stack));
    assert!(!EbpfVmMbuff::check_mem(u64::MAX, 1, &mbuff, &mem, &stack));
}
