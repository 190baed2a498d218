//! Load-time behaviour: what the verifier rejects, and what loading keeps.

use rbpf::{EbpfVmMbuff, EbpfVmNoData, VmError};

#[test]
fn empty_program_is_rejected() {
    let prog = vec![];
    assert_eq!(
        EbpfVmMbuff::new(&prog).err(),
        Some(VmError::InvalidProgramLength { len: 0 })
    );
}

#[test]
fn ragged_program_is_rejected() {
    let prog = vec![0xb7, 0x00, 0x00, 0x00];
    assert_eq!(
        EbpfVmMbuff::new(&prog).err(),
        Some(VmError::InvalidProgramLength { len: 4 })
    );
}

#[test]
fn program_without_terminal_exit_is_rejected() {
    let prog = vec![
        0xb7, 0x00, 0x00, 0x00, 0x00, 0x00, 0x00, 0x00, // mov64 r0, 0
        0xb7, 0x01, 0x00, 0x00, 0x00, 0x00, 0x00, 0x00, // mov64 r1, 0
    ];
    assert_eq!(EbpfVmMbuff::new(&prog).err(), Some(VmError::NoTerminalExit));
}

#[test]
fn unknown_opcode_is_rejected() {
    let prog = vec![
        0x06, 0x00, 0x00, 0x00, 0x00, 0x00, 0x00, 0x00, // no such opcode
        0x95, 0x00, 0x00, 0x00, 0x00, 0x00, 0x00, 0x00, // exit
    ];
    assert_eq!(
        EbpfVmMbuff::new(&prog).err(),
        Some(VmError::UnknownOpcode { insn_ptr: 0, opc: 0x06 })
    );
}

#[test]
fn register_index_above_ten_is_rejected() {
    let prog = vec![
        0xb7, 0x0b, 0x00, 0x00, 0x00, 0x00, 0x00, 0x00, // mov64 r11, 0
        0x95, 0x00, 0x00, 0x00, 0x00, 0x00, 0x00, 0x00, // exit
    ];
    assert_eq!(
        EbpfVmMbuff::new(&prog).err(),
        Some(VmError::InvalidRegister { insn_ptr: 0 })
    );
}

#[test]
fn write_to_frame_register_is_rejected() {
    let prog = vec![
        0xb7, 0x0a, 0x00, 0x00, 0x00, 0x00, 0x00, 0x00, // mov64 r10, 0
        0x95, 0x00, 0x00, 0x00, 0x00, 0x00, 0x00, 0x00, // exit
    ];
    assert_eq!(
        EbpfVmMbuff::new(&prog).err(),
        Some(VmError::WriteToFrameRegister { insn_ptr: 0 })
    );
}

#[test]
fn store_through_frame_register_is_accepted() {
    // a store names r10 only as an address base and does not write it
    let prog = vec![
        0x72, 0x0a, 0xff, 0xff, 0x2a, 0x00, 0x00, 0x00, // stb [r10-1], 42
        0xb7, 0x00, 0x00, 0x00, 0x00, 0x00, 0x00, 0x00, // mov64 r0, 0
        0x95, 0x00, 0x00, 0x00, 0x00, 0x00, 0x00, 0x00, // exit
    ];
    assert!(EbpfVmMbuff::new(&prog).is_ok());
}

#[test]
fn branch_out_of_bounds_is_rejected() {
    let prog = vec![
        0x05, 0x00, 0x05, 0x00, 0x00, 0x00, 0x00, 0x00, // ja +5
        0x95, 0x00, 0x00, 0x00, 0x00, 0x00, 0x00, 0x00, // exit
    ];
    assert_eq!(
        EbpfVmMbuff::new(&prog).err(),
        Some(VmError::JumpOutOfBounds { insn_ptr: 0 })
    );
}

#[test]
fn backward_branch_before_start_is_rejected() {
    let prog = vec![
        0x05, 0x00, 0xfe, 0xff, 0x00, 0x00, 0x00, 0x00, // ja -2
        0x95, 0x00, 0x00, 0x00, 0x00, 0x00, 0x00, 0x00, // exit
    ];
    assert_eq!(
        EbpfVmMbuff::new(&prog).err(),
        Some(VmError::JumpOutOfBounds { insn_ptr: 0 })
    );
}

#[test]
fn branch_offset_minus_one_is_accepted() {
    // the branch lands on itself: statically valid, an infinite loop at run
    // time
    let prog = vec![
        0x05, 0x00, 0xff, 0xff, 0x00, 0x00, 0x00, 0x00, // ja -1
        0x95, 0x00, 0x00, 0x00, 0x00, 0x00, 0x00, 0x00, // exit
    ];
    assert!(EbpfVmMbuff::new(&prog).is_ok());
}

#[test]
fn division_by_zero_immediate_is_rejected() {
    let prog = vec![
        0x37, 0x00, 0x00, 0x00, 0x00, 0x00, 0x00, 0x00, // div64 r0, 0
        0x95, 0x00, 0x00, 0x00, 0x00, 0x00, 0x00, 0x00, // exit
    ];
    assert_eq!(
        EbpfVmMbuff::new(&prog).err(),
        Some(VmError::ZeroDivisorImmediate { insn_ptr: 0 })
    );
}

#[test]
fn modulus_by_zero_immediate_is_rejected() {
    let prog = vec![
        0x94, 0x00, 0x00, 0x00, 0x00, 0x00, 0x00, 0x00, // mod32 r0, 0
        0x95, 0x00, 0x00, 0x00, 0x00, 0x00, 0x00, 0x00, // exit
    ];
    assert_eq!(
        EbpfVmMbuff::new(&prog).err(),
        Some(VmError::ZeroDivisorImmediate { insn_ptr: 0 })
    );
}

#[test]
fn wide_load_may_consume_the_terminal_slot() {
    // the data slot of a wide immediate load is skipped by the scan
    let prog = vec![
        0x18, 0x00, 0x00, 0x00, 0x00, 0x00, 0x00, 0x00, // lddw r0, ...
        0x95, 0x00, 0x00, 0x00, 0x00, 0x00, 0x00, 0x00, // exit (data slot)
        0x95, 0x00, 0x00, 0x00, 0x00, 0x00, 0x00, 0x00, // exit
    ];
    assert!(EbpfVmMbuff::new(&prog).is_ok());
}

#[test]
fn rejected_set_prog_keeps_previous_program() {
    let good = vec![
        0xb7, 0x00, 0x00, 0x00, 0x2a, 0x00, 0x00, 0x00, // mov64 r0, 42
        0x95, 0x00, 0x00, 0x00, 0x00, 0x00, 0x00, 0x00, // exit
    ];
    let bad = vec![
        0xb7, 0x00, 0x00, 0x00, 0x07, 0x00, 0x00, 0x00, // mov64 r0, 7
    ];
    let mut vm = EbpfVmNoData::new(&good).unwrap();
    assert_eq!(vm.set_prog(&bad), Err(VmError::NoTerminalExit));
    assert_eq!(vm.prog_exec().unwrap(), 42);
}

#[test]
fn scan_reports_first_offending_instruction() {
    let prog = vec![
        0xb7, 0x00, 0x00, 0x00, 0x00, 0x00, 0x00, 0x00, // mov64 r0, 0
        0xb7, 0x0b, 0x00, 0x00, 0x00, 0x00, 0x00, 0x00, // mov64 r11, 0
        0x95, 0x00, 0x00, 0x00, 0x00, 0x00, 0x00, 0x00, // exit
    ];
    assert_eq!(
        EbpfVmMbuff::new(&prog).err(),
        Some(VmError::InvalidRegister { insn_ptr: 1 })
    );
}
