use rust_vm_v2::errors::VmError;
use rust_vm_v2::vm::{get_addr_from_two_bytes, Ix, IxType, Register, VM};

#[test]
fn new_vm_is_zeroed() {
    let vm = VM::new();
    for i in 0..10 {
        assert_eq!(vm.registers[i], 0);
    }
}

#[test]
fn register_from_byte_covers_the_table() {
    assert_eq!(Register::from_byte(0), Ok(Register::A));
    assert_eq!(Register::from_byte(8), Ok(Register::SP));
    assert_eq!(Register::from_byte(9), Ok(Register::PC));
    assert_eq!(Register::from_byte(10), Ok(Register::DP));
    assert_eq!(Register::from_byte(11), Err(VmError::InvalidRegister));
    assert_eq!(Register::A.into_usize(), 0);
    assert_eq!(Register::PC.into_usize(), 9);
    assert_eq!(Register::DP.into_usize(), 10);
}

#[test]
fn ix_type_from_byte_covers_the_table() {
    assert_eq!(IxType::from_byte(0), Ok(IxType::NOP));
    assert_eq!(IxType::from_byte(1), Ok(IxType::MOV));
    assert_eq!(IxType::from_byte(2), Ok(IxType::LDM));
    assert_eq!(IxType::from_byte(3), Ok(IxType::STM));
    assert_eq!(IxType::from_byte(4), Ok(IxType::ADD));
    assert_eq!(IxType::from_byte(5), Err(VmError::InvalidOpcode));
}

#[test]
fn address_is_big_endian() {
    assert_eq!(get_addr_from_two_bytes(0x12, 0x34), 0x1234);
    assert_eq!(get_addr_from_two_bytes(0x00, 0x00), 0);
    assert_eq!(get_addr_from_two_bytes(0xFF, 0xFF), 0xFFFF);
}

#[test]
fn inc_and_dec_reg() {
    let mut vm = VM::new();
    vm.inc_reg(Register::B, 5);
    assert_eq!(vm.registers[1], 5);
    vm.dec_reg(Register::B, 2);
    assert_eq!(vm.registers[1], 3);
}

#[test]
fn mov_sets_each_register_zero_extended() {
    // Slots 0 through 8; the program counter is overwritten by the
    // advance and DP has no slot.
    for rb in 0u8..9u8 {
        let mut vm = VM::new();
        vm.memory.load_ix(0, &[0x01, 0x02, rb, 0xFE]).unwrap();
        assert_eq!(vm.exec_seq(), Ok(()));
        assert_eq!(vm.registers[rb as usize], 0x00FE);
    }
}

#[test]
fn stm_then_ldm_round_trips_low_byte() {
    let mut vm = VM::new();
    vm.registers[2] = 0x1234;
    let program = [
        0x03, 0x03, 0x00, 0x40, 0x02, // STM data[0x40] <- low8(reg C)
        0x02, 0x03, 0x00, 0x40, 0x04, // LDM reg E <- data[0x40]
    ];
    vm.memory.load_ix(0, &program).unwrap();
    assert_eq!(vm.exec_seq(), Ok(()));
    assert_eq!(vm.memory.read_data_seg(0x40), Ok(0x34));
    assert_eq!(vm.registers[4], 0x0034);
    assert_eq!(vm.registers[2], 0x1234);
}

#[test]
fn add_wraps_at_sixteen_bits() {
    let mut vm = VM::new();
    vm.registers[1] = 0xFFFF;
    vm.memory.write_data_seg(0x01, 0x10).unwrap();
    vm.memory.load_ix(0, &[0x04, 0x03, 0x00, 0x10, 0x01]).unwrap();
    assert_eq!(vm.exec_seq(), Ok(()));
    assert_eq!(vm.registers[1], 0);
}

#[test]
fn add_accumulates_without_wrap() {
    let mut vm = VM::new();
    vm.registers[3] = 0x00F0;
    vm.memory.write_data_seg(0x0A, 0x20).unwrap();
    vm.memory.load_ix(0, &[0x04, 0x03, 0x00, 0x20, 0x03]).unwrap();
    assert_eq!(vm.exec_seq(), Ok(()));
    assert_eq!(vm.registers[3], 0x00FA);
}

#[test]
fn pc_advances_by_operand_length_plus_two() {
    // MOV carries two operand bytes.
    let mut vm = VM::new();
    vm.memory.load_ix(0, &[0x01, 0x02, 0x00, 0x07]).unwrap();
    assert_eq!(vm.exec_seq(), Ok(()));
    assert_eq!(vm.registers[9], 4);

    // LDM, STM and ADD carry three.
    let mut vm = VM::new();
    vm.memory.load_ix(0, &[0x02, 0x03, 0x00, 0x05, 0x01]).unwrap();
    assert_eq!(vm.exec_seq(), Ok(()));
    assert_eq!(vm.registers[9], 5);

    let mut vm = VM::new();
    vm.memory.load_ix(0, &[0x03, 0x03, 0x00, 0x06, 0x02]).unwrap();
    assert_eq!(vm.exec_seq(), Ok(()));
    assert_eq!(vm.registers[9], 5);

    let mut vm = VM::new();
    vm.memory.load_ix(0, &[0x04, 0x03, 0x00, 0x06, 0x02]).unwrap();
    assert_eq!(vm.exec_seq(), Ok(()));
    assert_eq!(vm.registers[9], 5);

    // The terminator halts the loop before any advance.
    let mut vm = VM::new();
    assert_eq!(vm.exec_seq(), Ok(()));
    assert_eq!(vm.registers[9], 0);
}

#[test]
fn sequential_runs_every_instruction_in_order() {
    let mut vm = VM::new();
    let program = [
        0x01, 0x02, 0x00, 0x05, // MOV A <- 5
        0x01, 0x02, 0x01, 0x07, // MOV B <- 7
        0x03, 0x03, 0x00, 0x02, 0x00, // STM data[2] <- low8(A)
    ];
    vm.memory.load_ix(0, &program).unwrap();
    assert_eq!(vm.exec_seq(), Ok(()));
    assert_eq!(vm.registers[0], 5);
    assert_eq!(vm.registers[1], 7);
    assert_eq!(vm.memory.read_data_seg(2), Ok(5));
    assert_eq!(vm.registers[9], 13);
}

#[test]
fn end_to_end_mov_immediate() {
    let mut vm = VM::new();
    vm.memory.load_ix(0, &[0x01, 0x02, 0x00, 0x01]).unwrap();
    assert_eq!(vm.exec_seq(), Ok(()));
    assert_eq!(vm.registers[0], 1);
    assert_eq!(vm.registers[9], 4);
}

#[test]
fn invalid_opcode_is_surfaced() {
    let mut vm = VM::new();
    vm.memory.load_ix(0, &[0x05, 0x00]).unwrap();
    assert_eq!(vm.exec_seq(), Err(VmError::InvalidOpcode));
}

#[test]
fn invalid_register_is_surfaced() {
    let mut vm = VM::new();
    vm.memory.load_ix(0, &[0x01, 0x02, 0x0B, 0x05]).unwrap();
    assert_eq!(vm.exec_seq(), Err(VmError::InvalidRegister));
}

#[test]
fn stm_rejects_an_invalid_register_byte() {
    let mut vm = VM::new();
    // STM with register identifier byte 11, past the identifier table.
    vm.memory.load_ix(0, &[0x03, 0x03, 0x00, 0x10, 0x0B]).unwrap();
    assert_eq!(vm.exec_seq(), Err(VmError::InvalidRegister));
    // Nothing was executed: no data write, no advance.
    assert_eq!(vm.memory.read_data_seg(0x10), Ok(0));
    assert_eq!(vm.registers[9], 0);
}

#[test]
fn out_of_bounds_data_access_is_surfaced() {
    let mut vm = VM::new();
    // LDM from data address 0x2001, one past the accepted boundary.
    vm.memory.load_ix(0, &[0x02, 0x03, 0x20, 0x01, 0x00]).unwrap();
    assert_eq!(vm.exec_seq(), Err(VmError::OutOfBounds));
}

#[test]
fn exec_ix_applies_one_instruction() {
    let mut vm = VM::new();
    let inx = Ix { ix_type: IxType::MOV, ix_data_size: 2, ix_data: vec![0x03, 0x2A] };
    assert_eq!(vm.exec_ix(inx), Ok(()));
    assert_eq!(vm.registers[3], 0x2A);
    assert_eq!(vm.registers[9], 4);

    let nop = Ix { ix_type: IxType::NOP, ix_data_size: 0, ix_data: vec![] };
    assert_eq!(vm.exec_ix(nop), Ok(()));
    assert_eq!(vm.registers[9], 6);
}

#[test]
fn concurrent_dispatches_nothing_below_ten_instructions() {
    let mut vm = VM::new();
    // Four instructions before the terminator: 4 / 10 batches is zero.
    for k in 0..4u16 {
        vm.memory.load_ix(4 * k, &[0x01, 0x02, 0x00, 0x09]).unwrap();
    }
    assert_eq!(vm.exec_concurrent(), Ok(()));
    assert_eq!(vm.registers[0], 0);
    assert_eq!(vm.registers[9], 0);
}

#[test]
fn concurrent_runs_full_batches_and_drops_the_remainder() {
    let mut vm = VM::new();
    // Twelve instructions before the terminator: one batch of ten runs,
    // the trailing two are dropped.
    for k in 0..12u16 {
        vm.memory
            .load_ix(4 * k, &[0x01, 0x02, 0x00, 10 + k as u8])
            .unwrap();
    }
    assert_eq!(vm.exec_concurrent(), Ok(()));
    assert_eq!(vm.registers[0], 19);
    assert_eq!(vm.registers[9], 40);
}

#[test]
fn concurrent_runs_exactly_one_batch_of_ten() {
    let mut vm = VM::new();
    // Exactly ten instructions then the terminator: the single batch
    // runs them all and the program counter comes to rest on the
    // terminator.
    for k in 0..10u16 {
        vm.memory.load_ix(4 * k, &[0x01, 0x02, 0x01, k as u8]).unwrap();
    }
    assert_eq!(vm.exec_concurrent(), Ok(()));
    assert_eq!(vm.registers[1], 9);
    assert_eq!(vm.registers[9], 40);
}
