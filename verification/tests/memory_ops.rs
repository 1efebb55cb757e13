use rust_vm_v2::errors::VmError;
use rust_vm_v2::memory::{
    check_illegal_mem_access, Memory, CODE_SEG_SIZE, DATA_SEG_SIZE, STACK_SEG_SIZE,
};

#[test]
fn new_memory_is_zero_filled_at_declared_sizes() {
    let mem = Memory::new();
    assert_eq!(mem.code_seg.len(), 16384);
    assert_eq!(mem.data_seg.len(), 8192);
    assert_eq!(mem.stack_seg.len(), 40960);
    assert_eq!(mem.read_code_seg(0), Ok(0));
    assert_eq!(mem.read_code_seg(CODE_SEG_SIZE), Ok(0));
    assert_eq!(mem.read_data_seg(DATA_SEG_SIZE), Ok(0));
    assert_eq!(mem.read_stack_seg(STACK_SEG_SIZE), Ok(0));
}

#[test]
fn bounds_check_accepts_capacity_and_rejects_beyond() {
    assert_eq!(check_illegal_mem_access(5, 5), Ok(()));
    assert_eq!(check_illegal_mem_access(6, 5), Err(VmError::OutOfBounds));
    assert_eq!(check_illegal_mem_access(0, 5), Ok(()));
}

#[test]
fn code_seg_boundary_is_off_by_one() {
    let mut mem = Memory::new();
    // The address equal to the capacity is accepted but backs no
    // storage: the write is dropped and the read yields zero.
    assert_eq!(mem.write_code_seg(0xAB, CODE_SEG_SIZE), Ok(()));
    assert_eq!(mem.read_code_seg(CODE_SEG_SIZE), Ok(0));
    assert_eq!(mem.code_seg.len(), 16384);
    assert_eq!(
        mem.write_code_seg(0xAB, CODE_SEG_SIZE + 1),
        Err(VmError::OutOfBounds)
    );
    assert_eq!(mem.read_code_seg(CODE_SEG_SIZE + 1), Err(VmError::OutOfBounds));
}

#[test]
fn data_seg_boundary_is_off_by_one() {
    let mut mem = Memory::new();
    assert_eq!(mem.write_data_seg(0x7F, DATA_SEG_SIZE), Ok(()));
    assert_eq!(mem.read_data_seg(DATA_SEG_SIZE), Ok(0));
    assert_eq!(mem.data_seg.len(), 8192);
    assert_eq!(
        mem.write_data_seg(0x7F, DATA_SEG_SIZE + 1),
        Err(VmError::OutOfBounds)
    );
    assert_eq!(mem.read_data_seg(DATA_SEG_SIZE + 1), Err(VmError::OutOfBounds));
}

#[test]
fn stack_seg_boundary_is_off_by_one() {
    let mut mem = Memory::new();
    assert_eq!(mem.write_stack_seg(0x55, STACK_SEG_SIZE), Ok(()));
    assert_eq!(mem.read_stack_seg(STACK_SEG_SIZE), Ok(0));
    assert_eq!(mem.stack_seg.len(), 40960);
    assert_eq!(
        mem.write_stack_seg(0x55, STACK_SEG_SIZE + 1),
        Err(VmError::OutOfBounds)
    );
    assert_eq!(mem.read_stack_seg(STACK_SEG_SIZE + 1), Err(VmError::OutOfBounds));
}

#[test]
fn load_ix_writes_bytes_and_reports_length() {
    let mut mem = Memory::new();
    let bytes = [0x01, 0x02, 0x00, 0x09];
    assert_eq!(mem.load_ix(16, &bytes), Ok(4));
    assert_eq!(mem.read_code_seg(16), Ok(0x01));
    assert_eq!(mem.read_code_seg(17), Ok(0x02));
    assert_eq!(mem.read_code_seg(18), Ok(0x00));
    assert_eq!(mem.read_code_seg(19), Ok(0x09));
    assert_eq!(mem.read_code_seg(20), Ok(0x00));
}

#[test]
fn load_ix_rejects_payload_larger_than_code_segment() {
    let mut mem = Memory::new();
    let oversized = vec![0u8; CODE_SEG_SIZE as usize + 1];
    assert_eq!(mem.load_ix(0, &oversized), Err(VmError::CapacityExceeded));
    assert_eq!(mem.read_code_seg(0), Ok(0));
}

#[test]
fn write_data_seg_slice_copies_and_bounds_checks() {
    let mut mem = Memory::new();
    assert_eq!(mem.write_data_seg_slice(&[0x12, 0x11, 0x0F], 3), Ok(()));
    assert_eq!(mem.read_data_seg(3), Ok(0x12));
    assert_eq!(mem.read_data_seg(4), Ok(0x11));
    assert_eq!(mem.read_data_seg(5), Ok(0x0F));
    assert_eq!(mem.read_data_seg(6), Ok(0));
    assert_eq!(
        mem.write_data_seg_slice(&[1, 2, 3], DATA_SEG_SIZE - 1),
        Err(VmError::OutOfBounds)
    );
    assert_eq!(
        mem.write_data_seg_slice(&[1], DATA_SEG_SIZE + 1),
        Err(VmError::OutOfBounds)
    );
}

#[test]
fn read_code_seg_slice_returns_range_and_bounds_checks() {
    let mut mem = Memory::new();
    assert_eq!(mem.load_ix(8, &[0xDE, 0xAD, 0xBE, 0xEF]), Ok(4));
    let got = mem.read_code_seg_slice(8, 4).unwrap();
    assert_eq!(got, vec![0xDE, 0xAD, 0xBE, 0xEF]);
    assert_eq!(
        mem.read_code_seg_slice(CODE_SEG_SIZE - 1, 3),
        Err(VmError::OutOfBounds)
    );
    assert_eq!(
        mem.read_code_seg_slice(CODE_SEG_SIZE + 1, 0),
        Err(VmError::OutOfBounds)
    );
}

#[test]
fn read_mem_routes_through_the_unified_address_space() {
    let mut mem = Memory::new();
    assert_eq!(mem.write_code_seg(0x0C, 5), Ok(()));
    assert_eq!(mem.write_data_seg(0x0D, 3), Ok(()));
    assert_eq!(mem.write_stack_seg(0x0E, 7), Ok(()));
    assert_eq!(mem.read_mem(5), Ok(0x0C));
    assert_eq!(mem.read_mem(CODE_SEG_SIZE + 3), Ok(0x0D));
    assert_eq!(mem.read_mem(CODE_SEG_SIZE + DATA_SEG_SIZE + 7), Ok(0x0E));
    assert_eq!(mem.read_mem(0xFFFF), Ok(0));
}
