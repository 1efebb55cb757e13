use vstd::prelude::*;

use crate::errors::VmError;

verus! {

/// Declared capacity of the code segment (16 KiB).
pub const CODE_SEG_SIZE: u16 = 0x4000;

/// Declared capacity of the data segment (8 KiB).
pub const DATA_SEG_SIZE: u16 = 0x2000;

/// Declared capacity of the stack segment (40 KiB).
pub const STACK_SEG_SIZE: u16 = 0xA000;

/// Three disjoint fixed-capacity byte segments.
///
/// The bounds check on every access rejects only addresses *strictly*
/// greater than the owning segment's declared capacity, so the address
/// equal to the capacity is accepted even though it lies one past the
/// stored bytes: a read there yields zero and a write there changes
/// nothing.
pub struct Memory {
    pub code_seg: Vec<u8>,
    pub data_seg: Vec<u8>,
    pub stack_seg: Vec<u8>,
}

/// The byte an accepted address yields from a segment of capacity
/// `cap`: the stored byte below the capacity, and zero at the boundary
/// address, which has no storage behind it.
pub open spec fn seg_read(seg: Seq<u8>, cap: u16, addr: u16) -> u8 {
    if addr < cap {
        seg[addr as int]
    } else {
        0
    }
}

/// The segment after a single-byte write to an accepted address: updated
/// below the capacity, unchanged at the storageless boundary address.
pub open spec fn seg_write(seg: Seq<u8>, cap: u16, addr: u16, b: u8) -> Seq<u8> {
    if addr < cap {
        seg.update(addr as int, b)
    } else {
        seg
    }
}

/// Accepts an address if and only if it does not strictly exceed `mem_size`.
pub fn check_illegal_mem_access(addr: u16, mem_size: u16) -> (r: Result<(), VmError>)
    ensures
        r == (if addr > mem_size {
            Result::<(), VmError>::Err(VmError::OutOfBounds)
        } else {
            Result::<(), VmError>::Ok(())
        }),
{
    if addr > mem_size {
        return Err(VmError::OutOfBounds);
    }
    Ok(())
}

impl Memory {
    /// Each segment holds exactly its declared capacity in bytes.
    pub open spec fn wf(&self) -> bool {
        &&& self.code_seg@.len() == CODE_SEG_SIZE as int
        &&& self.data_seg@.len() == DATA_SEG_SIZE as int
        &&& self.stack_seg@.len() == STACK_SEG_SIZE as int
    }

    /// The byte that the unified address space holds at `addr`: the code,
    /// data and stack segments concatenated in that order.
    pub open spec fn spec_read_mem(&self, addr: u16) -> u8 {
        if addr < CODE_SEG_SIZE {
            self.code_seg@[addr as int]
        } else if addr < CODE_SEG_SIZE + DATA_SEG_SIZE {
            self.data_seg@[addr - CODE_SEG_SIZE]
        } else {
            self.stack_seg@[addr - CODE_SEG_SIZE - DATA_SEG_SIZE]
        }
    }

    /// Zero-filled segments.
    pub fn new() -> (r: Memory)
        ensures
            r.wf(),
            forall|i: int| 0 <= i < r.code_seg@.len() ==> r.code_seg@[i] == 0u8,
            forall|i: int| 0 <= i < r.data_seg@.len() ==> r.data_seg@[i] == 0u8,
            forall|i: int| 0 <= i < r.stack_seg@.len() ==> r.stack_seg@[i] == 0u8,
    {
        Memory {
            code_seg: vec![0u8; CODE_SEG_SIZE as usize],
            data_seg: vec![0u8; DATA_SEG_SIZE as usize],
            stack_seg: vec![0u8; STACK_SEG_SIZE as usize],
        }
    }

    /// Copies `data` into the code segment starting at `from_addr` and
    /// returns how many bytes were written.  Only the payload's size is
    /// bounds-checked, not `from_addr`: choosing start addresses that fit
    /// is left to the caller, so the precondition rules out copies that
    /// would run past the segment.
    pub fn load_ix(&mut self, from_addr: u16, data: &[u8]) -> (r: Result<usize, VmError>)
        requires
            old(self).wf(),
            data@.len() <= CODE_SEG_SIZE ==> from_addr + data@.len() <= CODE_SEG_SIZE,
        ensures
            final(self).wf(),
            data@.len() > CODE_SEG_SIZE ==> r == Result::<usize, VmError>::Err(
                VmError::CapacityExceeded,
            ) && *final(self) == *old(self),
            data@.len() <= CODE_SEG_SIZE ==> {
                &&& r matches Ok(n) && n == data@.len()
                &&& final(self).code_seg@.len() == old(self).code_seg@.len()
                &&& forall|i: int|
                    from_addr <= i < from_addr + data@.len() ==> final(self).code_seg@[i] == data@[i - from_addr]
                &&& forall|i: int|
                    0 <= i < final(self).code_seg@.len() && !(from_addr <= i < from_addr + data@.len())
                        ==> final(self).code_seg@[i] == old(self).code_seg@[i]
                &&& final(self).data_seg == old(self).data_seg
                &&& final(self).stack_seg == old(self).stack_seg
            },
    {
        if data.len() > CODE_SEG_SIZE as usize {
            return Err(VmError::CapacityExceeded);
        }
        let start: usize = from_addr as usize;
        let mut i: usize = 0;
        #[verifier::loop_isolation(false)]
        while i < data.len()
            invariant
                i <= data@.len(),
                self.code_seg@.len() == old(self).code_seg@.len(),
                forall|j: int| start <= j < start + i ==> self.code_seg@[j] == data@[j - start],
                forall|j: int|
                    0 <= j < self.code_seg@.len() && !(start <= j < start + i)
                        ==> self.code_seg@[j] == old(self).code_seg@[j],
                self.data_seg == old(self).data_seg,
                self.stack_seg == old(self).stack_seg,
            decreases data@.len() - i,
        {
            self.code_seg[start + i] = data[i];
            i = i + 1;
        }
        Ok(data.len())
    }

    /// Single-byte write into the code segment.
    pub fn write_code_seg(&mut self, data: u8, addr: u16) -> (r: Result<(), VmError>)
        requires
            old(self).wf(),
        ensures
            final(self).wf(),
            addr > CODE_SEG_SIZE ==> r == Result::<(), VmError>::Err(VmError::OutOfBounds)
                && *final(self) == *old(self),
            addr <= CODE_SEG_SIZE ==> r == Result::<(), VmError>::Ok(()) && final(self).code_seg@
                == seg_write(old(self).code_seg@, CODE_SEG_SIZE, addr, data) && final(self).data_seg
                == old(self).data_seg && final(self).stack_seg == old(self).stack_seg,
    {
        check_illegal_mem_access(addr, CODE_SEG_SIZE)?;
        if addr < CODE_SEG_SIZE {
            self.code_seg[addr as usize] = data;
        }
        Ok(())
    }

    /// Single-byte write into the data segment.
    pub fn write_data_seg(&mut self, data: u8, addr: u16) -> (r: Result<(), VmError>)
        requires
            old(self).wf(),
        ensures
            final(self).wf(),
            addr > DATA_SEG_SIZE ==> r == Result::<(), VmError>::Err(VmError::OutOfBounds)
                && *final(self) == *old(self),
            addr <= DATA_SEG_SIZE ==> r == Result::<(), VmError>::Ok(()) && final(self).data_seg@
                == seg_write(old(self).data_seg@, DATA_SEG_SIZE, addr, data) && final(self).code_seg
                == old(self).code_seg && final(self).stack_seg == old(self).stack_seg,
    {
        check_illegal_mem_access(addr, DATA_SEG_SIZE)?;
        if addr < DATA_SEG_SIZE {
            self.data_seg[addr as usize] = data;
        }
        Ok(())
    }

    /// Copies `data` into the data segment starting at `addr`; both the
    /// start and the end of the copied range are bounds-checked.
    pub fn write_data_seg_slice(&mut self, data: &[u8], addr: u16) -> (r: Result<(), VmError>)
        requires
            old(self).wf(),
        ensures
            final(self).wf(),
            (addr > DATA_SEG_SIZE || addr + data@.len() > DATA_SEG_SIZE) ==> r == Result::<
                (),
                VmError,
            >::Err(VmError::OutOfBounds) && *final(self) == *old(self),
            (addr <= DATA_SEG_SIZE && addr + data@.len() <= DATA_SEG_SIZE) ==> {
                &&& r == Result::<(), VmError>::Ok(())
                &&& final(self).data_seg@.len() == old(self).data_seg@.len()
                &&& forall|i: int|
                    addr <= i < addr + data@.len() ==> final(self).data_seg@[i] == data@[i - addr]
                &&& forall|i: int|
                    0 <= i < final(self).data_seg@.len() && !(addr <= i < addr + data@.len())
                        ==> final(self).data_seg@[i] == old(self).data_seg@[i]
                &&& final(self).code_seg == old(self).code_seg
                &&& final(self).stack_seg == old(self).stack_seg
            },
    {
        check_illegal_mem_access(addr, DATA_SEG_SIZE)?;
        if data.len() > (DATA_SEG_SIZE - addr) as usize {
            return Err(VmError::OutOfBounds);
        }
        let start: usize = addr as usize;
        let mut i: usize = 0;
        #[verifier::loop_isolation(false)]
        while i < data.len()
            invariant
                i <= data@.len(),
                self.data_seg@.len() == old(self).data_seg@.len(),
                forall|j: int| start <= j < start + i ==> self.data_seg@[j] == data@[j - start],
                forall|j: int|
                    0 <= j < self.data_seg@.len() && !(start <= j < start + i)
                        ==> self.data_seg@[j] == old(self).data_seg@[j],
                self.code_seg == old(self).code_seg,
                self.stack_seg == old(self).stack_seg,
            decreases data@.len() - i,
        {
            self.data_seg[start + i] = data[i];
            i = i + 1;
        }
        Ok(())
    }

    /// Single-byte write into the stack segment.
    pub fn write_stack_seg(&mut self, data: u8, addr: u16) -> (r: Result<(), VmError>)
        requires
            old(self).wf(),
        ensures
            final(self).wf(),
            addr > STACK_SEG_SIZE ==> r == Result::<(), VmError>::Err(VmError::OutOfBounds)
                && *final(self) == *old(self),
            addr <= STACK_SEG_SIZE ==> r == Result::<(), VmError>::Ok(()) && final(self).stack_seg@
                == seg_write(old(self).stack_seg@, STACK_SEG_SIZE, addr, data) && final(self).code_seg
                == old(self).code_seg && final(self).data_seg == old(self).data_seg,
    {
        check_illegal_mem_access(addr, STACK_SEG_SIZE)?;
        if addr < STACK_SEG_SIZE {
            self.stack_seg[addr as usize] = data;
        }
        Ok(())
    }

    /// Single-byte read from the code segment.
    pub fn read_code_seg(&self, addr: u16) -> (r: Result<u8, VmError>)
        requires
            self.wf(),
        ensures
            r == (if addr > CODE_SEG_SIZE {
                Result::<u8, VmError>::Err(VmError::OutOfBounds)
            } else {
                Result::<u8, VmError>::Ok(seg_read(self.code_seg@, CODE_SEG_SIZE, addr))
            }),
    {
        check_illegal_mem_access(addr, CODE_SEG_SIZE)?;
        if addr < CODE_SEG_SIZE {
            Ok(self.code_seg[addr as usize])
        } else {
            Ok(0)
        }
    }

    /// Reads `size` bytes from the code segment starting at `addr`.
    pub fn read_code_seg_slice(&self, addr: u16, size: usize) -> (r: Result<Vec<u8>, VmError>)
        requires
            self.wf(),
        ensures
            (addr > CODE_SEG_SIZE || addr + size > CODE_SEG_SIZE) ==> r == Result::<
                Vec<u8>,
                VmError,
            >::Err(VmError::OutOfBounds),
            (addr <= CODE_SEG_SIZE && addr + size <= CODE_SEG_SIZE) ==> (r matches Ok(v) && v@
                == self.code_seg@.subrange(addr as int, addr as int + size)),
    {
        check_illegal_mem_access(addr, CODE_SEG_SIZE)?;
        if size > (CODE_SEG_SIZE - addr) as usize {
            return Err(VmError::OutOfBounds);
        }
        let start: usize = addr as usize;
        let mut out: Vec<u8> = Vec::new();
        let mut i: usize = 0;
        #[verifier::loop_isolation(false)]
        while i < size
            invariant
                i <= size,
                out@ == self.code_seg@.subrange(start as int, start as int + i),
            decreases size - i,
        {
            out.push(self.code_seg[start + i]);
            proof {
                assert(out@ =~= self.code_seg@.subrange(start as int, start as int + i + 1));
            }
            i = i + 1;
        }
        Ok(out)
    }

    /// Single-byte read from the data segment.
    pub fn read_data_seg(&self, addr: u16) -> (r: Result<u8, VmError>)
        requires
            self.wf(),
        ensures
            r == (if addr > DATA_SEG_SIZE {
                Result::<u8, VmError>::Err(VmError::OutOfBounds)
            } else {
                Result::<u8, VmError>::Ok(seg_read(self.data_seg@, DATA_SEG_SIZE, addr))
            }),
    {
        check_illegal_mem_access(addr, DATA_SEG_SIZE)?;
        if addr < DATA_SEG_SIZE {
            Ok(self.data_seg[addr as usize])
        } else {
            Ok(0)
        }
    }

    /// Single-byte read from the stack segment.
    pub fn read_stack_seg(&self, addr: u16) -> (r: Result<u8, VmError>)
        requires
            self.wf(),
        ensures
            r == (if addr > STACK_SEG_SIZE {
                Result::<u8, VmError>::Err(VmError::OutOfBounds)
            } else {
                Result::<u8, VmError>::Ok(seg_read(self.stack_seg@, STACK_SEG_SIZE, addr))
            }),
    {
        check_illegal_mem_access(addr, STACK_SEG_SIZE)?;
        if addr < STACK_SEG_SIZE {
            Ok(self.stack_seg[addr as usize])
        } else {
            Ok(0)
        }
    }

    /// Reads one byte from the unified address space: code, data and stack
    /// segments concatenated in that order.  Every 16-bit address falls
    /// into one of the three ranges, so the read always succeeds.
    pub fn read_mem(&self, addr: u16) -> (r: Result<u8, VmError>)
        requires
            self.wf(),
        ensures
            r == Result::<u8, VmError>::Ok(self.spec_read_mem(addr)),
    {
        if addr < CODE_SEG_SIZE {
            self.read_code_seg(addr)
        } else if addr < CODE_SEG_SIZE + DATA_SEG_SIZE {
            self.read_data_seg(addr - CODE_SEG_SIZE)
        } else {
            self.read_stack_seg(addr - CODE_SEG_SIZE - DATA_SEG_SIZE)
        }
    }
}

} // verus!
