use vstd::prelude::*;

use crate::errors::VmError;
use crate::memory::Memory;
use crate::model::{
    addr16, decode_seq_at, decode_task_at, exec_on, ix_executable, ix_type_of, pc_of, run_n,
    run_task, run_tasks, scan_from, seq_run_ends, seq_step, task_safe, tasks_safe, valid_run,
    Decoded, Snap, StepRes, PC_INDEX,
};

verus! {

/// The register identifiers.  The file itself has ten slots, indexed
/// 0 through 9; the identifier DP names index 10, one past the file, so
/// no register operation can be applied to it.
#[derive(Clone, Copy, Debug, PartialEq, Eq, Structural)]
pub enum Register {
    A,
    B,
    C,
    D,
    E,
    F,
    H,
    L,
    SP,
    PC,
    DP,
}

/// The instruction tags.  NOP doubles as the stream terminator in
/// sequential mode: there is no distinct halt opcode.
#[derive(Clone, Copy, Debug, PartialEq, Eq, Structural)]
pub enum IxType {
    NOP,
    MOV,
    LDM,
    STM,
    ADD,
}

/// Offset of the operand-length byte within an instruction.
pub const IX_SIZE_OFFSET: u16 = 1;

/// Size of the (opcode, operand-length) instruction header.
pub const IX_META_SIZE: u16 = 2;

/// Offset of the operand payload within an instruction.
pub const IX_DATA_OFFSET: u16 = 2;

/// Instructions per dispatched batch in chunked concurrent mode.
pub const CONCURRENT_THREADS: u8 = 10;

impl Register {
    /// The register file index this identifier names.
    pub open spec fn reg_index(self) -> int {
        match self {
            Register::A => 0,
            Register::B => 1,
            Register::C => 2,
            Register::D => 3,
            Register::E => 4,
            Register::F => 5,
            Register::H => 6,
            Register::L => 7,
            Register::SP => 8,
            Register::PC => 9,
            Register::DP => 10,
        }
    }

    /// Decodes a register identifier byte; bytes past the table are
    /// rejected as `InvalidRegister`.
    pub fn from_byte(val: u8) -> (r: Result<Register, VmError>)
        ensures
            val <= 10 ==> (r matches Ok(reg) && reg.reg_index() == val as int),
            val > 10 ==> r == Result::<Register, VmError>::Err(VmError::InvalidRegister),
    {
        match val {
            0 => Ok(Register::A),
            1 => Ok(Register::B),
            2 => Ok(Register::C),
            3 => Ok(Register::D),
            4 => Ok(Register::E),
            5 => Ok(Register::F),
            6 => Ok(Register::H),
            7 => Ok(Register::L),
            8 => Ok(Register::SP),
            9 => Ok(Register::PC),
            10 => Ok(Register::DP),
            _ => Err(VmError::InvalidRegister),
        }
    }

    /// The identifier's position in the register file.
    pub fn into_usize(&self) -> (r: usize)
        ensures
            r as int == self.reg_index(),
    {
        match self {
            Register::A => 0,
            Register::B => 1,
            Register::C => 2,
            Register::D => 3,
            Register::E => 4,
            Register::F => 5,
            Register::H => 6,
            Register::L => 7,
            Register::SP => 8,
            Register::PC => 9,
            Register::DP => 10,
        }
    }
}

impl IxType {
    /// Decodes an opcode byte; bytes past the table are rejected as
    /// `InvalidOpcode`.
    pub fn from_byte(val: u8) -> (r: Result<IxType, VmError>)
        ensures
            val <= 4 ==> r == Result::<IxType, VmError>::Ok(ix_type_of(val)),
            val > 4 ==> r == Result::<IxType, VmError>::Err(VmError::InvalidOpcode),
    {
        match val {
            0 => Ok(IxType::NOP),
            1 => Ok(IxType::MOV),
            2 => Ok(IxType::LDM),
            3 => Ok(IxType::STM),
            4 => Ok(IxType::ADD),
            _ => Err(VmError::InvalidOpcode),
        }
    }
}

/// Forms the 16-bit big-endian address held in two operand bytes.
pub fn get_addr_from_two_bytes(high: u8, low: u8) -> (r: u16)
    ensures
        r == addr16(high, low),
{
    let h: u16 = (high as u16) << 8;
    let l: u16 = low as u16;
    proof {
        assert((high as u16) << 8 | (low as u16) == ((high as int) * 256 + low as int) as u16)
            by (bit_vector);
    }
    h | l
}

/// A decoded instruction: tag, declared operand length, operand bytes.
/// It is produced fresh by each decode and consumed by one executor call.
pub struct Ix {
    pub ix_type: IxType,
    pub ix_data_size: u8,
    pub ix_data: Vec<u8>,
}

/// The execution engine: a register file of ten 16-bit slots and the
/// segmented memory, owned directly.  The chunked concurrent mode keeps
/// the scan-then-dispatch interface but runs each batch as one atomic
/// critical section, in dispatch order, rather than racing batches
/// against each other on the shared program counter.
pub struct VM {
    pub registers: Vec<u16>,
    pub memory: Memory,
}

impl View for VM {
    type V = Snap;

    open spec fn view(&self) -> Snap {
        Snap {
            code: self.memory.code_seg@,
            data: self.memory.data_seg@,
            stack: self.memory.stack_seg@,
            regs: self.registers@,
        }
    }
}

impl VM {
    pub open spec fn wf(&self) -> bool {
        &&& self.memory.wf()
        &&& self.registers@.len() == 10
    }

    /// Zero-filled registers and memory.
    pub fn new() -> (r: VM)
        ensures
            r.wf(),
            forall|i: int| 0 <= i < r@.regs.len() ==> r@.regs[i] == 0u16,
            forall|i: int| 0 <= i < r@.code.len() ==> r@.code[i] == 0u8,
            forall|i: int| 0 <= i < r@.data.len() ==> r@.data[i] == 0u8,
            forall|i: int| 0 <= i < r@.stack.len() ==> r@.stack[i] == 0u8,
    {
        VM { registers: vec![0u16; 10], memory: Memory::new() }
    }

    /// Adds `inc_by` to the named register with non-wrapping arithmetic;
    /// the precondition rules out overflow and the slotless identifier DP.
    pub fn inc_reg(&mut self, reg: Register, inc_by: u16)
        requires
            old(self).wf(),
            reg.reg_index() < 10,
            old(self)@.regs[reg.reg_index()] + inc_by <= u16::MAX,
        ensures
            final(self).wf(),
            final(self)@.regs == old(self)@.regs.update(
                reg.reg_index(),
                (old(self)@.regs[reg.reg_index()] + inc_by) as u16,
            ),
            final(self).memory == old(self).memory,
    {
        let idx = reg.into_usize();
        let v: u16 = self.registers[idx];
        self.registers[idx] = v + inc_by;
    }

    /// Subtracts `dec_by` from the named register with non-wrapping
    /// arithmetic; the precondition rules out underflow and DP.
    pub fn dec_reg(&mut self, reg: Register, dec_by: u16)
        requires
            old(self).wf(),
            reg.reg_index() < 10,
            old(self)@.regs[reg.reg_index()] >= dec_by,
        ensures
            final(self).wf(),
            final(self)@.regs == old(self)@.regs.update(
                reg.reg_index(),
                (old(self)@.regs[reg.reg_index()] - dec_by) as u16,
            ),
            final(self).memory == old(self).memory,
    {
        let idx = reg.into_usize();
        let v: u16 = self.registers[idx];
        self.registers[idx] = v - dec_by;
    }

    /// Applies one decoded instruction to the registers and memory, then
    /// advances the program counter by header size plus operand length
    /// (wrapping at the 16-bit bound), unconditionally.  An error aborts
    /// the instruction before any state change and is handed to the
    /// caller.
    pub fn exec_ix(&mut self, inx: Ix) -> (r: Result<(), VmError>)
        requires
            old(self).wf(),
            ix_executable(inx.ix_type, inx.ix_data@),
        ensures
            final(self).wf(),
            r is Ok ==> exec_on(old(self)@, inx.ix_type, inx.ix_data_size, inx.ix_data@)
                == Result::<Snap, VmError>::Ok(final(self)@),
            r matches Err(e) ==> exec_on(old(self)@, inx.ix_type, inx.ix_data_size, inx.ix_data@)
                == Result::<Snap, VmError>::Err(e) && *final(self) == *old(self),
    {
        match inx.ix_type {
            IxType::NOP => {},
            IxType::MOV => {
                let reg = match Register::from_byte(inx.ix_data[0]) {
                    Ok(rg) => rg,
                    Err(e) => {
                        return Err(e);
                    },
                };
                let idx = reg.into_usize();
                self.registers[idx] = inx.ix_data[1] as u16;
            },
            IxType::LDM => {
                let addr = get_addr_from_two_bytes(inx.ix_data[0], inx.ix_data[1]);
                let data = match self.memory.read_data_seg(addr) {
                    Ok(d) => d,
                    Err(e) => {
                        return Err(e);
                    },
                };
                let reg = match Register::from_byte(inx.ix_data[2]) {
                    Ok(rg) => rg,
                    Err(e) => {
                        return Err(e);
                    },
                };
                let idx = reg.into_usize();
                self.registers[idx] = data as u16;
            },
            IxType::STM => {
                let addr = get_addr_from_two_bytes(inx.ix_data[0], inx.ix_data[1]);
                let reg = match Register::from_byte(inx.ix_data[2]) {
                    Ok(rg) => rg,
                    Err(e) => {
                        return Err(e);
                    },
                };
                let rv: u16 = self.registers[reg.into_usize()];
                match self.memory.write_data_seg(rv as u8, addr) {
                    Ok(_) => {},
                    Err(e) => {
                        return Err(e);
                    },
                }
            },
            IxType::ADD => {
                let addr = get_addr_from_two_bytes(inx.ix_data[0], inx.ix_data[1]);
                let reg = match Register::from_byte(inx.ix_data[2]) {
                    Ok(rg) => rg,
                    Err(e) => {
                        return Err(e);
                    },
                };
                let idx = reg.into_usize();
                let rv: u16 = self.registers[idx];
                let data = match self.memory.read_data_seg(addr) {
                    Ok(d) => d,
                    Err(e) => {
                        return Err(e);
                    },
                };
                proof {
                    crate::model::lemma_wrap16_add(rv, data as u16);
                }
                self.registers[idx] = rv.wrapping_add(data as u16);
            },
        }
        let pc: u16 = self.registers[PC_INDEX];
        let step: u16 = inx.ix_data_size as u16 + IX_META_SIZE;
        proof {
            crate::model::lemma_wrap16_add(pc, step);
        }
        self.registers[PC_INDEX] = pc.wrapping_add(step);
        Ok(())
    }

    /// The sequential scheduler: decode the instruction at the current
    /// program counter, execute it, and repeat until the terminator
    /// opcode is read or an error is surfaced.  The result is the
    /// machine after exactly the successful steps, in program order.
    pub fn parseand_exec_ixs_seq(&mut self) -> (r: Result<(), VmError>)
        requires
            old(self).wf(),
            seq_run_ends(old(self)@),
        ensures
            final(self).wf(),
            r is Ok ==> exists|n: nat|
                valid_run(old(self)@, n) && (#[trigger] seq_step(run_n(old(self)@, n))) is SHalt
                    && final(self)@ == run_n(old(self)@, n),
            r matches Err(e) ==> exists|n: nat|
                valid_run(old(self)@, n) && (#[trigger] seq_step(run_n(old(self)@, n))) == (
                StepRes::SFail { e }) && final(self)@ == run_n(old(self)@, n),
    {
        let ghost s0 = self@;
        let ghost mut n: nat = 0nat;
        let ghost total: nat = choose|m: nat|
            valid_run(s0, m) && ((#[trigger] seq_step(run_n(s0, m))) is SHalt || seq_step(
                run_n(s0, m),
            ) is SFail);
        #[verifier::loop_isolation(false)]
        loop
            invariant
                self.wf(),
                valid_run(s0, n),
                self@ == run_n(s0, n),
                n <= total,
                valid_run(s0, total),
                seq_step(run_n(s0, total)) is SHalt || seq_step(run_n(s0, total)) is SFail,
            decreases total - n,
        {
            let pc: u16 = self.registers[PC_INDEX];
            let ix = match self.memory.read_code_seg(pc) {
                Ok(b) => b,
                Err(e) => {
                    return Err(e);
                },
            };
            if ix == 0 {
                return Ok(());
            }
            let ix_data_size = match self.memory.read_code_seg(pc + IX_SIZE_OFFSET) {
                Ok(b) => b,
                Err(e) => {
                    return Err(e);
                },
            };
            let ix_data = match self.memory.read_code_seg_slice(
                pc + IX_DATA_OFFSET,
                ix_data_size as usize,
            ) {
                Ok(v) => v,
                Err(e) => {
                    return Err(e);
                },
            };
            let t = match IxType::from_byte(ix) {
                Ok(tt) => tt,
                Err(e) => {
                    return Err(e);
                },
            };
            let inx = Ix { ix_type: t, ix_data_size, ix_data };
            proof {
                assert(decode_seq_at(self@.code, pc_of(self@)) == (Decoded::Operation {
                    t,
                    size: ix_data_size,
                    data: inx.ix_data@,
                }));
                if n < total {
                    assert(seq_step(run_n(s0, n)) is SNext);
                }
                assert(ix_executable(t, inx.ix_data@));
            }
            let res = self.exec_ix(inx);
            match res {
                Ok(_) => {
                    proof {
                        assert(seq_step(run_n(s0, n)) is SNext);
                        assert(n < total);
                        n = n + 1;
                        assert(self@ == run_n(s0, n));
                    }
                },
                Err(e) => {
                    return Err(e);
                },
            }
        }
    }

    /// Runs one dispatched batch: ten decode-execute iterations without a
    /// terminator check (the terminator executes as an ordinary no-op),
    /// stopping at the first error.
    fn exec_task_batch(&mut self) -> (r: Result<(), VmError>)
        requires
            old(self).wf(),
            task_safe(old(self)@, 10),
        ensures
            final(self).wf(),
            r is Ok ==> run_task(old(self)@, 10) == (final(self)@, Option::<VmError>::None),
            r matches Err(e) ==> run_task(old(self)@, 10) == (final(self)@, Option::<VmError>::Some(
                e,
            )),
    {
        let ghost s0 = self@;
        let mut j: u8 = 0;
        #[verifier::loop_isolation(false)]
        while j < CONCURRENT_THREADS
            invariant
                j <= 10,
                self.wf(),
                task_safe(self@, (10 - j) as nat),
                run_task(s0, 10) == run_task(self@, (10 - j) as nat),
            decreases 10 - j,
        {
            let pc: u16 = self.registers[PC_INDEX];
            let ix = match self.memory.read_code_seg(pc) {
                Ok(b) => b,
                Err(e) => {
                    return Err(e);
                },
            };
            let ix_data_size = match self.memory.read_code_seg(pc + IX_SIZE_OFFSET) {
                Ok(b) => b,
                Err(e) => {
                    return Err(e);
                },
            };
            let ix_data = match self.memory.read_code_seg_slice(
                pc + IX_DATA_OFFSET,
                ix_data_size as usize,
            ) {
                Ok(v) => v,
                Err(e) => {
                    return Err(e);
                },
            };
            let t = match IxType::from_byte(ix) {
                Ok(tt) => tt,
                Err(e) => {
                    return Err(e);
                },
            };
            let inx = Ix { ix_type: t, ix_data_size, ix_data };
            proof {
                assert(decode_task_at(self@.code, pc_of(self@)) == (Decoded::Operation {
                    t,
                    size: ix_data_size,
                    data: inx.ix_data@,
                }));
                assert(ix_executable(t, inx.ix_data@));
            }
            let res = self.exec_ix(inx);
            match res {
                Ok(_) => {},
                Err(e) => {
                    return Err(e);
                },
            }
            j = j + 1;
        }
        Ok(())
    }

    /// Chunked concurrent mode.  Scan phase: decode headers only from the
    /// current program counter, counting instructions until the
    /// terminator, without mutating any state.  Dispatch phase: run
    /// `count / 10` batches of ten instructions each (trailing
    /// instructions beyond the last full batch are dropped).  Each batch
    /// runs as one atomic critical section, in dispatch order; every
    /// batch runs, and the earliest batch's error is the one reported.
    pub fn parse_and_exec_ixs_concurrent(&mut self) -> (r: Result<(), VmError>)
        requires
            old(self).wf(),
            (scan_from(old(self)@.code, pc_of(old(self)@)) matches Ok(cnt) ==> tasks_safe(
                old(self)@,
                (cnt / 10) as nat,
            )),
        ensures
            final(self).wf(),
            (scan_from(old(self)@.code, pc_of(old(self)@)) matches Err(e) ==> r == Result::<
                (),
                VmError,
            >::Err(e) && final(self)@ == old(self)@),
            (scan_from(old(self)@.code, pc_of(old(self)@)) matches Ok(cnt) ==> {
                &&& final(self)@ == run_tasks(old(self)@, (cnt / 10) as nat).0
                &&& r == (match run_tasks(old(self)@, (cnt / 10) as nat).1 {
                    Some(e) => Result::<(), VmError>::Err(e),
                    None => Result::<(), VmError>::Ok(()),
                })
            }),
    {
        let ghost s0 = self@;
        let start: u16 = self.registers[PC_INDEX];
        let mut ix_pointer: u16 = start;
        let mut ixs_count: u16 = 0;
        #[verifier::loop_isolation(false)]
        loop
            invariant
                self@ == s0,
                start as int + 2 * ixs_count as int <= ix_pointer as int,
                (scan_from(s0.code, ix_pointer) matches Ok(m) ==> scan_from(s0.code, start)
                    == Result::<int, VmError>::Ok(m + ixs_count)),
                (scan_from(s0.code, ix_pointer) matches Err(e) ==> scan_from(s0.code, start)
                    == Result::<int, VmError>::Err(e)),
            // The cursor grows by at least two per iteration and a read
            // beyond the code segment stops the loop, so it never passes
            // the last accepted address plus one maximal instruction.
            decreases (if ix_pointer <= 0x4101 {
                0x4102 - ix_pointer as int
            } else {
                0
            }),
        {
            let ix = match self.memory.read_code_seg(ix_pointer) {
                Ok(b) => b,
                Err(e) => {
                    return Err(e);
                },
            };
            let ix_data_size = match self.memory.read_code_seg(ix_pointer + IX_SIZE_OFFSET) {
                Ok(b) => b,
                Err(e) => {
                    return Err(e);
                },
            };
            if ix == 0 {
                break;
            }
            ixs_count = ixs_count + 1;
            ix_pointer = ix_pointer + (ix_data_size as u16) + IX_META_SIZE;
        }
        let batches: u16 = ixs_count / (CONCURRENT_THREADS as u16);
        proof {
            assert(scan_from(s0.code, start) == Result::<int, VmError>::Ok(ixs_count as int));
            assert(batches as int == ixs_count as int / 10);
        }
        let mut first_err: Option<VmError> = None;
        let mut ti: u16 = 0;
        #[verifier::loop_isolation(false)]
        while ti < batches
            invariant
                ti <= batches,
                self.wf(),
                tasks_safe(self@, (batches - ti) as nat),
                run_tasks(s0, batches as nat).0 == run_tasks(self@, (batches - ti) as nat).0,
                run_tasks(s0, batches as nat).1 == (if first_err is Some {
                    first_err
                } else {
                    run_tasks(self@, (batches - ti) as nat).1
                }),
            decreases batches - ti,
        {
            let ghost before = self@;
            let res = self.exec_task_batch();
            proof {
                assert(run_tasks(before, (batches - ti) as nat).0 == run_tasks(
                    run_task(before, 10).0,
                    (batches - ti - 1) as nat,
                ).0);
            }
            match res {
                Ok(_) => {},
                Err(e) => {
                    if first_err.is_none() {
                        first_err = Some(e);
                    }
                },
            }
            ti = ti + 1;
        }
        match first_err {
            Some(e) => Err(e),
            None => Ok(()),
        }
    }

    /// Runs the engine in sequential mode.
    pub fn exec_seq(&mut self) -> (r: Result<(), VmError>)
        requires
            old(self).wf(),
            seq_run_ends(old(self)@),
        ensures
            final(self).wf(),
            r is Ok ==> exists|n: nat|
                valid_run(old(self)@, n) && (#[trigger] seq_step(run_n(old(self)@, n))) is SHalt
                    && final(self)@ == run_n(old(self)@, n),
            r matches Err(e) ==> exists|n: nat|
                valid_run(old(self)@, n) && (#[trigger] seq_step(run_n(old(self)@, n))) == (
                StepRes::SFail { e }) && final(self)@ == run_n(old(self)@, n),
    {
        self.parseand_exec_ixs_seq()?;
        Ok(())
    }

    /// Runs the engine in chunked concurrent mode.
    pub fn exec_concurrent(&mut self) -> (r: Result<(), VmError>)
        requires
            old(self).wf(),
            (scan_from(old(self)@.code, pc_of(old(self)@)) matches Ok(cnt) ==> tasks_safe(
                old(self)@,
                (cnt / 10) as nat,
            )),
        ensures
            final(self).wf(),
            (scan_from(old(self)@.code, pc_of(old(self)@)) matches Err(e) ==> r == Result::<
                (),
                VmError,
            >::Err(e) && final(self)@ == old(self)@),
            (scan_from(old(self)@.code, pc_of(old(self)@)) matches Ok(cnt) ==> {
                &&& final(self)@ == run_tasks(old(self)@, (cnt / 10) as nat).0
                &&& r == (match run_tasks(old(self)@, (cnt / 10) as nat).1 {
                    Some(e) => Result::<(), VmError>::Err(e),
                    None => Result::<(), VmError>::Ok(()),
                })
            }),
    {
        self.parse_and_exec_ixs_concurrent()?;
        Ok(())
    }
}

} // verus!
