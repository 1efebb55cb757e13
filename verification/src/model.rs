use vstd::prelude::*;

use crate::errors::VmError;
use crate::memory::{seg_read, seg_write, CODE_SEG_SIZE, DATA_SEG_SIZE, STACK_SEG_SIZE};
use crate::vm::IxType;

verus! {

/// A mathematical snapshot of the whole machine: the three memory
/// segments and the register file.
pub struct Snap {
    pub code: Seq<u8>,
    pub data: Seq<u8>,
    pub stack: Seq<u8>,
    pub regs: Seq<u16>,
}

/// Index of the program counter in the register file.
pub const PC_INDEX: usize = 9;

/// The register file holds ten slots; each segment holds exactly its
/// declared capacity in bytes.
pub open spec fn snap_wf(s: Snap) -> bool {
    &&& s.code.len() == CODE_SEG_SIZE as int
    &&& s.data.len() == DATA_SEG_SIZE as int
    &&& s.stack.len() == STACK_SEG_SIZE as int
    &&& s.regs.len() == 10
}

pub open spec fn pc_of(s: Snap) -> u16 {
    s.regs[PC_INDEX as int]
}

/// The 16-bit big-endian address formed from two operand bytes.
pub open spec fn addr16(hi: u8, lo: u8) -> u16 {
    ((hi as int) * 256 + lo as int) as u16
}

/// 16-bit wrapping reduction of a mathematical integer.
pub open spec fn wrap16(v: int) -> u16 {
    (v % 0x10000) as u16
}

/// The opcode byte that encodes an instruction tag.
pub open spec fn opcode_of(t: IxType) -> u8 {
    match t {
        IxType::NOP => 0,
        IxType::MOV => 1,
        IxType::LDM => 2,
        IxType::STM => 3,
        IxType::ADD => 4,
    }
}

/// The instruction tag a recognized opcode byte decodes to.
pub open spec fn ix_type_of(b: u8) -> IxType {
    if b == 1 {
        IxType::MOV
    } else if b == 2 {
        IxType::LDM
    } else if b == 3 {
        IxType::STM
    } else if b == 4 {
        IxType::ADD
    } else {
        IxType::NOP
    }
}

/// The 16-bit wrapping sum agrees with the executable wrapping addition.
pub proof fn lemma_wrap16_add(x: u16, y: u16)
    ensures
        wrap16(x + y) == vstd::wrapping::u16_specs::wrapping_add(x, y),
{
    if x + y > u16::MAX {
        assert((x + y) % 0x10000 == x + y - 0x10000);
    } else {
        assert((x + y) % 0x10000 == x + y);
    }
}

/// What a decode attempt at a code address produces.
pub enum Decoded {
    /// The opcode byte is the terminator (sequential mode only).
    Halted,
    /// A full instruction: tag, declared operand length, operand bytes.
    Operation { t: IxType, size: u8, data: Seq<u8> },
    /// A read went out of bounds or the opcode byte is unrecognized.
    Failed { e: VmError },
}

/// Reads the operand-length byte at `pc + 1` and the operand payload at
/// `pc + 2`, then validates the opcode byte already read at `pc`.
/// Out-of-bounds reads are reported before an unrecognized opcode is,
/// mirroring the order of the engine's reads.
pub open spec fn decode_body(code: Seq<u8>, pc: u16) -> Decoded {
    if pc as int + 1 > CODE_SEG_SIZE as int {
        Decoded::Failed { e: VmError::OutOfBounds }
    } else {
        let size = seg_read(code, CODE_SEG_SIZE, (pc + 1) as u16);
        if pc as int + 2 > CODE_SEG_SIZE as int || pc as int + 2 + size as int
            > CODE_SEG_SIZE as int {
            Decoded::Failed { e: VmError::OutOfBounds }
        } else if seg_read(code, CODE_SEG_SIZE, pc) > 4 {
            Decoded::Failed { e: VmError::InvalidOpcode }
        } else {
            Decoded::Operation {
                t: ix_type_of(seg_read(code, CODE_SEG_SIZE, pc)),
                size,
                data: code.subrange(pc as int + 2, pc as int + 2 + size as int),
            }
        }
    }
}

/// Decoding as the sequential loop performs it: the terminator byte is
/// recognized right after the opcode read, before the length byte.
pub open spec fn decode_seq_at(code: Seq<u8>, pc: u16) -> Decoded {
    if pc > CODE_SEG_SIZE {
        Decoded::Failed { e: VmError::OutOfBounds }
    } else if seg_read(code, CODE_SEG_SIZE, pc) == 0 {
        Decoded::Halted
    } else {
        decode_body(code, pc)
    }
}

/// Decoding as a dispatched batch performs it: no terminator check, so
/// the terminator decodes as an ordinary no-op instruction.
pub open spec fn decode_task_at(code: Seq<u8>, pc: u16) -> Decoded {
    if pc > CODE_SEG_SIZE {
        Decoded::Failed { e: VmError::OutOfBounds }
    } else {
        decode_body(code, pc)
    }
}

/// Whether the executor can apply the instruction without reaching a
/// register slot past the ten-slot file or an operand byte past the
/// payload.  The identifier byte 10 names a slot the register file does
/// not have; errors reported before such an access keep an instruction
/// executable.
pub open spec fn ix_executable(t: IxType, data: Seq<u8>) -> bool {
    match t {
        IxType::NOP => true,
        IxType::MOV => data.len() >= 1 && (data[0] <= 10 ==> (data.len() >= 2 && data[0] < 10)),
        IxType::LDM => data.len() >= 2 && (addr16(data[0], data[1]) <= DATA_SEG_SIZE ==> (
        data.len() >= 3 && data[2] != 10)),
        IxType::STM => data.len() >= 3 && data[2] != 10,
        IxType::ADD => data.len() >= 3 && data[2] != 10,
    }
}

/// Program-counter advancement by header size plus operand length,
/// wrapping at the 16-bit bound.
pub open spec fn advance_pc(s: Snap, size: u8) -> Snap {
    Snap { regs: s.regs.update(PC_INDEX as int, wrap16(s.regs[PC_INDEX as int] + size + 2)), ..s }
}

/// The executor's semantics: how one decoded instruction transforms a
/// machine snapshot, or which error it reports.  Error order mirrors the
/// engine: MOV, STM and ADD validate the register identifier before
/// touching memory, LDM reads memory before validating the identifier.
pub open spec fn exec_on(s: Snap, t: IxType, size: u8, data: Seq<u8>) -> Result<Snap, VmError> {
    match t {
        IxType::NOP => Ok(advance_pc(s, size)),
        IxType::MOV => if data[0] > 10 {
            Err(VmError::InvalidRegister)
        } else {
            Ok(
                advance_pc(
                    Snap { regs: s.regs.update(data[0] as int, data[1] as u16), ..s },
                    size,
                ),
            )
        },
        IxType::LDM => {
            let a = addr16(data[0], data[1]);
            if a > DATA_SEG_SIZE {
                Err(VmError::OutOfBounds)
            } else if data[2] > 10 {
                Err(VmError::InvalidRegister)
            } else {
                Ok(
                    advance_pc(
                        Snap {
                            regs: s.regs.update(
                                data[2] as int,
                                seg_read(s.data, DATA_SEG_SIZE, a) as u16,
                            ),
                            ..s
                        },
                        size,
                    ),
                )
            }
        },
        IxType::STM => {
            let a = addr16(data[0], data[1]);
            if data[2] > 10 {
                Err(VmError::InvalidRegister)
            } else if a > DATA_SEG_SIZE {
                Err(VmError::OutOfBounds)
            } else {
                Ok(
                    advance_pc(
                        Snap {
                            data: seg_write(s.data, DATA_SEG_SIZE, a, s.regs[data[2] as int] as u8),
                            ..s
                        },
                        size,
                    ),
                )
            }
        },
        IxType::ADD => {
            let a = addr16(data[0], data[1]);
            if data[2] > 10 {
                Err(VmError::InvalidRegister)
            } else if a > DATA_SEG_SIZE {
                Err(VmError::OutOfBounds)
            } else {
                Ok(
                    advance_pc(
                        Snap {
                            regs: s.regs.update(
                                data[2] as int,
                                wrap16(s.regs[data[2] as int] + seg_read(s.data, DATA_SEG_SIZE, a)),
                            ),
                            ..s
                        },
                        size,
                    ),
                )
            }
        },
    }
}

/// The outcome of one decode-execute step.
pub enum StepRes {
    /// The terminator was reached.
    SHalt,
    /// The instruction executed; this is the next snapshot.
    SNext { s: Snap },
    /// Decoding or execution reported an error.
    SFail { e: VmError },
    /// The executor would reach past the register file or the payload;
    /// the engine's preconditions rule such states out.
    SStuck,
}

/// One step of the sequential decode-execute loop.
pub open spec fn seq_step(s: Snap) -> StepRes {
    match decode_seq_at(s.code, pc_of(s)) {
        Decoded::Halted => StepRes::SHalt,
        Decoded::Failed { e } => StepRes::SFail { e },
        Decoded::Operation { t, size, data } => if !ix_executable(t, data) {
            StepRes::SStuck
        } else {
            match exec_on(s, t, size, data) {
                Ok(s2) => StepRes::SNext { s: s2 },
                Err(e) => StepRes::SFail { e },
            }
        },
    }
}

/// One step of a dispatched batch: like the sequential step but without
/// the terminator check.
pub open spec fn task_step(s: Snap) -> StepRes {
    match decode_task_at(s.code, pc_of(s)) {
        Decoded::Halted => StepRes::SHalt,
        Decoded::Failed { e } => StepRes::SFail { e },
        Decoded::Operation { t, size, data } => if !ix_executable(t, data) {
            StepRes::SStuck
        } else {
            match exec_on(s, t, size, data) {
                Ok(s2) => StepRes::SNext { s: s2 },
                Err(e) => StepRes::SFail { e },
            }
        },
    }
}

/// The snapshot after `n` successful sequential steps (meaningful while
/// every step up to `n` succeeds).
pub open spec fn run_n(s: Snap, n: nat) -> Snap
    decreases n,
{
    if n == 0 {
        s
    } else {
        match seq_step(run_n(s, (n - 1) as nat)) {
            StepRes::SNext { s: s2 } => s2,
            _ => run_n(s, (n - 1) as nat),
        }
    }
}

/// The first `n` sequential steps all execute an instruction.
pub open spec fn valid_run(s: Snap, n: nat) -> bool {
    forall|i: nat| i < n ==> (#[trigger] seq_step(run_n(s, i))) is SNext
}

/// The sequential run from `s` reaches the terminator or an error after
/// finitely many instructions.
pub open spec fn seq_run_ends(s: Snap) -> bool {
    exists|n: nat|
        valid_run(s, n) && ((#[trigger] seq_step(run_n(s, n))) is SHalt || seq_step(run_n(s, n))
            is SFail)
}

/// The scan phase: headers only, from `ptr`, counting instructions until
/// the terminator.  The length byte is read before the terminator check,
/// so a terminator sitting at the very last code address still fails the
/// length read.
pub open spec fn scan_from(code: Seq<u8>, ptr: u16) -> Result<int, VmError>
    decreases (if ptr <= CODE_SEG_SIZE { CODE_SEG_SIZE as int + 1 - ptr as int } else { 0 }),
{
    if ptr > CODE_SEG_SIZE {
        Err(VmError::OutOfBounds)
    } else if ptr as int + 1 > CODE_SEG_SIZE as int {
        Err(VmError::OutOfBounds)
    } else if seg_read(code, CODE_SEG_SIZE, ptr) == 0 {
        Ok(0)
    } else {
        match scan_from(
            code,
            (ptr as int + seg_read(code, CODE_SEG_SIZE, (ptr + 1) as u16) as int + 2) as u16,
        ) {
            Ok(n) => Ok(n + 1),
            Err(e) => Err(e),
        }
    }
}

/// Runs up to `fuel` batch steps, stopping at the first error; returns
/// the final snapshot and that error, if any.
pub open spec fn run_task(s: Snap, fuel: nat) -> (Snap, Option<VmError>)
    decreases fuel,
{
    if fuel == 0 {
        (s, None)
    } else {
        match task_step(s) {
            StepRes::SNext { s: s2 } => run_task(s2, (fuel - 1) as nat),
            StepRes::SFail { e } => (s, Some(e)),
            _ => (s, None),
        }
    }
}

/// No step of a batch of `fuel` instructions reaches past the register
/// file or the operand payload.
pub open spec fn task_safe(s: Snap, fuel: nat) -> bool
    decreases fuel,
{
    fuel == 0 || (match task_step(s) {
        StepRes::SNext { s: s2 } => task_safe(s2, (fuel - 1) as nat),
        StepRes::SStuck => false,
        _ => true,
    })
}

/// Runs `k` batches of ten instructions back to back; every batch runs,
/// and the error reported is the earliest batch's.
pub open spec fn run_tasks(s: Snap, k: nat) -> (Snap, Option<VmError>)
    decreases k,
{
    if k == 0 {
        (s, None)
    } else {
        let first = run_task(s, 10);
        let rest = run_tasks(first.0, (k - 1) as nat);
        (rest.0, if first.1 is Some { first.1 } else { rest.1 })
    }
}

/// Every batch among `k` is safe to run.
pub open spec fn tasks_safe(s: Snap, k: nat) -> bool
    decreases k,
{
    k == 0 || (task_safe(s, 10) && tasks_safe(run_task(s, 10).0, (k - 1) as nat))
}

} // verus!
