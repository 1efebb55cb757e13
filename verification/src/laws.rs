use vstd::prelude::*;

use crate::errors::VmError;
use crate::memory::{seg_read, CODE_SEG_SIZE, DATA_SEG_SIZE};
use crate::model::{
    addr16, decode_seq_at, decode_task_at, exec_on, ix_executable, ix_type_of, opcode_of, pc_of, run_n,
    run_task, run_tasks, scan_from, seq_run_ends, seq_step, snap_wf, task_safe, task_step, tasks_safe,
    valid_run, wrap16, Decoded, Snap, StepRes,
};
use crate::vm::IxType;

verus! {

/// Writing a valid (opcode, operand-length, operand-bytes) tuple at a
/// code address and decoding from that address reproduces exactly those
/// three fields.  A batch decode reproduces every tuple, the terminator
/// included; the sequential decoder reproduces every non-terminator
/// tuple and recognizes the terminator as the halt marker.
pub proof fn lemma_decode_round_trip(code: Seq<u8>, pc: u16, t: IxType, size: u8, data: Seq<u8>)
    requires
        code.len() == CODE_SEG_SIZE as int,
        pc as int + 2 + size as int <= CODE_SEG_SIZE as int,
        data.len() == size as int,
        code[pc as int] == opcode_of(t),
        code[pc as int + 1] == size,
        code.subrange(pc as int + 2, pc as int + 2 + size as int) == data,
    ensures
        decode_task_at(code, pc) == (Decoded::Operation { t, size, data }),
        t is NOP ==> decode_seq_at(code, pc) is Halted,
        !(t is NOP) ==> decode_seq_at(code, pc) == (Decoded::Operation { t, size, data }),
{
    assert(ix_type_of(opcode_of(t)) == t);
}

/// MOV writes the immediate, zero-extended to sixteen bits, into the
/// named register: reading that register in the resulting state yields
/// exactly the immediate.  The identifier must name one of the ten
/// register slots and not the program counter, which the unconditional
/// advance overwrites right after the move.
pub proof fn lemma_mov_sets_register(s: Snap, rb: u8, imm: u8)
    requires
        snap_wf(s),
        rb < 10,
        rb != 9,
    ensures
        exec_on(s, IxType::MOV, 2, seq![rb, imm]) matches Ok(s2) && s2.regs[rb as int] == imm
            as u16,
{
}

/// STM stores the low eight bits of the source register at a stored data
/// address; LDM from the same address then loads exactly those bits,
/// zero-extended, into the target register — whether or not the two
/// registers differ.  The address must lie below the capacity (the
/// accepted boundary address backs no storage) and the target must name
/// a slot other than the program counter.
pub proof fn lemma_stm_then_ldm(s: Snap, hi: u8, lo: u8, r1: u8, r2: u8)
    requires
        snap_wf(s),
        addr16(hi, lo) < DATA_SEG_SIZE,
        r1 < 10,
        r2 < 10,
        r2 != 9,
    ensures
        exec_on(s, IxType::STM, 3, seq![hi, lo, r1]) matches Ok(s1) && (exec_on(
            s1,
            IxType::LDM,
            3,
            seq![hi, lo, r2],
        ) matches Ok(s2) && s2.regs[r2 as int] == (s.regs[r1 as int] as u8) as u16),
{
}

/// ADD reads the data byte stored at the address, zero-extends it, and
/// adds it to the named register's prior value with 16-bit wrapping
/// semantics: the register becomes (prior + byte) mod 65536.  The
/// address must lie below the capacity (the accepted boundary address
/// backs no storage) and the register must name a slot other than the
/// program counter.
pub proof fn lemma_add_wraps(s: Snap, hi: u8, lo: u8, rb: u8)
    requires
        snap_wf(s),
        addr16(hi, lo) < DATA_SEG_SIZE,
        rb < 10,
        rb != 9,
    ensures
        exec_on(s, IxType::ADD, 3, seq![hi, lo, rb]) matches Ok(s2) && s2.regs[rb as int] as int
            == (s.regs[rb as int] as int + s.data[addr16(hi, lo) as int] as int) % 0x10000,
{
}

/// Whether an instruction writes the program counter itself (register
/// slot nine) before the advance.
pub open spec fn writes_pc(t: IxType, data: Seq<u8>) -> bool {
    match t {
        IxType::MOV => data[0] == 9,
        IxType::LDM => data[2] == 9,
        IxType::ADD => data[2] == 9,
        _ => false,
    }
}

/// Executing any single successfully completing instruction that does
/// not itself write the program counter advances the program counter by
/// exactly the operand length plus the two header bytes (wrapping at
/// the 16-bit bound), whatever the opcode.
pub proof fn lemma_pc_advance(s: Snap, t: IxType, size: u8, data: Seq<u8>)
    requires
        snap_wf(s),
        ix_executable(t, data),
        !writes_pc(t, data),
        exec_on(s, t, size, data) is Ok,
    ensures
        exec_on(s, t, size, data) matches Ok(s2) && s2.regs[9] == wrap16(s.regs[9] + size + 2),
{
}

/// A sequential run stops after exactly one step count: if the run from
/// `s` is about to halt or fail after both `n1` and `n2` successful
/// steps, the two counts coincide.  Together with the sequential
/// scheduler's contract, a program of `k` instructions terminated by the
/// halt marker executes exactly those `k` instructions, in program
/// order, and halts.
pub proof fn lemma_stop_count_unique(s: Snap, n1: nat, n2: nat)
    requires
        valid_run(s, n1),
        !(seq_step(run_n(s, n1)) is SNext),
        valid_run(s, n2),
        !(seq_step(run_n(s, n2)) is SNext),
    ensures
        n1 == n2,
{
    if n1 < n2 {
        assert(seq_step(run_n(s, n1)) is SNext);
    }
    if n2 < n1 {
        assert(seq_step(run_n(s, n2)) is SNext);
    }
}

/// A program whose run reaches the halt marker (or an error) after `k`
/// instructions meets the sequential scheduler's termination
/// precondition; by the stop-count uniqueness above, a successful
/// sequential run on it ends in exactly the state after those `k`
/// instructions.
pub proof fn lemma_ending_run_meets_precondition(s: Snap, k: nat)
    requires
        valid_run(s, k),
        seq_step(run_n(s, k)) is SHalt || seq_step(run_n(s, k)) is SFail,
    ensures
        seq_run_ends(s),
{
}

/// The next `n` instructions laid out in the code segment from `ptr`
/// are well formed for batch execution: whenever a header there decodes
/// to an instruction, that instruction neither overruns the register
/// file or its payload nor writes the program counter, and the same
/// holds from the following header onward.
pub open spec fn stream_executable(code: Seq<u8>, ptr: u16, n: nat) -> bool
    decreases n,
{
    n == 0 || {
        &&& (decode_task_at(code, ptr) matches Decoded::Operation { t, size, data } ==> (
        ix_executable(t, data) && !writes_pc(t, data)))
        &&& (ptr as int + 1 <= CODE_SEG_SIZE as int ==> stream_executable(
            code,
            (ptr as int + seg_read(code, CODE_SEG_SIZE, (ptr as int + 1) as u16) as int + 2) as u16,
            (n - 1) as nat,
        ))
    }
}

/// A state whose next batch step fails keeps failing: the step changes
/// nothing, so any number of further batches is safe to run.
pub proof fn lemma_failed_state_tasks_safe(s: Snap, k: nat)
    requires
        task_step(s) is SFail,
    ensures
        tasks_safe(s, k),
    decreases k,
{
    if k > 0 {
        assert(task_safe(s, 10));
        assert(run_task(s, 10).0 == s);
        lemma_failed_state_tasks_safe(s, (k - 1) as nat);
    }
}

/// One batch over a well-formed stream is safe, and it leaves either a
/// cleanly failing state or the remainder of the stream, still well
/// formed, at the new program counter.
pub proof fn lemma_stream_executable_task_safe(s: Snap, fuel: nat, n: nat)
    requires
        snap_wf(s),
        fuel <= n,
        stream_executable(s.code, pc_of(s), n),
    ensures
        task_safe(s, fuel),
        snap_wf(run_task(s, fuel).0),
        run_task(s, fuel).0.code == s.code,
        run_task(s, fuel).1 is None ==> stream_executable(
            s.code,
            pc_of(run_task(s, fuel).0),
            (n - fuel) as nat,
        ),
        run_task(s, fuel).1 is Some ==> task_step(run_task(s, fuel).0) is SFail,
    decreases fuel,
{
    if fuel > 0 {
        let dec = decode_task_at(s.code, pc_of(s));
        match task_step(s) {
            StepRes::SHalt => {
                assert(false);
            },
            StepRes::SStuck => {
                assert(false);
            },
            StepRes::SFail { e } => {},
            StepRes::SNext { s: s2 } => {
                match dec {
                    Decoded::Operation { t, size, data } => {
                        assert(exec_on(s, t, size, data) == Result::<Snap, VmError>::Ok(s2));
                        assert(pc_of(s2) == wrap16(pc_of(s) + size + 2));
                        assert(pc_of(s) as int + size as int + 2 <= CODE_SEG_SIZE as int);
                        assert(pc_of(s2) as int == pc_of(s) as int + size as int + 2);
                        lemma_stream_executable_task_safe(s2, (fuel - 1) as nat, (n - 1) as nat);
                    },
                    _ => {
                        assert(false);
                    },
                }
            },
        }
    }
}

/// A stream of at least `k * 10` well-formed instructions meets the
/// chunked scheduler's batch-safety precondition for `k` batches: no
/// dispatched step can reach past the register file or a payload.
pub proof fn lemma_stream_executable_tasks_safe(s: Snap, k: nat, n: nat)
    requires
        snap_wf(s),
        k * 10 <= n,
        stream_executable(s.code, pc_of(s), n),
    ensures
        tasks_safe(s, k),
    decreases k,
{
    if k > 0 {
        lemma_stream_executable_task_safe(s, 10, n);
        let s2 = run_task(s, 10).0;
        if run_task(s, 10).1 is None {
            assert((k - 1) * 10 <= n - 10) by (nonlinear_arith)
                requires
                    k * 10 <= n,
                    k >= 1,
            ;
            lemma_stream_executable_tasks_safe(s2, (k - 1) as nat, (n - 10) as nat);
        } else {
            lemma_failed_state_tasks_safe(s2, (k - 1) as nat);
        }
    }
}

/// A successful scan counts zero or more instructions.
pub proof fn lemma_scan_count_nonneg(code: Seq<u8>, ptr: u16)
    ensures
        scan_from(code, ptr) matches Ok(n) ==> n >= 0,
    decreases (if ptr <= CODE_SEG_SIZE {
        CODE_SEG_SIZE as int + 1 - ptr as int
    } else {
        0
    }),
{
    if ptr as int + 1 <= CODE_SEG_SIZE as int && seg_read(code, CODE_SEG_SIZE, ptr) != 0 {
        lemma_scan_count_nonneg(
            code,
            (ptr as int + seg_read(code, CODE_SEG_SIZE, (ptr as int + 1) as u16) as int + 2) as u16,
        );
    }
}

/// When the scan counts `n` instructions and those `n` instructions are
/// well formed, the chunked scheduler's batch-safety precondition holds
/// for its `n / 10` dispatched batches.
pub proof fn lemma_well_formed_scan_meets_precondition(s: Snap)
    requires
        snap_wf(s),
        (scan_from(s.code, pc_of(s)) matches Ok(cnt) ==> stream_executable(
            s.code,
            pc_of(s),
            cnt as nat,
        )),
    ensures
        (scan_from(s.code, pc_of(s)) matches Ok(cnt) ==> tasks_safe(s, (cnt / 10) as nat)),
{
    lemma_scan_count_nonneg(s.code, pc_of(s));
    match scan_from(s.code, pc_of(s)) {
        Ok(cnt) => {
            assert((cnt / 10) * 10 <= cnt) by (nonlinear_arith)
                requires
                    cnt >= 0,
            ;
            lemma_stream_executable_tasks_safe(s, (cnt / 10) as nat, cnt as nat);
        },
        Err(_) => {},
    }
}

/// The dispatch phase runs `count / 10` batches; with fewer than ten
/// scanned instructions that is zero batches, so the call returns at
/// once having executed nothing and changed nothing.
pub proof fn lemma_dispatch_degenerate(s: Snap, cnt: int)
    requires
        0 <= cnt < 10,
    ensures
        cnt / 10 == 0,
        run_tasks(s, (cnt / 10) as nat) == (s, Option::<VmError>::None),
{
    assert(run_tasks(s, 0nat) == (s, Option::<VmError>::None));
}

} // verus!
