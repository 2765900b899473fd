//! Result translation: from the machine's raw outcome and final state to the
//! canonical effects record used for cross-implementation comparison.
//!
//! Three special cases shape the translation. A budget-exhaustion trap
//! reports no memory contents and no final counter, because post-exhaustion
//! state is not comparable across implementations. An unresolved call whose
//! hash-inverse lies beyond the program text is reclassified as a
//! text-segment violation, with one extra simulated frame push, mirroring
//! the reference implementation's ordering. Everything else maps through the
//! static tables of [`crate::errors`].

use vstd::prelude::*;

use crate::errors::{
    fault_code, fault_kind, spec_fault_code, spec_fault_kind, VmFault, ERR_SIGCOST, KIND_NONE,
};
use crate::layout::clone_bytes;
use crate::resolver::{pc_hash_inverse, spec_pc_hash_inverse};

verus! {

/// Opcode of the call-by-immediate instruction.
pub const CALL_IMM_OPCODE: u8 = 0x85;

/// Byte size of one encoded instruction.
pub const INSN_SIZE: usize = 8;

/// Final contents of one input region, reported back in the effects record.
pub struct InputRegionState {
    pub offset: u64,
    pub data: Vec<u8>,
    pub writable: bool,
}

/// The canonical record of a run's observable effects: error classification,
/// the exit value of register 0, remaining budget, final memory contents,
/// call depth, captured log bytes, and the final program counter.
pub struct ExecutionEffects {
    pub error: i64,
    pub error_kind: i32,
    pub r0: u64,
    pub cu_remaining: u64,
    pub frame_count: u64,
    pub heap: Vec<u8>,
    pub stack: Vec<u8>,
    pub rodata: Vec<u8>,
    pub input_regions: Vec<InputRegionState>,
    pub log: Vec<u8>,
    pub pc: u64,
}

/// The machine's raw outcome and final state, as read back after a
/// dispatched run: the success value or trap, the remaining budget, the call
/// depth, the final region contents, and the final program counter.
pub struct VmPostState {
    pub result: Result<u64, VmFault>,
    pub cu_remaining: u64,
    pub frame_count: u64,
    pub heap: Vec<u8>,
    pub stack: Vec<u8>,
    pub rodata: Vec<u8>,
    pub input_regions: Vec<InputRegionState>,
    pub pc: u64,
}

/// Two input-region states carry the same bytes, offset and writability.
pub open spec fn spec_region_eq(a: InputRegionState, b: InputRegionState) -> bool {
    &&& a.offset == b.offset
    &&& a.data@ == b.data@
    &&& a.writable == b.writable
}

/// Pointwise equality of two input-region lists.
pub open spec fn spec_regions_eq(a: Seq<InputRegionState>, b: Seq<InputRegionState>) -> bool {
    &&& a.len() == b.len()
    &&& forall|i: int| 0 <= i < a.len() ==> spec_region_eq(#[trigger] a[i], b[i])
}

/// The little-endian 32-bit word at byte offset `off` of `text`.
pub open spec fn spec_le32_at(text: Seq<u8>, off: int) -> u32 {
    (text[off] as u32) | ((text[off + 1] as u32) << 8u32) | ((text[off + 2] as u32) << 16u32) | (
    (text[off + 3] as u32) << 24u32)
}

/// Whether the trap is an unresolved call whose hash-inverse, read as a
/// program counter, lies beyond the program's instruction count: the
/// instruction at the final counter is a call-by-immediate and the inverse
/// of its immediate exceeds the number of encoded instructions.
pub open spec fn spec_call_miss_out_of_text(fault: VmFault, pc: u64, text: Seq<u8>) -> bool {
    &&& fault == VmFault::UnsupportedInstruction
    &&& pc * 8 + 8 <= text.len()
    &&& text[pc * 8] == CALL_IMM_OPCODE
    &&& spec_pc_hash_inverse(spec_le32_at(text, pc * 8 + 4)) > text.len() / 8
}

/// The reclassified trap: a text-segment violation with one extra simulated
/// frame push when [`spec_call_miss_out_of_text`] holds, the original trap
/// untouched otherwise.
pub open spec fn spec_reclassify(fault: VmFault, pc: u64, text: Seq<u8>) -> (VmFault, bool) {
    if spec_call_miss_out_of_text(fault, pc, text) {
        (VmFault::CallOutsideTextSegment, true)
    } else {
        (fault, false)
    }
}

/// Inspect an unresolved-call trap and reclassify it when the missing
/// target lies beyond the program text; see [`spec_reclassify`]. The second
/// component reports whether one extra frame push must be simulated.
pub fn reclassify_call_miss(fault: &VmFault, pc: u64, text: &Vec<u8>) -> (r: (VmFault, bool))
    ensures
        r == spec_reclassify(*fault, pc, text@),
{
    if !matches!(fault, VmFault::UnsupportedInstruction) {
        return (*fault, false);
    }
    let insn_count = text.len() / INSN_SIZE;
    if pc >= insn_count as u64 {
        proof {
            vstd::arithmetic::div_mod::lemma_fundamental_div_mod(text@.len() as int, 8);
        }
        return (*fault, false);
    }
    let base = (pc as usize) * INSN_SIZE;
    proof {
        vstd::arithmetic::div_mod::lemma_fundamental_div_mod(text@.len() as int, 8);
    }
    if text[base] != CALL_IMM_OPCODE {
        return (*fault, false);
    }
    let imm: u32 = (text[base + 4] as u32) | ((text[base + 5] as u32) << 8u32) | ((text[base
        + 6] as u32) << 16u32) | ((text[base + 7] as u32) << 24u32);
    let inverse = pc_hash_inverse(imm);
    if inverse as u64 > insn_count as u64 {
        (VmFault::CallOutsideTextSegment, true)
    } else {
        (*fault, false)
    }
}

/// Newline-joined concatenation of the captured log lines; empty when no
/// line was recorded.
pub open spec fn spec_join_logs(lines: Seq<Seq<u8>>) -> Seq<u8>
    decreases lines.len(),
{
    if lines.len() == 0 {
        Seq::<u8>::empty()
    } else if lines.len() == 1 {
        lines[0]
    } else {
        spec_join_logs(lines.drop_last()) + seq![0x0au8] + lines.last()
    }
}

/// The views of a list of byte buffers.
pub open spec fn spec_views(lines: Seq<Vec<u8>>) -> Seq<Seq<u8>> {
    lines.map(|i: int, v: Vec<u8>| v@)
}

/// Join the captured log lines with newline bytes; see [`spec_join_logs`].
pub fn join_logs(lines: &Vec<Vec<u8>>) -> (r: Vec<u8>)
    ensures
        r@ == spec_join_logs(spec_views(lines@)),
{
    let mut r: Vec<u8> = Vec::new();
    let mut i: usize = 0;
    while i < lines.len()
        invariant
            i <= lines@.len(),
            r@ == spec_join_logs(spec_views(lines@).take(i as int)),
        decreases lines@.len() - i,
    {
        if i > 0 {
            r.push(0x0au8);
        }
        let line = &lines[i];
        let mut j: usize = 0;
        while j < line.len()
            invariant
                j <= line@.len(),
                i < lines@.len(),
                line@ == lines@[i as int]@,
                i > 0 ==> r@ == spec_join_logs(spec_views(lines@).take(i as int)) + seq![0x0au8]
                    + line@.take(j as int),
                i == 0 ==> r@ == line@.take(j as int),
            decreases line@.len() - j,
        {
            r.push(line[j]);
            proof {
                assert(line@.take(j as int + 1) =~= line@.take(j as int) + seq![line@[j as int]]);
                if i > 0 {
                    assert(r@ =~= spec_join_logs(spec_views(lines@).take(i as int)) + seq![0x0au8]
                        + line@.take(j as int + 1));
                }
            }
            j = j + 1;
        }
        proof {
            let vs = spec_views(lines@);
            assert(line@.take(line@.len() as int) =~= line@);
            assert(vs.take(i as int + 1).drop_last() =~= vs.take(i as int));
            assert(vs.take(i as int + 1).last() == vs[i as int]);
            if i == 0 {
                assert(spec_join_logs(vs.take(1)) == vs[0]);
                assert(r@ =~= vs[0]);
            } else {
                assert(spec_join_logs(vs.take(i as int + 1)) == spec_join_logs(vs.take(i as int))
                    + seq![0x0au8] + vs[i as int]);
                assert(r@ =~= spec_join_logs(vs.take(i as int)) + seq![0x0au8] + vs[i as int]);
            }
        }
        i = i + 1;
    }
    proof {
        assert(spec_views(lines@).take(lines@.len() as int) =~= spec_views(lines@));
    }
    r
}

/// Copy of an input-region list.
fn clone_regions(src: &Vec<InputRegionState>) -> (r: Vec<InputRegionState>)
    ensures
        spec_regions_eq(r@, src@),
{
    let mut r: Vec<InputRegionState> = Vec::new();
    let mut i: usize = 0;
    while i < src.len()
        invariant
            i <= src@.len(),
            r@.len() == i,
            forall|k: int| 0 <= k < i ==> spec_region_eq(#[trigger] r@[k], src@[k]),
        decreases src@.len() - i,
    {
        let s = &src[i];
        r.push(
            InputRegionState {
                offset: s.offset,
                data: clone_bytes(&s.data),
                writable: s.writable,
            },
        );
        i = i + 1;
    }
    r
}

/// The all-default effects record with only the error code set: what a
/// full-program request yields when its program fails to verify or compile.
pub fn invalid_program_effects() -> (e: ExecutionEffects)
    ensures
        e.error == -1,
        e.error_kind == 0,
        e.r0 == 0,
        e.cu_remaining == 0,
        e.frame_count == 0,
        e.heap@.len() == 0,
        e.stack@.len() == 0,
        e.rodata@.len() == 0,
        e.input_regions@.len() == 0,
        e.log@.len() == 0,
        e.pc == 0,
{
    ExecutionEffects {
        error: -1,
        error_kind: 0,
        r0: 0,
        cu_remaining: 0,
        frame_count: 0,
        heap: Vec::new(),
        stack: Vec::new(),
        rodata: Vec::new(),
        input_regions: Vec::new(),
        log: Vec::new(),
        pc: 0,
    }
}

/// The effects record of a direct-subroutine run, relative to the machine's
/// final state and the captured log lines.
pub open spec fn spec_syscall_effects_of(
    e: ExecutionEffects,
    post: VmPostState,
    log_lines: Seq<Seq<u8>>,
) -> bool {
    &&& match post.result {
        Ok(v) => e.error == 0 && e.error_kind == KIND_NONE && e.r0 == v,
        Err(f) => e.error == spec_fault_code(f) && e.error_kind == spec_fault_kind(f) && e.r0
            == 0,
    }
    &&& e.cu_remaining == post.cu_remaining
    &&& e.frame_count == post.frame_count
    &&& e.heap@ == post.heap@
    &&& e.stack@ == post.stack@
    &&& e.rodata@ == post.rodata@
    &&& spec_regions_eq(e.input_regions@, post.input_regions@)
    &&& e.log@ == spec_join_logs(log_lines)
    &&& e.pc == 0
}

/// Translate a direct-subroutine outcome into its effects record. Register
/// 0's exit value is the subroutine's returned value on success and zero on
/// a trap; memory contents, budget and call depth are taken verbatim; the
/// final counter is not reported in this mode.
pub fn syscall_effects(post: &VmPostState, log_lines: &Vec<Vec<u8>>) -> (e: ExecutionEffects)
    ensures
        spec_syscall_effects_of(e, *post, spec_views(log_lines@)),
{
    let (error, error_kind, r0): (i64, i32, u64) = match &post.result {
        Ok(v) => (0, KIND_NONE, *v),
        Err(f) => (fault_code(f), fault_kind(f), 0),
    };
    ExecutionEffects {
        error,
        error_kind,
        r0,
        cu_remaining: post.cu_remaining,
        frame_count: post.frame_count,
        heap: clone_bytes(&post.heap),
        stack: clone_bytes(&post.stack),
        rodata: clone_bytes(&post.rodata),
        input_regions: clone_regions(&post.input_regions),
        log: join_logs(log_lines),
        pc: 0,
    }
}

/// The effects record of a full-program run, relative to the machine's
/// final state and the program text. The trap, if any, is first
/// reclassified per [`spec_reclassify`]; a budget-exhaustion trap then
/// reports only its code and the call depth, with the budget forced to zero
/// and every other field at its default.
pub open spec fn spec_program_effects_of(
    e: ExecutionEffects,
    post: VmPostState,
    text: Seq<u8>,
) -> bool {
    match post.result {
        Ok(v) => {
            &&& e.error == 0
            &&& e.error_kind == KIND_NONE
            &&& e.r0 == v
            &&& e.cu_remaining == post.cu_remaining
            &&& e.frame_count == post.frame_count
            &&& e.heap@ == post.heap@
            &&& e.stack@ == post.stack@
            &&& e.rodata@ == post.rodata@
            &&& spec_regions_eq(e.input_regions@, post.input_regions@)
            &&& e.log@.len() == 0
            &&& e.pc == post.pc
        },
        Err(f) => {
            let (fault, extra) = spec_reclassify(f, post.pc, text);
            let frames = if extra {
                (post.frame_count + 1) as u64
            } else {
                post.frame_count
            };
            if fault == VmFault::ExceededMaxInstructions {
                &&& e.error == ERR_SIGCOST
                &&& e.error_kind == KIND_NONE
                &&& e.r0 == 0
                &&& e.cu_remaining == 0
                &&& e.frame_count == frames
                &&& e.heap@.len() == 0
                &&& e.stack@.len() == 0
                &&& e.rodata@.len() == 0
                &&& e.input_regions@.len() == 0
                &&& e.log@.len() == 0
                &&& e.pc == 0
            } else {
                &&& e.error == spec_fault_code(fault)
                &&& e.error_kind == KIND_NONE
                &&& e.r0 == 0
                &&& e.cu_remaining == post.cu_remaining
                &&& e.frame_count == frames
                &&& e.heap@ == post.heap@
                &&& e.stack@ == post.stack@
                &&& e.rodata@ == post.rodata@
                &&& spec_regions_eq(e.input_regions@, post.input_regions@)
                &&& e.log@.len() == 0
                &&& e.pc == post.pc
            }
        },
    }
}

/// Translate a full-program outcome into its effects record; see
/// [`spec_program_effects_of`]. No log is reported in this mode, and the
/// error category stays at its default.
pub fn program_effects(post: &VmPostState, text: &Vec<u8>) -> (e: ExecutionEffects)
    requires
        post.frame_count < u64::MAX,
    ensures
        spec_program_effects_of(e, *post, text@),
{
    match &post.result {
        Ok(v) => ExecutionEffects {
            error: 0,
            error_kind: KIND_NONE,
            r0: *v,
            cu_remaining: post.cu_remaining,
            frame_count: post.frame_count,
            heap: clone_bytes(&post.heap),
            stack: clone_bytes(&post.stack),
            rodata: clone_bytes(&post.rodata),
            input_regions: clone_regions(&post.input_regions),
            log: Vec::new(),
            pc: post.pc,
        },
        Err(f) => {
            let (fault, extra) = reclassify_call_miss(f, post.pc, text);
            let frames = if extra {
                post.frame_count + 1
            } else {
                post.frame_count
            };
            if matches!(fault, VmFault::ExceededMaxInstructions) {
                ExecutionEffects {
                    error: ERR_SIGCOST,
                    error_kind: KIND_NONE,
                    r0: 0,
                    cu_remaining: 0,
                    frame_count: frames,
                    heap: Vec::new(),
                    stack: Vec::new(),
                    rodata: Vec::new(),
                    input_regions: Vec::new(),
                    log: Vec::new(),
                    pc: 0,
                }
            } else {
                ExecutionEffects {
                    error: fault_code(&fault),
                    error_kind: KIND_NONE,
                    r0: 0,
                    cu_remaining: post.cu_remaining,
                    frame_count: frames,
                    heap: clone_bytes(&post.heap),
                    stack: clone_bytes(&post.stack),
                    rodata: clone_bytes(&post.rodata),
                    input_regions: clone_regions(&post.input_regions),
                    log: Vec::new(),
                    pc: post.pc,
                }
            }
        },
    }
}

/// The final program counter a full-program run reports: on success, the
/// counter recorded by the last trace entry when one exists, the counter
/// register otherwise; on a trap, always the counter register.
pub fn select_final_pc(success: bool, last_trace_pc: &Option<u64>, counter_register: u64) -> (pc:
    u64)
    ensures
        pc == if success {
            match *last_trace_pc {
                Some(t) => t,
                None => counter_register,
            }
        } else {
            counter_register
        },
{
    if success {
        match last_trace_pc {
            Some(t) => *t,
            None => counter_register,
        }
    } else {
        counter_register
    }
}

/// A run that completes without trapping reports no error: its error code
/// is zero and its error-category field stays at its unused zero value — in
/// both dispatch modes.
pub proof fn lemma_no_trap_no_error(
    e: ExecutionEffects,
    post: VmPostState,
    log_lines: Seq<Seq<u8>>,
    text: Seq<u8>,
    v: u64,
)
    requires
        post.result == Ok::<u64, VmFault>(v),
        spec_syscall_effects_of(e, post, log_lines) || spec_program_effects_of(e, post, text),
    ensures
        e.error == 0,
        e.error_kind == 0,
{
}

/// A trap always reports a nonzero error code, in both dispatch modes: a
/// zero code means, and only means, a run that completed without trapping.
pub proof fn lemma_trap_reports_nonzero_error(
    e: ExecutionEffects,
    post: VmPostState,
    log_lines: Seq<Seq<u8>>,
    text: Seq<u8>,
    f: VmFault,
)
    requires
        post.result == Err::<u64, VmFault>(f),
        spec_syscall_effects_of(e, post, log_lines) || spec_program_effects_of(e, post, text),
    ensures
        e.error != 0,
{
    crate::errors::lemma_fault_code_nonzero(f);
    let (fault, _) = spec_reclassify(f, post.pc, text);
    crate::errors::lemma_fault_code_nonzero(fault);
}

/// A budget-exhaustion trap reports compute-units-remaining forced to zero
/// and leaves every memory region, the log and the final counter at their
/// empty or zero defaults; only the error code and the call depth survive.
pub proof fn lemma_exhaustion_omits_state(
    e: ExecutionEffects,
    post: VmPostState,
    text: Seq<u8>,
)
    requires
        post.result == Err::<u64, VmFault>(VmFault::ExceededMaxInstructions),
        spec_program_effects_of(e, post, text),
    ensures
        e.error == ERR_SIGCOST,
        e.cu_remaining == 0,
        e.frame_count == post.frame_count,
        e.heap@.len() == 0,
        e.stack@.len() == 0,
        e.rodata@.len() == 0,
        e.input_regions@.len() == 0,
        e.pc == 0,
{
    assert(!spec_call_miss_out_of_text(
        VmFault::ExceededMaxInstructions,
        post.pc,
        text,
    ));
}

/// A call-instruction lookup miss whose hash-inverse lies beyond the
/// program's instruction count is reported as a text-segment violation, and
/// the recorded call depth carries one extra simulated frame push compared
/// with the depth the machine reached.
pub proof fn lemma_out_of_text_call_reclassified(
    e: ExecutionEffects,
    post: VmPostState,
    text: Seq<u8>,
)
    requires
        post.frame_count < u64::MAX,
        post.result matches Err(f) && spec_call_miss_out_of_text(f, post.pc, text),
        spec_program_effects_of(e, post, text),
    ensures
        e.error == spec_fault_code(VmFault::CallOutsideTextSegment),
        e.frame_count == post.frame_count + 1,
{
}

} // verus!
