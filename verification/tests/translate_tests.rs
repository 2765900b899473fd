use vm_harness::errors::{VmFault, ERR_SIGCALL, ERR_SIGCOST, ERR_SIGTEXT};
use vm_harness::resolver::pc_hash;
use vm_harness::translate::{
    invalid_program_effects, join_logs, program_effects, reclassify_call_miss, select_final_pc,
    syscall_effects, InputRegionState, VmPostState, CALL_IMM_OPCODE,
};

fn post_state(result: Result<u64, VmFault>) -> VmPostState {
    VmPostState {
        result,
        cu_remaining: 77,
        frame_count: 2,
        heap: vec![1, 2],
        stack: vec![3],
        rodata: vec![4, 5, 6],
        input_regions: vec![InputRegionState { offset: 0, data: vec![9], writable: true }],
        pc: 40,
    }
}

/// One encoded call-by-immediate instruction whose immediate is the hashed
/// identifier of `target`.
fn call_insn(target: u64) -> Vec<u8> {
    let imm = pc_hash(target).to_le_bytes();
    vec![CALL_IMM_OPCODE, 0, 0, 0, imm[0], imm[1], imm[2], imm[3]]
}

#[test]
fn success_reports_no_error_and_verbatim_state() {
    let post = post_state(Ok(42));
    let e = syscall_effects(&post, &vec![]);
    assert_eq!(e.error, 0);
    assert_eq!(e.error_kind, 0);
    assert_eq!(e.r0, 42);
    assert_eq!(e.cu_remaining, 77);
    assert_eq!(e.frame_count, 2);
    assert_eq!(e.heap, vec![1, 2]);
    assert_eq!(e.stack, vec![3]);
    assert_eq!(e.rodata, vec![4, 5, 6]);
    assert_eq!(e.input_regions.len(), 1);
    assert_eq!(e.input_regions[0].data, vec![9]);
    assert!(e.log.is_empty());
    assert_eq!(e.pc, 0);
}

#[test]
fn syscall_trap_reports_code_and_zero_r0() {
    let post = post_state(Err(VmFault::AccessViolation));
    let e = syscall_effects(&post, &vec![]);
    assert_eq!(e.error, -13);
    assert_eq!(e.error_kind, 1);
    assert_eq!(e.r0, 0);
    assert_eq!(e.cu_remaining, 77);
}

#[test]
fn log_lines_join_with_newlines() {
    let post = post_state(Ok(0));
    let e = syscall_effects(&post, &vec![b"abc".to_vec(), b"de".to_vec()]);
    assert_eq!(e.log, b"abc\nde".to_vec());
    let single = syscall_effects(&post, &vec![b"only".to_vec()]);
    assert_eq!(single.log, b"only".to_vec());
}

#[test]
fn exhaustion_forces_budget_to_zero_and_omits_state() {
    let post = post_state(Err(VmFault::ExceededMaxInstructions));
    let e = program_effects(&post, &Vec::new());
    assert_eq!(e.error, ERR_SIGCOST);
    assert_eq!(e.error_kind, 0);
    assert_eq!(e.cu_remaining, 0);
    assert_eq!(e.frame_count, 2);
    assert!(e.heap.is_empty());
    assert!(e.stack.is_empty());
    assert!(e.rodata.is_empty());
    assert!(e.input_regions.is_empty());
    assert_eq!(e.pc, 0);
}

#[test]
fn out_of_text_call_miss_is_reclassified_with_extra_frame() {
    // one call instruction to counter 5, which lies past the single-insn text
    let text = call_insn(5);
    let mut post = post_state(Err(VmFault::UnsupportedInstruction));
    post.pc = 0;
    post.frame_count = 0;
    let e = program_effects(&post, &text);
    assert_eq!(e.error, ERR_SIGTEXT);
    assert_eq!(e.frame_count, 1);
}

#[test]
fn in_text_call_miss_keeps_unsupported_classification() {
    // the missing target decodes back to counter 0, inside the text
    let text = call_insn(0);
    let mut post = post_state(Err(VmFault::UnsupportedInstruction));
    post.pc = 0;
    post.frame_count = 0;
    let e = program_effects(&post, &text);
    assert_eq!(e.error, ERR_SIGCALL);
    assert_eq!(e.frame_count, 0);
}

#[test]
fn non_call_instruction_is_not_reclassified() {
    let mut text = call_insn(5);
    text[0] = 0x95;
    let (fault, extra) = reclassify_call_miss(&VmFault::UnsupportedInstruction, 0, &text);
    assert_eq!(fault, VmFault::UnsupportedInstruction);
    assert!(!extra);
}

#[test]
fn out_of_bounds_counter_is_not_reclassified() {
    let text = call_insn(5);
    let (fault, extra) = reclassify_call_miss(&VmFault::UnsupportedInstruction, 9, &text);
    assert_eq!(fault, VmFault::UnsupportedInstruction);
    assert!(!extra);
}

#[test]
fn other_faults_pass_reclassification_untouched() {
    let text = call_insn(5);
    let (fault, extra) = reclassify_call_miss(&VmFault::AccessViolation, 0, &text);
    assert_eq!(fault, VmFault::AccessViolation);
    assert!(!extra);
}

#[test]
fn invalid_program_record_is_default_but_for_the_code() {
    let e = invalid_program_effects();
    assert_eq!(e.error, -1);
    assert_eq!(e.error_kind, 0);
    assert_eq!(e.r0, 0);
    assert_eq!(e.cu_remaining, 0);
    assert!(e.heap.is_empty() && e.stack.is_empty() && e.rodata.is_empty());
    assert_eq!(e.pc, 0);
}

#[test]
fn final_counter_prefers_trace_on_success() {
    assert_eq!(select_final_pc(true, &Some(10), 4), 10);
    assert_eq!(select_final_pc(true, &None, 4), 4);
    assert_eq!(select_final_pc(false, &Some(10), 4), 4);
}

#[test]
fn joining_no_lines_is_empty() {
    assert!(join_logs(&vec![]).is_empty());
}
