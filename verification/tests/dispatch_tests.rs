use vm_harness::cpi::Account;
use vm_harness::dispatch::{
    ensure_program_account, plan_program_run, plan_vm_run, ExecutionStrategy,
};
use vm_harness::errors::VmFault;
use vm_harness::layout::{LayoutError, VmImageSpec, HEAP_CEILING, STACK_SIZE};
use vm_harness::resolver::{pc_hash, ENTRYPOINT_KEY};
use vm_harness::translate::{syscall_effects, ExecutionEffects, VmPostState};

fn request(heap_max: u64) -> VmImageSpec {
    VmImageSpec {
        r0: 0,
        r1: 11,
        r2: 22,
        r3: 0,
        r4: 0,
        r5: 0,
        r6: 0,
        r7: 0,
        r8: 0,
        r9: 0,
        r10: 1010,
        r11: 0,
        heap_max,
        rodata: vec![0x95, 0, 0, 0, 0, 0, 0, 0],
        entry_pc: 0,
        call_whitelist: vec![0b0010_0000],
        input_fragments: Vec::new(),
    }
}

fn effects_eq(a: &ExecutionEffects, b: &ExecutionEffects) -> bool {
    a.error == b.error && a.error_kind == b.error_kind && a.r0 == b.r0
        && a.cu_remaining == b.cu_remaining && a.frame_count == b.frame_count && a.heap == b.heap
        && a.stack == b.stack && a.rodata == b.rodata && a.log == b.log && a.pc == b.pc
        && a.input_regions.len() == b.input_regions.len()
}

#[test]
fn direct_subroutine_scenario_minimal_request() {
    // empty account set but for the instruction's own program id, zero heap,
    // no prefixes: accepted, no error, the subroutine's stub value in r0,
    // zero-length heap
    let mut accounts: Vec<Account> = Vec::new();
    ensure_program_account(&mut accounts, &vec![7; 32]);
    assert_eq!(accounts.len(), 1);
    assert_eq!(accounts[0].address, vec![7; 32]);
    assert_eq!(accounts[0].state.lamports, 0);

    let plan = plan_vm_run(&request(0), false, &Vec::new(), &Vec::new()).unwrap();
    assert_eq!(plan.image.heap.bytes.len(), 0);
    assert_eq!(plan.registers, vec![0, 11, 22, 0, 0, 0, 0, 0, 0, 0, 1010, 0]);

    let post = VmPostState {
        result: Ok(0x2a),
        cu_remaining: 100,
        frame_count: 0,
        heap: plan.image.heap.bytes,
        stack: plan.image.stack.bytes,
        rodata: plan.image.program.bytes,
        input_regions: Vec::new(),
        pc: 0,
    };
    let e = syscall_effects(&post, &Vec::new());
    assert_eq!(e.error, 0);
    assert_eq!(e.error_kind, 0);
    assert_eq!(e.r0, 0x2a);
    assert!(e.heap.is_empty());
}

#[test]
fn oversized_heap_request_is_rejected_without_effects() {
    let r = plan_vm_run(&request(HEAP_CEILING + 1), false, &Vec::new(), &Vec::new());
    assert_eq!(r.err(), Some(LayoutError::HeapLimitExceeded));
}

#[test]
fn plan_seeds_heap_and_stack_prefixes() {
    let plan = plan_vm_run(&request(4), false, &vec![1, 2], &vec![8, 9]).unwrap();
    assert_eq!(plan.image.heap.bytes, vec![1, 2, 0, 0]);
    assert_eq!(plan.image.stack.bytes.len(), STACK_SIZE);
    assert_eq!(&plan.image.stack.bytes[..3], &[8, 9, 0]);
}

#[test]
fn program_plan_carries_the_call_table() {
    let plan = plan_program_run(&request(0), false, &Vec::new(), &Vec::new()).unwrap();
    assert_eq!(plan.table.lookup(ENTRYPOINT_KEY), Some(0));
    assert_eq!(plan.table.lookup(pc_hash(5)), Some(5));
    assert_eq!(plan.table.lookup(pc_hash(4)), None);
}

#[test]
fn ensure_program_account_keeps_existing_account() {
    let mut accounts: Vec<Account> = Vec::new();
    ensure_program_account(&mut accounts, &vec![7; 32]);
    accounts[0].state.lamports = 55;
    ensure_program_account(&mut accounts, &vec![7; 32]);
    assert_eq!(accounts.len(), 1);
    assert_eq!(accounts[0].state.lamports, 55);
}

#[test]
fn identical_requests_yield_byte_identical_effects() {
    let build = || {
        let plan = plan_vm_run(&request(8), false, &vec![4, 4], &Vec::new()).unwrap();
        let post = VmPostState {
            result: Err(VmFault::AccessViolation),
            cu_remaining: 5,
            frame_count: 1,
            heap: plan.image.heap.bytes,
            stack: plan.image.stack.bytes,
            rodata: plan.image.program.bytes,
            input_regions: Vec::new(),
            pc: 3,
        };
        syscall_effects(&post, &vec![b"line".to_vec()])
    };
    let first = build();
    let second = build();
    assert!(effects_eq(&first, &second));
}

#[test]
fn strategy_values_are_distinct() {
    assert_ne!(ExecutionStrategy::Interpreted, ExecutionStrategy::Compiled);
}
