use vm_harness::errors::{
    fault_code, fault_kind, instr_fault_code, syscall_fault_code, InstrFault, SyscallFault,
    VmFault, ERR_INVALID_PROGRAM, ERR_SIGCALL, ERR_SIGCOST, ERR_SIGFPE, ERR_SIGSEGV,
    ERR_SIGSTACK, ERR_SIGTEXT, KIND_EBPF, KIND_INSTRUCTION, KIND_SYSCALL,
};

fn all_machine_faults() -> Vec<VmFault> {
    vec![
        VmFault::ElfParse,
        VmFault::FunctionAlreadyRegistered,
        VmFault::CallDepthExceeded,
        VmFault::ExitRootCallFrame,
        VmFault::DivideByZero,
        VmFault::DivideOverflow,
        VmFault::ExecutionOverrun,
        VmFault::CallOutsideTextSegment,
        VmFault::ExceededMaxInstructions,
        VmFault::JitNotCompiled,
        VmFault::InvalidVirtualAddress,
        VmFault::InvalidMemoryRegion,
        VmFault::AccessViolation,
        VmFault::StackAccessViolation,
        VmFault::InvalidInstruction,
        VmFault::UnsupportedInstruction,
        VmFault::ExhaustedTextSegment,
        VmFault::LibcInvocationFailed,
        VmFault::VerifierError,
        VmFault::Syscall(SyscallFault::Abort),
        VmFault::Syscall(SyscallFault::Instruction(InstrFault::GenericError)),
        VmFault::Syscall(SyscallFault::Instruction(InstrFault::Custom(0))),
    ]
}

#[test]
fn machine_trap_codes() {
    assert_eq!(fault_code(&VmFault::ExceededMaxInstructions), ERR_SIGCOST);
    assert_eq!(fault_code(&VmFault::CallOutsideTextSegment), ERR_SIGTEXT);
    assert_eq!(fault_code(&VmFault::ExecutionOverrun), ERR_SIGTEXT);
    assert_eq!(fault_code(&VmFault::UnsupportedInstruction), ERR_SIGCALL);
    assert_eq!(fault_code(&VmFault::AccessViolation), ERR_SIGSEGV);
    assert_eq!(fault_code(&VmFault::CallDepthExceeded), ERR_SIGSTACK);
    assert_eq!(fault_code(&VmFault::DivideByZero), ERR_SIGFPE);
    assert_eq!(fault_code(&VmFault::VerifierError), ERR_INVALID_PROGRAM);
}

#[test]
fn machine_trap_kind_is_ebpf() {
    assert_eq!(fault_kind(&VmFault::AccessViolation), KIND_EBPF);
    assert_eq!(fault_kind(&VmFault::ExceededMaxInstructions), KIND_EBPF);
}

#[test]
fn syscall_fault_codes_and_kind() {
    let f = VmFault::Syscall(SyscallFault::Abort);
    assert_eq!(fault_kind(&f), KIND_SYSCALL);
    assert_eq!(fault_code(&f), 2);
    assert_eq!(syscall_fault_code(&SyscallFault::InvalidString), 1);
    assert_eq!(syscall_fault_code(&SyscallFault::Panic), 3);
    assert_eq!(syscall_fault_code(&SyscallFault::CopyOverlapping), 12);
}

#[test]
fn instruction_fault_codes_and_kind() {
    let f = VmFault::Syscall(SyscallFault::Instruction(InstrFault::ComputationalBudgetExceeded));
    assert_eq!(fault_kind(&f), KIND_INSTRUCTION);
    assert_eq!(fault_code(&f), 19);
    assert_eq!(instr_fault_code(&InstrFault::GenericError), 1);
    assert_eq!(instr_fault_code(&InstrFault::Custom(7)), 1007);
}

#[test]
fn every_fault_code_is_nonzero() {
    for f in all_machine_faults() {
        assert_ne!(fault_code(&f), 0, "{:?}", f);
    }
}
