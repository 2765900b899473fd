//! The cross-implementation-stable error taxonomy.
//!
//! A run that traps is still a successful comparison data point: the trap is
//! translated into a numeric error code and an error-category code that both
//! implementations agree on. The mapping is a static, total table over the
//! engine's internal error variants — no variant may fall through unmapped.

use vstd::prelude::*;

verus! {

/// Category of a run that completed without trapping. The error-category
/// field is unused on success and stays at this value.
pub const KIND_NONE: i32 = 0;

/// Category of a trap raised by the machine itself.
pub const KIND_EBPF: i32 = 1;

/// Category of a fault raised by an invoked subroutine.
pub const KIND_SYSCALL: i32 = 2;

/// Category of an instruction-processor fault surfaced through a
/// subroutine.
pub const KIND_INSTRUCTION: i32 = 3;

/// A program image the engine refused to load, verify or compile.
pub const ERR_INVALID_PROGRAM: i64 = -1;

/// Execution left, or called outside of, the program text.
pub const ERR_SIGTEXT: i64 = -8;

/// A call identifier that resolved to no registered target.
pub const ERR_SIGCALL: i64 = -10;

/// The call stack was exhausted or misused.
pub const ERR_SIGSTACK: i64 = -11;

/// An instruction the machine cannot execute.
pub const ERR_SIGILL: i64 = -12;

/// A memory access outside the mapped regions or against their writability.
pub const ERR_SIGSEGV: i64 = -13;

/// The compute budget ran out mid-run.
pub const ERR_SIGCOST: i64 = -16;

/// A divide by zero or an overflowing divide.
pub const ERR_SIGFPE: i64 = -17;

/// Instruction-processor faults that a subroutine can surface. `Custom`
/// carries a program-defined code.
#[derive(Debug, PartialEq, Eq, Structural, Clone, Copy)]
pub enum InstrFault {
    GenericError,
    InvalidArgument,
    InvalidInstructionData,
    InvalidAccountData,
    AccountDataTooSmall,
    InsufficientFunds,
    MissingRequiredSignature,
    UnbalancedInstruction,
    ModifiedProgramId,
    ExternalAccountLamportSpend,
    ReadonlyLamportChange,
    ReadonlyDataModified,
    AccountBorrowFailed,
    CallDepth,
    MissingAccount,
    MaxSeedLengthExceeded,
    InvalidSeeds,
    InvalidRealloc,
    ComputationalBudgetExceeded,
    UnsupportedProgramId,
    ArithmeticOverflow,
    Immutable,
    IncorrectAuthority,
    Custom(u32),
}

/// Faults raised directly by a subroutine handler, outside the instruction
/// processor.
#[derive(Debug, PartialEq, Eq, Structural, Clone, Copy)]
pub enum SyscallFault {
    /// An instruction-processor fault passed through the handler.
    Instruction(InstrFault),
    InvalidString,
    Abort,
    Panic,
    InvokeContextBorrowFailed,
    MalformedSignerSeed,
    BadSeeds,
    ProgramNotSupported,
    UnalignedPointer,
    TooManySigners,
    InstructionTooLarge,
    TooManyAccounts,
    CopyOverlapping,
    ReturnDataTooLarge,
    TooManySlices,
    InvalidLength,
    MaxInstructionDataLenExceeded,
    MaxInstructionAccountsExceeded,
    MaxInstructionAccountInfosExceeded,
    InvalidAttribute,
    InvalidPointer,
    ArithmeticOverflow,
}

/// The engine's internal error variant set: every way a dispatched run can
/// trap. The translation tables below are total over it.
#[derive(Debug, PartialEq, Eq, Structural, Clone, Copy)]
pub enum VmFault {
    ElfParse,
    FunctionAlreadyRegistered,
    CallDepthExceeded,
    ExitRootCallFrame,
    DivideByZero,
    DivideOverflow,
    ExecutionOverrun,
    CallOutsideTextSegment,
    ExceededMaxInstructions,
    JitNotCompiled,
    InvalidVirtualAddress,
    InvalidMemoryRegion,
    AccessViolation,
    StackAccessViolation,
    InvalidInstruction,
    UnsupportedInstruction,
    ExhaustedTextSegment,
    LibcInvocationFailed,
    VerifierError,
    /// A fault raised by an invoked subroutine rather than the machine.
    Syscall(SyscallFault),
}

/// Error category of a trap: subroutine faults carry their own category,
/// instruction-processor faults theirs, and everything else is a machine
/// trap.
pub open spec fn spec_fault_kind(f: VmFault) -> i32 {
    match f {
        VmFault::Syscall(s) => match s {
            SyscallFault::Instruction(_) => KIND_INSTRUCTION,
            _ => KIND_SYSCALL,
        },
        _ => KIND_EBPF,
    }
}

/// Numeric code of an instruction-processor fault, within
/// [`KIND_INSTRUCTION`]. Program-defined codes are offset past the fixed
/// ones.
pub open spec fn spec_instr_fault_code(f: InstrFault) -> i64 {
    match f {
        InstrFault::GenericError => 1,
        InstrFault::InvalidArgument => 2,
        InstrFault::InvalidInstructionData => 3,
        InstrFault::InvalidAccountData => 4,
        InstrFault::AccountDataTooSmall => 5,
        InstrFault::InsufficientFunds => 6,
        InstrFault::MissingRequiredSignature => 7,
        InstrFault::UnbalancedInstruction => 8,
        InstrFault::ModifiedProgramId => 9,
        InstrFault::ExternalAccountLamportSpend => 10,
        InstrFault::ReadonlyLamportChange => 11,
        InstrFault::ReadonlyDataModified => 12,
        InstrFault::AccountBorrowFailed => 13,
        InstrFault::CallDepth => 14,
        InstrFault::MissingAccount => 15,
        InstrFault::MaxSeedLengthExceeded => 16,
        InstrFault::InvalidSeeds => 17,
        InstrFault::InvalidRealloc => 18,
        InstrFault::ComputationalBudgetExceeded => 19,
        InstrFault::UnsupportedProgramId => 20,
        InstrFault::ArithmeticOverflow => 21,
        InstrFault::Immutable => 22,
        InstrFault::IncorrectAuthority => 23,
        InstrFault::Custom(c) => (1000 + c) as i64,
    }
}

/// Numeric code of a subroutine fault, within [`KIND_SYSCALL`];
/// instruction-processor faults defer to their own table.
pub open spec fn spec_syscall_fault_code(f: SyscallFault) -> i64 {
    match f {
        SyscallFault::Instruction(i) => spec_instr_fault_code(i),
        SyscallFault::InvalidString => 1,
        SyscallFault::Abort => 2,
        SyscallFault::Panic => 3,
        SyscallFault::InvokeContextBorrowFailed => 4,
        SyscallFault::MalformedSignerSeed => 5,
        SyscallFault::BadSeeds => 6,
        SyscallFault::ProgramNotSupported => 7,
        SyscallFault::UnalignedPointer => 8,
        SyscallFault::TooManySigners => 9,
        SyscallFault::InstructionTooLarge => 10,
        SyscallFault::TooManyAccounts => 11,
        SyscallFault::CopyOverlapping => 12,
        SyscallFault::ReturnDataTooLarge => 13,
        SyscallFault::TooManySlices => 14,
        SyscallFault::InvalidLength => 15,
        SyscallFault::MaxInstructionDataLenExceeded => 16,
        SyscallFault::MaxInstructionAccountsExceeded => 17,
        SyscallFault::MaxInstructionAccountInfosExceeded => 18,
        SyscallFault::InvalidAttribute => 19,
        SyscallFault::InvalidPointer => 20,
        SyscallFault::ArithmeticOverflow => 21,
    }
}

/// Numeric code of a trap: machine traps map to the reference oracle's
/// signal-style negative codes, subroutine faults to their positive tables.
pub open spec fn spec_fault_code(f: VmFault) -> i64 {
    match f {
        VmFault::ElfParse => ERR_INVALID_PROGRAM,
        VmFault::FunctionAlreadyRegistered => ERR_INVALID_PROGRAM,
        VmFault::CallDepthExceeded => ERR_SIGSTACK,
        VmFault::ExitRootCallFrame => ERR_SIGSTACK,
        VmFault::DivideByZero => ERR_SIGFPE,
        VmFault::DivideOverflow => ERR_SIGFPE,
        VmFault::ExecutionOverrun => ERR_SIGTEXT,
        VmFault::CallOutsideTextSegment => ERR_SIGTEXT,
        VmFault::ExceededMaxInstructions => ERR_SIGCOST,
        VmFault::JitNotCompiled => ERR_INVALID_PROGRAM,
        VmFault::InvalidVirtualAddress => ERR_SIGSEGV,
        VmFault::InvalidMemoryRegion => ERR_SIGSEGV,
        VmFault::AccessViolation => ERR_SIGSEGV,
        VmFault::StackAccessViolation => ERR_SIGSTACK,
        VmFault::InvalidInstruction => ERR_SIGILL,
        VmFault::UnsupportedInstruction => ERR_SIGCALL,
        VmFault::ExhaustedTextSegment => ERR_SIGTEXT,
        VmFault::LibcInvocationFailed => ERR_INVALID_PROGRAM,
        VmFault::VerifierError => ERR_INVALID_PROGRAM,
        VmFault::Syscall(s) => spec_syscall_fault_code(s),
    }
}

/// Executable twin of [`spec_fault_kind`].
pub fn fault_kind(f: &VmFault) -> (k: i32)
    ensures
        k == spec_fault_kind(*f),
{
    match f {
        VmFault::Syscall(s) => match s {
            SyscallFault::Instruction(_) => KIND_INSTRUCTION,
            _ => KIND_SYSCALL,
        },
        _ => KIND_EBPF,
    }
}

/// Executable twin of [`spec_instr_fault_code`].
pub fn instr_fault_code(f: &InstrFault) -> (c: i64)
    ensures
        c == spec_instr_fault_code(*f),
{
    match f {
        InstrFault::GenericError => 1,
        InstrFault::InvalidArgument => 2,
        InstrFault::InvalidInstructionData => 3,
        InstrFault::InvalidAccountData => 4,
        InstrFault::AccountDataTooSmall => 5,
        InstrFault::InsufficientFunds => 6,
        InstrFault::MissingRequiredSignature => 7,
        InstrFault::UnbalancedInstruction => 8,
        InstrFault::ModifiedProgramId => 9,
        InstrFault::ExternalAccountLamportSpend => 10,
        InstrFault::ReadonlyLamportChange => 11,
        InstrFault::ReadonlyDataModified => 12,
        InstrFault::AccountBorrowFailed => 13,
        InstrFault::CallDepth => 14,
        InstrFault::MissingAccount => 15,
        InstrFault::MaxSeedLengthExceeded => 16,
        InstrFault::InvalidSeeds => 17,
        InstrFault::InvalidRealloc => 18,
        InstrFault::ComputationalBudgetExceeded => 19,
        InstrFault::UnsupportedProgramId => 20,
        InstrFault::ArithmeticOverflow => 21,
        InstrFault::Immutable => 22,
        InstrFault::IncorrectAuthority => 23,
        InstrFault::Custom(c) => 1000 + *c as i64,
    }
}

/// Executable twin of [`spec_syscall_fault_code`].
pub fn syscall_fault_code(f: &SyscallFault) -> (c: i64)
    ensures
        c == spec_syscall_fault_code(*f),
{
    match f {
        SyscallFault::Instruction(i) => instr_fault_code(i),
        SyscallFault::InvalidString => 1,
        SyscallFault::Abort => 2,
        SyscallFault::Panic => 3,
        SyscallFault::InvokeContextBorrowFailed => 4,
        SyscallFault::MalformedSignerSeed => 5,
        SyscallFault::BadSeeds => 6,
        SyscallFault::ProgramNotSupported => 7,
        SyscallFault::UnalignedPointer => 8,
        SyscallFault::TooManySigners => 9,
        SyscallFault::InstructionTooLarge => 10,
        SyscallFault::TooManyAccounts => 11,
        SyscallFault::CopyOverlapping => 12,
        SyscallFault::ReturnDataTooLarge => 13,
        SyscallFault::TooManySlices => 14,
        SyscallFault::InvalidLength => 15,
        SyscallFault::MaxInstructionDataLenExceeded => 16,
        SyscallFault::MaxInstructionAccountsExceeded => 17,
        SyscallFault::MaxInstructionAccountInfosExceeded => 18,
        SyscallFault::InvalidAttribute => 19,
        SyscallFault::InvalidPointer => 20,
        SyscallFault::ArithmeticOverflow => 21,
    }
}

/// Executable twin of [`spec_fault_code`].
pub fn fault_code(f: &VmFault) -> (c: i64)
    ensures
        c == spec_fault_code(*f),
{
    match f {
        VmFault::ElfParse => ERR_INVALID_PROGRAM,
        VmFault::FunctionAlreadyRegistered => ERR_INVALID_PROGRAM,
        VmFault::CallDepthExceeded => ERR_SIGSTACK,
        VmFault::ExitRootCallFrame => ERR_SIGSTACK,
        VmFault::DivideByZero => ERR_SIGFPE,
        VmFault::DivideOverflow => ERR_SIGFPE,
        VmFault::ExecutionOverrun => ERR_SIGTEXT,
        VmFault::CallOutsideTextSegment => ERR_SIGTEXT,
        VmFault::ExceededMaxInstructions => ERR_SIGCOST,
        VmFault::JitNotCompiled => ERR_INVALID_PROGRAM,
        VmFault::InvalidVirtualAddress => ERR_SIGSEGV,
        VmFault::InvalidMemoryRegion => ERR_SIGSEGV,
        VmFault::AccessViolation => ERR_SIGSEGV,
        VmFault::StackAccessViolation => ERR_SIGSTACK,
        VmFault::InvalidInstruction => ERR_SIGILL,
        VmFault::UnsupportedInstruction => ERR_SIGCALL,
        VmFault::ExhaustedTextSegment => ERR_SIGTEXT,
        VmFault::LibcInvocationFailed => ERR_INVALID_PROGRAM,
        VmFault::VerifierError => ERR_INVALID_PROGRAM,
        VmFault::Syscall(s) => syscall_fault_code(s),
    }
}

/// No trap maps to the success code: every fault's code is nonzero, so a
/// zero error code means, and only means, a run that did not trap.
pub proof fn lemma_fault_code_nonzero(f: VmFault)
    ensures
        spec_fault_code(f) != 0,
{
}

} // verus!
