//! Dispatch planning: the decisions a run makes before and after the engine
//! executes.
//!
//! The engine itself — scaffolding, verification, compilation, the run — is
//! an external collaborator. Everything it is handed is planned here from
//! the request alone: the completed account set, the memory image with its
//! heap and stack prefixes applied, the register seeds, and (for a full
//! program) the call-target table. Everything it hands back goes through
//! [`crate::translate`]. Both directions are functions of their inputs
//! alone, which is what makes a rerun of an identical request
//! byte-identical.

use vstd::prelude::*;

use crate::cpi::{spec_account_eq, Account, AccountState};
use crate::layout::{
    build_memory_image, copy_memory_prefix, spec_layout_accepted, spec_stack_frame_gap,
    LayoutError, MemoryImage, VmImageSpec, HEAP_CEILING, INPUT_BASE, PROGRAM_BASE, STACK_BASE,
    STACK_SIZE,
};
use crate::resolver::{build_call_table, spec_table_entries, CallTargetTable};
use crate::translate::{
    spec_program_effects_of, spec_regions_eq, spec_syscall_effects_of, ExecutionEffects,
    InputRegionState, VmPostState,
};

verus! {

/// How a full program is dispatched. The compiled path is the default: the
/// reference oracle targets compiled-dispatch semantics, and budget
/// accounting can diverge between the two strategies.
#[derive(Debug, PartialEq, Eq, Structural, Clone, Copy)]
pub enum ExecutionStrategy {
    Interpreted,
    Compiled,
}

/// A planned run: the memory image, with prefixes applied, and the twelve
/// register seeds.
pub struct RunPlan {
    pub image: MemoryImage,
    pub registers: Vec<u64>,
}

/// A planned full-program run: the memory image and registers plus the
/// call-target table.
pub struct ProgramRunPlan {
    pub run: RunPlan,
    pub table: CallTargetTable,
}

/// A zero-filled buffer of length `len` with `prefix` written over its
/// front.
pub open spec fn spec_prefixed_zeroes(len: nat, prefix: Seq<u8>) -> Seq<u8> {
    Seq::<u8>::new(
        len,
        |i: int|
            if i < prefix.len() {
                prefix[i]
            } else {
                0u8
            },
    )
}

/// The register seeds of a request, in register order.
pub open spec fn spec_register_seeds(spec: VmImageSpec) -> Seq<u64> {
    seq![
        spec.r0,
        spec.r1,
        spec.r2,
        spec.r3,
        spec.r4,
        spec.r5,
        spec.r6,
        spec.r7,
        spec.r8,
        spec.r9,
        spec.r10,
        spec.r11,
    ]
}

/// Structure of a planned run: the image of the request with the heap and
/// stack prefixes seeded over their zero fill, and the register seeds in
/// order.
pub open spec fn spec_run_plan_of(
    plan: RunPlan,
    spec: VmImageSpec,
    direct_mapping_active: bool,
    heap_prefix: Seq<u8>,
    stack_prefix: Seq<u8>,
) -> bool {
    &&& plan.image.program.base == PROGRAM_BASE
    &&& plan.image.program.bytes@ == spec.rodata@
    &&& !plan.image.program.writable
    &&& plan.image.stack.base == STACK_BASE
    &&& plan.image.stack.bytes@ == spec_prefixed_zeroes(STACK_SIZE as nat, stack_prefix)
    &&& plan.image.stack.writable
    &&& plan.image.stack.frame_gap == spec_stack_frame_gap(direct_mapping_active)
    &&& plan.image.heap.base == crate::layout::HEAP_BASE
    &&& plan.image.heap.bytes@ == spec_prefixed_zeroes(spec.heap_max as nat, heap_prefix)
    &&& plan.image.heap.writable
    &&& plan.image.inputs@.len() == spec.input_fragments@.len()
    &&& forall|i: int| 0 <= i < plan.image.inputs@.len() ==> {
        &&& (#[trigger] plan.image.inputs@[i]).base == INPUT_BASE + crate::layout::frag_offset(
            spec.input_fragments@,
            i,
        )
        &&& plan.image.inputs@[i].bytes@ == spec.input_fragments@[i].bytes@
        &&& plan.image.inputs@[i].writable == spec.input_fragments@[i].writable
    }
    &&& plan.registers@ == spec_register_seeds(spec)
}

/// Plan a run from a request: build the memory image, then seed the heap
/// and stack fronts from the invocation's prefixes and the registers from
/// the request. Accepted exactly when the layout is accepted; an over-limit
/// heap rejects with [`LayoutError::HeapLimitExceeded`] and no run is
/// performed.
pub fn plan_vm_run(
    spec: &VmImageSpec,
    direct_mapping_active: bool,
    heap_prefix: &Vec<u8>,
    stack_prefix: &Vec<u8>,
) -> (r: Result<RunPlan, LayoutError>)
    ensures
        r is Ok <==> spec_layout_accepted(spec),
        r matches Ok(plan) ==> spec_run_plan_of(
            plan,
            *spec,
            direct_mapping_active,
            heap_prefix@,
            stack_prefix@,
        ),
        r matches Err(e) ==> (e == LayoutError::HeapLimitExceeded <==> spec.heap_max
            > HEAP_CEILING),
{
    let mut image = match build_memory_image(spec, direct_mapping_active) {
        Ok(img) => img,
        Err(e) => {
            return Err(e);
        },
    };
    copy_memory_prefix(&mut image.heap.bytes, heap_prefix);
    copy_memory_prefix(&mut image.stack.bytes, stack_prefix);
    proof {
        assert(image.heap.bytes@ =~= spec_prefixed_zeroes(spec.heap_max as nat, heap_prefix@));
        assert(image.stack.bytes@ =~= spec_prefixed_zeroes(STACK_SIZE as nat, stack_prefix@));
    }
    let mut registers: Vec<u64> = Vec::new();
    registers.push(spec.r0);
    registers.push(spec.r1);
    registers.push(spec.r2);
    registers.push(spec.r3);
    registers.push(spec.r4);
    registers.push(spec.r5);
    registers.push(spec.r6);
    registers.push(spec.r7);
    registers.push(spec.r8);
    registers.push(spec.r9);
    registers.push(spec.r10);
    registers.push(spec.r11);
    proof {
        assert(registers@ =~= spec_register_seeds(*spec));
    }
    Ok(RunPlan { image, registers })
}

/// Plan a full-program run: the planned image and registers plus the
/// call-target table built from the entry counter and the call whitelist.
pub fn plan_program_run(
    spec: &VmImageSpec,
    direct_mapping_active: bool,
    heap_prefix: &Vec<u8>,
    stack_prefix: &Vec<u8>,
) -> (r: Result<ProgramRunPlan, LayoutError>)
    requires
        8 * spec.call_whitelist@.len() <= usize::MAX,
    ensures
        r is Ok <==> spec_layout_accepted(spec),
        r matches Ok(p) ==> spec_run_plan_of(
            p.run,
            *spec,
            direct_mapping_active,
            heap_prefix@,
            stack_prefix@,
        ) && p.table.entries@ == spec_table_entries(
            spec.entry_pc,
            spec.call_whitelist@,
            8 * spec.call_whitelist@.len() as int,
        ),
        r matches Err(e) ==> (e == LayoutError::HeapLimitExceeded <==> spec.heap_max
            > HEAP_CEILING),
{
    let run = match plan_vm_run(spec, direct_mapping_active, heap_prefix, stack_prefix) {
        Ok(plan) => plan,
        Err(e) => {
            return Err(e);
        },
    };
    let table = build_call_table(spec.entry_pc, &spec.call_whitelist);
    Ok(ProgramRunPlan { run, table })
}

/// The default state a synthesized account starts from: no balance, no
/// data, the all-zeroes owner, not executable.
pub open spec fn spec_default_account_state(s: AccountState) -> bool {
    &&& s.lamports == 0
    &&& s.data@.len() == 0
    &&& s.owner@ == Seq::<u8>::new(32, |i: int| 0u8)
    &&& !s.executable
    &&& s.rent_epoch == 0
}

/// Some account of the set carries this address.
pub open spec fn spec_has_account(accounts: Seq<Account>, addr: Seq<u8>) -> bool {
    exists|k: int| 0 <= k < accounts.len() && (#[trigger] accounts[k]).address@ == addr
}

/// Complete the account set for the instruction's program id: when no
/// account carries that address, a default-state account for it is appended
/// so the engine always finds the program account it scaffolds around.
pub fn ensure_program_account(accounts: &mut Vec<Account>, program_id: &Vec<u8>)
    ensures
        spec_has_account(old(accounts)@, program_id@) ==> final(accounts)@ == old(accounts)@,
        !spec_has_account(old(accounts)@, program_id@) ==> {
            &&& final(accounts)@.len() == old(accounts)@.len() + 1
            &&& forall|k: int| 0 <= k < old(accounts)@.len() ==> final(accounts)@[k] == old(
                accounts,
            )@[k]
            &&& final(accounts)@.last().address@ == program_id@
            &&& spec_default_account_state(final(accounts)@.last().state)
        },
{
    let mut i: usize = 0;
    while i < accounts.len()
        invariant
            i <= accounts@.len(),
            accounts@ == old(accounts)@,
            forall|k: int| 0 <= k < i ==> (#[trigger] accounts@[k]).address@ != program_id@,
        decreases accounts@.len() - i,
    {
        if crate::cpi::bytes_equal(&accounts[i].address, program_id) {
            return ;
        }
        i = i + 1;
    }
    let mut owner: Vec<u8> = Vec::new();
    let mut k: usize = 0;
    while k < 32
        invariant
            owner@.len() == k,
            k <= 32,
            forall|m: int| 0 <= m < k ==> owner@[m] == 0u8,
        decreases 32 - k,
    {
        owner.push(0u8);
        k = k + 1;
    }
    proof {
        assert(owner@ =~= Seq::<u8>::new(32, |i: int| 0u8));
    }
    accounts.push(
        Account {
            address: crate::layout::clone_bytes(program_id),
            state: AccountState {
                lamports: 0,
                data: Vec::new(),
                owner,
                executable: false,
                rent_epoch: 0,
            },
        },
    );
}

/// Planning a run is deterministic: identical requests, prefixes and gap
/// policy yield byte-identical images and register seeds.
pub proof fn lemma_plan_deterministic(
    p1: RunPlan,
    p2: RunPlan,
    spec: VmImageSpec,
    direct_mapping_active: bool,
    heap_prefix: Seq<u8>,
    stack_prefix: Seq<u8>,
)
    requires
        spec_run_plan_of(p1, spec, direct_mapping_active, heap_prefix, stack_prefix),
        spec_run_plan_of(p2, spec, direct_mapping_active, heap_prefix, stack_prefix),
    ensures
        p1.image.program.bytes@ == p2.image.program.bytes@,
        p1.image.stack.bytes@ == p2.image.stack.bytes@,
        p1.image.stack.frame_gap == p2.image.stack.frame_gap,
        p1.image.heap.bytes@ == p2.image.heap.bytes@,
        p1.image.inputs@.len() == p2.image.inputs@.len(),
        forall|i: int| 0 <= i < p1.image.inputs@.len() ==> {
            &&& (#[trigger] p1.image.inputs@[i]).base == p2.image.inputs@[i].base
            &&& p1.image.inputs@[i].bytes@ == p2.image.inputs@[i].bytes@
            &&& p1.image.inputs@[i].writable == p2.image.inputs@[i].writable
        },
        p1.registers@ == p2.registers@,
{
}

/// Two raw machine states carry the same values.
pub open spec fn spec_post_state_eq(a: VmPostState, b: VmPostState) -> bool {
    &&& a.result == b.result
    &&& a.cu_remaining == b.cu_remaining
    &&& a.frame_count == b.frame_count
    &&& a.heap@ == b.heap@
    &&& a.stack@ == b.stack@
    &&& a.rodata@ == b.rodata@
    &&& spec_regions_eq(a.input_regions@, b.input_regions@)
    &&& a.pc == b.pc
}

/// Two effects records are byte-identical: every field and every buffer
/// carries the same values.
pub open spec fn spec_effects_eq(a: ExecutionEffects, b: ExecutionEffects) -> bool {
    &&& a.error == b.error
    &&& a.error_kind == b.error_kind
    &&& a.r0 == b.r0
    &&& a.cu_remaining == b.cu_remaining
    &&& a.frame_count == b.frame_count
    &&& a.heap@ == b.heap@
    &&& a.stack@ == b.stack@
    &&& a.rodata@ == b.rodata@
    &&& spec_regions_eq(a.input_regions@, b.input_regions@)
    &&& a.log@ == b.log@
    &&& a.pc == b.pc
}

/// Translating a direct-subroutine outcome is deterministic: identical raw
/// states and logs yield byte-identical effects records. There is no hidden
/// input — no clock, no randomness, no cross-call state.
pub proof fn lemma_syscall_translation_deterministic(
    e1: ExecutionEffects,
    e2: ExecutionEffects,
    p1: VmPostState,
    p2: VmPostState,
    logs: Seq<Seq<u8>>,
)
    requires
        spec_post_state_eq(p1, p2),
        spec_syscall_effects_of(e1, p1, logs),
        spec_syscall_effects_of(e2, p2, logs),
    ensures
        spec_effects_eq(e1, e2),
{
    assert(spec_regions_eq(e1.input_regions@, e2.input_regions@)) by {
        lemma_regions_eq_chain(
            e1.input_regions@,
            p1.input_regions@,
            p2.input_regions@,
            e2.input_regions@,
        );
    }
}

/// Translating a full-program outcome is deterministic in the same way.
pub proof fn lemma_program_translation_deterministic(
    e1: ExecutionEffects,
    e2: ExecutionEffects,
    p1: VmPostState,
    p2: VmPostState,
    text: Seq<u8>,
)
    requires
        spec_post_state_eq(p1, p2),
        spec_program_effects_of(e1, p1, text),
        spec_program_effects_of(e2, p2, text),
    ensures
        spec_effects_eq(e1, e2),
{
    assert(e1.log@ =~= e2.log@);
    if p1.result is Ok {
        lemma_regions_eq_chain(
            e1.input_regions@,
            p1.input_regions@,
            p2.input_regions@,
            e2.input_regions@,
        );
    } else {
        let f = p1.result->Err_0;
        let (fault, _) = crate::translate::spec_reclassify(f, p1.pc, text);
        if fault != crate::errors::VmFault::ExceededMaxInstructions {
            lemma_regions_eq_chain(
                e1.input_regions@,
                p1.input_regions@,
                p2.input_regions@,
                e2.input_regions@,
            );
        } else {
            assert(e1.heap@ =~= e2.heap@);
            assert(e1.stack@ =~= e2.stack@);
            assert(e1.rodata@ =~= e2.rodata@);
        }
    }
}

/// Pointwise region equality runs through a shared middle pair.
proof fn lemma_regions_eq_chain(
    a: Seq<InputRegionState>,
    b: Seq<InputRegionState>,
    c: Seq<InputRegionState>,
    d: Seq<InputRegionState>,
)
    requires
        spec_regions_eq(a, b),
        spec_regions_eq(b, c),
        spec_regions_eq(d, c),
    ensures
        spec_regions_eq(a, d),
{
}

/// Splicing nested-call effects is deterministic: from equal account sets,
/// references and effect entries, the spliced sets are pointwise equal.
pub proof fn lemma_cpi_splice_deterministic(
    before: Seq<Account>,
    after1: Seq<Account>,
    after2: Seq<Account>,
    referenced: Seq<usize>,
    updates: Seq<crate::cpi::AccountUpdate>,
)
    requires
        after1.len() == before.len(),
        after2.len() == before.len(),
        forall|j: int| 0 <= j < before.len() ==> crate::cpi::spec_account_outcome(
            before[j],
            #[trigger] after1[j],
            referenced,
            updates,
            j,
        ),
        forall|j: int| 0 <= j < before.len() ==> crate::cpi::spec_account_outcome(
            before[j],
            #[trigger] after2[j],
            referenced,
            updates,
            j,
        ),
    ensures
        forall|j: int| 0 <= j < before.len() ==> spec_account_eq(
            #[trigger] after1[j],
            after2[j],
        ),
{
    assert forall|j: int| 0 <= j < before.len() implies spec_account_eq(
        #[trigger] after1[j],
        after2[j],
    ) by {
        assert(crate::cpi::spec_account_outcome(before[j], after1[j], referenced, updates, j));
        assert(crate::cpi::spec_account_outcome(before[j], after2[j], referenced, updates, j));
        if crate::cpi::spec_is_referenced(referenced, j) && crate::cpi::spec_has_match(
            updates,
            before[j].address@,
        ) {
            let k1 = choose|k1: int|
                #[trigger] crate::cpi::spec_is_first_match(updates, before[j].address@, k1)
                    && crate::cpi::spec_splice_fields(before[j].state, after1[j].state,
                updates[k1]);
            let k2 = choose|k2: int|
                #[trigger] crate::cpi::spec_is_first_match(updates, before[j].address@, k2)
                    && crate::cpi::spec_splice_fields(before[j].state, after2[j].state,
                updates[k2]);
            assert(k1 == k2);
        }
    }
}

} // verus!

