//! Memory layout planning: the fixed-topology virtual address space that a
//! run executes in, assembled from the request's heterogeneous fragments.
//!
//! The address space has four segment classes at fixed architectural bases:
//! program (read-only code and constants), stack, heap, and input. Input
//! fragments are concatenated in request order into the input segment and are
//! deliberately allowed to end at unaligned addresses, which widens the
//! boundary cases a run can exercise.

use vstd::pervasive::VecAdditionalExecFns;
use vstd::prelude::*;

verus! {

/// Fixed virtual base address of the program (rodata) segment.
pub const PROGRAM_BASE: u64 = 0x1_0000_0000;

/// Fixed virtual base address of the stack segment.
pub const STACK_BASE: u64 = 0x2_0000_0000;

/// Fixed virtual base address of the heap segment.
pub const HEAP_BASE: u64 = 0x3_0000_0000;

/// Fixed virtual base address of the input segment.
pub const INPUT_BASE: u64 = 0x4_0000_0000;

/// Virtual address span reserved for each of the program, stack and heap
/// segment classes: the distance between two consecutive segment bases.
pub const SEGMENT_SPAN: u64 = 0x1_0000_0000;

/// Architectural ceiling on the heap size a request may ask for. Requests
/// above it are rejected before any execution is attempted.
pub const HEAP_CEILING: u64 = 262144;

/// Fixed byte size of the stack backing buffer: one frame of
/// [`STACK_FRAME_SIZE`] bytes for each level of the maximum call depth.
pub const STACK_SIZE: usize = 262144;

/// Byte size of one logical stack call frame.
pub const STACK_FRAME_SIZE: u64 = 4096;

/// One input fragment of a request: a byte range mapped into the input
/// segment with its own writability.
pub struct InputFragment {
    pub bytes: Vec<u8>,
    pub writable: bool,
}

/// The initial VM configuration of a request: register seeds, the heap size
/// limit, the program's read-only bytes, the entry program counter, the
/// call-whitelist bitmap, and the input fragments.
pub struct VmImageSpec {
    pub r0: u64,
    pub r1: u64,
    pub r2: u64,
    pub r3: u64,
    pub r4: u64,
    pub r5: u64,
    pub r6: u64,
    pub r7: u64,
    pub r8: u64,
    pub r9: u64,
    pub r10: u64,
    pub r11: u64,
    pub heap_max: u64,
    pub rodata: Vec<u8>,
    pub entry_pc: u64,
    pub call_whitelist: Vec<u8>,
    pub input_fragments: Vec<InputFragment>,
}

/// A contiguous virtual range backed by a byte buffer. `frame_gap` is nonzero
/// only for the stack region: it is the unaddressable gap inserted between
/// logical call frames, affecting virtual addressing but not the buffer.
pub struct MemoryRegion {
    pub base: u64,
    pub bytes: Vec<u8>,
    pub writable: bool,
    pub frame_gap: u64,
}

/// The planned address space of one run, in ascending base order: program,
/// stack, heap, then the input fragments.
pub struct MemoryImage {
    pub program: MemoryRegion,
    pub stack: MemoryRegion,
    pub heap: MemoryRegion,
    pub inputs: Vec<MemoryRegion>,
}

/// Why layout construction was rejected. Both cases mean "no execution
/// performed": they are construction rejections, not runtime traps.
#[derive(Debug, PartialEq, Eq, Structural, Clone, Copy)]
pub enum LayoutError {
    /// The requested heap size exceeds [`HEAP_CEILING`].
    HeapLimitExceeded,
    /// A region would overlap another or run past the end of the address
    /// space.
    AddressSpaceOverflow,
}

/// Byte offset of fragment `i` within the input segment: the total length of
/// the fragments before it.
pub open spec fn frag_offset(frags: Seq<InputFragment>, i: int) -> int
    decreases i,
{
    if i <= 0 {
        0
    } else {
        frag_offset(frags, i - 1) + frags[i - 1].bytes@.len()
    }
}

/// Total byte length of the input segment.
pub open spec fn total_input_len(frags: Seq<InputFragment>) -> int {
    frag_offset(frags, frags.len() as int)
}

/// The gap inserted between logical stack frames: zero when direct
/// account-data mapping is active, one frame otherwise.
pub fn stack_frame_gap(direct_mapping_active: bool) -> (gap: u64)
    ensures
        gap == spec_stack_frame_gap(direct_mapping_active),
{
    if direct_mapping_active {
        0
    } else {
        STACK_FRAME_SIZE
    }
}

/// Specification twin of [`stack_frame_gap`].
pub open spec fn spec_stack_frame_gap(direct_mapping_active: bool) -> u64 {
    if direct_mapping_active {
        0
    } else {
        STACK_FRAME_SIZE
    }
}

/// A request is accepted exactly when its heap fits under the architectural
/// ceiling, its program bytes fit in the program segment's span, and its
/// input fragments fit in the address space above [`INPUT_BASE`].
pub open spec fn spec_layout_accepted(spec: &VmImageSpec) -> bool {
    &&& spec.heap_max <= HEAP_CEILING
    &&& spec.rodata@.len() <= SEGMENT_SPAN
    &&& INPUT_BASE + total_input_len(spec.input_fragments@) <= u64::MAX
}

/// Structure of a successfully planned image, relative to its request and
/// the stack gap policy.
pub open spec fn spec_image_of(img: &MemoryImage, spec: &VmImageSpec, direct_mapping_active: bool) -> bool {
    &&& img.program.base == PROGRAM_BASE
    &&& img.program.bytes@ == spec.rodata@
    &&& !img.program.writable
    &&& img.program.frame_gap == 0
    &&& img.stack.base == STACK_BASE
    &&& img.stack.bytes@ == Seq::<u8>::new(STACK_SIZE as nat, |i: int| 0u8)
    &&& img.stack.writable
    &&& img.stack.frame_gap == spec_stack_frame_gap(direct_mapping_active)
    &&& img.heap.base == HEAP_BASE
    &&& img.heap.bytes@ == Seq::<u8>::new(spec.heap_max as nat, |i: int| 0u8)
    &&& img.heap.writable
    &&& img.heap.frame_gap == 0
    &&& img.inputs@.len() == spec.input_fragments@.len()
    &&& forall|i: int| 0 <= i < img.inputs@.len() ==> {
        &&& (#[trigger] img.inputs@[i]).base == INPUT_BASE + frag_offset(spec.input_fragments@, i)
        &&& img.inputs@[i].bytes@ == spec.input_fragments@[i].bytes@
        &&& img.inputs@[i].writable == spec.input_fragments@[i].writable
        &&& img.inputs@[i].frame_gap == 0
    }
}

/// Allocate a zero-filled buffer of `n` bytes.
fn zeroed(n: usize) -> (v: Vec<u8>)
    ensures
        v@ == Seq::<u8>::new(n as nat, |i: int| 0u8),
{
    let mut v: Vec<u8> = Vec::new();
    while v.len() < n
        invariant
            v@.len() <= n,
            forall|i: int| 0 <= i < v@.len() ==> v@[i] == 0u8,
        decreases n - v@.len(),
    {
        v.push(0u8);
    }
    proof {
        assert(v@ =~= Seq::<u8>::new(n as nat, |i: int| 0u8));
    }
    v
}

/// Plan the address space of a run from a request.
///
/// Produces the program, stack, heap and input regions at their fixed bases,
/// or rejects the request: an over-limit heap is
/// [`LayoutError::HeapLimitExceeded`], and program bytes or input fragments
/// that would run into another region's span are
/// [`LayoutError::AddressSpaceOverflow`]. Rejection means no execution is
/// performed.
pub fn build_memory_image(spec: &VmImageSpec, direct_mapping_active: bool) -> (r: Result<
    MemoryImage,
    LayoutError,
>)
    ensures
        r is Ok <==> spec_layout_accepted(spec),
        r matches Ok(img) ==> spec_image_of(&img, spec, direct_mapping_active),
        r matches Err(e) ==> (e == LayoutError::HeapLimitExceeded <==> spec.heap_max
            > HEAP_CEILING),
{
    if spec.heap_max > HEAP_CEILING {
        return Err(LayoutError::HeapLimitExceeded);
    }
    if spec.rodata.len() as u64 > SEGMENT_SPAN {
        return Err(LayoutError::AddressSpaceOverflow);
    }
    let program = MemoryRegion {
        base: PROGRAM_BASE,
        bytes: clone_bytes(&spec.rodata),
        writable: false,
        frame_gap: 0,
    };
    let stack = MemoryRegion {
        base: STACK_BASE,
        bytes: zeroed(STACK_SIZE),
        writable: true,
        frame_gap: stack_frame_gap(direct_mapping_active),
    };
    let heap = MemoryRegion {
        base: HEAP_BASE,
        bytes: zeroed(spec.heap_max as usize),
        writable: true,
        frame_gap: 0,
    };
    let mut inputs: Vec<MemoryRegion> = Vec::new();
    let mut offset: u64 = INPUT_BASE;
    let mut idx: usize = 0;
    while idx < spec.input_fragments.len()
        invariant
            spec.heap_max <= HEAP_CEILING,
            idx <= spec.input_fragments@.len(),
            offset == INPUT_BASE + frag_offset(spec.input_fragments@, idx as int),
            inputs@.len() == idx,
            forall|i: int| 0 <= i < idx ==> {
                &&& (#[trigger] inputs@[i]).base == INPUT_BASE + frag_offset(
                    spec.input_fragments@,
                    i,
                )
                &&& inputs@[i].bytes@ == spec.input_fragments@[i].bytes@
                &&& inputs@[i].writable == spec.input_fragments@[i].writable
                &&& inputs@[i].frame_gap == 0
            },
        decreases spec.input_fragments@.len() - idx,
    {
        let frag = &spec.input_fragments[idx];
        let len = frag.bytes.len() as u64;
        let next = match offset.checked_add(len) {
            Some(n) => n,
            None => {
                proof {
                    lemma_frag_offset_mono(spec.input_fragments@, idx as int + 1,
                        spec.input_fragments@.len() as int);
                }
                return Err(LayoutError::AddressSpaceOverflow);
            },
        };
        inputs.push(
            MemoryRegion {
                base: offset,
                bytes: clone_bytes(&frag.bytes),
                writable: frag.writable,
                frame_gap: 0,
            },
        );
        offset = next;
        idx = idx + 1;
    }
    Ok(MemoryImage { program, stack, heap, inputs })
}

/// Copy of a byte buffer.
pub fn clone_bytes(src: &Vec<u8>) -> (r: Vec<u8>)
    ensures
        r@ == src@,
{
    let mut r: Vec<u8> = Vec::new();
    let mut i: usize = 0;
    while i < src.len()
        invariant
            i <= src@.len(),
            r@ == src@.subrange(0, i as int),
        decreases src@.len() - i,
    {
        r.push(src[i]);
        proof {
            assert(r@ =~= src@.subrange(0, i as int + 1));
        }
        i = i + 1;
    }
    proof {
        assert(r@ =~= src@);
    }
    r
}

/// Overwrite the front of a buffer with a prefix, copying as many bytes as
/// both hold; the buffer keeps its length, and bytes past the prefix keep
/// their values.
pub fn copy_memory_prefix(dst: &mut Vec<u8>, prefix: &Vec<u8>)
    ensures
        final(dst)@.len() == old(dst)@.len(),
        forall|i: int| 0 <= i < old(dst)@.len() ==> final(dst)@[i] == if i < prefix@.len() {
            prefix@[i]
        } else {
            old(dst)@[i]
        },
{
    let n = if prefix.len() < dst.len() {
        prefix.len()
    } else {
        dst.len()
    };
    let mut i: usize = 0;
    while i < n
        invariant
            n <= prefix@.len(),
            n <= dst@.len(),
            i <= n,
            dst@.len() == old(dst)@.len(),
            forall|k: int| 0 <= k < i ==> dst@[k] == prefix@[k],
            forall|k: int| i <= k < dst@.len() ==> dst@[k] == old(dst)@[k],
        decreases n - i,
    {
        dst.set(i, prefix[i]);
        i = i + 1;
    }
}

/// The regions of an accepted image do not overlap: each of the program,
/// stack and heap regions ends within its segment's span — the stack even
/// with one gap per frame added to its addressing — and the input fragments
/// follow one another without meeting, exhausting no more than the space
/// above their base. Their union is the run's addressable space.
pub proof fn lemma_image_regions_disjoint(
    img: &MemoryImage,
    spec: &VmImageSpec,
    direct_mapping_active: bool,
)
    requires
        spec_layout_accepted(spec),
        spec_image_of(img, spec, direct_mapping_active),
    ensures
        img.program.base + img.program.bytes@.len() <= img.stack.base,
        img.stack.base + img.stack.bytes@.len() + ((img.stack.bytes@.len() as int) / (
        STACK_FRAME_SIZE as int)) * img.stack.frame_gap <= img.heap.base,
        img.heap.base + img.heap.bytes@.len() <= INPUT_BASE,
        img.inputs@.len() > 0 ==> img.inputs@[0].base == INPUT_BASE,
        forall|i: int, j: int| 0 <= i < j < img.inputs@.len() ==> (#[trigger] img.inputs@[i]).base
            + img.inputs@[i].bytes@.len() <= (#[trigger] img.inputs@[j]).base,
        forall|i: int| 0 <= i < img.inputs@.len() ==> (#[trigger] img.inputs@[i]).base
            + img.inputs@[i].bytes@.len() <= u64::MAX,
{
    assert forall|i: int, j: int| 0 <= i < j < img.inputs@.len() implies (
    #[trigger] img.inputs@[i]).base + img.inputs@[i].bytes@.len() <= (
    #[trigger] img.inputs@[j]).base by {
        lemma_frag_offset_mono(spec.input_fragments@, i + 1, j);
    }
    assert forall|i: int| 0 <= i < img.inputs@.len() implies (#[trigger] img.inputs@[i]).base
        + img.inputs@[i].bytes@.len() <= u64::MAX by {
        lemma_frag_offset_mono(spec.input_fragments@, i + 1, spec.input_fragments@.len() as int);
    }
}

/// Fragment offsets grow with the index: a later fragment starts at or after
/// the end of an earlier one.
pub proof fn lemma_frag_offset_mono(frags: Seq<InputFragment>, i: int, j: int)
    requires
        0 <= i <= j,
    ensures
        frag_offset(frags, i) <= frag_offset(frags, j),
    decreases j - i,
{
    if i < j {
        lemma_frag_offset_mono(frags, i, j - 1);
    }
}

} // verus!
