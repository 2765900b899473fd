use vm_harness::layout::{
    build_memory_image, copy_memory_prefix, stack_frame_gap, InputFragment, LayoutError,
    VmImageSpec, HEAP_BASE, HEAP_CEILING, INPUT_BASE, PROGRAM_BASE, STACK_BASE,
    STACK_FRAME_SIZE, STACK_SIZE,
};

fn image_spec(heap_max: u64) -> VmImageSpec {
    VmImageSpec {
        r0: 0,
        r1: 0,
        r2: 0,
        r3: 0,
        r4: 0,
        r5: 0,
        r6: 0,
        r7: 0,
        r8: 0,
        r9: 0,
        r10: 0,
        r11: 0,
        heap_max,
        rodata: vec![1, 2, 3],
        entry_pc: 0,
        call_whitelist: Vec::new(),
        input_fragments: Vec::new(),
    }
}

#[test]
fn heap_at_ceiling_is_accepted() {
    let img = build_memory_image(&image_spec(HEAP_CEILING), false).unwrap();
    assert_eq!(img.heap.bytes.len() as u64, HEAP_CEILING);
    assert!(img.heap.bytes.iter().all(|b| *b == 0));
}

#[test]
fn heap_one_past_ceiling_is_rejected() {
    let r = build_memory_image(&image_spec(HEAP_CEILING + 1), false);
    assert_eq!(r.err(), Some(LayoutError::HeapLimitExceeded));
}

#[test]
fn region_bases_and_sizes() {
    let img = build_memory_image(&image_spec(16), false).unwrap();
    assert_eq!(img.program.base, PROGRAM_BASE);
    assert_eq!(img.program.bytes, vec![1, 2, 3]);
    assert!(!img.program.writable);
    assert_eq!(img.stack.base, STACK_BASE);
    assert_eq!(img.stack.bytes.len(), STACK_SIZE);
    assert!(img.stack.writable);
    assert_eq!(img.heap.base, HEAP_BASE);
    assert_eq!(img.heap.bytes.len(), 16);
    assert!(img.heap.writable);
    assert!(img.inputs.is_empty());
}

#[test]
fn stack_gap_follows_direct_mapping_feature() {
    assert_eq!(stack_frame_gap(true), 0);
    assert_eq!(stack_frame_gap(false), STACK_FRAME_SIZE);
    let gapped = build_memory_image(&image_spec(0), false).unwrap();
    assert_eq!(gapped.stack.frame_gap, STACK_FRAME_SIZE);
    let flat = build_memory_image(&image_spec(0), true).unwrap();
    assert_eq!(flat.stack.frame_gap, 0);
}

#[test]
fn unaligned_input_fragments_concatenate_in_order() {
    let mut spec = image_spec(0);
    spec.input_fragments = vec![
        InputFragment { bytes: vec![10, 11, 12], writable: false },
        InputFragment { bytes: vec![20, 21, 22, 23, 24], writable: true },
    ];
    let img = build_memory_image(&spec, false).unwrap();
    assert_eq!(img.inputs.len(), 2);
    assert_eq!(img.inputs[0].base, INPUT_BASE);
    assert_eq!(img.inputs[0].bytes, vec![10, 11, 12]);
    assert!(!img.inputs[0].writable);
    // the second fragment starts 3 bytes in: boundaries need not be aligned
    assert_eq!(img.inputs[1].base, INPUT_BASE + 3);
    assert_eq!(img.inputs[1].bytes, vec![20, 21, 22, 23, 24]);
    assert!(img.inputs[1].writable);
}

#[test]
fn empty_heap_is_zero_length() {
    let img = build_memory_image(&image_spec(0), false).unwrap();
    assert_eq!(img.heap.bytes.len(), 0);
}

#[test]
fn prefix_copy_shorter_than_buffer() {
    let mut dst = vec![5, 5, 5, 5];
    copy_memory_prefix(&mut dst, &vec![1, 2]);
    assert_eq!(dst, vec![1, 2, 5, 5]);
}

#[test]
fn prefix_copy_longer_than_buffer() {
    let mut dst = vec![5, 5];
    copy_memory_prefix(&mut dst, &vec![1, 2, 3, 4]);
    assert_eq!(dst, vec![1, 2]);
}

#[test]
fn prefix_copy_into_empty_buffer() {
    let mut dst: Vec<u8> = Vec::new();
    copy_memory_prefix(&mut dst, &vec![1, 2, 3]);
    assert!(dst.is_empty());
}
