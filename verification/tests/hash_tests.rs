use vm_harness::resolver::{
    build_call_table, pc_hash, pc_hash_inverse, CallTableEntry, CallTargetTable, ENTRYPOINT_KEY,
};

#[test]
fn pc_hash_known_values() {
    assert_eq!(pc_hash(0), 0x63852afc);
    assert_eq!(pc_hash(1), 0x53075d44);
    assert_eq!(pc_hash(5), 0x67c25ef7);
}

#[test]
fn pc_hash_inverse_known_value() {
    assert_eq!(pc_hash_inverse(0x67c25ef7), 5);
}

#[test]
fn pc_hash_round_trips() {
    for pc in [0u64, 1, 2, 5, 63, 64, 255, 4096, 12_345_678, 0xffff_ffff] {
        assert_eq!(pc_hash_inverse(pc_hash(pc)) as u64, pc);
    }
}

#[test]
fn entrypoint_key_value() {
    assert_eq!(ENTRYPOINT_KEY, 0x71e3_cf81);
}

#[test]
fn call_table_resolves_set_bit() {
    // bit 5 of the first byte set: counter 5 is whitelisted
    let table = build_call_table(3, &vec![0b0010_0000]);
    assert_eq!(table.lookup(pc_hash(5)), Some(5));
    assert_eq!(table.lookup(pc_hash(4)), None);
    assert_eq!(table.lookup(ENTRYPOINT_KEY), Some(3));
}

#[test]
fn call_table_resolves_every_bit_of_a_full_byte() {
    let table = build_call_table(0, &vec![0xff]);
    for pc in 0u64..8 {
        assert_eq!(table.lookup(pc_hash(pc)), Some(pc));
    }
    assert_eq!(table.lookup(pc_hash(8)), None);
}

#[test]
fn call_table_second_byte_bits() {
    // bit 1 of the second byte: counter 9
    let table = build_call_table(0, &vec![0x00, 0b0000_0010]);
    assert_eq!(table.lookup(pc_hash(9)), Some(9));
    assert_eq!(table.lookup(pc_hash(1)), None);
}

#[test]
fn call_table_empty_whitelist_keeps_entrypoint() {
    let table = build_call_table(77, &Vec::new());
    assert_eq!(table.lookup(ENTRYPOINT_KEY), Some(77));
    assert_eq!(table.lookup(pc_hash(0)), None);
}

#[test]
fn pc_hash_matches_the_engine_loader() {
    // differential check against the engine's own symbol hash, over the
    // 8-byte little-endian encoding the loader uses for counters
    for pc in [0u64, 1, 5, 77, 4095, 65536, 0xffff_ffff, u64::MAX] {
        assert_eq!(
            pc_hash(pc),
            solana_rbpf::ebpf::hash_symbol_name(&u64::to_le_bytes(pc)),
            "counter {pc}"
        );
    }
    assert_eq!(ENTRYPOINT_KEY, solana_rbpf::ebpf::hash_symbol_name(b"entrypoint"));
}

#[test]
fn lookup_last_registration_wins() {
    let table = CallTargetTable {
        entries: vec![
            CallTableEntry { key: 7, target: 10 },
            CallTableEntry { key: 7, target: 20 },
        ],
    };
    assert_eq!(table.lookup(7), Some(20));
    assert_eq!(table.lookup(8), None);
}
