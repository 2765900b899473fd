//! Call-target resolution: the hash-keyed jump table that mirrors the
//! reference implementation's bit-vector of valid call destinations.
//!
//! A call instruction carries a 32-bit hash of its target program counter's
//! 8-byte little-endian encoding. The reference loader keys its membership
//! test by that hash, so this module reproduces the hash bit-for-bit, keeps
//! an exact inverse of it over the whole 32-bit counter domain, and builds
//! the lookup table from the request's call-whitelist bitmap.

use vstd::prelude::*;

verus! {

/// First block constant of the counter hash.
pub const MIX_A: u32 = 0xcc9e_2d51;

/// Second block constant of the counter hash.
pub const MIX_B: u32 = 0x1b87_3593;

/// Additive round constant of the counter hash.
pub const ROUND_ADD: u32 = 0xe654_6b64;

/// First finalizer constant of the counter hash.
pub const FIN_A: u32 = 0x85eb_ca6b;

/// Second finalizer constant of the counter hash.
pub const FIN_B: u32 = 0xc2b2_ae35;

/// Multiplicative inverse of [`MIX_A`] modulo 2^32.
pub const INV_MIX_A: u32 = 0xdee1_3bb1;

/// Multiplicative inverse of [`MIX_B`] modulo 2^32.
pub const INV_MIX_B: u32 = 0x56ed_309b;

/// Multiplicative inverse of 5 modulo 2^32.
pub const INV_FIVE: u32 = 0xcccc_cccd;

/// Multiplicative inverse of [`FIN_A`] modulo 2^32.
pub const INV_FIN_A: u32 = 0xa5cb_9243;

/// Multiplicative inverse of [`FIN_B`] modulo 2^32.
pub const INV_FIN_B: u32 = 0x7ed1_b41d;

/// Hash of the designated entry-point symbol name under the same scheme; the
/// table always carries this key, mapped to the entry program counter.
pub const ENTRYPOINT_KEY: u32 = 0x71e3_cf81;

/// Product of two 32-bit words, truncated to 32 bits.
pub open spec fn wmul32(x: u32, y: u32) -> u32 {
    ((x * y) % 0x1_0000_0000) as u32
}

/// Sum of two 32-bit words, truncated to 32 bits.
pub open spec fn wadd32(x: u32, y: u32) -> u32 {
    ((x + y) % 0x1_0000_0000) as u32
}

/// Difference of two 32-bit words, wrapped to 32 bits.
pub open spec fn wsub32(x: u32, y: u32) -> u32 {
    ((x - y + 0x1_0000_0000) % 0x1_0000_0000) as u32
}

/// Left rotation by 13 bits.
pub open spec fn rotl13(x: u32) -> u32 {
    (x << 13u32) | (x >> 19u32)
}

/// Right rotation by 13 bits.
pub open spec fn rotr13(x: u32) -> u32 {
    (x >> 13u32) | (x << 19u32)
}

/// Left rotation by 15 bits.
pub open spec fn rotl15(x: u32) -> u32 {
    (x << 15u32) | (x >> 17u32)
}

/// Right rotation by 15 bits.
pub open spec fn rotr15(x: u32) -> u32 {
    (x >> 15u32) | (x << 17u32)
}

/// Per-block mixing of one 32-bit input word.
pub open spec fn block_mix(k: u32) -> u32 {
    wmul32(rotl15(wmul32(k, MIX_A)), MIX_B)
}

/// One round of the hash state: absorb a mixed block, rotate, and stir.
pub open spec fn round_step(h: u32, k: u32) -> u32 {
    wadd32(wmul32(rotl13(h ^ block_mix(k)), 5), ROUND_ADD)
}

/// Finalizer: three xor-shifts interleaved with two multiplications.
pub open spec fn fin_mix(h: u32) -> u32 {
    let a = wmul32(h ^ (h >> 16u32), FIN_A);
    let b = wmul32(a ^ (a >> 13u32), FIN_B);
    b ^ (b >> 16u32)
}

/// The call-identifier hash: the 32-bit digest of a program counter's 8-byte
/// little-endian encoding, absorbed as two 32-bit words.
#[verifier::opaque]
pub open spec fn spec_pc_hash(pc: u64) -> u32 {
    let low = (pc & 0xffff_ffff) as u32;
    let high = (pc >> 32u64) as u32;
    fin_mix(round_step(round_step(0, low), high) ^ 8)
}

/// Inverse of one round, recovering the xor of the previous state and the
/// mixed block.
pub open spec fn unround_step(h: u32) -> u32 {
    rotr13(wmul32(wsub32(h, ROUND_ADD), INV_FIVE))
}

/// Inverse of the per-block mixing.
pub open spec fn unblock_mix(v: u32) -> u32 {
    wmul32(rotr15(wmul32(v, INV_MIX_B)), INV_MIX_A)
}

/// Inverse of the finalizer.
pub open spec fn unfin_mix(h: u32) -> u32 {
    let a = wmul32(h ^ (h >> 16u32), INV_FIN_B);
    let b = wmul32(a ^ (a >> 13u32) ^ (a >> 26u32), INV_FIN_A);
    b ^ (b >> 16u32)
}

/// The exact inverse of [`spec_pc_hash`] over counters that fit in 32 bits.
#[verifier::opaque]
pub open spec fn spec_pc_hash_inverse(h: u32) -> u32 {
    unblock_mix(unround_step(unround_step(unfin_mix(h) ^ 8)))
}

/// Multiplying by [`MIX_A`] and then by its inverse is the identity.
#[verifier::rlimit(100)]
proof fn lemma_cancel_mix_a(x: u32)
    by (bit_vector)
    ensures
        wmul32(wmul32(x, MIX_A), INV_MIX_A) == x,
{
}

/// Multiplying by [`MIX_B`] and then by its inverse is the identity.
#[verifier::rlimit(100)]
proof fn lemma_cancel_mix_b(x: u32)
    by (bit_vector)
    ensures
        wmul32(wmul32(x, MIX_B), INV_MIX_B) == x,
{
}

/// Rotating left and then right by the same amount is the identity.
proof fn lemma_cancel_rot15(x: u32)
    by (bit_vector)
    ensures
        rotr15(rotl15(x)) == x,
{
}

/// The block inverse undoes the block mix.
proof fn lemma_unblock_mix(k: u32)
    ensures
        unblock_mix(block_mix(k)) == k,
{
    lemma_cancel_mix_b(rotl15(wmul32(k, MIX_A)));
    lemma_cancel_rot15(wmul32(k, MIX_A));
    lemma_cancel_mix_a(k);
}

/// The round inverse recovers the absorbed state.
proof fn lemma_unround_step(h: u32, k: u32)
    by (bit_vector)
    ensures
        unround_step(round_step(h, k)) == h ^ block_mix(k),
{
}

/// Multiplying by [`FIN_A`] and then by its inverse is the identity.
#[verifier::rlimit(100)]
proof fn lemma_cancel_fin_a(x: u32)
    by (bit_vector)
    ensures
        wmul32(wmul32(x, FIN_A), INV_FIN_A) == x,
{
}

/// Multiplying by [`FIN_B`] and then by its inverse is the identity.
#[verifier::rlimit(100)]
proof fn lemma_cancel_fin_b(x: u32)
    by (bit_vector)
    ensures
        wmul32(wmul32(x, FIN_B), INV_FIN_B) == x,
{
}

/// A 16-bit xor-shift is its own inverse, and the 13-bit xor-shift is undone
/// by the double xor-shift.
proof fn lemma_cancel_xorshift(x: u32)
    by (bit_vector)
    ensures
        (x ^ (x >> 16u32)) ^ ((x ^ (x >> 16u32)) >> 16u32) == x,
        (x ^ (x >> 13u32)) ^ ((x ^ (x >> 13u32)) >> 13u32) ^ ((x ^ (x >> 13u32)) >> 26u32) == x,
{
}

/// The finalizer inverse undoes the finalizer.
proof fn lemma_unfin_mix(h: u32)
    ensures
        unfin_mix(fin_mix(h)) == h,
{
    let s1 = h ^ (h >> 16u32);
    let m1 = wmul32(s1, FIN_A);
    let s2 = m1 ^ (m1 >> 13u32);
    let m2 = wmul32(s2, FIN_B);
    let s3 = m2 ^ (m2 >> 16u32);
    assert(fin_mix(h) == s3);
    lemma_cancel_xorshift(m2);
    assert(s3 ^ (s3 >> 16u32) == m2);
    lemma_cancel_fin_b(s2);
    lemma_cancel_xorshift(m1);
    lemma_cancel_fin_a(s1);
    lemma_cancel_xorshift(h);
    assert(unfin_mix(s3) == h);
}

/// Xor facts the composition below steps through.
proof fn lemma_xor_facts(a: u32)
    by (bit_vector)
    ensures
        (a ^ 8) ^ 8 == a,
        a ^ 0 == a,
        0 ^ a == a,
        block_mix(0) == 0,
{
}

/// The counter hash round-trips: over every program counter that fits in 32
/// bits, the inverse recovers the counter exactly. Correctness of the
/// call-miss reclassification rests on this law.
pub proof fn lemma_pc_hash_round_trip(pc: u64)
    requires
        pc <= u32::MAX,
    ensures
        spec_pc_hash_inverse(spec_pc_hash(pc)) == pc,
{
    reveal(spec_pc_hash);
    reveal(spec_pc_hash_inverse);
    assert(((pc & 0xffff_ffff) as u32) == pc && ((pc >> 32u64) as u32) == 0) by (bit_vector)
        requires
            pc <= u32::MAX,
    ;
    let low = (pc & 0xffff_ffff) as u32;
    let high = (pc >> 32u64) as u32;
    let h1 = round_step(0, low);
    let h2 = round_step(h1, high);
    let hf = fin_mix(h2 ^ 8);
    lemma_unfin_mix(h2 ^ 8);
    lemma_xor_facts(h2);
    lemma_unround_step(h1, high);
    lemma_xor_facts(h1);
    lemma_unround_step(0, low);
    lemma_xor_facts(block_mix(low));
    lemma_unblock_mix(low);
}

/// The counter hash is injective over counters that fit in 32 bits.
pub proof fn lemma_pc_hash_injective(a: u64, b: u64)
    requires
        a <= u32::MAX,
        b <= u32::MAX,
        spec_pc_hash(a) == spec_pc_hash(b),
    ensures
        a == b,
{
    lemma_pc_hash_round_trip(a);
    lemma_pc_hash_round_trip(b);
}

/// Product of two 32-bit words, truncated to 32 bits.
fn mul32(x: u32, y: u32) -> (r: u32)
    ensures
        r == wmul32(x, y),
{
    let r = x.wrapping_mul(y);
    proof {
        assert(r == wmul32(x, y)) by (bit_vector)
            requires
                r == ((x * y) % 0x1_0000_0000) as u32,
        ;
    }
    r
}

/// Sum of two 32-bit words, truncated to 32 bits.
fn add32(x: u32, y: u32) -> (r: u32)
    ensures
        r == wadd32(x, y),
{
    let r = x.wrapping_add(y);
    proof {
        assert(r == wadd32(x, y)) by (bit_vector)
            requires
                r == if x + y > u32::MAX {
                    (x + y - 0x1_0000_0000) as u32
                } else {
                    (x + y) as u32
                },
        ;
    }
    r
}

/// Difference of two 32-bit words, wrapped to 32 bits.
fn sub32(x: u32, y: u32) -> (r: u32)
    ensures
        r == wsub32(x, y),
{
    let r = x.wrapping_sub(y);
    proof {
        assert(r == wsub32(x, y)) by (bit_vector)
            requires
                r == if x - y < 0 {
                    (x - y + 0x1_0000_0000) as u32
                } else {
                    (x - y) as u32
                },
        ;
    }
    r
}

/// The call-identifier hash of a program counter; see [`spec_pc_hash`].
pub fn pc_hash(pc: u64) -> (r: u32)
    ensures
        r == spec_pc_hash(pc),
{
    proof {
        reveal(spec_pc_hash);
        assert(pc & 0xffff_ffff <= 0xffff_ffff && pc >> 32u64 <= 0xffff_ffff) by (bit_vector);
    }
    let low: u32 = (pc & 0xffff_ffff) as u32;
    let high: u32 = (pc >> 32u64) as u32;
    let mut h: u32 = round_exec(0, low);
    h = round_exec(h, high);
    h = h ^ 8;
    let a = mul32(h ^ (h >> 16u32), FIN_A);
    let b = mul32(a ^ (a >> 13u32), FIN_B);
    b ^ (b >> 16u32)
}

/// One absorption round; see [`round_step`].
fn round_exec(h: u32, k: u32) -> (r: u32)
    ensures
        r == round_step(h, k),
{
    let t = mul32(k, MIX_A);
    let m = mul32((t << 15u32) | (t >> 17u32), MIX_B);
    let x = h ^ m;
    add32(mul32((x << 13u32) | (x >> 19u32), 5), ROUND_ADD)
}

/// The exact inverse of the call-identifier hash; see
/// [`spec_pc_hash_inverse`].
pub fn pc_hash_inverse(h: u32) -> (r: u32)
    ensures
        r == spec_pc_hash_inverse(h),
{
    proof {
        reveal(spec_pc_hash_inverse);
    }
    let a = mul32(h ^ (h >> 16u32), INV_FIN_B);
    let b = mul32(a ^ (a >> 13u32) ^ (a >> 26u32), INV_FIN_A);
    let t = (b ^ (b >> 16u32)) ^ 8;
    let u = unround_exec(t);
    let v = unround_exec(u);
    mul32((mul32(v, INV_MIX_B) >> 15u32) | (mul32(v, INV_MIX_B) << 17u32), INV_MIX_A)
}

/// Inverse of one absorption round; see [`unround_step`].
fn unround_exec(h: u32) -> (r: u32)
    ensures
        r == unround_step(h),
{
    let s = mul32(sub32(h, ROUND_ADD), INV_FIVE);
    (s >> 13u32) | (s << 19u32)
}

/// One registration of the call-target table: a hashed call identifier and
/// the program counter it resolves to.
pub struct CallTableEntry {
    pub key: u32,
    pub target: u64,
}

/// The jump table of one full-program run: the entry point's registration
/// followed by one registration per set whitelist bit, in bit order. On a
/// key collision the last registration wins.
pub struct CallTargetTable {
    pub entries: Vec<CallTableEntry>,
}

/// Whether bit `pc` of the whitelist bitmap is set: bit `pc % 8` of byte
/// `pc / 8`, least-significant bit first.
pub open spec fn spec_bit_set(wl: Seq<u8>, pc: int) -> bool {
    &&& 0 <= pc < 8 * wl.len()
    &&& (wl[pc / 8] >> ((pc % 8) as u8)) & 1u8 == 1u8
}

/// Last-registration-wins lookup over a registration sequence.
pub open spec fn spec_lookup(entries: Seq<CallTableEntry>, key: u32) -> Option<u64>
    decreases entries.len(),
{
    if entries.len() == 0 {
        None::<u64>
    } else if entries.last().key == key {
        Some(entries.last().target)
    } else {
        spec_lookup(entries.drop_last(), key)
    }
}

/// The registration sequence after considering the first `n` whitelist bits:
/// the entry point first, then one registration per set bit.
pub open spec fn spec_table_entries(entry_pc: u64, wl: Seq<u8>, n: int) -> Seq<CallTableEntry>
    decreases n,
{
    if n <= 0 {
        seq![CallTableEntry { key: ENTRYPOINT_KEY, target: entry_pc }]
    } else if spec_bit_set(wl, n - 1) {
        spec_table_entries(entry_pc, wl, n - 1).push(
            CallTableEntry { key: spec_pc_hash((n - 1) as u64), target: (n - 1) as u64 },
        )
    } else {
        spec_table_entries(entry_pc, wl, n - 1)
    }
}

impl CallTargetTable {
    /// Resolve a hashed call identifier to its registered program counter,
    /// under last-registration-wins.
    pub fn lookup(&self, key: u32) -> (r: Option<u64>)
        ensures
            r == spec_lookup(self.entries@, key),
    {
        let mut i: usize = self.entries.len();
        proof {
            assert(self.entries@.take(i as int) =~= self.entries@);
        }
        while i > 0
            invariant
                i <= self.entries@.len(),
                spec_lookup(self.entries@, key) == spec_lookup(
                    self.entries@.take(i as int),
                    key,
                ),
            decreases i,
        {
            let idx = i - 1;
            proof {
                assert(self.entries@.take(i as int).drop_last() =~= self.entries@.take(
                    idx as int,
                ));
                assert(self.entries@.take(i as int).last() == self.entries@[idx as int]);
            }
            if self.entries[idx].key == key {
                return Some(self.entries[idx].target);
            }
            i = idx;
        }
        None
    }
}

/// Whether bit `pc = 8 * byte_idx + bit` is set, phrased over the byte the
/// executable builder reads.
proof fn lemma_bit_set_index(wl: Seq<u8>, byte_idx: int, bit: int)
    requires
        0 <= byte_idx < wl.len(),
        0 <= bit < 8,
    ensures
        spec_bit_set(wl, 8 * byte_idx + bit) == ((wl[byte_idx] >> (bit as u8)) & 1u8 == 1u8),
{
    assert((8 * byte_idx + bit) / 8 == byte_idx);
    assert((8 * byte_idx + bit) % 8 == bit);
    assert(0 <= 8 * byte_idx + bit < 8 * wl.len());
}

/// Build the call-target table from the entry program counter and the
/// call-whitelist bitmap. The entry point is registered first; then bit `pc`
/// being set registers the hash of `pc`'s little-endian encoding, mapped to
/// `pc` — whether or not `pc` lies inside the program text, which is what
/// lets an out-of-range whitelisted counter reach the miss-reclassification
/// logic downstream.
pub fn build_call_table(entry_pc: u64, whitelist: &Vec<u8>) -> (t: CallTargetTable)
    requires
        8 * whitelist@.len() <= usize::MAX,
    ensures
        t.entries@ == spec_table_entries(entry_pc, whitelist@, 8 * whitelist@.len() as int),
{
    let mut entries: Vec<CallTableEntry> = Vec::new();
    entries.push(CallTableEntry { key: ENTRYPOINT_KEY, target: entry_pc });
    proof {
        assert(entries@ =~= spec_table_entries(entry_pc, whitelist@, 0));
    }
    let mut byte_idx: usize = 0;
    while byte_idx < whitelist.len()
        invariant
            8 * whitelist@.len() <= usize::MAX,
            byte_idx <= whitelist@.len(),
            entries@ == spec_table_entries(entry_pc, whitelist@, 8 * byte_idx as int),
        decreases whitelist@.len() - byte_idx,
    {
        let byte = whitelist[byte_idx];
        let mut bit: u8 = 0;
        while bit < 8
            invariant
                8 * whitelist@.len() <= usize::MAX,
                byte_idx < whitelist@.len(),
                byte == whitelist@[byte_idx as int],
                bit <= 8,
                entries@ == spec_table_entries(
                    entry_pc,
                    whitelist@,
                    8 * byte_idx as int + bit as int,
                ),
            decreases 8 - bit,
        {
            proof {
                lemma_bit_set_index(whitelist@, byte_idx as int, bit as int);
            }
            if (byte >> bit) & 1u8 == 1u8 {
                let pc: usize = 8 * byte_idx + bit as usize;
                let key = pc_hash(pc as u64);
                entries.push(CallTableEntry { key, target: pc as u64 });
            }
            bit = bit + 1;
        }
        byte_idx = byte_idx + 1;
    }
    CallTargetTable { entries }
}

/// In a table over counters that fit the 32-bit hash domain, every
/// whitelisted counter's hashed identifier resolves to that counter: the
/// entry point is registered before any whitelist bit, and distinct
/// counters' keys never collide because the hash is injective.
pub proof fn lemma_table_resolves_whitelisted(entry_pc: u64, wl: Seq<u8>, pc: int)
    requires
        8 * wl.len() <= 0x1_0000_0000,
        spec_bit_set(wl, pc),
    ensures
        spec_lookup(spec_table_entries(entry_pc, wl, 8 * wl.len() as int), spec_pc_hash(pc as u64))
            == Some(pc as u64),
{
    lemma_resolves_upto(entry_pc, wl, pc, 8 * wl.len() as int);
}

/// Helper for [`lemma_table_resolves_whitelisted`]: the resolution already
/// holds after any prefix of registrations that includes bit `pc`.
proof fn lemma_resolves_upto(entry_pc: u64, wl: Seq<u8>, pc: int, n: int)
    requires
        8 * wl.len() <= 0x1_0000_0000,
        spec_bit_set(wl, pc),
        pc < n <= 8 * wl.len(),
    ensures
        spec_lookup(spec_table_entries(entry_pc, wl, n), spec_pc_hash(pc as u64)) == Some(
            pc as u64,
        ),
    decreases n,
{
    let key = spec_pc_hash(pc as u64);
    if n == pc + 1 {
        let prev = spec_table_entries(entry_pc, wl, pc);
        let cur = spec_table_entries(entry_pc, wl, n);
        assert(cur == prev.push(CallTableEntry { key, target: pc as u64 }));
        assert(cur.last().key == key);
    } else {
        lemma_resolves_upto(entry_pc, wl, pc, n - 1);
        let prev = spec_table_entries(entry_pc, wl, n - 1);
        if spec_bit_set(wl, n - 1) {
            let cur = spec_table_entries(entry_pc, wl, n);
            assert(cur == prev.push(
                CallTableEntry { key: spec_pc_hash((n - 1) as u64), target: (n - 1) as u64 },
            ));
            if spec_pc_hash((n - 1) as u64) == key {
                lemma_pc_hash_injective(pc as u64, (n - 1) as u64);
            }
            assert(cur.last().key != key);
            assert(cur.drop_last() =~= prev);
        }
    }
}

/// When no whitelisted counter's key collides with the entry point's, the
/// entry-point key resolves to the entry program counter.
pub proof fn lemma_table_resolves_entrypoint(entry_pc: u64, wl: Seq<u8>, n: int)
    requires
        0 <= n,
        forall|pc: int| spec_bit_set(wl, pc) ==> spec_pc_hash(pc as u64) != ENTRYPOINT_KEY,
    ensures
        spec_lookup(spec_table_entries(entry_pc, wl, n), ENTRYPOINT_KEY) == Some(entry_pc),
    decreases n,
{
    if n == 0 {
        assert(spec_table_entries(entry_pc, wl, 0).last().key == ENTRYPOINT_KEY);
    } else {
        lemma_table_resolves_entrypoint(entry_pc, wl, n - 1);
        let prev = spec_table_entries(entry_pc, wl, n - 1);
        if spec_bit_set(wl, n - 1) {
            let cur = spec_table_entries(entry_pc, wl, n);
            assert(cur == prev.push(
                CallTableEntry { key: spec_pc_hash((n - 1) as u64), target: (n - 1) as u64 },
            ));
            assert(cur.drop_last() =~= prev);
        }
    }
}

/// A key that is neither the entry point's nor any whitelisted counter's
/// hash resolves to nothing: a lookup miss.
pub proof fn lemma_table_misses_unlisted(entry_pc: u64, wl: Seq<u8>, n: int, key: u32)
    requires
        0 <= n,
        key != ENTRYPOINT_KEY,
        forall|pc: int| spec_bit_set(wl, pc) ==> spec_pc_hash(pc as u64) != key,
    ensures
        spec_lookup(spec_table_entries(entry_pc, wl, n), key) == None::<u64>,
    decreases n,
{
    if n == 0 {
        let cur = spec_table_entries(entry_pc, wl, 0);
        assert(cur.drop_last() =~= Seq::<CallTableEntry>::empty());
        assert(spec_lookup(cur, key) == spec_lookup(Seq::<CallTableEntry>::empty(), key));
    } else {
        lemma_table_misses_unlisted(entry_pc, wl, n - 1, key);
        let prev = spec_table_entries(entry_pc, wl, n - 1);
        if spec_bit_set(wl, n - 1) {
            let cur = spec_table_entries(entry_pc, wl, n);
            assert(cur == prev.push(
                CallTableEntry { key: spec_pc_hash((n - 1) as u64), target: (n - 1) as u64 },
            ));
            assert(cur.drop_last() =~= prev);
        }
    }
}

} // verus!
