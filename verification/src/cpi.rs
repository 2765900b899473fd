//! Nested-call effect simulation: splicing externally supplied post-call
//! account states into the live account set.
//!
//! When the executing subroutine performs a nested cross-program call, the
//! harness does not run the callee. Instead, a precomputed set of post-call
//! account states is consulted: each account the nested call references is
//! looked up by address, and the first matching entry — if any — overwrites
//! its balance, executable flag and rent epoch unconditionally, its data
//! only when the supplied data is non-empty, and its owner only when the
//! supplied owner is a well-formed 32-byte address. Accounts with no
//! matching entry are left untouched.

use vstd::prelude::*;

use crate::layout::clone_bytes;
use vstd::pervasive::VecAdditionalExecFns;

verus! {

/// Byte length of a well-formed account address.
pub const ADDRESS_LEN: usize = 32;

/// The observable state of one account.
pub struct AccountState {
    pub lamports: u64,
    pub data: Vec<u8>,
    pub owner: Vec<u8>,
    pub executable: bool,
    pub rent_epoch: u64,
}

/// One account of the live set: its address and its state.
pub struct Account {
    pub address: Vec<u8>,
    pub state: AccountState,
}

/// One entry of the supplied post-call effect set.
pub struct AccountUpdate {
    pub address: Vec<u8>,
    pub lamports: u64,
    pub data: Vec<u8>,
    pub owner: Vec<u8>,
    pub executable: bool,
    pub rent_epoch: u64,
}

/// Two account states carry the same values.
pub open spec fn spec_account_state_eq(a: AccountState, b: AccountState) -> bool {
    &&& a.lamports == b.lamports
    &&& a.data@ == b.data@
    &&& a.owner@ == b.owner@
    &&& a.executable == b.executable
    &&& a.rent_epoch == b.rent_epoch
}

/// Two accounts carry the same address and state.
pub open spec fn spec_account_eq(a: Account, b: Account) -> bool {
    &&& a.address@ == b.address@
    &&& spec_account_state_eq(a.state, b.state)
}

/// `k` is the first entry of the effect set whose address matches `addr`.
pub open spec fn spec_is_first_match(updates: Seq<AccountUpdate>, addr: Seq<u8>, k: int) -> bool {
    &&& 0 <= k < updates.len()
    &&& updates[k].address@ == addr
    &&& forall|m: int| 0 <= m < k ==> (#[trigger] updates[m]).address@ != addr
}

/// Some entry of the effect set matches `addr`.
pub open spec fn spec_has_match(updates: Seq<AccountUpdate>, addr: Seq<u8>) -> bool {
    exists|k: int| 0 <= k < updates.len() && (#[trigger] updates[k]).address@ == addr
}

/// How one update rewrites an account's state: balance, executable flag and
/// rent epoch unconditionally; data only when non-empty; owner only when a
/// well-formed address.
pub open spec fn spec_splice_fields(
    old_state: AccountState,
    new_state: AccountState,
    u: AccountUpdate,
) -> bool {
    &&& new_state.lamports == u.lamports
    &&& new_state.executable == u.executable
    &&& new_state.rent_epoch == u.rent_epoch
    &&& new_state.data@ == if u.data@.len() > 0 {
        u.data@
    } else {
        old_state.data@
    }
    &&& new_state.owner@ == if u.owner@.len() == ADDRESS_LEN {
        u.owner@
    } else {
        old_state.owner@
    }
}

/// The account's state was rewritten by the first matching entry.
pub open spec fn spec_spliced(
    old_state: AccountState,
    new_state: AccountState,
    updates: Seq<AccountUpdate>,
    addr: Seq<u8>,
) -> bool {
    exists|k: int|
        #[trigger] spec_is_first_match(updates, addr, k) && spec_splice_fields(
            old_state,
            new_state,
            updates[k],
        )
}

/// Index `j` is named by the nested call's account references.
pub open spec fn spec_is_referenced(referenced: Seq<usize>, j: int) -> bool {
    exists|i: int| 0 <= i < referenced.len() && (#[trigger] referenced[i]) == j
}

/// The outcome for the account at index `j`: spliced by the first matching
/// entry when referenced and matched, untouched otherwise. The address is
/// never rewritten.
pub open spec fn spec_account_outcome(
    old_account: Account,
    new_account: Account,
    referenced: Seq<usize>,
    updates: Seq<AccountUpdate>,
    j: int,
) -> bool {
    &&& new_account.address@ == old_account.address@
    &&& if spec_is_referenced(referenced, j) && spec_has_match(updates, old_account.address@) {
        spec_spliced(old_account.state, new_account.state, updates, old_account.address@)
    } else {
        spec_account_eq(new_account, old_account)
    }
}

/// Byte-for-byte equality of two buffers.
pub fn bytes_equal(a: &Vec<u8>, b: &Vec<u8>) -> (r: bool)
    ensures
        r <==> a@ == b@,
{
    if a.len() != b.len() {
        return false;
    }
    let mut i: usize = 0;
    while i < a.len()
        invariant
            a@.len() == b@.len(),
            i <= a@.len(),
            forall|k: int| 0 <= k < i ==> a@[k] == b@[k],
        decreases a@.len() - i,
    {
        if a[i] != b[i] {
            return false;
        }
        i = i + 1;
    }
    proof {
        assert(a@ =~= b@);
    }
    true
}

/// Find the first entry of the effect set matching `addr`, if any.
pub fn find_first_update(updates: &Vec<AccountUpdate>, addr: &Vec<u8>) -> (r: Option<usize>)
    ensures
        match r {
            Some(k) => spec_is_first_match(updates@, addr@, k as int),
            None => !spec_has_match(updates@, addr@),
        },
{
    let mut i: usize = 0;
    while i < updates.len()
        invariant
            i <= updates@.len(),
            forall|m: int| 0 <= m < i ==> (#[trigger] updates@[m]).address@ != addr@,
        decreases updates@.len() - i,
    {
        if bytes_equal(&updates[i].address, addr) {
            return Some(i);
        }
        i = i + 1;
    }
    None
}

/// Rewrite one account's state from one update; see [`spec_splice_fields`].
fn splice_account_state(state: &AccountState, u: &AccountUpdate) -> (new_state: AccountState)
    ensures
        spec_splice_fields(*state, new_state, *u),
{
    let data = if u.data.len() > 0 {
        clone_bytes(&u.data)
    } else {
        clone_bytes(&state.data)
    };
    let owner = if u.owner.len() == ADDRESS_LEN {
        clone_bytes(&u.owner)
    } else {
        clone_bytes(&state.owner)
    };
    AccountState {
        lamports: u.lamports,
        data,
        owner,
        executable: u.executable,
        rent_epoch: u.rent_epoch,
    }
}

/// Splice the supplied post-call account states into the live account set,
/// for every account the nested call references; see
/// [`spec_account_outcome`]. Referencing an account more than once is
/// harmless: the splice is idempotent.
pub fn apply_cpi_effects(
    accounts: &mut Vec<Account>,
    referenced: &Vec<usize>,
    updates: &Vec<AccountUpdate>,
)
    requires
        forall|i: int| 0 <= i < referenced@.len() ==> (#[trigger] referenced@[i])
            < old(accounts)@.len(),
    ensures
        final(accounts)@.len() == old(accounts)@.len(),
        forall|j: int| 0 <= j < old(accounts)@.len() ==> spec_account_outcome(
            old(accounts)@[j],
            #[trigger] final(accounts)@[j],
            referenced@,
            updates@,
            j,
        ),
{
    let ghost orig = accounts@;
    let mut i: usize = 0;
    while i < referenced.len()
        invariant
            forall|m: int| 0 <= m < referenced@.len() ==> (#[trigger] referenced@[m])
                < orig.len(),
            i <= referenced@.len(),
            accounts@.len() == orig.len(),
            forall|j: int| 0 <= j < orig.len() ==> spec_account_outcome(
                orig[j],
                #[trigger] accounts@[j],
                referenced@.take(i as int),
                updates@,
                j,
            ),
        decreases referenced@.len() - i,
    {
        let j = referenced[i];
        let found = find_first_update(updates, &accounts[j].address);
        let ghost pre = accounts@;
        match found {
            Some(k) => {
                let new_state = splice_account_state(&accounts[j].state, &updates[k]);
                let address = clone_bytes(&accounts[j].address);
                accounts.set(j, Account { address, state: new_state });
                proof {
                    lemma_splice_step(orig, pre, accounts@, referenced@, updates@, i as int,
                        j as int, k as int);
                }
            },
            None => {
                proof {
                    lemma_no_match_step(orig, accounts@, referenced@, updates@, i as int,
                        j as int);
                }
            },
        }
        i = i + 1;
    }
    proof {
        assert(referenced@.take(referenced@.len() as int) =~= referenced@);
    }
}

/// Invariant step when the referenced account has no matching entry:
/// nothing changes, and membership in one more reference leaves every
/// outcome intact.
proof fn lemma_no_match_step(
    orig: Seq<Account>,
    cur: Seq<Account>,
    referenced: Seq<usize>,
    updates: Seq<AccountUpdate>,
    i: int,
    j: int,
)
    requires
        0 <= i < referenced.len(),
        referenced[i] == j,
        0 <= j < orig.len(),
        cur.len() == orig.len(),
        forall|x: int| 0 <= x < orig.len() ==> spec_account_outcome(
            orig[x],
            #[trigger] cur[x],
            referenced.take(i),
            updates,
            x,
        ),
        !spec_has_match(updates, cur[j].address@),
    ensures
        forall|x: int| 0 <= x < orig.len() ==> spec_account_outcome(
            orig[x],
            #[trigger] cur[x],
            referenced.take(i + 1),
            updates,
            x,
        ),
{
    assert forall|x: int| 0 <= x < orig.len() implies spec_account_outcome(
        orig[x],
        #[trigger] cur[x],
        referenced.take(i + 1),
        updates,
        x,
    ) by {
        assert(spec_account_outcome(orig[x], cur[x], referenced.take(i), updates, x));
        lemma_take_membership(referenced, i, x);
        if x == j {
            assert(cur[j].address@ == orig[j].address@);
            assert(!spec_has_match(updates, orig[j].address@));
        }
    }
}

/// Membership in the first `i + 1` references is membership in the first
/// `i`, or being the `i`-th reference itself.
proof fn lemma_take_membership(referenced: Seq<usize>, i: int, x: int)
    requires
        0 <= i < referenced.len(),
    ensures
        spec_is_referenced(referenced.take(i + 1), x) <==> (spec_is_referenced(
            referenced.take(i),
            x,
        ) || referenced[i] == x),
{
    let a = referenced.take(i);
    let b = referenced.take(i + 1);
    if spec_is_referenced(b, x) {
        let m = choose|m: int| 0 <= m < b.len() && b[m] == x;
        if m < i {
            assert(a[m] == x);
        } else {
            assert(referenced[i] == x);
        }
    }
    if spec_is_referenced(a, x) {
        let m = choose|m: int| 0 <= m < a.len() && a[m] == x;
        assert(b[m] == x);
    }
    if referenced[i] == x {
        assert(b[i] == x);
    }
}

/// Invariant step when the referenced account is spliced: the touched index
/// reaches (or idempotently re-reaches) its spliced outcome, and every
/// other index is untouched.
proof fn lemma_splice_step(
    orig: Seq<Account>,
    pre: Seq<Account>,
    cur: Seq<Account>,
    referenced: Seq<usize>,
    updates: Seq<AccountUpdate>,
    i: int,
    j: int,
    k: int,
)
    requires
        0 <= i < referenced.len(),
        referenced[i] == j,
        0 <= j < orig.len(),
        pre.len() == orig.len(),
        cur.len() == orig.len(),
        forall|x: int| 0 <= x < orig.len() ==> spec_account_outcome(
            orig[x],
            #[trigger] pre[x],
            referenced.take(i),
            updates,
            x,
        ),
        spec_is_first_match(updates, pre[j].address@, k),
        cur[j].address@ == pre[j].address@,
        spec_splice_fields(pre[j].state, cur[j].state, updates[k]),
        forall|x: int| 0 <= x < orig.len() && x != j ==> spec_account_eq(
            #[trigger] cur[x],
            pre[x],
        ),
    ensures
        forall|x: int| 0 <= x < orig.len() ==> spec_account_outcome(
            orig[x],
            #[trigger] cur[x],
            referenced.take(i + 1),
            updates,
            x,
        ),
{
    assert forall|x: int| 0 <= x < orig.len() implies spec_account_outcome(
        orig[x],
        #[trigger] cur[x],
        referenced.take(i + 1),
        updates,
        x,
    ) by {
        assert(spec_account_outcome(orig[x], pre[x], referenced.take(i), updates, x));
        lemma_take_membership(referenced, i, x);
        if x != j {
            assert(spec_account_eq(cur[x], pre[x]));
        } else {
            assert(pre[j].address@ == orig[j].address@);
            assert(spec_has_match(updates, orig[j].address@));
            if spec_is_referenced(referenced.take(i), j) && spec_has_match(
                updates,
                orig[j].address@,
            ) {
                // the account was already spliced once; splicing again from
                // the same first match reproduces the same state
                let k0 = choose|k0: int|
                    #[trigger] spec_is_first_match(updates, orig[j].address@, k0)
                        && spec_splice_fields(orig[j].state, pre[j].state, updates[k0]);
                assert(k0 == k);
                assert(spec_splice_fields(orig[j].state, cur[j].state, updates[k]));
            } else {
                assert(spec_account_state_eq(pre[j].state, orig[j].state));
                assert(spec_splice_fields(orig[j].state, cur[j].state, updates[k]));
            }
            assert(spec_spliced(orig[j].state, cur[j].state, updates, orig[j].address@));
        }
    }
}

} // verus!
