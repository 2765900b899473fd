use vm_harness::cpi::{
    apply_cpi_effects, bytes_equal, find_first_update, Account, AccountState, AccountUpdate,
};

fn account(tag: u8) -> Account {
    Account {
        address: vec![tag; 32],
        state: AccountState {
            lamports: 100,
            data: vec![tag],
            owner: vec![0; 32],
            executable: false,
            rent_epoch: 1,
        },
    }
}

fn update_for(tag: u8) -> AccountUpdate {
    AccountUpdate {
        address: vec![tag; 32],
        lamports: 999,
        data: vec![9, 9],
        owner: vec![3; 32],
        executable: true,
        rent_epoch: 7,
    }
}

#[test]
fn matching_entry_overwrites_referenced_account() {
    let mut accounts = vec![account(1), account(2)];
    let updates = vec![update_for(1)];
    apply_cpi_effects(&mut accounts, &vec![0], &updates);
    let a = &accounts[0];
    assert_eq!(a.state.lamports, 999);
    assert!(a.state.executable);
    assert_eq!(a.state.rent_epoch, 7);
    assert_eq!(a.state.data, vec![9, 9]);
    assert_eq!(a.state.owner, vec![3; 32]);
    // the other account is untouched
    let b = &accounts[1];
    assert_eq!(b.state.lamports, 100);
    assert!(!b.state.executable);
    assert_eq!(b.state.data, vec![2]);
}

#[test]
fn unreferenced_account_is_untouched_even_when_matched() {
    let mut accounts = vec![account(1), account(2)];
    let updates = vec![update_for(2)];
    apply_cpi_effects(&mut accounts, &vec![0], &updates);
    assert_eq!(accounts[1].state.lamports, 100);
}

#[test]
fn referenced_account_without_entry_is_untouched() {
    let mut accounts = vec![account(1)];
    let updates = vec![update_for(2)];
    apply_cpi_effects(&mut accounts, &vec![0], &updates);
    assert_eq!(accounts[0].state.lamports, 100);
    assert_eq!(accounts[0].state.data, vec![1]);
}

#[test]
fn empty_update_data_keeps_old_data() {
    let mut accounts = vec![account(1)];
    let mut u = update_for(1);
    u.data = Vec::new();
    apply_cpi_effects(&mut accounts, &vec![0], &vec![u]);
    assert_eq!(accounts[0].state.data, vec![1]);
    assert_eq!(accounts[0].state.lamports, 999);
}

#[test]
fn malformed_owner_keeps_old_owner() {
    let mut accounts = vec![account(1)];
    let mut u = update_for(1);
    u.owner = vec![3; 31];
    apply_cpi_effects(&mut accounts, &vec![0], &vec![u]);
    assert_eq!(accounts[0].state.owner, vec![0; 32]);
    assert_eq!(accounts[0].state.lamports, 999);
}

#[test]
fn first_matching_entry_wins() {
    let mut accounts = vec![account(1)];
    let mut second = update_for(1);
    second.lamports = 111;
    let updates = vec![update_for(1), second];
    apply_cpi_effects(&mut accounts, &vec![0], &updates);
    assert_eq!(accounts[0].state.lamports, 999);
}

#[test]
fn duplicate_references_are_idempotent() {
    let mut once = vec![account(1)];
    let mut twice = vec![account(1)];
    let updates = vec![update_for(1)];
    apply_cpi_effects(&mut once, &vec![0], &updates);
    apply_cpi_effects(&mut twice, &vec![0, 0], &updates);
    assert_eq!(once[0].state.lamports, twice[0].state.lamports);
    assert_eq!(once[0].state.data, twice[0].state.data);
    assert_eq!(once[0].state.owner, twice[0].state.owner);
}

#[test]
fn find_first_update_reports_first_index() {
    let updates = vec![update_for(2), update_for(1), update_for(1)];
    assert_eq!(find_first_update(&updates, &vec![1; 32]), Some(1));
    assert_eq!(find_first_update(&updates, &vec![4; 32]), None);
}

#[test]
fn byte_equality() {
    assert!(bytes_equal(&vec![1, 2], &vec![1, 2]));
    assert!(!bytes_equal(&vec![1, 2], &vec![1, 3]));
    assert!(!bytes_equal(&vec![1, 2], &vec![1, 2, 3]));
    assert!(bytes_equal(&Vec::new(), &Vec::new()));
}
