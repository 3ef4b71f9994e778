use anchor_lang::solana_program::pubkey::Pubkey;
use sol_token_staking::account::{MAX_PERMITTED_DATA_INCREASE, MAX_PERMITTED_DATA_LENGTH};
use sol_token_staking::{Account, MaintenanceError};

fn buffer(data: Vec<u8>, original_data_len: usize) -> Account {
    Account {
        key: Pubkey::new_from_array([3; 32]),
        lamports: 77,
        data,
        owner: Pubkey::new_from_array([4; 32]),
        is_signer: false,
        is_writable: true,
        executable: false,
        original_data_len,
    }
}

#[test]
fn the_limits_are_the_runtimes() {
    assert_eq!(
        MAX_PERMITTED_DATA_INCREASE,
        anchor_lang::solana_program::account_info::MAX_PERMITTED_DATA_INCREASE
    );
    assert_eq!(MAX_PERMITTED_DATA_LENGTH, 10 * 1024 * 1024);
}

#[test]
fn growing_appends_zeros() {
    let mut account = buffer(vec![1, 2, 3], 3);
    assert_eq!(account.resize(6), Ok(()));
    assert_eq!(account.data, vec![1, 2, 3, 0, 0, 0]);
    assert_eq!(account.lamports, 77);
    assert_eq!(account.original_data_len, 3);
}

#[test]
fn shrinking_keeps_the_leading_bytes() {
    let mut account = buffer(vec![1, 2, 3, 4, 5], 5);
    assert_eq!(account.resize(2), Ok(()));
    assert_eq!(account.data, vec![1, 2]);
    assert_eq!(account.resize(0), Ok(()));
    assert_eq!(account.data, Vec::<u8>::new());
}

#[test]
fn regrowing_does_not_bring_cut_bytes_back() {
    let mut account = buffer(vec![9, 9, 9, 9], 4);
    assert_eq!(account.resize(1), Ok(()));
    assert_eq!(account.resize(4), Ok(()));
    assert_eq!(account.data, vec![9, 0, 0, 0]);
}

#[test]
fn keeping_the_length_is_always_allowed() {
    let mut account = buffer(vec![5; 20_000], 0);
    assert_eq!(account.resize(20_000), Ok(()));
    assert_eq!(account.data, vec![5; 20_000]);
}

#[test]
fn growth_is_bounded_by_the_permitted_increase() {
    let mut account = buffer(vec![1; 100], 100);
    assert_eq!(account.resize(100 + MAX_PERMITTED_DATA_INCREASE), Ok(()));
    assert_eq!(account.data.len(), 100 + MAX_PERMITTED_DATA_INCREASE);

    let mut account = buffer(vec![1; 100], 100);
    assert_eq!(
        account.resize(100 + MAX_PERMITTED_DATA_INCREASE + 1),
        Err(MaintenanceError::ResizeRejected)
    );
    assert_eq!(account.data, vec![1; 100]);
}

#[test]
fn the_increase_counts_from_the_original_length() {
    let mut account = buffer(vec![1; 50], 100);
    assert_eq!(account.resize(100 + MAX_PERMITTED_DATA_INCREASE), Ok(()));
    let mut account = buffer(vec![1; 200], 100);
    assert_eq!(
        account.resize(101 + MAX_PERMITTED_DATA_INCREASE),
        Err(MaintenanceError::ResizeRejected)
    );
    assert_eq!(account.data.len(), 200);
}

#[test]
fn no_buffer_outgrows_the_largest_account() {
    let original = MAX_PERMITTED_DATA_LENGTH - 10;
    let mut account = buffer(vec![0; 16], original);
    assert_eq!(account.resize(MAX_PERMITTED_DATA_LENGTH), Ok(()));
    assert_eq!(account.data.len(), MAX_PERMITTED_DATA_LENGTH);

    let mut account = buffer(vec![0; 16], original);
    assert_eq!(
        account.resize(MAX_PERMITTED_DATA_LENGTH + 1),
        Err(MaintenanceError::ResizeRejected)
    );
    assert_eq!(account.data.len(), 16);
}
