//! Resizing an account's data while keeping it exactly rent-exempt.

use vstd::prelude::*;
use anchor_lang::solana_program::program_error::ProgramError;
use anchor_lang::solana_program::rent::Rent;
use crate::account::{resized, Account};
use crate::error::MaintenanceError;
use crate::rebalance::{credit, rebalance, rebalance_for, Rebalance};
use crate::rent::{minimum_balance_for, rent_computable, rent_in_force, rent_minimum_balance};
use crate::runtime::{handle, invoke_with, transfer_instruction};

verus! {

/// What the resize step leaves of an account whose balance is settled: the
/// data resized and success, or the data as it was and the refusal.
pub open spec fn resize_settled(
    before: Account,
    after: Account,
    new_space: usize,
    r: Result<(), MaintenanceError>,
) -> bool {
    if before.refuses(new_space) {
        &&& r == Err::<(), MaintenanceError>(MaintenanceError::ResizeRejected)
        &&& after.data@ == before.data@
    } else {
        &&& r == Ok::<(), MaintenanceError>(())
        &&& after.data@ == resized(before.data@, new_space as nat)
    }
}

/// The outcome of bringing `account` to `required` lamports and its buffer
/// to `new_space` bytes, by what the balance called for.
///
/// - Nothing to move: the payer is untouched and only the buffer changes.
/// - A surplus: it goes to the payer, unless the payer's balance cannot take
///   it; then nothing changes at all.
/// - A shortfall: the system program was asked to move it and decided. If it
///   refused, the buffer keeps its length; if it agreed, the buffer is
///   resized or the resize refused, and the balances are those it left.
pub open spec fn resize_outcome(
    account: Account,
    payer: Account,
    account_after: Account,
    payer_after: Account,
    new_space: usize,
    required: u64,
    r: Result<(), MaintenanceError>,
) -> bool {
    match rebalance_for(account.lamports, required) {
        Rebalance::Hold => {
            &&& payer_after == payer
            &&& account_after.lamports == required
            &&& account_after.same_identity(account)
            &&& resize_settled(account, account_after, new_space, r)
        },
        Rebalance::Refund(surplus) => if payer.lamports + surplus > u64::MAX {
            &&& r == Err::<(), MaintenanceError>(MaintenanceError::ArithmeticOverflow)
            &&& account_after == account
            &&& payer_after == payer
        } else {
            &&& payer_after == (Account { lamports: (payer.lamports + surplus) as u64, ..payer })
            &&& account_after.lamports == required
            &&& account_after.same_identity(account)
            &&& resize_settled(account, account_after, new_space, r)
        },
        Rebalance::TopUp(_) => {
            &&& payer.lent(payer_after)
            &&& account_after.same_frame(account)
            &&& match r {
                Ok(()) => {
                    &&& !account.refuses(new_space)
                    &&& account_after.data@.len() == new_space
                    &&& forall|i: int|
                        account.data@.len() <= i < new_space
                            ==> #[trigger] account_after.data@[i] == 0
                },
                Err(MaintenanceError::InsufficientPayerFunds(_)) => {
                    account_after.data@.len() == account.data@.len()
                },
                Err(MaintenanceError::ResizeRejected) => {
                    &&& account.refuses(new_space)
                    &&& account_after.data@.len() == account.data@.len()
                },
                Err(_) => false,
            }
        },
    }
}

/// Whether the accounts after a resize are as a system program leaves them
/// that moved exactly `shortfall` lamports from the payer to the account and
/// touched nothing else: the payer poorer by the shortfall, the account
/// richer by it, its owner as before, and every byte it held before and
/// still holds unchanged.
pub open spec fn transfer_honoured(
    account: Account,
    payer: Account,
    account_after: Account,
    payer_after: Account,
    shortfall: u64,
) -> bool {
    &&& payer.lamports >= shortfall
    &&& payer_after == (Account { lamports: (payer.lamports - shortfall) as u64, ..payer })
    &&& account_after.lamports == account.lamports + shortfall
    &&& account_after.owner == account.owner
    &&& forall|i: int|
        0 <= i < account.data@.len() && i < account_after.data@.len()
            ==> #[trigger] account_after.data@[i] == account.data@[i]
}

/// Whether the top-up that a resize to `required` lamports called for, if it
/// called for one, was honoured in the sense of [`transfer_honoured`].
pub open spec fn top_up_honoured(
    account: Account,
    payer: Account,
    account_after: Account,
    payer_after: Account,
    required: u64,
) -> bool {
    rebalance_for(account.lamports, required) matches Rebalance::TopUp(shortfall)
        ==> transfer_honoured(account, payer, account_after, payer_after, shortfall)
}

/// Whether `account` holds at least the minimum balance that `rent` asks of
/// its present length.
pub open spec fn rent_exempt(account: Account, rent: Rent) -> bool {
    account.lamports >= rent_minimum_balance(rent, account.data.len())
}

/// The outcome of a resize under the schedule `rent`: that of
/// [`resize_outcome`] for the schedule's minimum balance, or an overflow
/// with nothing changed where the schedule cannot compute one.
pub open spec fn resize_outcome_under(
    account: Account,
    payer: Account,
    account_after: Account,
    payer_after: Account,
    new_space: usize,
    rent: Rent,
    r: Result<(), MaintenanceError>,
) -> bool {
    if rent_computable(rent, new_space) {
        resize_outcome(
            account,
            payer,
            account_after,
            payer_after,
            new_space,
            rent_minimum_balance(rent, new_space),
            r,
        )
    } else {
        &&& r == Err::<(), MaintenanceError>(MaintenanceError::ArithmeticOverflow)
        &&& account_after == account
        &&& payer_after == payer
    }
}

/// Finishes a resize once the runtime has answered the request to top the
/// account up: a refusal ends the resize with the runtime's error and the
/// account as it stands; after an agreement the buffer is resized, or the
/// resize refused.
pub fn settle_top_up(
    outcome: Result<(), ProgramError>,
    account: &mut Account,
    new_space: usize,
) -> (r: Result<(), MaintenanceError>)
    ensures
        match outcome {
            Err(refusal) => {
                &&& r == Err::<(), MaintenanceError>(
                    MaintenanceError::InsufficientPayerFunds(refusal),
                )
                &&& *final(account) == *old(account)
            },
            Ok(()) => {
                &&& final(account).same_identity(*old(account))
                &&& final(account).lamports == old(account).lamports
                &&& resize_settled(*old(account), *final(account), new_space, r)
            },
        },
{
    match outcome {
        Err(refusal) => Err(MaintenanceError::InsufficientPayerFunds(refusal)),
        Ok(()) => account.resize(new_space),
    }
}

/// Brings `account` to a balance of exactly `required` lamports, then gives
/// its data buffer exactly `new_space` bytes.
///
/// A shortfall is asked of `payer` through the system program's transfer;
/// a surplus is moved to `payer` directly. The balance is settled before the
/// buffer changes, so a refused resize leaves the settled balances in place.
pub fn resize_account_to(
    account: &mut Account,
    new_space: usize,
    payer: &mut Account,
    system_program: &Account,
    required: u64,
) -> (r: Result<(), MaintenanceError>)
    ensures
        resize_outcome(
            *old(account),
            *old(payer),
            *final(account),
            *final(payer),
            new_space,
            required,
            r,
        ),
{
    match rebalance(account.lamports, required) {
        Rebalance::TopUp(shortfall) => {
            let request = transfer_instruction(&payer.key, &account.key, shortfall);
            let mut program = system_program.clone();
            let outcome = {
                let payer_info = handle(payer);
                let account_info = handle(account);
                let program_info = handle(&mut program);
                invoke_with(&request, &payer_info, &account_info, &program_info)
            };
            settle_top_up(outcome, account, new_space)
        },
        Rebalance::Refund(surplus) => {
            let credited: u64 = credit(payer.lamports, surplus)?;
            account.lamports = required;
            payer.lamports = credited;
            account.resize(new_space)
        },
        Rebalance::Hold => account.resize(new_space),
    }
}

/// Resizes `account` to `new_space` bytes under the schedule `rent`: its
/// balance is brought to exactly the schedule's minimum for the new length,
/// then its buffer is resized.
pub fn resize_account_under(
    account: &mut Account,
    new_space: usize,
    payer: &mut Account,
    system_program: &Account,
    rent: &Rent,
) -> (r: Result<(), MaintenanceError>)
    ensures
        resize_outcome_under(
            *old(account),
            *old(payer),
            *final(account),
            *final(payer),
            new_space,
            *rent,
            r,
        ),
{
    match minimum_balance_for(rent, new_space) {
        Some(required) => resize_account_to(account, new_space, payer, system_program, required),
        None => Err(MaintenanceError::ArithmeticOverflow),
    }
}

/// Resizes `account` to `new_space` bytes under the rent schedule in force,
/// with `payer` funding any shortfall and receiving any surplus.
///
/// The schedule is the runtime's to give. If it gives none, nothing changes
/// and the runtime's error comes back as
/// [`MaintenanceError::RentUnavailable`]; otherwise the outcome is that of
/// [`resize_account_under`] for the schedule it gave.
pub fn resize_account(
    account: &mut Account,
    new_space: usize,
    payer: &mut Account,
    system_program: &Account,
) -> (r: Result<(), MaintenanceError>)
    ensures
        match r {
            Err(MaintenanceError::RentUnavailable(_)) => {
                &&& *final(account) == *old(account)
                &&& *final(payer) == *old(payer)
            },
            _ => exists|rent: Rent|
                resize_outcome_under(
                    *old(account),
                    *old(payer),
                    *final(account),
                    *final(payer),
                    new_space,
                    rent,
                    r,
                ),
        },
{
    match rent_in_force() {
        Ok(rent) => resize_account_under(account, new_space, payer, system_program, &rent),
        Err(refusal) => Err(MaintenanceError::RentUnavailable(refusal)),
    }
}

} // verus!
