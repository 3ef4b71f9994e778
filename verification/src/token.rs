//! Moving tokens between ledger accounts under a delegated authority.

use vstd::prelude::*;
use crate::account::Account;
use crate::error::MaintenanceError;
use crate::runtime::{handle, ledger_transfer, ledger_transfer_signed};

verus! {

/// What the ledger's answer means to the caller: an agreement is success,
/// a refusal is [`MaintenanceError::LedgerTransferFailed`] with the ledger's
/// own error inside.
pub fn ledger_verdict(
    outcome: Result<(), anchor_lang::error::Error>,
) -> (r: Result<(), MaintenanceError>)
    ensures
        r == match outcome {
            Ok(()) => Ok::<(), MaintenanceError>(()),
            Err(refusal) => Err::<(), MaintenanceError>(
                MaintenanceError::LedgerTransferFailed(refusal),
            ),
        },
{
    match outcome {
        Ok(()) => Ok(()),
        Err(refusal) => Err(MaintenanceError::LedgerTransferFailed(refusal)),
    }
}

/// Asks the token ledger to move `amount` from `from` to `to` on the word of
/// `authority`, a signer of the transaction.
///
/// The ledger alone decides; its refusal comes back as
/// [`MaintenanceError::LedgerTransferFailed`] with the ledger's own error.
pub fn token_transfer_user(
    from: &mut Account,
    authority: &Account,
    to: &mut Account,
    token_program: &Account,
    amount: u64,
) -> (r: Result<(), MaintenanceError>)
    ensures
        old(from).lent(*final(from)),
        old(to).lent(*final(to)),
        r is Err ==> r matches Err(MaintenanceError::LedgerTransferFailed(_)),
{
    let mut signer = authority.clone();
    let outcome = {
        let from_info = handle(from);
        let authority_info = handle(&mut signer);
        let to_info = handle(to);
        ledger_transfer(&from_info, &authority_info, &to_info, &token_program.key, amount)
    };
    ledger_verdict(outcome)
}

/// Asks the token ledger to move `amount` from `from` to `to` on the word of
/// `authority`, a program-derived address vouched for by the seeds in
/// `signers`.
///
/// The seeds are handed on as they are: deriving the address from them and
/// comparing it is the runtime's work. The ledger alone decides; its refusal
/// comes back as [`MaintenanceError::LedgerTransferFailed`] with the
/// ledger's own error.
pub fn token_transfer_with_signer(
    from: &mut Account,
    authority: &Account,
    to: &mut Account,
    token_program: &Account,
    signers: &[&[&[u8]]; 1],
    amount: u64,
) -> (r: Result<(), MaintenanceError>)
    ensures
        old(from).lent(*final(from)),
        old(to).lent(*final(to)),
        r is Err ==> r matches Err(MaintenanceError::LedgerTransferFailed(_)),
{
    let mut derived = authority.clone();
    let outcome = {
        let from_info = handle(from);
        let authority_info = handle(&mut derived);
        let to_info = handle(to);
        ledger_transfer_signed(
            &from_info,
            &authority_info,
            &to_info,
            &token_program.key,
            signers,
            amount,
        )
    };
    ledger_verdict(outcome)
}

} // verus!
