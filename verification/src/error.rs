//! What can go wrong, by the step that failed.

use vstd::prelude::*;
use anchor_lang::solana_program::program_error::ProgramError;

verus! {

/// A failed maintenance operation. Each variant names the step that failed;
/// where a runtime service refused, its own error is carried unchanged.
#[derive(Debug, PartialEq, Eq)]
pub enum MaintenanceError {
    /// The runtime did not hand out its rent schedule.
    RentUnavailable(ProgramError),
    /// The transfer that tops an account up to its new minimum was refused.
    InsufficientPayerFunds(ProgramError),
    /// An amount left the range the currency can represent.
    ArithmeticOverflow,
    /// The token ledger refused to move the tokens.
    LedgerTransferFailed(anchor_lang::error::Error),
    /// The data buffer may not take the requested length.
    ResizeRejected,
}

} // verus!
