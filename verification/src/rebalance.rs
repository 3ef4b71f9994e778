//! The balance decision: what must move so that an account holds exactly
//! its required minimum.

use vstd::prelude::*;
use crate::error::MaintenanceError;

verus! {

/// What has to happen to an account's balance.
#[derive(Debug, Clone, Copy, PartialEq, Eq, Structural)]
pub enum Rebalance {
    /// The account is short by this many lamports: the payer tops it up.
    TopUp(u64),
    /// The account holds this many lamports too many: they return to the payer.
    Refund(u64),
    /// The account holds exactly what it needs.
    Hold,
}

/// The adjustment that takes a balance of `current` to `required`.
pub open spec fn rebalance_for(current: u64, required: u64) -> Rebalance {
    if required > current {
        Rebalance::TopUp((required - current) as u64)
    } else if required < current {
        Rebalance::Refund((current - required) as u64)
    } else {
        Rebalance::Hold
    }
}

/// Decides how a balance of `current` is brought to `required`.
pub fn rebalance(current: u64, required: u64) -> (plan: Rebalance)
    ensures
        plan == rebalance_for(current, required),
{
    if required > current {
        Rebalance::TopUp(required - current)
    } else if required < current {
        Rebalance::Refund(current - required)
    } else {
        Rebalance::Hold
    }
}

/// Adds `amount` to `balance`, refusing a sum the currency cannot represent.
pub fn credit(balance: u64, amount: u64) -> (r: Result<u64, MaintenanceError>)
    ensures
        balance + amount <= u64::MAX ==> r == Ok::<u64, MaintenanceError>((balance + amount) as u64),
        balance + amount > u64::MAX ==> r == Err::<u64, MaintenanceError>(MaintenanceError::ArithmeticOverflow),
{
    match balance.checked_add(amount) {
        Some(sum) => Ok(sum),
        None => Err(MaintenanceError::ArithmeticOverflow),
    }
}

} // verus!
