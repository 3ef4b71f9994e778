//! What holds of every resize, proved from the contracts of the functions.

use vstd::prelude::*;
use anchor_lang::solana_program::rent::Rent;
use crate::account::{resized, Account};
use crate::error::MaintenanceError;
use crate::rebalance::{rebalance_for, Rebalance};
use crate::rent::{rent_computable, rent_minimum_balance, rent_rate, ACCOUNT_STORAGE_OVERHEAD};
use crate::resize::{rent_exempt, resize_outcome, resize_outcome_under, top_up_honoured};

verus! {

/// The adjustment is exactly the distance between the two balances: a
/// top-up added to the current balance gives the required one, a refund
/// taken from it does, and nothing moves exactly when they are equal.
pub proof fn rebalance_closes_the_gap(current: u64, required: u64)
    ensures
        match rebalance_for(current, required) {
            Rebalance::TopUp(shortfall) => shortfall > 0 && current + shortfall == required,
            Rebalance::Refund(surplus) => surplus > 0 && required + surplus == current,
            Rebalance::Hold => current == required,
        },
{
}

/// After a successful resize the buffer has exactly the requested length.
/// The balance is exactly the required one wherever the account held
/// enough; where it was short, the balance is what the system program left,
/// and is the required one, with the data resized from what it was, if the
/// transfer was honoured.
pub proof fn successful_resize_is_exact(
    account: Account,
    payer: Account,
    account_after: Account,
    payer_after: Account,
    new_space: usize,
    required: u64,
    r: Result<(), MaintenanceError>,
)
    requires
        resize_outcome(account, payer, account_after, payer_after, new_space, required, r),
        r is Ok,
    ensures
        account_after.data@.len() == new_space,
        account.lamports >= required ==> account_after.lamports == required,
        top_up_honoured(account, payer, account_after, payer_after, required) ==> {
            &&& account_after.lamports == required
            &&& account_after.data@ == resized(account.data@, new_space as nat)
            &&& account_after.same_identity(account)
        },
{
    if top_up_honoured(account, payer, account_after, payer_after, required) {
        assert(account_after.data@ =~= resized(account.data@, new_space as nat));
    }
}

/// After a successful resize under a schedule, the buffer has exactly the
/// requested length; and the balance is exactly the schedule's minimum for
/// that length, so the account is rent-exempt, wherever the account held
/// enough or its top-up was honoured.
pub proof fn successful_resize_is_rent_exempt(
    account: Account,
    payer: Account,
    account_after: Account,
    payer_after: Account,
    new_space: usize,
    rent: Rent,
    r: Result<(), MaintenanceError>,
)
    requires
        resize_outcome_under(account, payer, account_after, payer_after, new_space, rent, r),
        r is Ok,
        top_up_honoured(
            account,
            payer,
            account_after,
            payer_after,
            rent_minimum_balance(rent, new_space),
        ),
    ensures
        account_after.data@.len() == new_space,
        account_after.lamports == rent_minimum_balance(rent, new_space),
        rent_exempt(account_after, rent),
{
}

/// An account that already holds its required balance takes part in no
/// movement of lamports: its balance and the whole payer are as before, and
/// the call succeeds or fails with the resize step alone.
pub proof fn balanced_account_moves_nothing(
    account: Account,
    payer: Account,
    account_after: Account,
    payer_after: Account,
    new_space: usize,
    required: u64,
    r: Result<(), MaintenanceError>,
)
    requires
        resize_outcome(account, payer, account_after, payer_after, new_space, required, r),
        account.lamports == required,
    ensures
        rebalance_for(account.lamports, required) == Rebalance::Hold,
        account_after.lamports == account.lamports,
        payer_after == payer,
        r is Ok <==> !account.refuses(new_space),
        r is Err ==> r == Err::<(), MaintenanceError>(MaintenanceError::ResizeRejected),
{
}

/// Growing an account that holds exactly its minimum, to a length that
/// asks at least as much, then shrinking it back to the length it had,
/// succeeds and restores its balance, its data and the whole payer,
/// provided the runtime honoured the top-up that the growth asked for.
pub proof fn grow_then_shrink_restores(
    rent: Rent,
    start: Account,
    payer_start: Account,
    grown: Account,
    payer_grown: Account,
    back: Account,
    payer_back: Account,
    longer: usize,
    r_grow: Result<(), MaintenanceError>,
    r_shrink: Result<(), MaintenanceError>,
)
    requires
        start.data@.len() <= longer,
        start.lamports == rent_minimum_balance(rent, start.data.len()),
        start.lamports <= rent_minimum_balance(rent, longer),
        resize_outcome_under(start, payer_start, grown, payer_grown, longer, rent, r_grow),
        r_grow is Ok,
        top_up_honoured(
            start,
            payer_start,
            grown,
            payer_grown,
            rent_minimum_balance(rent, longer),
        ),
        resize_outcome_under(
            grown,
            payer_grown,
            back,
            payer_back,
            start.data.len(),
            rent,
            r_shrink,
        ),
    ensures
        r_shrink is Ok,
        back.lamports == start.lamports,
        back.data@ == start.data@,
        back.same_identity(start),
        payer_back == payer_start,
{
    let short: usize = start.data.len();
    assert(rent_computable(rent, short)) by {
        shorter_is_computable(rent, short, longer);
    }
    successful_resize_is_exact(
        start,
        payer_start,
        grown,
        payer_grown,
        longer,
        rent_minimum_balance(rent, longer),
        r_grow,
    );
    assert(grown.data@ == resized(start.data@, longer as nat));
    assert(!grown.refuses(short));
    assert(resized(resized(start.data@, longer as nat), short as nat) =~= start.data@);
}

/// A schedule that can compute the minimum for a length can compute it for
/// every shorter one.
pub proof fn shorter_is_computable(rent: Rent, shorter: usize, longer: usize)
    requires
        shorter <= longer,
        rent_computable(rent, longer),
    ensures
        rent_computable(rent, shorter),
{
    let rate: int = rent_rate(rent) as int;
    let small: int = ACCOUNT_STORAGE_OVERHEAD + shorter;
    let large: int = ACCOUNT_STORAGE_OVERHEAD + longer;
    assert(small * rate <= large * rate) by (nonlinear_arith)
        requires
            0 <= small <= large,
            0 <= rate,
    ;
}

} // verus!
