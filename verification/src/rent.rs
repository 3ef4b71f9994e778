//! The rent schedule: how many lamports keep an account of a given size
//! exempt from reclamation.

use vstd::prelude::*;
use anchor_lang::solana_program::program_error::ProgramError;
use anchor_lang::solana_program::rent::Rent;
use anchor_lang::prelude::SolanaSysvar;

verus! {

/// `Rent`, the runtime's rent schedule. Opaque: one of its terms is a
/// floating-point factor.
#[verifier::external_type_specification]
#[verifier::external_body]
pub struct ExRent(Rent);

/// The bytes of bookkeeping that the schedule charges every account for,
/// on top of its data.
pub const ACCOUNT_STORAGE_OVERHEAD: u64 = 128;

/// The balance that `Rent::minimum_balance` asks of an account with
/// `data_len` bytes of data under the schedule `rent`.
pub uninterp spec fn rent_minimum_balance(rent: Rent, data_len: usize) -> u64;

/// The schedule's integer rate, in lamports per byte.
pub uninterp spec fn rent_rate(rent: Rent) -> u64;

/// Whether the schedule's integer arithmetic for `data_len` bytes stays
/// within 64 bits: the charged byte count, and its product with the rate.
pub open spec fn rent_computable(rent: Rent, data_len: usize) -> bool {
    &&& ACCOUNT_STORAGE_OVERHEAD + data_len <= u64::MAX
    &&& (ACCOUNT_STORAGE_OVERHEAD + data_len) * rent_rate(rent) <= u64::MAX
}

/// Reads the field `Rent::lamports_per_byte_year`. Trusted: the value read
/// is the schedule's rate.
#[verifier::external_body]
#[allow(deprecated)]
fn lamports_per_byte(rent: &Rent) -> (rate: u64)
    ensures
        rate == rent_rate(*rent),
{
    rent.lamports_per_byte_year
}

/// Calls `Rent::minimum_balance`. Trusted: the result depends on the
/// schedule and the length alone. The outside function multiplies the
/// charged byte count by the rate in 64 bits before it applies its
/// floating-point factor, so lengths whose product overflows are kept out.
#[verifier::external_body]
fn minimum_balance(rent: &Rent, data_len: usize) -> (lamports: u64)
    requires
        rent_computable(*rent, data_len),
    ensures
        lamports == rent_minimum_balance(*rent, data_len),
{
    rent.minimum_balance(data_len)
}

/// Calls `Rent::get`, which asks the runtime for the schedule in force.
/// Trusted, and nothing is promised: the runtime may answer or refuse.
#[verifier::external_body]
pub(crate) fn rent_in_force() -> (r: Result<Rent, ProgramError>)
{
    Rent::get()
}

/// The minimum balance for `data_len` bytes under `rent`, or `None` where
/// the schedule's integer arithmetic would overflow.
pub fn minimum_balance_for(rent: &Rent, data_len: usize) -> (r: Option<u64>)
    ensures
        r == if rent_computable(*rent, data_len) {
            Some(rent_minimum_balance(*rent, data_len))
        } else {
            None
        },
{
    let rate: u64 = lamports_per_byte(rent);
    let charged: u64 = match ACCOUNT_STORAGE_OVERHEAD.checked_add(data_len as u64) {
        Some(bytes) => bytes,
        None => { return None; },
    };
    match charged.checked_mul(rate) {
        Some(_) => Some(minimum_balance(rent, data_len)),
        None => None,
    }
}

} // verus!
