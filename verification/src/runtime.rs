//! The trusted boundary to the host runtime.
//!
//! Everything here is believed, not proved: the declarations make outside
//! types known to the verifier as opaque values, and each wrapper makes the
//! outside call named above it, under the contract stated there. Where the
//! runtime decides the outcome, the wrapper promises nothing about it.

use vstd::prelude::*;
use anchor_lang::context::CpiContext;
use anchor_lang::solana_program::account_info::AccountInfo;
use anchor_lang::solana_program::instruction::Instruction;
use anchor_lang::solana_program::program_error::ProgramError;
use anchor_lang::solana_program::program::invoke;
use anchor_lang::solana_program::pubkey::Pubkey;
use anchor_lang::solana_program::system_instruction;
use anchor_spl::token;
use crate::account::Account;

verus! {

/// `AccountInfo`, the runtime's handle to one account. Opaque: its balance
/// and data sit behind shared cells that the verifier cannot follow.
#[verifier::external_type_specification]
#[verifier::external_body]
pub struct ExAccountInfo<'a>(AccountInfo<'a>);

/// `Pubkey`, an account address. Carried through, never inspected.
#[verifier::external_type_specification]
#[verifier::external_body]
pub struct ExPubkey(Pubkey);

/// `Pubkey::clone`, as derived for a plain 32-byte value: the copy equals
/// the address it was made from.
pub assume_specification[ <Pubkey as Clone>::clone ](key: &Pubkey) -> (copy: Pubkey)
    ensures
        copy == *key,
;

/// `ProgramError`, the failure a runtime service reports.
#[verifier::external_type_specification]
#[verifier::external_body]
pub struct ExProgramError(ProgramError);

/// `anchor_lang::error::Error`, the failure a framework call reports.
#[verifier::external_type_specification]
#[verifier::external_body]
pub struct ExFrameworkError(anchor_lang::error::Error);

/// `Instruction`, a request addressed to another program.
#[verifier::external_type_specification]
#[verifier::external_body]
pub struct ExInstruction(Instruction);

/// Calls `AccountInfo::new` on the parts of `account`, lending its balance
/// and its data bytes to the handle for as long as the handle lives.
/// Trusted: whoever holds the handle can rewrite the balance and the data
/// bytes it was lent, and through it the owner; the address, the flags and
/// the buffer's length are out of its reach.
#[verifier::external_body]
pub(crate) fn handle<'a>(account: &'a mut Account) -> (info: AccountInfo<'a>)
    ensures
        old(account).lent(*final(account)),
{
    AccountInfo::new(
        &account.key,
        account.is_signer,
        account.is_writable,
        &mut account.lamports,
        &mut account.data,
        &account.owner,
        account.executable,
    )
}

/// Calls `system_instruction::transfer`, which writes the request to move
/// `lamports` from `from` to `to`. Trusted, with nothing stated: the request
/// is only handed on.
#[verifier::external_body]
pub(crate) fn transfer_instruction(
    from: &Pubkey,
    to: &Pubkey,
    lamports: u64,
) -> (request: Instruction)
{
    system_instruction::transfer(from, to, lamports)
}

/// Calls `invoke` with `instruction` and the three handles, in this order.
/// Trusted, and nothing is promised: the runtime carries the request out or
/// refuses it, and what it did shows in the accounts behind the handles.
#[verifier::external_body]
pub(crate) fn invoke_with<'a>(
    instruction: &Instruction,
    first: &AccountInfo<'a>,
    second: &AccountInfo<'a>,
    third: &AccountInfo<'a>,
) -> (r: Result<(), ProgramError>)
{
    invoke(instruction, &[first.clone(), second.clone(), third.clone()])
}

/// Calls `token::transfer` under a context made by `CpiContext::new`: the
/// token ledger is asked to move `amount` from `from` to `to` on the word of
/// `authority`, which must itself have signed. Trusted, and nothing is
/// promised: the ledger moves the tokens or refuses, and what it did shows
/// in the accounts behind the handles.
#[verifier::external_body]
pub(crate) fn ledger_transfer<'a>(
    from: &AccountInfo<'a>,
    authority: &AccountInfo<'a>,
    to: &AccountInfo<'a>,
    token_program: &Pubkey,
    amount: u64,
) -> (r: Result<(), anchor_lang::error::Error>)
{
    let accounts =
        token::Transfer { from: from.clone(), authority: authority.clone(), to: to.clone() };
    token::transfer(CpiContext::new(*token_program, accounts), amount)
}

/// Calls `token::transfer` under a context made by
/// `CpiContext::new_with_signer`: as [`ledger_transfer`], with `signers`
/// attached so that the runtime can derive the authority's address from the
/// seeds instead of asking for its signature. Trusted, and nothing is
/// promised.
#[verifier::external_body]
pub(crate) fn ledger_transfer_signed<'a>(
    from: &AccountInfo<'a>,
    authority: &AccountInfo<'a>,
    to: &AccountInfo<'a>,
    token_program: &Pubkey,
    signers: &[&[&[u8]]; 1],
    amount: u64,
) -> (r: Result<(), anchor_lang::error::Error>)
{
    let accounts =
        token::Transfer { from: from.clone(), authority: authority.clone(), to: to.clone() };
    token::transfer(CpiContext::new_with_signer(*token_program, accounts, signers), amount)
}

} // verus!
