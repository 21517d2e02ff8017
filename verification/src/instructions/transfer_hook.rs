//! The transfer hook: every transfer of the vault's token asks this program
//! whether it may go through.
use vstd::prelude::*;
use crate::errors::{CounterError, InstructionError};
use crate::pubkey::Pubkey;
use crate::state::Whitelist;
use crate::token::TokenAccount;

verus! {

/// The accounts of the transfer hook, by the values it reads.
#[derive(Clone, Copy, Debug, PartialEq, Eq)]
pub struct TransferHook {
    /// The token account the tokens leave.
    pub source: TokenAccount,
    /// Address of the mint.
    pub mint: Pubkey,
    /// The token account the tokens go to.
    pub destination: TokenAccount,
    /// The owner of the source account, who authorised the transfer.
    pub owner: Pubkey,
    /// Address of the vault account.
    pub vault_key: Pubkey,
    /// The whitelist record of the owner, when one was ever written.
    pub source_whitelist: Option<Whitelist>,
}

/// The checks made on the accounts before the hook runs: a sender other than
/// the vault must have a whitelist record; then the source account must be
/// owned by `owner` and hold the mint, then the destination must hold the mint.
pub open spec fn transfer_accounts_check(ctx: TransferHook) -> Result<(), InstructionError> {
    if ctx.owner != ctx.vault_key && ctx.source_whitelist is None {
        Err(InstructionError::AccountNotInitialized)
    } else if ctx.source.owner != ctx.owner {
        Err(InstructionError::ConstraintTokenOwner)
    } else if ctx.source.mint != ctx.mint {
        Err(InstructionError::ConstraintTokenMint)
    } else if ctx.destination.mint != ctx.mint {
        Err(InstructionError::ConstraintTokenMint)
    } else {
        Ok(())
    }
}

/// A transfer may go through when the vault itself sends it, or when the
/// sender has a whitelist record that says whitelisted.
pub open spec fn transfer_allowed(ctx: TransferHook) -> bool {
    ctx.owner == ctx.vault_key || (ctx.source_whitelist matches Some(w) && w.is_whitelisted)
}

impl TransferHook {
    /// The checks made on the accounts before the hook runs.
    pub fn validate(&self) -> (r: Result<(), InstructionError>)
        ensures
            r == transfer_accounts_check(*self),
    {
        if !self.owner.same(&self.vault_key) && self.source_whitelist.is_none() {
            Err(InstructionError::AccountNotInitialized)
        } else if !self.source.owner.same(&self.owner) {
            Err(InstructionError::ConstraintTokenOwner)
        } else if !self.source.mint.same(&self.mint) {
            Err(InstructionError::ConstraintTokenMint)
        } else if !self.destination.mint.same(&self.mint) {
            Err(InstructionError::ConstraintTokenMint)
        } else {
            Ok(())
        }
    }
}

/// Lets the transfer through when the vault sends it or the sender's record
/// says whitelisted; refuses a sender without record as an account never
/// written, and any other sender as not whitelisted. The amount plays no part.
pub fn handler(ctx: &TransferHook, _amount: u64) -> (r: Result<(), InstructionError>)
    ensures
        r == if transfer_allowed(*ctx) {
            Ok::<(), InstructionError>(())
        } else if ctx.source_whitelist is None {
            Err(InstructionError::AccountNotInitialized)
        } else {
            Err(InstructionError::Program(CounterError::NotWhitelisted))
        },
{
    if ctx.owner.same(&ctx.vault_key) {
        return Ok(());
    }
    match &ctx.source_whitelist {
        Some(w) => {
            if w.is_whitelisted {
                Ok(())
            } else {
                Err(InstructionError::Program(CounterError::NotWhitelisted))
            }
        },
        None => Err(InstructionError::AccountNotInitialized),
    }
}

} // verus!
