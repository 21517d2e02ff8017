//! Depositing: minting vault tokens to a whitelisted user.
use vstd::prelude::*;
use crate::errors::{CounterError, InstructionError};
use crate::pubkey::Pubkey;
use crate::state::{Vault, Whitelist};
use crate::token::{seeds_view, vault_signer_seeds, vault_signer_seeds_spec, MintTo};

verus! {

/// The accounts of `deposit`, by the values the instruction reads.
#[derive(Clone, Debug)]
pub struct Deposit {
    /// The signer.
    pub user: Pubkey,
    /// Address of the vault account.
    pub vault_key: Pubkey,
    /// The vault.
    pub vault: Vault,
    /// The whitelist record of the signer.
    pub whitelist: Whitelist,
    /// Address of the mint account given.
    pub mint: Pubkey,
    /// The signer's token account for the mint.
    pub user_token_account: Pubkey,
}

/// The check on a whitelist record and a mint account made before `deposit`
/// or `withdraw` runs: the record must say whitelisted, then the mint must be
/// the vault's.
pub open spec fn whitelisted_with_vault_mint(
    whitelist: Whitelist,
    mint: Pubkey,
    vault_mint: Pubkey,
) -> Result<(), InstructionError> {
    if !whitelist.is_whitelisted {
        Err(InstructionError::Program(CounterError::NotWhitelisted))
    } else if mint != vault_mint {
        Err(InstructionError::ConstraintAddress)
    } else {
        Ok(())
    }
}

/// The check on a whitelist record and a mint account made before `deposit`
/// or `withdraw` runs.
pub fn check_whitelisted_with_vault_mint(
    whitelist: &Whitelist,
    mint: &Pubkey,
    vault_mint: &Pubkey,
) -> (r: Result<(), InstructionError>)
    ensures
        r == whitelisted_with_vault_mint(*whitelist, *mint, *vault_mint),
{
    if !whitelist.is_whitelisted {
        Err(InstructionError::Program(CounterError::NotWhitelisted))
    } else if !mint.same(vault_mint) {
        Err(InstructionError::ConstraintAddress)
    } else {
        Ok(())
    }
}

impl Deposit {
    /// The checks made on the accounts before the instruction runs: the
    /// signer's record must say whitelisted, and the mint must be the vault's.
    pub fn validate(&self) -> (r: Result<(), InstructionError>)
        ensures
            r == whitelisted_with_vault_mint(self.whitelist, self.mint, self.vault.mint),
    {
        check_whitelisted_with_vault_mint(&self.whitelist, &self.mint, &self.vault.mint)
    }

    /// Mints `amount` vault tokens into the signer's token account, the vault
    /// signing as mint authority.
    pub fn deposit(&self, amount: u64) -> (m: MintTo)
        ensures
            m.mint == self.mint,
            m.to == self.user_token_account,
            m.authority == self.vault_key,
            m.amount == amount,
            seeds_view(m.signer_seeds@) == vault_signer_seeds_spec(self.vault.bump),
    {
        MintTo {
            mint: self.mint,
            to: self.user_token_account,
            authority: self.vault_key,
            amount,
            signer_seeds: vault_signer_seeds(self.vault.bump),
        }
    }
}

} // verus!
