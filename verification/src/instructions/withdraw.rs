//! Withdrawing: a whitelisted user returns vault tokens to the vault.
use vstd::prelude::*;
use crate::errors::InstructionError;
use crate::instructions::deposit::{check_whitelisted_with_vault_mint, whitelisted_with_vault_mint};
use crate::pubkey::Pubkey;
use crate::state::{Vault, Whitelist};
use crate::token::TransferChecked;

verus! {

/// The accounts of `withdraw`, by the values the instruction reads.
#[derive(Clone, Debug)]
pub struct Withdraw {
    /// The signer.
    pub user: Pubkey,
    /// The vault.
    pub vault: Vault,
    /// The whitelist record of the signer.
    pub whitelist: Whitelist,
    /// Address of the mint account given.
    pub mint: Pubkey,
    /// Decimals of that mint.
    pub mint_decimals: u8,
    /// The signer's token account for the mint.
    pub user_token_account: Pubkey,
    /// The vault's token account for the mint.
    pub vault_token_account: Pubkey,
}

impl Withdraw {
    /// The checks made on the accounts before the instruction runs: the
    /// signer's record must say whitelisted, and the mint must be the vault's.
    pub fn validate(&self) -> (r: Result<(), InstructionError>)
        ensures
            r == whitelisted_with_vault_mint(self.whitelist, self.mint, self.vault.mint),
    {
        check_whitelisted_with_vault_mint(&self.whitelist, &self.mint, &self.vault.mint)
    }

    /// Moves `amount` tokens from the signer's token account to the vault's,
    /// checked against the mint's decimals, the signer signing.
    pub fn withdraw(&self, amount: u64) -> (t: TransferChecked)
        ensures
            t == (TransferChecked {
                from: self.user_token_account,
                mint: self.mint,
                to: self.vault_token_account,
                authority: self.user,
                amount,
                decimals: self.mint_decimals,
            }),
    {
        TransferChecked {
            from: self.user_token_account,
            mint: self.mint,
            to: self.vault_token_account,
            authority: self.user,
            amount,
            decimals: self.mint_decimals,
        }
    }
}

} // verus!
