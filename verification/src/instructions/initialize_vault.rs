//! Creating the vault.
use vstd::prelude::*;
use crate::pubkey::{program_id, program_key, Pubkey};
use crate::state::{Vault, VaultView};

verus! {

/// Decimals of the vault's mint.
pub const MINT_DECIMALS: u8 = 9;

/// The accounts of `initialize_vault`, by the values the instruction reads.
#[derive(Clone, Copy, Debug, PartialEq, Eq)]
pub struct InitializeVault {
    /// The signer, who becomes the vault's admin.
    pub admin: Pubkey,
    /// Address of the vault account.
    pub vault_key: Pubkey,
    /// Address of the mint created with the vault.
    pub mint: Pubkey,
}

/// How the vault's mint is created: its decimals, its mint authority, and the
/// authority and program of its transfer hook.
#[derive(Clone, Copy, Debug, PartialEq, Eq)]
pub struct MintConfig {
    pub decimals: u8,
    pub mint_authority: Pubkey,
    pub transfer_hook_authority: Pubkey,
    pub transfer_hook_program_id: Pubkey,
}

impl InitializeVault {
    /// The new vault: administered by the signer, over the new mint, with the
    /// given reward interval and bump, its last reward time set to `now`, and
    /// no whitelisted user.
    pub fn initialize_vault(&self, reward_interval: i64, bump: u8, now: i64) -> (v: Vault)
        ensures
            v@ == (VaultView {
                admin: self.admin,
                mint: self.mint,
                reward_interval,
                last_reward_time: now,
                bump,
                whitelisted_users: Seq::empty(),
            }),
            v@.well_formed(),
    {
        Vault::new(self.admin, self.mint, reward_interval, now, bump)
    }

    /// The mint is created with 9 decimals, the vault as its mint authority and
    /// as the authority of its transfer hook, and this program as the hook.
    pub fn mint_config(&self) -> (c: MintConfig)
        ensures
            c.decimals == 9,
            c.mint_authority == self.vault_key,
            c.transfer_hook_authority == self.vault_key,
            c.transfer_hook_program_id == program_key(),
    {
        MintConfig {
            decimals: MINT_DECIMALS,
            mint_authority: self.vault_key,
            transfer_hook_authority: self.vault_key,
            transfer_hook_program_id: program_id(),
        }
    }
}

} // verus!
