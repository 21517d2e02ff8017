//! Putting a user on the whitelist.
use vstd::prelude::*;
use crate::errors::InstructionError;
use crate::pubkey::Pubkey;
use crate::state::{vault_fits, with_user, Vault, VaultView, Whitelist};

verus! {

/// The accounts of `whitelist_user`, by the values the instruction reads.
#[derive(Clone, Debug)]
pub struct WhitelistUser {
    /// The signer.
    pub admin: Pubkey,
    /// Address of the vault account.
    pub vault_key: Pubkey,
    /// The vault.
    pub vault: Vault,
}

/// Whether `signer` is the admin the vault names.
pub open spec fn signed_by_admin(vault: VaultView, signer: Pubkey) -> bool {
    vault.admin == signer
}

impl WhitelistUser {
    /// The check made on the accounts before the instruction runs: the signer
    /// must be the vault's admin.
    pub fn validate(&self) -> (r: Result<(), InstructionError>)
        ensures
            r is Ok <==> signed_by_admin(self.vault@, self.admin),
            r is Err ==> r == Err::<(), InstructionError>(InstructionError::ConstraintHasOne),
    {
        if self.vault.admin.same(&self.admin) {
            Ok(())
        } else {
            Err(InstructionError::ConstraintHasOne)
        }
    }

    /// Writes the user's whitelist record, marked whitelisted, and adds the
    /// user to the vault's list unless it is there already. Refused, with the
    /// vault unchanged, when the list would not fit in the vault account.
    pub fn whitelist_user(&mut self, user: Pubkey, bump: u8) -> (r: Result<Whitelist, InstructionError>)
        ensures
            final(self).admin == old(self).admin,
            final(self).vault_key == old(self).vault_key,
            vault_fits(with_user(old(self).vault@.whitelisted_users, user).len()) ==> {
                &&& r == Ok::<Whitelist, InstructionError>(Whitelist {
                    vault: old(self).vault_key,
                    user,
                    is_whitelisted: true,
                    bump,
                })
                &&& final(self).vault@ == old(self).vault@.with_users(
                    with_user(old(self).vault@.whitelisted_users, user),
                )
            },
            !vault_fits(with_user(old(self).vault@.whitelisted_users, user).len()) ==> {
                &&& r == Err::<Whitelist, InstructionError>(InstructionError::AccountDidNotSerialize)
                &&& final(self).vault@ == old(self).vault@
            },
            old(self).vault@.well_formed() ==> final(self).vault@.well_formed(),
    {
        let record = Whitelist { vault: self.vault_key, user, is_whitelisted: true, bump };
        match self.vault.add_user(user) {
            Ok(()) => Ok(record),
            Err(e) => Err(e),
        }
    }
}

} // verus!
