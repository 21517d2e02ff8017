//! Taking a user off the whitelist.
use vstd::prelude::*;
use crate::errors::InstructionError;
use crate::instructions::whitelist_user::signed_by_admin;
use crate::pubkey::Pubkey;
use crate::state::{without_user, Vault, Whitelist};

verus! {

/// The accounts of `remove_whitelist`, by the values the instruction reads.
#[derive(Clone, Debug)]
pub struct RemoveWhitelist {
    /// The signer.
    pub admin: Pubkey,
    /// The vault.
    pub vault: Vault,
    /// The whitelist record of the user.
    pub whitelist: Whitelist,
}

impl RemoveWhitelist {
    /// The check made on the accounts before the instruction runs: the signer
    /// must be the vault's admin.
    pub fn validate(&self) -> (r: Result<(), InstructionError>)
        ensures
            r is Ok <==> signed_by_admin(self.vault@, self.admin),
            r is Err ==> r == Err::<(), InstructionError>(InstructionError::ConstraintHasOne),
    {
        if self.vault.admin.same(&self.admin) {
            Ok(())
        } else {
            Err(InstructionError::ConstraintHasOne)
        }
    }

    /// Marks the record not whitelisted and takes the user the record names
    /// off the vault's list.
    pub fn remove_whitelist(&mut self)
        ensures
            final(self).admin == old(self).admin,
            final(self).whitelist == (Whitelist { is_whitelisted: false, ..old(self).whitelist }),
            final(self).vault@ == old(self).vault@.with_users(
                without_user(old(self).vault@.whitelisted_users, old(self).whitelist.user),
            ),
            old(self).vault@.well_formed() ==> final(self).vault@.well_formed(),
    {
        self.whitelist.is_whitelisted = false;
        let user = self.whitelist.user;
        self.vault.remove_user(&user);
    }
}

} // verus!
