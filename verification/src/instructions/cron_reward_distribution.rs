//! Distributing rewards to the whitelisted users, once per reward interval.
use vstd::prelude::*;
use crate::errors::{CounterError, InstructionError};
use crate::pubkey::Pubkey;
use crate::state::{Vault, VaultView};
use crate::token::{seeds_view, vault_signer_seeds, vault_signer_seeds_spec, MintTo};

verus! {

/// Tokens minted to each rewarded user.
pub const REWARD_AMOUNT: u64 = 100;

/// The accounts of `cron_reward_distribution`, by the values it reads.
#[derive(Clone, Debug)]
pub struct CronRewardDistribution {
    /// Address of the vault account.
    pub vault_key: Pubkey,
    /// The vault.
    pub vault: Vault,
    /// Address of the mint account given.
    pub mint: Pubkey,
}

/// Whether a reward is due at `now`: the reward interval has passed since the
/// last distribution.
pub open spec fn reward_due(vault: VaultView, now: i64) -> bool {
    now >= vault.last_reward_time + vault.reward_interval
}

/// The due time of the next reward fits in an `i64`.
pub open spec fn due_time_in_range(vault: VaultView) -> bool {
    i64::MIN <= vault.last_reward_time + vault.reward_interval <= i64::MAX
}

/// How many users are rewarded: one per whitelisted user, as far as token
/// accounts were given for them.
pub open spec fn rewarded_count(vault: VaultView, token_accounts: Seq<Pubkey>) -> nat {
    if vault.whitelisted_users.len() <= token_accounts.len() {
        vault.whitelisted_users.len()
    } else {
        token_accounts.len()
    }
}

/// The mint of the reward to the `i`-th token account.
pub open spec fn is_reward_mint(
    m: MintTo,
    ctx: CronRewardDistribution,
    token_accounts: Seq<Pubkey>,
    i: int,
) -> bool {
    &&& m.mint == ctx.mint
    &&& m.to == token_accounts[i]
    &&& m.authority == ctx.vault_key
    &&& m.amount == REWARD_AMOUNT
    &&& seeds_view(m.signer_seeds@) == vault_signer_seeds_spec(ctx.vault.bump)
}

impl CronRewardDistribution {
    /// The check made on the accounts before the instruction runs: the mint
    /// must be the vault's.
    pub fn validate(&self) -> (r: Result<(), InstructionError>)
        ensures
            r is Ok <==> self.mint == self.vault.mint,
            r is Err ==> r == Err::<(), InstructionError>(InstructionError::ConstraintAddress),
    {
        if self.mint.same(&self.vault.mint) {
            Ok(())
        } else {
            Err(InstructionError::ConstraintAddress)
        }
    }

    /// When a reward is due at `now`, mints `REWARD_AMOUNT` tokens into the
    /// token account given for each whitelisted user, in the order of the
    /// list, the `i`-th account standing for the `i`-th user and the users
    /// past the last account getting nothing, and sets the last reward time to
    /// `now`. Refused, with the vault unchanged, when no reward is due.
    pub fn distribute_rewards(&mut self, now: i64, remaining_accounts: &Vec<Pubkey>) -> (r: Result<Vec<MintTo>, InstructionError>)
        requires
            due_time_in_range(old(self).vault@),
        ensures
            final(self).vault_key == old(self).vault_key,
            final(self).mint == old(self).mint,
            r is Ok <==> reward_due(old(self).vault@, now),
            r is Err ==> {
                &&& r == Err::<Vec<MintTo>, InstructionError>(InstructionError::Program(CounterError::RewardTooEarly))
                &&& final(self).vault@ == old(self).vault@
            },
            r matches Ok(mints) ==> {
                &&& final(self).vault@ == (VaultView { last_reward_time: now, ..old(self).vault@ })
                &&& mints@.len() == rewarded_count(old(self).vault@, remaining_accounts@)
                &&& forall|i: int| 0 <= i < mints@.len() ==>
                    is_reward_mint(#[trigger] mints@[i], *old(self), remaining_accounts@, i)
            },
    {
        if now < self.vault.last_reward_time + self.vault.reward_interval {
            return Err(InstructionError::Program(CounterError::RewardTooEarly));
        }
        let n_users = self.vault.whitelisted_users.len();
        let mut mints: Vec<MintTo> = Vec::new();
        let mut i: usize = 0;
        while i < n_users
            invariant
                n_users == self.vault.whitelisted_users@.len(),
                i <= n_users,
                i <= remaining_accounts@.len(),
                mints@.len() == i,
                self.vault@ == old(self).vault@,
                self.mint == old(self).mint,
                self.vault_key == old(self).vault_key,
                forall|j: int| 0 <= j < i ==> is_reward_mint(#[trigger] mints@[j], *old(self), remaining_accounts@, j),
            ensures
                mints@.len() == rewarded_count(old(self).vault@, remaining_accounts@),
                self.vault@ == old(self).vault@,
                self.mint == old(self).mint,
                self.vault_key == old(self).vault_key,
                forall|j: int| 0 <= j < mints@.len() ==> is_reward_mint(#[trigger] mints@[j], *old(self), remaining_accounts@, j),
            decreases n_users - i,
        {
            if i >= remaining_accounts.len() {
                break;
            }
            let m = MintTo {
                mint: self.mint,
                to: remaining_accounts[i],
                authority: self.vault_key,
                amount: REWARD_AMOUNT,
                signer_seeds: vault_signer_seeds(self.vault.bump),
            };
            mints.push(m);
            i = i + 1;
        }
        self.vault.last_reward_time = now;
        Ok(mints)
    }
}

} // verus!
