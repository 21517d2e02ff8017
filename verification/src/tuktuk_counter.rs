//! The program's instructions: each makes the checks on its accounts, then
//! runs its handler.
use vstd::prelude::*;
use crate::errors::{CounterError, InstructionError};
use crate::instructions::counter::{is_increment_task, scheduler_authority, Increment, Initialize, Schedule};
use crate::instructions::cron_reward_distribution::{
    due_time_in_range, is_reward_mint, reward_due, rewarded_count, CronRewardDistribution,
};
use crate::instructions::deposit::{whitelisted_with_vault_mint, Deposit};
use crate::instructions::initialize_extra_account_meta_list::{
    handler as write_extra_account_metas, meta_list_image, InitializeExtraAccountMetaList,
    EXTRA_ACCOUNT_META_LIST_LEN,
};
use crate::instructions::initialize_vault::InitializeVault;
use crate::instructions::remove_whitelist::RemoveWhitelist;
use crate::instructions::schedule_rewards::{
    is_reward_schedule, schedule_rewards_check, RewardSchedule, ScheduleRewards,
};
use crate::instructions::transfer_hook::{
    handler as check_transfer, transfer_accounts_check, transfer_allowed, TransferHook,
};
use crate::instructions::whitelist_user::{signed_by_admin, WhitelistUser};
use crate::instructions::withdraw::Withdraw;
use crate::pubkey::Pubkey;
use crate::scheduler::QueueTask;
use crate::state::{vault_fits, with_user, without_user, Vault, VaultView, Whitelist};
use crate::token::{seeds_view, vault_signer_seeds_spec, MintTo, TransferChecked};

verus! {

/// Creates the counter at zero.
pub fn initialize(ctx: &mut Initialize) -> (r: Result<(), InstructionError>)
    ensures
        r is Ok,
        final(ctx).counter.count == 0,
{
    ctx.initialize();
    Ok(())
}

/// Adds one to the counter.
pub fn increment(ctx: &mut Increment) -> (r: Result<(), InstructionError>)
    requires
        old(ctx).counter.count < u64::MAX,
    ensures
        r is Ok,
        final(ctx).counter.count == old(ctx).counter.count + 1,
{
    ctx.increment_counter();
    Ok(())
}

/// Queues an increment of the counter, when the signer is the account allowed
/// to.
pub fn schedule(ctx: &Schedule, task_id: u16, queue_authority_bump: u8) -> (r: Result<QueueTask, InstructionError>)
    ensures
        r is Ok <==> ctx.user == scheduler_authority(),
        r is Err ==> r == Err::<QueueTask, InstructionError>(InstructionError::ConstraintAddress),
        r matches Ok(task) ==> is_increment_task(task, ctx.counter_key, task_id, queue_authority_bump),
{
    match ctx.validate() {
        Err(e) => Err(e),
        Ok(()) => Ok(ctx.schedule(task_id, queue_authority_bump)),
    }
}

/// Creates the vault, with the time `now` as its last reward time.
pub fn initialize_vault(ctx: &InitializeVault, reward_interval: i64, bump: u8, now: i64) -> (r: Result<Vault, InstructionError>)
    ensures
        r matches Ok(v) && v@ == (VaultView {
            admin: ctx.admin,
            mint: ctx.mint,
            reward_interval,
            last_reward_time: now,
            bump,
            whitelisted_users: Seq::empty(),
        }),
{
    Ok(ctx.initialize_vault(reward_interval, bump, now))
}

/// Puts `user` on the whitelist, when the signer is the vault's admin and the
/// vault has room for the user.
pub fn whitelist_user(ctx: &mut WhitelistUser, user: Pubkey, bump: u8) -> (r: Result<Whitelist, InstructionError>)
    ensures
        final(ctx).admin == old(ctx).admin,
        final(ctx).vault_key == old(ctx).vault_key,
        !signed_by_admin(old(ctx).vault@, old(ctx).admin) ==> {
            &&& r == Err::<Whitelist, InstructionError>(InstructionError::ConstraintHasOne)
            &&& final(ctx).vault@ == old(ctx).vault@
        },
        signed_by_admin(old(ctx).vault@, old(ctx).admin) && vault_fits(with_user(old(ctx).vault@.whitelisted_users, user).len()) ==> {
            &&& r == Ok::<Whitelist, InstructionError>(Whitelist { vault: old(ctx).vault_key, user, is_whitelisted: true, bump })
            &&& final(ctx).vault@ == old(ctx).vault@.with_users(with_user(old(ctx).vault@.whitelisted_users, user))
        },
        signed_by_admin(old(ctx).vault@, old(ctx).admin) && !vault_fits(with_user(old(ctx).vault@.whitelisted_users, user).len()) ==> {
            &&& r == Err::<Whitelist, InstructionError>(InstructionError::AccountDidNotSerialize)
            &&& final(ctx).vault@ == old(ctx).vault@
        },
        old(ctx).vault@.well_formed() ==> final(ctx).vault@.well_formed(),
{
    match ctx.validate() {
        Err(e) => Err(e),
        Ok(()) => ctx.whitelist_user(user, bump),
    }
}

/// Takes the user of the given whitelist record off the whitelist, when the
/// signer is the vault's admin.
pub fn remove_whitelist(ctx: &mut RemoveWhitelist, _user: Pubkey) -> (r: Result<(), InstructionError>)
    ensures
        final(ctx).admin == old(ctx).admin,
        r is Ok <==> signed_by_admin(old(ctx).vault@, old(ctx).admin),
        r is Err ==> {
            &&& r == Err::<(), InstructionError>(InstructionError::ConstraintHasOne)
            &&& final(ctx).vault@ == old(ctx).vault@
            &&& final(ctx).whitelist == old(ctx).whitelist
        },
        r is Ok ==> {
            &&& final(ctx).whitelist == (Whitelist { is_whitelisted: false, ..old(ctx).whitelist })
            &&& final(ctx).vault@ == old(ctx).vault@.with_users(
                without_user(old(ctx).vault@.whitelisted_users, old(ctx).whitelist.user),
            )
        },
        old(ctx).vault@.well_formed() ==> final(ctx).vault@.well_formed(),
{
    match ctx.validate() {
        Err(e) => Err(e),
        Ok(()) => {
            ctx.remove_whitelist();
            Ok(())
        },
    }
}

/// Mints `amount` vault tokens to the signer, when the signer is whitelisted
/// and the mint is the vault's.
pub fn deposit(ctx: &Deposit, amount: u64) -> (r: Result<MintTo, InstructionError>)
    ensures
        r is Ok <==> whitelisted_with_vault_mint(ctx.whitelist, ctx.mint, ctx.vault.mint) is Ok,
        r is Err ==> r == Err::<MintTo, InstructionError>(
            whitelisted_with_vault_mint(ctx.whitelist, ctx.mint, ctx.vault.mint)->Err_0,
        ),
        r matches Ok(m) ==> {
            &&& m.mint == ctx.mint
            &&& m.to == ctx.user_token_account
            &&& m.authority == ctx.vault_key
            &&& m.amount == amount
            &&& seeds_view(m.signer_seeds@) == vault_signer_seeds_spec(ctx.vault.bump)
        },
{
    match ctx.validate() {
        Err(e) => Err(e),
        Ok(()) => Ok(ctx.deposit(amount)),
    }
}

/// Moves `amount` tokens from the signer back to the vault, when the signer is
/// whitelisted and the mint is the vault's.
pub fn withdraw(ctx: &Withdraw, amount: u64) -> (r: Result<TransferChecked, InstructionError>)
    ensures
        r is Ok <==> whitelisted_with_vault_mint(ctx.whitelist, ctx.mint, ctx.vault.mint) is Ok,
        r is Err ==> r == Err::<TransferChecked, InstructionError>(
            whitelisted_with_vault_mint(ctx.whitelist, ctx.mint, ctx.vault.mint)->Err_0,
        ),
        r matches Ok(t) ==> t == (TransferChecked {
            from: ctx.user_token_account,
            mint: ctx.mint,
            to: ctx.vault_token_account,
            authority: ctx.user,
            amount,
            decimals: ctx.mint_decimals,
        }),
{
    match ctx.validate() {
        Err(e) => Err(e),
        Ok(()) => Ok(ctx.withdraw(amount)),
    }
}

/// Writes the list of extra accounts the transfer hook needs.
pub fn initialize_extra_account_meta_list(ctx: &mut InitializeExtraAccountMetaList) -> (r: Result<(), InstructionError>)
    requires
        old(ctx).extra_account_meta_list@.len() >= EXTRA_ACCOUNT_META_LIST_LEN,
    ensures
        r is Ok,
        final(ctx).payer == old(ctx).payer,
        final(ctx).mint == old(ctx).mint,
        final(ctx).extra_account_meta_list@ == meta_list_image()
            + old(ctx).extra_account_meta_list@.skip(EXTRA_ACCOUNT_META_LIST_LEN as int),
{
    write_extra_account_metas(ctx)
}

/// What the transfer hook answers: a refused account check (among them a
/// sender other than the vault with no whitelist record), else success when the
/// vault sends or the sender is whitelisted, else `NotWhitelisted`.
pub open spec fn transfer_hook_result(ctx: TransferHook) -> Result<(), InstructionError> {
    if transfer_accounts_check(ctx) is Err {
        transfer_accounts_check(ctx)
    } else if transfer_allowed(ctx) {
        Ok(())
    } else {
        Err(InstructionError::Program(CounterError::NotWhitelisted))
    }
}

/// Decides whether a transfer of the vault's token may go through.
pub fn transfer_hook(ctx: &TransferHook, amount: u64) -> (r: Result<(), InstructionError>)
    ensures
        r == transfer_hook_result(*ctx),
{
    match ctx.validate() {
        Err(e) => Err(e),
        Ok(()) => check_transfer(ctx, amount),
    }
}

/// What `cron_reward_distribution` answers at `now` on the accounts `ctx`
/// with the token accounts `token_accounts`, and the vault it leaves: refused
/// when the mint is not the vault's or no reward is due, the vault unchanged;
/// else one reward mint per whitelisted user that has a token account, in
/// order, and the last reward time set to `now`.
pub open spec fn reward_outcome(
    ctx: CronRewardDistribution,
    now: i64,
    token_accounts: Seq<Pubkey>,
    r: Result<Vec<MintTo>, InstructionError>,
    vault_after: VaultView,
) -> bool {
    if ctx.mint != ctx.vault.mint {
        &&& r == Err::<Vec<MintTo>, InstructionError>(InstructionError::ConstraintAddress)
        &&& vault_after == ctx.vault@
    } else if !reward_due(ctx.vault@, now) {
        &&& r == Err::<Vec<MintTo>, InstructionError>(InstructionError::Program(CounterError::RewardTooEarly))
        &&& vault_after == ctx.vault@
    } else {
        &&& r is Ok
        &&& vault_after == (VaultView { last_reward_time: now, ..ctx.vault@ })
        &&& r->Ok_0@.len() == rewarded_count(ctx.vault@, token_accounts)
        &&& forall|i: int| 0 <= i < r->Ok_0@.len() ==>
            is_reward_mint(#[trigger] r->Ok_0@[i], ctx, token_accounts, i)
    }
}

/// Distributes the rewards due at `now`, when the mint is the vault's.
pub fn cron_reward_distribution(
    ctx: &mut CronRewardDistribution,
    now: i64,
    remaining_accounts: &Vec<Pubkey>,
) -> (r: Result<Vec<MintTo>, InstructionError>)
    requires
        old(ctx).mint == old(ctx).vault.mint ==> due_time_in_range(old(ctx).vault@),
    ensures
        final(ctx).vault_key == old(ctx).vault_key,
        final(ctx).mint == old(ctx).mint,
        reward_outcome(*old(ctx), now, remaining_accounts@, r, final(ctx).vault@),
{
    match ctx.validate() {
        Err(e) => Err(e),
        Ok(()) => ctx.distribute_rewards(now, remaining_accounts),
    }
}

/// Queues the reward distribution over the given token accounts at once and
/// sets it up to recur on the cron schedule `cron`, when the signer is the
/// vault's admin and the mint is the vault's.
pub fn schedule_rewards(
    ctx: &ScheduleRewards,
    task_id: u16,
    cron: String,
    queue_authority_bump: u8,
    remaining_accounts: &Vec<Pubkey>,
) -> (r: Result<RewardSchedule, InstructionError>)
    requires
        remaining_accounts@.len() < 252,
    ensures
        r is Ok <==> schedule_rewards_check(*ctx) is Ok,
        r is Err ==> r == Err::<RewardSchedule, InstructionError>(schedule_rewards_check(*ctx)->Err_0),
        r matches Ok(s) ==> is_reward_schedule(s, *ctx, remaining_accounts@, task_id, cron@, queue_authority_bump),
{
    match ctx.validate() {
        Err(e) => Err(e),
        Ok(()) => Ok(ctx.schedule_rewards(task_id, cron, queue_authority_bump, remaining_accounts)),
    }
}

} // verus!
