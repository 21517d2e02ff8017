//! Queueing the reward distribution as a task on the tuktuk scheduler.
use vstd::prelude::*;
use crate::errors::InstructionError;
use crate::instructions::whitelist_user::signed_by_admin;
use crate::pubkey::{program_id, program_key, Pubkey};
use crate::scheduler::{
    compile_transaction, compiled_from, instruction_data, queue_authority_seed, queue_authority_seeds, AccountMeta,
    CronJob, CronTransaction, Instruction, QueueTask, Trigger,
};
use crate::state::Vault;

verus! {

/// The instruction data that selects `cron_reward_distribution`: the first
/// eight bytes of the SHA-256 of `"global:cron_reward_distribution"`.
pub const CRON_REWARD_DISTRIBUTION_DISCRIMINATOR: [u8; 8] = [106, 70, 225, 219, 36, 119, 253, 253];

/// Reward, in lamports, for the cranker that runs the reward task.
pub const REWARD_TASK_CRANK_REWARD: u64 = 1000000;

/// The name of the cron job that distributes rewards.
pub open spec fn reward_cron_name() -> Seq<char> {
    "Vault Reward Distribution"@
}

/// What `schedule_rewards` asks the scheduler for: a task that distributes
/// rewards at once, and a cron job that distributes them again on the given
/// cron schedule, its one transaction being that distribution.
#[derive(Clone, Debug, PartialEq, Eq)]
pub struct RewardSchedule {
    pub task: QueueTask,
    pub cron_job: CronJob,
    pub cron_transaction: CronTransaction,
}

/// The accounts of `schedule_rewards`, by the values the instruction reads.
#[derive(Clone, Debug)]
pub struct ScheduleRewards {
    /// The signer, who pays for the task.
    pub admin: Pubkey,
    /// Address of the vault account.
    pub vault_key: Pubkey,
    /// The vault.
    pub vault: Vault,
    /// Address of the mint account given.
    pub mint: Pubkey,
    /// Address of the token program.
    pub token_program: Pubkey,
}

/// The accounts of the scheduled `cron_reward_distribution`: the vault and the
/// mint, writable, the token program, read-only, then each of the token
/// accounts to reward, writable; none signing.
pub open spec fn reward_accounts(ctx: ScheduleRewards, token_accounts: Seq<Pubkey>) -> Seq<AccountMeta> {
    seq![
        AccountMeta { pubkey: ctx.vault_key, is_signer: false, is_writable: true },
        AccountMeta { pubkey: ctx.mint, is_signer: false, is_writable: true },
        AccountMeta { pubkey: ctx.token_program, is_signer: false, is_writable: false },
    ] + token_accounts.map_values(|k: Pubkey| AccountMeta { pubkey: k, is_signer: false, is_writable: true })
}

/// The checks made on the accounts before `schedule_rewards` runs: the signer
/// must be the vault's admin, then the mint must be the vault's.
pub open spec fn schedule_rewards_check(ctx: ScheduleRewards) -> Result<(), InstructionError> {
    if !signed_by_admin(ctx.vault@, ctx.admin) {
        Err(InstructionError::ConstraintHasOne)
    } else if ctx.mint != ctx.vault.mint {
        Err(InstructionError::ConstraintAddress)
    } else {
        Ok(())
    }
}

/// `task` runs `cron_reward_distribution` over the given token accounts as
/// soon as possible, with id `task_id`, a crank reward of 1000000, no free
/// task slot and the description `"Vault Reward Distribution"`, signed by the
/// queue authority with bump `bump`.
pub open spec fn is_reward_task(
    task: QueueTask,
    ctx: ScheduleRewards,
    token_accounts: Seq<Pubkey>,
    task_id: u16,
    bump: u8,
) -> bool {
    &&& task.id == task_id
    &&& task.trigger == Trigger::Now
    &&& compiled_from(
        program_key(),
        reward_accounts(ctx, token_accounts),
        CRON_REWARD_DISTRIBUTION_DISCRIMINATOR@,
        task.transaction,
    )
    &&& task.crank_reward == Some(REWARD_TASK_CRANK_REWARD)
    &&& task.free_tasks == 0
    &&& task.description@ == "Vault Reward Distribution"@
    &&& task.queue_authority_seeds@.len() == 2
    &&& task.queue_authority_seeds@[0]@ == queue_authority_seed()
    &&& task.queue_authority_seeds@[1]@ == seq![bump]
}

/// `s` distributes rewards over the given token accounts at once, as the task
/// `task_id`, and then on the cron schedule `cron`: a cron job named
/// `"Vault Reward Distribution"` with that schedule, no free task slot and one
/// transaction queued per call, whose transaction at index 0 is the same
/// `cron_reward_distribution`.
pub open spec fn is_reward_schedule(
    s: RewardSchedule,
    ctx: ScheduleRewards,
    token_accounts: Seq<Pubkey>,
    task_id: u16,
    cron: Seq<char>,
    bump: u8,
) -> bool {
    &&& is_reward_task(s.task, ctx, token_accounts, task_id, bump)
    &&& s.cron_job.schedule@ == cron
    &&& s.cron_job.name@ == reward_cron_name()
    &&& s.cron_job.free_tasks_per_transaction == 0
    &&& s.cron_job.num_tasks_per_queue_call == 1
    &&& s.cron_transaction.index == 0
    &&& compiled_from(
        program_key(),
        reward_accounts(ctx, token_accounts),
        CRON_REWARD_DISTRIBUTION_DISCRIMINATOR@,
        s.cron_transaction.transaction,
    )
}

impl ScheduleRewards {
    /// The checks made on the accounts before the instruction runs.
    pub fn validate(&self) -> (r: Result<(), InstructionError>)
        ensures
            r == schedule_rewards_check(*self),
    {
        if !self.vault.admin.same(&self.admin) {
            Err(InstructionError::ConstraintHasOne)
        } else if !self.mint.same(&self.vault.mint) {
            Err(InstructionError::ConstraintAddress)
        } else {
            Ok(())
        }
    }

    /// The `cron_reward_distribution` instruction over the given token accounts.
    pub fn reward_distribution_instruction(&self, remaining_accounts: &Vec<Pubkey>) -> (ix: Instruction)
        ensures
            ix.program_id == program_key(),
            ix.accounts@ == reward_accounts(*self, remaining_accounts@),
            ix.data@ == CRON_REWARD_DISTRIBUTION_DISCRIMINATOR@,
    {
        let mut accounts: Vec<AccountMeta> = Vec::new();
        accounts.push(AccountMeta::new(self.vault_key, false));
        accounts.push(AccountMeta::new(self.mint, false));
        accounts.push(AccountMeta::new_readonly(self.token_program, false));
        let n = remaining_accounts.len();
        let mut i: usize = 0;
        while i < n
            invariant
                n == remaining_accounts@.len(),
                i <= n,
                accounts@ == reward_accounts(*self, remaining_accounts@.take(i as int)),
            decreases n - i,
        {
            accounts.push(AccountMeta::new(remaining_accounts[i], false));
            proof {
                assert(remaining_accounts@.take(i + 1) =~= remaining_accounts@.take(i as int).push(remaining_accounts@[i as int]));
                assert(accounts@ =~= reward_accounts(*self, remaining_accounts@.take(i + 1)));
            }
            i = i + 1;
        }
        proof {
            assert(remaining_accounts@.take(n as int) =~= remaining_accounts@);
        }
        let data = instruction_data(CRON_REWARD_DISTRIBUTION_DISCRIMINATOR);
        Instruction { program_id: program_id(), accounts, data }
    }

    /// The reward distribution over the given token accounts, queued to run
    /// at once and set up as a cron job that runs it on the cron schedule
    /// `cron`. The instruction's accounts must fit in one transaction's
    /// account list.
    pub fn schedule_rewards(
        &self,
        task_id: u16,
        cron: String,
        queue_authority_bump: u8,
        remaining_accounts: &Vec<Pubkey>,
    ) -> (s: RewardSchedule)
        requires
            remaining_accounts@.len() < 252,
        ensures
            is_reward_schedule(s, *self, remaining_accounts@, task_id, cron@, queue_authority_bump),
    {
        let ix = self.reward_distribution_instruction(remaining_accounts);
        let task = QueueTask {
            id: task_id,
            trigger: Trigger::Now,
            transaction: compile_transaction(&ix),
            crank_reward: Some(REWARD_TASK_CRANK_REWARD),
            free_tasks: 0,
            description: "Vault Reward Distribution".to_owned(),
            queue_authority_seeds: queue_authority_seeds(queue_authority_bump),
        };
        let cron_job = CronJob {
            schedule: cron,
            name: "Vault Reward Distribution".to_owned(),
            free_tasks_per_transaction: 0,
            num_tasks_per_queue_call: 1,
        };
        let cron_transaction = CronTransaction { index: 0, transaction: compile_transaction(&ix) };
        RewardSchedule { task, cron_job, cron_transaction }
    }
}

} // verus!
