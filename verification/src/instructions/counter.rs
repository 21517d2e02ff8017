//! The counter: created at zero, incremented by one, and an increment queued
//! on the tuktuk scheduler.
use vstd::prelude::*;
use crate::errors::InstructionError;
use crate::pubkey::{program_id, program_key, Pubkey};
use crate::scheduler::{
    compile_transaction, compiled_from, instruction_data, queue_authority_seed, queue_authority_seeds,
    AccountMeta, QueueTask, Trigger,
};
use crate::state::Counter;

verus! {

/// The instruction data that selects `increment`: the first eight bytes of the
/// SHA-256 of `"global:increment"`.
pub const INCREMENT_DISCRIMINATOR: [u8; 8] = [11, 18, 104, 9, 104, 174, 59, 33];

/// The only account allowed to queue increments.
pub const SCHEDULER_AUTHORITY_BYTES: [u8; 32] = [
    137, 246, 86, 146, 120, 11, 2, 129, 251, 87, 41, 177, 14, 150, 19, 63,
    29, 11, 97, 78, 26, 124, 190, 85, 123, 159, 23, 123, 152, 95, 95, 167,
];

/// Reward, in lamports, for the cranker that runs a queued increment.
pub const INCREMENT_TASK_CRANK_REWARD: u64 = 1000001;

/// The accounts of `initialize`: the counter it creates.
#[derive(Clone, Copy, Debug, PartialEq, Eq)]
pub struct Initialize {
    pub counter: Counter,
}

impl Initialize {
    /// Sets the count to zero.
    pub fn initialize(&mut self)
        ensures
            final(self).counter.count == 0,
    {
        self.counter = Counter { count: 0 };
    }
}

/// The accounts of `increment`: the counter. No signer is needed, so that the
/// scheduler's crankers can run it.
#[derive(Clone, Copy, Debug, PartialEq, Eq)]
pub struct Increment {
    pub counter: Counter,
}

impl Increment {
    /// Adds one to the count.
    pub fn increment_counter(&mut self)
        requires
            old(self).counter.count < u64::MAX,
        ensures
            final(self).counter.count == old(self).counter.count + 1,
    {
        self.counter.count = self.counter.count + 1;
    }
}

/// The accounts of `schedule`, by the values the instruction reads.
#[derive(Clone, Copy, Debug, PartialEq, Eq)]
pub struct Schedule {
    /// The signer, who pays for the task.
    pub user: Pubkey,
    /// Address of the counter account.
    pub counter_key: Pubkey,
}

/// The account allowed to queue increments.
pub open spec fn scheduler_authority() -> Pubkey {
    Pubkey { bytes: SCHEDULER_AUTHORITY_BYTES }
}

/// The accounts of the queued `increment`: the counter, writable, not signing.
pub open spec fn increment_accounts(counter_key: Pubkey) -> Seq<AccountMeta> {
    seq![AccountMeta { pubkey: counter_key, is_signer: false, is_writable: true }]
}

/// `task` runs `increment` on the counter as soon as possible, with id
/// `task_id`, a crank reward of 1000001, one free task slot and the
/// description `"test"`, signed by the queue authority with bump `bump`.
pub open spec fn is_increment_task(task: QueueTask, counter_key: Pubkey, task_id: u16, bump: u8) -> bool {
    &&& task.id == task_id
    &&& task.trigger == Trigger::Now
    &&& compiled_from(program_key(), increment_accounts(counter_key), INCREMENT_DISCRIMINATOR@, task.transaction)
    &&& task.crank_reward == Some(INCREMENT_TASK_CRANK_REWARD)
    &&& task.free_tasks == 1
    &&& task.description@ == "test"@
    &&& task.queue_authority_seeds@.len() == 2
    &&& task.queue_authority_seeds@[0]@ == queue_authority_seed()
    &&& task.queue_authority_seeds@[1]@ == seq![bump]
}

impl Schedule {
    /// The check made on the accounts before the instruction runs: the signer
    /// must be the one account allowed to queue increments.
    pub fn validate(&self) -> (r: Result<(), InstructionError>)
        ensures
            r is Ok <==> self.user == scheduler_authority(),
            r is Err ==> r == Err::<(), InstructionError>(InstructionError::ConstraintAddress),
    {
        let authority = Pubkey { bytes: SCHEDULER_AUTHORITY_BYTES };
        if self.user.same(&authority) {
            Ok(())
        } else {
            Err(InstructionError::ConstraintAddress)
        }
    }

    /// The task that runs `increment` on the counter as soon as possible.
    pub fn schedule(&self, task_id: u16, queue_authority_bump: u8) -> (task: QueueTask)
        ensures
            is_increment_task(task, self.counter_key, task_id, queue_authority_bump),
    {
        let mut accounts: Vec<AccountMeta> = Vec::new();
        accounts.push(AccountMeta::new(self.counter_key, false));
        assert(accounts@ =~= increment_accounts(self.counter_key));
        let ix = crate::scheduler::Instruction {
            program_id: program_id(),
            accounts,
            data: instruction_data(INCREMENT_DISCRIMINATOR),
        };
        let transaction = compile_transaction(&ix);
        QueueTask {
            id: task_id,
            trigger: Trigger::Now,
            transaction,
            crank_reward: Some(INCREMENT_TASK_CRANK_REWARD),
            free_tasks: 1,
            description: "test".to_owned(),
            queue_authority_seeds: queue_authority_seeds(queue_authority_bump),
        }
    }
}

} // verus!
