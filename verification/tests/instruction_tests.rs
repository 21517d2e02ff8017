use spl_tlv_account_resolution::account::ExtraAccountMeta as Packed;
use spl_tlv_account_resolution::seeds::Seed as PackedSeed;
use spl_tlv_account_resolution::state::ExtraAccountMetaList;
use spl_transfer_hook_interface::instruction::ExecuteInstruction;
use tuktuk_counter::errors::{CounterError, InstructionError};
use tuktuk_counter::extra_account_meta::{ExtraAccountMeta, Seed};
use tuktuk_counter::instructions::counter::{
    Increment, Initialize, Schedule, INCREMENT_DISCRIMINATOR, SCHEDULER_AUTHORITY_BYTES,
};
use tuktuk_counter::instructions::cron_reward_distribution::{CronRewardDistribution, REWARD_AMOUNT};
use tuktuk_counter::instructions::deposit::Deposit;
use tuktuk_counter::instructions::initialize_extra_account_meta_list::{
    InitializeExtraAccountMetaList, EXECUTE_DISCRIMINATOR, EXTRA_ACCOUNT_META_LIST_LEN,
};
use tuktuk_counter::instructions::schedule_rewards::{ScheduleRewards, CRON_REWARD_DISTRIBUTION_DISCRIMINATOR};
use tuktuk_counter::instructions::transfer_hook::TransferHook;
use tuktuk_counter::instructions::withdraw::Withdraw;
use tuktuk_counter::pubkey::{program_id, Pubkey};
use tuktuk_counter::scheduler::{CompiledTransaction, Trigger};
use tuktuk_counter::state::{Counter, Vault, Whitelist};
use tuktuk_counter::token::{TokenAccount, TransferChecked};
use tuktuk_counter::tuktuk_counter::{
    cron_reward_distribution, deposit, increment, initialize, initialize_extra_account_meta_list,
    schedule, schedule_rewards, transfer_hook, withdraw,
};

fn key(n: u8) -> Pubkey {
    Pubkey::new_from_array([n; 32])
}

fn vault(users: Vec<Pubkey>) -> Vault {
    let mut v = Vault::new(key(1), key(3), 60, 1000, 254);
    v.whitelisted_users = users;
    v
}

fn record(user: Pubkey, on: bool) -> Whitelist {
    Whitelist { vault: key(2), user, is_whitelisted: on, bump: 9 }
}

fn position(tx: &CompiledTransaction, k: Pubkey) -> usize {
    tx.accounts.iter().position(|a| *a == k).unwrap()
}

#[test]
fn whitelisted_user_deposits() {
    let ctx = Deposit {
        user: key(7),
        vault_key: key(2),
        vault: vault(vec![key(7)]),
        whitelist: record(key(7), true),
        mint: key(3),
        user_token_account: key(70),
    };
    let m = deposit(&ctx, 500).unwrap();
    assert_eq!(m.mint, key(3));
    assert_eq!(m.to, key(70));
    assert_eq!(m.authority, key(2));
    assert_eq!(m.amount, 500);
    assert_eq!(m.signer_seeds, vec![b"vault".to_vec(), vec![254u8]]);
}

#[test]
fn unwhitelisted_user_cannot_deposit() {
    let ctx = Deposit {
        user: key(7),
        vault_key: key(2),
        vault: vault(vec![]),
        whitelist: record(key(7), false),
        mint: key(3),
        user_token_account: key(70),
    };
    assert_eq!(deposit(&ctx, 500), Err(InstructionError::Program(CounterError::NotWhitelisted)));
}

#[test]
fn deposit_refuses_another_mint() {
    let ctx = Deposit {
        user: key(7),
        vault_key: key(2),
        vault: vault(vec![key(7)]),
        whitelist: record(key(7), true),
        mint: key(4),
        user_token_account: key(70),
    };
    assert_eq!(deposit(&ctx, 1), Err(InstructionError::ConstraintAddress));
}

#[test]
fn whitelisted_user_withdraws_to_the_vault() {
    let ctx = Withdraw {
        user: key(7),
        vault: vault(vec![key(7)]),
        whitelist: record(key(7), true),
        mint: key(3),
        mint_decimals: 9,
        user_token_account: key(70),
        vault_token_account: key(20),
    };
    assert_eq!(
        withdraw(&ctx, 42),
        Ok(TransferChecked { from: key(70), mint: key(3), to: key(20), authority: key(7), amount: 42, decimals: 9 })
    );
}

#[test]
fn unwhitelisted_user_cannot_withdraw() {
    let ctx = Withdraw {
        user: key(7),
        vault: vault(vec![]),
        whitelist: record(key(7), false),
        mint: key(4),
        mint_decimals: 9,
        user_token_account: key(70),
        vault_token_account: key(20),
    };
    assert_eq!(withdraw(&ctx, 42), Err(InstructionError::Program(CounterError::NotWhitelisted)));
}

fn hook(owner: Pubkey, on: bool) -> TransferHook {
    TransferHook {
        source: TokenAccount { mint: key(3), owner },
        mint: key(3),
        destination: TokenAccount { mint: key(3), owner: key(8) },
        owner,
        vault_key: key(2),
        source_whitelist: Some(record(owner, on)),
    }
}

#[test]
fn hook_lets_whitelisted_sender_through() {
    assert_eq!(transfer_hook(&hook(key(7), true), 10), Ok(()));
}

#[test]
fn hook_refuses_unwhitelisted_sender() {
    assert_eq!(
        transfer_hook(&hook(key(7), false), 10),
        Err(InstructionError::Program(CounterError::NotWhitelisted))
    );
}

#[test]
fn hook_lets_the_vault_send() {
    assert_eq!(transfer_hook(&hook(key(2), false), 10), Ok(()));
    let mut h = hook(key(2), false);
    h.source_whitelist = None;
    assert_eq!(transfer_hook(&h, 10), Ok(()));
}

#[test]
fn hook_refuses_a_sender_without_record() {
    let mut h = hook(key(7), true);
    h.source_whitelist = None;
    assert_eq!(transfer_hook(&h, 10), Err(InstructionError::AccountNotInitialized));
    assert_eq!(InstructionError::AccountNotInitialized.code(), 3012);
}

#[test]
fn hook_checks_token_accounts() {
    let mut h = hook(key(7), true);
    h.source.owner = key(9);
    assert_eq!(transfer_hook(&h, 10), Err(InstructionError::ConstraintTokenOwner));
    let mut h = hook(key(7), true);
    h.source.mint = key(5);
    assert_eq!(transfer_hook(&h, 10), Err(InstructionError::ConstraintTokenMint));
    let mut h = hook(key(7), true);
    h.destination.mint = key(5);
    assert_eq!(transfer_hook(&h, 10), Err(InstructionError::ConstraintTokenMint));
}

#[test]
fn removed_user_cannot_send() {
    let mut h = hook(key(7), true);
    h.source_whitelist = Some(Whitelist { is_whitelisted: false, ..record(key(7), true) });
    assert!(transfer_hook(&h, 1).is_err());
}

fn cron(users: Vec<Pubkey>) -> CronRewardDistribution {
    CronRewardDistribution { vault_key: key(2), vault: vault(users), mint: key(3) }
}

#[test]
fn rewards_go_to_each_whitelisted_user() {
    let mut ctx = cron(vec![key(7), key(8)]);
    let mints = cron_reward_distribution(&mut ctx, 1060, &vec![key(70), key(80)]).unwrap();
    assert_eq!(mints.len(), 2);
    assert_eq!(mints[0].to, key(70));
    assert_eq!(mints[1].to, key(80));
    for m in &mints {
        assert_eq!(m.amount, REWARD_AMOUNT);
        assert_eq!(m.amount, 100);
        assert_eq!(m.mint, key(3));
        assert_eq!(m.authority, key(2));
        assert_eq!(m.signer_seeds, vec![b"vault".to_vec(), vec![254u8]]);
    }
    assert_eq!(ctx.vault.last_reward_time, 1060);
}

#[test]
fn rewards_stop_at_the_last_token_account_given() {
    let mut ctx = cron(vec![key(7), key(8), key(9)]);
    let mints = cron_reward_distribution(&mut ctx, 2000, &vec![key(70)]).unwrap();
    assert_eq!(mints.len(), 1);
    let mut ctx = cron(vec![key(7)]);
    let mints = cron_reward_distribution(&mut ctx, 2000, &vec![key(70), key(80), key(90)]).unwrap();
    assert_eq!(mints.len(), 1);
    assert_eq!(mints[0].to, key(70));
}

#[test]
fn rewards_are_refused_before_the_interval() {
    let mut ctx = cron(vec![key(7)]);
    assert_eq!(
        cron_reward_distribution(&mut ctx, 1059, &vec![key(70)]),
        Err(InstructionError::Program(CounterError::RewardTooEarly))
    );
    assert_eq!(ctx.vault.last_reward_time, 1000);
}

#[test]
fn no_second_reward_within_the_interval() {
    let mut ctx = cron(vec![key(7)]);
    assert!(cron_reward_distribution(&mut ctx, 1100, &vec![key(70)]).is_ok());
    assert!(cron_reward_distribution(&mut ctx, 1159, &vec![key(70)]).is_err());
    assert!(cron_reward_distribution(&mut ctx, 1160, &vec![key(70)]).is_ok());
    assert_eq!(ctx.vault.last_reward_time, 1160);
}

#[test]
fn rewards_depend_on_vault_time_and_accounts_alone() {
    let mut a = cron(vec![key(7), key(8)]);
    let mut b = cron(vec![key(7), key(8)]);
    let ra = cron_reward_distribution(&mut a, 3000, &vec![key(70), key(80)]);
    let rb = cron_reward_distribution(&mut b, 3000, &vec![key(70), key(80)]);
    assert_eq!(ra, rb);
    assert_eq!(a.vault.last_reward_time, b.vault.last_reward_time);
    assert_eq!(a.vault.whitelisted_users, b.vault.whitelisted_users);
}

#[test]
fn rewards_refuse_another_mint() {
    let mut ctx = cron(vec![key(7)]);
    ctx.mint = key(4);
    assert_eq!(cron_reward_distribution(&mut ctx, 5000, &vec![key(70)]), Err(InstructionError::ConstraintAddress));
    assert_eq!(ctx.vault.last_reward_time, 1000);
}

fn packed_metas() -> Vec<Packed> {
    let whitelist = |index: u8| {
        Packed::new_with_seeds(
            &[
                PackedSeed::Literal { bytes: b"whitelist".to_vec() },
                PackedSeed::AccountKey { index: 5 },
                PackedSeed::AccountKey { index },
            ],
            false,
            false,
        )
        .unwrap()
    };
    vec![
        Packed::new_with_seeds(&[PackedSeed::Literal { bytes: b"vault".to_vec() }], false, false).unwrap(),
        whitelist(3),
        whitelist(2),
    ]
}

#[test]
fn extra_account_list_is_one_execute_entry() {
    let mut ctx = InitializeExtraAccountMetaList { payer: key(1), extra_account_meta_list: vec![0; 121], mint: key(7) };
    assert_eq!(EXTRA_ACCOUNT_META_LIST_LEN, 121);
    assert_eq!(ExtraAccountMetaList::size_of(3).unwrap(), EXTRA_ACCOUNT_META_LIST_LEN);
    initialize_extra_account_meta_list(&mut ctx).unwrap();
    let d = &ctx.extra_account_meta_list;
    assert_eq!(&d[0..8], &EXECUTE_DISCRIMINATOR);
    assert_eq!(&d[0..8], &[105, 37, 101, 197, 75, 251, 102, 26]);
    assert_eq!(&d[8..12], &[109, 0, 0, 0]);
    assert_eq!(&d[12..16], &[3, 0, 0, 0]);
    assert_eq!(&d[16..24], &[1, 1, 5, 118, 97, 117, 108, 116]);
    assert_eq!(&d[24..49], &[0; 25]);
    assert_eq!(&d[49..51], &[0, 0]);
    assert_eq!(&d[51..67], &[1, 1, 9, 119, 104, 105, 116, 101, 108, 105, 115, 116, 3, 5, 3, 3]);
    assert_eq!(&d[86..102], &[1, 1, 9, 119, 104, 105, 116, 101, 108, 105, 115, 116, 3, 5, 3, 2]);
}

#[test]
fn extra_account_list_matches_the_resolution_library() {
    let mut expected = vec![0u8; 121];
    ExtraAccountMetaList::init::<ExecuteInstruction>(&mut expected, &packed_metas()).unwrap();
    let mut ctx = InitializeExtraAccountMetaList { payer: key(1), extra_account_meta_list: vec![0; 121], mint: key(7) };
    initialize_extra_account_meta_list(&mut ctx).unwrap();
    assert_eq!(ctx.extra_account_meta_list, expected);
}

#[test]
fn extra_account_list_leaves_bytes_past_the_entry() {
    let mut ctx = InitializeExtraAccountMetaList { payer: key(1), extra_account_meta_list: vec![0xAA; 124], mint: key(7) };
    initialize_extra_account_meta_list(&mut ctx).unwrap();
    assert_eq!(&ctx.extra_account_meta_list[121..], &[0xAA; 3]);
}

#[test]
fn seeds_past_thirty_two_bytes_are_refused() {
    let fits = vec![Seed::Literal { bytes: vec![7; 30] }];
    let m = ExtraAccountMeta::new_with_seeds(&fits, true, false).unwrap();
    assert_eq!(m.discriminator, 1);
    assert_eq!(m.address_config[0], 1);
    assert_eq!(m.address_config[1], 30);
    assert_eq!(m.is_signer, 1);
    assert_eq!(m.is_writable, 0);
    assert_eq!(m.to_bytes().len(), 35);
    let too_big = vec![Seed::Literal { bytes: vec![7; 29] }, Seed::AccountKey { index: 1 }];
    assert_eq!(ExtraAccountMeta::new_with_seeds(&too_big, false, false), Err(InstructionError::SeedConfigsTooLarge));
}

fn scheduler_ctx() -> ScheduleRewards {
    ScheduleRewards { admin: key(1), vault_key: key(2), vault: vault(vec![]), mint: key(3), token_program: key(6) }
}

#[test]
fn reward_task_runs_cron_reward_distribution() {
    let ctx = scheduler_ctx();
    let atas = vec![key(70), key(80)];
    let schedule = schedule_rewards(&ctx, 4, "0 * * * * *".to_string(), 253, &atas).unwrap();
    let task = schedule.task;
    assert_eq!(task.id, 4);
    assert_eq!(task.trigger, Trigger::Now);
    assert_eq!(task.crank_reward, Some(1000000));
    assert_eq!(task.free_tasks, 0);
    assert_eq!(task.description, "Vault Reward Distribution");
    assert_eq!(task.queue_authority_seeds, vec![b"queue_authority".to_vec(), vec![253u8]]);
    let tx = &task.transaction;
    assert_eq!(tx.accounts.len(), 6);
    assert_eq!(tx.num_rw_signers, 0);
    assert_eq!(tx.num_ro_signers, 0);
    assert_eq!(tx.num_rw, 4);
    for k in [key(2), key(3), key(70), key(80)] {
        assert!(position(tx, k) < 4);
    }
    assert!(position(tx, key(6)) >= 4);
    assert!(position(tx, program_id()) >= 4);
    assert_eq!(tx.instructions.len(), 1);
    let ix = &tx.instructions[0];
    assert_eq!(tx.accounts[ix.program_id_index as usize], program_id());
    let named: Vec<Pubkey> = ix.accounts.iter().map(|i| tx.accounts[*i as usize]).collect();
    assert_eq!(named, vec![key(2), key(3), key(6), key(70), key(80)]);
    assert_eq!(ix.data, CRON_REWARD_DISTRIBUTION_DISCRIMINATOR.to_vec());
    assert!(tx.signer_seeds.is_empty());
}

#[test]
fn rewards_recur_on_the_cron_schedule() {
    let ctx = scheduler_ctx();
    let atas = vec![key(70), key(80)];
    let hourly = schedule_rewards(&ctx, 4, "0 0 * * * *".to_string(), 253, &atas).unwrap();
    let minutely = schedule_rewards(&ctx, 4, "0 * * * * *".to_string(), 253, &atas).unwrap();
    assert_eq!(hourly.cron_job.schedule, "0 0 * * * *");
    assert_eq!(minutely.cron_job.schedule, "0 * * * * *");
    assert_eq!(hourly.cron_job.name, "Vault Reward Distribution");
    assert_eq!(hourly.cron_job.free_tasks_per_transaction, 0);
    assert_eq!(hourly.cron_job.num_tasks_per_queue_call, 1);
    assert_eq!(hourly.cron_transaction.index, 0);
    let tx = &hourly.cron_transaction.transaction;
    assert_eq!(tx.instructions.len(), 1);
    let ix = &tx.instructions[0];
    assert_eq!(tx.accounts[ix.program_id_index as usize], program_id());
    let named: Vec<Pubkey> = ix.accounts.iter().map(|i| tx.accounts[*i as usize]).collect();
    assert_eq!(named, vec![key(2), key(3), key(6), key(70), key(80)]);
    assert_eq!(ix.data, CRON_REWARD_DISTRIBUTION_DISCRIMINATOR.to_vec());
    assert_eq!(tx.num_rw, 4);
}

#[test]
fn reward_task_discriminator_selects_cron_reward_distribution() {
    let h = anchor_lang::solana_program::hash::hash(b"global:cron_reward_distribution").to_bytes();
    assert_eq!(&h[..8], &CRON_REWARD_DISTRIBUTION_DISCRIMINATOR);
    let h = anchor_lang::solana_program::hash::hash(b"global:increment").to_bytes();
    assert_eq!(&h[..8], &INCREMENT_DISCRIMINATOR);
}

#[test]
fn reward_task_needs_the_admin_and_the_vault_mint() {
    let mut ctx = scheduler_ctx();
    ctx.admin = key(9);
    assert_eq!(schedule_rewards(&ctx, 1, String::new(), 1, &vec![]).unwrap_err(), InstructionError::ConstraintHasOne);
    let mut ctx = scheduler_ctx();
    ctx.mint = key(4);
    assert_eq!(schedule_rewards(&ctx, 1, String::new(), 1, &vec![]).unwrap_err(), InstructionError::ConstraintAddress);
}

#[test]
fn counter_starts_at_zero_and_counts_increments() {
    let mut init = Initialize { counter: Counter { count: 41 } };
    initialize(&mut init).unwrap();
    assert_eq!(init.counter.count, 0);
    let mut inc = Increment { counter: init.counter };
    for _ in 0..3 {
        increment(&mut inc).unwrap();
    }
    assert_eq!(inc.counter.count, 3);
}

#[test]
fn increment_task_runs_increment_on_the_counter() {
    let ctx = Schedule { user: Pubkey::new_from_array(SCHEDULER_AUTHORITY_BYTES), counter_key: key(12) };
    let task = schedule(&ctx, 7, 200).unwrap();
    assert_eq!(task.id, 7);
    assert_eq!(task.trigger, Trigger::Now);
    assert_eq!(task.crank_reward, Some(1000001));
    assert_eq!(task.free_tasks, 1);
    assert_eq!(task.description, "test");
    let tx = &task.transaction;
    assert_eq!(tx.accounts.len(), 2);
    assert_eq!(tx.num_rw, 1);
    assert_eq!(tx.accounts[0], key(12));
    assert_eq!(tx.accounts[1], program_id());
    assert_eq!(tx.instructions[0].program_id_index, 1);
    assert_eq!(tx.instructions[0].accounts, vec![0u8]);
    assert_eq!(tx.instructions[0].data, INCREMENT_DISCRIMINATOR.to_vec());
}

#[test]
fn only_the_scheduler_authority_queues_increments() {
    let ctx = Schedule { user: key(5), counter_key: key(12) };
    assert_eq!(schedule(&ctx, 7, 200).unwrap_err(), InstructionError::ConstraintAddress);
}
