//! One module per instruction: the accounts it reads, the checks made on
//! them, and what it does.
pub mod counter;
pub mod cron_reward_distribution;
pub mod deposit;
pub mod initialize_extra_account_meta_list;
pub mod initialize_vault;
pub mod remove_whitelist;
pub mod schedule_rewards;
pub mod transfer_hook;
pub mod whitelist_user;
pub mod withdraw;
