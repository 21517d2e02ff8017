//! Whitelist-gated token vault with scheduled reward distribution and a
//! schedulable counter. Every instruction of the on-chain program is a
//! function here from the plain contents of its accounts to the new contents
//! and the token or scheduler calls it asks for.
pub mod errors;
pub mod extra_account_meta;
pub mod pubkey;
pub mod scheduler;
pub mod state;
pub mod token;
pub mod tuktuk_counter;
pub mod instructions;
pub mod laws;
