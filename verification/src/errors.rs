//! Errors the program answers with.
use vstd::prelude::*;

verus! {

/// The program's own errors.
#[derive(Clone, Copy, Debug, PartialEq, Eq, Structural)]
pub enum CounterError {
    /// The user is not on the vault's whitelist.
    NotWhitelisted,
    /// The transfer hook was invoked for another program.
    InvalidTransferHookProgram,
    /// The reward interval has not passed since the last distribution.
    RewardTooEarly,
}

impl CounterError {
    /// The numeric code the program reports for this error.
    pub fn code(&self) -> (c: u32)
        ensures
            c == match *self {
                CounterError::NotWhitelisted => 6000u32,
                CounterError::InvalidTransferHookProgram => 6001u32,
                CounterError::RewardTooEarly => 6002u32,
            },
    {
        match self {
            CounterError::NotWhitelisted => 6000,
            CounterError::InvalidTransferHookProgram => 6001,
            CounterError::RewardTooEarly => 6002,
        }
    }

    /// The message the program reports for this error.
    pub fn msg(&self) -> (m: &'static str)
        ensures
            m@ == match *self {
                CounterError::NotWhitelisted => "Not whitelisted"@,
                CounterError::InvalidTransferHookProgram => "Invalid transfer hook program"@,
                CounterError::RewardTooEarly => "Vault reward distribution too early"@,
            },
    {
        match self {
            CounterError::NotWhitelisted => "Not whitelisted",
            CounterError::InvalidTransferHookProgram => "Invalid transfer hook program",
            CounterError::RewardTooEarly => "Vault reward distribution too early",
        }
    }
}

/// Why an instruction is refused: a check on the accounts it was given, one of
/// the program's own errors, or an account that cannot hold its new contents.
#[derive(Clone, Copy, Debug, PartialEq, Eq, Structural)]
pub enum InstructionError {
    /// One of the program's own errors.
    Program(CounterError),
    /// The signer is not the account that the vault names as its admin.
    ConstraintHasOne,
    /// An account is not the one at the address the instruction expects.
    ConstraintAddress,
    /// A token account holds another mint than the one given.
    ConstraintTokenMint,
    /// A token account is owned by another account than the one given.
    ConstraintTokenOwner,
    /// The new contents of an account do not fit in its space.
    AccountDidNotSerialize,
    /// An account the instruction reads was never written.
    AccountNotInitialized,
    /// The seeds of an extra account do not fit in the 32 bytes of its address
    /// configuration.
    SeedConfigsTooLarge,
}

impl InstructionError {
    /// The numeric code reported for this error.
    pub fn code(&self) -> (c: u32)
        ensures
            c == match *self {
                InstructionError::Program(e) => match e {
                    CounterError::NotWhitelisted => 6000u32,
                    CounterError::InvalidTransferHookProgram => 6001u32,
                    CounterError::RewardTooEarly => 6002u32,
                },
                InstructionError::ConstraintHasOne => 2001u32,
                InstructionError::ConstraintAddress => 2012u32,
                InstructionError::ConstraintTokenMint => 2014u32,
                InstructionError::ConstraintTokenOwner => 2015u32,
                InstructionError::AccountDidNotSerialize => 3004u32,
                InstructionError::AccountNotInitialized => 3012u32,
                InstructionError::SeedConfigsTooLarge => 2724315847u32,
            },
    {
        match self {
            InstructionError::Program(e) => e.code(),
            InstructionError::ConstraintHasOne => 2001,
            InstructionError::ConstraintAddress => 2012,
            InstructionError::ConstraintTokenMint => 2014,
            InstructionError::ConstraintTokenOwner => 2015,
            InstructionError::AccountDidNotSerialize => 3004,
            InstructionError::AccountNotInitialized => 3012,
            InstructionError::SeedConfigsTooLarge => 2724315847,
        }
    }
}

} // verus!
