//! Calls the program asks the token program to make on its behalf.
use vstd::prelude::*;
use crate::pubkey::Pubkey;

verus! {

/// The seed of the vault's address: the bytes of `"vault"`.
pub open spec fn vault_seed() -> Seq<u8> {
    seq![118u8, 97u8, 117u8, 108u8, 116u8]
}

/// The seeds with which the vault signs: `"vault"` and its bump.
pub open spec fn vault_signer_seeds_spec(bump: u8) -> Seq<Seq<u8>> {
    seq![vault_seed(), seq![bump]]
}

/// A list of byte strings as mathematical values.
pub open spec fn seeds_view(s: Seq<Vec<u8>>) -> Seq<Seq<u8>> {
    s.map_values(|v: Vec<u8>| v@)
}

/// The seeds with which the vault signs: `"vault"` and its bump.
pub fn vault_signer_seeds(bump: u8) -> (s: Vec<Vec<u8>>)
    ensures
        seeds_view(s@) == vault_signer_seeds_spec(bump),
{
    let seed: Vec<u8> = vec![118u8, 97u8, 117u8, 108u8, 116u8];
    let b: Vec<u8> = vec![bump];
    assert(seed@ =~= vault_seed());
    assert(b@ =~= seq![bump]);
    let mut s: Vec<Vec<u8>> = Vec::new();
    s.push(seed);
    s.push(b);
    assert(seeds_view(s@) =~= vault_signer_seeds_spec(bump));
    s
}

/// What the program reads of a token account: its mint and its owner.
#[derive(Clone, Copy, Debug, PartialEq, Eq)]
pub struct TokenAccount {
    pub mint: Pubkey,
    pub owner: Pubkey,
}

/// Mint `amount` tokens of `mint` into the token account `to`, with
/// `authority` signing by the seeds `signer_seeds`.
#[derive(Clone, Debug, PartialEq, Eq)]
pub struct MintTo {
    pub mint: Pubkey,
    pub to: Pubkey,
    pub authority: Pubkey,
    pub amount: u64,
    pub signer_seeds: Vec<Vec<u8>>,
}

/// Move `amount` tokens of `mint`, which has `decimals` decimals, from the
/// token account `from` to the token account `to`, signed by `authority`.
#[derive(Clone, Copy, Debug, PartialEq, Eq)]
pub struct TransferChecked {
    pub from: Pubkey,
    pub mint: Pubkey,
    pub to: Pubkey,
    pub authority: Pubkey,
    pub amount: u64,
    pub decimals: u8,
}

} // verus!
