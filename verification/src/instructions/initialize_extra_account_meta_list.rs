//! Writing the list of extra accounts the transfer hook needs: the vault, the
//! whitelist record of the source's owner, and a whitelist record keyed by the
//! destination account. The list is stored as one type-length-value entry
//! under the discriminator of the transfer hook's `Execute` instruction, so
//! that the token program finds it.
use vstd::prelude::*;
use crate::errors::InstructionError;
use crate::extra_account_meta::{
    lemma_packed_seeds_push, literal_lengths_fit, packed_seeds, seed_bytes, ExtraAccountMeta, Seed,
};
use crate::pubkey::Pubkey;
use crate::scheduler::instruction_data;
use crate::token::vault_seed;

verus! {

/// Bytes the extra-account list takes in its account: the 8-byte discriminator
/// of `Execute`, the 4-byte length of the entry, the 4-byte count and 35 bytes
/// for each of the three accounts.
pub const EXTRA_ACCOUNT_META_LIST_LEN: usize = 8 + 4 + 4 + 3 * 35;

/// The discriminator of the transfer hook's `Execute` instruction: the first
/// eight bytes of the SHA-256 of `"spl-transfer-hook-interface:execute"`.
pub const EXECUTE_DISCRIMINATOR: [u8; 8] = [105, 37, 101, 197, 75, 251, 102, 26];

/// The accounts of `initialize_extra_account_meta_list`, by the values it reads
/// and writes.
#[derive(Clone, Debug)]
pub struct InitializeExtraAccountMetaList {
    /// The signer paying for the account.
    pub payer: Pubkey,
    /// The data of the extra-account list account.
    pub extra_account_meta_list: Vec<u8>,
    /// Address of the mint.
    pub mint: Pubkey,
}

/// The bytes of `"whitelist"`.
pub open spec fn whitelist_seed() -> Seq<u8> {
    seq![119u8, 104u8, 105u8, 116u8, 101u8, 108u8, 105u8, 115u8, 116u8]
}

/// `bytes` padded with zeros to 32 bytes.
pub open spec fn padded(bytes: Seq<u8>) -> Seq<u8> {
    bytes + Seq::new((32 - bytes.len()) as nat, |i: int| 0u8)
}

/// The address configuration of the vault: the literal `"vault"`.
pub open spec fn vault_meta_config() -> Seq<u8> {
    padded(seq![1u8, 5u8] + vault_seed())
}

/// The address configuration of a whitelist record: the literal
/// `"whitelist"`, the key of the account at index 5 (the vault) and the key of
/// the account at `index`.
pub open spec fn whitelist_meta_config(index: u8) -> Seq<u8> {
    padded(seq![1u8, 9u8] + whitelist_seed() + seq![3u8, 5u8, 3u8, index])
}

/// A read-only, non-signing extra account with the given address configuration.
pub open spec fn readonly_meta(config: Seq<u8>) -> Seq<u8> {
    seq![1u8] + config + seq![0u8, 0u8]
}

/// The little-endian bytes of a `u32`.
pub open spec fn le_u32(n: u32) -> Seq<u8> {
    seq![(n % 256) as u8, ((n / 256) % 256) as u8, ((n / 65536) % 256) as u8, (n / 16777216) as u8]
}

/// What the instruction writes: the `Execute` discriminator, the length of
/// the entry (109 bytes), the count, three, then the vault, the whitelist
/// record of the source's owner (index 3) and the whitelist record keyed by
/// the destination account (index 2).
pub open spec fn meta_list_image() -> Seq<u8> {
    EXECUTE_DISCRIMINATOR@ + le_u32(109) + le_u32(3) + readonly_meta(vault_meta_config())
        + readonly_meta(whitelist_meta_config(3)) + readonly_meta(whitelist_meta_config(2))
}

/// The little-endian bytes of `n`.
fn le_u32_bytes(n: u32) -> (b: Vec<u8>)
    ensures
        b@ == le_u32(n),
{
    let mut b: Vec<u8> = Vec::new();
    b.push((n % 256) as u8);
    b.push(((n / 256) % 256) as u8);
    b.push(((n / 65536) % 256) as u8);
    b.push((n / 16777216) as u8);
    assert(b@ =~= le_u32(n));
    b
}

/// Overwrites `data` from `offset` with the bytes of `src`.
pub fn write_bytes(data: &mut Vec<u8>, offset: usize, src: &Vec<u8>)
    requires
        offset + src@.len() <= old(data)@.len(),
    ensures
        final(data)@ == old(data)@.take(offset as int) + src@ + old(data)@.skip(offset + src@.len()),
{
    let n = src.len();
    let dlen = data.len();
    let mut i: usize = 0;
    while i < n
        invariant
            n == src@.len(),
            dlen == old(data)@.len(),
            i <= n,
            offset + n <= old(data)@.len(),
            data@ == old(data)@.take(offset as int) + src@.take(i as int) + old(data)@.skip(offset + i),
        decreases n - i,
    {
        data.set(offset + i, src[i]);
        proof {
            assert(data@ =~= old(data)@.take(offset as int) + src@.take(i + 1) + old(data)@.skip(offset + i + 1));
        }
        i = i + 1;
    }
    proof {
        assert(src@.take(n as int) =~= src@);
    }
}

/// The seeds `"whitelist"`, the account at index 5, the account at `index`.
fn whitelist_seeds(index: u8) -> (s: Vec<Seed>)
    ensures
        literal_lengths_fit(s@),
        padded(packed_seeds(s@)) == whitelist_meta_config(index),
        packed_seeds(s@).len() <= 32,
{
    let lit: Vec<u8> = vec![119u8, 104u8, 105u8, 116u8, 101u8, 108u8, 105u8, 115u8, 116u8];
    assert(lit@ =~= whitelist_seed());
    let mut s: Vec<Seed> = Vec::new();
    let ghost e = s@;
    let first = Seed::Literal { bytes: lit };
    proof {
        assert(packed_seeds(e) =~= Seq::<u8>::empty());
        lemma_packed_seeds_push(e, first);
        assert(seed_bytes(first) =~= seq![1u8, 9u8] + whitelist_seed());
    }
    s.push(first);
    let ghost s1 = s@;
    proof {
        lemma_packed_seeds_push(s1, Seed::AccountKey { index: 5 });
    }
    s.push(Seed::AccountKey { index: 5 });
    let ghost s2 = s@;
    proof {
        lemma_packed_seeds_push(s2, Seed::AccountKey { index });
    }
    s.push(Seed::AccountKey { index });
    proof {
        let s0 = s@;
        assert(packed_seeds(s0) =~= seq![1u8, 9u8] + whitelist_seed() + seq![3u8, 5u8, 3u8, index]);
        assert(padded(packed_seeds(s0)) =~= whitelist_meta_config(index));
        assert(literal_lengths_fit(s0));
    }
    s
}

/// The single seed `"vault"`.
fn vault_seeds() -> (s: Vec<Seed>)
    ensures
        literal_lengths_fit(s@),
        padded(packed_seeds(s@)) == vault_meta_config(),
        packed_seeds(s@).len() <= 32,
{
    let lit: Vec<u8> = vec![118u8, 97u8, 117u8, 108u8, 116u8];
    assert(lit@ =~= vault_seed());
    let mut s: Vec<Seed> = Vec::new();
    let ghost e = s@;
    let first = Seed::Literal { bytes: lit };
    proof {
        assert(packed_seeds(e) =~= Seq::<u8>::empty());
        lemma_packed_seeds_push(e, first);
        assert(seed_bytes(first) =~= seq![1u8, 5u8] + vault_seed());
    }
    s.push(first);
    proof {
        let s0 = s@;
        assert(packed_seeds(s0) =~= seq![1u8, 5u8] + vault_seed());
        assert(padded(packed_seeds(s0)) =~= vault_meta_config());
        assert(literal_lengths_fit(s0));
    }
    s
}

/// The stored bytes of the read-only, non-signing extra account found from `seeds`.
fn readonly_meta_bytes(seeds: &Vec<Seed>) -> (b: Vec<u8>)
    requires
        literal_lengths_fit(seeds@),
        packed_seeds(seeds@).len() <= 32,
    ensures
        b@ == readonly_meta(padded(packed_seeds(seeds@))),
{
    match ExtraAccountMeta::new_with_seeds(seeds, false, false) {
        Ok(m) => {
            let b = m.to_bytes();
            assert(b@ =~= readonly_meta(padded(packed_seeds(seeds@))));
            b
        },
        Err(_) => {
            assert(false);
            Vec::new()
        },
    }
}

/// Writes the extra-account list as one entry under the `Execute`
/// discriminator: the discriminator, the entry's length, the count of extra
/// accounts, three, then the 35 bytes of each: the vault (seed `"vault"`), the
/// whitelist record of the source's owner (seeds `"whitelist"`, the vault, the
/// account at index 3) and a whitelist record keyed by the account at index 2,
/// none of them signing or writable. Bytes past the entry stay as they were.
pub fn handler(ctx: &mut InitializeExtraAccountMetaList) -> (r: Result<(), InstructionError>)
    requires
        old(ctx).extra_account_meta_list@.len() >= EXTRA_ACCOUNT_META_LIST_LEN,
    ensures
        r is Ok,
        final(ctx).payer == old(ctx).payer,
        final(ctx).mint == old(ctx).mint,
        final(ctx).extra_account_meta_list@ == meta_list_image()
            + old(ctx).extra_account_meta_list@.skip(EXTRA_ACCOUNT_META_LIST_LEN as int),
{
    let m0 = readonly_meta_bytes(&vault_seeds());
    let m1 = readonly_meta_bytes(&whitelist_seeds(3));
    let m2 = readonly_meta_bytes(&whitelist_seeds(2));
    let discriminator = instruction_data(EXECUTE_DISCRIMINATOR);
    let entry_len = le_u32_bytes(109);
    let count = le_u32_bytes(3);
    let ghost d0 = ctx.extra_account_meta_list@;
    let mut cursor: usize = 0;
    write_bytes(&mut ctx.extra_account_meta_list, cursor, &discriminator);
    cursor = cursor + 8;
    write_bytes(&mut ctx.extra_account_meta_list, cursor, &entry_len);
    cursor = cursor + 4;
    write_bytes(&mut ctx.extra_account_meta_list, cursor, &count);
    cursor = cursor + 4;
    write_bytes(&mut ctx.extra_account_meta_list, cursor, &m0);
    cursor = cursor + 35;
    write_bytes(&mut ctx.extra_account_meta_list, cursor, &m1);
    cursor = cursor + 35;
    write_bytes(&mut ctx.extra_account_meta_list, cursor, &m2);
    assert(ctx.extra_account_meta_list@ =~= meta_list_image() + d0.skip(EXTRA_ACCOUNT_META_LIST_LEN as int));
    Ok(())
}

} // verus!
