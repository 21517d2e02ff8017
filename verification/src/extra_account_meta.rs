//! Extra accounts a transfer-hook program asks for, each found from seeds, and
//! the 35 bytes in which each is stored.
use vstd::prelude::*;
use crate::errors::InstructionError;
use anchor_lang::solana_program::program_error::ProgramError;
use spl_tlv_account_resolution::account::ExtraAccountMeta as PackedMeta;
use spl_tlv_account_resolution::seeds::Seed as PackedSeed;

verus! {

/// The error type of the Solana runtime, `solana_program_error::ProgramError`,
/// carried through opaque.
#[verifier::external_type_specification]
#[verifier::external_body]
pub struct ExProgramError(ProgramError);

/// One seed of a program-derived address.
#[derive(Clone, Debug, PartialEq, Eq)]
pub enum Seed {
    /// Bytes written into the program.
    Literal { bytes: Vec<u8> },
    /// The address of the account at `index` in the instruction's account list.
    AccountKey { index: u8 },
}

/// The bytes that stand for one seed: `1`, the length and the bytes of a
/// literal; `3` and the index of an account key.
pub open spec fn seed_bytes(s: Seed) -> Seq<u8> {
    match s {
        Seed::Literal { bytes } => seq![1u8, bytes@.len() as u8] + bytes@,
        Seed::AccountKey { index } => seq![3u8, index],
    }
}

/// The bytes of the seeds one after the other.
pub open spec fn packed_seeds(seeds: Seq<Seed>) -> Seq<u8>
    decreases seeds.len(),
{
    if seeds.len() == 0 {
        Seq::empty()
    } else {
        packed_seeds(seeds.drop_last()) + seed_bytes(seeds.last())
    }
}

/// Appending a seed appends its bytes.
pub proof fn lemma_packed_seeds_push(seeds: Seq<Seed>, s: Seed)
    ensures
        packed_seeds(seeds.push(s)) == packed_seeds(seeds) + seed_bytes(s),
{
    assert(seeds.push(s).drop_last() =~= seeds);
}

/// The 32-byte address configuration of the seeds: their bytes, then zeros.
pub open spec fn address_config(seeds: Seq<Seed>) -> Seq<u8> {
    packed_seeds(seeds) + Seq::new((32 - packed_seeds(seeds).len()) as nat, |i: int| 0u8)
}

/// A literal seed is at most 253 bytes long, so that its size fits in a byte.
pub open spec fn literal_lengths_fit(seeds: Seq<Seed>) -> bool {
    forall|i: int| 0 <= i < seeds.len() ==> (#[trigger] seeds[i] matches Seed::Literal { bytes } ==> bytes@.len() <= 253)
}

/// `1` for true, `0` for false.
pub open spec fn flag_byte(b: bool) -> u8 {
    if b { 1 } else { 0 }
}

/// An extra account: its kind (`1` for one found from seeds), its address
/// configuration, and whether it signs and is writable, each as a byte.
#[derive(Clone, Copy, Debug, PartialEq, Eq)]
pub struct ExtraAccountMeta {
    pub discriminator: u8,
    pub address_config: [u8; 32],
    pub is_signer: u8,
    pub is_writable: u8,
}

/// The 35 bytes of an extra account, in the order of its fields.
pub open spec fn meta_bytes(m: ExtraAccountMeta) -> Seq<u8> {
    seq![m.discriminator] + m.address_config@ + seq![m.is_signer, m.is_writable]
}

/// The extra account found from `seeds`.
pub open spec fn meta_with_seeds(seeds: Seq<Seed>, is_signer: bool, is_writable: bool) -> Seq<u8> {
    seq![1u8] + address_config(seeds) + seq![flag_byte(is_signer), flag_byte(is_writable)]
}

/// `spl_tlv_account_resolution::account::ExtraAccountMeta::new_with_seeds`:
/// an extra account of kind `1` whose address configuration is the seeds'
/// bytes one after the other, padded with zeros to 32 bytes, with the two
/// flags stored as `1` or `0`; an error when the seeds' bytes exceed 32.
#[verifier::external_body]
fn packed_meta_with_seeds(seeds: &Vec<Seed>, is_signer: bool, is_writable: bool) -> (r: Result<ExtraAccountMeta, ProgramError>)
    requires
        literal_lengths_fit(seeds@),
    ensures
        r is Ok <==> packed_seeds(seeds@).len() <= 32,
        r matches Ok(m) ==> {
            &&& m.discriminator == 1
            &&& m.address_config@ == address_config(seeds@)
            &&& m.is_signer == flag_byte(is_signer)
            &&& m.is_writable == flag_byte(is_writable)
        },
{
    let packed: Vec<PackedSeed> = seeds.iter().map(|s| match s {
        Seed::Literal { bytes } => PackedSeed::Literal { bytes: bytes.clone() },
        Seed::AccountKey { index } => PackedSeed::AccountKey { index: *index },
    }).collect();
    let m = PackedMeta::new_with_seeds(&packed, is_signer, is_writable)?;
    Ok(ExtraAccountMeta { discriminator: m.discriminator, address_config: m.address_config, is_signer: m.is_signer.0, is_writable: m.is_writable.0 })
}

impl ExtraAccountMeta {
    /// The extra account found from `seeds`; refused when the seeds' bytes
    /// exceed the 32 bytes of an address configuration.
    pub fn new_with_seeds(seeds: &Vec<Seed>, is_signer: bool, is_writable: bool) -> (r: Result<ExtraAccountMeta, InstructionError>)
        requires
            literal_lengths_fit(seeds@),
        ensures
            r is Ok <==> packed_seeds(seeds@).len() <= 32,
            r is Err ==> r == Err::<ExtraAccountMeta, InstructionError>(InstructionError::SeedConfigsTooLarge),
            r matches Ok(m) ==> meta_bytes(m) == meta_with_seeds(seeds@, is_signer, is_writable),
    {
        match packed_meta_with_seeds(seeds, is_signer, is_writable) {
            Ok(m) => {
                assert(meta_bytes(m) =~= meta_with_seeds(seeds@, is_signer, is_writable));
                Ok(m)
            },
            Err(_) => Err(InstructionError::SeedConfigsTooLarge),
        }
    }

    /// The 35 bytes that store the extra account.
    pub fn to_bytes(&self) -> (b: Vec<u8>)
        ensures
            b@ == meta_bytes(*self),
    {
        let mut b: Vec<u8> = Vec::new();
        b.push(self.discriminator);
        let mut i: usize = 0;
        while i < 32
            invariant
                i <= 32,
                b@ == seq![self.discriminator] + self.address_config@.take(i as int),
            decreases 32 - i,
        {
            b.push(self.address_config[i]);
            proof {
                assert(self.address_config@.take(i + 1) =~= self.address_config@.take(i as int).push(self.address_config@[i as int]));
            }
            i = i + 1;
        }
        b.push(self.is_signer);
        b.push(self.is_writable);
        assert(self.address_config@.take(32) =~= self.address_config@);
        assert(b@ =~= meta_bytes(*self));
        b
    }
}

} // verus!
