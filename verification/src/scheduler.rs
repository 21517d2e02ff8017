//! Tasks queued on the tuktuk scheduler: the instruction a task runs, compiled
//! into the scheduler's transaction form, and the arguments of the queueing.
use vstd::prelude::*;
use anchor_lang::error::Error as AnchorError;
use anchor_lang::solana_program::instruction::{AccountMeta as RawMeta, Instruction as RawInstruction};
use tuktuk_program::compile_transaction as compile_raw;
use crate::pubkey::Pubkey;

verus! {

/// The error type of `anchor_lang`, `anchor_lang::error::Error`, carried
/// through opaque.
#[verifier::external_type_specification]
#[verifier::external_body]
pub struct ExAnchorError(AnchorError);

/// An account an instruction names, with whether it signs and whether it is
/// written.
#[derive(Clone, Copy, Debug, PartialEq, Eq)]
pub struct AccountMeta {
    pub pubkey: Pubkey,
    pub is_signer: bool,
    pub is_writable: bool,
}

impl AccountMeta {
    /// A writable account.
    pub fn new(pubkey: Pubkey, is_signer: bool) -> (m: AccountMeta)
        ensures
            m == (AccountMeta { pubkey, is_signer, is_writable: true }),
    {
        AccountMeta { pubkey, is_signer, is_writable: true }
    }

    /// A read-only account.
    pub fn new_readonly(pubkey: Pubkey, is_signer: bool) -> (m: AccountMeta)
        ensures
            m == (AccountMeta { pubkey, is_signer, is_writable: false }),
    {
        AccountMeta { pubkey, is_signer, is_writable: false }
    }
}

/// An instruction: the program that runs it, its accounts and its data.
#[derive(Clone, Debug, PartialEq, Eq)]
pub struct Instruction {
    pub program_id: Pubkey,
    pub accounts: Vec<AccountMeta>,
    pub data: Vec<u8>,
}

/// An instruction with its program and accounts given as indices into the
/// account list of its transaction.
#[derive(Clone, Debug, PartialEq, Eq)]
pub struct CompiledInstruction {
    pub program_id_index: u8,
    pub accounts: Vec<u8>,
    pub data: Vec<u8>,
}

/// A transaction in the scheduler's form: its accounts, writable signers
/// first, then read-only signers, then writable accounts, then read-only ones,
/// with the size of the first three groups; its instructions; and seeds for
/// extra signers.
#[derive(Clone, Debug, PartialEq, Eq)]
pub struct CompiledTransaction {
    pub num_rw_signers: u8,
    pub num_ro_signers: u8,
    pub num_rw: u8,
    pub accounts: Vec<Pubkey>,
    pub instructions: Vec<CompiledInstruction>,
    pub signer_seeds: Vec<Vec<Vec<u8>>>,
}

/// When a task runs.
#[derive(Clone, Copy, Debug, PartialEq, Eq)]
pub enum Trigger {
    /// As soon as possible.
    Now,
    /// At or after the given time.
    Timestamp(i64),
}

/// A task to queue: its id, when it runs, the transaction it runs, the reward
/// for the cranker that runs it, the number of free task slots it carries and
/// a description; with the seeds by which this program's queue authority
/// signs the queueing.
#[derive(Clone, Debug, PartialEq, Eq)]
pub struct QueueTask {
    pub id: u16,
    pub trigger: Trigger,
    pub transaction: CompiledTransaction,
    pub crank_reward: Option<u64>,
    pub free_tasks: u8,
    pub description: String,
    pub queue_authority_seeds: Vec<Vec<u8>>,
}

/// A cron job on the tuktuk cron program: the cron schedule on which its
/// transactions run, its name, the free task slots each run carries and how
/// many of its transactions are queued per queueing call.
#[derive(Clone, Debug, PartialEq, Eq)]
pub struct CronJob {
    pub schedule: String,
    pub name: String,
    pub free_tasks_per_transaction: u8,
    pub num_tasks_per_queue_call: u8,
}

/// A transaction added to a cron job at position `index`.
#[derive(Clone, Debug, PartialEq, Eq)]
pub struct CronTransaction {
    pub index: u32,
    pub transaction: CompiledTransaction,
}

/// Whether `k` is the program or one of the accounts of an instruction.
pub open spec fn names_key(program_id: Pubkey, accounts: Seq<AccountMeta>, k: Pubkey) -> bool {
    k == program_id || exists|j: int| 0 <= j < accounts.len() && (#[trigger] accounts[j]).pubkey == k
}

/// Whether some account entry for `k` signs.
pub open spec fn key_signs(accounts: Seq<AccountMeta>, k: Pubkey) -> bool {
    exists|j: int| 0 <= j < accounts.len() && (#[trigger] accounts[j]).pubkey == k && accounts[j].is_signer
}

/// Whether some account entry for `k` is writable.
pub open spec fn key_written(accounts: Seq<AccountMeta>, k: Pubkey) -> bool {
    exists|j: int| 0 <= j < accounts.len() && (#[trigger] accounts[j]).pubkey == k && accounts[j].is_writable
}

/// The group of a key in a compiled transaction: 0 for writable signers,
/// 1 for read-only signers, 2 for writable accounts, 3 for the rest.
pub open spec fn account_group(accounts: Seq<AccountMeta>, k: Pubkey) -> int {
    if key_signs(accounts, k) {
        if key_written(accounts, k) { 0 } else { 1 }
    } else {
        if key_written(accounts, k) { 2 } else { 3 }
    }
}

/// The group that the position `i` of a compiled account list falls in, given
/// the sizes of the first three groups.
pub open spec fn position_group(tx: CompiledTransaction, i: int) -> int {
    if i < tx.num_rw_signers {
        0
    } else if i < tx.num_rw_signers + tx.num_ro_signers {
        1
    } else if i < tx.num_rw_signers + tx.num_ro_signers + tx.num_rw {
        2
    } else {
        3
    }
}

/// `tx` is the instruction of program `program_id` over `accounts` with
/// `data`, compiled alone with no extra signer: its account list holds every
/// key the instruction names once, grouped by how the instruction uses it, and
/// its only instruction points into that list at the program and at each
/// account, in order, with the same data.
pub open spec fn compiled_from(program_id: Pubkey, accounts: Seq<AccountMeta>, data: Seq<u8>, tx: CompiledTransaction) -> bool {
    let keys = tx.accounts@;
    let c = tx.instructions@[0];
    &&& keys.no_duplicates()
    &&& forall|k: Pubkey| #[trigger] keys.contains(k) <==> names_key(program_id, accounts, k)
    &&& forall|i: int| 0 <= i < keys.len() ==> account_group(accounts, #[trigger] keys[i]) == position_group(tx, i)
    &&& tx.num_rw_signers + tx.num_ro_signers + tx.num_rw <= keys.len()
    &&& tx.instructions@.len() == 1
    &&& c.program_id_index < keys.len()
    &&& keys[c.program_id_index as int] == program_id
    &&& c.accounts@.len() == accounts.len()
    &&& forall|j: int| 0 <= j < accounts.len() ==> {
        &&& (#[trigger] c.accounts@[j]) < keys.len()
        &&& keys[c.accounts@[j] as int] == accounts[j].pubkey
    }
    &&& c.data@ == data
    &&& tx.signer_seeds@.len() == 0
}

/// `tuktuk_program::compile_transaction` on the one instruction `ix` and no
/// signer seeds. It never fails. The account list holds each key `ix` names
/// once, grouped by how `ix` uses it, with the group sizes; the instruction
/// points at its program and accounts by their positions in that list and
/// keeps the data. The order of the keys inside one group is left open: it
/// comes from the walk of a hash map.
#[verifier::external_body]
fn compile_single_instruction(ix: &Instruction) -> (r: Result<CompiledTransaction, AnchorError>)
    requires
        ix.accounts@.len() < 255,
    ensures
        r is Ok,
        r matches Ok(tx) ==> compiled_from(ix.program_id, ix.accounts@, ix.data@, tx),
{
    let accounts = ix.accounts.iter().map(|m| RawMeta { pubkey: m.pubkey.bytes.into(), is_signer: m.is_signer, is_writable: m.is_writable }).collect();
    compile_raw(vec![RawInstruction { program_id: ix.program_id.bytes.into(), accounts, data: ix.data.clone() }], vec![]).map(|(tx, _)| CompiledTransaction {
        num_rw_signers: tx.num_rw_signers, num_ro_signers: tx.num_ro_signers, num_rw: tx.num_rw,
        accounts: tx.accounts.iter().map(|k| Pubkey { bytes: k.to_bytes() }).collect(),
        instructions: tx.instructions.into_iter().map(|c| CompiledInstruction { program_id_index: c.program_id_index, accounts: c.accounts, data: c.data }).collect(),
        signer_seeds: tx.signer_seeds,
    })
}

/// Compiles `ix` alone, with no extra signer, into the scheduler's
/// transaction form.
pub fn compile_transaction(ix: &Instruction) -> (tx: CompiledTransaction)
    requires
        ix.accounts@.len() < 255,
    ensures
        compiled_from(ix.program_id, ix.accounts@, ix.data@, tx),
{
    match compile_single_instruction(ix) {
        Ok(tx) => tx,
        Err(_) => {
            assert(false);
            CompiledTransaction {
                num_rw_signers: 0,
                num_ro_signers: 0,
                num_rw: 0,
                accounts: Vec::new(),
                instructions: Vec::new(),
                signer_seeds: Vec::new(),
            }
        },
    }
}

/// The data of an instruction that takes no argument: the eight bytes that
/// select it.
pub fn instruction_data(discriminator: [u8; 8]) -> (d: Vec<u8>)
    ensures
        d@ == discriminator@,
{
    let mut d: Vec<u8> = Vec::new();
    let mut k: usize = 0;
    while k < 8
        invariant
            k <= 8,
            d@ == discriminator@.take(k as int),
        decreases 8 - k,
    {
        d.push(discriminator[k]);
        proof {
            assert(discriminator@.take(k + 1) =~= discriminator@.take(k as int).push(discriminator@[k as int]));
        }
        k = k + 1;
    }
    proof {
        assert(discriminator@.take(8) =~= discriminator@);
    }
    d
}

/// The bytes of `"queue_authority"`.
pub open spec fn queue_authority_seed() -> Seq<u8> {
    seq![113u8, 117u8, 101u8, 117u8, 101u8, 95u8, 97u8, 117u8, 116u8, 104u8, 111u8, 114u8, 105u8, 116u8, 121u8]
}

/// The seeds with which this program's queue authority signs: `"queue_authority"`
/// and its bump.
pub fn queue_authority_seeds(bump: u8) -> (s: Vec<Vec<u8>>)
    ensures
        s@.len() == 2,
        s@[0]@ == queue_authority_seed(),
        s@[1]@ == seq![bump],
{
    let seed: Vec<u8> = vec![113u8, 117u8, 101u8, 117u8, 101u8, 95u8, 97u8, 117u8, 116u8, 104u8, 111u8, 114u8, 105u8, 116u8, 121u8];
    assert(seed@ =~= queue_authority_seed());
    let b: Vec<u8> = vec![bump];
    assert(b@ =~= seq![bump]);
    let mut s: Vec<Vec<u8>> = Vec::new();
    s.push(seed);
    s.push(b);
    s
}

} // verus!
