//! Properties of the program that span several instructions or calls.
use vstd::prelude::*;
use crate::errors::{CounterError, InstructionError};
use crate::instructions::cron_reward_distribution::{is_reward_mint, reward_due};
use crate::instructions::deposit::whitelisted_with_vault_mint;
use crate::instructions::transfer_hook::{transfer_accounts_check, TransferHook};
use crate::pubkey::Pubkey;
use crate::state::{other_than, with_user, without_user, VaultView, Whitelist};
use crate::instructions::cron_reward_distribution::CronRewardDistribution;
use crate::token::{seeds_view, MintTo, TokenAccount};
use crate::tuktuk_counter::{reward_outcome, transfer_hook_result};
use crate::instructions::cron_reward_distribution::rewarded_count;
use crate::instructions::schedule_rewards::{schedule_rewards_check, ScheduleRewards};
use crate::instructions::whitelist_user::signed_by_admin;
use crate::state::vault_fits;
use crate::instructions::initialize_extra_account_meta_list::meta_list_image;
use crate::instructions::schedule_rewards::reward_accounts;
use crate::scheduler::AccountMeta;

verus! {

/// A user who has been whitelisted is on the vault's list.
pub proof fn lemma_whitelisted_user_is_listed(users: Seq<Pubkey>, user: Pubkey)
    ensures
        with_user(users, user).contains(user),
{
    if !users.contains(user) {
        assert(users.push(user)[users.len() as int] == user);
    }
}

/// Whitelisting a user twice leaves the list as whitelisting once.
pub proof fn lemma_whitelist_is_idempotent(users: Seq<Pubkey>, user: Pubkey)
    ensures
        with_user(with_user(users, user), user) == with_user(users, user),
{
    lemma_whitelisted_user_is_listed(users, user);
}

/// A removed user is no longer on the list, and every other user is on it
/// exactly when it was before.
pub proof fn lemma_removed_user_is_delisted(users: Seq<Pubkey>, user: Pubkey, other: Pubkey)
    ensures
        !without_user(users, user).contains(user),
        other != user ==> (without_user(users, other).contains(user) == users.contains(user)),
{
    users.filter_lemma(other_than(user));
    users.filter_lemma(other_than(other));
    if without_user(users, user).contains(user) {
        let k = choose|k: int| 0 <= k < without_user(users, user).len() && without_user(users, user)[k] == user;
        assert(other_than(user)(without_user(users, user)[k]));
    }
    if other != user && users.contains(user) {
        let k = choose|k: int| 0 <= k < users.len() && users[k] == user;
        assert(other_than(other)(users[k]));
        assert(without_user(users, other).contains(users[k]));
    }
    if other != user && without_user(users, other).contains(user) {
        users.lemma_filter_contains_rev(other_than(other), user);
    }
}

/// Whitelisting a user who is not on the list and then removing it gives back
/// the list as it was.
pub proof fn lemma_remove_undoes_whitelist(users: Seq<Pubkey>, user: Pubkey)
    requires
        !users.contains(user),
    ensures
        without_user(with_user(users, user), user) == users,
{
    let p = other_than(user);
    users.lemma_filter_push(user, p);
    lemma_filter_keeps_all(users, p);
}

/// Filtering keeps a list whole when every element passes.
proof fn lemma_filter_keeps_all(s: Seq<Pubkey>, p: spec_fn(Pubkey) -> bool)
    requires
        forall|i: int| 0 <= i < s.len() ==> p(#[trigger] s[i]),
    ensures
        s.filter(p) == s,
    decreases s.len(),
{
    if s.len() > 0 {
        let init = s.drop_last();
        assert(init.push(s.last()) =~= s);
        lemma_filter_keeps_all(init, p);
        init.lemma_filter_push(s.last(), p);
    } else {
        assert(s.filter(p) =~= s) by {
            s.lemma_filter_len(p);
        }
    }
}

/// Once a reward has been distributed at `paid_at`, no further one is due
/// before the reward interval has passed again.
pub proof fn lemma_no_second_reward_within_interval(vault: VaultView, paid_at: i64, now: i64)
    requires
        now < paid_at + vault.reward_interval,
    ensures
        !reward_due(VaultView { last_reward_time: paid_at, ..vault }, now),
{
}

/// A user whose whitelist record has been marked not whitelisted can no longer
/// send the vault's token: the transfer hook refuses every transfer from it
/// that the vault does not send.
pub proof fn lemma_removed_user_cannot_send(ctx: TransferHook, record: Whitelist)
    requires
        ctx.source_whitelist == Some(Whitelist { is_whitelisted: false, ..record }),
        ctx.owner != ctx.vault_key,
    ensures
        transfer_hook_result(ctx) is Err,
        transfer_accounts_check(ctx) is Ok ==> transfer_hook_result(ctx) == Err::<(), InstructionError>(
            InstructionError::Program(CounterError::NotWhitelisted),
        ),
{
}

/// The record written when a user is whitelisted lets that user deposit and
/// withdraw with the vault's mint; the record left after removal does not.
pub proof fn lemma_whitelist_record_gates_deposits(record: Whitelist, vault_mint: Pubkey)
    ensures
        whitelisted_with_vault_mint(Whitelist { is_whitelisted: true, ..record }, vault_mint, vault_mint) is Ok,
        whitelisted_with_vault_mint(Whitelist { is_whitelisted: false, ..record }, vault_mint, vault_mint)
            == Err::<(), InstructionError>(InstructionError::Program(CounterError::NotWhitelisted)),
{
}

/// A transfer the vault itself sends always goes through, once the token
/// accounts given check out, whether or not the vault has a whitelist record.
pub proof fn lemma_vault_transfers_allowed(ctx: TransferHook)
    requires
        ctx.owner == ctx.vault_key,
        transfer_accounts_check(ctx) is Ok,
    ensures
        transfer_hook_result(ctx) == Ok::<(), InstructionError>(()),
{
}

/// A sender other than the vault that never had a whitelist record cannot send
/// the vault's token: its record is an account never written.
pub proof fn lemma_sender_without_record_cannot_send(ctx: TransferHook)
    requires
        ctx.owner != ctx.vault_key,
        ctx.source_whitelist is None,
    ensures
        transfer_hook_result(ctx) == Err::<(), InstructionError>(InstructionError::AccountNotInitialized),
{
}

/// The whitelist records and the vault's list agree: a user is on the list
/// exactly when the user has a record and it says whitelisted.
pub open spec fn list_matches_records(users: Seq<Pubkey>, records: Map<Pubkey, bool>) -> bool {
    forall|k: Pubkey| #[trigger] users.contains(k) <==> (records.contains_key(k) && records[k])
}

/// Whitelisting a user writes a record saying whitelisted and lists the user;
/// removing one writes a record saying not whitelisted and delists the user.
/// Either way the list and the records keep agreeing.
pub proof fn lemma_list_and_records_stay_in_step(users: Seq<Pubkey>, records: Map<Pubkey, bool>, user: Pubkey)
    requires
        list_matches_records(users, records),
    ensures
        list_matches_records(with_user(users, user), records.insert(user, true)),
        list_matches_records(without_user(users, user), records.insert(user, false)),
{
    lemma_whitelisted_user_is_listed(users, user);
    assert forall|k: Pubkey| #[trigger] with_user(users, user).contains(k) <==> (records.insert(user, true).contains_key(k) && records.insert(user, true)[k]) by {
        if k != user && !users.contains(user) {
            if users.push(user).contains(k) {
                let i = choose|i: int| 0 <= i < users.push(user).len() && users.push(user)[i] == k;
                assert(users[i] == k);
            }
            if users.contains(k) {
                let i = choose|i: int| 0 <= i < users.len() && users[i] == k;
                assert(users.push(user)[i] == k);
            }
        }
    }
    assert forall|k: Pubkey| #[trigger] without_user(users, user).contains(k) <==> (records.insert(user, false).contains_key(k) && records.insert(user, false)[k]) by {
        lemma_removed_user_is_delisted(users, user, k);
        lemma_removed_user_is_delisted(users, k, user);
    }
}

/// The mints of a reward as mathematical values.
pub open spec fn mint_view(m: MintTo) -> (Pubkey, Pubkey, Pubkey, u64, Seq<Seq<u8>>) {
    (m.mint, m.to, m.authority, m.amount, seeds_view(m.signer_seeds@))
}

/// Rewards depend on the vault's state, the time and the token accounts given
/// alone: two distributions on the same vault, mint and vault address, at the
/// same time and with the same token accounts, give the same answer, the same
/// mints and the same new vault.
pub proof fn lemma_rewards_are_determined(
    ctx1: CronRewardDistribution,
    ctx2: CronRewardDistribution,
    now: i64,
    token_accounts: Seq<Pubkey>,
    r1: Result<Vec<MintTo>, InstructionError>,
    r2: Result<Vec<MintTo>, InstructionError>,
    after1: VaultView,
    after2: VaultView,
)
    requires
        ctx1.vault@ == ctx2.vault@,
        ctx1.mint == ctx2.mint,
        ctx1.vault_key == ctx2.vault_key,
        reward_outcome(ctx1, now, token_accounts, r1, after1),
        reward_outcome(ctx2, now, token_accounts, r2, after2),
    ensures
        after1 == after2,
        r1 is Ok <==> r2 is Ok,
        r1 is Err ==> r1 == r2,
        r1 is Ok ==> r1->Ok_0@.map_values(|m: MintTo| mint_view(m)) == r2->Ok_0@.map_values(|m: MintTo| mint_view(m)),
{
    if r1 is Ok {
        let s1 = r1->Ok_0@.map_values(|m: MintTo| mint_view(m));
        let s2 = r2->Ok_0@.map_values(|m: MintTo| mint_view(m));
        assert forall|i: int| 0 <= i < s1.len() implies s1[i] == s2[i] by {
            assert(is_reward_mint(r1->Ok_0@[i], ctx1, token_accounts, i));
            assert(is_reward_mint(r2->Ok_0@[i], ctx2, token_accounts, i));
        }
        assert(s1 =~= s2);
    }
}

/// The transfer hook's answer, by the accounts alone: a sender other than the
/// vault without record is refused as an account never written; then the
/// source must be owned by the sender and hold the mint, and the destination
/// hold the mint; then the transfer goes through exactly when the vault sends
/// it or the sender's record says whitelisted. Where the tokens go plays no
/// part beyond the destination's mint: a whitelisted user may send into the
/// vault's own token account, as every withdrawal does.
pub proof fn lemma_transfer_hook_answer(ctx: TransferHook)
    ensures
        ctx.owner != ctx.vault_key && ctx.source_whitelist is None ==>
            transfer_hook_result(ctx) == Err::<(), InstructionError>(InstructionError::AccountNotInitialized),
        (ctx.owner == ctx.vault_key || ctx.source_whitelist is Some) && ctx.source.owner != ctx.owner ==>
            transfer_hook_result(ctx) == Err::<(), InstructionError>(InstructionError::ConstraintTokenOwner),
        (ctx.owner == ctx.vault_key || ctx.source_whitelist is Some) && ctx.source.owner == ctx.owner
            && (ctx.source.mint != ctx.mint || ctx.destination.mint != ctx.mint) ==>
            transfer_hook_result(ctx) == Err::<(), InstructionError>(InstructionError::ConstraintTokenMint),
        ctx.source.owner == ctx.owner && ctx.source.mint == ctx.mint && ctx.destination.mint == ctx.mint ==> {
            &&& ctx.owner == ctx.vault_key ==> transfer_hook_result(ctx) == Ok::<(), InstructionError>(())
            &&& (ctx.source_whitelist matches Some(w) && w.is_whitelisted) ==>
                transfer_hook_result(ctx) == Ok::<(), InstructionError>(())
            &&& (ctx.owner != ctx.vault_key && (ctx.source_whitelist matches Some(w) && !w.is_whitelisted)) ==>
                transfer_hook_result(ctx) == Err::<(), InstructionError>(
                    InstructionError::Program(CounterError::NotWhitelisted),
                )
        },
{
}

/// A whitelisted sender's transfer goes through whatever account receives it,
/// once the token accounts check out: the answer is the same for any two
/// destinations holding the mint.
pub proof fn lemma_destination_plays_no_part(ctx: TransferHook, other: TokenAccount)
    requires
        other.mint == ctx.mint,
        ctx.destination.mint == ctx.mint,
    ensures
        transfer_hook_result(TransferHook { destination: other, ..ctx }) == transfer_hook_result(ctx),
{
}

/// The admin check of `whitelist_user`, `remove_whitelist` and
/// `schedule_rewards`: the signer passes exactly when it is the admin the
/// vault names, whatever else the vault holds.
pub proof fn lemma_admin_check_is_the_named_admin(vault: VaultView, signer: Pubkey)
    ensures
        signed_by_admin(vault, signer) <==> vault.admin == signer,
        forall|other: VaultView| other.admin == vault.admin ==> signed_by_admin(other, signer) == signed_by_admin(vault, signer),
{
}

/// `schedule_rewards` is refused exactly when the signer is not the vault's
/// admin (with `ConstraintHasOne`) or, failing that, the mint is not the
/// vault's (with `ConstraintAddress`), whatever users the vault lists.
pub proof fn lemma_schedule_rewards_check(ctx: ScheduleRewards)
    ensures
        schedule_rewards_check(ctx) is Ok <==> ctx.admin == ctx.vault.admin && ctx.mint == ctx.vault.mint,
        ctx.admin != ctx.vault.admin ==>
            schedule_rewards_check(ctx) == Err::<(), InstructionError>(InstructionError::ConstraintHasOne),
        ctx.admin == ctx.vault.admin && ctx.mint != ctx.vault.mint ==>
            schedule_rewards_check(ctx) == Err::<(), InstructionError>(InstructionError::ConstraintAddress),
{
}

/// The number of users rewarded is the smaller of the number of whitelisted
/// users and the number of token accounts given.
pub proof fn lemma_rewarded_count_is_the_smaller(vault: VaultView, token_accounts: Seq<Pubkey>)
    ensures
        rewarded_count(vault, token_accounts) <= vault.whitelisted_users.len(),
        rewarded_count(vault, token_accounts) <= token_accounts.len(),
        rewarded_count(vault, token_accounts) == vault.whitelisted_users.len()
            || rewarded_count(vault, token_accounts) == token_accounts.len(),
{
}

/// A reward distribution, by its inputs: refused unless the mint is the
/// vault's and the interval has passed since the last reward; when it goes
/// through, every whitelisted user at position `i` for which a token account
/// was given gets 100 tokens in the `i`-th token account, minted by the vault
/// signing with `"vault"` and its bump, nothing else is minted, and only the
/// last reward time changes, to `now`.
pub proof fn lemma_reward_distribution(
    ctx: CronRewardDistribution,
    now: i64,
    token_accounts: Seq<Pubkey>,
    r: Result<Vec<MintTo>, InstructionError>,
    after: VaultView,
)
    requires
        reward_outcome(ctx, now, token_accounts, r, after),
    ensures
        r is Ok <==> ctx.mint == ctx.vault.mint && now - ctx.vault.last_reward_time >= ctx.vault.reward_interval,
        r is Err ==> after == ctx.vault@,
        r matches Ok(mints) ==> {
            &&& after.last_reward_time == now
            &&& after.admin == ctx.vault.admin
            &&& after.mint == ctx.vault.mint
            &&& after.reward_interval == ctx.vault.reward_interval
            &&& after.bump == ctx.vault.bump
            &&& after.whitelisted_users == ctx.vault@.whitelisted_users
            &&& mints@.len() <= token_accounts.len()
            &&& mints@.len() <= ctx.vault@.whitelisted_users.len()
            &&& forall|i: int| 0 <= i < ctx.vault@.whitelisted_users.len() && i < token_accounts.len() ==> {
                &&& i < mints@.len()
                &&& mints@[i].to == token_accounts[i]
                &&& mints@[i].amount == 100
                &&& mints@[i].mint == ctx.mint
                &&& mints@[i].authority == ctx.vault_key
                &&& seeds_view(mints@[i].signer_seeds@) == seq![seq![118u8, 97u8, 117u8, 108u8, 116u8], seq![ctx.vault.bump]]
            }
        },
{
    if r is Ok {
        let mints = r->Ok_0;
        lemma_rewarded_count_is_the_smaller(ctx.vault@, token_accounts);
        assert forall|i: int| 0 <= i < ctx.vault@.whitelisted_users.len() && i < token_accounts.len() implies {
            &&& i < mints@.len()
            &&& mints@[i].to == token_accounts[i]
            &&& mints@[i].amount == 100
            &&& mints@[i].mint == ctx.mint
            &&& mints@[i].authority == ctx.vault_key
            &&& seeds_view(mints@[i].signer_seeds@) == seq![seq![118u8, 97u8, 117u8, 108u8, 116u8], seq![ctx.vault.bump]]
        } by {
            assert(is_reward_mint(mints@[i], ctx, token_accounts, i));
        }
    }
}

/// Whitelisting keeps the users already listed, in their order, and adds the
/// new user at the end when it was not listed; a vault account has room for
/// exactly 100 users.
pub proof fn lemma_whitelisting_appends(users: Seq<Pubkey>, user: Pubkey)
    ensures
        users.contains(user) ==> with_user(users, user) == users,
        !users.contains(user) ==> with_user(users, user).len() == users.len() + 1
            && with_user(users, user)[users.len() as int] == user
            && forall|i: int| 0 <= i < users.len() ==> with_user(users, user)[i] == users[i],
        forall|n: nat| vault_fits(n) <==> n <= 100,
{
}

/// The extra-account list the token program reads: the `Execute`
/// discriminator, the entry length 109, the count 3, then three read-only,
/// non-signing accounts found from seeds: `"vault"`; `"whitelist"`, the
/// account at index 5, the account at index 3; `"whitelist"`, the account at
/// index 5, the account at index 2. 121 bytes in all.
pub proof fn lemma_extra_account_list_bytes()
    ensures
        meta_list_image().len() == 121,
        meta_list_image().subrange(0, 16) == seq![105u8, 37u8, 101u8, 197u8, 75u8, 251u8, 102u8, 26u8, 109u8, 0u8, 0u8, 0u8, 3u8, 0u8, 0u8, 0u8],
        meta_list_image().subrange(16, 24) == seq![1u8, 1u8, 5u8, 118u8, 97u8, 117u8, 108u8, 116u8],
        forall|i: int| 24 <= i < 51 ==> meta_list_image()[i] == 0u8,
        meta_list_image().subrange(51, 67) == seq![1u8, 1u8, 9u8, 119u8, 104u8, 105u8, 116u8, 101u8, 108u8, 105u8, 115u8, 116u8, 3u8, 5u8, 3u8, 3u8],
        forall|i: int| 67 <= i < 86 ==> meta_list_image()[i] == 0u8,
        meta_list_image().subrange(86, 102) == seq![1u8, 1u8, 9u8, 119u8, 104u8, 105u8, 116u8, 101u8, 108u8, 105u8, 115u8, 116u8, 3u8, 5u8, 3u8, 2u8],
        forall|i: int| 102 <= i < 121 ==> meta_list_image()[i] == 0u8,
{
    assert(meta_list_image().subrange(0, 16) =~= seq![105u8, 37u8, 101u8, 197u8, 75u8, 251u8, 102u8, 26u8, 109u8, 0u8, 0u8, 0u8, 3u8, 0u8, 0u8, 0u8]);
    assert(meta_list_image().subrange(16, 24) =~= seq![1u8, 1u8, 5u8, 118u8, 97u8, 117u8, 108u8, 116u8]);
    assert(meta_list_image().subrange(51, 67) =~= seq![1u8, 1u8, 9u8, 119u8, 104u8, 105u8, 116u8, 101u8, 108u8, 105u8, 115u8, 116u8, 3u8, 5u8, 3u8, 3u8]);
    assert(meta_list_image().subrange(86, 102) =~= seq![1u8, 1u8, 9u8, 119u8, 104u8, 105u8, 116u8, 101u8, 108u8, 105u8, 115u8, 116u8, 3u8, 5u8, 3u8, 2u8]);
}

/// The accounts of the scheduled reward distribution, by position: the vault
/// and the mint, writable; the token program, read-only; then each token
/// account given, in order, writable; none of them signing.
pub proof fn lemma_reward_accounts(ctx: ScheduleRewards, token_accounts: Seq<Pubkey>)
    ensures
        reward_accounts(ctx, token_accounts).len() == 3 + token_accounts.len(),
        reward_accounts(ctx, token_accounts)[0] == (AccountMeta { pubkey: ctx.vault_key, is_signer: false, is_writable: true }),
        reward_accounts(ctx, token_accounts)[1] == (AccountMeta { pubkey: ctx.mint, is_signer: false, is_writable: true }),
        reward_accounts(ctx, token_accounts)[2] == (AccountMeta { pubkey: ctx.token_program, is_signer: false, is_writable: false }),
        forall|i: int| 0 <= i < token_accounts.len() ==> reward_accounts(ctx, token_accounts)[3 + i]
            == (AccountMeta { pubkey: token_accounts[i], is_signer: false, is_writable: true }),
{
}

/// The deposit and withdraw check: refused as not whitelisted when the
/// signer's record says so, else refused as the wrong address when the mint is
/// not the vault's, else passed.
pub proof fn lemma_deposit_check(record: Whitelist, mint: Pubkey, vault_mint: Pubkey)
    ensures
        !record.is_whitelisted ==> whitelisted_with_vault_mint(record, mint, vault_mint)
            == Err::<(), InstructionError>(InstructionError::Program(CounterError::NotWhitelisted)),
        record.is_whitelisted && mint != vault_mint ==> whitelisted_with_vault_mint(record, mint, vault_mint)
            == Err::<(), InstructionError>(InstructionError::ConstraintAddress),
        record.is_whitelisted && mint == vault_mint ==> whitelisted_with_vault_mint(record, mint, vault_mint) is Ok,
{
}

} // verus!
