//! The accounts the program owns: the vault, one whitelist record per user,
//! and the counter.
use vstd::prelude::*;
use crate::errors::InstructionError;
use crate::pubkey::Pubkey;

verus! {

/// Largest number of users the vault account has room for.
pub const MAX_WHITELISTED_USERS: usize = 100;

/// The vault: its admin, its mint, the reward schedule and the whitelisted users.
#[derive(Clone, Debug)]
pub struct Vault {
    pub admin: Pubkey,
    pub mint: Pubkey,
    pub reward_interval: i64,
    pub last_reward_time: i64,
    pub bump: u8,
    pub whitelisted_users: Vec<Pubkey>,
}

/// The contents of a vault as mathematical values.
pub struct VaultView {
    pub admin: Pubkey,
    pub mint: Pubkey,
    pub reward_interval: i64,
    pub last_reward_time: i64,
    pub bump: u8,
    pub whitelisted_users: Seq<Pubkey>,
}

impl View for Vault {
    type V = VaultView;

    open spec fn view(&self) -> VaultView {
        VaultView {
            admin: self.admin,
            mint: self.mint,
            reward_interval: self.reward_interval,
            last_reward_time: self.last_reward_time,
            bump: self.bump,
            whitelisted_users: self.whitelisted_users@,
        }
    }
}

/// Bytes a vault takes in its account when it holds `n` users: the 8-byte
/// account discriminator, two addresses, two `i64`, the bump, the 4-byte
/// length of the user list and 32 bytes per user.
pub open spec fn vault_serialized_len(n: nat) -> nat {
    8 + 32 + 32 + 8 + 8 + 1 + 4 + 32 * n
}

/// Whether a vault holding `n` users fits in the vault account.
pub open spec fn vault_fits(n: nat) -> bool {
    vault_serialized_len(n) <= Vault::LEN
}

/// The users left on a list once `user` is taken off it.
pub open spec fn without_user(users: Seq<Pubkey>, user: Pubkey) -> Seq<Pubkey> {
    users.filter(other_than(user))
}

/// Holds of every address but `user`.
pub open spec fn other_than(user: Pubkey) -> spec_fn(Pubkey) -> bool {
    |x: Pubkey| x != user
}

/// The users on a list once `user` is added to it: unchanged when it is there
/// already, else `user` at the end.
pub open spec fn with_user(users: Seq<Pubkey>, user: Pubkey) -> Seq<Pubkey> {
    if users.contains(user) {
        users
    } else {
        users.push(user)
    }
}

impl VaultView {
    /// A vault as the program leaves it: no user listed twice, and the list
    /// fits in the account.
    pub open spec fn well_formed(self) -> bool {
        &&& self.whitelisted_users.no_duplicates()
        &&& vault_fits(self.whitelisted_users.len())
    }

    /// The same vault with another user list.
    pub open spec fn with_users(self, users: Seq<Pubkey>) -> VaultView {
        VaultView { whitelisted_users: users, ..self }
    }
}

impl Vault {
    /// Space of the vault account: room for `MAX_WHITELISTED_USERS` users.
    pub const LEN: usize = 8 + 32 + 32 + 8 + 8 + 1 + 4 + (32 * 100);

    /// A new vault with no whitelisted user.
    pub fn new(admin: Pubkey, mint: Pubkey, reward_interval: i64, last_reward_time: i64, bump: u8) -> (v: Vault)
        ensures
            v@ == (VaultView {
                admin,
                mint,
                reward_interval,
                last_reward_time,
                bump,
                whitelisted_users: Seq::empty(),
            }),
    {
        Vault { admin, mint, reward_interval, last_reward_time, bump, whitelisted_users: Vec::new() }
    }

    /// Whether `user` is on the vault's user list.
    pub fn contains_user(&self, user: &Pubkey) -> (r: bool)
        ensures
            r == self@.whitelisted_users.contains(*user),
    {
        let n = self.whitelisted_users.len();
        let mut i: usize = 0;
        while i < n
            invariant
                n == self.whitelisted_users@.len(),
                i <= n,
                forall|j: int| 0 <= j < i ==> self.whitelisted_users@[j] != *user,
            decreases n - i,
        {
            if self.whitelisted_users[i].same(user) {
                return true;
            }
            i = i + 1;
        }
        false
    }

    /// Adds `user` to the user list unless it is there already. Refused, with
    /// the vault unchanged, when the new list does not fit in the account.
    pub fn add_user(&mut self, user: Pubkey) -> (r: Result<(), InstructionError>)
        ensures
            vault_fits(with_user(old(self)@.whitelisted_users, user).len()) ==> {
                &&& r is Ok
                &&& final(self)@ == old(self)@.with_users(with_user(old(self)@.whitelisted_users, user))
            },
            !vault_fits(with_user(old(self)@.whitelisted_users, user).len()) ==> {
                &&& r == Err::<(), InstructionError>(InstructionError::AccountDidNotSerialize)
                &&& final(self)@ == old(self)@
            },
            old(self)@.well_formed() && r is Ok ==> final(self)@.well_formed(),
    {
        let present = self.contains_user(&user);
        let n = self.whitelisted_users.len();
        let too_many = if present { n > MAX_WHITELISTED_USERS } else { n >= MAX_WHITELISTED_USERS };
        if too_many {
            return Err(InstructionError::AccountDidNotSerialize);
        }
        if !present {
            self.whitelisted_users.push(user);
        }
        proof {
            if !present && old(self)@.whitelisted_users.no_duplicates() {
                lemma_push_no_duplicates(old(self)@.whitelisted_users, user);
            }
        }
        Ok(())
    }

    /// Takes every entry equal to `user` off the user list.
    pub fn remove_user(&mut self, user: &Pubkey)
        ensures
            final(self)@ == old(self)@.with_users(without_user(old(self)@.whitelisted_users, *user)),
            old(self)@.well_formed() ==> final(self)@.well_formed(),
    {
        let ghost pred = other_than(*user);
        let ghost users = self.whitelisted_users@;
        let n = self.whitelisted_users.len();
        let mut kept: Vec<Pubkey> = Vec::new();
        let mut i: usize = 0;
        while i < n
            invariant
                n == users.len(),
                users == self.whitelisted_users@,
                pred == other_than(*user),
                i <= n,
                kept@ == users.take(i as int).filter(pred),
            decreases n - i,
        {
            let k = self.whitelisted_users[i];
            proof {
                assert(users.take(i + 1) =~= users.take(i as int).push(k));
                users.take(i as int).lemma_filter_push(k, pred);
            }
            if !k.same(user) {
                kept.push(k);
            }
            i = i + 1;
        }
        proof {
            assert(users.take(n as int) =~= users);
        }
        self.whitelisted_users = kept;
        proof {
            if users.no_duplicates() {
                lemma_filter_no_duplicates(users, pred);
            }
            users.lemma_filter_len(pred);
        }
    }
}

/// Pushing an element that is not in a list without duplicates keeps it without duplicates.
pub proof fn lemma_push_no_duplicates<A>(s: Seq<A>, a: A)
    requires
        s.no_duplicates(),
        !s.contains(a),
    ensures
        s.push(a).no_duplicates(),
{
    assert forall|i: int, j: int| 0 <= i < s.len() + 1 && 0 <= j < s.len() + 1 && i != j implies
        s.push(a)[i] != s.push(a)[j] by {
        if i == s.len() as int {
            assert(s[j] == s.push(a)[j]);
        } else if j == s.len() as int {
            assert(s[i] == s.push(a)[i]);
        }
    }
}

/// Filtering a list without duplicates leaves a list without duplicates.
pub proof fn lemma_filter_no_duplicates<A>(s: Seq<A>, p: spec_fn(A) -> bool)
    requires
        s.no_duplicates(),
    ensures
        s.filter(p).no_duplicates(),
    decreases s.len(),
{
    if s.len() > 0 {
        let init = s.drop_last();
        let last = s.last();
        assert(init.push(last) == s);
        assert(init.no_duplicates()) by {
            assert forall|i: int, j: int| 0 <= i < init.len() && 0 <= j < init.len() && i != j implies
                init[i] != init[j] by {
                assert(init[i] == s[i] && init[j] == s[j]);
            }
        }
        lemma_filter_no_duplicates(init, p);
        init.lemma_filter_push(last, p);
        if p(last) {
            assert(!init.filter(p).contains(last)) by {
                if init.filter(p).contains(last) {
                    init.lemma_filter_contains_rev(p, last);
                    let k = choose|k: int| 0 <= k < init.len() && init[k] == last;
                    assert(s[k] == s[s.len() - 1]);
                }
            }
            lemma_push_no_duplicates(init.filter(p), last);
        }
    }
}

/// The whitelist record of one user.
#[derive(Clone, Copy, Debug, PartialEq, Eq)]
pub struct Whitelist {
    pub vault: Pubkey,
    pub user: Pubkey,
    pub is_whitelisted: bool,
    pub bump: u8,
}

impl Whitelist {
    /// Space of a whitelist account.
    pub const LEN: usize = 8 + 32 + 32 + 1 + 1;
}

/// The counter.
#[derive(Clone, Copy, Debug, PartialEq, Eq)]
pub struct Counter {
    pub count: u64,
}

} // verus!
