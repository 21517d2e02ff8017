use tuktuk_counter::errors::{CounterError, InstructionError};
use tuktuk_counter::instructions::initialize_vault::InitializeVault;
use tuktuk_counter::instructions::remove_whitelist::RemoveWhitelist;
use tuktuk_counter::instructions::whitelist_user::WhitelistUser;
use tuktuk_counter::pubkey::{program_id, Pubkey, PROGRAM_ID_BYTES};
use tuktuk_counter::state::{Vault, Whitelist, MAX_WHITELISTED_USERS};
use tuktuk_counter::tuktuk_counter::{initialize_vault, remove_whitelist, whitelist_user};

fn key(n: u8) -> Pubkey {
    Pubkey::new_from_array([n; 32])
}

fn vault_with(admin: Pubkey, users: Vec<Pubkey>) -> Vault {
    let mut v = Vault::new(admin, key(200), 60, 1000, 254);
    v.whitelisted_users = users;
    v
}

#[test]
fn vault_len_leaves_room_for_one_hundred_users() {
    assert_eq!(Vault::LEN, 3293);
    assert_eq!(Vault::LEN, 8 + 32 + 32 + 8 + 8 + 1 + 4 + 32 * MAX_WHITELISTED_USERS);
    assert_eq!(Whitelist::LEN, 74);
}

#[test]
fn initialize_vault_sets_admin_mint_and_time() {
    let ctx = InitializeVault { admin: key(1), vault_key: key(2), mint: key(3) };
    let v = initialize_vault(&ctx, 3600, 255, 1_700_000_000).unwrap();
    assert_eq!(v.admin, key(1));
    assert_eq!(v.mint, key(3));
    assert_eq!(v.reward_interval, 3600);
    assert_eq!(v.last_reward_time, 1_700_000_000);
    assert_eq!(v.bump, 255);
    assert!(v.whitelisted_users.is_empty());
}

#[test]
fn mint_is_created_with_nine_decimals_and_this_program_as_hook() {
    let ctx = InitializeVault { admin: key(1), vault_key: key(2), mint: key(3) };
    let c = ctx.mint_config();
    assert_eq!(c.decimals, 9);
    assert_eq!(c.mint_authority, key(2));
    assert_eq!(c.transfer_hook_authority, key(2));
    assert_eq!(c.transfer_hook_program_id, program_id());
    assert_eq!(program_id().to_bytes(), PROGRAM_ID_BYTES);
}

#[test]
fn admin_whitelists_a_user() {
    let mut ctx = WhitelistUser { admin: key(1), vault_key: key(2), vault: vault_with(key(1), vec![]) };
    let w = whitelist_user(&mut ctx, key(7), 250).unwrap();
    assert_eq!(w, Whitelist { vault: key(2), user: key(7), is_whitelisted: true, bump: 250 });
    assert_eq!(ctx.vault.whitelisted_users, vec![key(7)]);
}

#[test]
fn whitelisting_twice_lists_the_user_once() {
    let mut ctx = WhitelistUser { admin: key(1), vault_key: key(2), vault: vault_with(key(1), vec![]) };
    whitelist_user(&mut ctx, key(7), 250).unwrap();
    whitelist_user(&mut ctx, key(8), 251).unwrap();
    let w = whitelist_user(&mut ctx, key(7), 250).unwrap();
    assert!(w.is_whitelisted);
    assert_eq!(ctx.vault.whitelisted_users, vec![key(7), key(8)]);
}

#[test]
fn non_admin_cannot_whitelist() {
    let mut ctx = WhitelistUser { admin: key(9), vault_key: key(2), vault: vault_with(key(1), vec![]) };
    assert_eq!(whitelist_user(&mut ctx, key(7), 250), Err(InstructionError::ConstraintHasOne));
    assert!(ctx.vault.whitelisted_users.is_empty());
    assert_eq!(InstructionError::ConstraintHasOne.code(), 2001);
}

#[test]
fn full_vault_refuses_a_new_user_but_not_a_listed_one() {
    let users: Vec<Pubkey> = (0..100u8).map(key).collect();
    let mut ctx = WhitelistUser { admin: key(150), vault_key: key(2), vault: vault_with(key(150), users.clone()) };
    assert_eq!(whitelist_user(&mut ctx, key(120), 1), Err(InstructionError::AccountDidNotSerialize));
    assert_eq!(ctx.vault.whitelisted_users, users);
    assert!(whitelist_user(&mut ctx, key(5), 1).is_ok());
    assert_eq!(ctx.vault.whitelisted_users, users);
    assert_eq!(InstructionError::AccountDidNotSerialize.code(), 3004);
}

#[test]
fn ninety_nine_users_leave_room_for_one_more() {
    let users: Vec<Pubkey> = (0..99u8).map(key).collect();
    let mut ctx = WhitelistUser { admin: key(150), vault_key: key(2), vault: vault_with(key(150), users) };
    assert!(whitelist_user(&mut ctx, key(120), 1).is_ok());
    assert_eq!(ctx.vault.whitelisted_users.len(), 100);
}

#[test]
fn admin_removes_a_user() {
    let record = Whitelist { vault: key(2), user: key(8), is_whitelisted: true, bump: 3 };
    let mut ctx = RemoveWhitelist {
        admin: key(1),
        vault: vault_with(key(1), vec![key(7), key(8), key(9)]),
        whitelist: record,
    };
    assert_eq!(remove_whitelist(&mut ctx, key(8)), Ok(()));
    assert_eq!(ctx.vault.whitelisted_users, vec![key(7), key(9)]);
    assert_eq!(ctx.whitelist, Whitelist { is_whitelisted: false, ..record });
}

#[test]
fn removal_goes_by_the_record_user() {
    let record = Whitelist { vault: key(2), user: key(8), is_whitelisted: true, bump: 3 };
    let mut ctx = RemoveWhitelist { admin: key(1), vault: vault_with(key(1), vec![key(7), key(8)]), whitelist: record };
    assert_eq!(remove_whitelist(&mut ctx, key(7)), Ok(()));
    assert_eq!(ctx.vault.whitelisted_users, vec![key(7)]);
}

#[test]
fn removing_an_unlisted_user_changes_only_the_record() {
    let record = Whitelist { vault: key(2), user: key(5), is_whitelisted: true, bump: 3 };
    let mut ctx = RemoveWhitelist { admin: key(1), vault: vault_with(key(1), vec![key(7), key(8)]), whitelist: record };
    assert_eq!(remove_whitelist(&mut ctx, key(5)), Ok(()));
    assert_eq!(ctx.vault.whitelisted_users, vec![key(7), key(8)]);
    assert!(!ctx.whitelist.is_whitelisted);
}

#[test]
fn non_admin_cannot_remove() {
    let record = Whitelist { vault: key(2), user: key(8), is_whitelisted: true, bump: 3 };
    let mut ctx = RemoveWhitelist { admin: key(4), vault: vault_with(key(1), vec![key(8)]), whitelist: record };
    assert_eq!(remove_whitelist(&mut ctx, key(8)), Err(InstructionError::ConstraintHasOne));
    assert_eq!(ctx.vault.whitelisted_users, vec![key(8)]);
    assert!(ctx.whitelist.is_whitelisted);
}

#[test]
fn whitelist_then_remove_gives_back_the_list() {
    let start = vec![key(7), key(9)];
    let mut add = WhitelistUser { admin: key(1), vault_key: key(2), vault: vault_with(key(1), start.clone()) };
    let record = whitelist_user(&mut add, key(8), 3).unwrap();
    assert!(add.vault.contains_user(&key(8)));
    let mut rm = RemoveWhitelist { admin: key(1), vault: add.vault.clone(), whitelist: record };
    remove_whitelist(&mut rm, key(8)).unwrap();
    assert_eq!(rm.vault.whitelisted_users, start);
    assert!(!rm.vault.contains_user(&key(8)));
}

#[test]
fn pubkey_comparison_is_byte_for_byte() {
    let a = key(3);
    let mut bytes = [3u8; 32];
    assert!(a.same(&Pubkey::new_from_array(bytes)));
    bytes[31] = 4;
    assert!(!a.same(&Pubkey::new_from_array(bytes)));
}

#[test]
fn program_errors_have_their_codes_and_messages() {
    assert_eq!(CounterError::NotWhitelisted.code(), 6000);
    assert_eq!(CounterError::InvalidTransferHookProgram.code(), 6001);
    assert_eq!(CounterError::RewardTooEarly.code(), 6002);
    assert_eq!(CounterError::NotWhitelisted.msg(), "Not whitelisted");
    assert_eq!(CounterError::InvalidTransferHookProgram.msg(), "Invalid transfer hook program");
    assert_eq!(CounterError::RewardTooEarly.msg(), "Vault reward distribution too early");
    assert_eq!(InstructionError::Program(CounterError::RewardTooEarly).code(), 6002);
    assert_eq!(InstructionError::ConstraintAddress.code(), 2012);
    assert_eq!(InstructionError::ConstraintTokenMint.code(), 2014);
    assert_eq!(InstructionError::ConstraintTokenOwner.code(), 2015);
    assert_eq!(InstructionError::SeedConfigsTooLarge.code(), 2724315847);
}
