use anchor_lang::solana_program::pubkey::Pubkey;
use pump_migration::accounts::{AccountRef, CreateRaydiumPool, MigrationError};
use pump_migration::pipeline::{create_raydium_pool, open_time_from_clock, run_migration, HostState};

const SELF_PROGRAM: [u8; 32] = [9u8; 32];

fn pda(seeds: &[&[u8]], program: &[u8; 32]) -> [u8; 32] {
    Pubkey::find_program_address(seeds, &Pubkey::new_from_array(*program))
        .0
        .to_bytes()
}

fn acct(address: [u8; 32], owner: [u8; 32], is_signer: bool, is_writable: bool) -> AccountRef {
    AccountRef { address, owner, is_signer, is_writable }
}

fn valid_set() -> CreateRaydiumPool {
    let amm_program = [7u8; 32];
    let market = [3u8; 32];
    let market_program = [5u8; 32];
    let wallet = [11u8; 32];
    let token = anchor_spl::token::ID.to_bytes();
    let ata = anchor_spl::associated_token::ID.to_bytes();
    let system = anchor_lang::solana_program::system_program::ID.to_bytes();
    let rent = anchor_lang::solana_program::sysvar::rent::ID.to_bytes();
    let amm = pda(&[&amm_program, &market, b"amm_associated_seed"], &amm_program);
    let authority = pda(&[b"amm authority"], &amm_program);
    let open_orders = pda(&[&amm_program, &market, b"open_order_associated_seed"], &amm_program);
    let lp_mint = pda(&[&amm_program, &market, b"lp_mint_associated_seed"], &amm_program);
    let target = pda(&[&amm_program, &market, b"target_associated_seed"], &amm_program);
    let config = pda(&[b"amm_config_account_seed"], &amm_program);
    let user_lp = pda(&[&wallet, &token, &lp_mint], &SELF_PROGRAM);
    CreateRaydiumPool {
        amm_program: acct(amm_program, [0u8; 32], false, false),
        token_program: acct(token, [0u8; 32], false, false),
        associated_token_program: acct(ata, [0u8; 32], false, false),
        system_program: acct(system, [0u8; 32], false, false),
        sysvar_rent: acct(rent, [0u8; 32], false, false),
        amm: acct(amm, amm_program, false, true),
        amm_authority: acct(authority, amm_program, false, false),
        amm_open_orders: acct(open_orders, amm_program, false, true),
        lp_mint: acct(lp_mint, amm_program, false, true),
        coin_mint: acct([21u8; 32], token, false, false),
        pc_mint: acct([22u8; 32], token, false, false),
        target_orders: acct(target, amm_program, false, true),
        amm_config: acct(config, amm_program, false, false),
        fee_destination: acct([23u8; 32], [0u8; 32], false, true),
        market_program: acct(market_program, [0u8; 32], false, false),
        market: acct(market, market_program, false, false),
        user_wallet: acct(wallet, system, true, true),
        user_token_coin: acct([24u8; 32], token, false, true),
        user_token_pc: acct([25u8; 32], token, false, true),
        user_token_lp: acct(user_lp, SELF_PROGRAM, false, true),
    }
}

#[test]
fn valid_set_builds_invocation() {
    let set = valid_set();
    let inv = create_raydium_pool(&set, &SELF_PROGRAM, 3, 1_700_000_000, 500_000, 1_000_000)
        .expect("a valid set must build");
    assert_eq!(inv.target_program, set.amm_program.address);
    assert_eq!(inv.metas.len(), 20);
    assert_eq!(inv.payload.len(), 26);
    assert_eq!(inv.payload[0], 1);
    assert_eq!(inv.payload[1], 3);
}

#[test]
fn forged_set_builds_nothing() {
    let mut set = valid_set();
    set.amm.address = [66u8; 32];
    let r = create_raydium_pool(&set, &SELF_PROGRAM, 3, 1_700_000_000, 500_000, 1_000_000);
    assert!(matches!(r, Err(MigrationError::AddressMismatch)));
}

#[test]
fn second_initialization_fails() {
    // Two sequential operations for the same market: the first succeeds,
    // the second is rejected by the external program.
    let set = valid_set();
    let mut host = HostState { initialized: vec![], invocations: 0 };
    let r1 = run_migration(&mut host, &set, &SELF_PROGRAM, 3, 1_700_000_000, 500_000, 1_000_000);
    assert_eq!(r1, Ok(()));
    assert_eq!(host.initialized.len(), 1);
    assert_eq!(host.initialized[0], set.amm.address);
    let r2 = run_migration(&mut host, &set, &SELF_PROGRAM, 3, 1_700_000_000, 500_000, 1_000_000);
    assert_eq!(r2, Err(MigrationError::ExternalCallFailure));
    assert_eq!(host.initialized.len(), 1);
    assert_eq!(host.invocations, 2);
}

#[test]
fn failed_call_rolls_back() {
    // The pool is already initialized: the call is dispatched, rejected, and
    // leaves every pool account exactly as it was.
    let set = valid_set();
    let mut host = HostState { initialized: vec![set.amm.address], invocations: 0 };
    let r = run_migration(&mut host, &set, &SELF_PROGRAM, 3, 1_700_000_000, 500_000, 1_000_000);
    assert_eq!(r, Err(MigrationError::ExternalCallFailure));
    assert_eq!(host.initialized, vec![set.amm.address]);
    assert_eq!(host.invocations, 1);
}

#[test]
fn forged_set_never_reaches_the_invoker() {
    // The spy: a forged address fails validation and the call count stays 0.
    let mut set = valid_set();
    set.amm.address = set.target_orders.address;
    let mut host = HostState { initialized: vec![], invocations: 0 };
    let r = run_migration(&mut host, &set, &SELF_PROGRAM, 3, 1_700_000_000, 500_000, 1_000_000);
    assert_eq!(r, Err(MigrationError::AddressMismatch));
    assert_eq!(host.invocations, 0);
    assert!(host.initialized.is_empty());
}

#[test]
fn open_time_accepts_the_epoch_and_after() {
    assert_eq!(open_time_from_clock(0), Some(0));
    assert_eq!(open_time_from_clock(1_700_000_000), Some(1_700_000_000));
    assert_eq!(open_time_from_clock(i64::MAX), Some(i64::MAX as u64));
}

#[test]
fn open_time_rejects_negative_clock() {
    assert_eq!(open_time_from_clock(-1), None);
    assert_eq!(open_time_from_clock(i64::MIN), None);
}
