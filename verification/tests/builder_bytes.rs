use pump_migration::accounts::{AccountRef, CreateRaydiumPool};
use pump_migration::builder::{build, build_payload, PoolInitRequest};

fn acct(address: [u8; 32]) -> AccountRef {
    AccountRef { address, owner: [0u8; 32], is_signer: false, is_writable: false }
}

fn numbered_set() -> CreateRaydiumPool {
    // Each role gets a distinct address so the order of the metas is visible.
    CreateRaydiumPool {
        amm_program: acct([1u8; 32]),
        token_program: acct([2u8; 32]),
        associated_token_program: acct([3u8; 32]),
        system_program: acct([4u8; 32]),
        sysvar_rent: acct([5u8; 32]),
        amm: acct([6u8; 32]),
        amm_authority: acct([7u8; 32]),
        amm_open_orders: acct([8u8; 32]),
        lp_mint: acct([9u8; 32]),
        coin_mint: acct([10u8; 32]),
        pc_mint: acct([11u8; 32]),
        target_orders: acct([12u8; 32]),
        amm_config: acct([13u8; 32]),
        fee_destination: acct([14u8; 32]),
        market_program: acct([15u8; 32]),
        market: acct([16u8; 32]),
        user_wallet: acct([17u8; 32]),
        user_token_coin: acct([18u8; 32]),
        user_token_pc: acct([19u8; 32]),
        user_token_lp: acct([20u8; 32]),
    }
}

#[test]
fn payload_is_byte_exact() {
    let request = PoolInitRequest {
        nonce: 3,
        open_time: 1_700_000_000,
        init_pc_amount: 500_000,
        init_coin_amount: 1_000_000,
    };
    let payload = build_payload(&request);
    let mut expected: Vec<u8> = vec![1, 3];
    expected.extend_from_slice(&1_700_000_000u64.to_le_bytes());
    expected.extend_from_slice(&500_000u64.to_le_bytes());
    expected.extend_from_slice(&1_000_000u64.to_le_bytes());
    assert_eq!(payload, expected);
    assert_eq!(payload.len(), 26);
}

#[test]
fn payload_zero_values() {
    let request = PoolInitRequest { nonce: 0, open_time: 0, init_pc_amount: 0, init_coin_amount: 0 };
    let payload = build_payload(&request);
    let mut expected: Vec<u8> = vec![1, 0];
    expected.extend_from_slice(&[0u8; 24]);
    assert_eq!(payload, expected);
}

#[test]
fn payload_max_values() {
    let request = PoolInitRequest {
        nonce: 255,
        open_time: u64::MAX,
        init_pc_amount: u64::MAX,
        init_coin_amount: u64::MAX,
    };
    let payload = build_payload(&request);
    let mut expected: Vec<u8> = vec![1, 255];
    expected.extend_from_slice(&[0xffu8; 24]);
    assert_eq!(payload, expected);
}

#[test]
fn metas_have_protocol_order_and_flags() {
    let set = numbered_set();
    let request = PoolInitRequest { nonce: 1, open_time: 2, init_pc_amount: 3, init_coin_amount: 4 };
    let inv = build(&request, &set);
    assert_eq!(inv.target_program, [1u8; 32]);
    assert_eq!(inv.metas.len(), 20);
    // (address byte, is_signer, is_writable) for each of the twenty entries,
    // in the fixed order the external protocol requires.
    let expected: [(u8, bool, bool); 20] = [
        (1, false, false),  // AMM program
        (2, false, false),  // token program
        (3, false, false),  // associated-token program
        (4, false, false),  // system program
        (5, false, false),  // rent sysvar
        (6, false, true),   // pool account
        (7, false, false),  // pool authority
        (8, false, true),   // open orders
        (9, false, true),   // LP mint
        (11, false, false), // quote mint
        (10, false, false), // base mint
        (12, false, true),  // target orders
        (13, false, false), // pool config
        (14, false, true),  // fee destination
        (15, false, false), // market program
        (16, false, false), // market
        (17, true, true),   // wallet / signer
        (19, false, true),  // caller quote-token account
        (18, false, true),  // caller base-token account
        (20, false, true),  // caller LP-token account
    ];
    for (i, (byte, signer, writable)) in expected.iter().enumerate() {
        assert_eq!(inv.metas[i].address, [*byte; 32], "address at {}", i);
        assert_eq!(inv.metas[i].is_signer, *signer, "signer flag at {}", i);
        assert_eq!(inv.metas[i].is_writable, *writable, "writable flag at {}", i);
    }
}
