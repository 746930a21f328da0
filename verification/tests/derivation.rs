use anchor_lang::solana_program::pubkey::Pubkey;
use pump_migration::pda::derive_address;

fn host_pda(seeds: &[&[u8]], program: &[u8; 32]) -> ([u8; 32], u8) {
    let (a, b) = Pubkey::find_program_address(seeds, &Pubkey::new_from_array(*program));
    (a.to_bytes(), b)
}

#[test]
fn derive_matches_host_derivation() {
    let program = [7u8; 32];
    let market = [3u8; 32];
    let seeds: Vec<Vec<u8>> = vec![
        program.to_vec(),
        market.to_vec(),
        b"amm_associated_seed".to_vec(),
    ];
    let d = derive_address(&seeds, &program).expect("derivation must succeed");
    let (addr, bump) = host_pda(&[&program, &market, b"amm_associated_seed"], &program);
    assert_eq!(d.address, addr);
    assert_eq!(d.bump, bump);
}

#[test]
fn derive_single_seed_matches_host_derivation() {
    let program = [7u8; 32];
    let seeds: Vec<Vec<u8>> = vec![b"amm authority".to_vec()];
    let d = derive_address(&seeds, &program).expect("derivation must succeed");
    let (addr, bump) = host_pda(&[b"amm authority"], &program);
    assert_eq!(d.address, addr);
    assert_eq!(d.bump, bump);
}

#[test]
fn derive_is_deterministic() {
    let program = [42u8; 32];
    let seeds: Vec<Vec<u8>> = vec![vec![1, 2, 3], vec![4, 5]];
    let d1 = derive_address(&seeds, &program).expect("derivation must succeed");
    let d2 = derive_address(&seeds, &program).expect("derivation must succeed");
    assert_eq!(d1.address, d2.address);
    assert_eq!(d1.bump, d2.bump);
}

#[test]
fn derive_known_fixture() {
    // For these seeds the two highest bumps land on the curve, so the
    // canonical bump is 253; the address is the known literal below.
    let program = [7u8; 32];
    let market = [0u8; 32];
    let seeds: Vec<Vec<u8>> = vec![
        program.to_vec(),
        market.to_vec(),
        b"amm_associated_seed".to_vec(),
    ];
    let d = derive_address(&seeds, &program).expect("derivation must succeed");
    let expected: [u8; 32] = [
        229, 30, 72, 192, 125, 114, 40, 184, 198, 206, 3, 196, 32, 146, 199, 42, 12, 86, 1, 22,
        220, 95, 159, 139, 56, 105, 255, 194, 55, 2, 250, 28,
    ];
    assert_eq!(d.address, expected);
    assert_eq!(d.bump, 253);
}

#[test]
fn derive_exhausted_on_overlong_seed() {
    // A seed longer than the host allows fails for every bump.
    let program = [1u8; 32];
    let seeds: Vec<Vec<u8>> = vec![vec![0u8; 33]];
    assert!(derive_address(&seeds, &program).is_none());
}
