//! Fixed identities and seed literals of the external protocol.
//!
//! The four program identities are well-known constants of the host chain;
//! each byte listing below is the decoded form of the base58 name given in
//! its doc comment.  The seed literals are the byte-strings from which the
//! external program's own accounts are derived.

use vstd::prelude::*;

verus! {

/// The SPL token program, `TokenkegQfeZyiNwAJbNbGKPFXCWuBvf9Ss623VQ5DA`.
pub open spec fn spec_token_program_id() -> Seq<u8> {
    seq![6, 221, 246, 225, 215, 101, 161, 147, 217, 203, 225, 70, 206, 235, 121, 172, 28, 180, 133, 237, 95, 91, 55, 145, 58, 140, 245, 133, 126, 255, 0, 169]
}

/// The SPL token program, `TokenkegQfeZyiNwAJbNbGKPFXCWuBvf9Ss623VQ5DA`.
pub fn token_program_id() -> (r: [u8; 32])
    ensures
        r@ == spec_token_program_id(),
{
    let r: [u8; 32] = [6, 221, 246, 225, 215, 101, 161, 147, 217, 203, 225, 70, 206, 235, 121, 172, 28, 180, 133, 237, 95, 91, 55, 145, 58, 140, 245, 133, 126, 255, 0, 169];
    proof {
        assert(r@ =~= spec_token_program_id());
    }
    r
}

/// The associated-token program, `ATokenGPvbdGVxr1b2hvZbsiqW5xWH25efTNsLJA8knL`.
pub open spec fn spec_associated_token_program_id() -> Seq<u8> {
    seq![140, 151, 37, 143, 78, 36, 137, 241, 187, 61, 16, 41, 20, 142, 13, 131, 11, 90, 19, 153, 218, 255, 16, 132, 4, 142, 123, 216, 219, 233, 248, 89]
}

/// The associated-token program, `ATokenGPvbdGVxr1b2hvZbsiqW5xWH25efTNsLJA8knL`.
pub fn associated_token_program_id() -> (r: [u8; 32])
    ensures
        r@ == spec_associated_token_program_id(),
{
    let r: [u8; 32] = [140, 151, 37, 143, 78, 36, 137, 241, 187, 61, 16, 41, 20, 142, 13, 131, 11, 90, 19, 153, 218, 255, 16, 132, 4, 142, 123, 216, 219, 233, 248, 89];
    proof {
        assert(r@ =~= spec_associated_token_program_id());
    }
    r
}

/// The system program, `11111111111111111111111111111111`.
pub open spec fn spec_system_program_id() -> Seq<u8> {
    seq![0, 0, 0, 0, 0, 0, 0, 0, 0, 0, 0, 0, 0, 0, 0, 0, 0, 0, 0, 0, 0, 0, 0, 0, 0, 0, 0, 0, 0, 0, 0, 0]
}

/// The system program, `11111111111111111111111111111111`.
pub fn system_program_id() -> (r: [u8; 32])
    ensures
        r@ == spec_system_program_id(),
{
    let r: [u8; 32] = [0, 0, 0, 0, 0, 0, 0, 0, 0, 0, 0, 0, 0, 0, 0, 0, 0, 0, 0, 0, 0, 0, 0, 0, 0, 0, 0, 0, 0, 0, 0, 0];
    proof {
        assert(r@ =~= spec_system_program_id());
    }
    r
}

/// The rent sysvar, `SysvarRent111111111111111111111111111111111`.
pub open spec fn spec_rent_sysvar_id() -> Seq<u8> {
    seq![6, 167, 213, 23, 25, 44, 92, 81, 33, 140, 201, 76, 61, 74, 241, 127, 88, 218, 238, 8, 155, 161, 253, 68, 227, 219, 217, 138, 0, 0, 0, 0]
}

/// The rent sysvar, `SysvarRent111111111111111111111111111111111`.
pub fn rent_sysvar_id() -> (r: [u8; 32])
    ensures
        r@ == spec_rent_sysvar_id(),
{
    let r: [u8; 32] = [6, 167, 213, 23, 25, 44, 92, 81, 33, 140, 201, 76, 61, 74, 241, 127, 88, 218, 238, 8, 155, 161, 253, 68, 227, 219, 217, 138, 0, 0, 0, 0];
    proof {
        assert(r@ =~= spec_rent_sysvar_id());
    }
    r
}

/// Seed literal `"amm_associated_seed"`, used to derive the pool account.
pub open spec fn spec_seed_amm_associated() -> Seq<u8> {
    seq![97, 109, 109, 95, 97, 115, 115, 111, 99, 105, 97, 116, 101, 100, 95, 115, 101, 101, 100]
}

/// Seed literal `"amm_associated_seed"`, used to derive the pool account.
pub fn seed_amm_associated() -> (r: Vec<u8>)
    ensures
        r@ == spec_seed_amm_associated(),
{
    let r: Vec<u8> = vec![97, 109, 109, 95, 97, 115, 115, 111, 99, 105, 97, 116, 101, 100, 95, 115, 101, 101, 100];
    proof {
        assert(r@ =~= spec_seed_amm_associated());
    }
    r
}

/// Seed literal `"amm authority"`, used to derive the pool authority.
pub open spec fn spec_seed_amm_authority() -> Seq<u8> {
    seq![97, 109, 109, 32, 97, 117, 116, 104, 111, 114, 105, 116, 121]
}

/// Seed literal `"amm authority"`, used to derive the pool authority.
pub fn seed_amm_authority() -> (r: Vec<u8>)
    ensures
        r@ == spec_seed_amm_authority(),
{
    let r: Vec<u8> = vec![97, 109, 109, 32, 97, 117, 116, 104, 111, 114, 105, 116, 121];
    proof {
        assert(r@ =~= spec_seed_amm_authority());
    }
    r
}

/// Seed literal `"open_order_associated_seed"`, used to derive the open-orders account.
pub open spec fn spec_seed_open_orders() -> Seq<u8> {
    seq![111, 112, 101, 110, 95, 111, 114, 100, 101, 114, 95, 97, 115, 115, 111, 99, 105, 97, 116, 101, 100, 95, 115, 101, 101, 100]
}

/// Seed literal `"open_order_associated_seed"`, used to derive the open-orders account.
pub fn seed_open_orders() -> (r: Vec<u8>)
    ensures
        r@ == spec_seed_open_orders(),
{
    let r: Vec<u8> = vec![111, 112, 101, 110, 95, 111, 114, 100, 101, 114, 95, 97, 115, 115, 111, 99, 105, 97, 116, 101, 100, 95, 115, 101, 101, 100];
    proof {
        assert(r@ =~= spec_seed_open_orders());
    }
    r
}

/// Seed literal `"lp_mint_associated_seed"`, used to derive the LP mint.
pub open spec fn spec_seed_lp_mint() -> Seq<u8> {
    seq![108, 112, 95, 109, 105, 110, 116, 95, 97, 115, 115, 111, 99, 105, 97, 116, 101, 100, 95, 115, 101, 101, 100]
}

/// Seed literal `"lp_mint_associated_seed"`, used to derive the LP mint.
pub fn seed_lp_mint() -> (r: Vec<u8>)
    ensures
        r@ == spec_seed_lp_mint(),
{
    let r: Vec<u8> = vec![108, 112, 95, 109, 105, 110, 116, 95, 97, 115, 115, 111, 99, 105, 97, 116, 101, 100, 95, 115, 101, 101, 100];
    proof {
        assert(r@ =~= spec_seed_lp_mint());
    }
    r
}

/// Seed literal `"target_associated_seed"`, used to derive the target-orders account.
pub open spec fn spec_seed_target_orders() -> Seq<u8> {
    seq![116, 97, 114, 103, 101, 116, 95, 97, 115, 115, 111, 99, 105, 97, 116, 101, 100, 95, 115, 101, 101, 100]
}

/// Seed literal `"target_associated_seed"`, used to derive the target-orders account.
pub fn seed_target_orders() -> (r: Vec<u8>)
    ensures
        r@ == spec_seed_target_orders(),
{
    let r: Vec<u8> = vec![116, 97, 114, 103, 101, 116, 95, 97, 115, 115, 111, 99, 105, 97, 116, 101, 100, 95, 115, 101, 101, 100];
    proof {
        assert(r@ =~= spec_seed_target_orders());
    }
    r
}

/// Seed literal `"amm_config_account_seed"`, used to derive the pool config account.
pub open spec fn spec_seed_amm_config() -> Seq<u8> {
    seq![97, 109, 109, 95, 99, 111, 110, 102, 105, 103, 95, 97, 99, 99, 111, 117, 110, 116, 95, 115, 101, 101, 100]
}

/// Seed literal `"amm_config_account_seed"`, used to derive the pool config account.
pub fn seed_amm_config() -> (r: Vec<u8>)
    ensures
        r@ == spec_seed_amm_config(),
{
    let r: Vec<u8> = vec![97, 109, 109, 95, 99, 111, 110, 102, 105, 103, 95, 97, 99, 99, 111, 117, 110, 116, 95, 115, 101, 101, 100];
    proof {
        assert(r@ =~= spec_seed_amm_config());
    }
    r
}

} // verus!
