//! The invocation builder.
//!
//! Serializes the pool-initialization parameters and lays out the validated
//! account list in the exact order and with the exact permission flags the
//! external AMM program requires.  The byte layout is fixed by the external
//! protocol: a one-byte instruction tag, the bump nonce, then the open time
//! and the two initial amounts, each as eight little-endian bytes.

use vstd::prelude::*;
use crate::accounts::{AccountRef, CreateRaydiumPool};

verus! {

/// Instruction tag of the external program's pool-initialization entry point.
pub const INITIALIZE2_TAG: u8 = 1;

/// The parameters of one pool initialization.  The open time comes from the
/// chain clock (see `open_time_from_clock`), the rest from the caller.
#[derive(Clone, Copy)]
pub struct PoolInitRequest {
    pub nonce: u8,
    pub open_time: u64,
    pub init_pc_amount: u64,
    pub init_coin_amount: u64,
}

/// One entry of the account list handed to the external program.
#[derive(Clone, Copy)]
pub struct AccountMeta {
    pub address: [u8; 32],
    pub is_signer: bool,
    pub is_writable: bool,
}

/// A fully assembled cross-program call: the target program, the ordered
/// account list, and the serialized parameter payload.
pub struct InvocationDescriptor {
    pub target_program: [u8; 32],
    pub metas: Vec<AccountMeta>,
    pub payload: Vec<u8>,
}

/// The eight bytes of `v`, least significant first.
pub open spec fn le_bytes_u64(v: u64) -> Seq<u8> {
    seq![
        (v & 0xff) as u8,
        ((v >> 8) & 0xff) as u8,
        ((v >> 16) & 0xff) as u8,
        ((v >> 24) & 0xff) as u8,
        ((v >> 32) & 0xff) as u8,
        ((v >> 40) & 0xff) as u8,
        ((v >> 48) & 0xff) as u8,
        ((v >> 56) & 0xff) as u8,
    ]
}

/// The exact parameter payload: tag, nonce, then open time and the two
/// initial amounts in little-endian order, with no padding.
pub open spec fn spec_payload(r: PoolInitRequest) -> Seq<u8> {
    seq![INITIALIZE2_TAG, r.nonce] + le_bytes_u64(r.open_time) + le_bytes_u64(r.init_pc_amount)
        + le_bytes_u64(r.init_coin_amount)
}

/// The account list entry for `acc` with the given permission flags.
pub open spec fn meta_of(acc: AccountRef, is_signer: bool, is_writable: bool) -> AccountMeta {
    AccountMeta { address: acc.address, is_signer, is_writable }
}

/// The twenty account entries of the pool-initialization call, in the fixed
/// order and with the fixed flags the external protocol requires.
pub open spec fn spec_metas(a: CreateRaydiumPool) -> Seq<AccountMeta> {
    seq![
        meta_of(a.amm_program, false, false),
        meta_of(a.token_program, false, false),
        meta_of(a.associated_token_program, false, false),
        meta_of(a.system_program, false, false),
        meta_of(a.sysvar_rent, false, false),
        meta_of(a.amm, false, true),
        meta_of(a.amm_authority, false, false),
        meta_of(a.amm_open_orders, false, true),
        meta_of(a.lp_mint, false, true),
        meta_of(a.pc_mint, false, false),
        meta_of(a.coin_mint, false, false),
        meta_of(a.target_orders, false, true),
        meta_of(a.amm_config, false, false),
        meta_of(a.fee_destination, false, true),
        meta_of(a.market_program, false, false),
        meta_of(a.market, false, false),
        meta_of(a.user_wallet, true, true),
        meta_of(a.user_token_pc, false, true),
        meta_of(a.user_token_coin, false, true),
        meta_of(a.user_token_lp, false, true),
    ]
}

/// Appends the little-endian encoding of `v`.
fn push_le_u64(out: &mut Vec<u8>, v: u64)
    ensures
        final(out)@ == old(out)@ + le_bytes_u64(v),
{
    out.push((v & 0xff) as u8);
    out.push(((v >> 8) & 0xff) as u8);
    out.push(((v >> 16) & 0xff) as u8);
    out.push(((v >> 24) & 0xff) as u8);
    out.push(((v >> 32) & 0xff) as u8);
    out.push(((v >> 40) & 0xff) as u8);
    out.push(((v >> 48) & 0xff) as u8);
    out.push(((v >> 56) & 0xff) as u8);
    proof {
        assert(out@ =~= old(out)@ + le_bytes_u64(v));
    }
}

/// Serializes the parameter payload, byte for byte as `spec_payload` states.
pub fn build_payload(r: &PoolInitRequest) -> (p: Vec<u8>)
    ensures
        p@ == spec_payload(*r),
{
    let mut p: Vec<u8> = Vec::new();
    p.push(INITIALIZE2_TAG);
    p.push(r.nonce);
    push_le_u64(&mut p, r.open_time);
    push_le_u64(&mut p, r.init_pc_amount);
    push_le_u64(&mut p, r.init_coin_amount);
    proof {
        assert(p@ =~= spec_payload(*r));
    }
    p
}

/// Lays out the twenty account entries in protocol order.
fn build_metas(a: &CreateRaydiumPool) -> (m: Vec<AccountMeta>)
    ensures
        m@ == spec_metas(*a),
{
    let mut m: Vec<AccountMeta> = Vec::new();
    m.push(AccountMeta { address: a.amm_program.address, is_signer: false, is_writable: false });
    m.push(AccountMeta { address: a.token_program.address, is_signer: false, is_writable: false });
    m.push(AccountMeta { address: a.associated_token_program.address, is_signer: false, is_writable: false });
    m.push(AccountMeta { address: a.system_program.address, is_signer: false, is_writable: false });
    m.push(AccountMeta { address: a.sysvar_rent.address, is_signer: false, is_writable: false });
    m.push(AccountMeta { address: a.amm.address, is_signer: false, is_writable: true });
    m.push(AccountMeta { address: a.amm_authority.address, is_signer: false, is_writable: false });
    m.push(AccountMeta { address: a.amm_open_orders.address, is_signer: false, is_writable: true });
    m.push(AccountMeta { address: a.lp_mint.address, is_signer: false, is_writable: true });
    m.push(AccountMeta { address: a.pc_mint.address, is_signer: false, is_writable: false });
    m.push(AccountMeta { address: a.coin_mint.address, is_signer: false, is_writable: false });
    m.push(AccountMeta { address: a.target_orders.address, is_signer: false, is_writable: true });
    m.push(AccountMeta { address: a.amm_config.address, is_signer: false, is_writable: false });
    m.push(AccountMeta { address: a.fee_destination.address, is_signer: false, is_writable: true });
    m.push(AccountMeta { address: a.market_program.address, is_signer: false, is_writable: false });
    m.push(AccountMeta { address: a.market.address, is_signer: false, is_writable: false });
    m.push(AccountMeta { address: a.user_wallet.address, is_signer: true, is_writable: true });
    m.push(AccountMeta { address: a.user_token_pc.address, is_signer: false, is_writable: true });
    m.push(AccountMeta { address: a.user_token_coin.address, is_signer: false, is_writable: true });
    m.push(AccountMeta { address: a.user_token_lp.address, is_signer: false, is_writable: true });
    proof {
        assert(m@ =~= spec_metas(*a));
    }
    m
}

/// Assembles the cross-program call for a validated account set: exactly
/// twenty account entries in protocol order, and the byte-exact payload.
pub fn build(request: &PoolInitRequest, a: &CreateRaydiumPool) -> (inv: InvocationDescriptor)
    ensures
        inv.target_program@ == a.amm_program.address@,
        inv.payload@ == spec_payload(*request),
        inv.metas@ == spec_metas(*a),
        inv.metas@.len() == 20,
{
    InvocationDescriptor {
        target_program: a.amm_program.address,
        metas: build_metas(a),
        payload: build_payload(request),
    }
}

} // verus!
