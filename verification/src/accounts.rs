//! The account set a caller supplies for one pool-initialization call, and
//! the errors with which the pipeline refuses it.

use vstd::prelude::*;
use vstd::slice::slice_to_vec;

verus! {

/// One account as the caller supplies it: its address, the program that owns
/// it, and the signer / writable flags the host runtime attests.
#[derive(Clone, Copy)]
pub struct AccountRef {
    pub address: [u8; 32],
    pub owner: [u8; 32],
    pub is_signer: bool,
    pub is_writable: bool,
}

/// The full account set for one pool-initialization call, under the same role
/// names as the on-chain instruction context that carries it.
#[derive(Clone, Copy)]
pub struct CreateRaydiumPool {
    /// The external AMM program to be invoked.
    pub amm_program: AccountRef,
    /// The SPL token program.
    pub token_program: AccountRef,
    /// The associated-token program.
    pub associated_token_program: AccountRef,
    /// The system program.
    pub system_program: AccountRef,
    /// The rent sysvar.
    pub sysvar_rent: AccountRef,
    /// The pool account, derived from the market under the AMM program.
    pub amm: AccountRef,
    /// The pool authority, derived under the AMM program.
    pub amm_authority: AccountRef,
    /// The pool's open-orders account, derived under the AMM program.
    pub amm_open_orders: AccountRef,
    /// The pool's LP mint, derived under the AMM program.
    pub lp_mint: AccountRef,
    /// The base-token mint.
    pub coin_mint: AccountRef,
    /// The quote-token mint; the token program must own it.
    pub pc_mint: AccountRef,
    /// The pool's target-orders account, derived under the AMM program.
    pub target_orders: AccountRef,
    /// The AMM's global config account, derived under the AMM program.
    pub amm_config: AccountRef,
    /// The account that receives the pool-creation fee.
    pub fee_destination: AccountRef,
    /// The market program that owns the market account.
    pub market_program: AccountRef,
    /// The market whose pool is being created; the market program must own it.
    pub market: AccountRef,
    /// The wallet paying for and signing the call.
    pub user_wallet: AccountRef,
    /// The wallet's base-token account; the token program must own it.
    pub user_token_coin: AccountRef,
    /// The wallet's quote-token account; the token program must own it.
    pub user_token_pc: AccountRef,
    /// The wallet's LP-token account, derived under the calling program.
    pub user_token_lp: AccountRef,
}

/// Why a migration attempt was refused.  The first four arise before any
/// external call; the last carries an external rejection back to the caller.
#[derive(Clone, Copy, Debug, PartialEq, Eq, Structural)]
pub enum MigrationError {
    /// A supplied address does not equal the one expected for its role.
    AddressMismatch,
    /// A supplied account is not owned by the program its role requires.
    OwnerMismatch,
    /// The wallet is not a verified signer.
    SignerMissing,
    /// An account that the call must write to is not marked writable.
    WritableMissing,
    /// No bump byte yields an off-curve derived address; an internal
    /// invariant violation, not a user input error.
    DerivationExhausted,
    /// The external program rejected the call; the failure is propagated
    /// verbatim and aborts the whole enclosing operation.
    ExternalCallFailure,
}

/// Byte-wise equality of two addresses.
pub fn keys_equal(a: &[u8; 32], b: &[u8; 32]) -> (r: bool)
    ensures
        r == (a@ == b@),
{
    let mut i: usize = 0;
    while i < 32
        invariant
            0 <= i <= 32,
            forall|j: int| 0 <= j < i ==> a@[j] == b@[j],
        decreases 32 - i,
    {
        if a[i] != b[i] {
            return false;
        }
        i += 1;
    }
    proof {
        assert(a@ =~= b@);
    }
    true
}

/// Copies an address into a seed byte-string.
pub fn key_to_vec(a: &[u8; 32]) -> (r: Vec<u8>)
    ensures
        r@ == a@,
{
    slice_to_vec(a.as_slice())
}

} // verus!
