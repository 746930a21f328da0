//! The migration pipeline: validate, build, invoke.
//!
//! `create_raydium_pool` is the pure part: it validates the supplied account
//! set and assembles the cross-program call, or refuses with the first
//! validation error, in which case no call is ever dispatched.  Dispatching
//! itself is a host-runtime effect; `HostState` and `run_migration` model it,
//! so that the all-or-nothing behaviour of the whole operation — a failed
//! call changes nothing, and a second initialization of the same pool fails —
//! is stated and proved rather than assumed.

use vstd::prelude::*;
use crate::accounts::{CreateRaydiumPool, MigrationError, keys_equal};
use crate::builder::{PoolInitRequest, InvocationDescriptor, build, spec_payload, spec_metas};
use crate::validate::{validate, spec_validate, account_set_valid, lemma_validate_ok_iff_valid};

verus! {

/// The chain clock is a signed timestamp while the protocol wants an
/// unsigned open time: the cast is made explicit here, and a clock before
/// the epoch is rejected instead of silently wrapping.
pub fn open_time_from_clock(unix_timestamp: i64) -> (r: Option<u64>)
    ensures
        unix_timestamp >= 0 ==> r == Some(unix_timestamp as u64),
        unix_timestamp < 0 ==> r is None,
{
    if unix_timestamp >= 0 {
        Some(unix_timestamp as u64)
    } else {
        None
    }
}

/// The request assembled from the entry-point parameters and the clock.
pub open spec fn request_of(nonce: u8, open_time: u64, init_pc_amount: u64, init_coin_amount: u64) -> PoolInitRequest {
    PoolInitRequest { nonce, open_time, init_pc_amount, init_coin_amount }
}

/// Validates the account set and assembles the pool-initialization call.
/// Fails fast: on the first validation error nothing is built and the error
/// is returned unchanged, so no external call can be attempted for a forged
/// account set.
pub fn create_raydium_pool(
    accounts: &CreateRaydiumPool,
    program_id: &[u8; 32],
    nonce: u8,
    open_time: u64,
    init_pc_amount: u64,
    init_coin_amount: u64,
) -> (r: Result<InvocationDescriptor, MigrationError>)
    ensures
        spec_validate(*accounts, program_id@) matches Err(e) ==> r matches Err(e2) && e2 == e,
        spec_validate(*accounts, program_id@) is Ok ==> (r matches Ok(inv)
            && inv.target_program@ == accounts.amm_program.address@
            && inv.payload@ == spec_payload(request_of(nonce, open_time, init_pc_amount, init_coin_amount))
            && inv.metas@ == spec_metas(*accounts)),
        r is Ok <==> account_set_valid(*accounts, program_id@),
{
    proof {
        lemma_validate_ok_iff_valid(*accounts, program_id@);
    }
    if let Err(e) = validate(accounts, program_id) {
        return Err(e);
    }
    let request = PoolInitRequest { nonce, open_time, init_pc_amount, init_coin_amount };
    Ok(build(&request, accounts))
}

/// A model of the host runtime and of the external program's pool registry:
/// which pool accounts the external program has initialized so far, and how
/// many cross-program calls have been dispatched.
pub struct HostState {
    /// Addresses of the pool accounts the external program owns.
    pub initialized: Vec<[u8; 32]>,
    /// How many cross-program calls were dispatched.
    pub invocations: u64,
}

impl HostState {
    /// A pool with this address has already been initialized.
    pub open spec fn has_pool(self, pool: Seq<u8>) -> bool {
        exists|i: int| 0 <= i < self.initialized@.len() && self.initialized@[i]@ == pool
    }
}

/// What one dispatched call returns: the external program rejects the call
/// when the pool account is already initialized, and accepts it otherwise.
pub open spec fn step_result(pre: HostState, pool: [u8; 32]) -> Result<(), MigrationError> {
    if pre.has_pool(pool@) {
        Err(MigrationError::ExternalCallFailure)
    } else {
        Ok(())
    }
}

/// How one dispatched call changes the host state: a rejected call changes
/// no pool account at all (the enclosing operation rolls back), an accepted
/// one initializes exactly the requested pool; either way the call counts.
pub open spec fn migration_step(pre: HostState, post: HostState, pool: [u8; 32]) -> bool {
    &&& post.invocations == pre.invocations + 1
    &&& if pre.has_pool(pool@) {
            post.initialized@ == pre.initialized@
        } else {
            post.initialized@ == pre.initialized@.push(pool)
        }
}

/// Is this pool address already initialized?
fn contains_pool(state: &HostState, pool: &[u8; 32]) -> (r: bool)
    ensures
        r == state.has_pool(pool@),
{
    let n = state.initialized.len();
    let mut i: usize = 0;
    while i < n
        invariant
            0 <= i <= n,
            n == state.initialized@.len(),
            forall|j: int| 0 <= j < i ==> state.initialized@[j]@ != pool@,
        decreases n - i,
    {
        if keys_equal(&state.initialized[i], pool) {
            return true;
        }
        i += 1;
    }
    false
}

/// The whole operation against the modeled host: validate, build, dispatch.
/// A validation failure aborts before any call is dispatched and leaves the
/// host untouched; a dispatched call either initializes the pool or is
/// rejected by the external program with every earlier effect rolled back.
pub fn run_migration(
    state: &mut HostState,
    accounts: &CreateRaydiumPool,
    program_id: &[u8; 32],
    nonce: u8,
    open_time: u64,
    init_pc_amount: u64,
    init_coin_amount: u64,
) -> (r: Result<(), MigrationError>)
    requires
        old(state).invocations < u64::MAX,
    ensures
        spec_validate(*accounts, program_id@) matches Err(e) ==> r matches Err(e2) && e2 == e
            && *final(state) == *old(state),
        spec_validate(*accounts, program_id@) is Ok ==> migration_step(*old(state), *final(state), accounts.amm.address)
            && r == step_result(*old(state), accounts.amm.address),
        r is Ok <==> account_set_valid(*accounts, program_id@)
            && !old(state).has_pool(accounts.amm.address@),
{
    proof {
        lemma_validate_ok_iff_valid(*accounts, program_id@);
    }
    if let Err(e) = create_raydium_pool(accounts, program_id, nonce, open_time, init_pc_amount, init_coin_amount) {
        return Err(e);
    }
    state.invocations = state.invocations + 1;
    if contains_pool(state, &accounts.amm.address) {
        return Err(MigrationError::ExternalCallFailure);
    }
    state.initialized.push(accounts.amm.address);
    Ok(())
}

/// Exactly one of two sequential attempts for the same (not yet initialized)
/// pool succeeds: the first call initializes it, and the second is rejected
/// by the external program instead of silently succeeding.
pub proof fn lemma_idempotence_boundary(s0: HostState, s1: HostState, s2: HostState, pool: [u8; 32])
    requires
        !s0.has_pool(pool@),
        migration_step(s0, s1, pool),
        migration_step(s1, s2, pool),
    ensures
        step_result(s0, pool) == Ok::<(), MigrationError>(()),
        step_result(s1, pool) == Err::<(), MigrationError>(MigrationError::ExternalCallFailure),
        s2.initialized@ == s1.initialized@,
{
    assert(s1.initialized@[s0.initialized@.len() as int]@ == pool@);
    assert(s1.has_pool(pool@));
}

/// Atomic rollback: when the dispatched call fails, no pool account changes
/// — the state after the operation holds exactly the pools it held before.
pub proof fn lemma_failed_call_rolls_back(pre: HostState, post: HostState, pool: [u8; 32])
    requires
        migration_step(pre, post, pool),
        step_result(pre, pool) is Err,
    ensures
        post.initialized@ == pre.initialized@,
{
}

} // verus!
