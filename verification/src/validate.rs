//! The account validator.
//!
//! Every supplied account is checked against the address the deriver computes
//! for its role, or against a fixed owning-program identity, before any
//! external call is assembled.  Each check is a named predicate of its own, so
//! the whole validation is the conjunction `account_set_valid`; the order in
//! which the checks run (and so which error a doubly-bad set yields) is pinned
//! by `spec_validate`.

use vstd::prelude::*;
use crate::accounts::{AccountRef, CreateRaydiumPool, MigrationError, keys_equal, key_to_vec};
use crate::ids::{
    spec_token_program_id, spec_associated_token_program_id, spec_system_program_id,
    spec_rent_sysvar_id, token_program_id, associated_token_program_id, system_program_id,
    rent_sysvar_id, spec_seed_amm_associated, spec_seed_amm_authority, spec_seed_open_orders,
    spec_seed_lp_mint, spec_seed_target_orders, spec_seed_amm_config, seed_amm_associated,
    seed_amm_authority, seed_open_orders, seed_lp_mint, seed_target_orders, seed_amm_config,
};
use crate::pda::{derive_address, is_canonical, derivation_exhausted, lemma_canonical_unique};

verus! {

/// Seeds of the pool account: the AMM program, the market, and a literal tag.
pub open spec fn pool_seeds(a: CreateRaydiumPool) -> Seq<Seq<u8>> {
    seq![a.amm_program.address@, a.market.address@, spec_seed_amm_associated()]
}

/// Seeds of the pool authority: a single literal tag.
pub open spec fn authority_seeds() -> Seq<Seq<u8>> {
    seq![spec_seed_amm_authority()]
}

/// Seeds of the open-orders account.
pub open spec fn open_orders_seeds(a: CreateRaydiumPool) -> Seq<Seq<u8>> {
    seq![a.amm_program.address@, a.market.address@, spec_seed_open_orders()]
}

/// Seeds of the LP mint.
pub open spec fn lp_mint_seeds(a: CreateRaydiumPool) -> Seq<Seq<u8>> {
    seq![a.amm_program.address@, a.market.address@, spec_seed_lp_mint()]
}

/// Seeds of the target-orders account.
pub open spec fn target_orders_seeds(a: CreateRaydiumPool) -> Seq<Seq<u8>> {
    seq![a.amm_program.address@, a.market.address@, spec_seed_target_orders()]
}

/// Seeds of the AMM config account: a single literal tag.
pub open spec fn config_seeds() -> Seq<Seq<u8>> {
    seq![spec_seed_amm_config()]
}

/// Seeds of the wallet's LP-token account, derived under the calling program.
pub open spec fn user_lp_seeds(a: CreateRaydiumPool) -> Seq<Seq<u8>> {
    seq![a.user_wallet.address@, a.token_program.address@, a.lp_mint.address@]
}

/// The supplied address is the canonical derivation for `seeds` under `program`.
pub open spec fn pda_checks_out(supplied: Seq<u8>, seeds: Seq<Seq<u8>>, program: Seq<u8>) -> bool {
    exists|b: u8| is_canonical(seeds, program, supplied, b)
}

/// Outcome of checking one derived account: exhaustion is an internal fault
/// and is reported ahead of a mere mismatch.
pub open spec fn spec_check_pda(supplied: Seq<u8>, seeds: Seq<Seq<u8>>, program: Seq<u8>) -> Result<(), MigrationError> {
    if derivation_exhausted(seeds, program) {
        Err(MigrationError::DerivationExhausted)
    } else if !pda_checks_out(supplied, seeds, program) {
        Err(MigrationError::AddressMismatch)
    } else {
        Ok(())
    }
}

/// The four fixed program identities are the ones the protocol names.
pub open spec fn fixed_programs_ok(a: CreateRaydiumPool) -> bool {
    &&& a.token_program.address@ == spec_token_program_id()
    &&& a.associated_token_program.address@ == spec_associated_token_program_id()
    &&& a.system_program.address@ == spec_system_program_id()
    &&& a.sysvar_rent.address@ == spec_rent_sysvar_id()
}

/// Every derived account matches its canonical derivation.
pub open spec fn derived_accounts_ok(a: CreateRaydiumPool, program_id: Seq<u8>) -> bool {
    let amm_p = a.amm_program.address@;
    &&& pda_checks_out(a.amm.address@, pool_seeds(a), amm_p)
    &&& pda_checks_out(a.amm_authority.address@, authority_seeds(), amm_p)
    &&& pda_checks_out(a.amm_open_orders.address@, open_orders_seeds(a), amm_p)
    &&& pda_checks_out(a.lp_mint.address@, lp_mint_seeds(a), amm_p)
    &&& pda_checks_out(a.target_orders.address@, target_orders_seeds(a), amm_p)
    &&& pda_checks_out(a.amm_config.address@, config_seeds(), amm_p)
    &&& pda_checks_out(a.user_token_lp.address@, user_lp_seeds(a), program_id)
}

/// Every account that is not derived is owned by the program its role expects.
pub open spec fn owners_ok(a: CreateRaydiumPool) -> bool {
    &&& a.pc_mint.owner@ == a.token_program.address@
    &&& a.market.owner@ == a.market_program.address@
    &&& a.user_token_pc.owner@ == a.token_program.address@
    &&& a.user_token_coin.owner@ == a.token_program.address@
}

/// The wallet signs, and the accounts the call writes to are writable.
pub open spec fn permissions_ok(a: CreateRaydiumPool) -> bool {
    &&& a.user_wallet.is_signer
    &&& a.fee_destination.is_writable
    &&& a.user_token_pc.is_writable
    &&& a.user_token_coin.is_writable
}

/// The whole account set passes validation.
pub open spec fn account_set_valid(a: CreateRaydiumPool, program_id: Seq<u8>) -> bool {
    &&& fixed_programs_ok(a)
    &&& derived_accounts_ok(a, program_id)
    &&& owners_ok(a)
    &&& permissions_ok(a)
}

/// The exact outcome of validation, checks run in role order: the fixed
/// program identities, then each derived account, each owner, and last the
/// signer and writable flags.  The first failing check names the error.
pub open spec fn spec_validate(a: CreateRaydiumPool, program_id: Seq<u8>) -> Result<(), MigrationError> {
    let amm_p = a.amm_program.address@;
    let r_pool = spec_check_pda(a.amm.address@, pool_seeds(a), amm_p);
    let r_auth = spec_check_pda(a.amm_authority.address@, authority_seeds(), amm_p);
    let r_oo = spec_check_pda(a.amm_open_orders.address@, open_orders_seeds(a), amm_p);
    let r_lp = spec_check_pda(a.lp_mint.address@, lp_mint_seeds(a), amm_p);
    let r_target = spec_check_pda(a.target_orders.address@, target_orders_seeds(a), amm_p);
    let r_config = spec_check_pda(a.amm_config.address@, config_seeds(), amm_p);
    let r_userlp = spec_check_pda(a.user_token_lp.address@, user_lp_seeds(a), program_id);
    if a.token_program.address@ != spec_token_program_id() {
        Err(MigrationError::AddressMismatch)
    } else if a.associated_token_program.address@ != spec_associated_token_program_id() {
        Err(MigrationError::AddressMismatch)
    } else if a.system_program.address@ != spec_system_program_id() {
        Err(MigrationError::AddressMismatch)
    } else if a.sysvar_rent.address@ != spec_rent_sysvar_id() {
        Err(MigrationError::AddressMismatch)
    } else if r_pool is Err {
        r_pool
    } else if r_auth is Err {
        r_auth
    } else if r_oo is Err {
        r_oo
    } else if r_lp is Err {
        r_lp
    } else if a.pc_mint.owner@ != a.token_program.address@ {
        Err(MigrationError::OwnerMismatch)
    } else if r_target is Err {
        r_target
    } else if r_config is Err {
        r_config
    } else if a.market.owner@ != a.market_program.address@ {
        Err(MigrationError::OwnerMismatch)
    } else if a.user_token_pc.owner@ != a.token_program.address@ {
        Err(MigrationError::OwnerMismatch)
    } else if a.user_token_coin.owner@ != a.token_program.address@ {
        Err(MigrationError::OwnerMismatch)
    } else if r_userlp is Err {
        r_userlp
    } else if !a.user_wallet.is_signer {
        Err(MigrationError::SignerMissing)
    } else if !a.fee_destination.is_writable {
        Err(MigrationError::WritableMissing)
    } else if !a.user_token_pc.is_writable {
        Err(MigrationError::WritableMissing)
    } else if !a.user_token_coin.is_writable {
        Err(MigrationError::WritableMissing)
    } else {
        Ok(())
    }
}

/// Validation succeeds exactly on the sets every named predicate accepts.
pub proof fn lemma_validate_ok_iff_valid(a: CreateRaydiumPool, program_id: Seq<u8>)
    ensures
        spec_validate(a, program_id) is Ok <==> account_set_valid(a, program_id),
{
    if account_set_valid(a, program_id) {
        lemma_checks_out_implies_ok(a.amm.address@, pool_seeds(a), a.amm_program.address@);
        lemma_checks_out_implies_ok(a.amm_authority.address@, authority_seeds(), a.amm_program.address@);
        lemma_checks_out_implies_ok(a.amm_open_orders.address@, open_orders_seeds(a), a.amm_program.address@);
        lemma_checks_out_implies_ok(a.lp_mint.address@, lp_mint_seeds(a), a.amm_program.address@);
        lemma_checks_out_implies_ok(a.target_orders.address@, target_orders_seeds(a), a.amm_program.address@);
        lemma_checks_out_implies_ok(a.amm_config.address@, config_seeds(), a.amm_program.address@);
        lemma_checks_out_implies_ok(a.user_token_lp.address@, user_lp_seeds(a), program_id);
    }
}

/// Fail-fast on a forged pool account: when the fixed program identities are
/// right but the supplied pool address is not the canonical derivation for
/// its seeds, validation refuses with `AddressMismatch` — and by
/// `run_migration`'s contract no call is then ever dispatched.
pub proof fn lemma_forged_pool_address_fails(
    a: CreateRaydiumPool,
    genuine: Seq<u8>,
    bump: u8,
    program_id: Seq<u8>,
)
    requires
        fixed_programs_ok(a),
        is_canonical(pool_seeds(a), a.amm_program.address@, genuine, bump),
        a.amm.address@ != genuine,
    ensures
        spec_validate(a, program_id) == Err::<(), MigrationError>(MigrationError::AddressMismatch),
{
    let amm_p = a.amm_program.address@;
    assert(crate::pda::bump_found(pool_seeds(a), bump, amm_p));
    if pda_checks_out(a.amm.address@, pool_seeds(a), amm_p) {
        let b = choose|b: u8| is_canonical(pool_seeds(a), amm_p, a.amm.address@, b);
        lemma_canonical_unique(pool_seeds(a), amm_p, a.amm.address@, b, genuine, bump);
    }
}

/// A derived account that matches its canonical derivation passes its check:
/// a canonical bump in particular is a bump that was found, so the derivation
/// is not exhausted.
proof fn lemma_checks_out_implies_ok(supplied: Seq<u8>, seeds: Seq<Seq<u8>>, program: Seq<u8>)
    requires
        pda_checks_out(supplied, seeds, program),
    ensures
        spec_check_pda(supplied, seeds, program) is Ok,
{
    let b = choose|b: u8| is_canonical(seeds, program, supplied, b);
    assert(crate::pda::bump_found(seeds, b, program));
}

/// Builds the seed list `[amm program, market, tag]` shared by the pool,
/// open-orders, LP-mint and target-orders derivations.
fn market_seeds(a: &CreateRaydiumPool, tag: Vec<u8>) -> (s: Vec<Vec<u8>>)
    ensures
        s.deep_view() == seq![a.amm_program.address@, a.market.address@, tag@],
{
    let mut s: Vec<Vec<u8>> = Vec::new();
    s.push(key_to_vec(&a.amm_program.address));
    s.push(key_to_vec(&a.market.address));
    s.push(tag);
    proof {
        assert(s.deep_view() =~~= seq![a.amm_program.address@, a.market.address@, s@[2]@]);
    }
    s
}

/// Builds a seed list of one literal tag.
fn single_seed(tag: Vec<u8>) -> (s: Vec<Vec<u8>>)
    ensures
        s.deep_view() == seq![tag@],
{
    let mut s: Vec<Vec<u8>> = Vec::new();
    s.push(tag);
    proof {
        assert(s.deep_view() =~~= seq![s@[0]@]);
    }
    s
}

/// Builds the seed list of the wallet's LP-token account.
fn user_lp_seeds_vec(a: &CreateRaydiumPool) -> (s: Vec<Vec<u8>>)
    ensures
        s.deep_view() == user_lp_seeds(*a),
{
    let mut s: Vec<Vec<u8>> = Vec::new();
    s.push(key_to_vec(&a.user_wallet.address));
    s.push(key_to_vec(&a.token_program.address));
    s.push(key_to_vec(&a.lp_mint.address));
    proof {
        assert(s.deep_view() =~~= user_lp_seeds(*a));
    }
    s
}

/// Recomputes the derivation for one account and compares the supplied
/// address with it.
fn check_pda_account(supplied: &AccountRef, seeds: Vec<Vec<u8>>, program: &[u8; 32]) -> (r: Result<(), MigrationError>)
    ensures
        r == spec_check_pda(supplied.address@, seeds.deep_view(), program@),
{
    let ghost seeds_v = seeds.deep_view();
    match derive_address(&seeds, program) {
        None => Err(MigrationError::DerivationExhausted),
        Some(d) => {
            proof {
                assert(crate::pda::bump_found(seeds_v, d.bump, program@));
            }
            if keys_equal(&supplied.address, &d.address) {
                proof {
                    assert(is_canonical(seeds_v, program@, supplied.address@, d.bump));
                }
                Ok(())
            } else {
                proof {
                    if pda_checks_out(supplied.address@, seeds_v, program@) {
                        let b = choose|b: u8| is_canonical(seeds_v, program@, supplied.address@, b);
                        lemma_canonical_unique(seeds_v, program@, supplied.address@, b, d.address@, d.bump);
                    }
                }
                Err(MigrationError::AddressMismatch)
            }
        }
    }
}

/// Validates the whole account set against the derivations and identities its
/// roles require, in the order `spec_validate` gives; returns the first
/// failure, before any external call is assembled.
pub fn validate(a: &CreateRaydiumPool, program_id: &[u8; 32]) -> (r: Result<(), MigrationError>)
    ensures
        r == spec_validate(*a, program_id@),
        r is Ok <==> account_set_valid(*a, program_id@),
{
    let r = validate_inner(a, program_id);
    proof {
        lemma_validate_ok_iff_valid(*a, program_id@);
    }
    r
}

/// The check cascade behind `validate`.
fn validate_inner(a: &CreateRaydiumPool, program_id: &[u8; 32]) -> (r: Result<(), MigrationError>)
    ensures
        r == spec_validate(*a, program_id@),
{
    if !keys_equal(&a.token_program.address, &token_program_id()) {
        return Err(MigrationError::AddressMismatch);
    }
    if !keys_equal(&a.associated_token_program.address, &associated_token_program_id()) {
        return Err(MigrationError::AddressMismatch);
    }
    if !keys_equal(&a.system_program.address, &system_program_id()) {
        return Err(MigrationError::AddressMismatch);
    }
    if !keys_equal(&a.sysvar_rent.address, &rent_sysvar_id()) {
        return Err(MigrationError::AddressMismatch);
    }
    let amm_p = a.amm_program.address;
    if let Err(e) = check_pda_account(&a.amm, market_seeds(a, seed_amm_associated()), &amm_p) {
        return Err(e);
    }
    if let Err(e) = check_pda_account(&a.amm_authority, single_seed(seed_amm_authority()), &amm_p) {
        return Err(e);
    }
    if let Err(e) = check_pda_account(&a.amm_open_orders, market_seeds(a, seed_open_orders()), &amm_p) {
        return Err(e);
    }
    if let Err(e) = check_pda_account(&a.lp_mint, market_seeds(a, seed_lp_mint()), &amm_p) {
        return Err(e);
    }
    if !keys_equal(&a.pc_mint.owner, &a.token_program.address) {
        return Err(MigrationError::OwnerMismatch);
    }
    if let Err(e) = check_pda_account(&a.target_orders, market_seeds(a, seed_target_orders()), &amm_p) {
        return Err(e);
    }
    if let Err(e) = check_pda_account(&a.amm_config, single_seed(seed_amm_config()), &amm_p) {
        return Err(e);
    }
    if !keys_equal(&a.market.owner, &a.market_program.address) {
        return Err(MigrationError::OwnerMismatch);
    }
    if !keys_equal(&a.user_token_pc.owner, &a.token_program.address) {
        return Err(MigrationError::OwnerMismatch);
    }
    if !keys_equal(&a.user_token_coin.owner, &a.token_program.address) {
        return Err(MigrationError::OwnerMismatch);
    }
    if let Err(e) = check_pda_account(&a.user_token_lp, user_lp_seeds_vec(a), program_id) {
        return Err(e);
    }
    if !a.user_wallet.is_signer {
        return Err(MigrationError::SignerMissing);
    }
    if !a.fee_destination.is_writable {
        return Err(MigrationError::WritableMissing);
    }
    if !a.user_token_pc.is_writable {
        return Err(MigrationError::WritableMissing);
    }
    if !a.user_token_coin.is_writable {
        return Err(MigrationError::WritableMissing);
    }
    Ok(())
}

} // verus!
