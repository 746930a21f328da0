//! Deterministic address derivation ("program-derived addresses").
//!
//! An address is derived from an ordered list of seed byte-strings, a one-byte
//! bump, and the identifier of the owning program.  A derivation is *canonical*
//! when the bump is the highest byte in `[0, 255]` whose candidate address lies
//! off the ed25519 curve; scanning downward from 255 makes the result unique,
//! which is what prevents an alternate, non-canonical derivation from forging a
//! colliding account.

use vstd::prelude::*;

verus! {

/// The address that the hash derivation assigns to `seeds ++ [bump]` under the
/// program `program`, when that address lies off the ed25519 curve; `None`
/// when the candidate lies on the curve or the seeds are malformed (too many
/// seeds, or one longer than the derivation allows).
pub uninterp spec fn pda_candidate(seeds: Seq<Seq<u8>>, bump: u8, program: Seq<u8>) -> Option<Seq<u8>>;

/// `bump` yields a usable (off-curve) derived address for `seeds` under `program`.
pub open spec fn bump_found(seeds: Seq<Seq<u8>>, bump: u8, program: Seq<u8>) -> bool {
    pda_candidate(seeds, bump, program) is Some
}

/// A derived address descriptor: the address together with the bump byte that
/// produced it.
pub struct DerivedAddress {
    pub address: [u8; 32],
    pub bump: u8,
}

/// `addr` and `bump` form the canonical derivation for `seeds` under
/// `program`: `bump` is the highest byte whose candidate lies off the curve,
/// and `addr` is that candidate.
pub open spec fn is_canonical(seeds: Seq<Seq<u8>>, program: Seq<u8>, addr: Seq<u8>, bump: u8) -> bool {
    &&& pda_candidate(seeds, bump, program) == Some(addr)
    &&& forall|b: u8| b > bump ==> !bump_found(seeds, b, program)
}

/// No bump in `[0, 255]` yields an off-curve candidate.
pub open spec fn derivation_exhausted(seeds: Seq<Seq<u8>>, program: Seq<u8>) -> bool {
    forall|b: u8| !bump_found(seeds, b, program)
}

/// What `derive_address` returns: the canonical descriptor when one exists,
/// `None` exactly when every bump fails.
pub open spec fn derivation_result(seeds: Seq<Seq<u8>>, program: Seq<u8>, r: Option<DerivedAddress>) -> bool {
    match r {
        Some(d) => is_canonical(seeds, program, d.address@, d.bump),
        None => derivation_exhausted(seeds, program),
    }
}

/// Relies on `Pubkey::create_program_address` (solana-pubkey, re-exported by
/// anchor_lang): it sha256-hashes the seeds, the bump byte, the program
/// identifier and a fixed domain tag, fails when the digest is an ed25519
/// curve point or the seeds are malformed, and depends on its arguments alone.
#[verifier::external_body]
fn try_candidate(seeds: &Vec<Vec<u8>>, bump: u8, program: &[u8; 32]) -> (r: Option<[u8; 32]>)
    ensures
        r matches Some(a) ==> pda_candidate(seeds.deep_view(), bump, program@) == Some(a@),
        r is None ==> pda_candidate(seeds.deep_view(), bump, program@) is None,
{
    let mut refs: Vec<&[u8]> = seeds.iter().map(|s| s.as_slice()).collect();
    let bump_seed = [bump];
    refs.push(&bump_seed);
    let program_id = anchor_lang::prelude::Pubkey::new_from_array(*program);
    match anchor_lang::prelude::Pubkey::create_program_address(&refs, &program_id) {
        Ok(a) => Some(a.to_bytes()),
        Err(_) => None,
    }
}

/// Derives the canonical address descriptor for `seeds` under `program` by
/// trying bumps downward from 255 and accepting the first off-curve candidate.
/// Returns `None` only when every bump fails, which a caller treats as an
/// internal invariant violation, not as bad user input.
pub fn derive_address(seeds: &Vec<Vec<u8>>, program: &[u8; 32]) -> (r: Option<DerivedAddress>)
    ensures
        derivation_result(seeds.deep_view(), program@, r),
{
    let mut bump: u8 = 255;
    loop
        invariant
            forall|b: u8| b > bump ==> !bump_found(seeds.deep_view(), b, program@),
        decreases bump,
    {
        match try_candidate(seeds, bump, program) {
            Some(address) => {
                return Some(DerivedAddress { address, bump });
            }
            None => {}
        }
        if bump == 0 {
            return None;
        }
        bump = bump - 1;
    }
}

/// There is at most one canonical derivation: two descriptors that both
/// satisfy the canonical-bump rule for the same seeds and program agree on
/// the address and on the bump.
pub proof fn lemma_canonical_unique(
    seeds: Seq<Seq<u8>>,
    program: Seq<u8>,
    a1: Seq<u8>,
    b1: u8,
    a2: Seq<u8>,
    b2: u8,
)
    requires
        is_canonical(seeds, program, a1, b1),
        is_canonical(seeds, program, a2, b2),
    ensures
        a1 == a2,
        b1 == b2,
{
    if b1 < b2 {
        assert(!bump_found(seeds, b2, program));
    }
    if b2 < b1 {
        assert(!bump_found(seeds, b1, program));
    }
    assert(b1 == b2);
}

/// Determinism of derivation: any two results that `derive_address` may
/// return for the same seeds and program are the same descriptor.
pub proof fn lemma_derivation_deterministic(
    seeds: Seq<Seq<u8>>,
    program: Seq<u8>,
    r1: Option<DerivedAddress>,
    r2: Option<DerivedAddress>,
)
    requires
        derivation_result(seeds, program, r1),
        derivation_result(seeds, program, r2),
    ensures
        r1 is Some <==> r2 is Some,
        r1 is Some && r2 is Some ==> r1->0.address@ == r2->0.address@ && r1->0.bump == r2->0.bump,
{
    if r1 is Some && r2 is None {
        let d1 = r1->0;
        assert(!bump_found(seeds, d1.bump, program));
    }
    if r1 is None && r2 is Some {
        let d2 = r2->0;
        assert(!bump_found(seeds, d2.bump, program));
    }
    if r1 is Some && r2 is Some {
        let d1 = r1->0;
        let d2 = r2->0;
        lemma_canonical_unique(seeds, program, d1.address@, d1.bump, d2.address@, d2.bump);
    }
}

} // verus!
