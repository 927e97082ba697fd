//! Deterministic derivation of account addresses from seeds.
use vstd::prelude::*;

use crate::{BridgeError, Pubkey};

verus! {

/// The address and bump found for `seeds` under `program_id`, if any.
pub uninterp spec fn program_address(seeds: Seq<Seq<u8>>, program_id: Seq<u8>) -> Option<
    (Seq<u8>, u8),
>;

/// Relies on `Pubkey::try_find_program_address`: a function of the seeds and
/// the program id, which finds nothing when there are sixteen or more seeds
/// or a seed is longer than 32 bytes.
#[verifier::external_body]
fn try_find_program_address(seeds: &Vec<Vec<u8>>, program_id: &Pubkey) -> (r: Option<(Pubkey, u8)>)
    ensures
        r is None <==> program_address(seeds.deep_view(), program_id@) is None,
        r matches Some(found) ==> program_address(seeds.deep_view(), program_id@) == Some(
            (found.0@, found.1),
        ),
        seeds@.len() >= 16 || (exists|i: int| 0 <= i < seeds@.len() && seeds@[i]@.len() > 32)
            ==> r is None,
{
    let slices: Vec<&[u8]> = seeds.iter().map(|v| v.as_slice()).collect();
    let id = solana_program::pubkey::Pubkey::new_from_array(program_id.0);
    solana_program::pubkey::Pubkey::try_find_program_address(&slices, &id).map(
        |(k, bump)| (Pubkey(k.to_bytes()), bump),
    )
}

/// The address derived from `seeds` under `program_id`.
pub open spec fn derived_key(seeds: Seq<Seq<u8>>, program_id: Seq<u8>) -> Result<
    Seq<u8>,
    BridgeError,
> {
    match program_address(seeds, program_id) {
        Some(found) => Ok(found.0),
        None => Err(BridgeError::AddressDerivationFailed),
    }
}

/// Derives the address of `seeds` under `program_id`, searching for a bump
/// that keeps it off the signing curve.
pub fn find_program_address(seeds: &Vec<Vec<u8>>, program_id: &Pubkey) -> (r: Result<
    (Pubkey, u8),
    BridgeError,
>)
    ensures
        r is Err <==> program_address(seeds.deep_view(), program_id@) is None,
        r is Err ==> r == Err::<(Pubkey, u8), BridgeError>(BridgeError::AddressDerivationFailed),
        r matches Ok(found) ==> program_address(seeds.deep_view(), program_id@) == Some(
            (found.0@, found.1),
        ),
{
    match try_find_program_address(seeds, program_id) {
        Some(found) => Ok(found),
        None => Err(BridgeError::AddressDerivationFailed),
    }
}

/// The address of `seed` under `program_id`.
pub fn seeds_to_pubkey(program_id: &Pubkey, seed: &Vec<Vec<u8>>) -> (r: Result<Pubkey, BridgeError>)
    ensures
        r is Err <==> derived_key(seed.deep_view(), program_id@) is Err,
        r is Err ==> r == Err::<Pubkey, BridgeError>(BridgeError::AddressDerivationFailed),
        r matches Ok(k) ==> derived_key(seed.deep_view(), program_id@) == Ok::<
            Seq<u8>,
            BridgeError,
        >(k@),
{
    match find_program_address(seed, program_id) {
        Ok(found) => Ok(found.0),
        Err(e) => Err(e),
    }
}

/// Derivation is a function: the same seeds under the same program always
/// give the same address.
pub proof fn lemma_derivation_deterministic(
    seeds1: Seq<Seq<u8>>,
    seeds2: Seq<Seq<u8>>,
    program1: Seq<u8>,
    program2: Seq<u8>,
)
    requires
        seeds1 == seeds2,
        program1 == program2,
    ensures
        derived_key(seeds1, program1) == derived_key(seeds2, program2),
{
}

} // verus!
