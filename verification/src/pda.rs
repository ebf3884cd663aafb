//! Deterministic derivation of storage addresses from fixed seeds plus a
//! caller-supplied bump byte.
//!
//! The derivation itself is a pure function (a SHA-256 digest) of the seed
//! list, the bump and the program identity; it is left uninterpreted here,
//! and the rest of the library only ever compares derived addresses.

use vstd::prelude::*;

verus! {

/// The program-derived address for a seed list, bump byte and program
/// identity, left uninterpreted: a pure function of those inputs alone.
pub uninterp spec fn derived_address(seeds: Seq<Seq<u8>>, bump: u8, program_id: Seq<u8>) -> Seq<u8>;

/// Relies on `pinocchio::Address::try_derive_address`: the derived address is
/// a pure function (a SHA-256 digest) of the seed list, the bump and the
/// program id, and the call returns it whenever every seed is at most 32
/// bytes long.
#[verifier::external_body]
pub(crate) fn derive_address_one_seed(seed: &[u8], bump: u8, program_id: &[u8; 32]) -> (r: [u8;
    32])
    requires
        seed@.len() <= 32,
    ensures
        r@ == derived_address(seq![seed@], bump, program_id@),
{
    let id = pinocchio::Address::from(*program_id);
    let address = pinocchio::Address::try_derive_address(&[seed], Some(bump), &id).unwrap();
    address.to_bytes()
}

/// Relies on `pinocchio::Address::try_derive_address`, exactly as
/// `derive_address_one_seed` does, for the three-seed shape.
#[verifier::external_body]
pub(crate) fn derive_address_three_seeds(
    seed: &[u8],
    second: &[u8; 32],
    third: &[u8; 32],
    bump: u8,
    program_id: &[u8; 32],
) -> (r: [u8; 32])
    requires
        seed@.len() <= 32,
    ensures
        r@ == derived_address(seq![seed@, second@, third@], bump, program_id@),
{
    let id = pinocchio::Address::from(*program_id);
    let seeds: [&[u8]; 3] = [seed, second.as_slice(), third.as_slice()];
    let address = pinocchio::Address::try_derive_address(&seeds, Some(bump), &id).unwrap();
    address.to_bytes()
}

} // verus!
