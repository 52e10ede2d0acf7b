//! Derived authorities.
//!
//! Treasuries and vesting balances are not moved by any person's key. They are
//! moved by an authority whose address is derived from a fixed label, the
//! identities it is bound to, the identity of this protocol and a one-byte
//! bump. The derivation itself is the ledger's; what is bound to what is
//! decided here.

use vstd::prelude::*;
use anchor_lang::prelude::Pubkey;
use crate::address::Address;

verus! {

/// The address that the ledger derives for `program_id` from `seeds`, the last
/// of which is by convention the bump; `None` where the seeds derive nothing.
pub uninterp spec fn derived_address(seeds: Seq<Seq<u8>>, program_id: Seq<u8>) -> Option<Seq<u8>>;

/// The address and bump that the ledger's search settles on for `program_id`
/// and `seeds` (given without a bump); `None` where the search finds nothing.
pub uninterp spec fn canonical_address(seeds: Seq<Seq<u8>>, program_id: Seq<u8>) -> Option<
    (Seq<u8>, u8),
>;

/// The bytes of an address that may be missing.
pub open spec fn bytes_of(address: Option<Address>) -> Option<Seq<u8>> {
    match address {
        Some(a) => Some(a@),
        None => None,
    }
}

/// The bytes and the bump of a place that may be missing.
pub open spec fn place_of(place: Option<(Address, u8)>) -> Option<(Seq<u8>, u8)> {
    match place {
        Some((a, bump)) => Some((a@, bump)),
        None => None,
    }
}

/// The byte strings held by a list of seed buffers.
pub open spec fn seed_bytes(seeds: Seq<Vec<u8>>) -> Seq<Seq<u8>> {
    seeds.map_values(|s: Vec<u8>| s@)
}

/// The label under which a presale's authority is derived: `presale` in ASCII.
pub open spec fn presale_label() -> Seq<u8> {
    seq![112u8, 114u8, 101u8, 115u8, 97u8, 108u8, 101u8]
}

/// The label under which a buyer's vesting authority is derived: `vesting` in
/// ASCII.
pub open spec fn vesting_label() -> Seq<u8> {
    seq![118u8, 101u8, 115u8, 116u8, 105u8, 110u8, 103u8]
}

/// Seeds of a presale's authority, before the bump.
pub open spec fn presale_seeds(presale: Address, program_id: Address) -> Seq<Seq<u8>> {
    seq![presale_label(), presale@, program_id@]
}

/// Seeds of a buyer's vesting authority in one presale, before the bump.
pub open spec fn vesting_seeds(buyer: Address, presale: Address, program_id: Address) -> Seq<
    Seq<u8>,
> {
    seq![vesting_label(), buyer@, presale@, program_id@]
}

/// `seeds` followed by the bump as a seed of one byte.
pub open spec fn with_bump(seeds: Seq<Seq<u8>>, bump: u8) -> Seq<Seq<u8>> {
    seeds.push(seq![bump])
}

/// The authority of `presale` under `bump`, if that bump derives one.
pub open spec fn presale_authority_of(presale: Address, program_id: Address, bump: u8) -> Option<
    Seq<u8>,
> {
    derived_address(with_bump(presale_seeds(presale, program_id), bump), program_id@)
}

/// The vesting authority of `buyer` in `presale` under `bump`, if that bump
/// derives one.
pub open spec fn vesting_authority_of(
    buyer: Address,
    presale: Address,
    program_id: Address,
    bump: u8,
) -> Option<Seq<u8>> {
    derived_address(with_bump(vesting_seeds(buyer, presale, program_id), bump), program_id@)
}

/// The one place, with its bump, at which the vesting lock of `buyer` in
/// `presale` is kept.
pub open spec fn vesting_location_of(buyer: Address, presale: Address, program_id: Address)
    -> Option<(Seq<u8>, u8)> {
    canonical_address(vesting_seeds(buyer, presale, program_id), program_id@)
}

/// Calls `Pubkey::create_program_address` of solana-program (re-exported by
/// anchor-lang) on the seeds as byte slices. The result is a function of the
/// seeds and the program id alone, named `derived_address`; an error of the
/// call is `None`.
#[verifier::external_body]
fn create_program_address(seeds: &Vec<Vec<u8>>, program_id: &Address) -> (r: Option<Address>)
    ensures
        bytes_of(r) == derived_address(seed_bytes(seeds@), program_id@),
{
    let slices: Vec<&[u8]> = seeds.iter().map(|s| s.as_slice()).collect();
    match Pubkey::create_program_address(&slices, &Pubkey::new_from_array(program_id.bytes)) {
        Ok(key) => Some(Address { bytes: key.to_bytes() }),
        Err(_) => None,
    }
}

/// Calls `Pubkey::try_find_program_address` of solana-program (re-exported by
/// anchor-lang) on the seeds as byte slices. The result is a function of the
/// seeds and the program id alone, named `canonical_address`. Where the
/// search finds an address and a bump, it has them from
/// `Pubkey::create_program_address` on the same seeds followed by that bump:
/// so the address is the one named `derived_address` there.
#[verifier::external_body]
fn try_find_program_address(seeds: &Vec<Vec<u8>>, program_id: &Address) -> (r: Option<
    (Address, u8),
>)
    ensures
        place_of(r) == canonical_address(seed_bytes(seeds@), program_id@),
        r matches Some((a, bump)) ==> derived_address(
            with_bump(seed_bytes(seeds@), bump),
            program_id@,
        ) == Some(a@),
{
    let slices: Vec<&[u8]> = seeds.iter().map(|s| s.as_slice()).collect();
    match Pubkey::try_find_program_address(&slices, &Pubkey::new_from_array(program_id.bytes)) {
        Some((key, bump)) => Some((Address { bytes: key.to_bytes() }, bump)),
        None => None,
    }
}

fn presale_label_bytes() -> (r: Vec<u8>)
    ensures
        r@ == presale_label(),
{
    let r: Vec<u8> = vec![112u8, 114u8, 101u8, 115u8, 97u8, 108u8, 101u8];
    assert(r@ =~= presale_label());
    r
}

fn vesting_label_bytes() -> (r: Vec<u8>)
    ensures
        r@ == vesting_label(),
{
    let r: Vec<u8> = vec![118u8, 101u8, 115u8, 116u8, 105u8, 110u8, 103u8];
    assert(r@ =~= vesting_label());
    r
}

/// The seeds with which the ledger recognises the authority of `presale`
/// under `bump`.
pub fn presale_signer_seeds(presale: &Address, program_id: &Address, bump: u8) -> (r: Vec<Vec<u8>>)
    ensures
        seed_bytes(r@) == with_bump(presale_seeds(*presale, *program_id), bump),
{
    let mut seeds: Vec<Vec<u8>> = Vec::new();
    seeds.push(presale_label_bytes());
    seeds.push(presale.to_vec());
    seeds.push(program_id.to_vec());
    let last: Vec<u8> = vec![bump];
    assert(last@ =~= seq![bump]);
    seeds.push(last);
    assert(seed_bytes(seeds@) =~= with_bump(presale_seeds(*presale, *program_id), bump));
    seeds
}

/// The seeds with which the ledger recognises the vesting authority of
/// `buyer` in `presale` under `bump`.
pub fn vesting_signer_seeds(buyer: &Address, presale: &Address, program_id: &Address, bump: u8)
    -> (r: Vec<Vec<u8>>)
    ensures
        seed_bytes(r@) == with_bump(vesting_seeds(*buyer, *presale, *program_id), bump),
{
    let mut seeds: Vec<Vec<u8>> = Vec::new();
    seeds.push(vesting_label_bytes());
    seeds.push(buyer.to_vec());
    seeds.push(presale.to_vec());
    seeds.push(program_id.to_vec());
    let last: Vec<u8> = vec![bump];
    assert(last@ =~= seq![bump]);
    seeds.push(last);
    assert(seed_bytes(seeds@) =~= with_bump(vesting_seeds(*buyer, *presale, *program_id), bump));
    seeds
}

/// Derives the authority of `presale` under `bump`.
pub fn presale_authority(presale: &Address, program_id: &Address, bump: u8) -> (r: Option<Address>)
    ensures
        bytes_of(r) == presale_authority_of(*presale, *program_id, bump),
{
    let seeds = presale_signer_seeds(presale, program_id, bump);
    create_program_address(&seeds, program_id)
}

/// Derives the vesting authority of `buyer` in `presale` under `bump`.
pub fn vesting_authority(buyer: &Address, presale: &Address, program_id: &Address, bump: u8) -> (r:
    Option<Address>)
    ensures
        bytes_of(r) == vesting_authority_of(*buyer, *presale, *program_id, bump),
{
    let seeds = vesting_signer_seeds(buyer, presale, program_id, bump);
    create_program_address(&seeds, program_id)
}

/// Finds the place and bump of the vesting lock of `buyer` in `presale`. The
/// place is the address of the buyer's vesting authority under that bump.
pub fn vesting_location(buyer: &Address, presale: &Address, program_id: &Address) -> (r: Option<
    (Address, u8),
>)
    ensures
        place_of(r) == vesting_location_of(*buyer, *presale, *program_id),
        r matches Some((a, bump)) ==> vesting_authority_of(*buyer, *presale, *program_id, bump)
            == Some(a@),
{
    let mut seeds: Vec<Vec<u8>> = Vec::new();
    seeds.push(vesting_label_bytes());
    seeds.push(buyer.to_vec());
    seeds.push(presale.to_vec());
    seeds.push(program_id.to_vec());
    assert(seed_bytes(seeds@) =~= vesting_seeds(*buyer, *presale, *program_id));
    try_find_program_address(&seeds, program_id)
}

} // verus!
