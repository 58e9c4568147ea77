use vstd::prelude::*;

use crate::error::CustomError;
use crate::key::Pubkey;

verus! {

/// The address and bump seed that the program-address search finds for
/// `seeds` under `program_id`, or `None` where no bump seed works.
pub uninterp spec fn program_address(seeds: Seq<Seq<u8>>, program_id: Seq<u8>) -> Option<(Seq<u8>, u8)>;

/// The program address made of exactly `seeds` under `program_id`, or `None`
/// where those seeds give a point on the signing curve or are too long.
pub uninterp spec fn created_address(seeds: Seq<Seq<u8>>, program_id: Seq<u8>) -> Option<Seq<u8>>;

/// Relies on anchor_lang's `Pubkey::try_find_program_address`: a deterministic
/// search over the seeds and the program id, which returns the first bump seed
/// (from 255 down) for which `Pubkey::create_program_address` accepts the seeds
/// with that bump appended, together with the address that call returned.
#[verifier::external_body]
fn try_find_program_address(seeds: &Vec<Vec<u8>>, program_id: &Pubkey) -> (r: Option<(Pubkey, u8)>)
    ensures
        r.is_some() == program_address(seeds.deep_view(), program_id@).is_some(),
        r.is_some() ==> program_address(seeds.deep_view(), program_id@) == Some(
            (r.unwrap().0@, r.unwrap().1),
        ),
        r.is_some() ==> created_address(seeds.deep_view().push(seq![r.unwrap().1]), program_id@)
            == Some(r.unwrap().0@),
{
    let slices: Vec<&[u8]> = seeds.iter().map(|s| s.as_slice()).collect();
    let id = anchor_lang::prelude::Pubkey::new_from_array(program_id.bytes);
    match anchor_lang::prelude::Pubkey::try_find_program_address(&slices, &id) {
        Some((a, b)) => Some((Pubkey { bytes: a.to_bytes() }, b)),
        None => None,
    }
}

/// Relies on anchor_lang's `Pubkey::create_program_address`: the address made
/// of the given seeds under the program id, a function of the two alone.
#[verifier::external_body]
fn create_program_address(seeds: &Vec<Vec<u8>>, program_id: &Pubkey) -> (r: Option<Pubkey>)
    ensures
        r.is_some() == created_address(seeds.deep_view(), program_id@).is_some(),
        r.is_some() ==> created_address(seeds.deep_view(), program_id@) == Some(r.unwrap()@),
{
    let slices: Vec<&[u8]> = seeds.iter().map(|s| s.as_slice()).collect();
    let id = anchor_lang::prelude::Pubkey::new_from_array(program_id.bytes);
    match anchor_lang::prelude::Pubkey::create_program_address(&slices, &id) {
        Ok(a) => Some(Pubkey { bytes: a.to_bytes() }),
        Err(_) => None,
    }
}

/// The namespace tag of user records: the bytes of "user".
pub open spec fn user_seed() -> Seq<u8> {
    seq![117u8, 115u8, 101u8, 114u8]
}

/// The seeds of the record of `owner`: the namespace tag, then the owner's key.
pub open spec fn user_seeds(owner: Seq<u8>) -> Seq<Seq<u8>> {
    seq![user_seed(), owner]
}

/// The address and bump seed of the record of `owner` under `program_id`.
pub open spec fn derived_user_address(program_id: Seq<u8>, owner: Seq<u8>) -> Result<
    (Seq<u8>, u8),
    CustomError,
> {
    match program_address(user_seeds(owner), program_id) {
        Some(found) => Ok(found),
        None => Err(CustomError::AddressDerivationExhausted),
    }
}

/// Whether `address` is the program address made of the record seeds of
/// `owner` with `bump` appended.
pub open spec fn user_address_verifies(
    program_id: Seq<u8>,
    owner: Seq<u8>,
    address: Seq<u8>,
    bump: u8,
) -> bool {
    created_address(user_seeds(owner).push(seq![bump]), program_id) == Some(address)
}

/// What a derivation result says, over the keys' bytes.
pub open spec fn address_result_view(r: Result<(Pubkey, u8), CustomError>) -> Result<
    (Seq<u8>, u8),
    CustomError,
> {
    match r {
        Ok((a, b)) => Ok((a@, b)),
        Err(e) => Err(e),
    }
}

fn user_seed_bytes() -> (r: Vec<u8>)
    ensures
        r@ == user_seed(),
{
    let r: Vec<u8> = vec![117u8, 115u8, 101u8, 114u8];
    assert(r@ =~= user_seed());
    r
}

/// The record seeds of `owner`.
fn user_seed_list(owner: &Pubkey) -> (r: Vec<Vec<u8>>)
    ensures
        r.deep_view() == user_seeds(owner@),
{
    let tag = user_seed_bytes();
    let key = owner.to_vec();
    assert(tag.deep_view() =~= tag@);
    assert(key.deep_view() =~= key@);
    let r: Vec<Vec<u8>> = vec![tag, key];
    assert(r.deep_view() =~= user_seeds(owner@));
    r
}

/// Derives the address and bump seed of the record of `owner` under
/// `program_id`; fails with `AddressDerivationExhausted` where no bump seed
/// works. The pair found always passes `verify_user_address`.
pub fn find_user_address(program_id: &Pubkey, owner: &Pubkey) -> (r: Result<(Pubkey, u8), CustomError>)
    ensures
        address_result_view(r) == derived_user_address(program_id@, owner@),
        r matches Ok((a, b)) ==> user_address_verifies(program_id@, owner@, a@, b),
{
    let seeds = user_seed_list(owner);
    match try_find_program_address(&seeds, program_id) {
        Some((a, b)) => Ok((a, b)),
        None => Err(CustomError::AddressDerivationExhausted),
    }
}

/// Whether `address` with `bump` is the record address of `owner` under
/// `program_id`, checked without a search.
pub fn verify_user_address(program_id: &Pubkey, owner: &Pubkey, address: &Pubkey, bump: u8) -> (r:
    bool)
    ensures
        r == user_address_verifies(program_id@, owner@, address@, bump),
{
    let mut seeds = user_seed_list(owner);
    let bump_seed: Vec<u8> = vec![bump];
    assert(bump_seed.deep_view() =~= seq![bump]);
    seeds.push(bump_seed);
    assert(seeds.deep_view() =~= user_seeds(owner@).push(seq![bump]));
    match create_program_address(&seeds, program_id) {
        Some(a) => a == *address,
        None => false,
    }
}

/// Deriving twice for the same owner under the same program gives the same
/// address and the same bump seed.
pub proof fn lemma_derivation_deterministic(
    program_id: Pubkey,
    owner: Pubkey,
    first: Result<(Pubkey, u8), CustomError>,
    second: Result<(Pubkey, u8), CustomError>,
)
    requires
        address_result_view(first) == derived_user_address(program_id@, owner@),
        address_result_view(second) == derived_user_address(program_id@, owner@),
    ensures
        first == second,
{
    match (first, second) {
        (Ok((a1, b1)), Ok((a2, b2))) => {
            assert(a1.bytes =~= a2.bytes);
        },
        _ => {},
    }
}

} // verus!
