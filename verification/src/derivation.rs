use vstd::prelude::*;
use crate::pubkey::Pubkey;
use anchor_lang::solana_program::pubkey::PubkeyError;

verus! {

/// The address that a program derives from a list of seeds, where one
/// exists: `None` where the list holds more than 16 seeds, a seed is longer
/// than 32 bytes, or the hash of the seeds and the program's identity falls
/// on the signature curve, so that a private key could exist for it.
pub uninterp spec fn program_address_created(seeds: Seq<Seq<u8>>, program_id: Seq<u8>) -> Option<
    Seq<u8>,
>;

/// The error of `solana_program`'s address derivation. Nothing is read from
/// it: any error means that no address is derived.
#[verifier::external_type_specification]
#[verifier::external_body]
pub struct ExPubkeyError(PubkeyError);

/// The byte strings that a list of seeds holds.
pub open spec fn seeds_view(seeds: Seq<Vec<u8>>) -> Seq<Seq<u8>> {
    Seq::new(seeds.len(), |i: int| seeds[i]@)
}

/// The search for a nonce: the first value, counting down from `bump` and
/// stopping before zero, that as a last seed of one byte gives an address.
pub open spec fn search_bump(seeds: Seq<Seq<u8>>, program_id: Seq<u8>, bump: nat) -> Option<
    (Seq<u8>, u8),
>
    decreases bump,
{
    if bump == 0 || bump > 255 {
        None
    } else {
        match program_address_created(seeds.push(seq![bump as u8]), program_id) {
            Some(address) => Some((address, bump as u8)),
            None => search_bump(seeds, program_id, (bump - 1) as nat),
        }
    }
}

/// The canonical address of a list of seeds and the nonce that makes it
/// valid: the search starts at 255.
pub open spec fn program_address_found(seeds: Seq<Seq<u8>>, program_id: Seq<u8>) -> Option<
    (Seq<u8>, u8),
> {
    search_bump(seeds, program_id, 255)
}

/// An address together with its nonce, by the bytes of the address.
pub open spec fn derived_view(derived: Option<(Pubkey, u8)>) -> Option<(Seq<u8>, u8)> {
    match derived {
        Some((address, bump)) => Some((address@, bump)),
        None => None,
    }
}

/// An address, by its bytes.
pub open spec fn address_view(address: Option<Pubkey>) -> Option<Seq<u8>> {
    match address {
        Some(key) => Some(key@),
        None => None,
    }
}

/// Calls `Pubkey::create_program_address` of `solana_program` on the seeds
/// and the program's identity. The contract says that the outcome is a
/// function of these alone: the address on success, and an error exactly
/// where no address is derived.
#[verifier::external_body]
fn create_program_address_raw(seeds: &Vec<Vec<u8>>, program_id: &Pubkey) -> (created: Result<
    Pubkey,
    PubkeyError,
>)
    ensures
        match created {
            Ok(address) => program_address_created(seeds_view(seeds@), program_id@) == Some(
                address@,
            ),
            Err(_) => program_address_created(seeds_view(seeds@), program_id@) is None,
        },
{
    let parts: Vec<&[u8]> = seeds.iter().map(|seed| seed.as_slice()).collect();
    let program = anchor_lang::solana_program::pubkey::Pubkey::new_from_array(program_id.bytes);
    anchor_lang::solana_program::pubkey::Pubkey::create_program_address(&parts, &program).map(
        |address| Pubkey { bytes: address.to_bytes() },
    )
}

/// Calls `Pubkey::try_find_program_address` of `solana_program`. The contract
/// says what its loop does: it tries the nonces 255, 254, ... 1, each as one
/// more seed of a single byte, and returns the first address that
/// `create_program_address` accepts, with that nonce; `None` where none does.
#[verifier::external_body]
pub(crate) fn try_find_program_address(seeds: &Vec<Vec<u8>>, program_id: &Pubkey) -> (found:
    Option<(Pubkey, u8)>)
    ensures
        derived_view(found) == program_address_found(seeds_view(seeds@), program_id@),
{
    let parts: Vec<&[u8]> = seeds.iter().map(|seed| seed.as_slice()).collect();
    let program = anchor_lang::solana_program::pubkey::Pubkey::new_from_array(program_id.bytes);
    anchor_lang::solana_program::pubkey::Pubkey::try_find_program_address(&parts, &program).map(
        |(address, bump)| (Pubkey { bytes: address.to_bytes() }, bump),
    )
}

/// The address derived from the seeds as they stand, without a search.
pub(crate) fn create_program_address(seeds: &Vec<Vec<u8>>, program_id: &Pubkey) -> (address:
    Option<Pubkey>)
    ensures
        address_view(address) == program_address_created(seeds_view(seeds@), program_id@),
{
    match create_program_address_raw(seeds, program_id) {
        Ok(address) => Some(address),
        Err(_) => None,
    }
}

/// The seeds of a record's address: a prefix that tells the kind of asset,
/// then the commitment.
pub open spec fn record_seeds(seed_prefix: Seq<u8>, commitment: Seq<u8>) -> Seq<Seq<u8>> {
    seq![seed_prefix, commitment]
}

/// The address that controls the vault of a commitment, with the nonce that
/// makes it valid. No key exists for it: whoever holds the seeds computes it.
pub fn derive_vault_authority(
    program_id: &Pubkey,
    seed_prefix: &[u8],
    commitment: &[u8; 32],
) -> (derived: Option<(Pubkey, u8)>)
    ensures
        derived_view(derived) == program_address_found(
            record_seeds(seed_prefix@, commitment@),
            program_id@,
        ),
{
    let mut seeds: Vec<Vec<u8>> = Vec::new();
    seeds.push(vstd::slice::slice_to_vec(seed_prefix));
    seeds.push(vstd::slice::slice_to_vec(commitment.as_slice()));
    assert(seeds_view(seeds@) =~= record_seeds(seed_prefix@, commitment@));
    try_find_program_address(&seeds, program_id)
}

/// The same address, computed again from the nonce that a record stores.
pub fn vault_authority(
    program_id: &Pubkey,
    seed_prefix: &[u8],
    commitment: &[u8; 32],
    bump: u8,
) -> (address: Option<Pubkey>)
    ensures
        address_view(address) == program_address_created(
            record_seeds(seed_prefix@, commitment@).push(seq![bump]),
            program_id@,
        ),
{
    let mut seeds: Vec<Vec<u8>> = Vec::new();
    seeds.push(vstd::slice::slice_to_vec(seed_prefix));
    seeds.push(vstd::slice::slice_to_vec(commitment.as_slice()));
    let mut last: Vec<u8> = Vec::new();
    last.push(bump);
    assert(last@ =~= seq![bump]);
    seeds.push(last);
    assert(seeds_view(seeds@) =~= record_seeds(seed_prefix@, commitment@).push(seq![bump]));
    create_program_address(&seeds, program_id)
}

/// A search that ends with an address ends with one that the seeds and the
/// nonce derive directly.
pub proof fn lemma_search_gives_created(seeds: Seq<Seq<u8>>, program_id: Seq<u8>, bump: nat)
    ensures
        match search_bump(seeds, program_id, bump) {
            Some((address, nonce)) => program_address_created(
                seeds.push(seq![nonce]),
                program_id,
            ) == Some(address),
            None => true,
        },
    decreases bump,
{
    if bump == 0 || bump > 255 {
    } else if program_address_created(seeds.push(seq![bump as u8]), program_id) is None {
        lemma_search_gives_created(seeds, program_id, (bump - 1) as nat);
    }
}

} // verus!
