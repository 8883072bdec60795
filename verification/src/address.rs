//! The faucet's address, derived from a fixed seed, a bump and the address of
//! the program that owns the faucet.

use crate::pubkey::Pubkey;
use crate::state::{Faucet, FAUCET_SEED};
use vstd::prelude::*;

verus! {

/// The highest bump, with which a search starts.
pub const HIGHEST_BUMP: u8 = 255;

/// The address that `Pubkey::create_program_address` of `solana_program`
/// derives from `seeds` for the program at `program_id`; `None` where it
/// derives none.
pub uninterp spec fn program_address(seeds: Seq<Seq<u8>>, program_id: Seq<u8>) -> Option<Seq<u8>>;

/// The bytes of an address that may be missing.
pub open spec fn address_bytes(address: Option<Pubkey>) -> Option<Seq<u8>> {
    match address {
        Some(key) => Some(key@),
        None => None,
    }
}

/// The bytes of an address that may be missing, beside its bump.
pub open spec fn found_bytes(found: Option<(Pubkey, u8)>) -> Option<(Seq<u8>, u8)> {
    match found {
        Some((key, bump)) => Some((key@, bump)),
        None => None,
    }
}

/// The address of a search result, without its bump.
pub open spec fn found_address(found: Option<(Seq<u8>, u8)>) -> Option<Seq<u8>> {
    match found {
        Some((address, _)) => Some(address),
        None => None,
    }
}

/// The bump of a search result; of no account where nothing was found.
pub open spec fn found_bump(found: Option<(Seq<u8>, u8)>) -> u8 {
    match found {
        Some((_, bump)) => bump,
        None => 0,
    }
}

/// The first address that `seed`, followed by a bump, derives for the program
/// at `program_id` as the bump counts down from `bump` to 1, with that bump;
/// `None` if none of them derives one.
pub open spec fn search_from(seed: Seq<u8>, program_id: Seq<u8>, bump: u8) -> Option<(Seq<u8>, u8)>
    decreases bump,
{
    if bump == 0 {
        None
    } else {
        match program_address(seq![seed, seq![bump]], program_id) {
            Some(address) => Some((address, bump)),
            None => search_from(seed, program_id, (bump - 1) as u8),
        }
    }
}

/// The faucet's address under `bump` for the program at `program_id`.
pub open spec fn faucet_address(program_id: Pubkey, bump: u8) -> Option<Seq<u8>> {
    program_address(seq![FAUCET_SEED@, seq![bump]], program_id@)
}

/// The faucet's address and bump as a search from the highest bump finds them
/// for the program at `program_id`.
pub open spec fn found_faucet_address(program_id: Pubkey) -> Option<(Seq<u8>, u8)> {
    search_from(FAUCET_SEED@, program_id@, HIGHEST_BUMP)
}

/// What a search finds is derived: the bump found lies between 1 and the bump
/// at which the search began, and the seed followed by it derives the address
/// found.
pub proof fn lemma_search_finds_derived(seed: Seq<u8>, program_id: Seq<u8>, bump: u8)
    ensures
        search_from(seed, program_id, bump) matches Some((address, found)) ==> 1 <= found <= bump
            && program_address(seq![seed, seq![found]], program_id) == Some(address),
    decreases bump,
{
    if bump != 0 && program_address(seq![seed, seq![bump]], program_id) is None {
        lemma_search_finds_derived(seed, program_id, (bump - 1) as u8);
    }
}

/// Calls `Pubkey::create_program_address`, reached through `anchor_lang`, on
/// the seeds `seed` and `[bump]`. Trusted: the result is the address that the
/// function derives from these seeds and `program_id`, and `None` where it
/// reports an error.
#[verifier::external_body]
fn create_program_address(seed: &[u8; 6], bump: u8, program_id: &Pubkey) -> (address: Option<Pubkey>)
    ensures
        address_bytes(address) == program_address(seq![seed@, seq![bump]], program_id@),
{
    anchor_lang::prelude::Pubkey::create_program_address(
        &[&seed[..], &[bump]],
        &program_id.bytes.into(),
    ).ok().map(|key| Pubkey { bytes: key.to_bytes() })
}

/// Calls `Pubkey::try_find_program_address`, reached through `anchor_lang`,
/// on the single seed `seed`. Trusted: the function tries the bumps from 255
/// down to 1 and returns the first address that
/// `Pubkey::create_program_address` derives from the seed followed by the
/// bump, with that bump, and `None` if none derives one. It stops early only
/// on seeds that are too many or too long, which one seed of six bytes and a
/// bump are not.
#[verifier::external_body]
fn try_find_program_address(seed: &[u8; 6], program_id: &Pubkey) -> (found: Option<(Pubkey, u8)>)
    ensures
        found_bytes(found) == search_from(seed@, program_id@, HIGHEST_BUMP),
{
    anchor_lang::prelude::Pubkey::try_find_program_address(
        &[&seed[..]],
        &program_id.bytes.into(),
    ).map(|(key, bump)| (Pubkey { bytes: key.to_bytes() }, bump))
}

/// Whether `derived` is the address `key`.
pub fn is_address(derived: &Option<Pubkey>, key: &Pubkey) -> (same: bool)
    ensures
        same == (address_bytes(*derived) == Some(key@)),
{
    match derived {
        Some(address) => {
            proof {
                Pubkey::lemma_view_injective(*address, *key);
            }
            *address == *key
        },
        None => false,
    }
}

impl Faucet {
    /// The address of the faucet of the program at `program_id` under `bump`,
    /// if these derive one.
    pub fn derive_address(program_id: &Pubkey, bump: u8) -> (address: Option<Pubkey>)
        ensures
            address_bytes(address) == faucet_address(*program_id, bump),
    {
        create_program_address(&FAUCET_SEED, bump, program_id)
    }

    /// Searches the address of the faucet of the program at `program_id`, and
    /// the bump that gives it. The bump found derives the address found.
    pub fn find_address(program_id: &Pubkey) -> (found: Option<(Pubkey, u8)>)
        ensures
            found_bytes(found) == found_faucet_address(*program_id),
            found matches Some((key, bump)) ==> faucet_address(*program_id, bump) == Some(key@),
    {
        proof {
            lemma_search_finds_derived(FAUCET_SEED@, program_id@, HIGHEST_BUMP);
        }
        try_find_program_address(&FAUCET_SEED, program_id)
    }
}

} // verus!
