//! Program-derived addresses: identifiers that no private key stands behind
//! and for which only the program that derived them can have the host sign.
//!
//! The mint is its own authority: its address is derived from the seed
//! `"mint"`, and whoever presents that seed with the right bump proves the
//! right to mint. The record of an auction lives at the address derived from
//! the seed `"auction"` and the mint's address, so a mint has one record.

use vstd::prelude::*;
use crate::pubkey::Pubkey;

verus! {

/// The address and bump that the host's derivation yields for `seeds` under
/// `program_id`, or `None` where it yields nothing. The derivation hashes its
/// arguments and searches downwards from bump 255 for an address off the
/// signature curve; it is a function of its arguments alone.
pub uninterp spec fn program_address(seeds: Seq<Seq<u8>>, program_id: Seq<u8>) -> Option<(Seq<u8>, u8)>;

/// A derived address together with the bump that proves the derivation.
#[derive(Clone, Copy, Debug, PartialEq, Eq)]
pub struct ProgramAddress {
    pub address: Pubkey,
    pub bump: u8,
}

impl View for ProgramAddress {
    type V = (Seq<u8>, u8);

    open spec fn view(&self) -> (Seq<u8>, u8) {
        (self.address@, self.bump)
    }
}

/// What a derivation returned, as plain values.
pub open spec fn derivation_view(found: Option<ProgramAddress>) -> Option<(Seq<u8>, u8)> {
    match found {
        Some(derived) => Some(derived@),
        None => None,
    }
}

/// The bytes of `"mint"`.
pub open spec fn mint_seed() -> Seq<u8> {
    seq![109u8, 105u8, 110u8, 116u8]
}

/// The bytes of `"auction"`.
pub open spec fn auction_seed() -> Seq<u8> {
    seq![97u8, 117u8, 99u8, 116u8, 105u8, 111u8, 110u8]
}

/// The seeds from which the mint's address is derived.
pub open spec fn authority_seeds() -> Seq<Seq<u8>> {
    seq![mint_seed()]
}

/// The seeds from which the address of the auction record of `mint` is derived.
pub open spec fn auction_seeds(mint: Seq<u8>) -> Seq<Seq<u8>> {
    seq![auction_seed(), mint]
}

/// The seeds presented to the host to sign as the mint: the seed of the
/// derivation, then the bump.
pub open spec fn signer_seeds_spec(bump: u8) -> Seq<Seq<u8>> {
    seq![mint_seed(), seq![bump]]
}

/// That `address` and `bump` are exactly what the derivation yielded.
pub open spec fn proves(derived: Option<(Seq<u8>, u8)>, address: Seq<u8>, bump: u8) -> bool {
    derived == Some((address, bump))
}

/// Calls `solana_program::pubkey::Pubkey::try_find_program_address`, the form
/// of `find_program_address` that returns `None` where the other panics. The
/// contract claims only that the call computes the derivation named by
/// [`program_address`] on the same seeds and program identifier.
#[verifier::external_body]
fn try_find_program_address(seeds: &Vec<Vec<u8>>, program_id: &Pubkey) -> (found: Option<ProgramAddress>)
    ensures
        derivation_view(found) == program_address(seeds.deep_view(), program_id@),
{
    let slices: Vec<&[u8]> = seeds.iter().map(|seed| seed.as_slice()).collect();
    let program = solana_program::pubkey::Pubkey::new_from_array(program_id.bytes);
    match solana_program::pubkey::Pubkey::try_find_program_address(&slices, &program) {
        Some((address, bump)) => Some(ProgramAddress { address: Pubkey { bytes: address.to_bytes() }, bump }),
        None => None,
    }
}

fn mint_seed_bytes() -> (seed: Vec<u8>)
    ensures
        seed@ == mint_seed(),
{
    let mut seed: Vec<u8> = Vec::new();
    seed.push(109);
    seed.push(105);
    seed.push(110);
    seed.push(116);
    assert(seed@ =~= mint_seed());
    seed
}

fn auction_seed_bytes() -> (seed: Vec<u8>)
    ensures
        seed@ == auction_seed(),
{
    let mut seed: Vec<u8> = Vec::new();
    seed.push(97);
    seed.push(117);
    seed.push(99);
    seed.push(116);
    seed.push(105);
    seed.push(111);
    seed.push(110);
    assert(seed@ =~= auction_seed());
    seed
}

/// The seeds to present to the host for signing as the mint with `bump`.
pub fn signer_seeds(bump: u8) -> (seeds: Vec<Vec<u8>>)
    ensures
        seeds.deep_view() == signer_seeds_spec(bump),
{
    let mut last: Vec<u8> = Vec::new();
    last.push(bump);
    assert(last@ =~= seq![bump]);
    let mut seeds: Vec<Vec<u8>> = Vec::new();
    seeds.push(mint_seed_bytes());
    seeds.push(last);
    assert(seeds.deep_view() =~~= signer_seeds_spec(bump));
    seeds
}

/// Derives the address of the mint, which is its own authority, under
/// `program_id`.
pub fn derive_authority(program_id: &Pubkey) -> (found: Option<ProgramAddress>)
    ensures
        derivation_view(found) == program_address(authority_seeds(), program_id@),
{
    let mut seeds: Vec<Vec<u8>> = Vec::new();
    seeds.push(mint_seed_bytes());
    assert(seeds.deep_view() =~~= authority_seeds());
    try_find_program_address(&seeds, program_id)
}

/// Derives the address at which the auction record of `mint` is kept under
/// `program_id`.
pub fn derive_auction_address(program_id: &Pubkey, mint: &Pubkey) -> (found: Option<ProgramAddress>)
    ensures
        derivation_view(found) == program_address(auction_seeds(mint@), program_id@),
{
    let mut key: Vec<u8> = Vec::new();
    let mut i: usize = 0;
    while i < 32
        invariant
            i <= 32,
            key@.len() == i,
            forall|j: int| 0 <= j < i ==> key@[j] == mint.bytes[j],
        decreases 32 - i,
    {
        key.push(mint.bytes[i]);
        i += 1;
    }
    assert(key@ =~= mint@);
    let mut seeds: Vec<Vec<u8>> = Vec::new();
    seeds.push(auction_seed_bytes());
    seeds.push(key);
    assert(seeds.deep_view() =~~= auction_seeds(mint@));
    try_find_program_address(&seeds, program_id)
}

/// Whether `address` and `bump` are exactly what a derivation yielded.
pub fn is_proved(found: &Option<ProgramAddress>, address: &Pubkey, bump: u8) -> (proved: bool)
    ensures
        proved == proves(derivation_view(*found), address@, bump),
{
    match found {
        Some(derived) => derived.address == *address && derived.bump == bump,
        None => false,
    }
}

} // verus!
