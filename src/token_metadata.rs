//! Addresses of the token metadata program's records.

use vstd::prelude::*;
use vstd::bytes::{spec_u64_to_le_bytes, u64_to_le_bytes};
use crate::addresses::{
    key_vec, metadata_program_id, metadata_program_key, program_address_of,
    try_find_program_address,
};
use crate::hashing::byte_parts;

verus! {

/// Key discriminator of a metadata record.
pub const METADATA_KEY: u8 = 4;

/// Key discriminator of a master edition record.
pub const MASTER_EDITION_KEY: u8 = 6;

/// Key discriminator of an edition record.
pub const EDITION_KEY: u8 = 1;

/// Number of editions that one edition marker record tracks.
pub const EDITIONS_PER_MARKER: u64 = 248;

/// Size details of a collection.
#[derive(Clone, Copy, Debug)]
pub struct CollectionDetails {
    pub verified: bool,
    pub size: u64,
}

/// Creator entry as the metadata program records it.
#[derive(Clone, Copy, Debug)]
pub struct MetadataCreator {
    pub address: [u8; 32],
    pub verified: bool,
    pub share: u8,
}

/// The seed `"metadata"`.
pub open spec fn metadata_prefix() -> Seq<u8> {
    seq![109u8, 101, 116, 97, 100, 97, 116, 97]
}

/// The seed `"edition"`.
pub open spec fn edition_suffix() -> Seq<u8> {
    seq![101u8, 100, 105, 116, 105, 111, 110]
}

/// Seeds of the metadata record of `mint`.
pub open spec fn metadata_seeds(mint: Seq<u8>) -> Seq<Seq<u8>> {
    seq![metadata_prefix(), metadata_program_key(), mint]
}

/// Seeds of the master edition record of `mint`.
pub open spec fn master_edition_seeds(mint: Seq<u8>) -> Seq<Seq<u8>> {
    metadata_seeds(mint).push(edition_suffix())
}

/// Seeds of the edition marker record that tracks `edition` of `mint`.
pub open spec fn edition_marker_seeds(mint: Seq<u8>, edition: u64) -> Seq<Seq<u8>> {
    master_edition_seeds(mint).push(spec_u64_to_le_bytes((edition / EDITIONS_PER_MARKER) as u64))
}

/// Address of the token metadata program.
pub fn token_metadata_program_id() -> (r: [u8; 32])
    ensures
        r@ == metadata_program_key(),
{
    metadata_program_id()
}

fn metadata_seed_list(mint: &[u8; 32]) -> (r: Vec<Vec<u8>>)
    ensures
        byte_parts(r@) == metadata_seeds(mint@),
{
    let prefix: Vec<u8> = vec![109u8, 101, 116, 97, 100, 97, 116, 97];
    let program = token_metadata_program_id();
    let mut seeds: Vec<Vec<u8>> = Vec::new();
    seeds.push(prefix);
    seeds.push(key_vec(&program));
    seeds.push(key_vec(mint));
    assert(byte_parts(seeds@) =~= metadata_seeds(mint@));
    seeds
}

fn master_edition_seed_list(mint: &[u8; 32]) -> (r: Vec<Vec<u8>>)
    ensures
        byte_parts(r@) == master_edition_seeds(mint@),
{
    let mut seeds = metadata_seed_list(mint);
    let suffix: Vec<u8> = vec![101u8, 100, 105, 116, 105, 111, 110];
    seeds.push(suffix);
    assert(byte_parts(seeds@) =~= master_edition_seeds(mint@));
    seeds
}

/// Derives the metadata record address of `mint`, with its bump seed.
pub fn derive_metadata_pda(mint: &[u8; 32]) -> (r: Option<([u8; 32], u8)>)
    ensures
        r == program_address_of(metadata_seeds(mint@), metadata_program_key()),
{
    let seeds = metadata_seed_list(mint);
    let program = token_metadata_program_id();
    try_find_program_address(&seeds, &program)
}

/// Derives the master edition record address of `mint`, with its bump seed.
pub fn derive_master_edition_pda(mint: &[u8; 32]) -> (r: Option<([u8; 32], u8)>)
    ensures
        r == program_address_of(master_edition_seeds(mint@), metadata_program_key()),
{
    let seeds = master_edition_seed_list(mint);
    let program = token_metadata_program_id();
    try_find_program_address(&seeds, &program)
}

/// Derives the address of the edition marker record that tracks `edition`
/// of `mint`, with its bump seed.
pub fn derive_edition_marker_pda(mint: &[u8; 32], edition: u64) -> (r: Option<([u8; 32], u8)>)
    ensures
        r == program_address_of(edition_marker_seeds(mint@, edition), metadata_program_key()),
{
    let mut seeds = master_edition_seed_list(mint);
    let edition_number = edition / EDITIONS_PER_MARKER;
    seeds.push(u64_to_le_bytes(edition_number));
    assert(byte_parts(seeds@) =~= edition_marker_seeds(mint@, edition));
    let program = token_metadata_program_id();
    try_find_program_address(&seeds, &program)
}

} // verus!
