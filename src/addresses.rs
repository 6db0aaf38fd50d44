//! Program addresses and program-derived addresses, through the Solana libraries.

use vstd::prelude::*;
use crate::hashing::byte_parts;
use crate::keys::push_all;

verus! {

/// Address of the SPL Token program (`TokenkegQfeZyiNwAJbNbGKPFXCWuBvf9Ss623VQ5DA`).
pub open spec fn token_program_key() -> Seq<u8> {
    seq![
        6u8, 221, 246, 225, 215, 101, 161, 147, 217, 203, 225, 70, 206, 235, 121, 172, 28, 180,
        133, 237, 95, 91, 55, 145, 58, 140, 245, 133, 126, 255, 0, 169,
    ]
}

/// Address of the associated token account program (`ATokenGPvbdGVxr1b2hvZbsiqW5xWH25efTNsLJA8knL`).
pub open spec fn associated_token_program_key() -> Seq<u8> {
    seq![
        140u8, 151, 37, 143, 78, 36, 137, 241, 187, 61, 16, 41, 20, 142, 13, 131, 11, 90, 19,
        153, 218, 255, 16, 132, 4, 142, 123, 216, 219, 233, 248, 89,
    ]
}

/// Address of the token metadata program (`metaqbxxUerdq28cj1RbAWkYQm3ybzjb6a8bt518x1s`).
pub open spec fn metadata_program_key() -> Seq<u8> {
    seq![
        11u8, 112, 101, 177, 227, 209, 124, 69, 56, 157, 82, 127, 107, 4, 195, 205, 88, 184, 108,
        115, 26, 160, 253, 181, 73, 182, 209, 188, 3, 248, 41, 70,
    ]
}

/// Relies on `anchor_spl::token::ID`, the SPL Token program's address.
#[verifier::external_body]
pub(crate) fn spl_token_program_id() -> (r: [u8; 32])
    ensures
        r@ == token_program_key(),
{
    anchor_spl::token::ID.to_bytes()
}

/// Relies on `anchor_spl::associated_token::ID`, the associated token account
/// program's address.
#[verifier::external_body]
pub(crate) fn associated_token_program_id() -> (r: [u8; 32])
    ensures
        r@ == associated_token_program_key(),
{
    anchor_spl::associated_token::ID.to_bytes()
}

/// Relies on `mpl_token_metadata::ID`, the token metadata program's address.
#[verifier::external_body]
pub(crate) fn metadata_program_id() -> (r: [u8; 32])
    ensures
        r@ == metadata_program_key(),
{
    mpl_token_metadata::ID.to_bytes()
}

/// The program-derived address (with its bump seed) that
/// `Pubkey::try_find_program_address` finds for these seeds and program, if any.
pub uninterp spec fn program_address_of(seeds: Seq<Seq<u8>>, program_id: Seq<u8>) -> Option<
    ([u8; 32], u8),
>;

/// Relies on `solana_program::pubkey::Pubkey::try_find_program_address`: the
/// search over bump seeds depends on the seeds and the program alone, and
/// reports `None` (it does not panic) when no bump gives a valid address.
#[verifier::external_body]
pub(crate) fn try_find_program_address(seeds: &Vec<Vec<u8>>, program_id: &[u8; 32]) -> (r: Option<
    ([u8; 32], u8),
>)
    ensures
        r == program_address_of(byte_parts(seeds@), program_id@),
{
    let slices: Vec<&[u8]> = seeds.iter().map(|s| s.as_slice()).collect();
    let program = solana_program::pubkey::Pubkey::new_from_array(*program_id);
    solana_program::pubkey::Pubkey::try_find_program_address(&slices, &program)
        .map(|(address, bump)| (address.to_bytes(), bump))
}

/// The bytes of a key, as a buffer.
pub fn key_vec(k: &[u8; 32]) -> (r: Vec<u8>)
    ensures
        r@ == k@,
{
    let mut out: Vec<u8> = Vec::new();
    push_all(&mut out, k.as_slice());
    out
}

/// Seeds of the associated token account of `wallet` for `mint`.
pub open spec fn associated_token_seeds(wallet: Seq<u8>, mint: Seq<u8>) -> Seq<Seq<u8>> {
    seq![wallet, token_program_key(), mint]
}

/// The associated token account of `wallet` for `mint`: the address derived
/// by the associated token account program from the wallet, the SPL Token
/// program and the mint.
pub open spec fn associated_token_address_of(wallet: Seq<u8>, mint: Seq<u8>) -> Option<[u8; 32]> {
    match program_address_of(associated_token_seeds(wallet, mint), associated_token_program_key()) {
        Some(found) => Some(found.0),
        None => None,
    }
}

/// Derives the associated token account of `wallet` for `mint`.
pub fn associated_token_address(wallet: &[u8; 32], mint: &[u8; 32]) -> (r: Option<[u8; 32]>)
    ensures
        r == associated_token_address_of(wallet@, mint@),
{
    let token_program = spl_token_program_id();
    let mut seeds: Vec<Vec<u8>> = Vec::new();
    seeds.push(key_vec(wallet));
    seeds.push(key_vec(&token_program));
    seeds.push(key_vec(mint));
    assert(byte_parts(seeds@) =~= associated_token_seeds(wallet@, mint@));
    let program = associated_token_program_id();
    match try_find_program_address(&seeds, &program) {
        Some(found) => Some(found.0),
        None => None,
    }
}

} // verus!
