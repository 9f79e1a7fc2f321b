//! The identity deriver: where the vault of an owner and an asset lives, where its
//! holding lives, and the seeds by which the vault signs.

use crate::address::{derived_view, program_address, try_find_program_address, Address};
use vstd::prelude::*;
use vstd::slice::slice_to_vec;

verus! {

/// The namespace tag of vault addresses: the bytes of `vault`.
pub const VAULT_KEY: [u8; 5] = [118, 97, 117, 108, 116];

/// The address of this program, under which vault addresses are derived.
pub const ID: [u8; 32] = [
    218, 7, 92, 178, 255, 94, 198, 129, 118, 19, 222, 83, 11, 105, 42, 135,
    53, 71, 119, 105, 218, 71, 67, 12, 189, 129, 84, 51, 92, 74, 131, 39,
];

/// The address of the token program, which keeps the holdings and moves the assets.
pub const TOKEN_PROGRAM_ID: [u8; 32] = [
    6, 221, 246, 225, 215, 101, 161, 147, 217, 203, 225, 70, 206, 235, 121, 172,
    28, 180, 133, 237, 95, 91, 55, 145, 58, 140, 245, 133, 126, 255, 0, 169,
];

/// The address of the associated token program, under which holding addresses are derived.
pub const ASSOCIATED_TOKEN_PROGRAM_ID: [u8; 32] = [
    140, 151, 37, 143, 78, 36, 137, 241, 187, 61, 16, 41, 20, 142, 13, 131,
    11, 90, 19, 153, 218, 255, 16, 132, 4, 142, 123, 216, 219, 233, 248, 89,
];

/// The seeds of the vault of `owner` for the asset `mint`.
pub open spec fn vault_seeds(owner: Address, mint: Address) -> Seq<Seq<u8>> {
    seq![VAULT_KEY@, owner@, mint@]
}

/// The seeds of the holding that `authority` has for the asset `mint`.
pub open spec fn holding_seeds(authority: Address, mint: Address) -> Seq<Seq<u8>> {
    seq![authority@, token_program()@, mint@]
}

/// The seeds by which the vault of `owner` for `mint` signs, given its bump seed.
pub open spec fn signer_seeds(owner: Address, mint: Address, bump: u8) -> Seq<Seq<u8>> {
    seq![VAULT_KEY@, owner@, mint@, seq![bump]]
}

/// The derived address of the vault of `owner` for `mint`, with its bump seed.
pub open spec fn vault_address(owner: Address, mint: Address) -> Option<(Seq<u8>, u8)> {
    program_address(vault_seeds(owner, mint), program()@)
}

/// The derived address of the holding that `authority` has for `mint`, with its bump seed.
pub open spec fn holding_address(authority: Address, mint: Address) -> Option<(Seq<u8>, u8)> {
    program_address(holding_seeds(authority, mint), associated_token_program()@)
}

/// Whether `key` is the address of the vault of `owner` for `mint`.
pub open spec fn is_vault_address(key: Address, owner: Address, mint: Address) -> bool {
    vault_address(owner, mint) matches Some((address, _)) && address == key@
}

/// Whether `key` is the address of the holding that `authority` has for `mint`.
pub open spec fn is_holding_address(key: Address, authority: Address, mint: Address) -> bool {
    holding_address(authority, mint) matches Some((address, _)) && address == key@
}

/// The address of this program.
pub open spec fn program() -> Address {
    Address { bytes: ID }
}

/// The address of the token program.
pub open spec fn token_program() -> Address {
    Address { bytes: TOKEN_PROGRAM_ID }
}

/// The address of the associated token program.
pub open spec fn associated_token_program() -> Address {
    Address { bytes: ASSOCIATED_TOKEN_PROGRAM_ID }
}

/// The address of this program.
pub fn id() -> (address: Address)
    ensures
        address == program(),
{
    Address { bytes: ID }
}

/// The address of the token program.
pub fn token_program_id() -> (address: Address)
    ensures
        address == token_program(),
{
    Address { bytes: TOKEN_PROGRAM_ID }
}

/// The address of the associated token program.
pub fn associated_token_program_id() -> (address: Address)
    ensures
        address == associated_token_program(),
{
    Address { bytes: ASSOCIATED_TOKEN_PROGRAM_ID }
}

/// Derives the address of the vault of `owner` for the asset `mint`.
pub fn find_vault_address(owner: &Address, mint: &Address) -> (found: Option<(Address, u8)>)
    ensures
        derived_view(found) == vault_address(*owner, *mint),
{
    let mut seeds: Vec<Vec<u8>> = Vec::new();
    seeds.push(slice_to_vec(VAULT_KEY.as_slice()));
    seeds.push(owner.to_vec());
    seeds.push(mint.to_vec());
    assert(seeds.deep_view() =~~= vault_seeds(*owner, *mint));
    try_find_program_address(&seeds, &id())
}

/// Derives the address of the holding that `authority` has for the asset `mint`.
pub fn find_holding_address(authority: &Address, mint: &Address) -> (found: Option<(Address, u8)>)
    ensures
        derived_view(found) == holding_address(*authority, *mint),
{
    let mut seeds: Vec<Vec<u8>> = Vec::new();
    seeds.push(authority.to_vec());
    seeds.push(token_program_id().to_vec());
    seeds.push(mint.to_vec());
    assert(seeds.deep_view() =~~= holding_seeds(*authority, *mint));
    try_find_program_address(&seeds, &associated_token_program_id())
}

/// The seeds that let the vault of `owner` for `mint` sign for itself.
pub fn vault_signer_seeds(owner: &Address, mint: &Address, bump: u8) -> (seeds: Vec<Vec<u8>>)
    ensures
        seeds.deep_view() == signer_seeds(*owner, *mint, bump),
{
    let mut seeds: Vec<Vec<u8>> = Vec::new();
    seeds.push(slice_to_vec(VAULT_KEY.as_slice()));
    seeds.push(owner.to_vec());
    seeds.push(mint.to_vec());
    let mut last: Vec<u8> = Vec::new();
    last.push(bump);
    seeds.push(last);
    assert(seeds.deep_view() =~~= signer_seeds(*owner, *mint, bump));
    seeds
}

} // verus!
