//! Identities and deterministic address derivation.
//!
//! An identity is a ledger address. The two derivations the orchestration
//! depends on — the destination account of an (owner, asset) pair and the
//! metadata record of an asset — are pure functions of their inputs, computed
//! by the ledger's own library and named here so contracts can speak of them.

use vstd::prelude::*;
use anchor_lang::prelude::Pubkey;

verus! {

#[verifier::external_type_specification]
#[verifier::external_body]
pub struct ExPubkey(Pubkey);

/// The deterministic destination-account address of an (owner, asset) pair.
pub uninterp spec fn ata_of(owner: Pubkey, mint: Pubkey) -> Pubkey;

/// The deterministic metadata-record address of an asset under a registry
/// program, with its bump seed; `None` when no address can be derived.
pub uninterp spec fn metadata_pda_of(registry: Pubkey, mint: Pubkey) -> Option<(Pubkey, u8)>;

/// Relies on `Pubkey`'s `PartialEq`: equality of the 32 address bytes.
#[verifier::external_body]
pub(crate) fn key_eq(a: &Pubkey, b: &Pubkey) -> (r: bool)
    ensures
        r == (*a == *b),
{
    a == b
}

/// Relies on `anchor_spl::associated_token::get_associated_token_address`:
/// the derived account address is a function of the owner and mint alone.
/// The derivation aborts the process if no bump seed yields a valid address,
/// which takes defeating the derivation's hash on every one of its 255 bump
/// seeds at once; no such pair of addresses is known.
#[verifier::external_body]
pub(crate) fn derive_ata(owner: &Pubkey, mint: &Pubkey) -> (r: Pubkey)
    ensures
        r == ata_of(*owner, *mint),
{
    anchor_spl::associated_token::get_associated_token_address(owner, mint)
}

/// Relies on `Pubkey::try_find_program_address` over the metadata registry's
/// seed convention: the result is a function of the registry and mint alone,
/// and `None` comes back only when no bump seed yields a valid address.
#[verifier::external_body]
pub(crate) fn derive_metadata_pda(registry: &Pubkey, mint: &Pubkey) -> (r: Option<(Pubkey, u8)>)
    ensures
        r == metadata_pda_of(*registry, *mint),
{
    let seeds: &[&[u8]] = &[b"metadata", registry.as_ref(), mint.as_ref()];
    Pubkey::try_find_program_address(seeds, registry)
}

} // verus!
