//! Caller-supplied arguments and the pure checks over them.

use vstd::prelude::*;
use vstd::string::*;
use anchor_lang::prelude::Pubkey;
use crate::errors::QmsError;

verus! {

/// The arguments common to both mint operations.
pub struct MintTokenArgs {
    pub decimals: u8,
    pub initial_supply: u64,
    pub mint_to: Pubkey,
    pub final_mint_authority: Option<Pubkey>,
    pub final_freeze_authority: Option<Pubkey>,
    pub client_ref: Option<[u8; 16]>,
}

/// The descriptive fields of the optional metadata record.
pub struct MetadataArgs {
    pub name: String,
    pub symbol: String,
    pub uri: String,
    pub seller_fee_basis_points: u16,
    pub is_mutable: bool,
    pub update_authority: Pubkey,
}

/// `p` stands at the front of `s`.
pub open spec fn is_char_prefix(s: Seq<char>, p: Seq<char>) -> bool {
    p.len() <= s.len() && s.subrange(0, p.len() as int) == p
}

/// An acceptable metadata URI: at most 256 characters, under one of the two
/// approved schemes.
pub open spec fn valid_uri(u: Seq<char>) -> bool {
    u.len() <= 256 && (is_char_prefix(u, "https://"@) || is_char_prefix(u, "ipfs://"@))
}

/// The first check the metadata arguments fail, if any: URI length and
/// scheme, then name length, then symbol length.
pub open spec fn metadata_args_error(m: MetadataArgs) -> Option<QmsError> {
    if !valid_uri(m.uri@) {
        Some(QmsError::InvalidMetadataUri)
    } else if m.name@.len() > 32 {
        Some(QmsError::InvalidMetadataName)
    } else if m.symbol@.len() > 10 {
        Some(QmsError::InvalidMetadataSymbol)
    } else {
        None
    }
}

fn has_char_prefix(s: &str, p: &str) -> (b: bool)
    ensures
        b == is_char_prefix(s@, p@),
{
    let n = p.unicode_len();
    let m = s.unicode_len();
    if n > m {
        return false;
    }
    let mut i: usize = 0;
    while i < n
        invariant
            0 <= i <= n,
            n == p@.len(),
            n <= s@.len(),
            forall|j: int| 0 <= j < i ==> s@[j] == p@[j],
        decreases n - i,
    {
        if s.get_char(i) != p.get_char(i) {
            proof {
                assert(s@.subrange(0, p@.len() as int)[i as int] == s@[i as int]);
            }
            return false;
        }
        i += 1;
    }
    proof {
        assert(s@.subrange(0, p@.len() as int) =~= p@);
    }
    true
}

/// Checks the metadata fields; pure, run before any mutation is attempted.
pub fn validate_metadata_args(args: &MetadataArgs) -> (r: Result<(), QmsError>)
    ensures
        match r {
            Ok(()) => metadata_args_error(*args) is None,
            Err(e) => metadata_args_error(*args) == Some(e),
        },
{
    let uri = args.uri.as_str();
    if uri.unicode_len() > 256 {
        return Err(QmsError::InvalidMetadataUri);
    }
    if !(has_char_prefix(uri, "https://") || has_char_prefix(uri, "ipfs://")) {
        return Err(QmsError::InvalidMetadataUri);
    }
    if args.name.as_str().unicode_len() > 32 {
        return Err(QmsError::InvalidMetadataName);
    }
    if args.symbol.as_str().unicode_len() > 10 {
        return Err(QmsError::InvalidMetadataSymbol);
    }
    Ok(())
}

} // verus!
