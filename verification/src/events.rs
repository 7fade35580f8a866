//! The append-only record of a completed mint.

use vstd::prelude::*;
use anchor_lang::prelude::Pubkey;

verus! {

/// One record per successful invocation, appended for off-chain observers and
/// never read back by the core. The metadata fields are `None` on the plain
/// mint path.
pub struct MintCreated {
    pub payer: Pubkey,
    pub mint: Pubkey,
    pub destination_owner: Pubkey,
    pub destination_ata: Pubkey,
    pub decimals: u8,
    pub initial_supply: u64,
    pub fee_lamports: u64,
    pub treasury: Pubkey,
    pub final_mint_authority: Option<Pubkey>,
    pub final_freeze_authority: Option<Pubkey>,
    pub client_ref: Option<[u8; 16]>,
    pub metadata_pda: Option<Pubkey>,
    pub metadata_uri: Option<String>,
    pub update_authority: Option<Pubkey>,
}

} // verus!
