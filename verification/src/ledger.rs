//! A plain-value model of the ledger state one invocation touches.

use vstd::prelude::*;
use anchor_lang::prelude::Pubkey;
use crate::events::MintCreated;

verus! {

/// The asset account after initialization: its rent deposit, its
/// configuration, the total supply issued, and its two authorities, each
/// either a specific identity or permanently unset.
pub struct MintAccountState {
    pub lamports: u64,
    pub decimals: u8,
    pub supply: u64,
    pub mint_authority: Option<Pubkey>,
    pub freeze_authority: Option<Pubkey>,
}

/// The destination account holding the issued balance of the new asset.
pub struct TokenAccountState {
    pub lamports: u64,
    pub mint: Pubkey,
    pub owner: Pubkey,
    pub amount: u64,
}

/// The optional descriptive record attached to the asset, created at most
/// once and never updated by this core.
pub struct MetadataState {
    pub name: String,
    pub symbol: String,
    pub uri: String,
    pub seller_fee_basis_points: u16,
    pub is_mutable: bool,
    pub update_authority: Pubkey,
}

/// Everything one invocation may touch: the payer's and treasury's balances,
/// the accounts the invocation creates, and the event log it appends to. The
/// host ledger applies an invocation atomically, so a failed one leaves this
/// state exactly as it was.
pub struct Ledger {
    pub payer_lamports: u64,
    pub treasury_lamports: u64,
    pub mint: Option<MintAccountState>,
    pub destination: Option<TokenAccountState>,
    pub metadata: Option<MetadataState>,
    pub events: Vec<MintCreated>,
}

impl Ledger {
    /// A state in which the orchestration may start: the asset identity is
    /// fresh, so none of the accounts the invocation creates exist yet.
    pub open spec fn fresh(self) -> bool {
        self.mint is None && self.destination is None && self.metadata is None
    }
}

} // verus!
