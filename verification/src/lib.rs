//! A verified model of an all-or-nothing token-mint orchestration.
//!
//! The library models the ledger state touched by one invocation with plain
//! values, states every validation rule and every mutation as a contract, and
//! proves the orchestration against them. Address derivation is delegated to
//! the ledger's own deterministic functions behind trusted wrappers.

mod args;
mod errors;
mod events;
mod keys;
mod laws;
mod ledger;
mod mint;
mod state;

pub use args::MetadataArgs;
pub use args::MintTokenArgs;
pub use args::is_char_prefix;
pub use args::metadata_args_error;
pub use args::valid_uri;
pub use args::validate_metadata_args;
pub use errors::QmsError;
pub use events::MintCreated;
pub use keys::ata_of;
pub use keys::metadata_pda_of;
pub use laws::lemma_ata_mismatch_rejected;
pub use laws::lemma_final_authority_round_trip;
pub use laws::lemma_metadata_recorded_exactly;
pub use laws::lemma_mint_failure_idempotent;
pub use laws::lemma_mint_success_accounting;
pub use laws::lemma_mint_with_metadata_failure_idempotent;
pub use ledger::Ledger;
pub use ledger::MetadataState;
pub use ledger::MintAccountState;
pub use ledger::TokenAccountState;
pub use mint::MintToken;
pub use mint::MintTokenWithMetadata;
pub use mint::metadata_record_of;
pub use mint::mint_token;
pub use mint::mint_token_error;
pub use mint::mint_token_event;
pub use mint::mint_token_post;
pub use mint::mint_token_success_post;
pub use mint::mint_token_with_metadata;
pub use mint::mint_token_with_metadata_error;
pub use mint::mint_token_with_metadata_event;
pub use mint::mint_token_with_metadata_post;
pub use mint::mint_token_with_metadata_success_post;
pub use mint::minted_asset;
pub use mint::required_lamports;
pub use state::Config;
pub use state::InitializeConfig;
pub use state::UpdateConfig;
pub use state::initialize_config;
pub use state::update_config;
pub use state::CONFIG_RECORD_LEN;
