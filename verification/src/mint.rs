//! The mint orchestration: fail-fast validation, then the ordered mutation
//! sequence, as one atomic state transition.
//!
//! Each operation's whole effect is one transition predicate (`..._post`):
//! on the first failed check it reports that error and changes nothing;
//! otherwise it collects the fee, allocates and initializes the asset,
//! creates the destination account, issues the supply, optionally attaches
//! metadata, finalizes both authorities, and appends the event.

use vstd::prelude::*;
use anchor_lang::prelude::Pubkey;
use crate::errors::QmsError;
use crate::state::Config;
use crate::events::MintCreated;
use crate::ledger::Ledger;
use crate::ledger::MintAccountState;
use crate::ledger::TokenAccountState;
use crate::ledger::MetadataState;
use crate::args::MintTokenArgs;
use crate::args::MetadataArgs;
use crate::args::metadata_args_error;
use crate::args::validate_metadata_args;
use crate::keys::ata_of;
use crate::keys::metadata_pda_of;
use crate::keys::key_eq;
use crate::keys::derive_ata;
use crate::keys::derive_metadata_pda;

verus! {

/// The accounts a `mint_token` invocation presents, by address.
pub struct MintToken {
    pub payer: Pubkey,
    pub treasury: Pubkey,
    pub mint: Pubkey,
    pub program_authority: Pubkey,
    pub destination_owner: Pubkey,
    pub destination_ata: Pubkey,
}

/// The accounts a `mint_token_with_metadata` invocation presents, by address.
pub struct MintTokenWithMetadata {
    pub payer: Pubkey,
    pub treasury: Pubkey,
    pub mint: Pubkey,
    pub program_authority: Pubkey,
    pub destination_owner: Pubkey,
    pub destination_ata: Pubkey,
    pub metadata_pda: Pubkey,
    pub update_authority: Pubkey,
    pub token_metadata_program: Pubkey,
}

/// The fee plus both rent deposits, as an unbounded integer.
pub open spec fn required_lamports(fee: u64, mint_rent: u64, ata_rent: u64) -> int {
    fee + mint_rent + ata_rent
}

/// The first check a `mint_token` invocation fails, if any, in the order the
/// orchestration makes them.
pub open spec fn mint_token_error(
    config: Config,
    a: MintToken,
    args: MintTokenArgs,
    mint_rent: u64,
    ata_rent: u64,
    payer_lamports: u64,
) -> Option<QmsError> {
    if args.initial_supply == 0 {
        Some(QmsError::InvalidSupply)
    } else if args.decimals > 9 {
        Some(QmsError::InvalidDecimals)
    } else if a.treasury != config.treasury {
        Some(QmsError::InvalidTreasury)
    } else if a.destination_owner != args.mint_to {
        Some(QmsError::InvalidMintToOwner)
    } else if a.destination_ata != ata_of(a.destination_owner, a.mint) {
        Some(QmsError::InvalidATA)
    } else if required_lamports(config.fee_lamports, mint_rent, ata_rent) > u64::MAX {
        Some(QmsError::MathOverflow)
    } else if payer_lamports < required_lamports(config.fee_lamports, mint_rent, ata_rent) {
        Some(QmsError::InsufficientFunds)
    } else {
        None
    }
}

/// The event a successful `mint_token` appends.
pub open spec fn mint_token_event(config: Config, a: MintToken, args: MintTokenArgs) -> MintCreated {
    MintCreated {
        payer: a.payer,
        mint: a.mint,
        destination_owner: a.destination_owner,
        destination_ata: a.destination_ata,
        decimals: args.decimals,
        initial_supply: args.initial_supply,
        fee_lamports: config.fee_lamports,
        treasury: a.treasury,
        final_mint_authority: args.final_mint_authority,
        final_freeze_authority: args.final_freeze_authority,
        client_ref: args.client_ref,
        metadata_pda: None,
        metadata_uri: None,
        update_authority: None,
    }
}

/// The asset account a successful invocation leaves behind.
pub open spec fn minted_asset(args: MintTokenArgs, mint_rent: u64) -> MintAccountState {
    MintAccountState {
        lamports: mint_rent,
        decimals: args.decimals,
        supply: args.initial_supply,
        mint_authority: args.final_mint_authority,
        freeze_authority: args.final_freeze_authority,
    }
}

/// The complete effect of a successful `mint_token` on the ledger.
pub open spec fn mint_token_success_post(
    pre: Ledger,
    post: Ledger,
    config: Config,
    a: MintToken,
    args: MintTokenArgs,
    mint_rent: u64,
    ata_rent: u64,
) -> bool {
    &&& post.payer_lamports
        == pre.payer_lamports - required_lamports(config.fee_lamports, mint_rent, ata_rent)
    &&& post.treasury_lamports == pre.treasury_lamports + config.fee_lamports
    &&& post.mint == Some(minted_asset(args, mint_rent))
    &&& post.destination == Some(TokenAccountState {
        lamports: ata_rent,
        mint: a.mint,
        owner: a.destination_owner,
        amount: args.initial_supply,
    })
    &&& post.metadata == pre.metadata
    &&& post.events@ == pre.events@.push(mint_token_event(config, a, args))
}

/// Exactly what one `mint_token` invocation does: on the first failed check
/// it reports that error and changes nothing; otherwise it applies the whole
/// mutation sequence.
pub open spec fn mint_token_post(
    pre: Ledger,
    post: Ledger,
    r: Result<(), QmsError>,
    config: Config,
    a: MintToken,
    args: MintTokenArgs,
    mint_rent: u64,
    ata_rent: u64,
) -> bool {
    match r {
        Ok(()) => {
            &&& mint_token_error(config, a, args, mint_rent, ata_rent, pre.payer_lamports) is None
            &&& mint_token_success_post(pre, post, config, a, args, mint_rent, ata_rent)
        },
        Err(e) => {
            &&& mint_token_error(config, a, args, mint_rent, ata_rent, pre.payer_lamports)
                == Some(e)
            &&& post == pre
        },
    }
}

/// Creates and funds a new asset in one atomic invocation: collects the fee,
/// allocates and initializes the asset under the derived transitional
/// authority, creates the destination account, issues the initial supply,
/// finalizes both authorities, and appends the event.
///
/// `mint_rent` and `ata_rent` are the rent deposits the ledger runtime quotes
/// for the two accounts being created.
pub fn mint_token(
    ledger: &mut Ledger,
    config: &Config,
    accounts: &MintToken,
    args: &MintTokenArgs,
    mint_rent: u64,
    ata_rent: u64,
) -> (r: Result<(), QmsError>)
    requires
        config.wf(),
        old(ledger).fresh(),
        old(ledger).treasury_lamports + config.fee_lamports <= u64::MAX,
    ensures
        mint_token_post(
            *old(ledger),
            *final(ledger),
            r,
            *config,
            *accounts,
            *args,
            mint_rent,
            ata_rent,
        ),
        r is Ok <==> mint_token_error(
            *config,
            *accounts,
            *args,
            mint_rent,
            ata_rent,
            old(ledger).payer_lamports,
        ) is None,
{
    if args.initial_supply == 0 {
        return Err(QmsError::InvalidSupply);
    }
    if args.decimals > 9 {
        return Err(QmsError::InvalidDecimals);
    }
    if !key_eq(&accounts.treasury, &config.treasury) {
        return Err(QmsError::InvalidTreasury);
    }
    if !key_eq(&accounts.destination_owner, &args.mint_to) {
        return Err(QmsError::InvalidMintToOwner);
    }
    let expected_ata = derive_ata(&accounts.destination_owner, &accounts.mint);
    if !key_eq(&accounts.destination_ata, &expected_ata) {
        return Err(QmsError::InvalidATA);
    }

    let fee = config.fee_lamports;
    if mint_rent > u64::MAX - fee {
        return Err(QmsError::MathOverflow);
    }
    let fee_and_mint_rent = fee + mint_rent;
    if ata_rent > u64::MAX - fee_and_mint_rent {
        return Err(QmsError::MathOverflow);
    }
    let required = fee_and_mint_rent + ata_rent;
    if ledger.payer_lamports < required {
        return Err(QmsError::InsufficientFunds);
    }

    // Fee transfer and both rent deposits leave the payer.
    ledger.payer_lamports = ledger.payer_lamports - required;
    ledger.treasury_lamports = ledger.treasury_lamports + fee;
    // Asset allocation, initialization, issuance, authority finalization.
    ledger.mint = Some(MintAccountState {
        lamports: mint_rent,
        decimals: args.decimals,
        supply: args.initial_supply,
        mint_authority: args.final_mint_authority,
        freeze_authority: args.final_freeze_authority,
    });
    // Destination account creation, holding the whole issued supply.
    ledger.destination = Some(TokenAccountState {
        lamports: ata_rent,
        mint: accounts.mint,
        owner: accounts.destination_owner,
        amount: args.initial_supply,
    });
    // Event emission.
    let event = MintCreated {
        payer: accounts.payer,
        mint: accounts.mint,
        destination_owner: accounts.destination_owner,
        destination_ata: accounts.destination_ata,
        decimals: args.decimals,
        initial_supply: args.initial_supply,
        fee_lamports: fee,
        treasury: accounts.treasury,
        final_mint_authority: args.final_mint_authority,
        final_freeze_authority: args.final_freeze_authority,
        client_ref: args.client_ref,
        metadata_pda: None,
        metadata_uri: None,
        update_authority: None,
    };
    ledger.events.push(event);
    Ok(())
}

/// The first check a `mint_token_with_metadata` invocation fails, if any, in
/// the order the orchestration makes them. The update-authority check comes
/// last, after the funds checks; the host ledger's atomicity makes every
/// failure equally effect-free, wherever in the sequence it strikes.
pub open spec fn mint_token_with_metadata_error(
    config: Config,
    a: MintTokenWithMetadata,
    args: MintTokenArgs,
    meta: MetadataArgs,
    mint_rent: u64,
    ata_rent: u64,
    payer_lamports: u64,
) -> Option<QmsError> {
    if args.initial_supply == 0 {
        Some(QmsError::InvalidSupply)
    } else if args.decimals > 9 {
        Some(QmsError::InvalidDecimals)
    } else if a.treasury != config.treasury {
        Some(QmsError::InvalidTreasury)
    } else if a.destination_owner != args.mint_to {
        Some(QmsError::InvalidMintToOwner)
    } else if a.destination_ata != ata_of(a.destination_owner, a.mint) {
        Some(QmsError::InvalidATA)
    } else if metadata_pda_of(a.token_metadata_program, a.mint) is None {
        Some(QmsError::PdaDerivationError)
    } else if a.metadata_pda != metadata_pda_of(a.token_metadata_program, a.mint).unwrap().0 {
        Some(QmsError::InvalidMetadataPda)
    } else if metadata_args_error(meta) is Some {
        metadata_args_error(meta)
    } else if required_lamports(config.fee_lamports, mint_rent, ata_rent) > u64::MAX {
        Some(QmsError::MathOverflow)
    } else if payer_lamports < required_lamports(config.fee_lamports, mint_rent, ata_rent) {
        Some(QmsError::InsufficientFunds)
    } else if a.update_authority != meta.update_authority {
        Some(QmsError::InvalidUpdateAuthority)
    } else {
        None
    }
}

/// The metadata record a successful invocation creates: exactly the supplied
/// fields, with the update authority set as declared.
pub open spec fn metadata_record_of(meta: MetadataArgs) -> MetadataState {
    MetadataState {
        name: meta.name,
        symbol: meta.symbol,
        uri: meta.uri,
        seller_fee_basis_points: meta.seller_fee_basis_points,
        is_mutable: meta.is_mutable,
        update_authority: meta.update_authority,
    }
}

/// The event a successful `mint_token_with_metadata` appends.
pub open spec fn mint_token_with_metadata_event(
    config: Config,
    a: MintTokenWithMetadata,
    args: MintTokenArgs,
    meta: MetadataArgs,
) -> MintCreated {
    MintCreated {
        payer: a.payer,
        mint: a.mint,
        destination_owner: a.destination_owner,
        destination_ata: a.destination_ata,
        decimals: args.decimals,
        initial_supply: args.initial_supply,
        fee_lamports: config.fee_lamports,
        treasury: a.treasury,
        final_mint_authority: args.final_mint_authority,
        final_freeze_authority: args.final_freeze_authority,
        client_ref: args.client_ref,
        metadata_pda: Some(a.metadata_pda),
        metadata_uri: Some(meta.uri),
        update_authority: Some(meta.update_authority),
    }
}

/// The complete effect of a successful `mint_token_with_metadata`.
pub open spec fn mint_token_with_metadata_success_post(
    pre: Ledger,
    post: Ledger,
    config: Config,
    a: MintTokenWithMetadata,
    args: MintTokenArgs,
    meta: MetadataArgs,
    mint_rent: u64,
    ata_rent: u64,
) -> bool {
    &&& post.payer_lamports
        == pre.payer_lamports - required_lamports(config.fee_lamports, mint_rent, ata_rent)
    &&& post.treasury_lamports == pre.treasury_lamports + config.fee_lamports
    &&& post.mint == Some(minted_asset(args, mint_rent))
    &&& post.destination == Some(TokenAccountState {
        lamports: ata_rent,
        mint: a.mint,
        owner: a.destination_owner,
        amount: args.initial_supply,
    })
    &&& post.metadata == Some(metadata_record_of(meta))
    &&& post.events@ == pre.events@.push(mint_token_with_metadata_event(config, a, args, meta))
}

/// Exactly what one `mint_token_with_metadata` invocation does.
pub open spec fn mint_token_with_metadata_post(
    pre: Ledger,
    post: Ledger,
    r: Result<(), QmsError>,
    config: Config,
    a: MintTokenWithMetadata,
    args: MintTokenArgs,
    meta: MetadataArgs,
    mint_rent: u64,
    ata_rent: u64,
) -> bool {
    match r {
        Ok(()) => {
            &&& mint_token_with_metadata_error(
                config,
                a,
                args,
                meta,
                mint_rent,
                ata_rent,
                pre.payer_lamports,
            ) is None
            &&& mint_token_with_metadata_success_post(
                pre,
                post,
                config,
                a,
                args,
                meta,
                mint_rent,
                ata_rent,
            )
        },
        Err(e) => {
            &&& mint_token_with_metadata_error(
                config,
                a,
                args,
                meta,
                mint_rent,
                ata_rent,
                pre.payer_lamports,
            ) == Some(e)
            &&& post == pre
        },
    }
}

/// `mint_token`, extended with the creation of the metadata record between
/// issuance and authority finalization.
pub fn mint_token_with_metadata(
    ledger: &mut Ledger,
    config: &Config,
    accounts: &MintTokenWithMetadata,
    args: &MintTokenArgs,
    meta_args: MetadataArgs,
    mint_rent: u64,
    ata_rent: u64,
) -> (r: Result<(), QmsError>)
    requires
        config.wf(),
        old(ledger).fresh(),
        old(ledger).treasury_lamports + config.fee_lamports <= u64::MAX,
    ensures
        mint_token_with_metadata_post(
            *old(ledger),
            *final(ledger),
            r,
            *config,
            *accounts,
            *args,
            meta_args,
            mint_rent,
            ata_rent,
        ),
        r is Ok <==> mint_token_with_metadata_error(
            *config,
            *accounts,
            *args,
            meta_args,
            mint_rent,
            ata_rent,
            old(ledger).payer_lamports,
        ) is None,
{
    if args.initial_supply == 0 {
        return Err(QmsError::InvalidSupply);
    }
    if args.decimals > 9 {
        return Err(QmsError::InvalidDecimals);
    }
    if !key_eq(&accounts.treasury, &config.treasury) {
        return Err(QmsError::InvalidTreasury);
    }
    if !key_eq(&accounts.destination_owner, &args.mint_to) {
        return Err(QmsError::InvalidMintToOwner);
    }
    let expected_ata = derive_ata(&accounts.destination_owner, &accounts.mint);
    if !key_eq(&accounts.destination_ata, &expected_ata) {
        return Err(QmsError::InvalidATA);
    }
    let expected_metadata = match derive_metadata_pda(
        &accounts.token_metadata_program,
        &accounts.mint,
    ) {
        Some(found) => found.0,
        None => {
            return Err(QmsError::PdaDerivationError);
        },
    };
    if !key_eq(&accounts.metadata_pda, &expected_metadata) {
        return Err(QmsError::InvalidMetadataPda);
    }
    if let Err(e) = validate_metadata_args(&meta_args) {
        return Err(e);
    }

    let fee = config.fee_lamports;
    if mint_rent > u64::MAX - fee {
        return Err(QmsError::MathOverflow);
    }
    let fee_and_mint_rent = fee + mint_rent;
    if ata_rent > u64::MAX - fee_and_mint_rent {
        return Err(QmsError::MathOverflow);
    }
    let required = fee_and_mint_rent + ata_rent;
    if ledger.payer_lamports < required {
        return Err(QmsError::InsufficientFunds);
    }
    if !key_eq(&accounts.update_authority, &meta_args.update_authority) {
        return Err(QmsError::InvalidUpdateAuthority);
    }

    // Fee transfer and both rent deposits leave the payer.
    ledger.payer_lamports = ledger.payer_lamports - required;
    ledger.treasury_lamports = ledger.treasury_lamports + fee;
    // Asset allocation, initialization, issuance, authority finalization.
    ledger.mint = Some(MintAccountState {
        lamports: mint_rent,
        decimals: args.decimals,
        supply: args.initial_supply,
        mint_authority: args.final_mint_authority,
        freeze_authority: args.final_freeze_authority,
    });
    // Destination account creation, holding the whole issued supply.
    ledger.destination = Some(TokenAccountState {
        lamports: ata_rent,
        mint: accounts.mint,
        owner: accounts.destination_owner,
        amount: args.initial_supply,
    });
    // Event emission, with the metadata fields filled in.
    let event = MintCreated {
        payer: accounts.payer,
        mint: accounts.mint,
        destination_owner: accounts.destination_owner,
        destination_ata: accounts.destination_ata,
        decimals: args.decimals,
        initial_supply: args.initial_supply,
        fee_lamports: fee,
        treasury: accounts.treasury,
        final_mint_authority: args.final_mint_authority,
        final_freeze_authority: args.final_freeze_authority,
        client_ref: args.client_ref,
        metadata_pda: Some(accounts.metadata_pda),
        metadata_uri: Some(meta_args.uri.clone()),
        update_authority: Some(meta_args.update_authority),
    };
    ledger.events.push(event);
    // Metadata record creation, authorized by the transitional authority.
    ledger.metadata = Some(MetadataState {
        name: meta_args.name,
        symbol: meta_args.symbol,
        uri: meta_args.uri,
        seller_fee_basis_points: meta_args.seller_fee_basis_points,
        is_mutable: meta_args.is_mutable,
        update_authority: meta_args.update_authority,
    });
    Ok(())
}

} // verus!
