use anchor_lang::prelude::Pubkey;
use anchor_spl::associated_token::get_associated_token_address;
use qms_mint::{
    initialize_config, mint_token_with_metadata, validate_metadata_args, InitializeConfig, Ledger,
    MetadataArgs, MintTokenArgs, MintTokenWithMetadata, QmsError,
};

const FEE: u64 = 100;
const MINT_RENT: u64 = 1_400_000;
const ATA_RENT: u64 = 2_000_000;
const TOTAL: u64 = FEE + MINT_RENT + ATA_RENT;

fn key(n: u8) -> Pubkey {
    Pubkey::new_from_array([n; 32])
}

fn fresh_ledger(payer_lamports: u64) -> Ledger {
    Ledger {
        payer_lamports,
        treasury_lamports: 0,
        mint: None,
        destination: None,
        metadata: None,
        events: Vec::new(),
    }
}

fn accounts() -> MintTokenWithMetadata {
    let owner = key(10);
    let mint = key(11);
    let registry = key(15);
    let (metadata_pda, _) = Pubkey::find_program_address(
        &[b"metadata", registry.as_ref(), mint.as_ref()],
        &registry,
    );
    MintTokenWithMetadata {
        payer: key(12),
        treasury: key(2),
        mint,
        program_authority: key(13),
        destination_owner: owner,
        destination_ata: get_associated_token_address(&owner, &mint),
        metadata_pda,
        update_authority: key(16),
        token_metadata_program: registry,
    }
}

fn args() -> MintTokenArgs {
    MintTokenArgs {
        decimals: 6,
        initial_supply: 1_000_000,
        mint_to: key(10),
        final_mint_authority: Some(key(14)),
        final_freeze_authority: None,
        client_ref: None,
    }
}

fn meta() -> MetadataArgs {
    MetadataArgs {
        name: String::from("Example Asset"),
        symbol: String::from("EXA"),
        uri: String::from("https://x"),
        seller_fee_basis_points: 250,
        is_mutable: true,
        update_authority: key(16),
    }
}

fn config() -> qms_mint::Config {
    initialize_config(&InitializeConfig { admin: key(1) }, 254, key(2), FEE).unwrap()
}

fn assert_unchanged(l: &Ledger, payer_lamports: u64) {
    assert_eq!(l.payer_lamports, payer_lamports);
    assert_eq!(l.treasury_lamports, 0);
    assert!(l.mint.is_none());
    assert!(l.destination.is_none());
    assert!(l.metadata.is_none());
    assert!(l.events.is_empty());
}

#[test]
fn mint_with_metadata_records_supplied_fields_exactly() {
    let mut l = fresh_ledger(TOTAL);
    let acc = accounts();
    let r = mint_token_with_metadata(&mut l, &config(), &acc, &args(), meta(), MINT_RENT, ATA_RENT);
    assert!(r.is_ok());
    let rec = l.metadata.as_ref().unwrap();
    assert_eq!(rec.name, "Example Asset");
    assert_eq!(rec.symbol, "EXA");
    assert_eq!(rec.uri, "https://x");
    assert_eq!(rec.seller_fee_basis_points, 250);
    assert!(rec.is_mutable);
    assert_eq!(rec.update_authority, key(16));
    assert_eq!(l.payer_lamports, 0);
    assert_eq!(l.treasury_lamports, FEE);
    assert_eq!(l.mint.as_ref().unwrap().supply, 1_000_000);
    assert_eq!(l.destination.as_ref().unwrap().amount, 1_000_000);
    assert_eq!(l.events.len(), 1);
    let e = &l.events[0];
    assert_eq!(e.metadata_pda, Some(acc.metadata_pda));
    assert_eq!(e.metadata_uri.as_deref(), Some("https://x"));
    assert_eq!(e.update_authority, Some(key(16)));
}

#[test]
fn mint_with_metadata_rejects_ftp_uri() {
    let mut l = fresh_ledger(TOTAL);
    let mut m = meta();
    m.uri = String::from("ftp://x");
    let r = mint_token_with_metadata(&mut l, &config(), &accounts(), &args(), m, MINT_RENT, ATA_RENT);
    assert!(matches!(r, Err(QmsError::InvalidMetadataUri)));
    assert_unchanged(&l, TOTAL);
}

#[test]
fn mint_with_metadata_rejects_overlong_uri() {
    let mut l = fresh_ledger(TOTAL);
    let mut m = meta();
    let mut uri = String::from("https://");
    while uri.len() < 257 {
        uri.push('a');
    }
    m.uri = uri;
    let r = mint_token_with_metadata(&mut l, &config(), &accounts(), &args(), m, MINT_RENT, ATA_RENT);
    assert!(matches!(r, Err(QmsError::InvalidMetadataUri)));
    assert_unchanged(&l, TOTAL);
}

#[test]
fn mint_with_metadata_accepts_uri_of_exactly_256() {
    let mut m = meta();
    let mut uri = String::from("https://");
    while uri.len() < 256 {
        uri.push('a');
    }
    m.uri = uri;
    assert!(validate_metadata_args(&m).is_ok());
}

#[test]
fn mint_with_metadata_rejects_overlong_name() {
    let mut l = fresh_ledger(TOTAL);
    let mut m = meta();
    m.name = "n".repeat(33);
    let r = mint_token_with_metadata(&mut l, &config(), &accounts(), &args(), m, MINT_RENT, ATA_RENT);
    assert!(matches!(r, Err(QmsError::InvalidMetadataName)));
    assert_unchanged(&l, TOTAL);
}

#[test]
fn mint_with_metadata_rejects_overlong_symbol() {
    let mut l = fresh_ledger(TOTAL);
    let mut m = meta();
    m.symbol = "s".repeat(11);
    let r = mint_token_with_metadata(&mut l, &config(), &accounts(), &args(), m, MINT_RENT, ATA_RENT);
    assert!(matches!(r, Err(QmsError::InvalidMetadataSymbol)));
    assert_unchanged(&l, TOTAL);
}

#[test]
fn validate_metadata_args_accepts_ipfs_scheme() {
    let mut m = meta();
    m.uri = String::from("ipfs://x");
    assert!(validate_metadata_args(&m).is_ok());
}

#[test]
fn validate_metadata_args_accepts_boundary_lengths() {
    let mut m = meta();
    m.name = "n".repeat(32);
    m.symbol = "s".repeat(10);
    assert!(validate_metadata_args(&m).is_ok());
}

#[test]
fn mint_with_metadata_rejects_underived_record_address() {
    let mut l = fresh_ledger(TOTAL);
    let mut acc = accounts();
    acc.metadata_pda = key(42);
    let r = mint_token_with_metadata(&mut l, &config(), &acc, &args(), meta(), MINT_RENT, ATA_RENT);
    assert!(matches!(r, Err(QmsError::InvalidMetadataPda)));
    assert_unchanged(&l, TOTAL);
}

#[test]
fn mint_with_metadata_rejects_update_authority_mismatch() {
    let mut l = fresh_ledger(TOTAL);
    let mut acc = accounts();
    acc.update_authority = key(43);
    let r = mint_token_with_metadata(&mut l, &config(), &acc, &args(), meta(), MINT_RENT, ATA_RENT);
    assert!(matches!(r, Err(QmsError::InvalidUpdateAuthority)));
    assert_unchanged(&l, TOTAL);
}

#[test]
fn mint_with_metadata_rejects_wrong_destination_account() {
    let mut l = fresh_ledger(TOTAL);
    let mut acc = accounts();
    acc.destination_ata = acc.destination_owner;
    let r = mint_token_with_metadata(&mut l, &config(), &acc, &args(), meta(), MINT_RENT, ATA_RENT);
    assert!(matches!(r, Err(QmsError::InvalidATA)));
    assert_unchanged(&l, TOTAL);
}
