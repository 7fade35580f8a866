use anchor_lang::prelude::Pubkey;
use qms_mint::{
    initialize_config, update_config, InitializeConfig, QmsError, UpdateConfig, CONFIG_RECORD_LEN,
};

fn key(n: u8) -> Pubkey {
    Pubkey::new_from_array([n; 32])
}

#[test]
fn initialize_config_rejects_zero_fee() {
    let ctx = InitializeConfig { admin: key(1) };
    let r = initialize_config(&ctx, 254, key(2), 0);
    assert!(matches!(r, Err(QmsError::InvalidFee)));
}

#[test]
fn initialize_config_persists_fields() {
    let ctx = InitializeConfig { admin: key(1) };
    let c = initialize_config(&ctx, 254, key(2), 100).unwrap();
    assert_eq!(c.admin, key(1));
    assert_eq!(c.treasury, key(2));
    assert_eq!(c.fee_lamports, 100);
    assert_eq!(c.bump, 254);
}

#[test]
fn update_config_rejects_zero_fee() {
    let ctx = InitializeConfig { admin: key(1) };
    let mut c = initialize_config(&ctx, 254, key(2), 100).unwrap();
    let r = update_config(&mut c, &UpdateConfig { admin: key(1) }, key(3), 0);
    assert!(matches!(r, Err(QmsError::InvalidFee)));
    assert_eq!(c.treasury, key(2));
    assert_eq!(c.fee_lamports, 100);
}

#[test]
fn update_config_rejects_non_admin() {
    let ctx = InitializeConfig { admin: key(1) };
    let mut c = initialize_config(&ctx, 254, key(2), 100).unwrap();
    let r = update_config(&mut c, &UpdateConfig { admin: key(9) }, key(3), 7);
    assert!(matches!(r, Err(QmsError::Unauthorized)));
    assert_eq!(c.admin, key(1));
    assert_eq!(c.treasury, key(2));
    assert_eq!(c.fee_lamports, 100);
}

#[test]
fn update_config_overwrites_treasury_and_fee() {
    let ctx = InitializeConfig { admin: key(1) };
    let mut c = initialize_config(&ctx, 254, key(2), 100).unwrap();
    let r = update_config(&mut c, &UpdateConfig { admin: key(1) }, key(3), 7);
    assert!(r.is_ok());
    assert_eq!(c.admin, key(1));
    assert_eq!(c.treasury, key(3));
    assert_eq!(c.fee_lamports, 7);
    assert_eq!(c.bump, 254);
}

#[test]
fn config_record_len_covers_all_fields() {
    // admin (32) + treasury (32) + fee (8) + bump (1)
    assert_eq!(CONFIG_RECORD_LEN, 73);
}

#[test]
fn update_config_checks_fee_before_admin() {
    let ctx = InitializeConfig { admin: key(1) };
    let mut c = initialize_config(&ctx, 254, key(2), 100).unwrap();
    let r = update_config(&mut c, &UpdateConfig { admin: key(9) }, key(3), 0);
    assert!(matches!(r, Err(QmsError::InvalidFee)));
}
