//! The singleton protocol configuration and its two operations.

use vstd::prelude::*;
use anchor_lang::prelude::Pubkey;
use crate::errors::QmsError;
use crate::keys::key_eq;

verus! {

/// The singleton configuration record: who administers the protocol, where
/// fees go, what each mint pays, and the bump with which the record's own
/// address is re-derived. The ledger keeps exactly one instance per
/// deployment; only `admin` may overwrite it.
#[derive(Clone, Copy, Debug)]
pub struct Config {
    pub admin: Pubkey,
    pub treasury: Pubkey,
    pub fee_lamports: u64,
    pub bump: u8,
}

/// The persisted size of a [`Config`] record: admin, treasury, fee, bump.
pub const CONFIG_RECORD_LEN: usize = 32 + 32 + 8 + 1;

impl Config {
    /// Every configuration ever written carries a positive fee: the
    /// constructor rejects a zero fee and the update keeps the invariant.
    pub open spec fn wf(self) -> bool {
        self.fee_lamports > 0
    }
}

/// The identities an `initialize_config` invocation presents: the signer who
/// becomes the admin.
pub struct InitializeConfig {
    pub admin: Pubkey,
}

/// The identities an `update_config` invocation presents: the signer claiming
/// to be the admin.
pub struct UpdateConfig {
    pub admin: Pubkey,
}

/// Creates the singleton configuration. The ledger runtime allocates the
/// record at its derived address (failing if one exists already) and reports
/// the bump seed it found; this function decides the contents.
pub fn initialize_config(
    ctx: &InitializeConfig,
    bump: u8,
    treasury: Pubkey,
    fee_lamports: u64,
) -> (r: Result<Config, QmsError>)
    ensures
        match r {
            Ok(c) => fee_lamports > 0 && c == (Config {
                admin: ctx.admin,
                treasury: treasury,
                fee_lamports: fee_lamports,
                bump: bump,
            }),
            Err(e) => fee_lamports == 0 && e == QmsError::InvalidFee,
        },
        r is Ok ==> r.unwrap().wf(),
{
    if fee_lamports == 0 {
        return Err(QmsError::InvalidFee);
    }
    Ok(Config { admin: ctx.admin, treasury, fee_lamports, bump })
}

/// Overwrites the treasury and fee of the existing configuration. Only the
/// stored admin may do so, and the new fee must be positive; on any failure
/// the configuration is left exactly as it was.
pub fn update_config(
    config: &mut Config,
    ctx: &UpdateConfig,
    new_treasury: Pubkey,
    new_fee_lamports: u64,
) -> (r: Result<(), QmsError>)
    requires
        old(config).wf(),
    ensures
        match r {
            Ok(()) => {
                &&& new_fee_lamports > 0
                &&& ctx.admin == old(config).admin
                &&& *final(config) == (Config {
                    admin: old(config).admin,
                    treasury: new_treasury,
                    fee_lamports: new_fee_lamports,
                    bump: old(config).bump,
                })
            },
            Err(e) => {
                &&& *final(config) == *old(config)
                &&& if new_fee_lamports == 0 {
                    e == QmsError::InvalidFee
                } else {
                    ctx.admin != old(config).admin && e == QmsError::Unauthorized
                }
            },
        },
        final(config).wf(),
{
    if new_fee_lamports == 0 {
        return Err(QmsError::InvalidFee);
    }
    if !key_eq(&ctx.admin, &config.admin) {
        return Err(QmsError::Unauthorized);
    }
    config.treasury = new_treasury;
    config.fee_lamports = new_fee_lamports;
    Ok(())
}

} // verus!
