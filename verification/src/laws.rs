//! The guarantees the orchestration gives, stated on their own.
//!
//! Each proof function here is a law over the transition predicates of
//! `mint_token` and `mint_token_with_metadata`, so a reader sees the
//! guarantee stated directly rather than buried in a contract.

use vstd::prelude::*;
use crate::errors::QmsError;
use crate::state::Config;
use crate::ledger::Ledger;
use crate::args::MintTokenArgs;
use crate::args::MetadataArgs;
use crate::keys::ata_of;
use crate::mint::MintToken;
use crate::mint::MintTokenWithMetadata;
use crate::mint::mint_token_error;
use crate::mint::mint_token_post;
use crate::mint::mint_token_success_post;
use crate::mint::mint_token_with_metadata_post;
use crate::mint::mint_token_with_metadata_success_post;
use crate::mint::metadata_record_of;

verus! {

/// A successful mint leaves exactly one new asset whose whole supply — the
/// requested `initial_supply` — sits in the destination account, and pays the
/// treasury exactly the configured fee; every other lamport the payer gave up
/// sits as the two new accounts' rent deposits.
pub proof fn lemma_mint_success_accounting(
    pre: Ledger,
    post: Ledger,
    config: Config,
    a: MintToken,
    args: MintTokenArgs,
    mint_rent: u64,
    ata_rent: u64,
)
    requires
        mint_token_success_post(pre, post, config, a, args, mint_rent, ata_rent),
    ensures
        post.destination matches Some(d) && d.amount == args.initial_supply,
        post.mint matches Some(m) && m.supply == args.initial_supply,
        post.mint.unwrap().supply == post.destination.unwrap().amount,
        post.treasury_lamports - pre.treasury_lamports == config.fee_lamports,
        pre.payer_lamports - post.payer_lamports
            == config.fee_lamports + post.mint.unwrap().lamports + post.destination.unwrap().lamports,
        post.events@ =~= pre.events@.push(post.events@.last()),
{
}

/// A destination account that is not the derived function of the owner and
/// the asset is never accepted; when every check before it passes, the
/// invocation fails exactly with `InvalidATA` — and by `mint_token_post` a
/// failed invocation changes nothing.
pub proof fn lemma_ata_mismatch_rejected(
    config: Config,
    a: MintToken,
    args: MintTokenArgs,
    mint_rent: u64,
    ata_rent: u64,
    payer_lamports: u64,
)
    requires
        a.destination_ata != ata_of(a.destination_owner, a.mint),
    ensures
        mint_token_error(config, a, args, mint_rent, ata_rent, payer_lamports) is Some,
        args.initial_supply > 0 && args.decimals <= 9 && a.treasury == config.treasury
            && a.destination_owner == args.mint_to ==> mint_token_error(
            config,
            a,
            args,
            mint_rent,
            ata_rent,
            payer_lamports,
        ) == Some(QmsError::InvalidATA),
{
}

/// Re-submitting an invocation that failed fails identically and leaves no
/// ledger state difference: the failed run ends in the state it started from,
/// and the retry is decided by that same state.
pub proof fn lemma_mint_failure_idempotent(
    pre: Ledger,
    post1: Ledger,
    r1: Result<(), QmsError>,
    post2: Ledger,
    r2: Result<(), QmsError>,
    config: Config,
    a: MintToken,
    args: MintTokenArgs,
    mint_rent: u64,
    ata_rent: u64,
)
    requires
        mint_token_post(pre, post1, r1, config, a, args, mint_rent, ata_rent),
        r1 is Err,
        mint_token_post(post1, post2, r2, config, a, args, mint_rent, ata_rent),
    ensures
        post1 == pre,
        r2 == r1,
        post2 == pre,
{
}

/// The same, for the metadata path.
pub proof fn lemma_mint_with_metadata_failure_idempotent(
    pre: Ledger,
    post1: Ledger,
    r1: Result<(), QmsError>,
    post2: Ledger,
    r2: Result<(), QmsError>,
    config: Config,
    a: MintTokenWithMetadata,
    args: MintTokenArgs,
    meta: MetadataArgs,
    mint_rent: u64,
    ata_rent: u64,
)
    requires
        mint_token_with_metadata_post(pre, post1, r1, config, a, args, meta, mint_rent, ata_rent),
        r1 is Err,
        mint_token_with_metadata_post(post1, post2, r2, config, a, args, meta, mint_rent, ata_rent),
    ensures
        post1 == pre,
        r2 == r1,
        post2 == pre,
{
}

/// The caller's choice of final authorities is honored exactly: `None` leaves
/// an authority permanently unset, `Some(x)` hands it to `x`.
pub proof fn lemma_final_authority_round_trip(
    pre: Ledger,
    post: Ledger,
    config: Config,
    a: MintToken,
    args: MintTokenArgs,
    mint_rent: u64,
    ata_rent: u64,
)
    requires
        mint_token_success_post(pre, post, config, a, args, mint_rent, ata_rent),
    ensures
        post.mint matches Some(m) && m.mint_authority == args.final_mint_authority
            && m.freeze_authority == args.final_freeze_authority,
        args.final_mint_authority is None ==> post.mint.unwrap().mint_authority is None,
        forall|x: anchor_lang::prelude::Pubkey|
            args.final_mint_authority == Some(x) ==> post.mint.unwrap().mint_authority == Some(x),
{
}

/// A successful metadata mint records exactly the supplied fields, with the
/// update authority set as declared.
pub proof fn lemma_metadata_recorded_exactly(
    pre: Ledger,
    post: Ledger,
    config: Config,
    a: MintTokenWithMetadata,
    args: MintTokenArgs,
    meta: MetadataArgs,
    mint_rent: u64,
    ata_rent: u64,
)
    requires
        mint_token_with_metadata_success_post(
            pre,
            post,
            config,
            a,
            args,
            meta,
            mint_rent,
            ata_rent,
        ),
    ensures
        post.metadata == Some(metadata_record_of(meta)),
        post.metadata.unwrap().update_authority == meta.update_authority,
        post.metadata.unwrap().uri == meta.uri,
{
}

} // verus!
