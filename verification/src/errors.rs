//! The named outcomes with which an invocation can fail.

use vstd::prelude::*;

verus! {

/// Every error an invocation can end with. Each one is terminal for the
/// invocation: the ledger discards the whole mutation sequence, so a caller
/// observing one of these observes no state change.
#[derive(Clone, Copy, Debug, PartialEq, Eq, Structural)]
pub enum QmsError {
    /// The caller-declared treasury is not the configured one.
    InvalidTreasury,
    /// A configured fee must be greater than zero.
    InvalidFee,
    /// The declared destination owner does not match the `mint_to` argument.
    InvalidMintToOwner,
    /// The supplied destination account is not the derived one.
    InvalidATA,
    /// The initial supply must be greater than zero.
    InvalidSupply,
    /// Decimals must lie between 0 and 9.
    InvalidDecimals,
    /// The payer cannot cover the fee plus both rent deposits.
    InsufficientFunds,
    /// Only the configured admin may update the configuration.
    Unauthorized,
    /// The fee-plus-rent sum does not fit in 64 bits.
    MathOverflow,
    /// Deriving a program address failed outright.
    PdaDerivationError,
    /// The supplied metadata record address is not the derived one.
    InvalidMetadataPda,
    /// The metadata URI is too long or lacks an approved scheme.
    InvalidMetadataUri,
    /// The metadata name is too long.
    InvalidMetadataName,
    /// The metadata symbol is too long.
    InvalidMetadataSymbol,
    /// The declared update authority does not match the metadata arguments.
    InvalidUpdateAuthority,
}

} // verus!
