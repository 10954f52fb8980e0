//! Failure kinds of the custody and trade operations.

use vstd::prelude::*;

verus! {

/// Why an operation was refused. Every failure aborts the whole operation.
#[derive(Clone, Copy, Debug, PartialEq, Eq, Structural)]
pub enum Errors {
    /// The metadata account is not at the address derived from the asset's mint, or is
    /// owned by the wrong program.
    BadMetadata,
    /// The asset carries a transfer rule-set and the matching policy account was not
    /// supplied, or the transfer arguments are inconsistent or cannot be encoded.
    BadRuleset,
    /// A native withdrawal would leave the vault below its minimum-balance reserve.
    SolRentExemptViolation,
    /// The trade already has an acceptor.
    TradeFull,
    /// The caller may not attach a vault to the trade now.
    VaultAttachError,
    /// The caller is not a party of the trade and cannot lock it.
    VaultLockError,
    /// The trade cannot be confirmed in its present state or with the supplied vaults.
    ConfirmTradeError,
    /// The trade cannot be cancelled by this caller or with the supplied vaults.
    CancelTradeError,
    /// The caller is not the vault's owner.
    Unauthorized,
    /// The vault is attached to an unresolved trade.
    VaultFrozen,
    /// The signing seeds do not derive the vault's address.
    InvalidSigningProof,
    /// The metadata account is authentic, but the token-metadata program's decoder
    /// rejects its bytes.
    UndecodableMetadata,
}

} // verus!
