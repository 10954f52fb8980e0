//! The two persisted records: custody vaults and trade coordination records.

use crate::key::Pubkey;
use vstd::prelude::*;

verus! {

/// A custody record. Its address is derived from `(creator, vault_id)`.
#[derive(Clone, Copy, Debug, PartialEq, Eq)]
pub struct Vault {
    /// Identity that created the vault; never changes.
    pub creator: Pubkey,
    /// Numeric handle chosen by the creator.
    pub vault_id: u64,
    /// Current holder of custody rights.
    pub owner: Pubkey,
    /// True while the vault is attached to an unresolved trade.
    pub is_frozen: bool,
}

/// A coordination record for swapping the owners of two vaults.
#[derive(Clone, Copy, Debug, PartialEq, Eq)]
pub struct TradeAccount {
    pub trade_id: u64,
    /// Identity that opened the trade.
    pub creator_key: Pubkey,
    /// Address of the vault the creator attached, if any.
    pub creator_vault_key: Option<Pubkey>,
    /// Whether the creator has locked their side.
    pub creator_confirmed: bool,
    /// Identity of the counterparty, once one has joined.
    pub acceptor_key: Option<Pubkey>,
    /// Address of the vault the acceptor attached, if any.
    pub acceptor_vault_key: Option<Pubkey>,
    /// Whether the acceptor has locked their side.
    pub acceptor_confirmed: bool,
}

/// Fixed storage footprint of a record type.
pub trait GetSize {
    /// Number of bytes the record occupies in storage.
    spec fn size() -> nat;

    /// Number of bytes the record occupies in storage.
    fn get_size() -> (n: usize)
        ensures
            n == Self::size(),
    ;
}

impl GetSize for Vault {
    /// creator (32), id (8), owner (32), frozen flag (1).
    open spec fn size() -> nat {
        73
    }

    fn get_size() -> (n: usize) {
        32 + 8 + 32 + 1
    }
}

impl GetSize for TradeAccount {
    /// id (8), four identities (4 x 32), one presence tag for each of the three
    /// optional identities (3), two confirmation flags (2).
    open spec fn size() -> nat {
        141
    }

    fn get_size() -> (n: usize) {
        8 + 32 + 32 + 32 + 32 + 3 + 2
    }
}

/// A vault record together with where it lives and the native balance held there.
#[derive(Clone, Copy, Debug, PartialEq, Eq)]
pub struct VaultAccount {
    /// Address of the account that stores the record.
    pub key: Pubkey,
    /// Native balance of that account.
    pub lamports: u64,
    /// The stored record.
    pub record: Vault,
}

} // verus!
