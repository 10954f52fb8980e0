//! The accounts that each operation is handed, as plain values.
//!
//! The ledger runtime loads the accounts an operation names and verifies the caller's
//! signature before any logic runs. `payer` is that verified caller.

use crate::account::{TradeAccount, VaultAccount};
use crate::key::Pubkey;
use vstd::prelude::*;

verus! {

/// Accounts of `create_vault`.
#[derive(Clone, Copy, Debug, PartialEq, Eq)]
pub struct CreateVault {
    pub payer: Pubkey,
    /// The freshly allocated vault account.
    pub vault: VaultAccount,
}

/// Accounts of `withdraw_nft`.
#[derive(Clone, Copy, Debug, PartialEq, Eq)]
pub struct WithdrawNFT {
    pub payer: Pubkey,
    pub vault: VaultAccount,
    /// Bump byte of the vault's address.
    pub vault_bump: u8,
    /// The vault's holding account for the asset.
    pub vault_ata: Pubkey,
    /// The destination holding account.
    pub receiver_ata: Pubkey,
}

/// A metadata account as loaded from the ledger.
#[derive(Clone, Debug, PartialEq, Eq)]
pub struct MetadataAccount {
    pub key: Pubkey,
    /// The program that owns the account.
    pub owner: Pubkey,
    /// The stored bytes.
    pub data: Vec<u8>,
}

/// Accounts of `withdraw_pnft`.
#[derive(Clone, Debug, PartialEq, Eq)]
pub struct WithdrawPNFT {
    pub payer: Pubkey,
    pub system_program: Pubkey,
    pub vault: VaultAccount,
    /// Bump byte of the vault's address.
    pub vault_bump: u8,
    pub vault_ata: Pubkey,
    pub receiver_ata: Pubkey,
    /// Owner of the destination holding account.
    pub receiver: Pubkey,
    pub nft_mint: Pubkey,
    pub metadata: MetadataAccount,
    pub edition: Pubkey,
    pub owner_token_record: Pubkey,
    pub receiver_token_record: Pubkey,
    pub auth_rules_program: Pubkey,
    pub sysvar_instructions: Pubkey,
    pub token_program: Pubkey,
    pub associated_token_program: Pubkey,
    /// The policy account, where the caller supplied one.
    pub auth_rules: Option<Pubkey>,
}

/// Accounts of `withdraw_cnft`.
#[derive(Clone, Debug, PartialEq, Eq)]
pub struct WithdrawCNFT {
    pub payer: Pubkey,
    pub system_program: Pubkey,
    pub vault: VaultAccount,
    /// Bump byte of the vault's address.
    pub vault_bump: u8,
    pub tree_authority: Pubkey,
    pub new_leaf_owner: Pubkey,
    pub merkle_tree: Pubkey,
    pub log_wrapper: Pubkey,
    pub compression_program: Pubkey,
    /// The contract that owns the tree and executes the transfer.
    pub bubblegum_program: Pubkey,
    /// Proof-path accounts, in the order the caller gave them.
    pub remaining_accounts: Vec<Pubkey>,
}

/// Accounts of `withdraw_spl`.
#[derive(Clone, Copy, Debug, PartialEq, Eq)]
pub struct WithdrawSPL {
    pub payer: Pubkey,
    pub vault: VaultAccount,
    /// Bump byte of the vault's address.
    pub vault_bump: u8,
    pub vault_ata: Pubkey,
    pub receiver_ata: Pubkey,
}

/// Accounts of `withdraw_sol`.
#[derive(Clone, Copy, Debug, PartialEq, Eq)]
pub struct WithdrawSOL {
    pub payer: Pubkey,
    pub system_program: Pubkey,
    pub vault: VaultAccount,
    /// Bump byte of the vault's address.
    pub vault_bump: u8,
    pub receiver: Pubkey,
    /// The ledger's minimum balance for an account of the vault record's size.
    pub rent_exempt_reserve: u64,
}

/// Accounts of `create_trade`.
#[derive(Clone, Copy, Debug, PartialEq, Eq)]
pub struct CreateTrade {
    pub payer: Pubkey,
    /// The freshly allocated trade record.
    pub trade: TradeAccount,
}

/// Accounts of `join_trade`.
#[derive(Clone, Copy, Debug, PartialEq, Eq)]
pub struct JoinTrade {
    pub payer: Pubkey,
    pub trade: TradeAccount,
}

/// Accounts of `attach_vault_to_trade`.
#[derive(Clone, Copy, Debug, PartialEq, Eq)]
pub struct AttachVault {
    pub payer: Pubkey,
    pub vault: VaultAccount,
    pub trade: TradeAccount,
}

/// Accounts of `lock_trade`.
#[derive(Clone, Copy, Debug, PartialEq, Eq)]
pub struct LockTrade {
    pub payer: Pubkey,
    pub trade: TradeAccount,
}

/// Accounts of `cancel_trade`. Either vault may be left out.
#[derive(Clone, Copy, Debug, PartialEq, Eq)]
pub struct CancelTrade {
    pub payer: Pubkey,
    pub trade: TradeAccount,
    pub creator_vault: Option<VaultAccount>,
    pub acceptor_vault: Option<VaultAccount>,
}

/// Accounts of `confirm_trade`.
#[derive(Clone, Copy, Debug, PartialEq, Eq)]
pub struct ConfirmTrade {
    pub payer: Pubkey,
    pub trade: TradeAccount,
    pub creator_vault: VaultAccount,
    pub acceptor_vault: VaultAccount,
}

} // verus!
