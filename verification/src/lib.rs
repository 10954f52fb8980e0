//! Custody vaults and two-party vault swaps for an account-based ledger.
//!
//! A vault is a custody record at an address derived from its creator and a numeric
//! handle. Its owner withdraws assets through one of five adapters, each of which yields
//! one outbound invocation signed by the vault's seeds. A trade lets two owners swap
//! their vaults: either both vaults change owner, or neither does.

pub mod account;
pub mod context;
pub mod encoding;
pub mod error;
pub mod guard;
pub mod instruction;
pub mod key;
pub mod metadata;
pub mod pda;
pub mod pnft;
pub mod trade;
pub mod vault;
pub mod withdraw;

pub use crate::account::{GetSize, TradeAccount, Vault};
pub use crate::context::{
    AttachVault, CancelTrade, ConfirmTrade, CreateTrade, CreateVault, JoinTrade, LockTrade,
    WithdrawCNFT, WithdrawNFT, WithdrawPNFT, WithdrawSOL, WithdrawSPL,
};
pub use crate::error::Errors;
pub use crate::metadata::assert_decode_metadata;
pub use crate::pnft::withdraw_pnft;
pub use crate::trade::{
    attach_vault_to_trade, cancel_trade, confirm_trade, create_trade, join_trade, lock_trade,
};
pub use crate::vault::create_vault;
pub use crate::withdraw::{withdraw_cnft, withdraw_nft, withdraw_sol, withdraw_spl};
