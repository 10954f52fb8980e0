//! The trade state machine: two parties swap the owners of two vaults, or neither does.
//!
//! Every operation runs to completion against the records it is handed. A refused
//! operation leaves them exactly as they were.

use crate::account::{TradeAccount, Vault, VaultAccount};
use crate::context::{AttachVault, CancelTrade, ConfirmTrade, CreateTrade, JoinTrade, LockTrade};
use crate::error::Errors;
use crate::key::Pubkey;
use vstd::prelude::*;

verus! {

impl TradeAccount {
    /// What holds of every trade record that the operations below produce: a trade
    /// without an acceptor has no acceptor-side vault and no acceptor-side lock.
    pub open spec fn wf(self) -> bool {
        self.acceptor_key is None ==> self.acceptor_vault_key is None && !self.acceptor_confirmed
    }
}

/// One of the two parties of a trade.
#[derive(Clone, Copy, Debug, PartialEq, Eq, Structural)]
pub enum Side {
    Creator,
    Acceptor,
}

/// What became of the trade record when a cancellation succeeded.
#[derive(Clone, Copy, Debug, PartialEq, Eq, Structural)]
pub enum CancelOutcome {
    /// The creator cancelled: the record is to be destroyed.
    Closed,
    /// The acceptor withdrew: the record is open for a new acceptor.
    Reopened,
}

/// The record of a trade that `creator` has just opened under the handle `trade_id`.
pub open spec fn new_trade(creator: Pubkey, trade_id: u64) -> TradeAccount {
    TradeAccount {
        trade_id,
        creator_key: creator,
        creator_vault_key: None,
        creator_confirmed: false,
        acceptor_key: None,
        acceptor_vault_key: None,
        acceptor_confirmed: false,
    }
}

/// The trade after `caller` joins it. Only a trade without an acceptor can be joined.
pub open spec fn joined(trade: TradeAccount, caller: Pubkey) -> Result<TradeAccount, Errors> {
    if trade.acceptor_key is None {
        Ok(TradeAccount { acceptor_key: Some(caller), ..trade })
    } else {
        Err(Errors::TradeFull)
    }
}

/// The side on which `caller` may attach a vault now: the creator's until the creator
/// has locked, else the acceptor's until the acceptor has locked.
pub open spec fn attaching_side(trade: TradeAccount, caller: Pubkey) -> Option<Side> {
    if trade.creator_key == caller && !trade.creator_confirmed {
        Some(Side::Creator)
    } else if trade.acceptor_key == Some(caller) && !trade.acceptor_confirmed {
        Some(Side::Acceptor)
    } else {
        None
    }
}

/// The trade after `caller` attaches the vault at `vault_key`, which `vault_owner` owns.
/// A caller who has no side to attach on is refused with `VaultAttachError`. A party may
/// attach only a vault of their own: for anybody else's the refusal is `Unauthorized`.
/// Otherwise the caller's side records the vault, and the other side's lock is released.
pub open spec fn attached(
    trade: TradeAccount,
    caller: Pubkey,
    vault_key: Pubkey,
    vault_owner: Pubkey,
) -> Result<TradeAccount, Errors> {
    match attaching_side(trade, caller) {
        None => Err(Errors::VaultAttachError),
        Some(side) => if vault_owner != caller {
            Err(Errors::Unauthorized)
        } else {
            match side {
                Side::Creator => Ok(
                    TradeAccount {
                        creator_vault_key: Some(vault_key),
                        acceptor_confirmed: false,
                        ..trade
                    },
                ),
                Side::Acceptor => Ok(
                    TradeAccount {
                        acceptor_vault_key: Some(vault_key),
                        creator_confirmed: false,
                        ..trade
                    },
                ),
            }
        },
    }
}

/// The side of the trade that `caller` is, the creator's taking precedence.
pub open spec fn side_of(trade: TradeAccount, caller: Pubkey) -> Option<Side> {
    if trade.creator_key == caller {
        Some(Side::Creator)
    } else if trade.acceptor_key == Some(caller) {
        Some(Side::Acceptor)
    } else {
        None
    }
}

/// The trade after `caller` locks their side.
pub open spec fn locked(trade: TradeAccount, caller: Pubkey) -> Result<TradeAccount, Errors> {
    match side_of(trade, caller) {
        Some(Side::Creator) => Ok(TradeAccount { creator_confirmed: true, ..trade }),
        Some(Side::Acceptor) => Ok(TradeAccount { acceptor_confirmed: true, ..trade }),
        None => Err(Errors::VaultLockError),
    }
}

/// The vault account with its record frozen or unfrozen.
pub open spec fn with_frozen(vault: VaultAccount, is_frozen: bool) -> VaultAccount {
    VaultAccount { record: Vault { is_frozen, ..vault.record }, ..vault }
}

/// The vault account with its record handed to `owner`.
pub open spec fn with_owner(vault: VaultAccount, owner: Pubkey) -> VaultAccount {
    VaultAccount { record: Vault { owner, ..vault.record }, ..vault }
}

/// Whether the trade can be confirmed by `caller` against the two supplied vaults: the
/// caller is a party, both sides are locked, and the vaults are the recorded ones.
pub open spec fn confirmable(
    trade: TradeAccount,
    caller: Pubkey,
    creator_vault_key: Pubkey,
    acceptor_vault_key: Pubkey,
) -> bool {
    &&& side_of(trade, caller) is Some
    &&& trade.creator_confirmed
    &&& trade.acceptor_confirmed
    &&& trade.creator_vault_key == Some(creator_vault_key)
    &&& trade.acceptor_vault_key == Some(acceptor_vault_key)
    &&& trade.acceptor_key is Some
}

/// The accounts after `confirm_trade`: the two vaults have swapped owners.
pub open spec fn confirmed(ctx: ConfirmTrade) -> Result<ConfirmTrade, Errors> {
    if confirmable(ctx.trade, ctx.payer, ctx.creator_vault.key, ctx.acceptor_vault.key) {
        Ok(
            ConfirmTrade {
                creator_vault: with_owner(ctx.creator_vault, ctx.trade.acceptor_key->0),
                acceptor_vault: with_owner(ctx.acceptor_vault, ctx.trade.creator_key),
                ..ctx
            },
        )
    } else {
        Err(Errors::ConfirmTradeError)
    }
}

/// Whether the supplied account is the vault recorded on one side of a trade.
pub open spec fn is_attached(recorded: Option<Pubkey>, supplied: Option<VaultAccount>) -> bool {
    &&& recorded matches Some(address)
    &&& supplied matches Some(vault)
    &&& vault.key == address
}

/// Whether one side of a trade can be released on cancellation: either no vault is
/// recorded on it, or the recorded vault was supplied and is still owned by `owner`.
pub open spec fn is_releasable(
    recorded: Option<Pubkey>,
    supplied: Option<VaultAccount>,
    owner: Option<Pubkey>,
) -> bool {
    recorded is Some ==> is_attached(recorded, supplied) && owner == Some(
        (supplied->0).record.owner,
    )
}

/// One side's vault account after the side is released: unfrozen where it is the
/// recorded vault, untouched where the side has no vault recorded.
pub open spec fn released(recorded: Option<Pubkey>, supplied: Option<VaultAccount>) -> Option<
    VaultAccount,
> {
    if is_attached(recorded, supplied) {
        Some(with_frozen(supplied->0, false))
    } else {
        supplied
    }
}

/// The trade after its acceptor withdraws: open again, the creator's side untouched.
pub open spec fn reopened(trade: TradeAccount) -> TradeAccount {
    TradeAccount {
        acceptor_key: None,
        acceptor_vault_key: None,
        acceptor_confirmed: false,
        ..trade
    }
}

/// The accounts after `cancel_trade`, and what became of the trade record.
///
/// The creator's cancellation releases both sides and closes the record. Each side's
/// recorded vault must be supplied and still be owned by the party that attached it: the
/// caller on the creator's side, the recorded acceptor on the other. The acceptor's
/// cancellation releases the acceptor's side, whose recorded vault must be supplied,
/// and reopens the trade. A side on which no vault is recorded has nothing to release
/// and never stands in the way. Anybody else is refused.
pub open spec fn cancelled(ctx: CancelTrade) -> Result<(CancelTrade, CancelOutcome), Errors> {
    match side_of(ctx.trade, ctx.payer) {
        Some(Side::Creator) => if is_releasable(
            ctx.trade.creator_vault_key,
            ctx.creator_vault,
            Some(ctx.payer),
        ) && is_releasable(ctx.trade.acceptor_vault_key, ctx.acceptor_vault, ctx.trade.acceptor_key) {
            Ok(
                (
                    CancelTrade {
                        creator_vault: released(ctx.trade.creator_vault_key, ctx.creator_vault),
                        acceptor_vault: released(ctx.trade.acceptor_vault_key, ctx.acceptor_vault),
                        ..ctx
                    },
                    CancelOutcome::Closed,
                ),
            )
        } else {
            Err(Errors::CancelTradeError)
        },
        Some(Side::Acceptor) => if ctx.trade.acceptor_vault_key is None || is_attached(
            ctx.trade.acceptor_vault_key,
            ctx.acceptor_vault,
        ) {
            Ok(
                (
                    CancelTrade {
                        trade: reopened(ctx.trade),
                        acceptor_vault: released(ctx.trade.acceptor_vault_key, ctx.acceptor_vault),
                        ..ctx
                    },
                    CancelOutcome::Reopened,
                ),
            )
        } else {
            Err(Errors::CancelTradeError)
        },
        None => Err(Errors::CancelTradeError),
    }
}

/// Opens a trade: fills the freshly allocated record with the caller as creator, no
/// acceptor, no vaults and no locks.
pub fn create_trade(ctx: &mut CreateTrade, trade_id: u64) -> (r: Result<(), Errors>)
    ensures
        r is Ok,
        final(ctx).trade == new_trade(old(ctx).payer, trade_id),
        final(ctx).payer == old(ctx).payer,
        final(ctx).trade.wf(),
{
    ctx.trade.trade_id = trade_id;
    ctx.trade.creator_key = ctx.payer;
    ctx.trade.creator_vault_key = None;
    ctx.trade.acceptor_key = None;
    ctx.trade.acceptor_vault_key = None;
    ctx.trade.creator_confirmed = false;
    ctx.trade.acceptor_confirmed = false;
    Ok(())
}

/// Joins the trade as its acceptor. A trade that has an acceptor is full.
pub fn join_trade(ctx: &mut JoinTrade) -> (r: Result<(), Errors>)
    ensures
        match joined(old(ctx).trade, old(ctx).payer) {
            Ok(trade) => r is Ok && *final(ctx) == (JoinTrade { trade, ..*old(ctx) }),
            Err(e) => r == Err::<(), Errors>(e) && *final(ctx) == *old(ctx),
        },
        old(ctx).trade.wf() ==> final(ctx).trade.wf(),
{
    match ctx.trade.acceptor_key {
        None => {
            ctx.trade.acceptor_key = Some(ctx.payer);
            Ok(())
        },
        Some(_) => Err(Errors::TradeFull),
    }
}

/// Attaches the supplied vault to the caller's side of the trade and freezes it. The
/// other side's lock is released, so that nobody stays locked against a vault that was
/// swapped afterwards. A party that has locked cannot attach (`VaultAttachError`), and
/// nobody can attach a vault that they do not own (`Unauthorized`).
pub fn attach_vault_to_trade(ctx: &mut AttachVault) -> (r: Result<(), Errors>)
    ensures
        match attached(
            old(ctx).trade,
            old(ctx).payer,
            old(ctx).vault.key,
            old(ctx).vault.record.owner,
        ) {
            Ok(trade) => r is Ok && *final(ctx) == (AttachVault {
                trade,
                vault: with_frozen(old(ctx).vault, true),
                ..*old(ctx)
            }),
            Err(e) => r == Err::<(), Errors>(e) && *final(ctx) == *old(ctx),
        },
        old(ctx).vault.record.owner != old(ctx).payer ==> r is Err,
        old(ctx).trade.wf() ==> final(ctx).trade.wf(),
{
    let as_creator = ctx.trade.creator_key == ctx.payer && !ctx.trade.creator_confirmed;
    let as_acceptor = ctx.trade.acceptor_key == Some(ctx.payer) && !ctx.trade.acceptor_confirmed;
    if !as_creator && !as_acceptor {
        return Err(Errors::VaultAttachError);
    }
    if ctx.vault.record.owner != ctx.payer {
        return Err(Errors::Unauthorized);
    }
    if as_creator {
        ctx.trade.creator_vault_key = Some(ctx.vault.key);
        ctx.trade.acceptor_confirmed = false;
    } else {
        ctx.trade.acceptor_vault_key = Some(ctx.vault.key);
        ctx.trade.creator_confirmed = false;
    }
    ctx.vault.record.is_frozen = true;
    Ok(())
}

/// Locks the caller's side of the trade.
pub fn lock_trade(ctx: &mut LockTrade) -> (r: Result<(), Errors>)
    ensures
        match locked(old(ctx).trade, old(ctx).payer) {
            Ok(trade) => r is Ok && *final(ctx) == (LockTrade { trade, ..*old(ctx) }),
            Err(e) => r == Err::<(), Errors>(e) && *final(ctx) == *old(ctx),
        },
        old(ctx).trade.wf() ==> final(ctx).trade.wf(),
{
    if ctx.trade.creator_key == ctx.payer {
        ctx.trade.creator_confirmed = true;
        Ok(())
    } else if ctx.trade.acceptor_key == Some(ctx.payer) {
        ctx.trade.acceptor_confirmed = true;
        Ok(())
    } else {
        Err(Errors::VaultLockError)
    }
}

/// Unfreezes the supplied vault where it is the one recorded on a side of the trade.
/// Refuses where a vault is recorded and the supplied account is not it, or where
/// `owner` is given and no longer owns it.
fn release(recorded: &Option<Pubkey>, supplied: &Option<VaultAccount>, owner: Option<Pubkey>) -> (r:
    Result<Option<VaultAccount>, Errors>)
    ensures
        r is Ok <==> (recorded is None || (is_attached(*recorded, *supplied) && (owner is Some
            ==> owner == Some((supplied->0).record.owner)))),
        r matches Ok(after) ==> after == released(*recorded, *supplied),
        r matches Err(e) ==> e == Errors::CancelTradeError,
{
    let address = match recorded {
        None => { return Ok(*supplied); },
        Some(address) => *address,
    };
    let mut vault = match supplied {
        None => { return Err(Errors::CancelTradeError); },
        Some(vault) => *vault,
    };
    if vault.key != address {
        return Err(Errors::CancelTradeError);
    }
    match owner {
        Some(expected) => {
            if vault.record.owner != expected {
                return Err(Errors::CancelTradeError);
            }
        },
        None => {},
    }
    vault.record.is_frozen = false;
    Ok(Some(vault))
}

/// Cancels the trade on behalf of the caller. The creator's cancellation tells the
/// caller to destroy the record; the acceptor's leaves the trade open for another.
pub fn cancel_trade(ctx: &mut CancelTrade) -> (r: Result<CancelOutcome, Errors>)
    ensures
        match cancelled(*old(ctx)) {
            Ok((after, outcome)) => r == Ok::<CancelOutcome, Errors>(outcome) && *final(ctx)
                == after,
            Err(e) => r == Err::<CancelOutcome, Errors>(e) && *final(ctx) == *old(ctx),
        },
        old(ctx).trade.wf() ==> final(ctx).trade.wf(),
{
    if ctx.trade.creator_key == ctx.payer {
        let acceptor = match ctx.trade.acceptor_key {
            Some(k) => k,
            None => {
                if ctx.trade.acceptor_vault_key.is_some() {
                    return Err(Errors::CancelTradeError);
                }
                ctx.payer
            },
        };
        let creator_vault = match release(
            &ctx.trade.creator_vault_key,
            &ctx.creator_vault,
            Some(ctx.payer),
        ) {
            Ok(after) => after,
            Err(e) => { return Err(e); },
        };
        let acceptor_vault = match release(
            &ctx.trade.acceptor_vault_key,
            &ctx.acceptor_vault,
            Some(acceptor),
        ) {
            Ok(after) => after,
            Err(e) => { return Err(e); },
        };
        ctx.creator_vault = creator_vault;
        ctx.acceptor_vault = acceptor_vault;
        Ok(CancelOutcome::Closed)
    } else if ctx.trade.acceptor_key == Some(ctx.payer) {
        let acceptor_vault = match release(&ctx.trade.acceptor_vault_key, &ctx.acceptor_vault, None) {
            Ok(after) => after,
            Err(e) => { return Err(e); },
        };
        ctx.acceptor_vault = acceptor_vault;
        ctx.trade.acceptor_key = None;
        ctx.trade.acceptor_vault_key = None;
        ctx.trade.acceptor_confirmed = false;
        Ok(CancelOutcome::Reopened)
    } else {
        Err(Errors::CancelTradeError)
    }
}

/// Confirms the trade: the creator-side vault passes to the acceptor and the
/// acceptor-side vault to the creator, both at once. The vaults stay frozen.
pub fn confirm_trade(ctx: &mut ConfirmTrade) -> (r: Result<(), Errors>)
    ensures
        match confirmed(*old(ctx)) {
            Ok(after) => r is Ok && *final(ctx) == after,
            Err(e) => r == Err::<(), Errors>(e) && *final(ctx) == *old(ctx),
        },
{
    let acceptor = match ctx.trade.acceptor_key {
        Some(k) => k,
        None => { return Err(Errors::ConfirmTradeError); },
    };
    if (ctx.trade.creator_key != ctx.payer && acceptor != ctx.payer) || !ctx.trade.creator_confirmed
        || !ctx.trade.acceptor_confirmed || ctx.trade.creator_vault_key != Some(
        ctx.creator_vault.key,
    ) || ctx.trade.acceptor_vault_key != Some(ctx.acceptor_vault.key) {
        return Err(Errors::ConfirmTradeError);
    }
    ctx.creator_vault.record.owner = acceptor;
    ctx.acceptor_vault.record.owner = ctx.trade.creator_key;
    Ok(())
}

/// The trade as a call of `join_trade` by `caller` leaves it, whether it succeeds or not.
pub open spec fn after_join(trade: TradeAccount, caller: Pubkey) -> TradeAccount {
    match joined(trade, caller) {
        Ok(after) => after,
        Err(_) => trade,
    }
}

/// Whoever calls `join_trade` first, a second call on the same trade is refused as
/// `TradeFull` and leaves the acceptor as the first call left it.
pub proof fn lemma_second_join_is_refused(trade: TradeAccount, first: Pubkey, second: Pubkey)
    ensures
        joined(after_join(trade, first), second) == Err::<TradeAccount, Errors>(Errors::TradeFull),
        after_join(after_join(trade, first), second).acceptor_key == after_join(
            trade,
            first,
        ).acceptor_key,
{
}

/// Only the owner of a vault can attach it: whoever the caller and whatever the trade,
/// attaching a vault that somebody else owns is refused.
pub proof fn lemma_attach_requires_ownership(
    trade: TradeAccount,
    caller: Pubkey,
    vault_key: Pubkey,
    vault_owner: Pubkey,
)
    requires
        vault_owner != caller,
    ensures
        attached(trade, caller, vault_key, vault_owner) is Err,
{
}

/// When the acceptor attaches a vault while the creator is locked, the creator's lock
/// is released.
pub proof fn lemma_acceptor_attach_releases_creator(
    trade: TradeAccount,
    acceptor: Pubkey,
    vault_key: Pubkey,
    vault_owner: Pubkey,
)
    requires
        trade.acceptor_key == Some(acceptor),
        trade.creator_confirmed,
        attached(trade, acceptor, vault_key, vault_owner) is Ok,
    ensures
        !(attached(trade, acceptor, vault_key, vault_owner)->Ok_0).creator_confirmed,
        (attached(trade, acceptor, vault_key, vault_owner)->Ok_0).acceptor_vault_key == Some(
            vault_key,
        ),
{
}

/// Right after either party attaches a vault, nobody can confirm the trade against any
/// pair of vaults: the other party has to lock again first.
pub proof fn lemma_attach_blocks_confirmation(
    trade: TradeAccount,
    caller: Pubkey,
    vault_key: Pubkey,
    vault_owner: Pubkey,
    confirmer: Pubkey,
    creator_vault_key: Pubkey,
    acceptor_vault_key: Pubkey,
)
    requires
        attached(trade, caller, vault_key, vault_owner) is Ok,
    ensures
        !confirmable(
            attached(trade, caller, vault_key, vault_owner)->Ok_0,
            confirmer,
            creator_vault_key,
            acceptor_vault_key,
        ),
{
}

/// A trade is confirmed only when both sides are locked and both supplied vaults are the
/// recorded ones. The confirmation hands the creator-side vault to the acceptor and
/// the acceptor-side vault to the creator and changes nothing else.
pub proof fn lemma_confirmation_swaps_owners(ctx: ConfirmTrade)
    requires
        confirmed(ctx) is Ok,
    ensures
        ctx.trade.creator_confirmed && ctx.trade.acceptor_confirmed,
        ctx.trade.creator_vault_key == Some(ctx.creator_vault.key),
        ctx.trade.acceptor_vault_key == Some(ctx.acceptor_vault.key),
        ctx.trade.acceptor_key == Some((confirmed(ctx)->Ok_0).creator_vault.record.owner),
        (confirmed(ctx)->Ok_0).acceptor_vault.record.owner == ctx.trade.creator_key,
        (confirmed(ctx)->Ok_0).trade == ctx.trade,
        (confirmed(ctx)->Ok_0).creator_vault.record.is_frozen
            == ctx.creator_vault.record.is_frozen,
        (confirmed(ctx)->Ok_0).acceptor_vault.record.is_frozen
            == ctx.acceptor_vault.record.is_frozen,
{
}

/// When the acceptor cancels, the creator's side of the trade is untouched, the
/// acceptor's recorded vault is unfrozen and the trade can be joined again.
pub proof fn lemma_acceptor_cancel_reopens(ctx: CancelTrade)
    requires
        cancelled(ctx) matches Ok((_, outcome)) && outcome == CancelOutcome::Reopened,
    ensures
        ({
            let after = (cancelled(ctx)->Ok_0).0;
            &&& after.trade.creator_key == ctx.trade.creator_key
            &&& after.trade.creator_vault_key == ctx.trade.creator_vault_key
            &&& after.trade.creator_confirmed == ctx.trade.creator_confirmed
            &&& after.creator_vault == ctx.creator_vault
            &&& after.trade.acceptor_key is None
            &&& after.trade.acceptor_vault_key is None
            &&& !after.trade.acceptor_confirmed
            &&& ctx.trade.acceptor_vault_key is Some ==> {
                &&& after.acceptor_vault == Some(with_frozen(ctx.acceptor_vault->0, false))
                &&& Some((ctx.acceptor_vault->0).key) == ctx.trade.acceptor_vault_key
            }
            &&& forall|next: Pubkey| joined(after.trade, next) is Ok
        }),
{
}

/// Cancellation unfreezes no vault but one that is recorded on the trade, and the
/// creator's cancellation unfreezes every vault that is.
pub proof fn lemma_cancel_releases_recorded_vaults(ctx: CancelTrade)
    requires
        cancelled(ctx) is Ok,
    ensures
        ({
            let after = (cancelled(ctx)->Ok_0).0;
            let outcome = (cancelled(ctx)->Ok_0).1;
            &&& after.creator_vault != ctx.creator_vault ==> is_attached(
                ctx.trade.creator_vault_key,
                ctx.creator_vault,
            )
            &&& after.acceptor_vault != ctx.acceptor_vault ==> is_attached(
                ctx.trade.acceptor_vault_key,
                ctx.acceptor_vault,
            )
            &&& outcome == CancelOutcome::Closed && ctx.trade.creator_vault_key is Some ==> {
                &&& after.creator_vault is Some
                &&& !(after.creator_vault->0).record.is_frozen
            }
            &&& ctx.trade.acceptor_vault_key is Some ==> {
                &&& after.acceptor_vault is Some
                &&& !(after.acceptor_vault->0).record.is_frozen
            }
        }),
{
}

} // verus!
