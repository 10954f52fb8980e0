use caravan::account::{TradeAccount, Vault, VaultAccount};
use caravan::context::{
    AttachVault, CancelTrade, ConfirmTrade, CreateTrade, CreateVault, JoinTrade, LockTrade,
};
use caravan::error::Errors;
use caravan::key::Pubkey;
use caravan::trade::{
    attach_vault_to_trade, cancel_trade, confirm_trade, create_trade, join_trade, lock_trade,
    CancelOutcome,
};
use caravan::guard::authorize_withdrawal;
use caravan::pda::find_vault_address;
use caravan::vault::{create_vault, init_vault};

fn key(fill: u8) -> Pubkey {
    Pubkey::new_from_array([fill; 32])
}

const CREATOR: u8 = 1;
const ACCEPTOR: u8 = 2;
const STRANGER: u8 = 3;

fn new_vault(owner: u8, address: u8, id: u64) -> VaultAccount {
    VaultAccount {
        key: key(address),
        lamports: 1_000,
        record: Vault { creator: key(owner), vault_id: id, owner: key(owner), is_frozen: false },
    }
}

fn blank_trade() -> TradeAccount {
    TradeAccount {
        trade_id: 99,
        creator_key: key(200),
        creator_vault_key: Some(key(201)),
        creator_confirmed: true,
        acceptor_key: Some(key(202)),
        acceptor_vault_key: Some(key(203)),
        acceptor_confirmed: true,
    }
}

fn open_trade(id: u64) -> TradeAccount {
    let mut ctx = CreateTrade { payer: key(CREATOR), trade: blank_trade() };
    create_trade(&mut ctx, id).unwrap();
    ctx.trade
}

fn join(trade: TradeAccount, who: u8) -> (Result<(), Errors>, TradeAccount) {
    let mut ctx = JoinTrade { payer: key(who), trade };
    let r = join_trade(&mut ctx);
    (r, ctx.trade)
}

fn attach(
    trade: TradeAccount,
    who: u8,
    vault: VaultAccount,
) -> (Result<(), Errors>, TradeAccount, VaultAccount) {
    let mut ctx = AttachVault { payer: key(who), vault, trade };
    let r = attach_vault_to_trade(&mut ctx);
    (r, ctx.trade, ctx.vault)
}

fn lock(trade: TradeAccount, who: u8) -> (Result<(), Errors>, TradeAccount) {
    let mut ctx = LockTrade { payer: key(who), trade };
    let r = lock_trade(&mut ctx);
    (r, ctx.trade)
}

/// Creator opens trade 1, acceptor joins, both attach.
fn both_attached() -> (TradeAccount, VaultAccount, VaultAccount) {
    let trade = open_trade(1);
    let (_, trade) = join(trade, ACCEPTOR);
    let (r1, trade, v1) = attach(trade, CREATOR, new_vault(CREATOR, 11, 1));
    let (r2, trade, v2) = attach(trade, ACCEPTOR, new_vault(ACCEPTOR, 12, 1));
    assert_eq!((r1, r2), (Ok(()), Ok(())));
    (trade, v1, v2)
}

#[test]
fn a_new_vault_belongs_to_its_creator_and_is_not_frozen() {
    let (address, bump) = find_vault_address(&key(CREATOR), 5).unwrap();
    let stale = Vault { creator: key(0), vault_id: 0, owner: key(0), is_frozen: true };
    let mut ctx = CreateVault {
        payer: key(CREATOR),
        vault: VaultAccount { key: address, lamports: 1_000, record: stale },
    };
    assert_eq!(create_vault(&mut ctx, 5), Ok(()));
    assert_eq!(
        ctx.vault,
        VaultAccount {
            key: address,
            lamports: 1_000,
            record: Vault { creator: key(CREATOR), vault_id: 5, owner: key(CREATOR), is_frozen: false },
        }
    );
    assert_eq!(ctx.payer, key(CREATOR));
    let proof = authorize_withdrawal(&key(CREATOR), &ctx.vault, 5, bump).unwrap();
    assert_eq!(proof.address, address);
}

#[test]
fn a_vault_at_another_address_is_not_created() {
    let (address, _) = find_vault_address(&key(CREATOR), 5).unwrap();
    let stale = Vault { creator: key(0), vault_id: 0, owner: key(0), is_frozen: true };
    let mut ctx = CreateVault {
        payer: key(CREATOR),
        vault: VaultAccount { key: address, lamports: 1_000, record: stale },
    };
    let before = ctx;
    assert_eq!(create_vault(&mut ctx, 6), Err(Errors::InvalidSigningProof));
    assert_eq!(ctx, before);
    ctx.payer = key(ACCEPTOR);
    let before = ctx;
    assert_eq!(create_vault(&mut ctx, 5), Err(Errors::InvalidSigningProof));
    assert_eq!(ctx, before);
    ctx.payer = key(CREATOR);
    ctx.vault.key = key(77);
    assert_eq!(create_vault(&mut ctx, 5), Err(Errors::InvalidSigningProof));
}

#[test]
fn a_vault_is_initialised_only_at_the_found_address() {
    let stale = Vault { creator: key(0), vault_id: 9, owner: key(0), is_frozen: true };
    let mut ctx = CreateVault {
        payer: key(CREATOR),
        vault: VaultAccount { key: key(40), lamports: 3, record: stale },
    };
    assert_eq!(init_vault(&mut ctx, 5, Some((key(41), 250))), Err(Errors::InvalidSigningProof));
    assert_eq!(ctx.vault.record, stale);
    assert_eq!(init_vault(&mut ctx, 5, None), Err(Errors::InvalidSigningProof));
    assert_eq!(ctx.vault.record, stale);
    assert_eq!(init_vault(&mut ctx, 5, Some((key(40), 250))), Ok(()));
    assert_eq!(
        ctx.vault.record,
        Vault { creator: key(CREATOR), vault_id: 5, owner: key(CREATOR), is_frozen: false }
    );
    assert_eq!(ctx.vault.key, key(40));
    assert_eq!(ctx.vault.lamports, 3);
}

#[test]
fn a_new_trade_has_nothing_set() {
    assert_eq!(
        open_trade(1),
        TradeAccount {
            trade_id: 1,
            creator_key: key(CREATOR),
            creator_vault_key: None,
            creator_confirmed: false,
            acceptor_key: None,
            acceptor_vault_key: None,
            acceptor_confirmed: false,
        }
    );
}

#[test]
fn the_first_to_join_becomes_the_acceptor() {
    let (r, trade) = join(open_trade(1), ACCEPTOR);
    assert_eq!(r, Ok(()));
    assert_eq!(trade.acceptor_key, Some(key(ACCEPTOR)));
    assert_eq!(TradeAccount { acceptor_key: None, ..trade }, open_trade(1));
}

#[test]
fn a_second_join_fails_with_trade_full() {
    let (_, trade) = join(open_trade(1), ACCEPTOR);
    let (r, after) = join(trade, STRANGER);
    assert_eq!(r, Err(Errors::TradeFull));
    assert_eq!(after, trade);
    assert_eq!(after.acceptor_key, Some(key(ACCEPTOR)));
    let (r, after) = join(trade, ACCEPTOR);
    assert_eq!(r, Err(Errors::TradeFull));
    assert_eq!(after, trade);
}

#[test]
fn attaching_records_and_freezes_the_vault() {
    let (trade, v1, v2) = both_attached();
    assert_eq!(trade.creator_vault_key, Some(key(11)));
    assert_eq!(trade.acceptor_vault_key, Some(key(12)));
    assert!(v1.record.is_frozen);
    assert!(v2.record.is_frozen);
    assert_eq!(v1.record.owner, key(CREATOR));
    assert_eq!(v2.record.owner, key(ACCEPTOR));
    assert!(!trade.creator_confirmed);
    assert!(!trade.acceptor_confirmed);
}

#[test]
fn a_stranger_cannot_attach() {
    let (_, trade) = join(open_trade(1), ACCEPTOR);
    let vault = new_vault(STRANGER, 13, 1);
    let (r, after, untouched) = attach(trade, STRANGER, vault);
    assert_eq!(r, Err(Errors::VaultAttachError));
    assert_eq!(after, trade);
    assert_eq!(untouched, vault);
    assert!(!untouched.record.is_frozen);
}

#[test]
fn nobody_can_attach_a_vault_they_do_not_own() {
    let (_, trade) = join(open_trade(1), ACCEPTOR);
    let victims = new_vault(STRANGER, 13, 1);
    let (r, after, untouched) = attach(trade, CREATOR, victims);
    assert_eq!(r, Err(Errors::Unauthorized));
    assert_eq!(after, trade);
    assert_eq!(untouched, victims);
    assert!(!untouched.record.is_frozen);
    assert_eq!(after.creator_vault_key, None);

    let (r, after, untouched) = attach(trade, ACCEPTOR, victims);
    assert_eq!(r, Err(Errors::Unauthorized));
    assert_eq!(after, trade);
    assert_eq!(untouched, victims);

    let (r, after, untouched) = attach(trade, ACCEPTOR, new_vault(CREATOR, 14, 1));
    assert_eq!(r, Err(Errors::Unauthorized));
    assert_eq!(after, trade);
    assert!(!untouched.record.is_frozen);
}

#[test]
fn a_vault_of_a_third_party_cannot_be_traded_away() {
    let (_, trade) = join(open_trade(1), ACCEPTOR);
    let victims = new_vault(STRANGER, 13, 1);
    let (r, trade, victims) = attach(trade, CREATOR, victims);
    assert_eq!(r, Err(Errors::Unauthorized));
    let (r, trade, own) = attach(trade, ACCEPTOR, new_vault(ACCEPTOR, 12, 1));
    assert_eq!(r, Ok(()));
    let (_, trade) = lock(trade, CREATOR);
    let (_, trade) = lock(trade, ACCEPTOR);
    let mut ctx =
        ConfirmTrade { payer: key(CREATOR), trade, creator_vault: victims, acceptor_vault: own };
    assert_eq!(confirm_trade(&mut ctx), Err(Errors::ConfirmTradeError));
    assert_eq!(ctx.creator_vault.record.owner, key(STRANGER));
    assert!(!ctx.creator_vault.record.is_frozen);
}

#[test]
fn a_stranger_with_somebody_elses_vault_has_no_side_to_attach_on() {
    let (_, trade) = join(open_trade(1), ACCEPTOR);
    let (r, after, _) = attach(trade, STRANGER, new_vault(CREATOR, 13, 1));
    assert_eq!(r, Err(Errors::VaultAttachError));
    assert_eq!(after, trade);
}

#[test]
fn a_locked_party_cannot_re_attach() {
    let (trade, _, _) = both_attached();
    let (_, trade) = lock(trade, CREATOR);
    let other = new_vault(CREATOR, 14, 2);
    let (r, after, untouched) = attach(trade, CREATOR, other);
    assert_eq!(r, Err(Errors::VaultAttachError));
    assert_eq!(after, trade);
    assert_eq!(untouched, other);

    let (_, trade) = lock(trade, ACCEPTOR);
    let (r, after, _) = attach(trade, ACCEPTOR, new_vault(ACCEPTOR, 15, 2));
    assert_eq!(r, Err(Errors::VaultAttachError));
    assert_eq!(after, trade);
}

#[test]
fn an_unlocked_party_may_re_attach_any_number_of_times() {
    let (trade, _, _) = both_attached();
    let (r, trade, v) = attach(trade, CREATOR, new_vault(CREATOR, 16, 2));
    assert_eq!(r, Ok(()));
    assert_eq!(trade.creator_vault_key, Some(key(16)));
    assert!(v.record.is_frozen);
    let (r, trade, _) = attach(trade, CREATOR, new_vault(CREATOR, 17, 3));
    assert_eq!(r, Ok(()));
    assert_eq!(trade.creator_vault_key, Some(key(17)));
    assert_eq!(trade.acceptor_vault_key, Some(key(12)));
}

#[test]
fn acceptor_attach_resets_the_creators_lock() {
    let (trade, _, _) = both_attached();
    let (_, trade) = lock(trade, CREATOR);
    assert!(trade.creator_confirmed);
    let (r, trade, _) = attach(trade, ACCEPTOR, new_vault(ACCEPTOR, 18, 2));
    assert_eq!(r, Ok(()));
    assert!(!trade.creator_confirmed);
    assert_eq!(trade.acceptor_vault_key, Some(key(18)));
}

#[test]
fn creator_attach_resets_the_acceptors_lock() {
    let (trade, _, _) = both_attached();
    let (_, trade) = lock(trade, ACCEPTOR);
    assert!(trade.acceptor_confirmed);
    let (r, trade, _) = attach(trade, CREATOR, new_vault(CREATOR, 19, 2));
    assert_eq!(r, Ok(()));
    assert!(!trade.acceptor_confirmed);
}

#[test]
fn only_the_parties_can_lock() {
    let (trade, _, _) = both_attached();
    let (r, after) = lock(trade, STRANGER);
    assert_eq!(r, Err(Errors::VaultLockError));
    assert_eq!(after, trade);
    let (r, after) = lock(trade, CREATOR);
    assert_eq!(r, Ok(()));
    assert_eq!(after, TradeAccount { creator_confirmed: true, ..trade });
    let (r, after) = lock(after, ACCEPTOR);
    assert_eq!(r, Ok(()));
    assert!(after.creator_confirmed && after.acceptor_confirmed);
}

#[test]
fn nobody_but_the_creator_can_lock_an_open_trade() {
    let trade = open_trade(1);
    assert_eq!(lock(trade, ACCEPTOR).0, Err(Errors::VaultLockError));
    assert_eq!(lock(trade, CREATOR).0, Ok(()));
}

#[test]
fn confirmation_swaps_the_owners() {
    let (trade, v1, v2) = both_attached();
    let (_, trade) = lock(trade, CREATOR);
    let (_, trade) = lock(trade, ACCEPTOR);
    let mut ctx =
        ConfirmTrade { payer: key(ACCEPTOR), trade, creator_vault: v1, acceptor_vault: v2 };
    assert_eq!(confirm_trade(&mut ctx), Ok(()));
    assert_eq!(ctx.creator_vault.record.owner, key(ACCEPTOR));
    assert_eq!(ctx.acceptor_vault.record.owner, key(CREATOR));
    assert_eq!(ctx.creator_vault.record.creator, key(CREATOR));
    assert_eq!(ctx.acceptor_vault.record.creator, key(ACCEPTOR));
    assert!(ctx.creator_vault.record.is_frozen);
    assert!(ctx.acceptor_vault.record.is_frozen);
    assert_eq!(ctx.trade, trade);
    assert_eq!(ctx.creator_vault.key, key(11));
    assert_eq!(ctx.acceptor_vault.key, key(12));
}

#[test]
fn confirmation_after_a_late_swap_fails() {
    let (trade, v1, _) = both_attached();
    let (_, trade) = lock(trade, CREATOR);
    let (r, trade, v3) = attach(trade, ACCEPTOR, new_vault(ACCEPTOR, 13, 3));
    assert_eq!(r, Ok(()));
    assert!(!trade.creator_confirmed);
    let (_, trade) = lock(trade, ACCEPTOR);
    let mut ctx =
        ConfirmTrade { payer: key(ACCEPTOR), trade, creator_vault: v1, acceptor_vault: v3 };
    let before = ctx;
    assert_eq!(confirm_trade(&mut ctx), Err(Errors::ConfirmTradeError));
    assert_eq!(ctx, before);
    assert_eq!(ctx.creator_vault.record.owner, key(CREATOR));
}

#[test]
fn confirmation_needs_both_locks_the_recorded_vaults_and_a_party() {
    let (open, v1, v2) = both_attached();
    let (_, half) = lock(open, CREATOR);
    let (_, full) = lock(half, ACCEPTOR);
    let refused = |payer: u8, trade: TradeAccount, a: VaultAccount, b: VaultAccount| {
        let mut ctx = ConfirmTrade { payer: key(payer), trade, creator_vault: a, acceptor_vault: b };
        let before = ctx;
        let r = confirm_trade(&mut ctx);
        assert_eq!(ctx, before);
        r
    };
    assert_eq!(refused(CREATOR, open, v1, v2), Err(Errors::ConfirmTradeError));
    assert_eq!(refused(CREATOR, half, v1, v2), Err(Errors::ConfirmTradeError));
    assert_eq!(refused(STRANGER, full, v1, v2), Err(Errors::ConfirmTradeError));
    assert_eq!(refused(CREATOR, full, v2, v1), Err(Errors::ConfirmTradeError));
    assert_eq!(
        refused(CREATOR, full, v1, new_vault(ACCEPTOR, 30, 9)),
        Err(Errors::ConfirmTradeError)
    );
    assert_eq!(
        refused(CREATOR, full, new_vault(CREATOR, 31, 9), v2),
        Err(Errors::ConfirmTradeError)
    );
    let mut ctx = ConfirmTrade { payer: key(CREATOR), trade: full, creator_vault: v1, acceptor_vault: v2 };
    assert_eq!(confirm_trade(&mut ctx), Ok(()));
}

#[test]
fn confirmation_without_an_acceptor_is_refused() {
    let (trade, v1, v2) = both_attached();
    let (_, trade) = lock(trade, CREATOR);
    let (_, trade) = lock(trade, ACCEPTOR);
    let orphaned = TradeAccount { acceptor_key: None, ..trade };
    let mut ctx =
        ConfirmTrade { payer: key(CREATOR), trade: orphaned, creator_vault: v1, acceptor_vault: v2 };
    assert_eq!(confirm_trade(&mut ctx), Err(Errors::ConfirmTradeError));
    assert_eq!(ctx.creator_vault, v1);
}

#[test]
fn acceptor_cancel_resets_only_the_acceptors_side() {
    let (trade, v1, v2) = both_attached();
    let (_, trade) = lock(trade, CREATOR);
    let (_, trade) = lock(trade, ACCEPTOR);
    let mut ctx = CancelTrade {
        payer: key(ACCEPTOR),
        trade,
        creator_vault: Some(v1),
        acceptor_vault: Some(v2),
    };
    assert_eq!(cancel_trade(&mut ctx), Ok(CancelOutcome::Reopened));
    assert_eq!(ctx.trade.acceptor_key, None);
    assert_eq!(ctx.trade.acceptor_vault_key, None);
    assert!(!ctx.trade.acceptor_confirmed);
    assert_eq!(ctx.trade.creator_key, key(CREATOR));
    assert_eq!(ctx.trade.creator_vault_key, Some(key(11)));
    assert!(ctx.trade.creator_confirmed);
    assert_eq!(ctx.trade.trade_id, 1);
    assert_eq!(ctx.creator_vault, Some(v1));
    assert!(v1.record.is_frozen);
    let unfrozen = ctx.acceptor_vault.unwrap();
    assert!(!unfrozen.record.is_frozen);
    assert_eq!(unfrozen.record.owner, key(ACCEPTOR));
    assert_eq!(unfrozen.key, key(12));

    let (r, rejoined) = join(ctx.trade, STRANGER);
    assert_eq!(r, Ok(()));
    assert_eq!(rejoined.acceptor_key, Some(key(STRANGER)));
}

#[test]
fn an_acceptor_who_attached_nothing_just_leaves() {
    let (_, trade) = join(open_trade(1), ACCEPTOR);
    let bystander = new_vault(ACCEPTOR, 50, 3);
    let mut frozen = bystander;
    frozen.record.is_frozen = true;
    let mut ctx = CancelTrade {
        payer: key(ACCEPTOR),
        trade,
        creator_vault: None,
        acceptor_vault: Some(frozen),
    };
    assert_eq!(cancel_trade(&mut ctx), Ok(CancelOutcome::Reopened));
    assert_eq!(ctx.trade, open_trade(1));
    assert_eq!(ctx.acceptor_vault, Some(frozen));
    assert_eq!(ctx.creator_vault, None);

    let mut ctx =
        CancelTrade { payer: key(ACCEPTOR), trade, creator_vault: None, acceptor_vault: None };
    assert_eq!(cancel_trade(&mut ctx), Ok(CancelOutcome::Reopened));
    assert_eq!(ctx.trade, open_trade(1));
}

#[test]
fn acceptor_cancel_needs_the_recorded_vault() {
    let (trade, v1, v2) = both_attached();
    let refused = |acceptor_vault: Option<VaultAccount>| {
        let mut ctx =
            CancelTrade { payer: key(ACCEPTOR), trade, creator_vault: Some(v1), acceptor_vault };
        let before = ctx;
        let r = cancel_trade(&mut ctx);
        assert_eq!(ctx, before);
        r
    };
    assert_eq!(refused(None), Err(Errors::CancelTradeError));
    assert_eq!(refused(Some(v1)), Err(Errors::CancelTradeError));
    let mut elsewhere = v2;
    elsewhere.key = key(60);
    assert_eq!(refused(Some(elsewhere)), Err(Errors::CancelTradeError));
}

#[test]
fn acceptor_cancel_does_not_ask_who_owns_the_vault() {
    let (trade, v1, v2) = both_attached();
    let mut moved = v2;
    moved.record.owner = key(STRANGER);
    let mut ctx = CancelTrade {
        payer: key(ACCEPTOR),
        trade,
        creator_vault: Some(v1),
        acceptor_vault: Some(moved),
    };
    assert_eq!(cancel_trade(&mut ctx), Ok(CancelOutcome::Reopened));
    assert!(!ctx.acceptor_vault.unwrap().record.is_frozen);
    assert_eq!(ctx.acceptor_vault.unwrap().record.owner, key(STRANGER));
}

#[test]
fn creator_cancel_unfreezes_both_vaults_and_closes_the_trade() {
    let (trade, v1, v2) = both_attached();
    let mut ctx = CancelTrade {
        payer: key(CREATOR),
        trade,
        creator_vault: Some(v1),
        acceptor_vault: Some(v2),
    };
    assert_eq!(cancel_trade(&mut ctx), Ok(CancelOutcome::Closed));
    assert!(!ctx.creator_vault.unwrap().record.is_frozen);
    assert!(!ctx.acceptor_vault.unwrap().record.is_frozen);
    assert_eq!(ctx.creator_vault.unwrap().record.owner, key(CREATOR));
    assert_eq!(ctx.acceptor_vault.unwrap().record.owner, key(ACCEPTOR));
    assert_eq!(ctx.trade, trade);
}

#[test]
fn creator_cancel_is_refused_on_stale_ownership() {
    let (trade, v1, v2) = both_attached();
    let refused = |creator_vault: Option<VaultAccount>, acceptor_vault: Option<VaultAccount>| {
        let mut ctx = CancelTrade { payer: key(CREATOR), trade, creator_vault, acceptor_vault };
        let before = ctx;
        let r = cancel_trade(&mut ctx);
        assert_eq!(ctx, before);
        r
    };
    let mut stolen = v1;
    stolen.record.owner = key(STRANGER);
    assert_eq!(refused(Some(stolen), Some(v2)), Err(Errors::CancelTradeError));
    let mut moved = v2;
    moved.record.owner = key(STRANGER);
    assert_eq!(refused(Some(v1), Some(moved)), Err(Errors::CancelTradeError));
    assert_eq!(refused(None, Some(v2)), Err(Errors::CancelTradeError));
    assert_eq!(refused(Some(v1), None), Err(Errors::CancelTradeError));
}

#[test]
fn creator_cancel_is_refused_for_vaults_that_are_not_the_recorded_ones() {
    let (trade, v1, v2) = both_attached();
    let refused = |creator_vault: Option<VaultAccount>, acceptor_vault: Option<VaultAccount>| {
        let mut ctx = CancelTrade { payer: key(CREATOR), trade, creator_vault, acceptor_vault };
        let before = ctx;
        let r = cancel_trade(&mut ctx);
        assert_eq!(ctx, before);
        r
    };
    assert_eq!(refused(Some(v2), Some(v1)), Err(Errors::CancelTradeError));
    assert_eq!(refused(Some(new_vault(CREATOR, 70, 4)), Some(v2)), Err(Errors::CancelTradeError));
    assert_eq!(refused(Some(v1), Some(new_vault(ACCEPTOR, 71, 4))), Err(Errors::CancelTradeError));
}

#[test]
fn creator_cancel_releases_only_the_sides_that_attached() {
    let trade = open_trade(1);
    let mut ctx = CancelTrade { payer: key(CREATOR), trade, creator_vault: None, acceptor_vault: None };
    assert_eq!(cancel_trade(&mut ctx), Ok(CancelOutcome::Closed));
    assert_eq!(ctx.trade, trade);

    let mut bystander = new_vault(STRANGER, 72, 1);
    bystander.record.is_frozen = true;
    let mut ctx = CancelTrade {
        payer: key(CREATOR),
        trade,
        creator_vault: Some(bystander),
        acceptor_vault: Some(bystander),
    };
    assert_eq!(cancel_trade(&mut ctx), Ok(CancelOutcome::Closed));
    assert_eq!(ctx.creator_vault, Some(bystander));
    assert_eq!(ctx.acceptor_vault, Some(bystander));

    let (_, trade) = join(trade, ACCEPTOR);
    let (_, trade, v1) = attach(trade, CREATOR, new_vault(CREATOR, 11, 1));
    assert!(v1.record.is_frozen);
    let mut ctx =
        CancelTrade { payer: key(CREATOR), trade, creator_vault: Some(v1), acceptor_vault: None };
    assert_eq!(cancel_trade(&mut ctx), Ok(CancelOutcome::Closed));
    assert!(!ctx.creator_vault.unwrap().record.is_frozen);
    assert_eq!(ctx.acceptor_vault, None);

    let mut ctx =
        CancelTrade { payer: key(CREATOR), trade, creator_vault: None, acceptor_vault: None };
    let before = ctx;
    assert_eq!(cancel_trade(&mut ctx), Err(Errors::CancelTradeError));
    assert_eq!(ctx, before);
}

#[test]
fn creator_cancel_of_a_trade_with_a_vault_but_no_acceptor_is_refused() {
    let (trade, v1, v2) = both_attached();
    let orphaned = TradeAccount { acceptor_key: None, ..trade };
    let mut ctx = CancelTrade {
        payer: key(CREATOR),
        trade: orphaned,
        creator_vault: Some(v1),
        acceptor_vault: Some(v2),
    };
    let before = ctx;
    assert_eq!(cancel_trade(&mut ctx), Err(Errors::CancelTradeError));
    assert_eq!(ctx, before);
}

#[test]
fn a_stranger_cannot_cancel() {
    let (trade, v1, v2) = both_attached();
    let mut ctx = CancelTrade {
        payer: key(STRANGER),
        trade,
        creator_vault: Some(v1),
        acceptor_vault: Some(v2),
    };
    let before = ctx;
    assert_eq!(cancel_trade(&mut ctx), Err(Errors::CancelTradeError));
    assert_eq!(ctx, before);
}

#[test]
fn full_swap_scenario() {
    let trade = open_trade(1);
    let (r, trade) = join(trade, ACCEPTOR);
    assert_eq!(r, Ok(()));
    let (r, trade, v1) = attach(trade, CREATOR, new_vault(CREATOR, 11, 1));
    assert_eq!(r, Ok(()));
    assert!(v1.record.is_frozen);
    let (r, trade, v2) = attach(trade, ACCEPTOR, new_vault(ACCEPTOR, 12, 1));
    assert_eq!(r, Ok(()));
    assert!(v2.record.is_frozen);
    let (r, trade) = lock(trade, CREATOR);
    assert_eq!(r, Ok(()));
    let (r, trade) = lock(trade, ACCEPTOR);
    assert_eq!(r, Ok(()));
    let mut ctx =
        ConfirmTrade { payer: key(CREATOR), trade, creator_vault: v1, acceptor_vault: v2 };
    assert_eq!(confirm_trade(&mut ctx), Ok(()));
    assert_eq!(ctx.creator_vault.record.owner, key(ACCEPTOR));
    assert_eq!(ctx.acceptor_vault.record.owner, key(CREATOR));
}
