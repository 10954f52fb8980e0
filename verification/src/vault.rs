//! Creation of custody vaults.

use crate::account::{Vault, VaultAccount};
use crate::context::CreateVault;
use crate::error::Errors;
use crate::guard::vault_authority;
use crate::key::{lemma_pubkey_view_injective, program_id, Pubkey};
use crate::pda::{
    address_of, canonical_program_address, derives, find_vault_address, vault_seeds,
};
use vstd::prelude::*;

verus! {

/// The record of a vault that `creator` has just made under the handle `vault_id`: the
/// creator owns it and it is not frozen.
pub open spec fn new_vault(creator: Pubkey, vault_id: u64) -> Vault {
    Vault { creator, vault_id, owner: creator, is_frozen: false }
}

/// The accounts after the vault is initialised, given the address `found` for the
/// caller and the handle: the account must live at that very address.
pub open spec fn vault_created(
    ctx: CreateVault,
    vault_id: u64,
    found: Option<(Pubkey, u8)>,
) -> Result<CreateVault, Errors> {
    if address_of(found) == Some(ctx.vault.key) {
        Ok(
            CreateVault {
                vault: VaultAccount { record: new_vault(ctx.payer, vault_id), ..ctx.vault },
                ..ctx
            },
        )
    } else {
        Err(Errors::InvalidSigningProof)
    }
}

/// Initialises the freshly allocated vault account with the caller as creator and owner,
/// provided the account lives at `found`, the address derived for the caller and the
/// handle. The account's address and balance stay as the runtime allocated them.
pub fn init_vault(ctx: &mut CreateVault, vault_id: u64, found: Option<(Pubkey, u8)>) -> (r: Result<
    (),
    Errors,
>)
    ensures
        match vault_created(*old(ctx), vault_id, found) {
            Ok(after) => r is Ok && *final(ctx) == after,
            Err(e) => r == Err::<(), Errors>(e) && *final(ctx) == *old(ctx),
        },
{
    match found {
        Some((address, _)) => {
            if address != ctx.vault.key {
                return Err(Errors::InvalidSigningProof);
            }
        },
        None => { return Err(Errors::InvalidSigningProof); },
    }
    ctx.vault.record.creator = ctx.payer;
    ctx.vault.record.vault_id = vault_id;
    ctx.vault.record.owner = ctx.payer;
    ctx.vault.record.is_frozen = false;
    Ok(())
}

/// Whether the account at `key` lives at the address derived for `(creator, vault_id)`.
pub open spec fn is_keyed_by(key: Pubkey, creator: Pubkey, vault_id: u64) -> bool {
    canonical_program_address(vault_seeds(creator, vault_id), program_id()@) matches Some(
        (address, _),
    ) && address == key@
}

/// Creates the caller's vault under the handle `vault_id`. The freshly allocated
/// account must live at the address derived from the caller and the handle, else the
/// creation is refused and nothing is written.
pub fn create_vault(ctx: &mut CreateVault, vault_id: u64) -> (r: Result<(), Errors>)
    ensures
        r is Ok <==> is_keyed_by(old(ctx).vault.key, old(ctx).payer, vault_id),
        r is Ok ==> *final(ctx) == (CreateVault {
            vault: VaultAccount {
                record: new_vault(old(ctx).payer, vault_id),
                ..old(ctx).vault
            },
            ..*old(ctx)
        }),
        r matches Err(e) ==> e == Errors::InvalidSigningProof && *final(ctx) == *old(ctx),
{
    let found = find_vault_address(&ctx.payer, vault_id);
    proof {
        match found {
            Some((address, _)) => {
                if address@ == ctx.vault.key@ {
                    lemma_pubkey_view_injective(address, ctx.vault.key);
                }
            },
            None => {},
        }
    }
    init_vault(ctx, vault_id, found)
}

/// The creator of a new vault obtains its signing proof with any bump byte that
/// derives the vault's address, such as the one found together with the address.
pub proof fn lemma_new_vault_serves_its_creator(
    creator: Pubkey,
    vault_id: u64,
    key: Pubkey,
    bump: u8,
    lamports: u64,
)
    requires
        derives(creator, vault_id, bump, key),
    ensures
        vault_authority(
            creator,
            VaultAccount { key, lamports, record: new_vault(creator, vault_id) },
            vault_id,
            bump,
        ) is Ok,
{
}

} // verus!
