//! The authorization rule shared by every withdrawal.

use crate::account::{Vault, VaultAccount};
use crate::error::Errors;
use crate::key::Pubkey;
use crate::pda::{derive_signing_proof, derives, signer_seeds, SigningProof, SigningProofView};
use vstd::prelude::*;

verus! {

/// Whether `caller` may move assets out of `vault`: only its owner may, and only while
/// the vault is not frozen. A stranger is told `Unauthorized` whatever the freeze state.
pub open spec fn authorization(caller: Pubkey, vault: Vault) -> Result<(), Errors> {
    if caller != vault.owner {
        Err(Errors::Unauthorized)
    } else if vault.is_frozen {
        Err(Errors::VaultFrozen)
    } else {
        Ok(())
    }
}

/// Decides whether `caller` may move assets out of `vault`.
pub fn authorize(caller: &Pubkey, vault: &Vault) -> (r: Result<(), Errors>)
    ensures
        r == authorization(*caller, *vault),
{
    if *caller != vault.owner {
        Err(Errors::Unauthorized)
    } else if vault.is_frozen {
        Err(Errors::VaultFrozen)
    } else {
        Ok(())
    }
}

/// What a withdrawal by `caller` from `vault` under the handle `id` and bump byte `bump`
/// obtains: the vault's signing proof, once the caller is authorized and the seed tuple
/// of the vault's creation derives the vault's address.
pub open spec fn vault_authority(caller: Pubkey, vault: VaultAccount, id: u64, bump: u8) -> Result<
    SigningProofView,
    Errors,
> {
    match authorization(caller, vault.record) {
        Err(e) => Err(e),
        Ok(_) => if derives(vault.record.creator, id, bump, vault.key) {
            Ok(
                SigningProofView {
                    address: vault.key,
                    seeds: signer_seeds(vault.record.creator, id, bump),
                },
            )
        } else {
            Err(Errors::InvalidSigningProof)
        },
    }
}

/// The content of a signing proof that was granted, or the refusal.
pub open spec fn proof_view(r: Result<SigningProof, Errors>) -> Result<SigningProofView, Errors> {
    match r {
        Ok(p) => Ok(p@),
        Err(e) => Err(e),
    }
}

/// Checks the caller against the vault and derives the vault's signing proof.
pub fn authorize_withdrawal(caller: &Pubkey, vault: &VaultAccount, id: u64, bump: u8) -> (r: Result<
    SigningProof,
    Errors,
>)
    ensures
        proof_view(r) == vault_authority(*caller, *vault, id, bump),
        vault.record.is_frozen ==> r is Err,
{
    match authorize(caller, &vault.record) {
        Err(e) => Err(e),
        Ok(_) => derive_signing_proof(&vault.record.creator, id, bump, &vault.key),
    }
}

/// A frozen vault grants no signing proof, whoever asks and whatever the seeds.
pub proof fn lemma_frozen_vault_refuses(caller: Pubkey, vault: VaultAccount, id: u64, bump: u8)
    requires
        vault.record.is_frozen,
    ensures
        vault_authority(caller, vault, id, bump) is Err,
{
}

} // verus!
