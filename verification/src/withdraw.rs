//! The withdrawal adapters for balance-bearing assets, single-unit assets, native
//! balance and tree-indexed assets.
//!
//! Each adapter checks the caller against the vault, derives the vault's signing proof
//! and yields exactly one outbound invocation. None of them moves anything itself.

use crate::account::VaultAccount;
use crate::context::{WithdrawCNFT, WithdrawNFT, WithdrawSOL, WithdrawSPL};
use crate::encoding::{
    byte_strings, extend_bytes, u32_le_bytes, u32_to_le_bytes, u64_le_bytes, u64_to_le_bytes,
};
use crate::error::Errors;
use crate::guard::{authorize_withdrawal, vault_authority};
use crate::instruction::{
    outcome, readonly, writable, AccountMeta, Instruction, InstructionView, Invocation,
    InvocationView,
};
use crate::key::{system_program_id, token_program_id, Pubkey};
use crate::pda::SigningProof;
use anchor_lang::prelude::Pubkey as LedgerKey;
use anchor_lang::solana_program::system_instruction;
use anchor_spl::token::spl_token;
use vstd::prelude::*;

verus! {

/// The token program's instruction that moves `amount` units from `source` to
/// `destination` on the word of `authority`.
pub open spec fn token_transfer(
    source: Pubkey,
    destination: Pubkey,
    authority: Pubkey,
    amount: u64,
) -> InstructionView {
    InstructionView {
        program_id: token_program_id(),
        accounts: seq![
            writable(source, false),
            writable(destination, false),
            readonly(authority, true),
        ],
        data: seq![3u8] + u64_le_bytes(amount),
    }
}

/// The system program's instruction that moves `lamports` of native balance from `from`
/// to `to`.
pub open spec fn system_transfer(from: Pubkey, to: Pubkey, lamports: u64) -> InstructionView {
    InstructionView {
        program_id: system_program_id(),
        accounts: seq![writable(from, true), writable(to, false)],
        data: seq![2u8, 0u8, 0u8, 0u8] + u64_le_bytes(lamports),
    }
}

/// `spl_token::instruction::transfer`, called with the token program's own address and no
/// multisignature signers. With that address the call does not fail. Its instruction
/// names the source and the destination as writable and the authority as a read-only
/// signer, and carries the tag byte 3 followed by the amount, least significant byte first.
#[verifier::external_body]
pub(crate) fn token_transfer_instruction(
    source: &Pubkey,
    destination: &Pubkey,
    authority: &Pubkey,
    amount: u64,
) -> (r: Option<Instruction>)
    ensures
        r is Some,
        r.unwrap()@ == token_transfer(*source, *destination, *authority, amount),
{
    let key = |p: &Pubkey| LedgerKey::new_from_array(p.bytes);
    let ix = spl_token::instruction::transfer(
        &spl_token::ID, &key(source), &key(destination), &key(authority), &[], amount,
    ).ok()?;
    let accounts = ix.accounts.iter().map(|m| AccountMeta {
        pubkey: Pubkey { bytes: m.pubkey.to_bytes() },
        is_signer: m.is_signer,
        is_writable: m.is_writable,
    }).collect();
    let program_id = Pubkey { bytes: ix.program_id.to_bytes() };
    Some(Instruction { program_id, accounts, data: ix.data })
}

/// `system_instruction::transfer` of the ledger's SDK. Its instruction is addressed to the
/// system program, names the funding account as a writable signer and the recipient as
/// writable, and carries the variant index 2 in four bytes followed by the amount in
/// eight, both least significant byte first.
#[verifier::external_body]
pub(crate) fn system_transfer_instruction(from: &Pubkey, to: &Pubkey, lamports: u64) -> (r:
    Instruction)
    ensures
        r@ == system_transfer(*from, *to, lamports),
{
    let key = |p: &Pubkey| LedgerKey::new_from_array(p.bytes);
    let ix = system_instruction::transfer(&key(from), &key(to), lamports);
    let accounts = ix.accounts.iter().map(|m| AccountMeta {
        pubkey: Pubkey { bytes: m.pubkey.to_bytes() },
        is_signer: m.is_signer,
        is_writable: m.is_writable,
    }).collect();
    let program_id = Pubkey { bytes: ix.program_id.to_bytes() };
    Instruction { program_id, accounts, data: ix.data }
}

/// The invocation that moves `amount` units out of a vault's holding account.
pub open spec fn token_invocation(
    vault_key: Pubkey,
    vault_ata: Pubkey,
    receiver_ata: Pubkey,
    amount: u64,
    seeds: Seq<Seq<u8>>,
) -> InvocationView {
    InvocationView {
        instruction: token_transfer(vault_ata, receiver_ata, vault_key, amount),
        account_infos: seq![vault_ata, receiver_ata, vault_key],
        signer_seeds: seeds,
    }
}

/// Issues the token transfer of `amount` units from `vault_ata` to `receiver_ata`, with
/// the vault of `proof` as authority and signer.
pub fn issue_token_transfer(
    vault_ata: &Pubkey,
    receiver_ata: &Pubkey,
    amount: u64,
    proof: SigningProof,
) -> (r: Invocation)
    ensures
        r@ == token_invocation(proof.address, *vault_ata, *receiver_ata, amount, proof@.seeds),
{
    let made = token_transfer_instruction(vault_ata, receiver_ata, &proof.address, amount);
    let instruction = made.unwrap();
    let mut account_infos: Vec<Pubkey> = Vec::new();
    account_infos.push(*vault_ata);
    account_infos.push(*receiver_ata);
    account_infos.push(proof.address);
    proof {
        assert(account_infos@ =~= seq![*vault_ata, *receiver_ata, proof.address]);
    }
    Invocation { instruction, account_infos, signer_seeds: proof.seeds }
}

/// What a token withdrawal yields: the transfer, once the caller is authorized and the
/// vault's signing proof derives.
pub open spec fn token_withdrawal(
    payer: Pubkey,
    vault: VaultAccount,
    vault_bump: u8,
    vault_ata: Pubkey,
    receiver_ata: Pubkey,
    vault_id: u64,
    amount: u64,
) -> Result<InvocationView, Errors> {
    match vault_authority(payer, vault, vault_id, vault_bump) {
        Err(e) => Err(e),
        Ok(proof) => Ok(token_invocation(vault.key, vault_ata, receiver_ata, amount, proof.seeds)),
    }
}

/// Withdraws one unit of a simple non-fungible asset from the vault.
pub fn withdraw_nft(ctx: &WithdrawNFT, vault_id: u64) -> (r: Result<Invocation, Errors>)
    ensures
        outcome(r) == token_withdrawal(
            ctx.payer,
            ctx.vault,
            ctx.vault_bump,
            ctx.vault_ata,
            ctx.receiver_ata,
            vault_id,
            1,
        ),
        ctx.vault.record.is_frozen ==> r is Err,
{
    match authorize_withdrawal(&ctx.payer, &ctx.vault, vault_id, ctx.vault_bump) {
        Err(e) => Err(e),
        Ok(proof) => Ok(issue_token_transfer(&ctx.vault_ata, &ctx.receiver_ata, 1, proof)),
    }
}

/// Withdraws `amount` units of a fungible asset from the vault.
pub fn withdraw_spl(ctx: &WithdrawSPL, vault_id: u64, amount: u64) -> (r: Result<
    Invocation,
    Errors,
>)
    ensures
        outcome(r) == token_withdrawal(
            ctx.payer,
            ctx.vault,
            ctx.vault_bump,
            ctx.vault_ata,
            ctx.receiver_ata,
            vault_id,
            amount,
        ),
        ctx.vault.record.is_frozen ==> r is Err,
{
    match authorize_withdrawal(&ctx.payer, &ctx.vault, vault_id, ctx.vault_bump) {
        Err(e) => Err(e),
        Ok(proof) => Ok(issue_token_transfer(&ctx.vault_ata, &ctx.receiver_ata, amount, proof)),
    }
}

/// Whether debiting `amount` from `balance` leaves at least `reserve`.
pub open spec fn keeps_reserve(balance: u64, amount: u64, reserve: u64) -> bool {
    balance - amount >= reserve
}

/// The invocation that moves `amount` of native balance out of the vault at `vault_key`.
pub open spec fn native_invocation(
    vault_key: Pubkey,
    receiver: Pubkey,
    system_program: Pubkey,
    amount: u64,
    seeds: Seq<Seq<u8>>,
) -> InvocationView {
    InvocationView {
        instruction: system_transfer(vault_key, receiver, amount),
        account_infos: seq![vault_key, receiver, system_program],
        signer_seeds: seeds,
    }
}

/// Issues the native transfer of `amount` from the vault of `proof` to the receiver,
/// unless it would leave the vault with less than its reserve.
pub fn issue_native_transfer(ctx: &WithdrawSOL, amount: u64, proof: SigningProof) -> (r: Result<
    Invocation,
    Errors,
>)
    ensures
        r is Ok <==> keeps_reserve(ctx.vault.lamports, amount, ctx.rent_exempt_reserve),
        r matches Ok(invocation) ==> invocation@ == native_invocation(
            proof.address,
            ctx.receiver,
            ctx.system_program,
            amount,
            proof@.seeds,
        ),
        r matches Err(e) ==> e == Errors::SolRentExemptViolation,
{
    if ctx.vault.lamports < amount || ctx.vault.lamports - amount < ctx.rent_exempt_reserve {
        return Err(Errors::SolRentExemptViolation);
    }
    let instruction = system_transfer_instruction(&proof.address, &ctx.receiver, amount);
    let mut account_infos: Vec<Pubkey> = Vec::new();
    account_infos.push(proof.address);
    account_infos.push(ctx.receiver);
    account_infos.push(ctx.system_program);
    proof {
        assert(account_infos@ =~= seq![proof.address, ctx.receiver, ctx.system_program]);
    }
    Ok(Invocation { instruction, account_infos, signer_seeds: proof.seeds })
}

/// What a native withdrawal yields.
pub open spec fn native_withdrawal(ctx: WithdrawSOL, vault_id: u64, amount: u64) -> Result<
    InvocationView,
    Errors,
> {
    match vault_authority(ctx.payer, ctx.vault, vault_id, ctx.vault_bump) {
        Err(e) => Err(e),
        Ok(proof) => if keeps_reserve(ctx.vault.lamports, amount, ctx.rent_exempt_reserve) {
            Ok(
                native_invocation(
                    ctx.vault.key,
                    ctx.receiver,
                    ctx.system_program,
                    amount,
                    proof.seeds,
                ),
            )
        } else {
            Err(Errors::SolRentExemptViolation)
        },
    }
}

/// Withdraws `amount` of native balance from the vault, which must keep its
/// minimum-balance reserve.
pub fn withdraw_sol(ctx: &WithdrawSOL, vault_id: u64, amount: u64) -> (r: Result<
    Invocation,
    Errors,
>)
    ensures
        outcome(r) == native_withdrawal(*ctx, vault_id, amount),
        ctx.vault.record.is_frozen ==> r is Err,
{
    match authorize_withdrawal(&ctx.payer, &ctx.vault, vault_id, ctx.vault_bump) {
        Err(e) => Err(e),
        Ok(proof) => issue_native_transfer(ctx, amount, proof),
    }
}

/// First eight bytes of every tree-indexed transfer payload: the operation's tag.
pub const TRANSFER_DISCRIMINATOR: [u8; 8] = [163, 52, 200, 231, 140, 3, 69, 186];

/// What locates a tree-indexed asset and proves its place in the tree.
#[derive(Clone, Copy, Debug, PartialEq, Eq)]
pub struct LeafProof {
    pub root: [u8; 32],
    pub data_hash: [u8; 32],
    pub creator_hash: [u8; 32],
    pub nonce: u64,
    pub index: u32,
}

/// Payload of a tree-indexed transfer: the tag, the root, the two hashes, then the nonce
/// in eight bytes and the index in four, both least significant byte first.
pub open spec fn tree_transfer_data(leaf: LeafProof) -> Seq<u8> {
    TRANSFER_DISCRIMINATOR@ + leaf.root@ + leaf.data_hash@ + leaf.creator_hash@ + u64_le_bytes(
        leaf.nonce,
    ) + u32_le_bytes(leaf.index)
}

/// The eight fixed account references of a tree-indexed transfer. The vault appears
/// twice: as the leaf's owner, signing, and as its delegate.
pub open spec fn tree_fixed_accounts(ctx: WithdrawCNFT, vault_key: Pubkey) -> Seq<AccountMeta> {
    seq![
        readonly(ctx.tree_authority, false),
        readonly(vault_key, true),
        readonly(vault_key, false),
        readonly(ctx.new_leaf_owner, false),
        writable(ctx.merkle_tree, false),
        readonly(ctx.log_wrapper, false),
        readonly(ctx.compression_program, false),
        readonly(ctx.system_program, false),
    ]
}

/// The addresses of those eight accounts.
pub open spec fn tree_fixed_infos(ctx: WithdrawCNFT, vault_key: Pubkey) -> Seq<Pubkey> {
    seq![
        ctx.tree_authority,
        vault_key,
        vault_key,
        ctx.new_leaf_owner,
        ctx.merkle_tree,
        ctx.log_wrapper,
        ctx.compression_program,
        ctx.system_program,
    ]
}

/// The invocation that hands a tree-indexed asset to `ctx.new_leaf_owner`: the fixed
/// accounts, then every proof-path account as the caller gave it, read-only and unsigned.
pub open spec fn tree_invocation(
    ctx: WithdrawCNFT,
    vault_key: Pubkey,
    leaf: LeafProof,
    seeds: Seq<Seq<u8>>,
) -> InvocationView {
    InvocationView {
        instruction: InstructionView {
            program_id: ctx.bubblegum_program,
            accounts: tree_fixed_accounts(ctx, vault_key) + ctx.remaining_accounts@.map_values(
                |k: Pubkey| readonly(k, false),
            ),
            data: tree_transfer_data(leaf),
        },
        account_infos: tree_fixed_infos(ctx, vault_key) + ctx.remaining_accounts@,
        signer_seeds: seeds,
    }
}

/// Appends the 32 bytes of `src` to `dst`, in order.
fn extend_hash(dst: &mut Vec<u8>, src: &[u8; 32])
    ensures
        final(dst)@ == old(dst)@ + src@,
{
    let mut i: usize = 0;
    while i < 32
        invariant
            i <= 32,
            dst@ == old(dst)@ + src@.subrange(0, i as int),
        decreases 32 - i,
    {
        dst.push(src[i]);
        proof {
            assert(dst@ =~= old(dst)@ + src@.subrange(0, i + 1));
        }
        i += 1;
    }
    proof {
        assert(src@.subrange(0, 32) =~= src@);
    }
}

/// Encodes the payload of a tree-indexed transfer.
pub fn encode_tree_transfer(leaf: &LeafProof) -> (r: Vec<u8>)
    ensures
        r@ == tree_transfer_data(*leaf),
{
    let mut data: Vec<u8> = Vec::new();
    let mut i: usize = 0;
    while i < 8
        invariant
            i <= 8,
            data@ == TRANSFER_DISCRIMINATOR@.subrange(0, i as int),
        decreases 8 - i,
    {
        data.push(TRANSFER_DISCRIMINATOR[i]);
        proof {
            assert(data@ =~= TRANSFER_DISCRIMINATOR@.subrange(0, i + 1));
        }
        i += 1;
    }
    proof {
        assert(TRANSFER_DISCRIMINATOR@.subrange(0, 8) =~= TRANSFER_DISCRIMINATOR@);
    }
    extend_hash(&mut data, &leaf.root);
    extend_hash(&mut data, &leaf.data_hash);
    extend_hash(&mut data, &leaf.creator_hash);
    let nonce = u64_to_le_bytes(leaf.nonce);
    extend_bytes(&mut data, &nonce);
    let index = u32_to_le_bytes(leaf.index);
    extend_bytes(&mut data, &index);
    data
}

/// Issues the transfer of a tree-indexed asset, with the vault of `proof` as the leaf's
/// owner and signer. The proof itself is not inspected: the tree's contract judges it.
pub fn issue_tree_transfer(ctx: &WithdrawCNFT, leaf: &LeafProof, proof: SigningProof) -> (r:
    Invocation)
    ensures
        r@ == tree_invocation(*ctx, proof.address, *leaf, proof@.seeds),
{
    let vault_key = proof.address;
    let mut accounts: Vec<AccountMeta> = Vec::new();
    accounts.push(AccountMeta::new_readonly(ctx.tree_authority, false));
    accounts.push(AccountMeta::new_readonly(vault_key, true));
    accounts.push(AccountMeta::new_readonly(vault_key, false));
    accounts.push(AccountMeta::new_readonly(ctx.new_leaf_owner, false));
    accounts.push(AccountMeta::new(ctx.merkle_tree, false));
    accounts.push(AccountMeta::new_readonly(ctx.log_wrapper, false));
    accounts.push(AccountMeta::new_readonly(ctx.compression_program, false));
    accounts.push(AccountMeta::new_readonly(ctx.system_program, false));
    let mut account_infos: Vec<Pubkey> = Vec::new();
    account_infos.push(ctx.tree_authority);
    account_infos.push(vault_key);
    account_infos.push(vault_key);
    account_infos.push(ctx.new_leaf_owner);
    account_infos.push(ctx.merkle_tree);
    account_infos.push(ctx.log_wrapper);
    account_infos.push(ctx.compression_program);
    account_infos.push(ctx.system_program);
    proof {
        assert(accounts@ =~= tree_fixed_accounts(*ctx, vault_key));
        assert(account_infos@ =~= tree_fixed_infos(*ctx, vault_key));
    }
    let ghost rest = ctx.remaining_accounts@;
    let mut i: usize = 0;
    while i < ctx.remaining_accounts.len()
        invariant
            i <= ctx.remaining_accounts.len(),
            rest == ctx.remaining_accounts@,
            accounts@ == tree_fixed_accounts(*ctx, vault_key) + rest.subrange(
                0,
                i as int,
            ).map_values(|k: Pubkey| readonly(k, false)),
            account_infos@ == tree_fixed_infos(*ctx, vault_key) + rest.subrange(0, i as int),
        decreases ctx.remaining_accounts.len() - i,
    {
        let key = ctx.remaining_accounts[i];
        accounts.push(AccountMeta::new_readonly(key, false));
        account_infos.push(key);
        proof {
            assert(rest.subrange(0, i + 1) =~= rest.subrange(0, i as int).push(key));
            assert(rest.subrange(0, i + 1).map_values(|k: Pubkey| readonly(k, false))
                =~= rest.subrange(0, i as int).map_values(|k: Pubkey| readonly(k, false)).push(
                readonly(key, false),
            ));
            assert(accounts@ =~= tree_fixed_accounts(*ctx, vault_key) + rest.subrange(
                0,
                i + 1,
            ).map_values(|k: Pubkey| readonly(k, false)));
            assert(account_infos@ =~= tree_fixed_infos(*ctx, vault_key) + rest.subrange(0, i + 1));
        }
        i += 1;
    }
    proof {
        assert(rest.subrange(0, rest.len() as int) =~= rest);
    }
    let data = encode_tree_transfer(leaf);
    Invocation {
        instruction: Instruction { program_id: ctx.bubblegum_program, accounts, data },
        account_infos,
        signer_seeds: proof.seeds,
    }
}

/// What a tree-indexed withdrawal yields.
pub open spec fn tree_withdrawal(ctx: WithdrawCNFT, vault_id: u64, leaf: LeafProof) -> Result<
    InvocationView,
    Errors,
> {
    match vault_authority(ctx.payer, ctx.vault, vault_id, ctx.vault_bump) {
        Err(e) => Err(e),
        Ok(proof) => Ok(tree_invocation(ctx, ctx.vault.key, leaf, proof.seeds)),
    }
}

/// Withdraws a tree-indexed asset from the vault to `ctx.new_leaf_owner`.
pub fn withdraw_cnft(
    ctx: &WithdrawCNFT,
    vault_id: u64,
    root: [u8; 32],
    data_hash: [u8; 32],
    creator_hash: [u8; 32],
    nonce: u64,
    index: u32,
) -> (r: Result<Invocation, Errors>)
    ensures
        outcome(r) == tree_withdrawal(
            *ctx,
            vault_id,
            LeafProof { root, data_hash, creator_hash, nonce, index },
        ),
        ctx.vault.record.is_frozen ==> r is Err,
{
    match authorize_withdrawal(&ctx.payer, &ctx.vault, vault_id, ctx.vault_bump) {
        Err(e) => Err(e),
        Ok(proof) => {
            let leaf = LeafProof { root, data_hash, creator_hash, nonce, index };
            Ok(issue_tree_transfer(ctx, &leaf, proof))
        },
    }
}

} // verus!
