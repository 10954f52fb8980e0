//! The withdrawal adapter for policy-governed assets.
//!
//! Such an asset may carry a rule-set in its metadata. Where it does, the transfer names
//! the policy program and the policy account, and the caller must have supplied that
//! very account.

use crate::context::WithdrawPNFT;
use crate::error::Errors;
use crate::guard::{authorize_withdrawal, vault_authority};
use crate::instruction::{
    outcome, readonly, writable, AccountMeta, Instruction, InstructionView, Invocation,
    InvocationView,
};
use crate::key::{
    associated_token_program_id, system_program_id, sysvar_instructions_id,
    token_metadata_program_id, token_program_id, Pubkey, ASSOCIATED_TOKEN_PROGRAM_ID,
    SYSTEM_PROGRAM_ID, SYSVAR_INSTRUCTIONS_ID, TOKEN_METADATA_PROGRAM_ID, TOKEN_PROGRAM_ID,
};
use crate::metadata::{assert_decode_metadata, metadata_of, Metadata};
use crate::pda::SigningProof;
use anchor_lang::prelude::Pubkey as LedgerKey;
use borsh::BorshSerialize;
use mpl_token_auth_rules::payload::{Payload, PayloadType, ProofInfo, SeedsVec};
use mpl_token_metadata::instruction::builders::TransferBuilder;
use mpl_token_metadata::instruction::{InstructionBuilder, MetadataInstruction, TransferArgs};
use mpl_token_metadata::processor::AuthorizationData;
use vstd::prelude::*;

verus! {

/// One value of an authorization payload.
#[derive(Clone, Debug, PartialEq, Eq)]
pub enum PayloadTypeLocal {
    /// An address.
    Pubkey(Pubkey),
    /// Derivation seeds.
    Seeds(Vec<Vec<u8>>),
    /// A Merkle proof.
    MerkleProof(Vec<[u8; 32]>),
    /// An amount.
    Number(u64),
}

/// Mathematical content of a [`PayloadTypeLocal`].
pub enum PayloadView {
    Pubkey(Pubkey),
    Seeds(Seq<Seq<u8>>),
    MerkleProof(Seq<Seq<u8>>),
    Number(u64),
}

impl View for PayloadTypeLocal {
    type V = PayloadView;

    open spec fn view(&self) -> PayloadView {
        match self {
            PayloadTypeLocal::Pubkey(k) => PayloadView::Pubkey(*k),
            PayloadTypeLocal::Seeds(s) => PayloadView::Seeds(Seq::new(s@.len(), |i: int| s@[i]@)),
            PayloadTypeLocal::MerkleProof(p) => PayloadView::MerkleProof(
                Seq::new(p@.len(), |i: int| p@[i]@),
            ),
            PayloadTypeLocal::Number(n) => PayloadView::Number(*n),
        }
    }
}

/// A named value of an authorization payload.
#[derive(Clone, Debug, PartialEq, Eq)]
pub struct TaggedPayload {
    pub name: String,
    pub payload: PayloadTypeLocal,
}

/// Mathematical content of a [`TaggedPayload`].
pub struct TaggedPayloadView {
    pub name: Seq<char>,
    pub payload: PayloadView,
}

impl View for TaggedPayload {
    type V = TaggedPayloadView;

    open spec fn view(&self) -> TaggedPayloadView {
        TaggedPayloadView { name: self.name@, payload: self.payload@ }
    }
}

/// Data that the caller offers the asset's rule-set for validation. The custody logic
/// passes it on and does not interpret it.
#[derive(Clone, Debug, PartialEq, Eq)]
pub struct AuthorizationDataLocal {
    pub payload: Vec<TaggedPayload>,
}

impl View for AuthorizationDataLocal {
    type V = Seq<TaggedPayloadView>;

    open spec fn view(&self) -> Seq<TaggedPayloadView> {
        Seq::new(self.payload@.len(), |i: int| self.payload@[i]@)
    }
}

/// The content of authorization data that may be absent.
pub open spec fn authorization_view(a: Option<AuthorizationDataLocal>) -> Option<
    Seq<TaggedPayloadView>,
> {
    match a {
        Some(data) => Some(data@),
        None => None,
    }
}

/// The content of a byte buffer that may be absent.
pub open spec fn bytes_view(b: Option<Vec<u8>>) -> Option<Seq<u8>> {
    match b {
        Some(bytes) => Some(bytes@),
        None => None,
    }
}

/// The token-metadata program's encoding of its transfer instruction for `amount` units
/// with the given authorization data; `None` where the arguments cannot be encoded.
pub uninterp spec fn transfer_data(
    amount: u64,
    authorization: Option<Seq<TaggedPayloadView>>,
) -> Option<Seq<u8>>;

/// `try_to_vec` on `MetadataInstruction::Transfer` of the token-metadata program: the
/// bytes that the program reads as a transfer of `amount` units. The authorization data
/// is rebuilt as the program's own payload, with `Payload::insert` entry by entry in the
/// order given. The bytes are a function of the arguments alone.
#[verifier::external_body]
pub(crate) fn transfer_instruction_data(
    amount: u64,
    authorization: &Option<AuthorizationDataLocal>,
) -> (r: Option<Vec<u8>>)
    ensures
        bytes_view(r) == transfer_data(amount, authorization_view(*authorization)),
{
    let authorization_data = authorization.as_ref().map(|a| {
        let mut payload = Payload::new();
        for t in a.payload.iter() {
            payload.insert(t.name.clone(), match &t.payload {
                PayloadTypeLocal::Pubkey(k) => PayloadType::Pubkey(k.bytes.into()),
                PayloadTypeLocal::Seeds(s) => PayloadType::Seeds(SeedsVec::new(s.clone())),
                PayloadTypeLocal::MerkleProof(p) => {
                    PayloadType::MerkleProof(ProofInfo::new(p.clone()))
                },
                PayloadTypeLocal::Number(n) => PayloadType::Number(*n),
            });
        }
        AuthorizationData::new(payload)
    });
    MetadataInstruction::Transfer(TransferArgs::V1 { amount, authorization_data }).try_to_vec().ok()
}

/// The policy account that a transfer of an asset with this metadata must name: none
/// where no rule-set is attached; the attached rule-set where the caller supplied the
/// account at that very address; a refusal otherwise.
pub open spec fn required_rules(metadata: Metadata, supplied: Option<Pubkey>) -> Result<
    Option<Pubkey>,
    Errors,
> {
    match metadata.rule_set() {
        None => Ok(None),
        Some(rule_set) => if supplied == Some(rule_set) {
            Ok(Some(rule_set))
        } else {
            Err(Errors::BadRuleset)
        },
    }
}

/// Decides which policy account, if any, the transfer must name.
pub fn select_rules(metadata: &Metadata, supplied: &Option<Pubkey>) -> (r: Result<
    Option<Pubkey>,
    Errors,
>)
    ensures
        r == required_rules(*metadata, *supplied),
{
    match metadata.get_rule_set() {
        None => Ok(None),
        Some(rule_set) => match supplied {
            Some(given) => if *given == rule_set {
                Ok(Some(rule_set))
            } else {
                Err(Errors::BadRuleset)
            },
            None => Err(Errors::BadRuleset),
        },
    }
}

/// The seventeen account references of the token-metadata transfer instruction, in the
/// order that program reads them. The four program accounts are named by their
/// well-known addresses. The last two name the policy program and the policy account
/// where rules apply, and the token-metadata program itself in both places where none do.
pub open spec fn policy_transfer_accounts(
    ctx: WithdrawPNFT,
    vault_key: Pubkey,
    rules: Option<Pubkey>,
) -> Seq<AccountMeta> {
    seq![
        writable(ctx.vault_ata, false),
        readonly(vault_key, false),
        writable(ctx.receiver_ata, false),
        readonly(ctx.receiver, false),
        readonly(ctx.nft_mint, false),
        writable(ctx.metadata.key, false),
        readonly(ctx.edition, false),
        writable(ctx.owner_token_record, false),
        writable(ctx.receiver_token_record, false),
        readonly(vault_key, true),
        writable(ctx.payer, true),
        readonly(system_program_id(), false),
        readonly(sysvar_instructions_id(), false),
        readonly(token_program_id(), false),
        readonly(associated_token_program_id(), false),
        readonly(
            match rules {
                Some(_) => ctx.auth_rules_program,
                None => token_metadata_program_id(),
            },
            false,
        ),
        readonly(
            match rules {
                Some(account) => account,
                None => token_metadata_program_id(),
            },
            false,
        ),
    ]
}

/// The sixteen accounts handed to the runtime with every policy-governed transfer.
pub open spec fn policy_base_infos(ctx: WithdrawPNFT, vault_key: Pubkey) -> Seq<Pubkey> {
    seq![
        ctx.vault_ata,
        vault_key,
        ctx.receiver_ata,
        ctx.receiver,
        ctx.nft_mint,
        ctx.metadata.key,
        ctx.edition,
        ctx.receiver,
        ctx.owner_token_record,
        ctx.receiver_token_record,
        ctx.payer,
        ctx.system_program,
        ctx.sysvar_instructions,
        ctx.token_program,
        ctx.associated_token_program,
        ctx.auth_rules_program,
    ]
}

/// The accounts handed to the runtime: the base set, followed where rules apply by the
/// policy program and the policy account.
pub open spec fn policy_transfer_infos(
    ctx: WithdrawPNFT,
    vault_key: Pubkey,
    rules: Option<Pubkey>,
) -> Seq<Pubkey> {
    match rules {
        Some(account) => policy_base_infos(ctx, vault_key) + seq![ctx.auth_rules_program, account],
        None => policy_base_infos(ctx, vault_key),
    }
}

/// The invocation that transfers a policy-governed asset out of the vault.
pub open spec fn policy_invocation(
    ctx: WithdrawPNFT,
    vault_key: Pubkey,
    rules: Option<Pubkey>,
    data: Seq<u8>,
    seeds: Seq<Seq<u8>>,
) -> InvocationView {
    InvocationView {
        instruction: InstructionView {
            program_id: token_metadata_program_id(),
            accounts: policy_transfer_accounts(ctx, vault_key, rules),
            data,
        },
        account_infos: policy_transfer_infos(ctx, vault_key, rules),
        signer_seeds: seeds,
    }
}

/// What issuing the transfer yields, given the asset's decoded metadata and the encoded
/// transfer arguments: a refusal where the rule-set is not matched by the supplied policy
/// account or the arguments could not be encoded, else the invocation.
pub open spec fn policy_transfer(
    ctx: WithdrawPNFT,
    vault_key: Pubkey,
    metadata: Metadata,
    data: Option<Seq<u8>>,
    seeds: Seq<Seq<u8>>,
) -> Result<InvocationView, Errors> {
    match required_rules(metadata, ctx.auth_rules) {
        Err(e) => Err(e),
        Ok(rules) => match data {
            None => Err(Errors::BadRuleset),
            Some(bytes) => Ok(policy_invocation(ctx, vault_key, rules, bytes, seeds)),
        },
    }
}

/// The account references of the token-metadata transfer instruction, each as address,
/// signer flag and writable flag. `k` holds twelve addresses: the source holding
/// account, its owner, the signing authority, the destination holding account, its
/// owner, the mint, the metadata account, the edition, the source's and the
/// destination's token records, the payer and the policy program. `rules` is the policy
/// account.
pub open spec fn transfer_account_list(k: Seq<[u8; 32]>, rules: Option<[u8; 32]>) -> Seq<
    ([u8; 32], bool, bool),
> {
    seq![
        (k[0], false, true),
        (k[1], false, false),
        (k[3], false, true),
        (k[4], false, false),
        (k[5], false, false),
        (k[6], false, true),
        (k[7], false, false),
        (k[8], false, true),
        (k[9], false, true),
        (k[2], true, false),
        (k[10], true, true),
        (SYSTEM_PROGRAM_ID, false, false),
        (SYSVAR_INSTRUCTIONS_ID, false, false),
        (TOKEN_PROGRAM_ID, false, false),
        (ASSOCIATED_TOKEN_PROGRAM_ID, false, false),
        (
            match rules {
                Some(_) => k[11],
                None => TOKEN_METADATA_PROGRAM_ID,
            },
            false,
            false,
        ),
        (
            match rules {
                Some(account) => account,
                None => TOKEN_METADATA_PROGRAM_ID,
            },
            false,
            false,
        ),
    ]
}

/// `TransferBuilder` of the token-metadata program, followed by `build` and
/// `instruction`, with every account set that the builder knows except its four program
/// accounts, which it fills in itself. With these set, `build` does not fail. The
/// account references of the instruction depend on the addresses alone, not on
/// `amount`, and are those of `transfer_account_list`: the policy program is named only
/// where a policy account is, and the token-metadata program stands in both places
/// where none is.
#[verifier::external_body]
pub(crate) fn transfer_builder_accounts(
    keys: [[u8; 32]; 12],
    rules: Option<[u8; 32]>,
    amount: u64,
) -> (r: Option<Vec<([u8; 32], bool, bool)>>)
    ensures
        r is Some,
        r.unwrap()@ == transfer_account_list(keys@, rules),
{
    let k = keys.map(LedgerKey::from);
    let mut b = TransferBuilder::new();
    b.token(k[0]).token_owner(k[1]).authority(k[2]).destination(k[3]).destination_owner(k[4])
        .mint(k[5]).metadata(k[6]).edition(k[7]).owner_token_record(k[8])
        .destination_token_record(k[9]).payer(k[10]).authorization_rules_program(k[11]);
    b.authorization_rules = rules.map(LedgerKey::from);
    Some(b.build(TransferArgs::V1 { amount, authorization_data: None }).ok()?.instruction()
        .accounts.iter().map(|m| (m.pubkey.to_bytes(), m.is_signer, m.is_writable)).collect())
}

/// Builds the account references of the transfer instruction. The vault is both the
/// owner of the source holding account and the authority that signs.
fn build_transfer_accounts(ctx: &WithdrawPNFT, vault_key: Pubkey, rules: Option<Pubkey>) -> (r: Vec<
    AccountMeta,
>)
    ensures
        r@ == policy_transfer_accounts(*ctx, vault_key, rules),
{
    let keys: [[u8; 32]; 12] = [
        ctx.vault_ata.bytes,
        vault_key.bytes,
        vault_key.bytes,
        ctx.receiver_ata.bytes,
        ctx.receiver.bytes,
        ctx.nft_mint.bytes,
        ctx.metadata.key.bytes,
        ctx.edition.bytes,
        ctx.owner_token_record.bytes,
        ctx.receiver_token_record.bytes,
        ctx.payer.bytes,
        ctx.auth_rules_program.bytes,
    ];
    let rule_bytes = match rules {
        Some(account) => Some(account.bytes),
        None => None,
    };
    let listed = transfer_builder_accounts(keys, rule_bytes, 1).unwrap();
    let ghost list = transfer_account_list(keys@, rule_bytes);
    let ghost want = policy_transfer_accounts(*ctx, vault_key, rules);
    proof {
        assert forall|i: int| 0 <= i < 17 implies want[i] == (AccountMeta {
            pubkey: Pubkey { bytes: (#[trigger] list[i]).0 },
            is_signer: list[i].1,
            is_writable: list[i].2,
        }) by {}
    }
    let mut accounts: Vec<AccountMeta> = Vec::new();
    let mut i: usize = 0;
    while i < listed.len()
        invariant
            i <= listed.len(),
            listed@ == list,
            list.len() == 17,
            want.len() == 17,
            forall|j: int| 0 <= j < 17 ==> want[j] == (AccountMeta {
                pubkey: Pubkey { bytes: (#[trigger] list[j]).0 },
                is_signer: list[j].1,
                is_writable: list[j].2,
            }),
            accounts@ == want.subrange(0, i as int),
        decreases listed.len() - i,
    {
        let (bytes, is_signer, is_writable) = listed[i];
        accounts.push(AccountMeta { pubkey: Pubkey { bytes }, is_signer, is_writable });
        proof {
            assert(accounts@ =~= want.subrange(0, i + 1));
        }
        i += 1;
    }
    proof {
        assert(want.subrange(0, 17) =~= want);
    }
    accounts
}

/// Builds the list of accounts handed to the runtime.
fn build_transfer_infos(ctx: &WithdrawPNFT, vault_key: Pubkey, rules: Option<Pubkey>) -> (r: Vec<
    Pubkey,
>)
    ensures
        r@ == policy_transfer_infos(*ctx, vault_key, rules),
{
    let mut infos: Vec<Pubkey> = Vec::new();
    infos.push(ctx.vault_ata);
    infos.push(vault_key);
    infos.push(ctx.receiver_ata);
    infos.push(ctx.receiver);
    infos.push(ctx.nft_mint);
    infos.push(ctx.metadata.key);
    infos.push(ctx.edition);
    infos.push(ctx.receiver);
    infos.push(ctx.owner_token_record);
    infos.push(ctx.receiver_token_record);
    infos.push(ctx.payer);
    infos.push(ctx.system_program);
    infos.push(ctx.sysvar_instructions);
    infos.push(ctx.token_program);
    infos.push(ctx.associated_token_program);
    infos.push(ctx.auth_rules_program);
    proof {
        assert(infos@ =~= policy_base_infos(*ctx, vault_key));
    }
    match rules {
        Some(account) => {
            infos.push(ctx.auth_rules_program);
            infos.push(account);
            proof {
                assert(infos@ =~= policy_base_infos(*ctx, vault_key) + seq![
                    ctx.auth_rules_program,
                    account,
                ]);
            }
        },
        None => {},
    }
    infos
}

/// Issues the transfer of a policy-governed asset, with the vault of `proof` as the
/// asset's owner, authority and signer. `metadata` is the asset's decoded metadata and
/// `data` the encoded transfer arguments, where they could be encoded.
pub fn issue_policy_transfer(
    ctx: &WithdrawPNFT,
    metadata: &Metadata,
    data: Option<Vec<u8>>,
    proof: SigningProof,
) -> (r: Result<Invocation, Errors>)
    ensures
        outcome(r) == policy_transfer(
            *ctx,
            proof.address,
            *metadata,
            bytes_view(data),
            proof@.seeds,
        ),
{
    let rules = match select_rules(metadata, &ctx.auth_rules) {
        Err(e) => { return Err(e); },
        Ok(rules) => rules,
    };
    let data = match data {
        None => { return Err(Errors::BadRuleset); },
        Some(bytes) => bytes,
    };
    let accounts = build_transfer_accounts(ctx, proof.address, rules);
    let account_infos = build_transfer_infos(ctx, proof.address, rules);
    Ok(
        Invocation {
            instruction: Instruction { program_id: token_metadata_program_id(), accounts, data },
            account_infos,
            signer_seeds: proof.seeds,
        },
    )
}

/// What a policy-governed withdrawal yields. The flag that announces a policy account
/// must agree with whether one was supplied.
pub open spec fn policy_withdrawal(
    ctx: WithdrawPNFT,
    vault_id: u64,
    authorization: Option<Seq<TaggedPayloadView>>,
    rules_acc_present: bool,
) -> Result<InvocationView, Errors> {
    match vault_authority(ctx.payer, ctx.vault, vault_id, ctx.vault_bump) {
        Err(e) => Err(e),
        Ok(proof) => if rules_acc_present != (ctx.auth_rules is Some) {
            Err(Errors::BadRuleset)
        } else {
            match metadata_of(ctx.nft_mint, ctx.metadata) {
                Err(e) => Err(e),
                Ok(metadata) => policy_transfer(
                    ctx,
                    ctx.vault.key,
                    metadata,
                    transfer_data(1, authorization),
                    proof.seeds,
                ),
            }
        },
    }
}

/// Withdraws one policy-governed asset from the vault to the receiver.
pub fn withdraw_pnft(
    ctx: &WithdrawPNFT,
    vault_id: u64,
    authorization_data: Option<AuthorizationDataLocal>,
    rules_acc_present: bool,
) -> (r: Result<Invocation, Errors>)
    ensures
        outcome(r) == policy_withdrawal(
            *ctx,
            vault_id,
            authorization_view(authorization_data),
            rules_acc_present,
        ),
        ctx.vault.record.is_frozen ==> r is Err,
{
    let proof = match authorize_withdrawal(&ctx.payer, &ctx.vault, vault_id, ctx.vault_bump) {
        Err(e) => { return Err(e); },
        Ok(proof) => proof,
    };
    if rules_acc_present != ctx.auth_rules.is_some() {
        return Err(Errors::BadRuleset);
    }
    let metadata = match assert_decode_metadata(&ctx.nft_mint, &ctx.metadata) {
        Err(e) => { return Err(e); },
        Ok(metadata) => metadata,
    };
    let data = transfer_instruction_data(1, &authorization_data);
    issue_policy_transfer(ctx, &metadata, data, proof)
}

} // verus!
