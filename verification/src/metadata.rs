//! Authentication and decoding of an asset's metadata record.

use crate::context::MetadataAccount;
use crate::encoding::byte_strings;
use crate::error::Errors;
use crate::key::{lemma_pubkey_view_injective, token_metadata_program_id, Pubkey};
use crate::pda::{canonical_program_address, try_find_program_address};
use mpl_token_metadata::state::Metadata as StoredMetadata;
use mpl_token_metadata::state::ProgrammableConfig as StoredConfig;
use mpl_token_metadata::state::TokenMetadataAccount;
use vstd::prelude::*;

verus! {

/// Transfer configuration of a policy-governed asset.
#[derive(Clone, Copy, Debug, PartialEq, Eq)]
pub enum ProgrammableConfig {
    V1 {
        /// Address of the rule-set that governs transfers, if one is attached.
        rule_set: Option<Pubkey>,
    },
}

/// What the custody logic reads of a decoded metadata record.
#[derive(Clone, Copy, Debug, PartialEq, Eq)]
pub struct Metadata {
    pub programmable_config: Option<ProgrammableConfig>,
}

impl Metadata {
    /// Address of the rule-set attached to the asset, if any.
    pub open spec fn rule_set(self) -> Option<Pubkey> {
        match self.programmable_config {
            Some(ProgrammableConfig::V1 { rule_set }) => rule_set,
            None => None,
        }
    }

    /// Address of the rule-set attached to the asset, if any.
    pub fn get_rule_set(&self) -> (r: Option<Pubkey>)
        ensures
            r == self.rule_set(),
    {
        match self.programmable_config {
            Some(ProgrammableConfig::V1 { rule_set }) => rule_set,
            None => None,
        }
    }
}

/// What the token-metadata program's decoder makes of the stored bytes of a metadata
/// account: the record, or `None` where it rejects them.
pub uninterp spec fn metadata_decoding(data: Seq<u8>) -> Option<Metadata>;

/// `Metadata::safe_deserialize` of the token-metadata program: the decoded record as a
/// function of the stored bytes alone, with every decoding failure given as `None`.
/// Of the record only the programmable configuration is kept.
#[verifier::external_body]
pub(crate) fn decode_metadata(data: &Vec<u8>) -> (r: Option<Metadata>)
    ensures
        r == metadata_decoding(data@),
{
    let decoded = StoredMetadata::safe_deserialize(data.as_slice()).ok()?;
    let programmable_config = decoded.programmable_config.map(|c| match c {
        StoredConfig::V1 { rule_set } => ProgrammableConfig::V1 {
            rule_set: rule_set.map(|k| Pubkey { bytes: k.to_bytes() }),
        },
    });
    Some(Metadata { programmable_config })
}

/// The constant first seed of every metadata address: the ASCII text `metadata`.
pub open spec fn metadata_tag() -> Seq<u8> {
    seq![109u8, 101u8, 116u8, 97u8, 100u8, 97u8, 116u8, 97u8]
}

/// The seed tuple of the metadata record of the asset minted at `mint`.
pub open spec fn metadata_seeds(mint: Pubkey) -> Seq<Seq<u8>> {
    seq![metadata_tag(), token_metadata_program_id()@, mint@]
}

/// Builds the seed tuple of the metadata record of the asset minted at `mint`.
pub fn metadata_seed_parts(mint: &Pubkey) -> (r: Vec<Vec<u8>>)
    ensures
        byte_strings(r@) == metadata_seeds(*mint),
{
    let mut tag: Vec<u8> = Vec::new();
    tag.push(109);
    tag.push(101);
    tag.push(116);
    tag.push(97);
    tag.push(100);
    tag.push(97);
    tag.push(116);
    tag.push(97);
    let mut out: Vec<Vec<u8>> = Vec::new();
    out.push(tag);
    out.push(token_metadata_program_id().to_vec());
    out.push(mint.to_vec());
    proof {
        assert(out[0]@ =~= metadata_tag());
        assert(byte_strings(out@) =~= metadata_seeds(*mint));
    }
    out
}

/// Whether an account at `key`, owned by `owner`, is the metadata record expected at the
/// derived address `expected`.
pub open spec fn is_authentic(expected: Option<(Pubkey, u8)>, key: Pubkey, owner: Pubkey) -> bool {
    &&& expected matches Some((address, _))
    &&& address == key
    &&& owner == token_metadata_program_id()
}

/// What checking a metadata account yields, given the address derived for the asset's
/// mint and what the decoder made of the account's bytes. An account at another address
/// or of another owner is `BadMetadata`, whatever its bytes. An authentic account yields
/// its record, or `UndecodableMetadata` where the decoder rejected the bytes.
pub open spec fn checked_metadata(
    expected: Option<(Pubkey, u8)>,
    key: Pubkey,
    owner: Pubkey,
    decoded: Option<Metadata>,
) -> Result<Metadata, Errors> {
    if !is_authentic(expected, key, owner) {
        Err(Errors::BadMetadata)
    } else {
        match decoded {
            Some(m) => Ok(m),
            None => Err(Errors::UndecodableMetadata),
        }
    }
}

/// Accepts a decoded metadata record once its account is authenticated: the account's
/// address is the derived one, `expected`, and the token-metadata program owns it.
pub fn check_metadata(
    expected: Option<(Pubkey, u8)>,
    key: &Pubkey,
    owner: &Pubkey,
    decoded: Option<Metadata>,
) -> (r: Result<Metadata, Errors>)
    ensures
        r == checked_metadata(expected, *key, *owner, decoded),
{
    match expected {
        None => { return Err(Errors::BadMetadata); },
        Some((address, _)) => {
            if address != *key {
                return Err(Errors::BadMetadata);
            }
        },
    }
    if *owner != token_metadata_program_id() {
        return Err(Errors::BadMetadata);
    }
    match decoded {
        Some(m) => Ok(m),
        None => Err(Errors::UndecodableMetadata),
    }
}

/// Whether `account` is the metadata account of the asset minted at `nft_mint`: it lives
/// at the address derived from the mint and the token-metadata program owns it.
pub open spec fn is_metadata_account(nft_mint: Pubkey, account: MetadataAccount) -> bool {
    let expected = canonical_program_address(
        metadata_seeds(nft_mint),
        token_metadata_program_id()@,
    );
    &&& expected matches Some((address, _))
    &&& address == account.key@
    &&& account.owner == token_metadata_program_id()
}

/// What authenticating and decoding the metadata account of `nft_mint` yields.
pub open spec fn metadata_of(nft_mint: Pubkey, account: MetadataAccount) -> Result<
    Metadata,
    Errors,
> {
    if !is_metadata_account(nft_mint, account) {
        Err(Errors::BadMetadata)
    } else {
        match metadata_decoding(account.data@) {
            Some(m) => Ok(m),
            None => Err(Errors::UndecodableMetadata),
        }
    }
}

/// Authenticates the metadata account of the asset minted at `nft_mint` and decodes it.
/// An account that does not live at the address derived from the mint, or does not
/// belong to the token-metadata program, is `BadMetadata`. An authentic account never
/// is: it yields its record, or `UndecodableMetadata` where its bytes do not decode.
pub fn assert_decode_metadata(nft_mint: &Pubkey, metadata_account: &MetadataAccount) -> (r: Result<
    Metadata,
    Errors,
>)
    ensures
        r == metadata_of(*nft_mint, *metadata_account),
        is_metadata_account(*nft_mint, *metadata_account) ==> r != Err::<Metadata, Errors>(
            Errors::BadMetadata,
        ),
{
    let seeds = metadata_seed_parts(nft_mint);
    let expected = try_find_program_address(&seeds, &token_metadata_program_id());
    let decoded = decode_metadata(&metadata_account.data);
    proof {
        match expected {
            Some((address, _)) => {
                if address@ == metadata_account.key@ {
                    lemma_pubkey_view_injective(address, metadata_account.key);
                }
            },
            None => {},
        }
    }
    check_metadata(expected, &metadata_account.key, &metadata_account.owner, decoded)
}

} // verus!
