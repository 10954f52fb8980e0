//! Derived addresses and delegated signing.
//!
//! A vault has no private key. Its address is derived from a seed tuple, and the vault
//! signs an outbound invocation by presenting that tuple, which the runtime hashes again.

use crate::encoding::{byte_strings, lemma_u64_be_bytes_injective, u64_be_bytes, u64_to_be_bytes};
use crate::error::Errors;
use crate::key::{lemma_pubkey_view_injective, program_id, Pubkey};
use anchor_lang::prelude::Pubkey as LedgerKey;
use vstd::prelude::*;

verus! {

/// The address that the ledger derives from `seeds` under `program_id`, where it derives
/// one: `None` where a seed is too long, there are too many, or the hash is a curve point.
pub uninterp spec fn program_address(seeds: Seq<Seq<u8>>, program_id: Seq<u8>) -> Option<Seq<u8>>;

/// The ledger's canonical address for `seeds` under `program_id`, with the bump byte that
/// was appended to reach it; `None` where no bump byte yields an address.
pub uninterp spec fn canonical_program_address(seeds: Seq<Seq<u8>>, program_id: Seq<u8>) -> Option<
    (Seq<u8>, u8),
>;

/// `Pubkey::create_program_address` of the ledger's SDK: the derived address as a function
/// of the seeds and the program address alone, with every failure given as `None`.
#[verifier::external_body]
pub(crate) fn create_program_address(seeds: &Vec<Vec<u8>>, program_id: &Pubkey) -> (r: Option<
    Pubkey,
>)
    ensures
        match r {
            Some(k) => program_address(byte_strings(seeds@), program_id@) == Some(k@),
            None => program_address(byte_strings(seeds@), program_id@) is None,
        },
{
    let parts: Vec<&[u8]> = seeds.iter().map(|s| s.as_slice()).collect();
    let id = LedgerKey::new_from_array(program_id.bytes);
    let derived = LedgerKey::create_program_address(&parts, &id).ok()?;
    Some(Pubkey { bytes: derived.to_bytes() })
}

/// `Pubkey::try_find_program_address` of the ledger's SDK: the canonical address and its
/// bump byte as a function of the seeds and the program address alone. The address it
/// returns is the one derived from the seeds followed by the one-byte bump seed.
#[verifier::external_body]
pub(crate) fn try_find_program_address(seeds: &Vec<Vec<u8>>, program_id: &Pubkey) -> (r: Option<
    (Pubkey, u8),
>)
    ensures
        match r {
            Some((k, bump)) => {
                &&& canonical_program_address(byte_strings(seeds@), program_id@) == Some((k@, bump))
                &&& program_address(byte_strings(seeds@).push(seq![bump]), program_id@) == Some(k@)
            },
            None => canonical_program_address(byte_strings(seeds@), program_id@) is None,
        },
{
    let parts: Vec<&[u8]> = seeds.iter().map(|s| s.as_slice()).collect();
    let id = LedgerKey::new_from_array(program_id.bytes);
    let (found, bump) = LedgerKey::try_find_program_address(&parts, &id)?;
    Some((Pubkey { bytes: found.to_bytes() }, bump))
}

/// The constant first seed of every vault address: the ASCII text `vault`.
pub open spec fn vault_tag() -> Seq<u8> {
    seq![118u8, 97u8, 117u8, 108u8, 116u8]
}

/// The seed tuple of the vault that `creator` made under the handle `id`.
pub open spec fn vault_seeds(creator: Pubkey, id: u64) -> Seq<Seq<u8>> {
    seq![vault_tag(), creator@, u64_be_bytes(id)]
}

/// The seed tuple by which that vault signs: its seeds followed by the bump byte.
pub open spec fn signer_seeds(creator: Pubkey, id: u64, bump: u8) -> Seq<Seq<u8>> {
    vault_seeds(creator, id).push(seq![bump])
}

/// Whether `(creator, id, bump)` derives `address` under this program.
pub open spec fn derives(creator: Pubkey, id: u64, bump: u8, address: Pubkey) -> bool {
    program_address(signer_seeds(creator, id, bump), program_id()@) == Some(address@)
}

/// Two vaults share a seed tuple only if they share creator and handle.
pub proof fn lemma_vault_seeds_injective(c1: Pubkey, id1: u64, c2: Pubkey, id2: u64)
    requires
        vault_seeds(c1, id1) == vault_seeds(c2, id2),
    ensures
        c1 == c2,
        id1 == id2,
{
    assert(vault_seeds(c1, id1)[1] == c1@);
    assert(vault_seeds(c2, id2)[1] == c2@);
    lemma_pubkey_view_injective(c1, c2);
    assert(vault_seeds(c1, id1)[2] == u64_be_bytes(id1));
    assert(vault_seeds(c2, id2)[2] == u64_be_bytes(id2));
    lemma_u64_be_bytes_injective(id1, id2);
}

/// Builds the seed tuple of a vault.
pub fn vault_seed_parts(creator: &Pubkey, id: u64) -> (r: Vec<Vec<u8>>)
    ensures
        byte_strings(r@) == vault_seeds(*creator, id),
{
    let mut tag: Vec<u8> = Vec::new();
    tag.push(118);
    tag.push(97);
    tag.push(117);
    tag.push(108);
    tag.push(116);
    let mut out: Vec<Vec<u8>> = Vec::new();
    out.push(tag);
    out.push(creator.to_vec());
    out.push(u64_to_be_bytes(id));
    proof {
        assert(out[0]@ =~= vault_tag());
        assert(byte_strings(out@) =~= vault_seeds(*creator, id));
    }
    out
}

/// Builds the seed tuple by which a vault signs.
pub fn signer_seed_parts(creator: &Pubkey, id: u64, bump: u8) -> (r: Vec<Vec<u8>>)
    ensures
        byte_strings(r@) == signer_seeds(*creator, id, bump),
{
    let mut out = vault_seed_parts(creator, id);
    let ghost before = byte_strings(out@);
    let mut last: Vec<u8> = Vec::new();
    last.push(bump);
    out.push(last);
    proof {
        assert(last@ =~= seq![bump]);
        assert(byte_strings(out@) =~= before.push(seq![bump]));
    }
    out
}

/// The capability by which a vault acts as authority of one outbound invocation. It is
/// spent by the invocation it signs.
#[derive(Debug, PartialEq, Eq)]
pub struct SigningProof {
    /// The vault address that the seeds were checked against.
    pub address: Pubkey,
    /// The seed tuple, bump byte last.
    pub seeds: Vec<Vec<u8>>,
}

/// Mathematical content of a [`SigningProof`].
pub struct SigningProofView {
    pub address: Pubkey,
    pub seeds: Seq<Seq<u8>>,
}

impl View for SigningProof {
    type V = SigningProofView;

    open spec fn view(&self) -> SigningProofView {
        SigningProofView { address: self.address, seeds: byte_strings(self.seeds@) }
    }
}

/// Accepts `seeds` as a vault's signing proof when the address derived from them,
/// `derived`, is the vault's own; refuses otherwise.
pub fn accept_signing_proof(seeds: Vec<Vec<u8>>, derived: Option<Pubkey>, vault_key: &Pubkey) -> (r:
    Result<SigningProof, Errors>)
    ensures
        r is Ok <==> derived == Some(*vault_key),
        r matches Ok(p) ==> p@ == (SigningProofView {
            address: *vault_key,
            seeds: byte_strings(seeds@),
        }),
        r matches Err(e) ==> e == Errors::InvalidSigningProof,
{
    match derived {
        Some(k) => {
            if k == *vault_key {
                Ok(SigningProof { address: k, seeds })
            } else {
                Err(Errors::InvalidSigningProof)
            }
        },
        None => Err(Errors::InvalidSigningProof),
    }
}

/// Re-derives a vault's address from `(creator, id, bump)` and yields the signing proof
/// when it is `vault_key`. Any other outcome of the derivation is refused.
pub fn derive_signing_proof(creator: &Pubkey, id: u64, bump: u8, vault_key: &Pubkey) -> (r: Result<
    SigningProof,
    Errors,
>)
    ensures
        r is Ok <==> derives(*creator, id, bump, *vault_key),
        r matches Ok(p) ==> p@ == (SigningProofView {
            address: *vault_key,
            seeds: signer_seeds(*creator, id, bump),
        }),
        r matches Err(e) ==> e == Errors::InvalidSigningProof,
{
    let seeds = signer_seed_parts(creator, id, bump);
    let derived = create_program_address(&seeds, &program_id());
    proof {
        if derived is Some && derived.unwrap()@ == vault_key@ {
            lemma_pubkey_view_injective(derived.unwrap(), *vault_key);
        }
    }
    accept_signing_proof(seeds, derived, vault_key)
}

/// Whether `found` is what the search for the address of the vault `(creator, id)`
/// yields: the canonical address with its bump byte, or nothing where there is none.
pub open spec fn is_vault_address(creator: Pubkey, id: u64, found: Option<(Pubkey, u8)>) -> bool {
    match found {
        Some((k, bump)) => canonical_program_address(vault_seeds(creator, id), program_id()@)
            == Some((k@, bump)),
        None => canonical_program_address(vault_seeds(creator, id), program_id()@) is None,
    }
}

/// Finds the address of the vault that `creator` made under the handle `id`, and the bump
/// byte that completes its signing seeds. The address depends on nothing but the pair.
pub fn find_vault_address(creator: &Pubkey, id: u64) -> (r: Option<(Pubkey, u8)>)
    ensures
        is_vault_address(*creator, id, r),
        r matches Some((k, bump)) ==> derives(*creator, id, bump, k),
{
    let seeds = vault_seed_parts(creator, id);
    try_find_program_address(&seeds, &program_id())
}

/// Deriving the address of one vault twice yields the same address and the same bump
/// byte, or nothing both times.
pub proof fn lemma_vault_address_deterministic(
    creator: Pubkey,
    id: u64,
    first: Option<(Pubkey, u8)>,
    second: Option<(Pubkey, u8)>,
)
    requires
        is_vault_address(creator, id, first),
        is_vault_address(creator, id, second),
    ensures
        first == second,
{
    match (first, second) {
        (Some((k1, _)), Some((k2, _))) => {
            lemma_pubkey_view_injective(k1, k2);
        },
        _ => {},
    }
}

/// The address found for a vault, without its bump byte.
pub open spec fn address_of(found: Option<(Pubkey, u8)>) -> Option<Pubkey> {
    match found {
        Some((k, _)) => Some(k),
        None => None,
    }
}

/// Whether the ledger's derivation collides on two seed tuples: they differ, and yet it
/// finds the same address for both.
pub open spec fn derivation_collides(first: Seq<Seq<u8>>, second: Seq<Seq<u8>>) -> bool {
    let a = canonical_program_address(first, program_id()@);
    let b = canonical_program_address(second, program_id()@);
    &&& first != second
    &&& a matches Some((x, _))
    &&& b matches Some((y, _))
    &&& x == y
}

/// Two vaults that differ in creator or handle have different addresses, unless the
/// ledger's derivation collides on their seed tuples. The seed tuples themselves always
/// differ.
pub proof fn lemma_distinct_vaults_have_distinct_addresses(
    c1: Pubkey,
    id1: u64,
    found1: Option<(Pubkey, u8)>,
    c2: Pubkey,
    id2: u64,
    found2: Option<(Pubkey, u8)>,
)
    requires
        c1 != c2 || id1 != id2,
        is_vault_address(c1, id1, found1),
        is_vault_address(c2, id2, found2),
        found1 is Some,
        found2 is Some,
        !derivation_collides(vault_seeds(c1, id1), vault_seeds(c2, id2)),
    ensures
        vault_seeds(c1, id1) != vault_seeds(c2, id2),
        address_of(found1) != address_of(found2),
{
    if vault_seeds(c1, id1) == vault_seeds(c2, id2) {
        lemma_vault_seeds_injective(c1, id1, c2, id2);
    }
}

} // verus!
