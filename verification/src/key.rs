//! Ledger identities and the well-known program addresses the custody logic refers to.

use vstd::prelude::*;

verus! {

/// A 32-byte ledger identity: an account address or a party's public key.
#[derive(Clone, Copy, Debug, Eq)]
pub struct Pubkey {
    pub bytes: [u8; 32],
}

impl View for Pubkey {
    type V = Seq<u8>;

    /// The identity as a sequence of 32 bytes.
    open spec fn view(&self) -> Seq<u8> {
        self.bytes@
    }
}

impl PartialEq for Pubkey {
    fn eq(&self, other: &Self) -> (r: bool) {
        let mut i: usize = 0;
        while i < 32
            invariant
                i <= 32,
                forall|j: int| 0 <= j < i ==> self.bytes[j] == other.bytes[j],
            decreases 32 - i,
        {
            if self.bytes[i] != other.bytes[i] {
                return false;
            }
            i += 1;
        }
        assert(self.bytes =~= other.bytes);
        true
    }
}

impl vstd::std_specs::cmp::PartialEqSpecImpl for Pubkey {
    open spec fn obeys_eq_spec() -> bool {
        true
    }

    open spec fn eq_spec(&self, other: &Self) -> bool {
        *self == *other
    }
}

impl Pubkey {
    /// Wraps 32 raw bytes as an identity.
    pub fn new_from_array(bytes: [u8; 32]) -> (r: Pubkey)
        ensures
            r.bytes == bytes,
    {
        Pubkey { bytes }
    }

    /// The raw bytes of the identity.
    pub fn to_bytes(&self) -> (r: [u8; 32])
        ensures
            r == self.bytes,
    {
        self.bytes
    }

    /// The raw bytes of the identity as a growable buffer, in order.
    pub fn to_vec(&self) -> (r: Vec<u8>)
        ensures
            r@ == self@,
    {
        let mut out: Vec<u8> = Vec::new();
        let mut i: usize = 0;
        while i < 32
            invariant
                i <= 32,
                out@ == self@.subrange(0, i as int),
            decreases 32 - i,
        {
            out.push(self.bytes[i]);
            proof {
                assert(out@ =~= self@.subrange(0, i + 1));
            }
            i += 1;
        }
        proof {
            assert(self@.subrange(0, 32) =~= self@);
        }
        out
    }
}

/// Two identities with the same 32 bytes are the same identity.
pub proof fn lemma_pubkey_view_injective(a: Pubkey, b: Pubkey)
    requires
        a@ == b@,
    ensures
        a == b,
{
    assert(a.bytes =~= b.bytes);
}

/// Address of this custody program on the ledger.
pub const PROGRAM_ID: [u8; 32] = [
    96, 87, 221, 31, 154, 39, 101, 255, 137, 19, 148, 49, 133, 50, 65, 14,
    171, 156, 70, 15, 43, 226, 65, 207, 94, 27, 99, 151, 204, 12, 162, 33,
];

/// Address of the ledger's system program, which moves native balance.
pub const SYSTEM_PROGRAM_ID: [u8; 32] = [
    0, 0, 0, 0, 0, 0, 0, 0, 0, 0, 0, 0, 0, 0, 0, 0,
    0, 0, 0, 0, 0, 0, 0, 0, 0, 0, 0, 0, 0, 0, 0, 0,
];

/// Address of the fungible-token program.
pub const TOKEN_PROGRAM_ID: [u8; 32] = [
    6, 221, 246, 225, 215, 101, 161, 147, 217, 203, 225, 70, 206, 235, 121, 172,
    28, 180, 133, 237, 95, 91, 55, 145, 58, 140, 245, 133, 126, 255, 0, 169,
];

/// Address of the associated-token-account program.
pub const ASSOCIATED_TOKEN_PROGRAM_ID: [u8; 32] = [
    140, 151, 37, 143, 78, 36, 137, 241, 187, 61, 16, 41, 20, 142, 13, 131,
    11, 90, 19, 153, 218, 255, 16, 132, 4, 142, 123, 216, 219, 233, 248, 89,
];

/// Address of the token-metadata program, which owns metadata records and executes
/// policy-governed transfers.
pub const TOKEN_METADATA_PROGRAM_ID: [u8; 32] = [
    11, 112, 101, 177, 227, 209, 124, 69, 56, 157, 82, 127, 107, 4, 195, 205,
    88, 184, 108, 115, 26, 160, 253, 181, 73, 182, 209, 188, 3, 248, 41, 70,
];

/// Address of the instructions sysvar account.
pub const SYSVAR_INSTRUCTIONS_ID: [u8; 32] = [
    6, 167, 213, 23, 24, 123, 209, 102, 53, 218, 212, 4, 85, 253, 194, 192,
    193, 36, 198, 143, 33, 86, 117, 165, 219, 186, 203, 95, 8, 0, 0, 0,
];

/// Address of the program that owns the trees of tree-indexed assets.
pub const BUBBLEGUM_PROGRAM_ID: [u8; 32] = [
    152, 139, 128, 235, 121, 53, 40, 105, 178, 36, 116, 95, 89, 221, 191, 138,
    38, 88, 202, 19, 220, 104, 129, 33, 38, 53, 28, 174, 7, 193, 165, 165,
];

/// This custody program's own address.
pub open spec fn spec_program_id() -> Pubkey {
    Pubkey { bytes: PROGRAM_ID }
}

/// This custody program's own address.
#[verifier::when_used_as_spec(spec_program_id)]
pub fn program_id() -> (r: Pubkey)
    ensures
        r == spec_program_id(),
{
    Pubkey { bytes: PROGRAM_ID }
}

/// The system program's address.
pub open spec fn spec_system_program_id() -> Pubkey {
    Pubkey { bytes: SYSTEM_PROGRAM_ID }
}

/// The system program's address.
#[verifier::when_used_as_spec(spec_system_program_id)]
pub fn system_program_id() -> (r: Pubkey)
    ensures
        r == spec_system_program_id(),
{
    Pubkey { bytes: SYSTEM_PROGRAM_ID }
}

/// The fungible-token program's address.
pub open spec fn spec_token_program_id() -> Pubkey {
    Pubkey { bytes: TOKEN_PROGRAM_ID }
}

/// The fungible-token program's address.
#[verifier::when_used_as_spec(spec_token_program_id)]
pub fn token_program_id() -> (r: Pubkey)
    ensures
        r == spec_token_program_id(),
{
    Pubkey { bytes: TOKEN_PROGRAM_ID }
}

/// The associated-token-account program's address.
pub open spec fn spec_associated_token_program_id() -> Pubkey {
    Pubkey { bytes: ASSOCIATED_TOKEN_PROGRAM_ID }
}

/// The associated-token-account program's address.
#[verifier::when_used_as_spec(spec_associated_token_program_id)]
pub fn associated_token_program_id() -> (r: Pubkey)
    ensures
        r == spec_associated_token_program_id(),
{
    Pubkey { bytes: ASSOCIATED_TOKEN_PROGRAM_ID }
}

/// The token-metadata program's address.
pub open spec fn spec_token_metadata_program_id() -> Pubkey {
    Pubkey { bytes: TOKEN_METADATA_PROGRAM_ID }
}

/// The token-metadata program's address.
#[verifier::when_used_as_spec(spec_token_metadata_program_id)]
pub fn token_metadata_program_id() -> (r: Pubkey)
    ensures
        r == spec_token_metadata_program_id(),
{
    Pubkey { bytes: TOKEN_METADATA_PROGRAM_ID }
}

/// The instructions sysvar account's address.
pub open spec fn spec_sysvar_instructions_id() -> Pubkey {
    Pubkey { bytes: SYSVAR_INSTRUCTIONS_ID }
}

/// The instructions sysvar account's address.
#[verifier::when_used_as_spec(spec_sysvar_instructions_id)]
pub fn sysvar_instructions_id() -> (r: Pubkey)
    ensures
        r == spec_sysvar_instructions_id(),
{
    Pubkey { bytes: SYSVAR_INSTRUCTIONS_ID }
}

/// The address of the program that owns the trees of tree-indexed assets.
pub open spec fn spec_bubblegum_program_id() -> Pubkey {
    Pubkey { bytes: BUBBLEGUM_PROGRAM_ID }
}

/// The address of the program that owns the trees of tree-indexed assets.
#[verifier::when_used_as_spec(spec_bubblegum_program_id)]
pub fn bubblegum_program_id() -> (r: Pubkey)
    ensures
        r == spec_bubblegum_program_id(),
{
    Pubkey { bytes: BUBBLEGUM_PROGRAM_ID }
}

} // verus!
